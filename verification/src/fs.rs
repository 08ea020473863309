//! The file ABI's plain-value side: the fixed-size directory-listing
//! buffers applications hand to `list_dir`, and the storage layer's error
//! surface.
//!
//! The FAT driver fills the buffers; extracting the NUL-terminated names
//! again, and packing a name into a bounded slot, happens here.

use vstd::prelude::*;

verus! {

/// Longest directory entry name a listing slot can hold, the NUL included.
pub const MAX_ENTRY_NAME_LEN: usize = 25;

/// Number of slots a directory listing holds.
pub const MAX_ENTRIES: usize = 25;

/// Position `n` ends the name stored in `s`: every byte before it is
/// non-NUL, and it is either a NUL or the end of the slot.
pub open spec fn is_name_end(s: Seq<u8>, n: int) -> bool {
    &&& 0 <= n <= s.len()
    &&& forall|k: int| 0 <= k < n ==> s[k] != 0
    &&& (n == s.len() || s[n] == 0)
}

/// The name stored in a slot: its bytes up to the first NUL.
pub open spec fn spec_name_prefix(s: Seq<u8>) -> Seq<u8>
    decreases s.len(),
{
    if s.len() == 0 {
        s
    } else if s[0] == 0 {
        Seq::empty()
    } else {
        seq![s[0]] + spec_name_prefix(s.drop_first())
    }
}

/// The name a slot stores reaches up to its first NUL: where `n` ends the
/// name, the prefix below `n` is the name.
pub proof fn lemma_name_prefix(s: Seq<u8>, n: int)
    requires
        is_name_end(s, n),
    ensures
        spec_name_prefix(s) == s.subrange(0, n),
    decreases s.len(),
{
    if s.len() == 0 {
        assert(s.subrange(0, 0) =~= s);
    } else if s[0] == 0 {
        assert(s.subrange(0, 0) =~= Seq::<u8>::empty());
    } else {
        lemma_name_prefix(s.drop_first(), n - 1);
        assert(s.subrange(0, n) =~= seq![s[0]] + s.drop_first().subrange(0, n - 1));
    }
}

/// The fixed-size buffer a directory listing fills: one NUL-terminated
/// name per slot.
pub struct Entries {
    /// The name slots.
    pub names: Vec<Vec<u8>>,
}

impl Entries {
    /// A listing buffer holds exactly `MAX_ENTRIES` slots of
    /// `MAX_ENTRY_NAME_LEN` bytes each.
    pub open spec fn wf(self) -> bool {
        &&& self.names.len() == MAX_ENTRIES
        &&& forall|i: int| 0 <= i < MAX_ENTRIES ==> #[trigger] self.names@[i].len()
            == MAX_ENTRY_NAME_LEN
    }

    /// A fresh listing buffer, all slots empty.
    pub fn new() -> (r: Entries)
        ensures
            r.wf(),
            forall|i: int, k: int|
                0 <= i < MAX_ENTRIES && 0 <= k < MAX_ENTRY_NAME_LEN ==> #[trigger] r.names@[i]@[k]
                    == 0u8,
    {
        let mut names: Vec<Vec<u8>> = Vec::new();
        let mut i: usize = 0;
        while i < MAX_ENTRIES
            invariant
                i <= MAX_ENTRIES,
                names.len() == i,
                forall|m: int| 0 <= m < i ==> #[trigger] names@[m].len() == MAX_ENTRY_NAME_LEN,
                forall|m: int, k: int|
                    0 <= m < i && 0 <= k < MAX_ENTRY_NAME_LEN ==> #[trigger] names@[m]@[k] == 0u8,
            decreases MAX_ENTRIES - i,
        {
            names.push(vec![0u8; MAX_ENTRY_NAME_LEN]);
            i += 1;
        }
        Entries { names }
    }

    /// The names the listing holds: for each slot, the bytes before its
    /// first NUL.
    pub fn entries(&self) -> (r: Vec<Vec<u8>>)
        requires
            self.wf(),
        ensures
            r.len() == MAX_ENTRIES,
            forall|i: int|
                0 <= i < MAX_ENTRIES ==> #[trigger] r@[i]@ == spec_name_prefix(self.names@[i]@),
    {
        let mut r: Vec<Vec<u8>> = Vec::new();
        let mut i: usize = 0;
        while i < MAX_ENTRIES
            invariant
                i <= MAX_ENTRIES,
                self.wf(),
                r.len() == i,
                forall|m: int|
                    0 <= m < i ==> #[trigger] r@[m]@ == spec_name_prefix(self.names@[m]@),
            decreases MAX_ENTRIES - i,
        {
            let slot = &self.names[i];
            let mut name: Vec<u8> = Vec::new();
            let mut k: usize = 0;
            while k < slot.len() && slot[k] != 0
                invariant
                    k <= slot.len(),
                    name.len() == k,
                    forall|m: int| 0 <= m < k ==> name@[m] == slot@[m],
                    forall|m: int| 0 <= m < k ==> slot@[m] != 0,
                decreases slot.len() - k,
            {
                name.push(slot[k]);
                k += 1;
            }
            proof {
                assert(name@ =~= slot@.subrange(0, k as int));
                assert(is_name_end(slot@, k as int));
                lemma_name_prefix(slot@, k as int);
            }
            r.push(name);
            i += 1;
        }
        r
    }
}

/// Pack a directory entry name into a bounded slot: the name truncated to
/// leave room for the terminator, then a NUL.
pub fn pack_entry_name(name: &[u8], max: usize) -> (r: Vec<u8>)
    requires
        max > 0,
    ensures
        r.len() == (if name.len() < max - 1 {
            name.len() + 1
        } else {
            max as int
        }),
        forall|k: int| 0 <= k < r.len() - 1 ==> r@[k] == name@[k],
        r@[r.len() - 1] == 0u8,
{
    let n = if name.len() < max - 1 {
        name.len()
    } else {
        max - 1
    };
    let mut r: Vec<u8> = Vec::new();
    let mut i: usize = 0;
    while i < n
        invariant
            i <= n,
            n <= name.len(),
            r.len() == i,
            forall|k: int| 0 <= k < i ==> r@[k] == name@[k],
        decreases n - i,
    {
        r.push(name[i]);
        i += 1;
    }
    r.push(0);
    r
}

/// `pat` occurs in `name` starting at position `p`.
pub open spec fn is_match_at(name: Seq<u8>, pat: Seq<u8>, p: int) -> bool {
    &&& 0 <= p
    &&& p + pat.len() <= name.len()
    &&& name.subrange(p, p + pat.len() as int) == pat
}

/// Whether `pat` occurs at position `p` of `name`.
fn match_at(name: &[u8], pat: &[u8], p: usize) -> (r: bool)
    requires
        p + pat.len() <= name.len(),
    ensures
        r == is_match_at(name@, pat@, p as int),
{
    let mut k: usize = 0;
    while k < pat.len()
        invariant
            k <= pat.len(),
            p + pat.len() <= name.len(),
            forall|m: int| 0 <= m < k ==> name@[p + m] == pat@[m],
        decreases pat.len() - k,
    {
        if name[p + k] != pat[k] {
            proof {
                if name@.subrange(p as int, p + pat.len()) == pat@ {
                    assert(name@.subrange(p as int, p + pat.len())[k as int] == pat@[k as int]);
                }
            }
            return false;
        }
        k += 1;
    }
    proof {
        assert(name@.subrange(p as int, p + pat.len()) =~= pat@);
    }
    true
}

/// Whether `name` contains `pat`: the filter the program list applies to
/// pick out binaries by their extension.
pub fn name_contains(name: &[u8], pat: &[u8]) -> (r: bool)
    ensures
        r == exists|p: int| is_match_at(name@, pat@, p),
{
    if pat.len() > name.len() {
        return false;
    }
    let last = name.len() - pat.len();
    let mut p: usize = 0;
    loop
        invariant
            pat.len() <= name.len(),
            last == name.len() - pat.len(),
            p <= last,
            forall|q: int| 0 <= q < p ==> !is_match_at(name@, pat@, q),
        decreases last - p,
    {
        if match_at(name, pat, p) {
            proof {
                assert(is_match_at(name@, pat@, p as int));
            }
            return true;
        }
        if p == last {
            return false;
        }
        p += 1;
    }
}

/// Index of the last dot of `s`, or `-1` when it has none.
pub open spec fn spec_last_dot(s: Seq<u8>) -> int
    decreases s.len(),
{
    if s.len() == 0 {
        -1
    } else if s[s.len() - 1] == 0x2e {
        s.len() - 1
    } else {
        spec_last_dot(s.drop_last())
    }
}

/// The position of a dot with no dot after it is the last dot; without any
/// dot the last dot is `-1`.
proof fn lemma_last_dot(s: Seq<u8>, d: int)
    requires
        -1 <= d < s.len(),
        d >= 0 ==> s[d] == 0x2e,
        forall|k: int| d < k < s.len() ==> s[k] != 0x2e,
    ensures
        spec_last_dot(s) == d,
    decreases s.len(),
{
    if s.len() > 0 && s[s.len() - 1] != 0x2e {
        lemma_last_dot(s.drop_last(), d);
    }
}

/// Split a file name into its base and its extension at the last dot, as
/// directory listings present their entries; a name without a dot has no
/// extension.
pub fn split_extension(name: &[u8]) -> (r: (Vec<u8>, Option<Vec<u8>>))
    ensures
        spec_last_dot(name@) >= 0 ==> {
            &&& r.0@ == name@.subrange(0, spec_last_dot(name@))
            &&& r.1 matches Some(e) && e@ == name@.subrange(
                spec_last_dot(name@) + 1,
                name@.len() as int,
            )
        },
        spec_last_dot(name@) < 0 ==> r.0@ == name@ && r.1 is None,
{
    let mut i: usize = name.len();
    while i > 0
        invariant
            i <= name.len(),
            forall|k: int| i <= k < name.len() ==> name@[k] != 0x2e,
        decreases i,
    {
        if name[i - 1] == 0x2e {
            proof {
                lemma_last_dot(name@, i - 1);
            }
            let mut base: Vec<u8> = Vec::new();
            let mut k: usize = 0;
            while k < i - 1
                invariant
                    i >= 1,
                    i <= name.len(),
                    k <= i - 1,
                    base.len() == k,
                    forall|m: int| 0 <= m < k ==> base@[m] == name@[m],
                decreases i - 1 - k,
            {
                base.push(name[k]);
                k += 1;
            }
            let mut ext: Vec<u8> = Vec::new();
            let mut k: usize = i;
            while k < name.len()
                invariant
                    i <= name.len(),
                    i <= k <= name.len(),
                    ext.len() == k - i,
                    forall|m: int| 0 <= m < k - i ==> ext@[m] == name@[i + m],
                decreases name.len() - k,
            {
                ext.push(name[k]);
                k += 1;
            }
            proof {
                assert(base@ =~= name@.subrange(0, i - 1));
                assert(ext@ =~= name@.subrange(i as int, name@.len() as int));
            }
            return (base, Some(ext));
        }
        i -= 1;
    }
    proof {
        lemma_last_dot(name@, -1);
    }
    let mut base: Vec<u8> = Vec::new();
    let mut k: usize = 0;
    while k < name.len()
        invariant
            k <= name.len(),
            base.len() == k,
            forall|m: int| 0 <= m < k ==> base@[m] == name@[m],
        decreases name.len() - k,
    {
        base.push(name[k]);
        k += 1;
    }
    proof {
        assert(base@ =~= name@);
    }
    (base, None)
}

/// Why the storage layer could not satisfy a request.
#[derive(Clone, Copy, Debug, PartialEq, Eq, Structural)]
pub enum SdCardError {
    /// The card has no first volume.
    Volume0Missing,
    /// The first volume has no root directory.
    RootDirMissing,
    /// The file could not be opened.
    FileOpenFailed,
}

/// The fixed timestamp source the FAT driver is given: this device has no
/// battery-backed clock, so every write is stamped with the same date.
#[derive(Clone, Copy, Debug, PartialEq, Eq, Structural)]
pub struct DummyTimeSource {}

impl DummyTimeSource {
    /// The fixed calendar timestamp every write carries, as year, month,
    /// day, hour, minute, second.
    pub fn timestamp(&self) -> (r: (u16, u8, u8, u8, u8, u8))
        ensures
            r == (2022u16, 1u8, 1u8, 0u8, 0u8, 0u8),
    {
        (2022, 1, 1, 0, 0, 0)
    }
}

} // verus!
