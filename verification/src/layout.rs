//! The layout planner: scan all `PT_LOAD` program headers and compute the
//! span of virtual addresses the image occupies.

use vstd::prelude::*;

use crate::elf::{ProgramHeader, PT_LOAD};
use crate::error::LoadError;

verus! {

/// Whether a program header describes a loadable segment.
pub open spec fn is_load(ph: ProgramHeader) -> bool {
    ph.p_type == PT_LOAD
}

/// The end of the memory span a segment occupies.
pub open spec fn seg_end(ph: ProgramHeader) -> int {
    ph.p_vaddr + ph.p_memsz
}

/// Some of the first `n` program headers is a loadable segment.
pub open spec fn any_load(s: Seq<ProgramHeader>, n: int) -> bool
    decreases n,
{
    if n <= 0 {
        false
    } else {
        any_load(s, n - 1) || is_load(s[n - 1])
    }
}

/// Minimum virtual address over the loadable segments among the first `n`
/// program headers; `u32::MAX` while none has been seen.
pub open spec fn min_load_vaddr(s: Seq<ProgramHeader>, n: int) -> int
    decreases n,
{
    if n <= 0 {
        0xffff_ffff
    } else {
        let rest = min_load_vaddr(s, n - 1);
        if is_load(s[n - 1]) && s[n - 1].p_vaddr < rest {
            s[n - 1].p_vaddr as int
        } else {
            rest
        }
    }
}

/// Maximum segment end over the loadable segments among the first `n`
/// program headers; `0` while none has been seen.
pub open spec fn max_load_end(s: Seq<ProgramHeader>, n: int) -> int
    decreases n,
{
    if n <= 0 {
        0
    } else {
        let rest = max_load_end(s, n - 1);
        if is_load(s[n - 1]) && seg_end(s[n - 1]) > rest {
            seg_end(s[n - 1])
        } else {
            rest
        }
    }
}

/// Without any loadable segment the accumulators keep their start values.
pub proof fn lemma_no_load(s: Seq<ProgramHeader>, n: int)
    requires
        !any_load(s, n),
    ensures
        min_load_vaddr(s, n) == 0xffff_ffff,
        max_load_end(s, n) == 0,
    decreases n,
{
    if n > 0 {
        lemma_no_load(s, n - 1);
    }
}

/// The memory span of an image's loadable segments.
#[derive(Clone, Copy, Debug, PartialEq, Eq, Structural)]
pub struct LayoutPlan {
    /// Bytes the arena must hold: `max_vaddr - min_vaddr`, or zero when the
    /// image has no loadable segment.
    pub total_size: usize,
    /// Lowest virtual address of any loadable segment (`u32::MAX` when there
    /// is none).
    pub min_vaddr: u32,
    /// Highest end address of any loadable segment (`0` when there is none).
    pub max_vaddr: u32,
}

/// Scan the program headers and compute the image's memory span.
///
/// Fails with `FailedToReadFile` exactly when some loadable segment's end
/// address does not fit in 32 bits; such a segment could never have been
/// linked into a valid ELF32 image.
pub fn plan_layout(phs: &Vec<ProgramHeader>) -> (r: Result<LayoutPlan, LoadError>)
    ensures
        match r {
            Ok(p) => {
                &&& forall|k: int| 0 <= k < phs@.len() && is_load(phs@[k]) ==> seg_end(phs@[k]) <= 0xffff_ffff
                &&& p.min_vaddr == min_load_vaddr(phs@, phs@.len() as int)
                &&& p.max_vaddr == max_load_end(phs@, phs@.len() as int)
                &&& p.total_size == if any_load(phs@, phs@.len() as int) {
                    p.max_vaddr - p.min_vaddr
                } else {
                    0
                }
            },
            Err(e) => {
                &&& exists|k: int|
                    0 <= k < phs@.len() && is_load(phs@[k]) && seg_end(phs@[k]) > 0xffff_ffff
                &&& e == LoadError::FailedToReadFile
            },
        },
{
    let mut min_vaddr: u32 = u32::MAX;
    let mut max_vaddr: u32 = 0;
    let mut i: usize = 0;
    while i < phs.len()
        invariant
            i <= phs@.len(),
            min_vaddr == min_load_vaddr(phs@, i as int),
            max_vaddr == max_load_end(phs@, i as int),
            forall|k: int| 0 <= k < i && is_load(phs@[k]) ==> seg_end(phs@[k]) <= 0xffff_ffff,
            any_load(phs@, i as int) ==> min_vaddr <= max_vaddr,
        decreases phs@.len() - i,
    {
        let ph = phs[i];
        if ph.p_type == PT_LOAD {
            match ph.p_vaddr.checked_add(ph.p_memsz) {
                Some(end) => {
                    if ph.p_vaddr < min_vaddr {
                        min_vaddr = ph.p_vaddr;
                    }
                    if end > max_vaddr {
                        max_vaddr = end;
                    }
                },
                None => {
                    return Err(LoadError::FailedToReadFile);
                },
            }
        }
        i += 1;
    }
    let total_size: usize = if min_vaddr < max_vaddr {
        (max_vaddr - min_vaddr) as usize
    } else {
        0
    };
    proof {
        if !any_load(phs@, phs@.len() as int) {
            lemma_no_load(phs@, phs@.len() as int);
        }
    }
    Ok(LayoutPlan { total_size, min_vaddr, max_vaddr })
}

} // verus!
