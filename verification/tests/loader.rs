use picokernel::arena::Arena;
use picokernel::elf::{ProgramHeader, Relocation};
use picokernel::error::LoadError;
use picokernel::layout::plan_layout;
use picokernel::loader::{load_image, load_image_locked, ExecFlags, LaunchSlot, StorageLock};
use picokernel::reloc::apply_relocation;
use picokernel::segment::materialize_segment;
use picokernel::session::{LoadSession, SessionPhase};
use picokernel::syscall::{write_table, SyscallCaps, SyscallTable};

fn set_u16(v: &mut [u8], off: usize, w: u16) {
    v[off] = (w & 0xff) as u8;
    v[off + 1] = (w >> 8) as u8;
}

fn set_u32(v: &mut [u8], off: usize, w: u32) {
    v[off] = (w & 0xff) as u8;
    v[off + 1] = ((w >> 8) & 0xff) as u8;
    v[off + 2] = ((w >> 16) & 0xff) as u8;
    v[off + 3] = ((w >> 24) & 0xff) as u8;
}

const PHOFF: usize = 52;
const STRTAB_OFF: usize = 100;
const REL_OFF: usize = 120;
const SYMTAB_OFF: usize = 128;
const SHOFF: usize = 160;
const SEG_OFF: usize = 512;
const SEG_SIZE: usize = 256;
const SEG_VADDR: u32 = 0x1000;
const STRING_VADDR: u32 = 0x1010;
const TABLE_VADDR: u32 = 0x1040;
const LOAD_BASE: u32 = 0x2000_0000;

/// A minimal "hello" PIE image: one loadable segment, one relocation
/// patching a string pointer, and a syscall-table symbol.
fn build_hello_image() -> Vec<u8> {
    let mut f = vec![0u8; SEG_OFF + SEG_SIZE];

    // ELF header.
    set_u16(&mut f, 16, 3); // e_type: ET_DYN
    set_u16(&mut f, 18, 40); // e_machine: ARM
    set_u32(&mut f, 24, SEG_VADDR); // e_entry
    set_u32(&mut f, 28, PHOFF as u32); // e_phoff
    set_u32(&mut f, 32, SHOFF as u32); // e_shoff
    set_u16(&mut f, 42, 32); // e_phentsize
    set_u16(&mut f, 44, 1); // e_phnum
    set_u16(&mut f, 46, 40); // e_shentsize
    set_u16(&mut f, 48, 4); // e_shnum

    // Program header: one PT_LOAD segment.
    set_u32(&mut f, PHOFF, 1); // p_type
    set_u32(&mut f, PHOFF + 4, SEG_OFF as u32); // p_offset
    set_u32(&mut f, PHOFF + 8, SEG_VADDR); // p_vaddr
    set_u32(&mut f, PHOFF + 16, SEG_SIZE as u32); // p_filesz
    set_u32(&mut f, PHOFF + 20, SEG_SIZE as u32); // p_memsz

    // String table: a NUL, the ABI symbol name, a NUL.
    let name = b"SYS_CALL_TABLE";
    f[STRTAB_OFF] = 0;
    f[STRTAB_OFF + 1..STRTAB_OFF + 1 + name.len()].copy_from_slice(name);
    f[STRTAB_OFF + 15] = 0;

    // One R_ARM_RELATIVE relocation for the stored string pointer.
    set_u32(&mut f, REL_OFF, SEG_VADDR + 4); // r_offset
    set_u32(&mut f, REL_OFF + 4, 23); // r_info

    // Symbol table: the null symbol, then the ABI table symbol.
    set_u32(&mut f, SYMTAB_OFF + 16, 1); // st_name
    set_u32(&mut f, SYMTAB_OFF + 20, TABLE_VADDR); // st_value

    // Section headers: null, SHT_REL, SHT_SYMTAB, SHT_STRTAB.
    let sh1 = SHOFF + 40;
    set_u32(&mut f, sh1 + 4, 9); // sh_type
    set_u32(&mut f, sh1 + 16, REL_OFF as u32);
    set_u32(&mut f, sh1 + 20, 8); // sh_size
    set_u32(&mut f, sh1 + 36, 8); // sh_entsize
    let sh2 = SHOFF + 80;
    set_u32(&mut f, sh2 + 4, 2); // sh_type
    set_u32(&mut f, sh2 + 16, SYMTAB_OFF as u32);
    set_u32(&mut f, sh2 + 20, 32); // sh_size
    set_u32(&mut f, sh2 + 24, 3); // sh_link: the string table
    set_u32(&mut f, sh2 + 36, 16); // sh_entsize
    let sh3 = SHOFF + 120;
    set_u32(&mut f, sh3 + 4, 3); // sh_type
    set_u32(&mut f, sh3 + 16, STRTAB_OFF as u32);
    set_u32(&mut f, sh3 + 20, 16); // sh_size

    // Segment contents: a pointer to the string, the string itself.
    set_u32(&mut f, SEG_OFF + 4, STRING_VADDR);
    f[SEG_OFF + 0x10] = b'h';
    f[SEG_OFF + 0x11] = b'i';
    f[SEG_OFF + 0x12] = 0;

    f
}

fn test_caps() -> SyscallCaps {
    let mut entries = Vec::new();
    for i in 0..14u32 {
        entries.push(0x4000_0000 + i);
    }
    SyscallCaps::new(entries).unwrap()
}

#[test]
fn layout_round_trip() {
    let phs = vec![
        ProgramHeader { p_type: 1, p_offset: 0, p_vaddr: 0x1000, p_filesz: 0, p_memsz: 0x200 },
        ProgramHeader { p_type: 1, p_offset: 0, p_vaddr: 0x1300, p_filesz: 0, p_memsz: 0x100 },
    ];
    let plan = plan_layout(&phs).unwrap();
    assert_eq!(plan.min_vaddr, 0x1000);
    assert_eq!(plan.max_vaddr, 0x1400);
    assert_eq!(plan.total_size, 0x400);
}

#[test]
fn layout_skips_non_load_segments() {
    let phs = vec![
        ProgramHeader { p_type: 6, p_offset: 0, p_vaddr: 0x10, p_filesz: 0, p_memsz: 0x10000 },
        ProgramHeader { p_type: 1, p_offset: 0, p_vaddr: 0x2000, p_filesz: 0, p_memsz: 0x80 },
    ];
    let plan = plan_layout(&phs).unwrap();
    assert_eq!(plan.min_vaddr, 0x2000);
    assert_eq!(plan.max_vaddr, 0x2080);
    assert_eq!(plan.total_size, 0x80);
}

#[test]
fn layout_of_empty_image_is_zero() {
    let phs = vec![
        ProgramHeader { p_type: 6, p_offset: 0, p_vaddr: 0x10, p_filesz: 0, p_memsz: 0x10000 },
    ];
    let plan = plan_layout(&phs).unwrap();
    assert_eq!(plan.total_size, 0);
}

#[test]
fn layout_rejects_overflowing_segment() {
    let phs = vec![
        ProgramHeader { p_type: 1, p_offset: 0, p_vaddr: 0xffff_ff00, p_filesz: 0, p_memsz: 0x200 },
    ];
    assert_eq!(plan_layout(&phs), Err(LoadError::FailedToReadFile));
}

#[test]
fn zero_fill_invariant() {
    // The arena starts out full of junk; the BSS tail must still be zeroed.
    let mut arena = Arena { bytes: vec![0xaa; 64], base_vaddr: 0x1000 };
    let mut file = vec![0u8; 96];
    for k in 0..16 {
        file[32 + k] = 0x11 + k as u8;
    }
    let ph = ProgramHeader { p_type: 1, p_offset: 32, p_vaddr: 0x1000, p_filesz: 16, p_memsz: 64 };
    materialize_segment(&mut arena, &ph, &file).unwrap();
    for k in 0..16 {
        assert_eq!(arena.bytes[k], 0x11 + k as u8);
    }
    for k in 16..64 {
        assert_eq!(arena.bytes[k], 0x00);
    }
}

#[test]
fn segment_larger_than_file_is_rejected() {
    let mut arena = Arena { bytes: vec![0; 64], base_vaddr: 0x1000 };
    let file = vec![0u8; 8];
    let ph = ProgramHeader { p_type: 1, p_offset: 0, p_vaddr: 0x1000, p_filesz: 16, p_memsz: 64 };
    assert_eq!(materialize_segment(&mut arena, &ph, &file), Err(LoadError::FailedToReadFile));
}

#[test]
fn relocation_correctness() {
    let mut arena = Arena { bytes: vec![0; 64], base_vaddr: 0x1000 };
    arena.bytes[4] = 0x08; // stored word 0x0000_0008 at vaddr 0x1004
    let rel = Relocation { r_offset: 0x1004, r_info: 23 };
    apply_relocation(&mut arena, &rel, 0x2000_0000).unwrap();
    assert_eq!(arena.read_word(4), 0x2000_0008);
    // The neighbouring bytes are untouched.
    assert_eq!(arena.read_word(0), 0);
    assert_eq!(arena.read_word(8), 0);
}

#[test]
fn relocation_wraps_at_32_bits() {
    let mut arena = Arena { bytes: vec![0; 8], base_vaddr: 0 };
    arena.bytes[0] = 0xff;
    arena.bytes[1] = 0xff;
    arena.bytes[2] = 0xff;
    arena.bytes[3] = 0xff;
    let rel = Relocation { r_offset: 0, r_info: 23 };
    apply_relocation(&mut arena, &rel, 2).unwrap();
    assert_eq!(arena.read_word(0), 1);
}

#[test]
fn unknown_relocation_type_is_fatal() {
    let mut arena = Arena { bytes: vec![0; 64], base_vaddr: 0x1000 };
    let rel = Relocation { r_offset: 0x1004, r_info: 2 };
    assert_eq!(apply_relocation(&mut arena, &rel, 0x2000_0000), Err(LoadError::UnknownRelocationType));
}

#[test]
fn relocation_outside_arena_is_rejected() {
    let mut arena = Arena { bytes: vec![0; 64], base_vaddr: 0x1000 };
    let rel = Relocation { r_offset: 0x2000, r_info: 23 };
    assert_eq!(apply_relocation(&mut arena, &rel, 0x2000_0000), Err(LoadError::FailedToReadFile));
}

#[test]
fn abi_ordinal_stability() {
    for i in 0..14u8 {
        let call = SyscallTable::from_ordinal(i).unwrap();
        assert_eq!(call.ordinal(), i);
    }
    assert!(SyscallTable::from_ordinal(14).is_none());
    // A capability list of the wrong length is a build mistake, caught at
    // construction.
    assert!(SyscallCaps::new(vec![0; 13]).is_none());
    assert!(SyscallCaps::new(vec![0; 14]).is_some());
}

#[test]
fn patched_table_follows_ordinals() {
    let mut arena = Arena { bytes: vec![0xee; 80], base_vaddr: 0 };
    let caps = test_caps();
    write_table(&mut arena, 8, &caps);
    for k in 0..14u32 {
        assert_eq!(arena.read_word(8 + 4 * k as usize), 0x4000_0000 + k);
    }
    // Bytes around the table keep their previous contents.
    assert_eq!(arena.bytes[7], 0xee);
    assert_eq!(arena.bytes[64], 0xee);
}

#[test]
fn rejection_of_non_pie() {
    let mut f = build_hello_image();
    set_u16(&mut f, 16, 2); // e_type: ET_EXEC
    let caps = test_caps();
    assert_eq!(load_image(&f, LOAD_BASE, &caps).err(), Some(LoadError::ElfIsNotPie));
}

#[test]
fn truncated_header_fails_to_read() {
    let f = vec![0u8; 30];
    let caps = test_caps();
    assert_eq!(load_image(&f, LOAD_BASE, &caps).err(), Some(LoadError::FailedToReadFile));
}

#[test]
fn image_without_loadable_segment_is_rejected() {
    let mut f = build_hello_image();
    set_u32(&mut f, PHOFF, 6); // the only segment is no longer PT_LOAD
    let caps = test_caps();
    assert_eq!(load_image(&f, LOAD_BASE, &caps).err(), Some(LoadError::FailedToReadFile));
}

#[test]
fn missing_symbol_rejection() {
    let mut f = build_hello_image();
    f[STRTAB_OFF + 14] = b'X'; // the symbol is now SYS_CALL_TABLX
    let caps = test_caps();
    assert_eq!(load_image(&f, LOAD_BASE, &caps).err(), Some(LoadError::SyscallTableNotFound));
}

#[test]
fn unknown_relocation_fails_the_load() {
    let mut f = build_hello_image();
    set_u32(&mut f, REL_OFF + 4, 2); // R_ARM_ABS32 instead of R_ARM_RELATIVE
    let caps = test_caps();
    assert_eq!(load_image(&f, LOAD_BASE, &caps).err(), Some(LoadError::UnknownRelocationType));
}

#[test]
fn single_active_load() {
    let f = build_hello_image();
    let caps = test_caps();
    let mut lock = StorageLock::new();
    assert!(lock.try_acquire());
    // A second load while the first holds the storage fails instead of
    // interleaving reads.
    assert_eq!(
        load_image_locked(&mut lock, &f, LOAD_BASE, &caps).err(),
        Some(LoadError::FailedToReadFile)
    );
    assert!(lock.held);
    lock.release();
    assert!(load_image_locked(&mut lock, &f, LOAD_BASE, &caps).is_ok());
    assert!(!lock.held);
}

#[test]
fn end_to_end_hello() {
    let f = build_hello_image();
    let caps = test_caps();
    let img = load_image(&f, LOAD_BASE, &caps).unwrap();

    // The arena spans exactly the one segment.
    assert_eq!(img.arena.base_vaddr, SEG_VADDR);
    assert_eq!(img.arena.bytes.len(), SEG_SIZE);

    // The entry handle points at the segment's first byte.
    assert_eq!(img.entry.offset(), 0);

    // The string pointer was relocated to its runtime address.
    assert_eq!(img.arena.read_word(4), LOAD_BASE + STRING_VADDR);

    // The string itself was materialized.
    let s = (STRING_VADDR - SEG_VADDR) as usize;
    assert_eq!(&img.arena.bytes[s..s + 3], b"hi\0");

    // Every syscall slot holds the kernel pointer for its ordinal; calling
    // through the print slot reaches the kernel's print service.
    assert_eq!(img.table_offset, (TABLE_VADDR - SEG_VADDR) as usize);
    for k in 0..14u32 {
        assert_eq!(img.arena.read_word(img.table_offset + 4 * k as usize), 0x4000_0000 + k);
    }
    let print_slot = SyscallTable::PrintString.ordinal() as usize;
    assert_eq!(img.arena.read_word(img.table_offset + 4 * print_slot), 0x4000_0002);

    // Handoff: the single-slot channel takes one image and refuses a
    // second until the first is consumed.
    let mut slot = LaunchSlot::new();
    assert!(slot.offer(img).is_ok());
    let second = load_image(&f, LOAD_BASE, &caps).unwrap();
    let second = match slot.offer(second) {
        Err(back) => back,
        Ok(()) => panic!("the slot accepted a second image"),
    };
    let taken = slot.take().unwrap();
    assert_eq!(taken.entry.offset(), 0);
    assert!(slot.take().is_none());
    assert!(slot.offer(second).is_ok());
}

#[test]
fn incremental_session_matches_whole_image_load() {
    let f = build_hello_image();
    let mut s = LoadSession::new(f.len() as u64, LOAD_BASE, test_caps());
    assert_eq!(s.current_phase(), SessionPhase::Start);
    let mut reads = 0;
    while let Some((off, len)) = s.next_request() {
        // Every request is bounded by one transfer buffer and in bounds.
        assert!(len > 0 && len <= 512);
        assert!(off as usize + len <= f.len());
        s.feed(&f[off as usize..off as usize + len]);
        reads += 1;
        assert!(reads < 10_000);
    }
    assert_eq!(s.current_phase(), SessionPhase::Ready);
    let img = s.finish().unwrap();

    let whole = load_image(&f, LOAD_BASE, &test_caps()).unwrap();
    assert_eq!(img.arena.bytes, whole.arena.bytes);
    assert_eq!(img.arena.base_vaddr, whole.arena.base_vaddr);
    assert_eq!(img.entry.offset(), whole.entry.offset());
    assert_eq!(img.table_offset, whole.table_offset);
}

#[test]
fn session_rejects_non_pie() {
    let mut f = build_hello_image();
    set_u16(&mut f, 16, 2); // e_type: ET_EXEC
    let mut s = LoadSession::new(f.len() as u64, LOAD_BASE, test_caps());
    while let Some((off, len)) = s.next_request() {
        s.feed(&f[off as usize..off as usize + len]);
    }
    assert_eq!(s.current_phase(), SessionPhase::Failed);
    assert_eq!(s.finish().err(), Some(LoadError::ElfIsNotPie));
}

#[test]
fn session_fails_on_short_read() {
    let f = build_hello_image();
    let mut s = LoadSession::new(f.len() as u64, LOAD_BASE, test_caps());
    let (off, len) = s.next_request().unwrap();
    // Hand back one byte less than requested, as a failing card would.
    s.feed(&f[off as usize..off as usize + len - 1]);
    assert_eq!(s.current_phase(), SessionPhase::Failed);
    assert_eq!(s.finish().err(), Some(LoadError::FailedToReadFile));
}

#[test]
fn session_missing_symbol() {
    let mut f = build_hello_image();
    f[STRTAB_OFF + 14] = b'X';
    let mut s = LoadSession::new(f.len() as u64, LOAD_BASE, test_caps());
    while let Some((off, len)) = s.next_request() {
        s.feed(&f[off as usize..off as usize + len]);
    }
    assert_eq!(s.finish().err(), Some(LoadError::SyscallTableNotFound));
}

#[test]
fn session_phases_move_forward() {
    let f = build_hello_image();
    let mut s = LoadSession::new(f.len() as u64, LOAD_BASE, test_caps());
    let rank = |p: SessionPhase| match p {
        SessionPhase::Start => 0,
        SessionPhase::HeaderRead => 1,
        SessionPhase::TypeValidated => 2,
        SessionPhase::LayoutPlanned => 3,
        SessionPhase::ArenaAllocated => 4,
        SessionPhase::SegmentsLoaded => 5,
        SessionPhase::Relocated => 6,
        SessionPhase::SyscallTablePatched => 7,
        SessionPhase::Ready => 8,
        SessionPhase::Failed => 9,
    };
    let mut last = rank(s.current_phase());
    while let Some((off, len)) = s.next_request() {
        s.feed(&f[off as usize..off as usize + len]);
        let now = rank(s.current_phase());
        assert!(now >= last);
        last = now;
    }
    assert_eq!(s.current_phase(), SessionPhase::Ready);
}

#[test]
fn exec_flags_track_the_running_application() {
    let mut flags = ExecFlags::new();
    assert!(flags.ui_enabled);
    assert!(!flags.app_active);
    flags.launch();
    assert!(flags.app_active);
    assert!(!flags.ui_enabled);
    flags.resume();
    assert!(!flags.app_active);
    assert!(flags.ui_enabled);
}

#[test]
fn bss_tail_is_zero_after_full_load() {
    let mut f = build_hello_image();
    // The segment keeps its memory span but only half its bytes come from
    // the file; the rest is BSS.
    set_u32(&mut f, PHOFF + 16, 0x80); // p_filesz
    for k in 0x80..SEG_SIZE {
        f[SEG_OFF + k] = 0xcc; // junk past the file part must not be copied
    }
    let caps = test_caps();
    let img = load_image(&f, LOAD_BASE, &caps).unwrap();
    assert_eq!(img.arena.bytes.len(), SEG_SIZE);
    for k in 0x80..SEG_SIZE {
        assert_eq!(img.arena.bytes[k], 0);
    }
    assert_eq!(img.arena.read_word(4), LOAD_BASE + STRING_VADDR);
}

#[test]
fn oversized_program_header_entries_still_parse() {
    let mut f = build_hello_image();
    set_u16(&mut f, 42, 40); // e_phentsize: entries padded to 40 bytes
    let caps = test_caps();
    let img = load_image(&f, LOAD_BASE, &caps).unwrap();
    assert_eq!(img.arena.base_vaddr, SEG_VADDR);
}

#[test]
fn materializing_touches_only_the_segment() {
    let mut arena = Arena { bytes: vec![0xaa; 0x100], base_vaddr: 0x1000 };
    let file = vec![0x55u8; 64];
    let ph = ProgramHeader { p_type: 1, p_offset: 0, p_vaddr: 0x1040, p_filesz: 8, p_memsz: 16 };
    materialize_segment(&mut arena, &ph, &file).unwrap();
    // Below and above the segment the arena keeps its previous contents.
    for k in 0..0x40 {
        assert_eq!(arena.bytes[k], 0xaa);
    }
    for k in 0x50..0x100 {
        assert_eq!(arena.bytes[k], 0xaa);
    }
    for k in 0x40..0x48 {
        assert_eq!(arena.bytes[k], 0x55);
    }
    for k in 0x48..0x50 {
        assert_eq!(arena.bytes[k], 0x00);
    }
}

#[test]
fn session_validates_the_header_first() {
    let f = build_hello_image();
    let mut s = LoadSession::new(f.len() as u64, LOAD_BASE, test_caps());
    let (off, len) = s.next_request().unwrap();
    assert_eq!((off, len), (0, 52));
    s.feed(&f[0..52]);
    // A well-formed header moves the attempt past type validation.
    assert_eq!(s.current_phase(), SessionPhase::TypeValidated);
}
