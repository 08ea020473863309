//! Kernel-side library for a small battery-powered handheld computer.
//!
//! The heart of the crate is a position-independent ELF32 loader together
//! with the syscall-table ABI bridge that lets loaded applications call back
//! into kernel services.  Around it stand the plain-value models of the
//! kernel's other duties: the keyboard event codes, the SCSI command plumbing
//! for USB mass storage, the audio sample packing, and the directory-listing
//! buffers of the file ABI.
//!
//! All I/O (block device reads, USB endpoints, SPI, I2C) is performed by the
//! surrounding firmware; the functions here compute over plain bytes and
//! values, and every one of them carries a contract.

pub mod abi;
pub mod arena;
pub mod audio;
pub mod bytes;
pub mod display;
pub mod elf;
pub mod fs;
pub mod keyboard;
pub mod layout;
pub mod loader;
pub mod reloc;
pub mod scsi;
pub mod segment;
pub mod session;
pub mod syscall;
pub mod error;
