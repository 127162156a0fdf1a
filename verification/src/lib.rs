//! Building blocks of an x86_64 boot chain: segment descriptors, page-table
//! entries, the sector loader, the long-mode transition and ELF header
//! validation, each with a machine-checked contract.

pub mod acpi;
pub mod ata;
pub mod disk;
pub mod elf;
pub mod gdt;
pub mod interrupts;
pub mod keyboard;
pub mod little_endian;
pub mod long_mode;
pub mod paging;
pub mod pci;
pub mod printing;
pub mod shell;
pub mod vga;
