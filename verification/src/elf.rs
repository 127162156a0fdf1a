//! Reading and validating the header of a 64-bit ELF image.
//!
//! All multi-byte fields are little-endian. The file header is 64 bytes:
//!
//! | bytes  | field                                    |
//! |--------|------------------------------------------|
//! | 0..4   | magic: 7F 45 4C 46                       |
//! | 4      | bitness                                  |
//! | 5      | endianness                               |
//! | 6      | header version                           |
//! | 7      | ABI                                      |
//! | 8      | ABI version                              |
//! | 9..16  | padding                                  |
//! | 16..18 | object type                              |
//! | 18..20 | instruction set                          |
//! | 20..24 | ELF version                              |
//! | 24..32 | entry point                              |
//! | 32..40 | offset of the program header table       |
//! | 40..48 | offset of the section header table       |
//! | 48..52 | flags                                    |
//! | 52..54 | size of this header                      |
//! | 54..56 | size of a program header                 |
//! | 56..58 | number of program headers                |
//! | 58..60 | size of a section header                 |
//! | 60..62 | number of section headers                |
//! | 62..64 | index of the section that holds names    |
//!
//! A program header is 56 bytes and a section header 64; their layouts are
//! given at [`ProgramHeader::spec_from_bytes`] and
//! [`SectionHeader::spec_from_bytes`].

use vstd::prelude::*;
use crate::little_endian::{le_u16, le_u32, le_u64, read_u16, read_u32, read_u64};

verus! {

/// The size of the file header in bytes.
pub const FILE_HEADER_SIZE: u16 = 64;

/// The size of a program header in bytes.
pub const PROGRAM_HEADER_SIZE: u16 = 56;

/// The size of a section header in bytes.
pub const SECTION_HEADER_SIZE: u16 = 64;

/// The first four bytes of every ELF image: 0x7F, then `ELF`.
pub const MAGIC: [u8; 4] = [0x7F, 0x45, 0x4C, 0x46];

/// Whether an image is 32-bit or 64-bit.
#[derive(Clone, Copy, Debug, PartialEq, Eq)]
pub enum Bitness {
    X32,
    X64,
}

impl Bitness {
    /// The byte that stands for this bitness: 1 for 32-bit, 2 for 64-bit.
    pub open spec fn spec_code(self) -> u8 {
        match self {
            Bitness::X32 => 1,
            Bitness::X64 => 2,
        }
    }

    /// The byte that stands for this bitness.
    #[verifier::when_used_as_spec(spec_code)]
    pub fn code(self) -> (r: u8)
        ensures
            r == self.spec_code(),
    {
        match self {
            Bitness::X32 => 1,
            Bitness::X64 => 2,
        }
    }

    /// The bitness that `code` stands for, if any.
    pub fn from_code(code: u8) -> (r: Option<Bitness>)
        ensures
            r matches Some(b) ==> b.spec_code() == code,
            r is None ==> forall|b: Bitness| b.spec_code() != code,
    {
        match code {
            1 => Some(Bitness::X32),
            2 => Some(Bitness::X64),
            _ => None,
        }
    }
}

/// The byte order of an image.
#[derive(Clone, Copy, Debug, PartialEq, Eq)]
pub enum Endianess {
    Little,
    Big,
}

impl Endianess {
    /// The byte order of the CPU that this loader runs on.
    pub const NATIVE: Endianess = Endianess::Little;

    /// The byte that stands for this byte order: 1 for little, 2 for big.
    pub open spec fn spec_code(self) -> u8 {
        match self {
            Endianess::Little => 1,
            Endianess::Big => 2,
        }
    }

    /// The byte that stands for this byte order.
    #[verifier::when_used_as_spec(spec_code)]
    pub fn code(self) -> (r: u8)
        ensures
            r == self.spec_code(),
    {
        match self {
            Endianess::Little => 1,
            Endianess::Big => 2,
        }
    }

    /// The byte order that `code` stands for, if any.
    pub fn from_code(code: u8) -> (r: Option<Endianess>)
        ensures
            r matches Some(e) ==> e.spec_code() == code,
            r is None ==> forall|e: Endianess| e.spec_code() != code,
    {
        match code {
            1 => Some(Endianess::Little),
            2 => Some(Endianess::Big),
            _ => None,
        }
    }
}

/// What kind of object an image is.
#[derive(Clone, Copy, Debug, PartialEq, Eq)]
pub enum ObjectType {
    /// No type.
    NoType,
    /// Output of a compiler, to be linked.
    Relocatable,
    /// A program linked for a fixed address.
    Exectuable,
    /// A shared object or a position-independent program.
    Dyn,
    /// A core dump.
    Core,
}

impl ObjectType {
    /// The number that stands for this kind, 0 to 4 in the order of the
    /// variants.
    pub open spec fn spec_code(self) -> u16 {
        match self {
            ObjectType::NoType => 0,
            ObjectType::Relocatable => 1,
            ObjectType::Exectuable => 2,
            ObjectType::Dyn => 3,
            ObjectType::Core => 4,
        }
    }

    /// The number that stands for this kind.
    #[verifier::when_used_as_spec(spec_code)]
    pub fn code(self) -> (r: u16)
        ensures
            r == self.spec_code(),
    {
        match self {
            ObjectType::NoType => 0,
            ObjectType::Relocatable => 1,
            ObjectType::Exectuable => 2,
            ObjectType::Dyn => 3,
            ObjectType::Core => 4,
        }
    }

    /// The kind that `code` stands for, if any.
    pub fn from_code(code: u16) -> (r: Option<ObjectType>)
        ensures
            r matches Some(t) ==> t.spec_code() == code,
            r is None ==> forall|t: ObjectType| t.spec_code() != code,
    {
        match code {
            0 => Some(ObjectType::NoType),
            1 => Some(ObjectType::Relocatable),
            2 => Some(ObjectType::Exectuable),
            3 => Some(ObjectType::Dyn),
            4 => Some(ObjectType::Core),
            _ => None,
        }
    }
}

/// The ABI that an image targets.
#[allow(clippy::upper_case_acronyms)]
#[derive(Clone, Copy, Debug, PartialEq, Eq)]
pub enum ABI {
    SystemV,
    HPUX,
    NetBSD,
    Linux,
    Hurd,
    Solaris,
    AIX,
    IRIX,
    FreeBSD,
    Tru64,
    NovellModesto,
    OpenBSD,
    OpenVMS,
    NonStopKernel,
    AROS,
    FenixOS,
    NuxiCloud,
    OpenVOS,
}

impl ABI {
    /// The byte that stands for this ABI: 0 to 4 for the first five, 6 to 18
    /// for the rest, in the order of the variants.
    pub open spec fn spec_code(self) -> u8 {
        match self {
            ABI::SystemV => 0,
            ABI::HPUX => 1,
            ABI::NetBSD => 2,
            ABI::Linux => 3,
            ABI::Hurd => 4,
            ABI::Solaris => 6,
            ABI::AIX => 7,
            ABI::IRIX => 8,
            ABI::FreeBSD => 9,
            ABI::Tru64 => 10,
            ABI::NovellModesto => 11,
            ABI::OpenBSD => 12,
            ABI::OpenVMS => 13,
            ABI::NonStopKernel => 14,
            ABI::AROS => 15,
            ABI::FenixOS => 16,
            ABI::NuxiCloud => 17,
            ABI::OpenVOS => 18,
        }
    }

    /// The byte that stands for this ABI.
    #[verifier::when_used_as_spec(spec_code)]
    pub fn code(self) -> (r: u8)
        ensures
            r == self.spec_code(),
    {
        match self {
            ABI::SystemV => 0,
            ABI::HPUX => 1,
            ABI::NetBSD => 2,
            ABI::Linux => 3,
            ABI::Hurd => 4,
            ABI::Solaris => 6,
            ABI::AIX => 7,
            ABI::IRIX => 8,
            ABI::FreeBSD => 9,
            ABI::Tru64 => 10,
            ABI::NovellModesto => 11,
            ABI::OpenBSD => 12,
            ABI::OpenVMS => 13,
            ABI::NonStopKernel => 14,
            ABI::AROS => 15,
            ABI::FenixOS => 16,
            ABI::NuxiCloud => 17,
            ABI::OpenVOS => 18,
        }
    }

    /// The ABI that `code` stands for, if any.
    pub fn from_code(code: u8) -> (r: Option<ABI>)
        ensures
            r matches Some(abi) ==> abi.spec_code() == code,
            r is None ==> forall|abi: ABI| abi.spec_code() != code,
    {
        match code {
            0 => Some(ABI::SystemV),
            1 => Some(ABI::HPUX),
            2 => Some(ABI::NetBSD),
            3 => Some(ABI::Linux),
            4 => Some(ABI::Hurd),
            6 => Some(ABI::Solaris),
            7 => Some(ABI::AIX),
            8 => Some(ABI::IRIX),
            9 => Some(ABI::FreeBSD),
            10 => Some(ABI::Tru64),
            11 => Some(ABI::NovellModesto),
            12 => Some(ABI::OpenBSD),
            13 => Some(ABI::OpenVMS),
            14 => Some(ABI::NonStopKernel),
            15 => Some(ABI::AROS),
            16 => Some(ABI::FenixOS),
            17 => Some(ABI::NuxiCloud),
            18 => Some(ABI::OpenVOS),
            _ => None,
        }
    }
}

/// What a segment of an image is for.
#[derive(Clone, Copy, Debug, PartialEq, Eq)]
pub enum ProgramType {
    /// Unused.
    Null,
    /// To be loaded into memory.
    Load,
    /// Information for dynamic linking.
    Dynamic,
    /// The path of an interpreter.
    Interpreter,
    /// Auxiliary information.
    Note,
    /// Reserved.
    Lib,
    /// The program header table itself.
    ProgramHeader,
    /// Thread-local storage.
    ThreadLocal,
}

impl ProgramType {
    /// The number that stands for this type, 0 to 7 in the order of the
    /// variants.
    pub open spec fn spec_code(self) -> u32 {
        match self {
            ProgramType::Null => 0,
            ProgramType::Load => 1,
            ProgramType::Dynamic => 2,
            ProgramType::Interpreter => 3,
            ProgramType::Note => 4,
            ProgramType::Lib => 5,
            ProgramType::ProgramHeader => 6,
            ProgramType::ThreadLocal => 7,
        }
    }

    /// The number that stands for this type.
    #[verifier::when_used_as_spec(spec_code)]
    pub fn code(self) -> (r: u32)
        ensures
            r == self.spec_code(),
    {
        match self {
            ProgramType::Null => 0,
            ProgramType::Load => 1,
            ProgramType::Dynamic => 2,
            ProgramType::Interpreter => 3,
            ProgramType::Note => 4,
            ProgramType::Lib => 5,
            ProgramType::ProgramHeader => 6,
            ProgramType::ThreadLocal => 7,
        }
    }

    /// The type that `code` stands for, if any.
    pub fn from_code(code: u32) -> (r: Option<ProgramType>)
        ensures
            r matches Some(t) ==> t.spec_code() == code,
            r is None ==> forall|t: ProgramType| t.spec_code() != code,
    {
        match code {
            0 => Some(ProgramType::Null),
            1 => Some(ProgramType::Load),
            2 => Some(ProgramType::Dynamic),
            3 => Some(ProgramType::Interpreter),
            4 => Some(ProgramType::Note),
            5 => Some(ProgramType::Lib),
            6 => Some(ProgramType::ProgramHeader),
            7 => Some(ProgramType::ThreadLocal),
            _ => None,
        }
    }
}

/// What a section of an image holds.
#[derive(Clone, Copy, Debug, PartialEq, Eq)]
pub enum SectionType {
    /// Unused.
    Null,
    /// Data defined by the program.
    ProgramData,
    /// The symbol table.
    SymbolTable,
    /// The string table.
    StringTable,
    /// Relocations with explicit addends.
    RelocationsAddend,
    /// A symbol hash table.
    HashTable,
    /// Information for dynamic linking.
    Dynamic,
    /// Auxiliary information.
    Note,
    /// Like `ProgramData`, but with no bytes in the file.
    NoBits,
    /// Relocations without explicit addends.
    Relocations,
    /// Reserved.
    Lib,
    /// The symbols needed for dynamic linking.
    DynamicSymbols,
}

impl SectionType {
    /// The number that stands for this type, 0 to 11 in the order of the
    /// variants.
    pub open spec fn spec_code(self) -> u32 {
        match self {
            SectionType::Null => 0,
            SectionType::ProgramData => 1,
            SectionType::SymbolTable => 2,
            SectionType::StringTable => 3,
            SectionType::RelocationsAddend => 4,
            SectionType::HashTable => 5,
            SectionType::Dynamic => 6,
            SectionType::Note => 7,
            SectionType::NoBits => 8,
            SectionType::Relocations => 9,
            SectionType::Lib => 10,
            SectionType::DynamicSymbols => 11,
        }
    }

    /// The number that stands for this type.
    #[verifier::when_used_as_spec(spec_code)]
    pub fn code(self) -> (r: u32)
        ensures
            r == self.spec_code(),
    {
        match self {
            SectionType::Null => 0,
            SectionType::ProgramData => 1,
            SectionType::SymbolTable => 2,
            SectionType::StringTable => 3,
            SectionType::RelocationsAddend => 4,
            SectionType::HashTable => 5,
            SectionType::Dynamic => 6,
            SectionType::Note => 7,
            SectionType::NoBits => 8,
            SectionType::Relocations => 9,
            SectionType::Lib => 10,
            SectionType::DynamicSymbols => 11,
        }
    }

    /// The type that `code` stands for, if any.
    pub fn from_code(code: u32) -> (r: Option<SectionType>)
        ensures
            r matches Some(t) ==> t.spec_code() == code,
            r is None ==> forall|t: SectionType| t.spec_code() != code,
    {
        match code {
            0 => Some(SectionType::Null),
            1 => Some(SectionType::ProgramData),
            2 => Some(SectionType::SymbolTable),
            3 => Some(SectionType::StringTable),
            4 => Some(SectionType::RelocationsAddend),
            5 => Some(SectionType::HashTable),
            6 => Some(SectionType::Dynamic),
            7 => Some(SectionType::Note),
            8 => Some(SectionType::NoBits),
            9 => Some(SectionType::Relocations),
            10 => Some(SectionType::Lib),
            11 => Some(SectionType::DynamicSymbols),
            _ => None,
        }
    }
}

/// One of the three kinds of header whose size the file header reports.
#[derive(Clone, Copy, Debug, PartialEq, Eq)]
pub enum Header {
    Section,
    Program,
    File,
}

/// The check that an image failed.
#[derive(Clone, Copy, Debug, PartialEq, Eq)]
pub enum ElfError {
    /// The image does not start with the magic bytes.
    NoMagicBytes,
    /// The image is not 64-bit.
    Bitness32,
    /// The image's byte order is not that of this CPU.
    BadEndianness,
    /// The ABI is not System V.
    BadABI,
    /// The header version or the ELF version is not 1.
    BadVersion,
    /// The image is not position-independent.
    BadObjectType,
    /// The size that the file header reports for a kind of header is not the
    /// size that this loader reads.
    BadHeaderSize(Header),
}

/// The file header, as it stands in the image. Fields that stand for one of
/// a few named values hold the raw number; the accessors name it.
#[derive(Clone, Copy, Debug, PartialEq, Eq)]
pub struct FileHeader {
    /// Must be [`MAGIC`].
    pub magic_bytes: [u8; 4],
    /// See [`Bitness`].
    pub bitness: u8,
    /// See [`Endianess`].
    pub endianess: u8,
    /// The version of the header: 1.
    pub header_version: u8,
    /// See [`ABI`].
    pub abi: u8,
    /// The version of the ABI.
    pub abi_version: u8,
    /// Unused.
    pub padding: [u8; 7],
    /// See [`ObjectType`].
    pub object_type: u16,
    /// The instruction set that the image targets.
    pub instruction_set: u16,
    /// The version of the format: 1.
    pub elf_version: u32,
    /// The address at which execution starts.
    pub entry_point: u64,
    /// Where in the image the program header table starts.
    pub program_table_offset: u64,
    /// Where in the image the section header table starts.
    pub section_table_offset: u64,
    /// Flags of the architecture.
    pub flags: u32,
    /// The size of this header.
    pub size: u16,
    /// The size of one program header.
    pub program_header_size: u16,
    /// The number of program headers.
    pub program_table_entries: u16,
    /// The size of one section header.
    pub section_header_size: u16,
    /// The number of section headers.
    pub section_table_entries: u16,
    /// The index of the section header of the section that holds names.
    pub section_names_index: u16,
}

/// Where a table of headers lies in an image.
#[derive(Clone, Copy, Debug, PartialEq, Eq)]
pub struct TableBounds {
    /// Where the table starts.
    pub offset: u64,
    /// The size of one entry.
    pub entry_size: u16,
    /// The number of entries.
    pub entries: u16,
}

impl TableBounds {
    /// The offset one past the table's last byte.
    pub open spec fn spec_end(self) -> int {
        self.offset + self.entry_size * self.entries
    }

    /// The offset one past the table's last byte, where it fits in 64 bits.
    pub fn end(&self) -> (r: Option<u64>)
        ensures
            r == (if self.spec_end() <= u64::MAX {
                Some(self.spec_end() as u64)
            } else {
                None
            }),
    {
        assert(self.entry_size * self.entries <= 0xFFFF * 0xFFFF) by (nonlinear_arith)
            requires
                self.entry_size <= 0xFFFF,
                self.entries <= 0xFFFF,
        ;
        let length: u64 = self.entry_size as u64 * self.entries as u64;
        self.offset.checked_add(length)
    }
}

/// What a header that passed validation says of the image.
#[derive(Clone, Copy, Debug, PartialEq, Eq)]
pub struct ValidatedHeader {
    /// The address at which execution starts.
    pub entry_point: u64,
    /// Where the program header table lies.
    pub program_table: TableBounds,
    /// Where the section header table lies.
    pub section_table: TableBounds,
    /// The index of the section header of the section that holds names.
    pub section_names_index: u16,
}

impl ValidatedHeader {
    /// How many sectors, counted from the start of the image, hold
    /// everything up to the end of the section header table.
    pub open spec fn spec_sectors_to_section_table(self) -> int {
        (self.section_table.spec_end() + 511) / 512
    }

    /// Counts the sectors, from the start of the image, that must be read to
    /// have the whole section header table. `None` when the table ends past
    /// what 64 bits can address.
    pub fn sectors_to_section_table(&self) -> (r: Option<u64>)
        ensures
            r == (if self.section_table.spec_end() <= u64::MAX {
                Some(self.spec_sectors_to_section_table() as u64)
            } else {
                None
            }),
    {
        match self.section_table.end() {
            Some(end) => Some(sectors_for(end)),
            None => None,
        }
    }
}

impl FileHeader {
    /// The first check that the header fails, in the order: magic bytes,
    /// bitness, byte order, versions, ABI, object type, then the reported
    /// sizes of the file header, of a program header and of a section
    /// header. `None` when it passes them all.
    pub open spec fn failed_check(self) -> Option<ElfError> {
        if self.magic_bytes@ != MAGIC@ {
            Some(ElfError::NoMagicBytes)
        } else if self.bitness != Bitness::X64.spec_code() {
            Some(ElfError::Bitness32)
        } else if self.endianess != Endianess::NATIVE.spec_code() {
            Some(ElfError::BadEndianness)
        } else if self.elf_version != 1 || self.header_version != 1 {
            Some(ElfError::BadVersion)
        } else if self.abi != ABI::SystemV.spec_code() {
            Some(ElfError::BadABI)
        } else if self.object_type != ObjectType::Dyn.spec_code() {
            Some(ElfError::BadObjectType)
        } else if self.size != FILE_HEADER_SIZE {
            Some(ElfError::BadHeaderSize(Header::File))
        } else if self.program_header_size != PROGRAM_HEADER_SIZE {
            Some(ElfError::BadHeaderSize(Header::Program))
        } else if self.section_header_size != SECTION_HEADER_SIZE {
            Some(ElfError::BadHeaderSize(Header::Section))
        } else {
            None
        }
    }

    /// What the header says of the image: entry point and the bounds of the
    /// two tables, taken from the fields as they stand.
    pub open spec fn summary(self) -> ValidatedHeader {
        ValidatedHeader {
            entry_point: self.entry_point,
            program_table: TableBounds {
                offset: self.program_table_offset,
                entry_size: self.program_header_size,
                entries: self.program_table_entries,
            },
            section_table: TableBounds {
                offset: self.section_table_offset,
                entry_size: self.section_header_size,
                entries: self.section_table_entries,
            },
            section_names_index: self.section_names_index,
        }
    }

    /// Checks that the image can be loaded: a 64-bit, little-endian,
    /// version 1, System V, position-independent ELF whose headers have the
    /// sizes that this loader reads. Reports the first check that fails; on
    /// success returns the entry point and where the two header tables lie.
    pub fn validate(&self) -> (r: Result<ValidatedHeader, ElfError>)
        ensures
            r == (match self.failed_check() {
                Some(e) => Err::<ValidatedHeader, ElfError>(e),
                None => Ok::<ValidatedHeader, ElfError>(self.summary()),
            }),
    {
        let magic_ok: bool = self.magic_bytes[0] == 0x7F && self.magic_bytes[1] == 0x45
            && self.magic_bytes[2] == 0x4C && self.magic_bytes[3] == 0x46;
        assert(magic_ok == (self.magic_bytes@ =~= MAGIC@));
        if !magic_ok {
            Err(ElfError::NoMagicBytes)
        } else if self.bitness != Bitness::X64.code() {
            Err(ElfError::Bitness32)
        } else if self.endianess != Endianess::Little.code() {
            Err(ElfError::BadEndianness)
        } else if self.elf_version != 1 || self.header_version != 1 {
            Err(ElfError::BadVersion)
        } else if self.abi != ABI::SystemV.code() {
            Err(ElfError::BadABI)
        } else if self.object_type != ObjectType::Dyn.code() {
            Err(ElfError::BadObjectType)
        } else if self.size != FILE_HEADER_SIZE {
            Err(ElfError::BadHeaderSize(Header::File))
        } else if self.program_header_size != PROGRAM_HEADER_SIZE {
            Err(ElfError::BadHeaderSize(Header::Program))
        } else if self.section_header_size != SECTION_HEADER_SIZE {
            Err(ElfError::BadHeaderSize(Header::Section))
        } else {
            Ok(
                ValidatedHeader {
                    entry_point: self.entry_point,
                    program_table: TableBounds {
                        offset: self.program_table_offset,
                        entry_size: self.program_header_size,
                        entries: self.program_table_entries,
                    },
                    section_table: TableBounds {
                        offset: self.section_table_offset,
                        entry_size: self.section_header_size,
                        entries: self.section_table_entries,
                    },
                    section_names_index: self.section_names_index,
                },
            )
        }
    }

    /// The header that the first 64 bytes of `bytes` hold.
    pub open spec fn spec_from_bytes(bytes: Seq<u8>) -> FileHeader
        recommends
            bytes.len() >= 64,
    {
        FileHeader {
            magic_bytes: [bytes[0], bytes[1], bytes[2], bytes[3]],
            bitness: bytes[4],
            endianess: bytes[5],
            header_version: bytes[6],
            abi: bytes[7],
            abi_version: bytes[8],
            padding: [bytes[9], bytes[10], bytes[11], bytes[12], bytes[13], bytes[14], bytes[15]],
            object_type: le_u16(bytes, 16),
            instruction_set: le_u16(bytes, 18),
            elf_version: le_u32(bytes, 20),
            entry_point: le_u64(bytes, 24),
            program_table_offset: le_u64(bytes, 32),
            section_table_offset: le_u64(bytes, 40),
            flags: le_u32(bytes, 48),
            size: le_u16(bytes, 52),
            program_header_size: le_u16(bytes, 54),
            program_table_entries: le_u16(bytes, 56),
            section_header_size: le_u16(bytes, 58),
            section_table_entries: le_u16(bytes, 60),
            section_names_index: le_u16(bytes, 62),
        }
    }

    /// Reads the header from the start of `bytes`. `None` when there are
    /// fewer than 64 bytes.
    pub fn from_bytes(bytes: &[u8]) -> (r: Option<FileHeader>)
        ensures
            r == (if bytes@.len() >= 64 {
                Some(Self::spec_from_bytes(bytes@))
            } else {
                None
            }),
    {
        if bytes.len() < 64 {
            return None;
        }
        Some(
            FileHeader {
                magic_bytes: [bytes[0], bytes[1], bytes[2], bytes[3]],
                bitness: bytes[4],
                endianess: bytes[5],
                header_version: bytes[6],
                abi: bytes[7],
                abi_version: bytes[8],
                padding: [
                    bytes[9],
                    bytes[10],
                    bytes[11],
                    bytes[12],
                    bytes[13],
                    bytes[14],
                    bytes[15],
                ],
                object_type: read_u16(bytes, 16),
                instruction_set: read_u16(bytes, 18),
                elf_version: read_u32(bytes, 20),
                entry_point: read_u64(bytes, 24),
                program_table_offset: read_u64(bytes, 32),
                section_table_offset: read_u64(bytes, 40),
                flags: read_u32(bytes, 48),
                size: read_u16(bytes, 52),
                program_header_size: read_u16(bytes, 54),
                program_table_entries: read_u16(bytes, 56),
                section_header_size: read_u16(bytes, 58),
                section_table_entries: read_u16(bytes, 60),
                section_names_index: read_u16(bytes, 62),
            },
        )
    }

    /// Reads the header from the start of `bytes` and validates it. A region
    /// of fewer than 64 bytes cannot hold the magic bytes and a header.
    pub fn try_from_raw(bytes: &[u8]) -> (r: Result<ValidatedHeader, ElfError>)
        ensures
            bytes@.len() < 64 ==> r == Err::<ValidatedHeader, ElfError>(ElfError::NoMagicBytes),
            bytes@.len() >= 64 ==> r == (match Self::spec_from_bytes(bytes@).failed_check() {
                Some(e) => Err::<ValidatedHeader, ElfError>(e),
                None => Ok::<ValidatedHeader, ElfError>(Self::spec_from_bytes(bytes@).summary()),
            }),
    {
        match Self::from_bytes(bytes) {
            Some(header) => header.validate(),
            None => Err(ElfError::NoMagicBytes),
        }
    }

    /// The bitness that the header names, if it is one that has a name.
    pub fn bitness(&self) -> (r: Option<Bitness>)
        ensures
            r matches Some(b) ==> b.spec_code() == self.bitness,
            r is None ==> forall|b: Bitness| b.spec_code() != self.bitness,
    {
        Bitness::from_code(self.bitness)
    }

    /// The byte order that the header names, if it is one that has a name.
    pub fn endianess(&self) -> (r: Option<Endianess>)
        ensures
            r matches Some(e) ==> e.spec_code() == self.endianess,
            r is None ==> forall|e: Endianess| e.spec_code() != self.endianess,
    {
        Endianess::from_code(self.endianess)
    }

    /// The ABI that the header names, if it is one that has a name.
    pub fn abi(&self) -> (r: Option<ABI>)
        ensures
            r matches Some(abi) ==> abi.spec_code() == self.abi,
            r is None ==> forall|abi: ABI| abi.spec_code() != self.abi,
    {
        ABI::from_code(self.abi)
    }

    /// The object type that the header names, if it is one that has a name.
    pub fn object_type(&self) -> (r: Option<ObjectType>)
        ensures
            r matches Some(t) ==> t.spec_code() == self.object_type,
            r is None ==> forall|t: ObjectType| t.spec_code() != self.object_type,
    {
        ObjectType::from_code(self.object_type)
    }

    /// Where the section header table starts and ends, for a table whose
    /// entries have [`SECTION_HEADER_SIZE`] bytes.
    pub open spec fn spec_section_table_range(self) -> (int, int) {
        (
            self.section_table_offset as int,
            self.section_table_offset + SECTION_HEADER_SIZE * self.section_table_entries,
        )
    }

    /// The range of the image that holds the section header table: its first
    /// offset and the offset after its last. `None` when either does not fit
    /// in a `usize`.
    pub fn section_table_range(&self) -> (r: Option<(usize, usize)>)
        ensures
            r == (if self.spec_section_table_range().1 <= usize::MAX {
                Some(
                    (
                        self.spec_section_table_range().0 as usize,
                        self.spec_section_table_range().1 as usize,
                    ),
                )
            } else {
                None
            }),
    {
        let length: u64 = SECTION_HEADER_SIZE as u64 * self.section_table_entries as u64;
        match self.section_table_offset.checked_add(length) {
            Some(end) => {
                if end <= usize::MAX as u64 {
                    Some((self.section_table_offset as usize, end as usize))
                } else {
                    None
                }
            },
            None => None,
        }
    }
}

/// A header that has wrong bitness and the right magic bytes fails with
/// [`ElfError::Bitness32`], whatever else it holds; a header that passes
/// every check is summarised by its own fields.
pub proof fn validation_outcomes(header: FileHeader)
    ensures
        header.magic_bytes@ == MAGIC@ && header.bitness == Bitness::X32.spec_code()
            ==> header.failed_check() == Some(ElfError::Bitness32),
        header.failed_check() is None ==> {
            &&& header.summary().entry_point == header.entry_point
            &&& header.summary().program_table.offset == header.program_table_offset
            &&& header.summary().program_table.entries == header.program_table_entries
            &&& header.summary().program_table.entry_size == PROGRAM_HEADER_SIZE
            &&& header.summary().section_table.offset == header.section_table_offset
            &&& header.summary().section_table.entries == header.section_table_entries
            &&& header.summary().section_table.entry_size == SECTION_HEADER_SIZE
        },
{
}

/// The header of one segment of an image.
#[derive(Clone, Copy, Debug, PartialEq, Eq)]
pub struct ProgramHeader {
    /// See [`ProgramType`].
    pub program_type: u32,
    /// Permissions: 1 to execute, 2 to write, 4 to read.
    pub flags: u32,
    /// Where in the image the segment starts.
    pub offset: u64,
    /// Where in memory the segment is to be loaded.
    pub address: u64,
    /// The physical address of the segment, where that matters.
    pub physical_address: u64,
    /// The size of the segment in the image.
    pub file_size: u64,
    /// The size of the segment in memory.
    pub memory_size: u64,
    /// The alignment of the segment; 0 and 1 mean none.
    pub alignment: u64,
}

impl ProgramHeader {
    /// The header that the 56 bytes of `bytes` from `at` on hold: type and
    /// flags in four bytes each, then offset, address, physical address,
    /// size in the file, size in memory and alignment in eight bytes each.
    pub open spec fn spec_from_bytes(bytes: Seq<u8>, at: int) -> ProgramHeader {
        ProgramHeader {
            program_type: le_u32(bytes, at),
            flags: le_u32(bytes, at + 4),
            offset: le_u64(bytes, at + 8),
            address: le_u64(bytes, at + 16),
            physical_address: le_u64(bytes, at + 24),
            file_size: le_u64(bytes, at + 32),
            memory_size: le_u64(bytes, at + 40),
            alignment: le_u64(bytes, at + 48),
        }
    }

    /// Reads the header that starts at `at`. `None` when fewer than 56 bytes
    /// follow.
    pub fn from_bytes(bytes: &[u8], at: usize) -> (r: Option<ProgramHeader>)
        ensures
            r == (if at + 56 <= bytes@.len() {
                Some(Self::spec_from_bytes(bytes@, at as int))
            } else {
                None
            }),
    {
        if bytes.len() < 56 || at > bytes.len() - 56 {
            return None;
        }
        Some(
            ProgramHeader {
                program_type: read_u32(bytes, at),
                flags: read_u32(bytes, at + 4),
                offset: read_u64(bytes, at + 8),
                address: read_u64(bytes, at + 16),
                physical_address: read_u64(bytes, at + 24),
                file_size: read_u64(bytes, at + 32),
                memory_size: read_u64(bytes, at + 40),
                alignment: read_u64(bytes, at + 48),
            },
        )
    }

    /// The type that the header names, if it is one that has a name.
    pub fn program_type(&self) -> (r: Option<ProgramType>)
        ensures
            r matches Some(t) ==> t.spec_code() == self.program_type,
            r is None ==> forall|t: ProgramType| t.spec_code() != self.program_type,
    {
        ProgramType::from_code(self.program_type)
    }
}

/// The header of one section of an image.
#[derive(Clone, Copy, Debug, PartialEq, Eq)]
pub struct SectionHeader {
    /// Where in the string table the section's name starts.
    pub name_offset: u32,
    /// See [`SectionType`].
    pub section_type: u32,
    /// Flags of the section.
    pub flags: u64,
    /// Where in memory the section is to be loaded, if it is.
    pub address: u64,
    /// Where in the image the section starts.
    pub offset: u64,
    /// The size of the section in the image.
    pub size: u64,
    /// Depends on the type.
    pub link: u32,
    /// Depends on the type.
    pub info: u32,
    /// The alignment of the section; 0 and 1 mean none.
    pub alignment: u64,
    /// The size of one entry, for a section of entries of one size; else 0.
    pub entry_size: u64,
}

impl SectionHeader {
    /// The header that the 64 bytes of `bytes` from `at` on hold: name
    /// offset and type in four bytes each, flags, address, offset and size
    /// in eight bytes each, link and info in four bytes each, alignment and
    /// entry size in eight bytes each.
    pub open spec fn spec_from_bytes(bytes: Seq<u8>, at: int) -> SectionHeader {
        SectionHeader {
            name_offset: le_u32(bytes, at),
            section_type: le_u32(bytes, at + 4),
            flags: le_u64(bytes, at + 8),
            address: le_u64(bytes, at + 16),
            offset: le_u64(bytes, at + 24),
            size: le_u64(bytes, at + 32),
            link: le_u32(bytes, at + 40),
            info: le_u32(bytes, at + 44),
            alignment: le_u64(bytes, at + 48),
            entry_size: le_u64(bytes, at + 56),
        }
    }

    /// Reads the header that starts at `at`. `None` when fewer than 64 bytes
    /// follow.
    pub fn from_bytes(bytes: &[u8], at: usize) -> (r: Option<SectionHeader>)
        ensures
            r == (if at + 64 <= bytes@.len() {
                Some(Self::spec_from_bytes(bytes@, at as int))
            } else {
                None
            }),
    {
        if bytes.len() < 64 || at > bytes.len() - 64 {
            return None;
        }
        Some(
            SectionHeader {
                name_offset: read_u32(bytes, at),
                section_type: read_u32(bytes, at + 4),
                flags: read_u64(bytes, at + 8),
                address: read_u64(bytes, at + 16),
                offset: read_u64(bytes, at + 24),
                size: read_u64(bytes, at + 32),
                link: read_u32(bytes, at + 40),
                info: read_u32(bytes, at + 44),
                alignment: read_u64(bytes, at + 48),
                entry_size: read_u64(bytes, at + 56),
            },
        )
    }

    /// The type that the header names, if it is one that has a name.
    pub fn section_type(&self) -> (r: Option<SectionType>)
        ensures
            r matches Some(t) ==> t.spec_code() == self.section_type,
            r is None ==> forall|t: SectionType| t.spec_code() != self.section_type,
    {
        SectionType::from_code(self.section_type)
    }
}

/// The sizes of the first `count` sections, added up.
pub open spec fn sum_of_sizes(sections: Seq<SectionHeader>, count: int) -> int
    decreases count,
{
    if count <= 0 {
        0
    } else {
        sum_of_sizes(sections, count - 1) + sections[count - 1].size
    }
}

/// The size of the image as its sections declare it: the sum of their sizes.
/// `None` when the sum does not fit in 64 bits.
pub fn total_section_size(sections: &[SectionHeader]) -> (r: Option<u64>)
    ensures
        r == (if sum_of_sizes(sections@, sections@.len() as int) <= u64::MAX {
            Some(sum_of_sizes(sections@, sections@.len() as int) as u64)
        } else {
            None
        }),
{
    let mut total: u64 = 0;
    let mut i: usize = 0;
    while i < sections.len()
        invariant
            i <= sections@.len(),
            total == sum_of_sizes(sections@, i as int),
        decreases sections@.len() - i,
    {
        match total.checked_add(sections[i].size) {
            Some(sum) => {
                total = sum;
            },
            None => {
                proof {
                    lemma_sum_grows(sections@, i + 1, sections@.len() as int);
                }
                return None;
            },
        }
        i += 1;
    }
    Some(total)
}

proof fn lemma_sum_grows(sections: Seq<SectionHeader>, low: int, high: int)
    requires
        0 <= low <= high,
    ensures
        sum_of_sizes(sections, low) <= sum_of_sizes(sections, high),
    decreases high - low,
{
    if low < high {
        lemma_sum_grows(sections, low, high - 1);
    }
}

/// How many 512-byte sectors it takes to hold `bytes` bytes.
pub open spec fn spec_sectors_for(bytes: u64) -> u64 {
    ((bytes + 511) / 512) as u64
}

/// How many 512-byte sectors it takes to hold `bytes` bytes.
#[verifier::when_used_as_spec(spec_sectors_for)]
pub fn sectors_for(bytes: u64) -> (r: u64)
    ensures
        r == spec_sectors_for(bytes),
        r * 512 >= bytes,
        bytes > 0 ==> (r - 1) * 512 < bytes,
{
    let whole: u64 = bytes / 512;
    if bytes % 512 == 0 {
        whole
    } else {
        whole + 1
    }
}

/// Reads and validates the file header at the start of the first sector of
/// an image.
pub fn parse_from_sector(sector: &[u8; 512]) -> (r: Result<ValidatedHeader, ElfError>)
    ensures
        r == (match FileHeader::spec_from_bytes(sector@).failed_check() {
            Some(e) => Err::<ValidatedHeader, ElfError>(e),
            None => Ok::<ValidatedHeader, ElfError>(FileHeader::spec_from_bytes(sector@).summary()),
        }),
{
    FileHeader::try_from_raw(sector.as_slice())
}

} // verus!
