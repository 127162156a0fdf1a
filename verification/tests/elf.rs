use bootchain::elf::{
    parse_from_sector, sectors_for, total_section_size, Bitness, ElfError, Endianess, FileHeader,
    Header, ObjectType, ProgramHeader, ProgramType, SectionHeader, SectionType, TableBounds,
    ValidatedHeader, ABI, FILE_HEADER_SIZE, MAGIC, PROGRAM_HEADER_SIZE, SECTION_HEADER_SIZE,
};

fn correct_header() -> FileHeader {
    FileHeader {
        magic_bytes: MAGIC,
        bitness: Bitness::X64.code(),
        endianess: Endianess::Little.code(),
        header_version: 1,
        abi: ABI::SystemV.code(),
        abi_version: 0,
        padding: [0; 7],
        object_type: ObjectType::Dyn.code(),
        instruction_set: 0x3E,
        elf_version: 1,
        entry_point: 0x1040,
        program_table_offset: 64,
        section_table_offset: 0x3A10,
        flags: 0,
        size: FILE_HEADER_SIZE,
        program_header_size: PROGRAM_HEADER_SIZE,
        program_table_entries: 9,
        section_header_size: SECTION_HEADER_SIZE,
        section_table_entries: 27,
        section_names_index: 26,
    }
}

fn header_bytes(header: &FileHeader) -> Vec<u8> {
    let mut bytes = Vec::new();
    bytes.extend_from_slice(&header.magic_bytes);
    bytes.push(header.bitness);
    bytes.push(header.endianess);
    bytes.push(header.header_version);
    bytes.push(header.abi);
    bytes.push(header.abi_version);
    bytes.extend_from_slice(&header.padding);
    bytes.extend_from_slice(&header.object_type.to_le_bytes());
    bytes.extend_from_slice(&header.instruction_set.to_le_bytes());
    bytes.extend_from_slice(&header.elf_version.to_le_bytes());
    bytes.extend_from_slice(&header.entry_point.to_le_bytes());
    bytes.extend_from_slice(&header.program_table_offset.to_le_bytes());
    bytes.extend_from_slice(&header.section_table_offset.to_le_bytes());
    bytes.extend_from_slice(&header.flags.to_le_bytes());
    bytes.extend_from_slice(&header.size.to_le_bytes());
    bytes.extend_from_slice(&header.program_header_size.to_le_bytes());
    bytes.extend_from_slice(&header.program_table_entries.to_le_bytes());
    bytes.extend_from_slice(&header.section_header_size.to_le_bytes());
    bytes.extend_from_slice(&header.section_table_entries.to_le_bytes());
    bytes.extend_from_slice(&header.section_names_index.to_le_bytes());
    bytes
}

#[test]
fn correct_header_gives_its_bounds() {
    let header = correct_header();
    assert_eq!(
        header.validate(),
        Ok(ValidatedHeader {
            entry_point: 0x1040,
            program_table: TableBounds { offset: 64, entry_size: 56, entries: 9 },
            section_table: TableBounds { offset: 0x3A10, entry_size: 64, entries: 27 },
            section_names_index: 26,
        })
    );
}

#[test]
fn wrong_bitness_is_named() {
    let header = FileHeader { bitness: Bitness::X32.code(), ..correct_header() };
    assert_eq!(header.validate(), Err(ElfError::Bitness32));
    let everything_else_wrong = FileHeader {
        bitness: Bitness::X32.code(),
        endianess: 2,
        header_version: 0,
        elf_version: 0,
        abi: 3,
        object_type: 2,
        size: 0,
        program_header_size: 0,
        section_header_size: 0,
        ..correct_header()
    };
    assert_eq!(everything_else_wrong.validate(), Err(ElfError::Bitness32));
    assert_eq!(FileHeader { bitness: 0, ..correct_header() }.validate(), Err(ElfError::Bitness32));
    assert_eq!(FileHeader { bitness: 3, ..correct_header() }.validate(), Err(ElfError::Bitness32));
}

#[test]
fn each_check_has_its_error() {
    let good = correct_header();
    assert_eq!(
        FileHeader { magic_bytes: [0x7F, 0x45, 0x4C, 0x47], ..good }.validate(),
        Err(ElfError::NoMagicBytes)
    );
    assert_eq!(
        FileHeader { magic_bytes: [0x7E, 0x45, 0x4C, 0x46], ..good }.validate(),
        Err(ElfError::NoMagicBytes)
    );
    assert_eq!(
        FileHeader { endianess: Endianess::Big.code(), ..good }.validate(),
        Err(ElfError::BadEndianness)
    );
    assert_eq!(FileHeader { elf_version: 2, ..good }.validate(), Err(ElfError::BadVersion));
    assert_eq!(FileHeader { header_version: 0, ..good }.validate(), Err(ElfError::BadVersion));
    assert_eq!(FileHeader { abi: ABI::Linux.code(), ..good }.validate(), Err(ElfError::BadABI));
    assert_eq!(
        FileHeader { object_type: ObjectType::Exectuable.code(), ..good }.validate(),
        Err(ElfError::BadObjectType)
    );
    assert_eq!(
        FileHeader { size: 63, ..good }.validate(),
        Err(ElfError::BadHeaderSize(Header::File))
    );
    assert_eq!(
        FileHeader { program_header_size: 32, ..good }.validate(),
        Err(ElfError::BadHeaderSize(Header::Program))
    );
    assert_eq!(
        FileHeader { section_header_size: 40, ..good }.validate(),
        Err(ElfError::BadHeaderSize(Header::Section))
    );
}

#[test]
fn checks_are_made_in_order() {
    let mut header = FileHeader {
        magic_bytes: [0; 4],
        bitness: 1,
        endianess: 2,
        header_version: 9,
        abi: 9,
        object_type: 9,
        size: 9,
        program_header_size: 9,
        section_header_size: 9,
        ..correct_header()
    };
    assert_eq!(header.validate(), Err(ElfError::NoMagicBytes));
    header.magic_bytes = MAGIC;
    assert_eq!(header.validate(), Err(ElfError::Bitness32));
    header.bitness = 2;
    assert_eq!(header.validate(), Err(ElfError::BadEndianness));
    header.endianess = 1;
    assert_eq!(header.validate(), Err(ElfError::BadVersion));
    header.header_version = 1;
    assert_eq!(header.validate(), Err(ElfError::BadABI));
    header.abi = 0;
    assert_eq!(header.validate(), Err(ElfError::BadObjectType));
    header.object_type = 3;
    assert_eq!(header.validate(), Err(ElfError::BadHeaderSize(Header::File)));
    header.size = 64;
    assert_eq!(header.validate(), Err(ElfError::BadHeaderSize(Header::Program)));
    header.program_header_size = 56;
    assert_eq!(header.validate(), Err(ElfError::BadHeaderSize(Header::Section)));
    header.section_header_size = 64;
    assert!(header.validate().is_ok());
}

#[test]
fn header_is_read_from_little_endian_bytes() {
    let header = FileHeader {
        abi_version: 7,
        padding: [1, 2, 3, 4, 5, 6, 7],
        instruction_set: 0xABCD,
        entry_point: 0x0102_0304_0506_0708,
        program_table_offset: 0x1112_1314_1516_1718,
        section_table_offset: 0x2122_2324_2526_2728,
        flags: 0x3132_3334,
        program_table_entries: 0x4142,
        section_table_entries: 0x5152,
        section_names_index: 0x6162,
        ..correct_header()
    };
    let mut bytes = header_bytes(&header);
    assert_eq!(bytes.len(), 64);
    assert_eq!(bytes[24], 0x08);
    assert_eq!(bytes[31], 0x01);
    assert_eq!(FileHeader::from_bytes(&bytes), Some(header));
    assert_eq!(FileHeader::try_from_raw(&bytes), header.validate());
    bytes.extend_from_slice(&[0xEE; 100]);
    assert_eq!(FileHeader::from_bytes(&bytes), Some(header));
    assert_eq!(FileHeader::from_bytes(&bytes[..63]), None);
    assert_eq!(FileHeader::try_from_raw(&bytes[..63]), Err(ElfError::NoMagicBytes));
}

#[test]
fn first_sector_is_parsed() {
    let header = correct_header();
    let mut sector = [0u8; 512];
    sector[..64].copy_from_slice(&header_bytes(&header));
    assert_eq!(parse_from_sector(&sector), header.validate());
    assert!(parse_from_sector(&sector).is_ok());
    sector[4] = 1;
    assert_eq!(parse_from_sector(&sector), Err(ElfError::Bitness32));
    assert_eq!(parse_from_sector(&[0u8; 512]), Err(ElfError::NoMagicBytes));
}

#[test]
fn names_stand_for_their_codes() {
    assert_eq!(Bitness::from_code(1), Some(Bitness::X32));
    assert_eq!(Bitness::from_code(2), Some(Bitness::X64));
    assert_eq!(Bitness::from_code(0), None);
    assert_eq!(Endianess::from_code(1), Some(Endianess::Little));
    assert_eq!(Endianess::from_code(2), Some(Endianess::Big));
    assert_eq!(Endianess::from_code(3), None);
    assert_eq!(Endianess::NATIVE, Endianess::Little);
    for code in 0u16..=5 {
        let expected = [
            Some(ObjectType::NoType),
            Some(ObjectType::Relocatable),
            Some(ObjectType::Exectuable),
            Some(ObjectType::Dyn),
            Some(ObjectType::Core),
            None,
        ][code as usize];
        assert_eq!(ObjectType::from_code(code), expected);
        if let Some(named) = expected {
            assert_eq!(named.code(), code);
        }
    }
    assert_eq!(ABI::from_code(0), Some(ABI::SystemV));
    assert_eq!(ABI::from_code(5), None);
    assert_eq!(ABI::from_code(6), Some(ABI::Solaris));
    assert_eq!(ABI::from_code(18), Some(ABI::OpenVOS));
    assert_eq!(ABI::from_code(19), None);
    for code in 0u8..=255 {
        if let Some(abi) = ABI::from_code(code) {
            assert_eq!(abi.code(), code);
        }
    }
    assert_eq!(ProgramType::from_code(1), Some(ProgramType::Load));
    assert_eq!(ProgramType::from_code(7), Some(ProgramType::ThreadLocal));
    assert_eq!(ProgramType::from_code(8), None);
    assert_eq!(SectionType::from_code(8), Some(SectionType::NoBits));
    assert_eq!(SectionType::from_code(11), Some(SectionType::DynamicSymbols));
    assert_eq!(SectionType::from_code(12), None);
    let header = correct_header();
    assert_eq!(header.bitness(), Some(Bitness::X64));
    assert_eq!(header.endianess(), Some(Endianess::Little));
    assert_eq!(header.abi(), Some(ABI::SystemV));
    assert_eq!(header.object_type(), Some(ObjectType::Dyn));
}

#[test]
fn section_table_range_covers_its_entries() {
    let header = correct_header();
    assert_eq!(header.section_table_range(), Some((0x3A10, 0x3A10 + 27 * 64)));
    let empty = FileHeader { section_table_entries: 0, ..header };
    assert_eq!(empty.section_table_range(), Some((0x3A10, 0x3A10)));
    let overflowing = FileHeader { section_table_offset: u64::MAX - 63, ..header };
    assert_eq!(overflowing.section_table_range(), None);
    let validated = header.validate().unwrap();
    assert_eq!(validated.section_table.end(), Some(0x3A10 + 27 * 64));
    assert_eq!(validated.program_table.end(), Some(64 + 9 * 56));
    assert_eq!(validated.sectors_to_section_table(), Some((0x3A10 + 27 * 64 + 511) / 512));
    let bounds = TableBounds { offset: u64::MAX, entry_size: 1, entries: 1 };
    assert_eq!(bounds.end(), None);
}

#[test]
fn program_and_section_headers_are_read() {
    let mut bytes = vec![0xFFu8; 8];
    bytes.extend_from_slice(&1u32.to_le_bytes());
    bytes.extend_from_slice(&5u32.to_le_bytes());
    for value in [0x1000u64, 0x40_1000, 0x40_1000, 0x2345, 0x3000, 0x1000] {
        bytes.extend_from_slice(&value.to_le_bytes());
    }
    let program = ProgramHeader::from_bytes(&bytes, 8).unwrap();
    assert_eq!(
        program,
        ProgramHeader {
            program_type: 1,
            flags: 5,
            offset: 0x1000,
            address: 0x40_1000,
            physical_address: 0x40_1000,
            file_size: 0x2345,
            memory_size: 0x3000,
            alignment: 0x1000,
        }
    );
    assert_eq!(program.program_type(), Some(ProgramType::Load));
    assert_eq!(ProgramHeader::from_bytes(&bytes, 9), None);
    assert_eq!(ProgramHeader::from_bytes(&bytes, usize::MAX), None);

    let mut bytes = Vec::new();
    bytes.extend_from_slice(&0x1Bu32.to_le_bytes());
    bytes.extend_from_slice(&3u32.to_le_bytes());
    for value in [0x20u64, 0, 0x3900, 0x110] {
        bytes.extend_from_slice(&value.to_le_bytes());
    }
    bytes.extend_from_slice(&7u32.to_le_bytes());
    bytes.extend_from_slice(&9u32.to_le_bytes());
    bytes.extend_from_slice(&1u64.to_le_bytes());
    bytes.extend_from_slice(&0u64.to_le_bytes());
    let section = SectionHeader::from_bytes(&bytes, 0).unwrap();
    assert_eq!(
        section,
        SectionHeader {
            name_offset: 0x1B,
            section_type: 3,
            flags: 0x20,
            address: 0,
            offset: 0x3900,
            size: 0x110,
            link: 7,
            info: 9,
            alignment: 1,
            entry_size: 0,
        }
    );
    assert_eq!(section.section_type(), Some(SectionType::StringTable));
    assert_eq!(SectionHeader::from_bytes(&bytes[..63], 0), None);
}

#[test]
fn section_sizes_add_up() {
    let section = |size: u64| SectionHeader {
        name_offset: 0,
        section_type: 1,
        flags: 0,
        address: 0,
        offset: 0,
        size,
        link: 0,
        info: 0,
        alignment: 0,
        entry_size: 0,
    };
    assert_eq!(total_section_size(&[]), Some(0));
    assert_eq!(total_section_size(&[section(5), section(0), section(1000)]), Some(1005));
    assert_eq!(total_section_size(&[section(u64::MAX), section(1), section(0)]), None);
    assert_eq!(total_section_size(&[section(u64::MAX - 1), section(1)]), Some(u64::MAX));
}

#[test]
fn sectors_are_counted_rounding_up() {
    assert_eq!(sectors_for(0), 0);
    assert_eq!(sectors_for(1), 1);
    assert_eq!(sectors_for(512), 1);
    assert_eq!(sectors_for(513), 2);
    assert_eq!(sectors_for(1005), 2);
    assert_eq!(sectors_for(u64::MAX), (u64::MAX / 512) + 1);
}
