use bootchain::paging::{
    build_page_tables, PageDirectoryEntryBuilder, PageDirectoryPointerTableEntryBuilder, PageMap,
    PageMapLevel4EntryBuilder, PageTableEntryBuilder, Translation, HUGE_PAGE_SIZE,
    LARGE_PAGE_SIZE,
};

fn level4(address: u64) -> PageMapLevel4EntryBuilder {
    PageMapLevel4EntryBuilder {
        present: false,
        writable: false,
        user_mode: false,
        write_through: false,
        cache_disabled: false,
        accessed: false,
        address,
        execute_disable: false,
    }
}

fn directory_pointer(address: u64) -> PageDirectoryPointerTableEntryBuilder {
    PageDirectoryPointerTableEntryBuilder {
        present: false,
        writable: false,
        user_mode: false,
        write_through: false,
        cache_disabled: false,
        accessed: false,
        dirty: false,
        direct_map: false,
        global: false,
        pat: false,
        address,
        protection_key: None,
        execute_disable: false,
    }
}

fn directory(address: u64) -> PageDirectoryEntryBuilder {
    PageDirectoryEntryBuilder {
        present: false,
        writable: false,
        user_mode: false,
        write_through: false,
        cache_disabled: false,
        accessed: false,
        dirty: false,
        direct_map: false,
        global: false,
        pat: false,
        address,
        protection_key: None,
        execute_disable: false,
    }
}

fn table(address: u64) -> PageTableEntryBuilder {
    PageTableEntryBuilder {
        present: false,
        writable: false,
        user_mode: false,
        write_through: false,
        cache_disabled: false,
        accessed: false,
        dirty: false,
        pat: false,
        global: false,
        address,
        protection_key: None,
        execute_disable: false,
    }
}

#[test]
fn level4_entry_has_one_bit_per_flag() {
    assert_eq!(level4(0).build(), 0);
    assert_eq!(PageMapLevel4EntryBuilder { present: true, ..level4(0) }.build(), 1);
    assert_eq!(PageMapLevel4EntryBuilder { writable: true, ..level4(0) }.build(), 1 << 1);
    assert_eq!(PageMapLevel4EntryBuilder { user_mode: true, ..level4(0) }.build(), 1 << 2);
    assert_eq!(PageMapLevel4EntryBuilder { write_through: true, ..level4(0) }.build(), 1 << 3);
    assert_eq!(PageMapLevel4EntryBuilder { cache_disabled: true, ..level4(0) }.build(), 1 << 4);
    assert_eq!(PageMapLevel4EntryBuilder { accessed: true, ..level4(0) }.build(), 1 << 5);
    assert_eq!(
        PageMapLevel4EntryBuilder { execute_disable: true, ..level4(0) }.build(),
        1 << 63
    );
    assert_eq!(level4(0x0000_1234_5678_9000).build(), 0x0000_1234_5678_9000);
    assert_eq!(
        PageMapLevel4EntryBuilder { present: true, writable: true, ..level4(0x7000) }.build(),
        0x7003
    );
}

#[test]
fn misaligned_address_is_rejected_at_every_level() {
    for address in [1u64, 0x800, 0xFFF, 0x1001, 0x4000_0001, 0xFFFF_FFFF_FFFF_FFFF] {
        assert!(!level4(address).is_valid());
        assert!(!directory_pointer(address).is_valid());
        assert!(!directory(address).is_valid());
        assert!(!table(address).is_valid());
        let flagged = PageMapLevel4EntryBuilder {
            present: true,
            writable: true,
            execute_disable: true,
            ..level4(address)
        };
        assert!(!flagged.is_valid());
    }
    for address in [0u64, 0x1000, 0x2000, 0x4000_0000, 0xF_FFFF_FFFF_F000] {
        assert!(level4(address).is_valid());
        assert!(directory_pointer(address).is_valid());
        assert!(directory(address).is_valid());
        assert!(table(address).is_valid());
        assert_eq!(level4(address).build(), address);
        assert_eq!(directory_pointer(address).build(), address);
        assert_eq!(directory(address).build(), address);
        assert_eq!(table(address).build(), address);
    }
}

#[test]
fn direct_maps_are_aligned_to_what_they_cover() {
    let huge = PageDirectoryPointerTableEntryBuilder { direct_map: true, ..directory_pointer(0) };
    assert!(!PageDirectoryPointerTableEntryBuilder { address: LARGE_PAGE_SIZE, ..huge }.is_valid());
    let three = PageDirectoryPointerTableEntryBuilder { address: 3 * HUGE_PAGE_SIZE, ..huge };
    assert!(three.is_valid());
    assert_eq!(three.build(), 0xC000_0080);
    let large = PageDirectoryEntryBuilder { direct_map: true, ..directory(0) };
    assert!(!PageDirectoryEntryBuilder { address: 0x1000, ..large }.is_valid());
    let five = PageDirectoryEntryBuilder { address: 5 * LARGE_PAGE_SIZE, ..large };
    assert!(five.is_valid());
    assert_eq!(five.build(), 0x00A0_0080);
}

#[test]
fn middle_entries_place_their_own_bits() {
    let base = directory_pointer(0);
    assert_eq!(PageDirectoryPointerTableEntryBuilder { dirty: true, ..base }.build(), 1 << 6);
    assert_eq!(
        PageDirectoryPointerTableEntryBuilder { direct_map: true, ..base }.build(),
        1 << 7
    );
    assert_eq!(PageDirectoryPointerTableEntryBuilder { global: true, ..base }.build(), 1 << 8);
    assert_eq!(
        PageDirectoryPointerTableEntryBuilder { direct_map: true, pat: true, ..base }.build(),
        (1 << 7) | (1 << 12)
    );
    assert_eq!(
        PageDirectoryPointerTableEntryBuilder { protection_key: Some(0xF), ..base }.build(),
        0xF << 59
    );
    assert_eq!(
        PageDirectoryPointerTableEntryBuilder { protection_key: Some(0x5), ..base }.build(),
        0x5 << 59
    );
    assert_eq!(
        PageDirectoryEntryBuilder { protection_key: Some(0x9), dirty: true, ..directory(0) }
            .build(),
        (0x9 << 59) | (1 << 6)
    );
}

#[test]
fn middle_entries_that_cannot_be_built_are_told() {
    let base = directory_pointer(0);
    assert!(base.is_valid());
    assert!(!PageDirectoryPointerTableEntryBuilder { pat: true, ..base }.is_valid());
    assert!(PageDirectoryPointerTableEntryBuilder { pat: true, direct_map: true, ..base }
        .is_valid());
    assert!(!PageDirectoryPointerTableEntryBuilder { protection_key: Some(16), ..base }
        .is_valid());
    assert!(PageDirectoryPointerTableEntryBuilder { protection_key: Some(15), ..base }.is_valid());
    assert!(!PageDirectoryPointerTableEntryBuilder { address: 0x10, ..base }.is_valid());
    let base = directory(0);
    assert!(!PageDirectoryEntryBuilder { pat: true, ..base }.is_valid());
    assert!(PageDirectoryEntryBuilder { pat: true, direct_map: true, ..base }.is_valid());
    assert!(!PageDirectoryEntryBuilder { protection_key: Some(200), ..base }.is_valid());
    assert!(!PageDirectoryEntryBuilder { address: 0x10, ..base }.is_valid());
    assert!(!PageTableEntryBuilder { protection_key: Some(16), ..table(0) }.is_valid());
    assert!(PageTableEntryBuilder { protection_key: Some(15), ..table(0) }.is_valid());
}

#[test]
fn table_entry_places_its_own_bits() {
    assert_eq!(PageTableEntryBuilder { dirty: true, ..table(0) }.build(), 1 << 6);
    assert_eq!(PageTableEntryBuilder { pat: true, ..table(0) }.build(), 1 << 7);
    assert_eq!(PageTableEntryBuilder { global: true, ..table(0) }.build(), 1 << 8);
    assert_eq!(
        PageTableEntryBuilder { protection_key: Some(0xA), ..table(0) }.build(),
        0xA << 59
    );
    assert_eq!(
        PageTableEntryBuilder { present: true, writable: true, ..table(0xB8000) }.build(),
        0xB8003
    );
}

#[test]
fn entries_decode_back_to_their_fields() {
    for bits in 0u32..128 {
        let flag = |n: u32| bits & (1 << n) != 0;
        let top = PageMapLevel4EntryBuilder {
            present: flag(0),
            writable: flag(1),
            user_mode: flag(2),
            write_through: flag(3),
            cache_disabled: flag(4),
            accessed: flag(5),
            address: 0x0000_00AB_CDEF_1000,
            execute_disable: flag(6),
        };
        assert_eq!(PageMapLevel4EntryBuilder::decode(top.build()), top);
        let middle = PageDirectoryPointerTableEntryBuilder {
            present: flag(0),
            writable: flag(1),
            user_mode: flag(2),
            write_through: flag(3),
            cache_disabled: flag(4),
            accessed: flag(5),
            dirty: flag(6),
            direct_map: flag(0),
            global: flag(1),
            pat: flag(0) && flag(2),
            address: 7 * HUGE_PAGE_SIZE,
            protection_key: if flag(3) { Some(1 + (bits % 15) as u8) } else { None },
            execute_disable: flag(4),
        };
        assert_eq!(PageDirectoryPointerTableEntryBuilder::decode(middle.build()), middle);
        let lower = PageDirectoryEntryBuilder {
            present: flag(0),
            writable: flag(1),
            user_mode: flag(2),
            write_through: flag(3),
            cache_disabled: flag(4),
            accessed: flag(5),
            dirty: flag(6),
            direct_map: flag(1),
            global: flag(2),
            pat: flag(1) && flag(3),
            address: 9 * LARGE_PAGE_SIZE,
            protection_key: if flag(4) { Some(1 + (bits % 15) as u8) } else { None },
            execute_disable: flag(5),
        };
        assert_eq!(PageDirectoryEntryBuilder::decode(lower.build()), lower);
        let leaf = PageTableEntryBuilder {
            present: flag(0),
            writable: flag(1),
            user_mode: flag(2),
            write_through: flag(3),
            cache_disabled: flag(4),
            accessed: flag(5),
            dirty: flag(6),
            pat: flag(0),
            global: flag(1),
            address: 0x000F_FFFF_FFFF_F000,
            protection_key: if flag(2) { Some(1 + (bits % 15) as u8) } else { None },
            execute_disable: flag(3),
        };
        assert_eq!(PageTableEntryBuilder::decode(leaf.build()), leaf);
    }
}

#[test]
fn new_page_map_is_empty() {
    let map = PageMap::new();
    assert!(map.0.iter().all(|&entry| entry == 0));
    assert_eq!(map.0.len(), 512);
}

#[test]
fn boot_tables_map_the_low_half_terabyte_onto_itself() {
    let tables = build_page_tables(0x9000);
    assert_eq!(tables.level4.0[0], 0x9003);
    assert!(tables.level4.0[1..].iter().all(|&entry| entry == 0));
    for (index, &entry) in tables.directory_pointers.0.iter().enumerate() {
        assert_eq!(entry, ((index as u64) << 30) | 0x83);
    }
    for address in [0u64, 1, 0x7C00, 0xB8000, 0x3FFF_FFFF, 0x4000_0000, 0x7F_FFFF_FFFF] {
        assert_eq!(
            tables.translate(0x9000, address),
            Some(Translation { physical: address, writable: true, executable: true })
        );
    }
    assert_eq!(tables.translate(0x9000, 0x80_0000_0000), None);
    assert_eq!(tables.translate(0xA000, 0x1000), None);
}
