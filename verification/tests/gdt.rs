use bootchain::gdt::{
    build_gdt, SegmentAccessBuilder, SegmentDescriptorBuilder, SegmentFlagsBuilder, CODE_SELECTOR,
    DATA_SELECTOR, U20_MAX,
};

fn flat_access(executable: bool) -> SegmentAccessBuilder {
    SegmentAccessBuilder {
        present: true,
        privilege: 0,
        non_system: true,
        executable,
        direction_conforming: false,
        read_write: true,
        accessed: true,
    }
}

fn long_flags() -> SegmentFlagsBuilder {
    SegmentFlagsBuilder { paged_limit: true, protected: false, long: true }
}

#[test]
fn code_segment_has_the_documented_bytes() {
    let builder = SegmentDescriptorBuilder {
        base: 0,
        limit: U20_MAX,
        flags: long_flags(),
        access: flat_access(true),
    };
    assert!(builder.is_valid());
    assert_eq!(builder.build(), [0xFF, 0xFF, 0x00, 0x00, 0x00, 0x9B, 0xAF, 0x00]);
}

#[test]
fn base_and_limit_are_scattered_as_documented() {
    let builder = SegmentDescriptorBuilder {
        base: 0x1234_5678,
        limit: 0x000A_BCDE,
        flags: SegmentFlagsBuilder { paged_limit: false, protected: true, long: false },
        access: SegmentAccessBuilder {
            present: true,
            privilege: 3,
            non_system: true,
            executable: false,
            direction_conforming: true,
            read_write: false,
            accessed: false,
        },
    };
    let descriptor = builder.build();
    assert_eq!(descriptor, [0xDE, 0xBC, 0x78, 0x56, 0x34, 0xF4, 0x4A, 0x12]);
    assert_eq!(SegmentDescriptorBuilder::decode(&descriptor), builder);
}

#[test]
fn oversized_limit_is_rejected() {
    let builder = SegmentDescriptorBuilder {
        base: 0,
        limit: U20_MAX + 1,
        flags: long_flags(),
        access: flat_access(true),
    };
    assert!(!builder.is_valid());
    assert!(!SegmentDescriptorBuilder { limit: u32::MAX, ..builder }.is_valid());
    assert!(SegmentDescriptorBuilder { limit: U20_MAX, ..builder }.is_valid());
}

#[test]
fn long_and_protected_are_rejected_together() {
    let flags = SegmentFlagsBuilder { paged_limit: true, protected: true, long: true };
    assert!(!flags.is_valid());
    assert!(!SegmentFlagsBuilder { paged_limit: false, ..flags }.is_valid());
    for limit in [0, 1, U20_MAX] {
        for executable in [false, true] {
            let builder =
                SegmentDescriptorBuilder { base: 0, limit, flags, access: flat_access(executable) };
            assert!(!builder.is_valid());
        }
    }
    assert!(SegmentFlagsBuilder { protected: false, ..flags }.is_valid());
    assert!(SegmentFlagsBuilder { long: false, ..flags }.is_valid());
}

#[test]
fn privilege_above_three_is_rejected() {
    let mut access = flat_access(true);
    for privilege in 4..=255 {
        access.privilege = privilege;
        assert!(!access.is_valid());
        let builder =
            SegmentDescriptorBuilder { base: 0, limit: 0, flags: long_flags(), access };
        assert!(!builder.is_valid());
    }
    for privilege in 0..=3 {
        access.privilege = privilege;
        assert!(access.is_valid());
    }
}

#[test]
fn boot_table_has_three_entries_and_selectors_find_them() {
    let gdt = build_gdt(0x7000);
    assert_eq!(gdt.entries[0], [0u8; 8]);
    assert_eq!(gdt.descriptor.offset, 0x7000);
    assert_eq!(gdt.descriptor.size, 23);
    let code = gdt.lookup(CODE_SELECTOR).unwrap();
    assert!(code.flags.long && code.access.executable);
    let data = gdt.lookup(DATA_SELECTOR).unwrap();
    assert!(!data.access.executable && data.access.read_write);
    assert_eq!(gdt.lookup(0x18), None);
}

#[test]
fn descriptors_decode_back_to_their_fields() {
    let limits = [0u32, 1, 0xF, 0x10, 0xABC, 0xFFFF, 0x1_0000, 0xF_FFFE, U20_MAX];
    let bases = [0u32, 1, 0xFF, 0x1234_5678, 0x8000_0000, 0xFFFF_FFFF];
    for &limit in limits.iter() {
        for &base in bases.iter() {
            for bits in 0u8..8 {
                let flags = SegmentFlagsBuilder {
                    paged_limit: bits & 1 != 0,
                    protected: bits & 2 != 0,
                    long: bits & 4 != 0,
                };
                if flags.protected && flags.long {
                    continue;
                }
                for privilege in 0u8..4 {
                    let access = SegmentAccessBuilder {
                        present: bits & 1 == 0,
                        privilege,
                        non_system: bits & 2 == 0,
                        executable: bits & 4 == 0,
                        direction_conforming: privilege & 1 != 0,
                        read_write: privilege & 2 != 0,
                        accessed: base & 1 != 0,
                    };
                    let builder = SegmentDescriptorBuilder { base, limit, flags, access };
                    assert!(builder.is_valid());
                    let descriptor = builder.build();
                    assert_eq!(SegmentDescriptorBuilder::decode(&descriptor), builder);
                }
            }
        }
    }
}

#[test]
fn access_byte_has_one_bit_per_field() {
    let none = SegmentAccessBuilder {
        present: false,
        privilege: 0,
        non_system: false,
        executable: false,
        direction_conforming: false,
        read_write: false,
        accessed: false,
    };
    assert_eq!(none.build(), 0x00);
    assert_eq!(SegmentAccessBuilder { present: true, ..none }.build(), 0x80);
    assert_eq!(SegmentAccessBuilder { privilege: 1, ..none }.build(), 0x20);
    assert_eq!(SegmentAccessBuilder { privilege: 2, ..none }.build(), 0x40);
    assert_eq!(SegmentAccessBuilder { privilege: 3, ..none }.build(), 0x60);
    assert_eq!(SegmentAccessBuilder { non_system: true, ..none }.build(), 0x10);
    assert_eq!(SegmentAccessBuilder { executable: true, ..none }.build(), 0x08);
    assert_eq!(SegmentAccessBuilder { direction_conforming: true, ..none }.build(), 0x04);
    assert_eq!(SegmentAccessBuilder { read_write: true, ..none }.build(), 0x02);
    assert_eq!(SegmentAccessBuilder { accessed: true, ..none }.build(), 0x01);
    assert_eq!(SegmentAccessBuilder::decode(0x9B), flat_access(true));
}

#[test]
fn flags_sit_in_the_high_nibble() {
    let none = SegmentFlagsBuilder { paged_limit: false, protected: false, long: false };
    assert_eq!(none.build(), 0x00);
    assert_eq!(SegmentFlagsBuilder { paged_limit: true, ..none }.build(), 0x80);
    assert_eq!(SegmentFlagsBuilder { protected: true, ..none }.build(), 0x40);
    assert_eq!(SegmentFlagsBuilder { long: true, ..none }.build(), 0x20);
    assert_eq!(SegmentFlagsBuilder::decode(0xAF), long_flags());
}

#[test]
fn boot_table_entries_have_the_documented_bytes() {
    let gdt = build_gdt(0x0012_3456_789A_BCDE);
    assert_eq!(gdt.entries[1], [0xFF, 0xFF, 0x00, 0x00, 0x00, 0x9B, 0xAF, 0x00]);
    assert_eq!(gdt.entries[2], [0xFF, 0xFF, 0x00, 0x00, 0x00, 0x93, 0xAF, 0x00]);
    assert_eq!(
        gdt.descriptor.to_bytes(),
        [0x17, 0x00, 0xDE, 0xBC, 0x9A, 0x78, 0x56, 0x34, 0x12, 0x00]
    );
    assert!(bootchain::gdt::code_segment().is_valid());
    assert_eq!(bootchain::gdt::code_segment().build(), gdt.entries[1]);
    assert_eq!(bootchain::gdt::data_segment().build(), gdt.entries[2]);
}
