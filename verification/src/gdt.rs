//! Segment descriptors of the Global Descriptor Table.
//!
//! A descriptor is eight bytes. In memory order:
//!
//! | byte | contents                                             |
//! |------|------------------------------------------------------|
//! | 0    | limit, bits 0..8                                     |
//! | 1    | limit, bits 8..16                                    |
//! | 2    | base, bits 0..8                                      |
//! | 3    | base, bits 8..16                                     |
//! | 4    | base, bits 16..24                                    |
//! | 5    | access byte                                          |
//! | 6    | flags in the high nibble, limit bits 16..20 below it |
//! | 7    | base, bits 24..32                                    |
//!
//! The access byte holds, from bit 7 down: present, two bits of privilege,
//! non-system, executable, direction/conforming, read-write, accessed. The
//! flags nibble holds, from bit 7 down: granularity, protected (32-bit),
//! long (64-bit), and one bit that is left clear.
//!
//! Every builder has a decoder that reads the same layout back.

use vstd::prelude::*;

verus! {

/// The largest value of a 20-bit segment limit.
pub const U20_MAX: u32 = 0x000F_FFFF;

/// The selector of the code segment in the table that [`build_gdt`] lays out.
pub const CODE_SELECTOR: u16 = 0x08;

/// The selector of the data segment in the table that [`build_gdt`] lays out.
pub const DATA_SELECTOR: u16 = 0x10;

/// An 8-byte segment descriptor, in memory order.
pub type SegmentDescriptor = [u8; 8];

/// Granularity and mode width of a segment.
#[derive(Clone, Copy, Debug, PartialEq, Eq)]
pub struct SegmentFlagsBuilder {
    /// The limit counts 4 KiB pages rather than bytes.
    pub paged_limit: bool,
    /// The segment is a 32-bit protected-mode segment.
    pub protected: bool,
    /// The segment is a 64-bit long-mode segment. Excludes `protected`.
    pub long: bool,
}

impl SegmentFlagsBuilder {
    /// A segment is either protected or long, never both.
    pub open spec fn valid(self) -> bool {
        !(self.long && self.protected)
    }

    /// The flags in the high nibble of a byte; the low nibble is clear.
    pub open spec fn bits(self) -> u8 {
        (if self.paged_limit { 0x80u8 } else { 0u8 })
        | (if self.protected { 0x40u8 } else { 0u8 })
        | (if self.long { 0x20u8 } else { 0u8 })
    }

    /// The flags that the high nibble of `byte` holds.
    pub open spec fn spec_decode(byte: u8) -> SegmentFlagsBuilder {
        SegmentFlagsBuilder {
            paged_limit: byte & 0x80 != 0,
            protected: byte & 0x40 != 0,
            long: byte & 0x20 != 0,
        }
    }

    /// Tells whether the flags can be built: whether they are free of the
    /// conflict between long and protected.
    pub fn is_valid(&self) -> (r: bool)
        ensures
            r == self.valid(),
    {
        !(self.long && self.protected)
    }

    /// Packs the flags into the high nibble of a byte. Flags that ask for
    /// long and protected mode at once are a mistake of the caller, and have
    /// no byte.
    pub fn build(self) -> (r: u8)
        requires
            self.valid(),
        ensures
            r == self.bits(),
    {
        let granularity: u8 = if self.paged_limit { 0x80 } else { 0 };
        let protected: u8 = if self.protected { 0x40 } else { 0 };
        let long: u8 = if self.long { 0x20 } else { 0 };
        granularity | protected | long
    }

    /// Reads the flags back from the high nibble of `byte`.
    pub fn decode(byte: u8) -> (r: SegmentFlagsBuilder)
        ensures
            r == Self::spec_decode(byte),
    {
        SegmentFlagsBuilder {
            paged_limit: byte & 0x80 != 0,
            protected: byte & 0x40 != 0,
            long: byte & 0x20 != 0,
        }
    }
}

/// Permissions of a segment.
#[derive(Clone, Copy, Debug, PartialEq, Eq)]
pub struct SegmentAccessBuilder {
    /// The segment is in memory.
    pub present: bool,
    /// Ring level, 0 (kernel) to 3 (user).
    pub privilege: u8,
    /// The segment holds code or data rather than a system structure.
    pub non_system: bool,
    /// The segment holds code.
    pub executable: bool,
    /// For code: conforming. For data: grows down.
    pub direction_conforming: bool,
    /// For code: readable. For data: writable.
    pub read_write: bool,
    /// Set by the CPU on first use.
    pub accessed: bool,
}

impl SegmentAccessBuilder {
    /// The privilege level fits in two bits.
    pub open spec fn valid(self) -> bool {
        self.privilege <= 3
    }

    /// The access byte.
    pub open spec fn bits(self) -> u8 {
        (if self.present { 0x80u8 } else { 0u8 })
        | ((self.privilege & 3) << 5)
        | (if self.non_system { 0x10u8 } else { 0u8 })
        | (if self.executable { 0x08u8 } else { 0u8 })
        | (if self.direction_conforming { 0x04u8 } else { 0u8 })
        | (if self.read_write { 0x02u8 } else { 0u8 })
        | (if self.accessed { 0x01u8 } else { 0u8 })
    }

    /// The permissions that an access byte holds.
    pub open spec fn spec_decode(byte: u8) -> SegmentAccessBuilder {
        SegmentAccessBuilder {
            present: byte & 0x80 != 0,
            privilege: (byte >> 5) & 3,
            non_system: byte & 0x10 != 0,
            executable: byte & 0x08 != 0,
            direction_conforming: byte & 0x04 != 0,
            read_write: byte & 0x02 != 0,
            accessed: byte & 0x01 != 0,
        }
    }

    /// Tells whether the permissions can be built: whether the privilege
    /// is at most 3.
    pub fn is_valid(&self) -> (r: bool)
        ensures
            r == self.valid(),
    {
        self.privilege <= 3
    }

    /// Packs the permissions into the access byte. A privilege above 3 is a
    /// mistake of the caller, and has no byte.
    pub fn build(self) -> (r: u8)
        requires
            self.valid(),
        ensures
            r == self.bits(),
    {
        let present: u8 = if self.present { 0x80 } else { 0 };
        let privilege: u8 = (self.privilege & 3) << 5;
        let non_system: u8 = if self.non_system { 0x10 } else { 0 };
        let executable: u8 = if self.executable { 0x08 } else { 0 };
        let direction: u8 = if self.direction_conforming { 0x04 } else { 0 };
        let read_write: u8 = if self.read_write { 0x02 } else { 0 };
        let accessed: u8 = if self.accessed { 0x01 } else { 0 };
        present | privilege | non_system | executable | direction | read_write | accessed
    }

    /// Reads the permissions back from an access byte.
    pub fn decode(byte: u8) -> (r: SegmentAccessBuilder)
        ensures
            r == Self::spec_decode(byte),
    {
        SegmentAccessBuilder {
            present: byte & 0x80 != 0,
            privilege: (byte >> 5) & 3,
            non_system: byte & 0x10 != 0,
            executable: byte & 0x08 != 0,
            direction_conforming: byte & 0x04 != 0,
            read_write: byte & 0x02 != 0,
            accessed: byte & 0x01 != 0,
        }
    }
}

/// The fields of one segment descriptor.
#[derive(Clone, Copy, Debug, PartialEq, Eq)]
pub struct SegmentDescriptorBuilder {
    /// Where the segment starts.
    pub base: u32,
    /// The last unit of the segment, in bytes or pages; at most [`U20_MAX`].
    pub limit: u32,
    /// Granularity and mode width.
    pub flags: SegmentFlagsBuilder,
    /// Permissions.
    pub access: SegmentAccessBuilder,
}

impl SegmentDescriptorBuilder {
    /// The limit fits in 20 bits, and flags and access are valid.
    pub open spec fn valid(self) -> bool {
        &&& self.limit <= U20_MAX
        &&& self.flags.valid()
        &&& self.access.valid()
    }

    /// The eight bytes of the descriptor, in memory order.
    pub open spec fn bytes(self) -> Seq<u8> {
        seq![
            (self.limit & 0xFF) as u8,
            ((self.limit >> 8) & 0xFF) as u8,
            (self.base & 0xFF) as u8,
            ((self.base >> 8) & 0xFF) as u8,
            ((self.base >> 16) & 0xFF) as u8,
            self.access.bits(),
            self.flags.bits() | (((self.limit >> 16) & 0x0F) as u8),
            ((self.base >> 24) & 0xFF) as u8,
        ]
    }

    /// The fields that eight descriptor bytes hold.
    pub open spec fn spec_decode(bytes: Seq<u8>) -> SegmentDescriptorBuilder
        recommends
            bytes.len() == 8,
    {
        SegmentDescriptorBuilder {
            base: (bytes[2] as u32) | ((bytes[3] as u32) << 8) | ((bytes[4] as u32) << 16) | ((
            bytes[7] as u32) << 24),
            limit: (bytes[0] as u32) | ((bytes[1] as u32) << 8) | (((bytes[6] & 0x0F) as u32)
                << 16),
            flags: SegmentFlagsBuilder::spec_decode(bytes[6]),
            access: SegmentAccessBuilder::spec_decode(bytes[5]),
        }
    }

    /// Tells whether the descriptor can be built: whether the limit is at
    /// most [`U20_MAX`], the flags are free of conflict and the privilege is
    /// at most 3.
    pub fn is_valid(&self) -> (r: bool)
        ensures
            r == self.valid(),
    {
        self.limit <= U20_MAX && self.flags.is_valid() && self.access.is_valid()
    }

    /// Lays the fields out as an 8-byte descriptor.
    ///
    /// A limit above [`U20_MAX`], flags that ask for long and protected mode
    /// at once, and a privilege above 3 are mistakes of the caller: there is
    /// no descriptor for them, and the caller stops before it asks for one.
    pub fn build(self) -> (r: SegmentDescriptor)
        requires
            self.valid(),
        ensures
            r@ == self.bytes(),
            Self::spec_decode(r@) == self,
    {
        let flags: u8 = self.flags.build();
        let access: u8 = self.access.build();
        let descriptor: SegmentDescriptor = [
            (self.limit & 0xFF) as u8,
            ((self.limit >> 8) & 0xFF) as u8,
            (self.base & 0xFF) as u8,
            ((self.base >> 8) & 0xFF) as u8,
            ((self.base >> 16) & 0xFF) as u8,
            access,
            flags | (((self.limit >> 16) & 0x0F) as u8),
            ((self.base >> 24) & 0xFF) as u8,
        ];
        proof {
            assert(descriptor@ =~= self.bytes());
            decode_inverts_build(self);
        }
        descriptor
    }

    /// Reads the fields back from an 8-byte descriptor.
    pub fn decode(descriptor: &SegmentDescriptor) -> (r: SegmentDescriptorBuilder)
        ensures
            r == Self::spec_decode(descriptor@),
    {
        SegmentDescriptorBuilder {
            base: (descriptor[2] as u32) | ((descriptor[3] as u32) << 8) | ((descriptor[4] as u32)
                << 16) | ((descriptor[7] as u32) << 24),
            limit: (descriptor[0] as u32) | ((descriptor[1] as u32) << 8) | (((descriptor[6]
                & 0x0F) as u32) << 16),
            flags: SegmentFlagsBuilder::decode(descriptor[6]),
            access: SegmentAccessBuilder::decode(descriptor[5]),
        }
    }
}

proof fn lemma_flag_bits(g: bool, d: bool, l: bool, low: u8)
    by (bit_vector)
    requires
        low <= 0x0F,
    ensures
        ({
            let b = ((if g { 0x80u8 } else { 0u8 }) | (if d { 0x40u8 } else { 0u8 }) | (if l {
                0x20u8
            } else {
                0u8
            })) | low;
            &&& (b & 0x80 != 0) == g
            &&& (b & 0x40 != 0) == d
            &&& (b & 0x20 != 0) == l
            &&& b & 0x0F == low
        }),
{
}

proof fn lemma_access_bits(p: bool, dpl: u8, s: bool, e: bool, dc: bool, rw: bool, a: bool)
    by (bit_vector)
    requires
        dpl <= 3,
    ensures
        ({
            let b = (if p { 0x80u8 } else { 0u8 }) | ((dpl & 3) << 5) | (if s { 0x10u8 } else {
                0u8
            }) | (if e { 0x08u8 } else { 0u8 }) | (if dc { 0x04u8 } else { 0u8 }) | (if rw {
                0x02u8
            } else {
                0u8
            }) | (if a { 0x01u8 } else { 0u8 });
            &&& (b & 0x80 != 0) == p
            &&& (b >> 5) & 3 == dpl
            &&& (b & 0x10 != 0) == s
            &&& (b & 0x08 != 0) == e
            &&& (b & 0x04 != 0) == dc
            &&& (b & 0x02 != 0) == rw
            &&& (b & 0x01 != 0) == a
        }),
{
}

proof fn lemma_split_u32(x: u32)
    by (bit_vector)
    ensures
        (((x & 0xFF) as u8) as u32) | ((((x >> 8) & 0xFF) as u8) as u32) << 8 | ((((x >> 16)
            & 0xFF) as u8) as u32) << 16 | ((((x >> 24) & 0xFF) as u8) as u32) << 24 == x,
        x <= 0x000F_FFFF ==> (((x & 0xFF) as u8) as u32) | ((((x >> 8) & 0xFF) as u8) as u32) << 8
            | ((((x >> 16) & 0x0F) as u8) as u32) << 16 == x,
        ((x >> 16) & 0x0F) as u8 <= 0x0F,
{
}

/// Flags survive packing and decoding.
pub proof fn flags_decode_inverts_build(flags: SegmentFlagsBuilder)
    ensures
        SegmentFlagsBuilder::spec_decode(flags.bits()) == flags,
        flags.bits() & 0x0F == 0,
{
    lemma_flag_bits(flags.paged_limit, flags.protected, flags.long, 0);
    assert(flags.bits() | 0u8 == flags.bits()) by (bit_vector);
}

/// Permissions with a privilege of at most 3 survive packing and decoding.
pub proof fn access_decode_inverts_build(access: SegmentAccessBuilder)
    requires
        access.valid(),
    ensures
        SegmentAccessBuilder::spec_decode(access.bits()) == access,
{
    lemma_access_bits(
        access.present,
        access.privilege,
        access.non_system,
        access.executable,
        access.direction_conforming,
        access.read_write,
        access.accessed,
    );
}

/// Every descriptor that can be built decodes back to the fields it was
/// built from: base, limit, flags and access.
pub proof fn decode_inverts_build(builder: SegmentDescriptorBuilder)
    requires
        builder.valid(),
    ensures
        SegmentDescriptorBuilder::spec_decode(builder.bytes()) == builder,
{
    let bytes = builder.bytes();
    let low = ((builder.limit >> 16) & 0x0F) as u8;
    lemma_split_u32(builder.base);
    lemma_split_u32(builder.limit);
    lemma_flag_bits(builder.flags.paged_limit, builder.flags.protected, builder.flags.long, low);
    access_decode_inverts_build(builder.access);
    let decoded = SegmentDescriptorBuilder::spec_decode(bytes);
    assert(decoded.flags == builder.flags);
    assert(decoded.access == builder.access);
    assert(decoded.base == builder.base);
    assert(decoded.limit == builder.limit);
}

/// No descriptor is built from a limit above 20 bits, nor from flags that
/// ask for long and protected mode at once: neither meets what `build` asks
/// of its caller, whatever the other fields are.
pub proof fn oversized_or_conflicting_is_rejected(builder: SegmentDescriptorBuilder)
    requires
        builder.limit > U20_MAX || (builder.flags.long && builder.flags.protected),
    ensures
        !builder.valid(),
        builder.flags.long && builder.flags.protected ==> !builder.flags.valid(),
{
}

/// What the GDTR register is loaded with: where the table is and how long.
#[derive(Clone, Copy, Debug, PartialEq, Eq)]
pub struct GDTDescriptor {
    /// The address of the table.
    pub offset: u64,
    /// The size of the table in bytes, less one.
    pub size: u16,
}

impl GDTDescriptor {
    /// The ten bytes that `lgdt` reads: the size, then the address, both
    /// little-endian.
    pub open spec fn bytes(self) -> Seq<u8> {
        seq![
            (self.size & 0xFF) as u8,
            ((self.size >> 8) & 0xFF) as u8,
            (self.offset & 0xFF) as u8,
            ((self.offset >> 8) & 0xFF) as u8,
            ((self.offset >> 16) & 0xFF) as u8,
            ((self.offset >> 24) & 0xFF) as u8,
            ((self.offset >> 32) & 0xFF) as u8,
            ((self.offset >> 40) & 0xFF) as u8,
            ((self.offset >> 48) & 0xFF) as u8,
            ((self.offset >> 56) & 0xFF) as u8,
        ]
    }

    /// The record as `lgdt` reads it from memory.
    pub fn to_bytes(&self) -> (r: [u8; 10])
        ensures
            r@ == self.bytes(),
    {
        let r: [u8; 10] = [
            (self.size & 0xFF) as u8,
            ((self.size >> 8) & 0xFF) as u8,
            (self.offset & 0xFF) as u8,
            ((self.offset >> 8) & 0xFF) as u8,
            ((self.offset >> 16) & 0xFF) as u8,
            ((self.offset >> 24) & 0xFF) as u8,
            ((self.offset >> 32) & 0xFF) as u8,
            ((self.offset >> 40) & 0xFF) as u8,
            ((self.offset >> 48) & 0xFF) as u8,
            ((self.offset >> 56) & 0xFF) as u8,
        ];
        assert(r@ =~= self.bytes());
        r
    }
}

/// The code segment of the boot table: all of memory, ring 0, long mode.
pub open spec fn spec_code_segment() -> SegmentDescriptorBuilder {
    SegmentDescriptorBuilder {
        base: 0,
        limit: U20_MAX,
        flags: SegmentFlagsBuilder { paged_limit: true, protected: false, long: true },
        access: SegmentAccessBuilder {
            present: true,
            privilege: 0,
            non_system: true,
            executable: true,
            direction_conforming: false,
            read_write: true,
            accessed: true,
        },
    }
}

/// The data segment of the boot table: the code segment's fields, but not
/// executable.
pub open spec fn spec_data_segment() -> SegmentDescriptorBuilder {
    SegmentDescriptorBuilder {
        access: SegmentAccessBuilder { executable: false, ..spec_code_segment().access },
        ..spec_code_segment()
    }
}

/// The code segment of the boot table.
#[verifier::when_used_as_spec(spec_code_segment)]
pub fn code_segment() -> (r: SegmentDescriptorBuilder)
    ensures
        r == spec_code_segment(),
{
    SegmentDescriptorBuilder {
        base: 0,
        limit: U20_MAX,
        flags: SegmentFlagsBuilder { paged_limit: true, protected: false, long: true },
        access: SegmentAccessBuilder {
            present: true,
            privilege: 0,
            non_system: true,
            executable: true,
            direction_conforming: false,
            read_write: true,
            accessed: true,
        },
    }
}

/// The data segment of the boot table.
#[verifier::when_used_as_spec(spec_data_segment)]
pub fn data_segment() -> (r: SegmentDescriptorBuilder)
    ensures
        r == spec_data_segment(),
{
    let code = code_segment();
    SegmentDescriptorBuilder {
        base: code.base,
        limit: code.limit,
        flags: code.flags,
        access: SegmentAccessBuilder {
            present: true,
            privilege: 0,
            non_system: true,
            executable: false,
            direction_conforming: false,
            read_write: true,
            accessed: true,
        },
    }
}

/// The boot table and the record that points the CPU at it.
#[derive(Clone, Copy, Debug, PartialEq, Eq)]
pub struct Gdt {
    /// The null descriptor, the code segment, the data segment.
    pub entries: [SegmentDescriptor; 3],
    /// What to load into GDTR.
    pub descriptor: GDTDescriptor,
}

impl Gdt {
    /// The table is the boot table and the record points at `address`.
    pub open spec fn is_boot_table_at(self, address: u64) -> bool {
        &&& self.entries[0]@ == Seq::new(8, |i: int| 0u8)
        &&& self.entries[1]@ == spec_code_segment().bytes()
        &&& self.entries[2]@ == spec_data_segment().bytes()
        &&& self.descriptor == (GDTDescriptor { offset: address, size: 23 })
    }

    /// The descriptor that `selector` picks, if it lies in the table.
    pub open spec fn spec_lookup(self, selector: u16) -> Option<SegmentDescriptorBuilder> {
        let index = selector as int / 8;
        if index * 8 + 7 <= self.descriptor.size && index < 3 {
            Some(SegmentDescriptorBuilder::spec_decode(self.entries[index]@))
        } else {
            None
        }
    }

    /// The fields of the descriptor that `selector` picks: its index is the
    /// selector without its low three bits. `None` when the descriptor would
    /// lie past the end of the table.
    pub fn lookup(&self, selector: u16) -> (r: Option<SegmentDescriptorBuilder>)
        ensures
            r == self.spec_lookup(selector),
    {
        let index: usize = (selector / 8) as usize;
        if index < 3 && index * 8 + 7 <= self.descriptor.size as usize {
            Some(SegmentDescriptorBuilder::decode(&self.entries[index]))
        } else {
            None
        }
    }
}

/// Builds the boot table, which will live at `table_address`: a null
/// descriptor, then a code segment and a data segment that each span all of
/// memory with ring-0 permissions.
pub fn build_gdt(table_address: u64) -> (gdt: Gdt)
    ensures
        gdt.is_boot_table_at(table_address),
        gdt.spec_lookup(CODE_SELECTOR) == Some(spec_code_segment()),
        gdt.spec_lookup(DATA_SELECTOR) == Some(spec_data_segment()),
{
    let null: SegmentDescriptor = [0, 0, 0, 0, 0, 0, 0, 0];
    assert(spec_code_segment().valid() && spec_data_segment().valid());
    let code = code_segment().build();
    let data = data_segment().build();
    let entries: [SegmentDescriptor; 3] = [null, code, data];
    let gdt = Gdt { entries, descriptor: GDTDescriptor { offset: table_address, size: 23 } };
    assert(gdt.entries[0]@ =~= Seq::new(8, |i: int| 0u8));
    gdt
}

} // verus!
