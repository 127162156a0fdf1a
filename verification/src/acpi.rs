//! Finding and checking the ACPI tables in a region of memory.
//!
//! The firmware leaves a root pointer in low memory, at an address that is a
//! multiple of 16. It points at the root table, which lists the addresses of
//! the other tables. Every one of these structures carries a checksum: the
//! bytes that it covers add up to 0, modulo 256.
//!
//! Memory is handed in as a slice, and an address is an index into it.
//! Multi-byte fields are little-endian.

use vstd::prelude::*;
use crate::little_endian::{le_u32, le_u64, read_u32, read_u64};

verus! {

/// The size of the root pointer in bytes.
pub const RSDP_SIZE: usize = 20;

/// The size of the extended root pointer in bytes.
pub const XSDP_SIZE: usize = 36;

/// The size of the header that every table starts with, in bytes.
pub const DESCRIPTOR_SIZE: usize = 36;

/// The first eight bytes of a root pointer: `RSD PTR `.
pub const RSDP_SIGNATURE: [u8; 8] = [0x52, 0x53, 0x44, 0x20, 0x50, 0x54, 0x52, 0x20];

/// The sum of the first `count` bytes.
pub open spec fn sum_of_bytes(bytes: Seq<u8>, count: int) -> int
    decreases count,
{
    if count <= 0 {
        0
    } else {
        sum_of_bytes(bytes, count - 1) + bytes[count - 1]
    }
}

/// The checksum of `bytes`: their sum modulo 256.
pub open spec fn checksum(bytes: Seq<u8>) -> int {
    sum_of_bytes(bytes, bytes.len() as int) % 256
}

/// Adds up the `count` bytes of `memory` from `from` on, modulo 256.
pub fn checksum_of(memory: &[u8], from: usize, count: usize) -> (r: u8)
    requires
        from + count <= memory@.len(),
    ensures
        r == checksum(memory@.subrange(from as int, from + count)),
{
    let mut sum: u8 = 0;
    let mut i: usize = 0;
    let length: usize = memory.len();
    let ghost covered = memory@.subrange(from as int, from + count);
    while i < count
        invariant
            i <= count,
            from + count <= length,
            length == memory@.len(),
            covered == memory@.subrange(from as int, from + count),
            sum == sum_of_bytes(covered, i as int) % 256,
        decreases count - i,
    {
        let wide: u16 = sum as u16 + memory[from + i] as u16;
        assert(memory@[from + i] == covered[i as int]);
        sum = (wide % 256) as u8;
        i += 1;
    }
    sum
}

/// Why a root pointer was not accepted.
#[derive(Clone, Copy, Debug, PartialEq, Eq)]
pub enum RsdpXsdpError {
    /// The signature is not `RSD PTR `.
    Signature,
    /// The revision, which is given, is not 2.
    Revision(u8),
    /// The bytes do not add up to 0.
    Checksum,
    /// The bytes of the extension do not add up to 0.
    ExtendedChecksum,
    /// The length field is not the size of the extended root pointer.
    Length,
}

/// The root system description pointer.
#[derive(Clone, Copy, Debug, PartialEq, Eq)]
pub struct Rsdp {
    /// `RSD PTR `.
    pub signature: [u8; 8],
    /// Makes the twenty bytes add up to 0.
    pub checksum: u8,
    /// Identifies the maker.
    pub oem_id: [u8; 6],
    /// 0 for ACPI 1, 2 for later versions.
    pub revision: u8,
    /// The address of the root table.
    pub rsdt_address: u32,
}

impl Rsdp {
    /// The pointer that twenty bytes hold: signature in eight bytes,
    /// checksum in one, maker in six, revision in one, address in four.
    pub open spec fn spec_from_bytes(bytes: Seq<u8>) -> Rsdp
        recommends
            bytes.len() >= 20,
    {
        Rsdp {
            signature: [
                bytes[0],
                bytes[1],
                bytes[2],
                bytes[3],
                bytes[4],
                bytes[5],
                bytes[6],
                bytes[7],
            ],
            checksum: bytes[8],
            oem_id: [bytes[9], bytes[10], bytes[11], bytes[12], bytes[13], bytes[14]],
            revision: bytes[15],
            rsdt_address: le_u32(bytes, 16),
        }
    }

    /// What [`Self::try_from_raw`] makes of twenty bytes: the signature is
    /// checked first, then the checksum over all twenty.
    pub open spec fn spec_try_from_raw(bytes: Seq<u8>) -> Result<Rsdp, RsdpXsdpError>
        recommends
            bytes.len() == 20,
    {
        if bytes.subrange(0, 8) != RSDP_SIGNATURE@ {
            Err(RsdpXsdpError::Signature)
        } else if checksum(bytes) != 0 {
            Err(RsdpXsdpError::Checksum)
        } else {
            Ok(Self::spec_from_bytes(bytes))
        }
    }

    /// Reads a root pointer and checks its signature and checksum.
    pub fn try_from_raw(bytes: &[u8; 20]) -> (r: Result<Rsdp, RsdpXsdpError>)
        ensures
            r == Self::spec_try_from_raw(bytes@),
    {
        let signed: bool = bytes[0] == 0x52 && bytes[1] == 0x53 && bytes[2] == 0x44 && bytes[3]
            == 0x20 && bytes[4] == 0x50 && bytes[5] == 0x54 && bytes[6] == 0x52 && bytes[7]
            == 0x20;
        assert(signed == (bytes@.subrange(0, 8) =~= RSDP_SIGNATURE@)) by {
            if bytes@.subrange(0, 8) =~= RSDP_SIGNATURE@ {
                assert(forall|i: int|
                    0 <= i < 8 ==> bytes@[i] == bytes@.subrange(0, 8)[i] && bytes@.subrange(0, 8)[i]
                        == RSDP_SIGNATURE@[i]);
            }
        }
        if !signed {
            return Err(RsdpXsdpError::Signature);
        }
        let sum = checksum_of(bytes.as_slice(), 0, 20);
        assert(bytes@.subrange(0, 20) =~= bytes@);
        if sum != 0 {
            return Err(RsdpXsdpError::Checksum);
        }
        Ok(
            Rsdp {
                signature: [
                    bytes[0],
                    bytes[1],
                    bytes[2],
                    bytes[3],
                    bytes[4],
                    bytes[5],
                    bytes[6],
                    bytes[7],
                ],
                checksum: bytes[8],
                oem_id: [bytes[9], bytes[10], bytes[11], bytes[12], bytes[13], bytes[14]],
                revision: bytes[15],
                rsdt_address: read_u32(bytes.as_slice(), 16),
            },
        )
    }
}

/// The extended root pointer of ACPI 2 and later: a root pointer with more
/// fields after it.
#[derive(Clone, Copy, Debug, PartialEq, Eq)]
pub struct Xsdp {
    /// The root pointer that the first twenty bytes are.
    pub rsdp: Rsdp,
    /// The size of the extended root pointer.
    pub len: u32,
    /// The address of the extended root table.
    pub xsd_address: u64,
    /// Makes the bytes of the extension add up to 0.
    pub extended_checksum: u8,
    /// Unused.
    pub reserved: [u8; 3],
}

impl Xsdp {
    /// The pointer that thirty-six bytes hold: a root pointer, then the
    /// length in four bytes, the address in eight, the extended checksum in
    /// one and three unused bytes.
    pub open spec fn spec_from_bytes(bytes: Seq<u8>) -> Xsdp
        recommends
            bytes.len() >= 36,
    {
        Xsdp {
            rsdp: Rsdp::spec_from_bytes(bytes),
            len: le_u32(bytes, 20),
            xsd_address: le_u64(bytes, 24),
            extended_checksum: bytes[32],
            reserved: [bytes[33], bytes[34], bytes[35]],
        }
    }

    /// What [`Self::try_from_raw`] makes of thirty-six bytes: the first
    /// twenty are checked as a root pointer; then the revision must be 2,
    /// the length 36, and the bytes from index 21 on must add up to 0.
    pub open spec fn spec_try_from_raw(bytes: Seq<u8>) -> Result<Xsdp, RsdpXsdpError>
        recommends
            bytes.len() == 36,
    {
        match Rsdp::spec_try_from_raw(bytes.subrange(0, 20)) {
            Err(e) => Err(e),
            Ok(rsdp) => if rsdp.revision != 2 {
                Err(RsdpXsdpError::Revision(rsdp.revision))
            } else if le_u32(bytes, 20) != 36 {
                Err(RsdpXsdpError::Length)
            } else if checksum(bytes.subrange(21, 36)) != 0 {
                Err(RsdpXsdpError::Checksum)
            } else {
                Ok(Self::spec_from_bytes(bytes))
            },
        }
    }

    /// Reads an extended root pointer and checks it.
    pub fn try_from_raw(bytes: &[u8; 36]) -> (r: Result<Xsdp, RsdpXsdpError>)
        ensures
            r == Self::spec_try_from_raw(bytes@),
    {
        let mut head: [u8; 20] = [0u8; 20];
        let mut i: usize = 0;
        while i < 20
            invariant
                i <= 20,
                forall|j: int| 0 <= j < i ==> head[j] == bytes[j],
            decreases 20 - i,
        {
            head[i] = bytes[i];
            i += 1;
        }
        assert(head@ =~= bytes@.subrange(0, 20));
        let rsdp = match Rsdp::try_from_raw(&head) {
            Ok(rsdp) => rsdp,
            Err(e) => {
                return Err(e);
            },
        };
        assert(rsdp == Rsdp::spec_from_bytes(bytes@)) by {
            assert(rsdp.signature =~= Rsdp::spec_from_bytes(bytes@).signature);
            assert(rsdp.oem_id =~= Rsdp::spec_from_bytes(bytes@).oem_id);
        }
        if rsdp.revision != 2 {
            return Err(RsdpXsdpError::Revision(rsdp.revision));
        }
        let len = read_u32(bytes.as_slice(), 20);
        if len != 36 {
            return Err(RsdpXsdpError::Length);
        }
        if checksum_of(bytes.as_slice(), 21, 15) != 0 {
            return Err(RsdpXsdpError::Checksum);
        }
        Ok(
            Xsdp {
                rsdp,
                len,
                xsd_address: read_u64(bytes.as_slice(), 24),
                extended_checksum: bytes[32],
                reserved: [bytes[33], bytes[34], bytes[35]],
            },
        )
    }
}

/// Why a table was not accepted.
#[derive(Clone, Copy, Debug, PartialEq, Eq)]
pub enum SystemDescriptorError {
    /// The bytes of the table do not add up to 0.
    Checksum,
    /// The table is shorter than its own header, or does not lie in the
    /// memory that was handed in.
    Length,
}

/// The header that every table starts with.
#[derive(Clone, Copy, Debug, PartialEq, Eq)]
pub struct SystemDescriptor {
    /// Four characters that name the table.
    pub signature: [u8; 4],
    /// The size of the table, header included.
    pub len: u32,
    /// The version of the table.
    pub revision: u8,
    /// Makes the bytes of the table add up to 0.
    pub checksum: u8,
    /// Identifies the maker.
    pub oem_id: [u8; 6],
    /// Identifies the table to the maker.
    pub oem_table_id: [u8; 8],
    /// The maker's revision of the table.
    pub oem_revision: u32,
    /// Identifies the tool that made the table.
    pub creator_id: u32,
    /// The revision of that tool.
    pub creator_revision: u32,
}

impl SystemDescriptor {
    /// The header that the 36 bytes from `at` on hold: signature in four
    /// bytes, length in four, revision and checksum in one each, maker in
    /// six, table identifier in eight, then three numbers of four bytes.
    pub open spec fn spec_from_bytes(memory: Seq<u8>, at: int) -> SystemDescriptor {
        SystemDescriptor {
            signature: [memory[at], memory[at + 1], memory[at + 2], memory[at + 3]],
            len: le_u32(memory, at + 4),
            revision: memory[at + 8],
            checksum: memory[at + 9],
            oem_id: [
                memory[at + 10],
                memory[at + 11],
                memory[at + 12],
                memory[at + 13],
                memory[at + 14],
                memory[at + 15],
            ],
            oem_table_id: [
                memory[at + 16],
                memory[at + 17],
                memory[at + 18],
                memory[at + 19],
                memory[at + 20],
                memory[at + 21],
                memory[at + 22],
                memory[at + 23],
            ],
            oem_revision: le_u32(memory, at + 24),
            creator_id: le_u32(memory, at + 28),
            creator_revision: le_u32(memory, at + 32),
        }
    }

    /// What [`Self::try_from_raw`] makes of the table at `at`: the header
    /// must lie in `memory`, the length that it gives must be at least 36
    /// and the whole table must lie in `memory`; then all the bytes of the
    /// table must add up to 0.
    pub open spec fn spec_try_from_raw(memory: Seq<u8>, at: int) -> Result<
        SystemDescriptor,
        SystemDescriptorError,
    > {
        if at < 0 || at + 36 > memory.len() {
            Err(SystemDescriptorError::Length)
        } else {
            let len = le_u32(memory, at + 4);
            if len < 36 || at + len > memory.len() {
                Err(SystemDescriptorError::Length)
            } else if checksum(memory.subrange(at, at + len)) != 0 {
                Err(SystemDescriptorError::Checksum)
            } else {
                Ok(Self::spec_from_bytes(memory, at))
            }
        }
    }

    /// Reads the header of the table at address `at` of `memory` and checks
    /// the table's length and checksum.
    pub fn try_from_raw(memory: &[u8], at: usize) -> (r: Result<
        SystemDescriptor,
        SystemDescriptorError,
    >)
        ensures
            r == Self::spec_try_from_raw(memory@, at as int),
    {
        if memory.len() < 36 || at > memory.len() - 36 {
            return Err(SystemDescriptorError::Length);
        }
        let len = read_u32(memory, at + 4);
        if len < 36 || len as u64 > (memory.len() - at) as u64 {
            return Err(SystemDescriptorError::Length);
        }
        if checksum_of(memory, at, len as usize) != 0 {
            return Err(SystemDescriptorError::Checksum);
        }
        Ok(
            SystemDescriptor {
                signature: [memory[at], memory[at + 1], memory[at + 2], memory[at + 3]],
                len,
                revision: memory[at + 8],
                checksum: memory[at + 9],
                oem_id: [
                    memory[at + 10],
                    memory[at + 11],
                    memory[at + 12],
                    memory[at + 13],
                    memory[at + 14],
                    memory[at + 15],
                ],
                oem_table_id: [
                    memory[at + 16],
                    memory[at + 17],
                    memory[at + 18],
                    memory[at + 19],
                    memory[at + 20],
                    memory[at + 21],
                    memory[at + 22],
                    memory[at + 23],
                ],
                oem_revision: read_u32(memory, at + 24),
                creator_id: read_u32(memory, at + 28),
                creator_revision: read_u32(memory, at + 32),
            },
        )
    }
}

/// A number that is an address: an entry of a root table.
pub trait ToPtr: Sized {
    /// The address.
    spec fn spec_to_ptr(&self) -> int;

    /// The size of an entry in bytes.
    spec fn spec_width() -> int;

    /// The entry that the bytes of `memory` from `at` on hold.
    spec fn spec_read(memory: Seq<u8>, at: int) -> Self;

    /// The address, where it fits in a `usize`.
    fn to_ptr(&self) -> (r: Option<usize>)
        ensures
            r == (if self.spec_to_ptr() <= usize::MAX {
                Some(self.spec_to_ptr() as usize)
            } else {
                None
            }),
            self.spec_to_ptr() >= 0,
    ;

    /// The size of an entry in bytes.
    fn width() -> (r: usize)
        ensures
            r == Self::spec_width(),
            1 <= r <= 8,
    ;

    /// Reads the entry that starts at `at`.
    fn read(memory: &[u8], at: usize) -> (r: Self)
        requires
            at + Self::spec_width() <= memory@.len(),
        ensures
            r == Self::spec_read(memory@, at as int),
    ;
}

impl ToPtr for u32 {
    open spec fn spec_to_ptr(&self) -> int {
        *self as int
    }

    open spec fn spec_width() -> int {
        4
    }

    open spec fn spec_read(memory: Seq<u8>, at: int) -> u32 {
        le_u32(memory, at)
    }

    fn to_ptr(&self) -> (r: Option<usize>) {
        Some(*self as usize)
    }

    fn width() -> (r: usize) {
        4
    }

    fn read(memory: &[u8], at: usize) -> (r: u32) {
        read_u32(memory, at)
    }
}

impl ToPtr for u64 {
    open spec fn spec_to_ptr(&self) -> int {
        *self as int
    }

    open spec fn spec_width() -> int {
        8
    }

    open spec fn spec_read(memory: Seq<u8>, at: int) -> u64 {
        le_u64(memory, at)
    }

    fn to_ptr(&self) -> (r: Option<usize>) {
        if *self <= usize::MAX as u64 {
            Some(*self as usize)
        } else {
            None
        }
    }

    fn width() -> (r: usize) {
        8
    }

    fn read(memory: &[u8], at: usize) -> (r: u64) {
        read_u64(memory, at)
    }
}

/// A root table: a header and the addresses of the other tables.
pub struct Sdt<PtrSize: ToPtr> {
    /// The header of the root table.
    pub descriptor: SystemDescriptor,
    /// The addresses of the other tables.
    pub tables: Vec<PtrSize>,
}

/// The root table of ACPI 1, with addresses of four bytes.
pub type Rsdt = Sdt<u32>;

/// The root table of ACPI 2 and later, with addresses of eight bytes.
pub type Xsdt = Sdt<u64>;

/// The table at the address that `pointer` names is accepted and its
/// signature is `name`.
pub open spec fn names_table<PtrSize: ToPtr>(memory: Seq<u8>, pointer: PtrSize, name: Seq<u8>)
    -> bool {
    &&& pointer.spec_to_ptr() <= usize::MAX
    &&& SystemDescriptor::spec_try_from_raw(memory, pointer.spec_to_ptr()) matches Ok(descriptor)
    &&& descriptor.signature@ == name
}

impl<PtrSize: ToPtr> Sdt<PtrSize> {
    /// How many addresses a root table of `len` bytes lists: as many as fit
    /// behind its header.
    pub open spec fn entries(len: u32) -> int {
        (len - 36) / PtrSize::spec_width()
    }

    /// Reads the root table at address `at` of `memory`: checks it as
    /// [`SystemDescriptor::try_from_raw`] does and reads the addresses that
    /// follow its header.
    pub fn try_from_raw(memory: &[u8], at: usize) -> (r: Result<Sdt<PtrSize>, SystemDescriptorError>)
        ensures
            match r {
                Ok(table) => {
                    &&& SystemDescriptor::spec_try_from_raw(memory@, at as int) == Ok::<
                        SystemDescriptor,
                        SystemDescriptorError,
                    >(table.descriptor)
                    &&& table.tables@.len() == Self::entries(table.descriptor.len)
                    &&& forall|i: int|
                        0 <= i < table.tables@.len() ==> table.tables@[i] == PtrSize::spec_read(
                            memory@,
                            at + 36 + i * PtrSize::spec_width(),
                        )
                },
                Err(e) => SystemDescriptor::spec_try_from_raw(memory@, at as int) == Err::<
                    SystemDescriptor,
                    SystemDescriptorError,
                >(e),
            },
    {
        let descriptor = match SystemDescriptor::try_from_raw(memory, at) {
            Ok(descriptor) => descriptor,
            Err(e) => {
                return Err(e);
            },
        };
        let width = PtrSize::width();
        let length: usize = memory.len();
        let count: usize = (descriptor.len as usize - 36) / width;
        let mut tables: Vec<PtrSize> = Vec::new();
        let mut i: usize = 0;
        assert(count * width <= descriptor.len - 36) by (nonlinear_arith)
            requires
                count == (descriptor.len - 36) / width as int,
                width >= 1,
                descriptor.len >= 36,
        ;
        while i < count
            invariant
                i <= count,
                width == PtrSize::spec_width(),
                1 <= width <= 8,
                count * width <= descriptor.len - 36,
                at + descriptor.len <= length,
                length == memory@.len(),
                tables@.len() == i,
                forall|j: int|
                    0 <= j < i ==> tables@[j] == PtrSize::spec_read(
                        memory@,
                        at + 36 + j * PtrSize::spec_width(),
                    ),
            decreases count - i,
        {
            assert((i + 1) * width <= count * width) by (nonlinear_arith)
                requires
                    i + 1 <= count,
                    width >= 1,
            ;
            assert(i * width + width == (i + 1) * width) by (nonlinear_arith);
            let entry = PtrSize::read(memory, at + 36 + i * width);
            tables.push(entry);
            i += 1;
        }
        Ok(Sdt { descriptor, tables })
    }

    /// Finds the first of the listed tables that is accepted and whose
    /// signature is `name`. `None` when `name` is not four bytes long or no
    /// such table is listed.
    pub fn find_table(&self, memory: &[u8], name: &[u8]) -> (r: Option<SystemDescriptor>)
        ensures
            match r {
                Some(descriptor) => exists|i: int|
                    {
                        &&& 0 <= i < self.tables@.len()
                        &&& #[trigger] names_table(memory@, self.tables@[i], name@)
                        &&& SystemDescriptor::spec_try_from_raw(
                            memory@,
                            self.tables@[i].spec_to_ptr(),
                        ) == Ok::<SystemDescriptor, SystemDescriptorError>(descriptor)
                        &&& forall|j: int|
                            0 <= j < i ==> !#[trigger] names_table(memory@, self.tables@[j], name@)
                    },
                None => name@.len() != 4 || forall|i: int|
                    0 <= i < self.tables@.len() ==> !#[trigger] names_table(
                        memory@,
                        self.tables@[i],
                        name@,
                    ),
            },
    {
        if name.len() != 4 {
            return None;
        }
        let mut i: usize = 0;
        while i < self.tables.len()
            invariant
                i <= self.tables@.len(),
                name@.len() == 4,
                forall|j: int|
                    0 <= j < i ==> !#[trigger] names_table(memory@, self.tables@[j], name@),
            decreases self.tables@.len() - i,
        {
            if let Some(address) = self.tables[i].to_ptr() {
                if let Ok(descriptor) = SystemDescriptor::try_from_raw(memory, address) {
                    let same: bool = descriptor.signature[0] == name[0] && descriptor.signature[1]
                        == name[1] && descriptor.signature[2] == name[2]
                        && descriptor.signature[3] == name[3];
                    assert(same == (descriptor.signature@ =~= name@));
                    if same {
                        assert(names_table(memory@, self.tables@[i as int], name@));
                        return Some(descriptor);
                    }
                }
            }
            i += 1;
        }
        None
    }
}

/// A root pointer is accepted at address `at` of `memory`.
pub open spec fn rsdp_at(memory: Seq<u8>, at: int) -> bool {
    &&& 0 <= at
    &&& at + 20 <= memory.len()
    &&& Rsdp::spec_try_from_raw(memory.subrange(at, at + 20)) is Ok
}

/// Searches `memory` for a root pointer, at every address that is a multiple
/// of 16, from 0 up. Returns the first address at which one is accepted, and
/// the pointer.
pub fn find_rsdp(memory: &[u8]) -> (r: Option<(usize, Rsdp)>)
    ensures
        match r {
            Some((address, rsdp)) => {
                &&& address % 16 == 0
                &&& rsdp_at(memory@, address as int)
                &&& Rsdp::spec_try_from_raw(memory@.subrange(address as int, address + 20)) == Ok::<
                    Rsdp,
                    RsdpXsdpError,
                >(rsdp)
                &&& forall|a: int| 0 <= a < address && a % 16 == 0 ==> !#[trigger] rsdp_at(memory@, a)
            },
            None => forall|a: int| a % 16 == 0 ==> !#[trigger] rsdp_at(memory@, a),
        },
{
    let mut address: usize = 0;
    let length: usize = memory.len();
    while length >= 20 && address <= length - 20
        invariant
            address % 16 == 0,
            length == memory@.len(),
            forall|a: int| 0 <= a < address && a % 16 == 0 ==> !#[trigger] rsdp_at(memory@, a),
        decreases memory@.len() - address,
    {
        let mut window: [u8; 20] = [0u8; 20];
        let mut i: usize = 0;
        while i < 20
            invariant
                i <= 20,
                address + 20 <= length,
                length == memory@.len(),
                forall|j: int| 0 <= j < i ==> window[j] == memory@[address + j],
            decreases 20 - i,
        {
            window[i] = memory[address + i];
            i += 1;
        }
        assert(window@ =~= memory@.subrange(address as int, address + 20));
        if let Ok(rsdp) = Rsdp::try_from_raw(&window) {
            return Some((address, rsdp));
        }
        if address > usize::MAX - 16 {
            return None;
        }
        address += 16;
    }
    None
}

} // verus!
