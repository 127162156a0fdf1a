//! Loading a boot stage from disk, one sector at a time, until a sentinel
//! marks its end.
//!
//! A stage is stored in consecutive 512-byte sectors. The build appends the
//! 32-bit sentinel [`SENTINEL`], little-endian, as the last four bytes of the
//! stage's last sector. The loader reads sector after sector into
//! consecutive memory and stops at the first sector that ends with the
//! sentinel; the sector after it is where the next stage begins.
//!
//! The BIOS does the reading. [`ProgramLoader`] decides what to read next and
//! when to stop; [`load_program`] runs the same decisions over a disk image
//! held in memory.

use vstd::prelude::*;

verus! {

/// The size of a disk sector in bytes.
pub const SECTOR_SIZE: usize = 512;

/// The mark at the end of a stage's last sector.
pub const SENTINEL: u32 = 0xDEAD_BEEF;

/// The drive that is read when none is named: the first hard disk.
pub const DEFAULT_DRIVE: u8 = 0x80;

/// One past the largest 48-bit logical block address.
pub const LBA_LIMIT: u64 = 0x1_0000_0000_0000;

/// The record that the BIOS extended read takes: what to read and where to
/// put it.
#[derive(Clone, Copy, Debug, PartialEq, Eq)]
pub struct DiskAddressPacket {
    /// The size of this record: 16.
    pub size: u8,
    /// Always 0.
    pub reserved: u8,
    /// How many sectors to read.
    pub sectors: u16,
    /// The offset, within `segment`, of the memory to read into.
    pub offset: u16,
    /// The segment of the memory to read into.
    pub segment: u16,
    /// The first sector to read.
    pub lba: u64,
}

impl DiskAddressPacket {
    /// The record for reading `sectors` sectors from `lba` on to
    /// `segment:offset`.
    pub open spec fn spec_new(lba: u64, sectors: u16, segment: u16, offset: u16) -> Self {
        DiskAddressPacket { size: 16, reserved: 0, sectors, offset, segment, lba }
    }

    /// The record for reading `sectors` sectors from `lba` on to
    /// `segment:offset`.
    #[verifier::when_used_as_spec(spec_new)]
    pub fn new(lba: u64, sectors: u16, segment: u16, offset: u16) -> (r: Self)
        ensures
            r == Self::spec_new(lba, sectors, segment, offset),
    {
        DiskAddressPacket { size: 16, reserved: 0, sectors, offset, segment, lba }
    }

    /// The sixteen bytes handed to the BIOS: size, reserved byte, sector
    /// count, offset, segment and block address, each little-endian.
    pub open spec fn bytes(self) -> Seq<u8> {
        seq![
            self.size,
            self.reserved,
            (self.sectors & 0xFF) as u8,
            ((self.sectors >> 8) & 0xFF) as u8,
            (self.offset & 0xFF) as u8,
            ((self.offset >> 8) & 0xFF) as u8,
            (self.segment & 0xFF) as u8,
            ((self.segment >> 8) & 0xFF) as u8,
            (self.lba & 0xFF) as u8,
            ((self.lba >> 8) & 0xFF) as u8,
            ((self.lba >> 16) & 0xFF) as u8,
            ((self.lba >> 24) & 0xFF) as u8,
            ((self.lba >> 32) & 0xFF) as u8,
            ((self.lba >> 40) & 0xFF) as u8,
            ((self.lba >> 48) & 0xFF) as u8,
            ((self.lba >> 56) & 0xFF) as u8,
        ]
    }

    /// The record as the BIOS reads it from memory.
    pub fn to_bytes(&self) -> (r: [u8; 16])
        ensures
            r@ == self.bytes(),
    {
        let r: [u8; 16] = [
            self.size,
            self.reserved,
            (self.sectors & 0xFF) as u8,
            ((self.sectors >> 8) & 0xFF) as u8,
            (self.offset & 0xFF) as u8,
            ((self.offset >> 8) & 0xFF) as u8,
            (self.segment & 0xFF) as u8,
            ((self.segment >> 8) & 0xFF) as u8,
            (self.lba & 0xFF) as u8,
            ((self.lba >> 8) & 0xFF) as u8,
            ((self.lba >> 16) & 0xFF) as u8,
            ((self.lba >> 24) & 0xFF) as u8,
            ((self.lba >> 32) & 0xFF) as u8,
            ((self.lba >> 40) & 0xFF) as u8,
            ((self.lba >> 48) & 0xFF) as u8,
            ((self.lba >> 56) & 0xFF) as u8,
        ];
        assert(r@ =~= self.bytes());
        r
    }
}

/// One call of the BIOS extended read.
#[derive(Clone, Copy, Debug, PartialEq, Eq)]
pub struct ReadRequest {
    /// What to read and where to put it.
    pub packet: DiskAddressPacket,
    /// The drive to read from.
    pub drive: u16,
}

/// Prepares the read of `sectors` sectors from `*lba` to `segment:*address`
/// on `drive` (the first hard disk if none is named), and moves `*lba` and
/// `*address` past what the read covers.
///
/// The caller keeps the destination inside the segment: the address after
/// the read must still be a 16-bit offset.
pub fn read_sectors(
    lba: &mut u64,
    sectors: u16,
    address: &mut u16,
    segment: u16,
    drive: Option<u8>,
) -> (request: ReadRequest)
    requires
        *old(lba) + sectors <= u64::MAX,
        *old(address) + sectors * 512 <= u16::MAX,
    ensures
        request.packet == DiskAddressPacket::spec_new(*old(lba), sectors, segment, *old(address)),
        request.drive == (match drive {
            Some(d) => d,
            None => DEFAULT_DRIVE,
        }),
        *final(lba) == *old(lba) + sectors,
        *final(address) == *old(address) + sectors * 512,
{
    let packet = DiskAddressPacket::new(*lba, sectors, segment, *address);
    let drive: u8 = match drive {
        Some(d) => d,
        None => DEFAULT_DRIVE,
    };
    *lba = *lba + sectors as u64;
    *address = *address + sectors * 512;
    ReadRequest { packet, drive: drive as u16 }
}

/// The sector is the last of a stage: it is 512 bytes long and its last four
/// bytes are [`SENTINEL`], least significant byte first.
pub open spec fn ends_program(sector: Seq<u8>) -> bool {
    &&& sector.len() == 512
    &&& sector[508] == 0xEF
    &&& sector[509] == 0xBE
    &&& sector[510] == 0xAD
    &&& sector[511] == 0xDE
}

/// Tells whether `sector` is the last of a stage.
pub fn sector_ends_program(sector: &[u8; 512]) -> (r: bool)
    ensures
        r == ends_program(sector@),
{
    sector[508] == 0xEF && sector[509] == 0xBE && sector[510] == 0xAD && sector[511] == 0xDE
}

/// Why a stage could not be loaded.
#[derive(Clone, Copy, Debug, PartialEq, Eq)]
pub enum LoadError {
    /// The next sector would be read to an offset past the end of the
    /// 16-bit segment.
    WindowExhausted,
    /// The disk ended before a sector with the sentinel was found.
    SentinelMissing,
}

/// What to do after a sector has been read.
#[derive(Clone, Copy, Debug, PartialEq, Eq)]
pub enum LoadProgress {
    /// The stage goes on: read the next sector with this loader.
    Continue(ProgramLoader),
    /// The stage is complete; the next stage starts at `end_lba`.
    Done { end_lba: u64 },
}

/// The loader between two reads: which sector comes next and where it goes.
#[derive(Clone, Copy, Debug, PartialEq, Eq)]
pub struct ProgramLoader {
    lba: u64,
    segment: u16,
    offset: u16,
    drive: u16,
    sectors_read: u16,
}

impl ProgramLoader {
    #[verifier::type_invariant]
    spec fn inv(self) -> bool {
        &&& self.lba < LBA_LIMIT + self.sectors_read
        &&& self.sectors_read * 512 <= self.offset
        &&& self.lba >= self.sectors_read
    }

    /// The sector that is read next.
    pub closed spec fn spec_lba(&self) -> u64 {
        self.lba
    }

    /// The segment that is read into.
    pub closed spec fn spec_segment(&self) -> u16 {
        self.segment
    }

    /// The offset that the next sector is read to.
    pub closed spec fn spec_offset(&self) -> u16 {
        self.offset
    }

    /// The drive that is read from.
    pub closed spec fn spec_drive(&self) -> u16 {
        self.drive
    }

    /// How many sectors have been read so far.
    pub closed spec fn spec_sectors_read(&self) -> u16 {
        self.sectors_read
    }

    /// A loader that has read `n` sectors since it started at `start_lba`
    /// and `offset`.
    pub open spec fn is_after(self, start_lba: u64, segment: u16, offset: u16, drive: u16, n: int)
        -> bool {
        &&& self.spec_lba() == start_lba + n
        &&& self.spec_segment() == segment
        &&& self.spec_offset() == offset + 512 * n
        &&& self.spec_drive() == drive
        &&& self.spec_sectors_read() == n
    }

    /// The loader one sector after `previous`: one block further on the
    /// disk, 512 bytes further in the same segment.
    pub open spec fn follows(self, previous: ProgramLoader) -> bool {
        &&& self.spec_lba() == previous.spec_lba() + 1
        &&& self.spec_segment() == previous.spec_segment()
        &&& self.spec_offset() == previous.spec_offset() + 512
        &&& self.spec_drive() == previous.spec_drive()
        &&& self.spec_sectors_read() == previous.spec_sectors_read() + 1
    }

    /// A loader that will read the stage starting at sector `start_lba` of
    /// `drive` to `segment:offset`.
    pub fn new(start_lba: u64, segment: u16, offset: u16, drive: u16) -> (r: Self)
        requires
            start_lba < LBA_LIMIT,
        ensures
            r.is_after(start_lba, segment, offset, drive, 0),
    {
        ProgramLoader { lba: start_lba, segment, offset, drive, sectors_read: 0 }
    }

    /// The sector that is read next.
    #[verifier::when_used_as_spec(spec_lba)]
    pub fn lba(&self) -> (r: u64)
        ensures
            r == self.spec_lba(),
    {
        self.lba
    }

    /// The offset that the next sector is read to.
    #[verifier::when_used_as_spec(spec_offset)]
    pub fn offset(&self) -> (r: u16)
        ensures
            r == self.spec_offset(),
    {
        self.offset
    }

    /// How many sectors have been read so far.
    #[verifier::when_used_as_spec(spec_sectors_read)]
    pub fn sectors_read(&self) -> (r: u16)
        ensures
            r == self.spec_sectors_read(),
    {
        self.sectors_read
    }

    /// The read to issue now: one sector, from the next block address, to
    /// the next offset.
    pub fn request(&self) -> (r: ReadRequest)
        ensures
            r.packet == DiskAddressPacket::spec_new(
                self.spec_lba(),
                1,
                self.spec_segment(),
                self.spec_offset(),
            ),
            r.drive == self.spec_drive(),
    {
        ReadRequest {
            packet: DiskAddressPacket::new(self.lba, 1, self.segment, self.offset),
            drive: self.drive,
        }
    }

    /// Decides what follows the read of `sector`, which [`Self::request`]
    /// asked for.
    ///
    /// If the sector ends with the sentinel, the stage is complete and the
    /// block address after it is returned. Otherwise the loader moves on by
    /// one sector and 512 bytes; that fails when the new offset would no
    /// longer fit in 16 bits.
    pub fn sector_read(self, sector: &[u8; 512]) -> (r: Result<LoadProgress, LoadError>)
        ensures
            ends_program(sector@) ==> r == Ok::<LoadProgress, LoadError>(
                LoadProgress::Done { end_lba: (self.spec_lba() + 1) as u64 },
            ),
            !ends_program(sector@) && self.spec_offset() + 512 > u16::MAX ==> r == Err::<
                LoadProgress,
                LoadError,
            >(LoadError::WindowExhausted),
            !ends_program(sector@) && self.spec_offset() + 512 <= u16::MAX ==> (r matches Ok(
                LoadProgress::Continue(next),
            ) && next.follows(self)),
    {
        proof {
            use_type_invariant(&self);
        }
        if sector_ends_program(sector) {
            return Ok(LoadProgress::Done { end_lba: self.lba + 1 });
        }
        if self.offset > u16::MAX - 512 {
            return Err(LoadError::WindowExhausted);
        }
        Ok(
            LoadProgress::Continue(
                ProgramLoader {
                    lba: self.lba + 1,
                    segment: self.segment,
                    offset: self.offset + 512,
                    drive: self.drive,
                    sectors_read: self.sectors_read + 1,
                },
            ),
        )
    }
}

/// What a stage hands to the stage that it has loaded: where to jump, and
/// the two arguments that go along in registers.
#[derive(Clone, Copy, Debug, PartialEq, Eq)]
pub struct StageHandoff {
    /// The address of the first byte of the loaded stage, which is its
    /// entry.
    pub entry: u32,
    /// The drive that the stages are read from.
    pub drive: u16,
    /// The sector after the loaded stage, where the stage after it begins.
    pub next_sector: u64,
}

/// The address that `segment:offset` names in real mode: sixteen times the
/// segment, plus the offset.
pub open spec fn spec_linear_address(segment: u16, offset: u16) -> u32 {
    (segment * 16 + offset) as u32
}

/// Computes the address that `segment:offset` names in real mode.
#[verifier::when_used_as_spec(spec_linear_address)]
pub fn linear_address(segment: u16, offset: u16) -> (r: u32)
    ensures
        r == spec_linear_address(segment, offset),
        r == segment * 16 + offset,
{
    segment as u32 * 16 + offset as u32
}

/// Makes the handoff to a stage that was loaded to `segment:offset` from
/// `drive` and whose last sector lies before `end_lba`.
pub fn handoff(segment: u16, offset: u16, drive: u16, end_lba: u64) -> (r: StageHandoff)
    ensures
        r == (StageHandoff {
            entry: spec_linear_address(segment, offset),
            drive,
            next_sector: end_lba,
        }),
{
    StageHandoff { entry: linear_address(segment, offset), drive, next_sector: end_lba }
}

/// A stage that has been read from a disk image.
#[derive(Clone, Debug, PartialEq, Eq)]
pub struct LoadedProgram {
    /// The block address after the stage's last sector.
    pub end_lba: u64,
    /// How many sectors were read.
    pub sectors_read: u64,
    /// The bytes that were read, in order.
    pub image: Vec<u8>,
    /// The reads that were asked of the BIOS, in order: one for each sector.
    pub requests: Vec<ReadRequest>,
}

/// The `k`-th read, counted from 0, of the load of a stage that starts at
/// sector `start_lba` of `drive` and goes to `segment:offset`: one sector,
/// `k` sectors behind the first, to the place `k` times 512 bytes behind the
/// start.
pub open spec fn request_at(start_lba: u64, segment: u16, offset: u16, drive: u16, k: int)
    -> ReadRequest {
    ReadRequest {
        packet: DiskAddressPacket::spec_new(
            (start_lba + k) as u64,
            1,
            segment,
            (offset + 512 * k) as u16,
        ),
        drive,
    }
}

/// The number of whole sectors in a disk image.
pub open spec fn sector_count(disk: Seq<u8>) -> int {
    disk.len() as int / 512
}

/// The `lba`-th sector of a disk image.
pub open spec fn sector_at(disk: Seq<u8>, lba: int) -> Seq<u8> {
    disk.subrange(512 * lba, 512 * lba + 512)
}

/// Sectors `start` up to `end`, exclusive, hold one stage: they lie on the
/// disk, the last of them ends with the sentinel and none before it does.
pub open spec fn is_program(disk: Seq<u8>, start: int, end: int) -> bool {
    &&& 0 <= start < end <= sector_count(disk)
    &&& ends_program(sector_at(disk, end - 1))
    &&& forall|lba: int| start <= lba < end - 1 ==> !ends_program(#[trigger] sector_at(disk, lba))
}

/// None of the sectors `start` up to `end`, exclusive, ends with the
/// sentinel.
pub open spec fn no_sentinel(disk: Seq<u8>, start: int, end: int) -> bool {
    forall|lba: int| start <= lba < end ==> !ends_program(#[trigger] sector_at(disk, lba))
}

/// How many sectors fit between `offset` and the end of a 16-bit segment,
/// when each but the first needs an offset of its own.
pub open spec fn window_sectors(offset: u16) -> int {
    (u16::MAX - offset) / 512 + 1
}

/// The stage that starts at sector `start` can be loaded to `offset` and
/// ends before sector `end`: the sectors hold one stage, and each of them
/// has an offset of its own in the segment.
pub open spec fn stage_ends_at(disk: Seq<u8>, start: int, offset: u16, end: int) -> bool {
    &&& is_program(disk, start, end)
    &&& end - start <= window_sectors(offset)
}

/// The disk ends before a sector with the sentinel is found, and before the
/// segment is full.
pub open spec fn disk_ends_first(disk: Seq<u8>, start: int, offset: u16) -> bool {
    &&& sector_count(disk) - start < window_sectors(offset)
    &&& no_sentinel(disk, start, sector_count(disk))
}

/// The segment is full before a sector with the sentinel is found: every
/// sector that has an offset in the segment lies on the disk, and none of
/// them ends with the sentinel.
pub open spec fn window_ends_first(disk: Seq<u8>, start: int, offset: u16) -> bool {
    &&& start + window_sectors(offset) <= sector_count(disk)
    &&& no_sentinel(disk, start, start + window_sectors(offset))
}

/// A stage that can be loaded is loaded, and up to one sector only: where
/// the sectors from `start` up to `end` hold one stage that fits into the
/// segment, loading fails in neither way, and it can end nowhere but before
/// `end`. So exactly `end - start` sectors are read.
pub proof fn stage_is_loaded_whole(disk: Seq<u8>, start: int, offset: u16, end: int)
    requires
        stage_ends_at(disk, start, offset, end),
    ensures
        !disk_ends_first(disk, start, offset),
        !window_ends_first(disk, start, offset),
        forall|other: int| stage_ends_at(disk, start, offset, other) ==> other == end,
{
    assert(ends_program(sector_at(disk, end - 1)));
    assert forall|other: int| stage_ends_at(disk, start, offset, other) implies other == end by {
        if other < end {
            assert(ends_program(sector_at(disk, other - 1)));
        } else if end < other {
            assert(ends_program(sector_at(disk, end - 1)));
        }
    }
}

/// On a disk of `count` sectors of which only the last ends with the
/// sentinel, the stage that starts at sector 0 is the whole disk: if it fits
/// into the segment, loading reads all `count` sectors and ends at `count`.
pub proof fn stage_that_ends_with_the_disk(disk: Seq<u8>, count: int, offset: u16)
    requires
        count >= 1,
        disk.len() == 512 * count,
        ends_program(sector_at(disk, count - 1)),
        no_sentinel(disk, 0, count - 1),
        count <= window_sectors(offset),
    ensures
        stage_ends_at(disk, 0, offset, count),
        !disk_ends_first(disk, 0, offset),
        !window_ends_first(disk, 0, offset),
{
    stage_is_loaded_whole(disk, 0, offset, count);
}

/// What lies behind a stage plays no part in loading it: two disks that
/// hold the same bytes up to the end of a stage hold the same stage.
pub proof fn later_sectors_are_not_read(
    disk: Seq<u8>,
    other: Seq<u8>,
    start: int,
    offset: u16,
    end: int,
)
    requires
        stage_ends_at(disk, start, offset, end),
        other.len() >= 512 * end,
        other.subrange(0, 512 * end) == disk.subrange(0, 512 * end),
    ensures
        stage_ends_at(other, start, offset, end),
{
    assert forall|lba: int| start <= lba < end implies sector_at(other, lba) == sector_at(
        disk,
        lba,
    ) by {
        assert(sector_at(other, lba) =~= other.subrange(0, 512 * end).subrange(
            512 * lba,
            512 * lba + 512,
        ));
        assert(sector_at(disk, lba) =~= disk.subrange(0, 512 * end).subrange(
            512 * lba,
            512 * lba + 512,
        ));
    }
    assert(ends_program(sector_at(disk, end - 1)));
    assert forall|lba: int| start <= lba < end - 1 implies !ends_program(
        #[trigger] sector_at(other, lba),
    ) by {
        assert(!ends_program(sector_at(disk, lba)));
    }
}

fn copy_sector(disk: &[u8], lba: u64) -> (r: [u8; 512])
    requires
        512 * (lba + 1) <= disk@.len(),
    ensures
        r@ == sector_at(disk@, lba as int),
{
    let mut sector: [u8; 512] = [0u8; 512];
    let length: usize = disk.len();
    assert(lba < length);
    let base: usize = (lba as usize) * 512;
    let mut i: usize = 0;
    while i < 512
        invariant
            i <= 512,
            base == 512 * lba,
            base + 512 <= disk@.len(),
            forall|j: int| 0 <= j < i ==> sector[j] == disk@[base + j],
        decreases 512 - i,
    {
        sector[i] = disk[base + i];
        i += 1;
    }
    assert(sector@ =~= sector_at(disk@, lba as int));
    sector
}

/// Loads the stage that starts at sector `start_lba` of the disk image
/// `disk`, as the boot chain would load it to `segment:offset`.
///
/// Reads sector after sector, each 512 bytes further into the segment, and
/// stops at the first that ends with the sentinel. Each sector is the one
/// that [`ProgramLoader::request`] names. Returns the block address after the
/// last sector, the number of sectors read, their bytes and the reads that
/// were asked for.
///
/// Fails with [`LoadError::SentinelMissing`] when the disk ends first, and
/// with [`LoadError::WindowExhausted`] when the segment does: when none of
/// the sectors that have an offset below 64 KiB ends with the sentinel.
pub fn load_program(disk: &[u8], start_lba: u64, segment: u16, offset: u16, drive: u16) -> (r:
    Result<LoadedProgram, LoadError>)
    requires
        start_lba < LBA_LIMIT,
    ensures
        match r {
            Ok(program) => {
                &&& stage_ends_at(disk@, start_lba as int, offset, program.end_lba as int)
                &&& program.sectors_read == program.end_lba - start_lba
                &&& program.image@ == disk@.subrange(512 * start_lba, 512 * program.end_lba)
                &&& program.requests@.len() == program.sectors_read
                &&& forall|k: int|
                    0 <= k < program.sectors_read ==> #[trigger] program.requests@[k]
                        == request_at(start_lba, segment, offset, drive, k)
            },
            Err(LoadError::SentinelMissing) => disk_ends_first(disk@, start_lba as int, offset),
            Err(LoadError::WindowExhausted) => window_ends_first(disk@, start_lba as int, offset),
        },
{
    let mut loader = ProgramLoader::new(start_lba, segment, offset, drive);
    let mut image: Vec<u8> = Vec::new();
    let mut requests: Vec<ReadRequest> = Vec::new();
    loop
        invariant
            start_lba < LBA_LIMIT,
            requests@.len() == loader.spec_sectors_read(),
            forall|k: int|
                0 <= k < requests@.len() ==> #[trigger] requests@[k] == request_at(
                    start_lba,
                    segment,
                    offset,
                    drive,
                    k,
                ),
            loader.spec_sectors_read() < window_sectors(offset),
            loader.is_after(start_lba, segment, offset, drive, loader.spec_sectors_read() as int),
            loader.spec_lba() <= sector_count(disk@) || loader.spec_sectors_read() == 0,
            no_sentinel(disk@, start_lba as int, loader.spec_lba() as int),
            image@ == disk@.subrange(512 * start_lba, 512 * loader.spec_lba()) || (
            loader.spec_sectors_read() == 0 && image@.len() == 0),
        decreases u16::MAX - loader.spec_offset(),
    {
        let request = loader.request();
        let lba = request.packet.lba;
        let needed: u128 = 512 * (lba as u128 + 1);
        if needed > disk.len() as u128 {
            return Err(LoadError::SentinelMissing);
        }
        let sector = copy_sector(disk, lba);
        assert(request == request_at(
            start_lba,
            segment,
            offset,
            drive,
            loader.spec_sectors_read() as int,
        ));
        requests.push(request);
        let ghost before = image@;
        let mut i: usize = 0;
        while i < 512
            invariant
                i <= 512,
                image@ == before + sector@.subrange(0, i as int),
            decreases 512 - i,
        {
            image.push(sector[i]);
            i += 1;
            assert(sector@.subrange(0, i as int) == sector@.subrange(0, i - 1).push(
                sector@[i - 1],
            ));
        }
        assert(sector@.subrange(0, 512) == sector@);
        assert(image@ =~= disk@.subrange(512 * start_lba, 512 * (lba + 1)));
        match loader.sector_read(&sector) {
            Ok(LoadProgress::Done { end_lba }) => {
                return Ok(
                    LoadedProgram {
                        end_lba,
                        sectors_read: (end_lba - start_lba),
                        image,
                        requests,
                    },
                );
            },
            Ok(LoadProgress::Continue(next)) => {
                loader = next;
            },
            Err(e) => {
                return Err(e);
            },
        }
    }
}

} // verus!
