//! Talking to the disks of an IDE controller through its registers.
//!
//! A channel of an IDE controller has two base I/O ports. Its registers are
//! offsets from the first, or from the second for the three alternate
//! registers. Reading and writing a port is the caller's work; this module
//! says which port, which value and in which order, and what the values that
//! come back mean.

use vstd::prelude::*;
use crate::pci::classification::{Class, MassStorageControllerSubclass};
use crate::pci::{class_in, PciDevice};

verus! {

/// The first base port of a first channel in compatibility mode.
pub const PRIMARY_CHANNEL_PORT: u16 = 0x01F0;

/// The second base port of a first channel in compatibility mode.
pub const PRIMARY_CHANNEL_CONTROL_PORT: u16 = 0x03F6;

/// The first base port of a second channel in compatibility mode.
pub const SECONDARY_CHANNEL_PORT: u16 = 0x0170;

/// The second base port of a second channel in compatibility mode.
pub const SECONDARY_CHANNEL_CONTROL_PORT: u16 = 0x0376;

/// The bit of the drive-select register that picks the second disk.
pub const DRIVE_SELECT_SECONDARY: u8 = 0x08;

/// The bit of the control register that [`IdeChannel::set_interrupts`] sets
/// and clears.
pub const CONTROL_INTERRUPTS: u8 = 0x02;

/// How often the status register is read, and the result dropped, after a
/// write: the drive needs that long to settle.
pub const SETTLE_READS: u8 = 15;

/// A register of an ATA device.
#[derive(Clone, Copy, Debug, PartialEq, Eq)]
pub enum AtaRegister {
    /// The data that the device returns, sixteen bits at a time.
    Data,
    /// The flags of [`AtaError`]; read only.
    Error,
    /// Features of a command; write only.
    Features,
    /// How many sectors to transfer.
    SectorCount,
    /// Bits 0..8 of the block address.
    Lba0,
    /// Bits 8..16 of the block address.
    Lba1,
    /// Bits 16..24 of the block address.
    Lba2,
    /// Which of the channel's two disks is meant.
    DriveSelect,
    /// The command to run; write only.
    Command,
    /// The flags of [`AtaStatus`]; read only.
    Status,
    /// Control of interrupt requests; alternate.
    AltControl,
    /// A second view of the status; alternate.
    AltStatus,
    /// Drive and head select information; alternate.
    DeviceAddress,
}

impl AtaRegister {
    /// The register is an offset from the channel's second base port.
    pub open spec fn spec_is_alt(&self) -> bool {
        *self == AtaRegister::AltControl || *self == AtaRegister::AltStatus || *self
            == AtaRegister::DeviceAddress
    }

    /// Tells whether the register is an offset from the channel's second
    /// base port rather than from its first.
    #[verifier::when_used_as_spec(spec_is_alt)]
    pub fn is_alt(&self) -> (r: bool)
        ensures
            r == self.spec_is_alt(),
    {
        match self {
            AtaRegister::AltControl | AtaRegister::AltStatus | AtaRegister::DeviceAddress => true,
            _ => false,
        }
    }

    /// The offset of the register from its base port. Registers that are
    /// only read and registers that are only written share offsets.
    pub open spec fn spec_offset(self) -> u16 {
        match self {
            AtaRegister::Data => 0x00,
            AtaRegister::Error => 0x01,
            AtaRegister::Features => 0x01,
            AtaRegister::SectorCount => 0x02,
            AtaRegister::Lba0 => 0x03,
            AtaRegister::Lba1 => 0x04,
            AtaRegister::Lba2 => 0x05,
            AtaRegister::DriveSelect => 0x06,
            AtaRegister::Command => 0x07,
            AtaRegister::Status => 0x07,
            AtaRegister::AltControl => 0x02,
            AtaRegister::AltStatus => 0x02,
            AtaRegister::DeviceAddress => 0x03,
        }
    }

    /// The offset of the register from its base port.
    #[verifier::when_used_as_spec(spec_offset)]
    pub fn offset(self) -> (r: u16)
        ensures
            r == self.spec_offset(),
            r <= 7,
            self.spec_is_alt() ==> r <= 3,
    {
        match self {
            AtaRegister::Data => 0x00,
            AtaRegister::Error | AtaRegister::Features => 0x01,
            AtaRegister::SectorCount => 0x02,
            AtaRegister::Lba0 => 0x03,
            AtaRegister::Lba1 => 0x04,
            AtaRegister::Lba2 => 0x05,
            AtaRegister::DriveSelect => 0x06,
            AtaRegister::Command | AtaRegister::Status => 0x07,
            AtaRegister::AltControl | AtaRegister::AltStatus => 0x02,
            AtaRegister::DeviceAddress => 0x03,
        }
    }
}

/// A flag of the status register.
#[derive(Clone, Copy, Debug, PartialEq, Eq)]
pub enum AtaStatus {
    /// An error occurred; the error register says which.
    Error,
    /// The drive is ready to transfer data.
    DataRequest,
    /// A fault that only a power cycle clears.
    DeviceFault,
    /// The drive is spun up and has seen no error.
    DeviceReady,
    /// The drive is working on a command.
    Busy,
}

impl AtaStatus {
    /// The bit of the status register that is this flag.
    pub open spec fn spec_mask(self) -> u8 {
        match self {
            AtaStatus::Error => 0x01,
            AtaStatus::DataRequest => 0x10,
            AtaStatus::DeviceFault => 0x20,
            AtaStatus::DeviceReady => 0x40,
            AtaStatus::Busy => 0x80,
        }
    }

    /// The bit of the status register that is this flag.
    #[verifier::when_used_as_spec(spec_mask)]
    pub fn mask(self) -> (r: u8)
        ensures
            r == self.spec_mask(),
    {
        match self {
            AtaStatus::Error => 0x01,
            AtaStatus::DataRequest => 0x10,
            AtaStatus::DeviceFault => 0x20,
            AtaStatus::DeviceReady => 0x40,
            AtaStatus::Busy => 0x80,
        }
    }
}

/// An error that the error register reports.
#[derive(Clone, Copy, Debug, PartialEq, Eq)]
pub enum AtaError {
    NoAddressMark,
    Track0NotFound,
    CommandAborted,
    MediaChangeRequest,
    IdMarkNotFound,
    MediaChanged,
    UncorrectableData,
    BadBlock,
    /// The status register reported an error and the error register none.
    Unknown,
}

impl AtaError {
    /// The bit of the error register that reports this error, bit 0 for the
    /// first variant up to bit 7 for the eighth; `Unknown` has the two bits
    /// of the first and the eighth.
    pub open spec fn spec_mask(self) -> u8 {
        match self {
            AtaError::NoAddressMark => 0x01,
            AtaError::Track0NotFound => 0x02,
            AtaError::CommandAborted => 0x04,
            AtaError::MediaChangeRequest => 0x08,
            AtaError::IdMarkNotFound => 0x10,
            AtaError::MediaChanged => 0x20,
            AtaError::UncorrectableData => 0x40,
            AtaError::BadBlock => 0x80,
            AtaError::Unknown => 0x81,
        }
    }

    /// The bit of the error register that reports this error.
    #[verifier::when_used_as_spec(spec_mask)]
    pub fn mask(self) -> (r: u8)
        ensures
            r == self.spec_mask(),
    {
        match self {
            AtaError::NoAddressMark => 0x01,
            AtaError::Track0NotFound => 0x02,
            AtaError::CommandAborted => 0x04,
            AtaError::MediaChangeRequest => 0x08,
            AtaError::IdMarkNotFound => 0x10,
            AtaError::MediaChanged => 0x20,
            AtaError::UncorrectableData => 0x40,
            AtaError::BadBlock => 0x80,
            AtaError::Unknown => 0x81,
        }
    }

    /// All the errors, in the order in which the error register is searched
    /// for them.
    pub open spec fn spec_variants() -> Seq<AtaError> {
        seq![
            AtaError::NoAddressMark,
            AtaError::Track0NotFound,
            AtaError::CommandAborted,
            AtaError::MediaChangeRequest,
            AtaError::IdMarkNotFound,
            AtaError::MediaChanged,
            AtaError::UncorrectableData,
            AtaError::BadBlock,
            AtaError::Unknown,
        ]
    }

    /// All the errors, in the order in which the error register is searched
    /// for them.
    pub fn variants() -> (r: [AtaError; 9])
        ensures
            r@ == Self::spec_variants(),
    {
        let r: [AtaError; 9] = [
            AtaError::NoAddressMark,
            AtaError::Track0NotFound,
            AtaError::CommandAborted,
            AtaError::MediaChangeRequest,
            AtaError::IdMarkNotFound,
            AtaError::MediaChanged,
            AtaError::UncorrectableData,
            AtaError::BadBlock,
            AtaError::Unknown,
        ];
        assert(r@ =~= Self::spec_variants());
        r
    }

    /// The error that is reported for what the error register holds: the
    /// first, in the order of [`Self::spec_variants`], whose bit is set, and
    /// `Unknown` when no bit is set.
    pub open spec fn spec_from_register(register: u8) -> AtaError {
        if register == 0 {
            AtaError::Unknown
        } else {
            Self::spec_variants()[Self::first_reported(register, 0)]
        }
    }

    /// The index of the first error, from `from` on, whose bit is set in
    /// `register`; 8, the index of `Unknown`, if there is none before it.
    pub open spec fn first_reported(register: u8, from: int) -> int
        decreases 8 - from,
    {
        if from >= 8 || from < 0 {
            8
        } else if register & Self::spec_variants()[from].spec_mask() != 0 {
            from
        } else {
            Self::first_reported(register, from + 1)
        }
    }

    /// Names the error that the error register reports.
    #[verifier::when_used_as_spec(spec_from_register)]
    pub fn from_register(register: u8) -> (r: AtaError)
        ensures
            r == Self::spec_from_register(register),
            register == 0 <==> r == AtaError::Unknown,
            register & r.spec_mask() != 0 || register == 0,
    {
        let variants = Self::variants();
        let mut i: usize = 0;
        while i < 9
            invariant
                i <= 9,
                variants@ == Self::spec_variants(),
                Self::first_reported(register, 0) == Self::first_reported(register, i as int),
                forall|j: int| 0 <= j < i ==> register & variants@[j].spec_mask() == 0,
            decreases 9 - i,
        {
            let candidate = variants[i];
            if register & candidate.mask() != 0 {
                proof {
                    lemma_unknown_is_last(register);
                    assert(i < 8);
                }
                return candidate;
            }
            i += 1;
        }
        proof {
            lemma_no_bit_is_zero(register);
        }
        AtaError::Unknown
    }
}

proof fn lemma_unknown_is_last(register: u8)
    by (bit_vector)
    ensures
        register & 0x81 != 0 ==> register & 0x01 != 0 || register & 0x80 != 0,
        register == 0 ==> register & 0x01 == 0 && register & 0x02 == 0 && register & 0x04 == 0
            && register & 0x08 == 0 && register & 0x10 == 0 && register & 0x20 == 0 && register
            & 0x40 == 0 && register & 0x80 == 0 && register & 0x81 == 0,
{
}

proof fn lemma_no_bit_is_zero(register: u8)
    by (bit_vector)
    ensures
        register & 0x01 == 0 && register & 0x02 == 0 && register & 0x04 == 0 && register & 0x08
            == 0 && register & 0x10 == 0 && register & 0x20 == 0 && register & 0x40 == 0
            && register & 0x80 == 0 ==> register == 0,
{
}

/// A command for an ATA device.
#[derive(Clone, Copy, Debug, PartialEq, Eq)]
pub enum AtaCommand {
    ReadPio,
    ReadPioExtended,
    ReadDma,
    ReadDmaExtended,
    WritePio,
    WritePioExtended,
    WriteDma,
    WriteDmaExtended,
    CacheFlush,
    CacheFlushExtended,
    Packet,
    IdentifyPacket,
    Identify,
}

impl AtaCommand {
    /// The byte that is written to the command register.
    pub open spec fn spec_code(self) -> u8 {
        match self {
            AtaCommand::ReadPio => 0x20,
            AtaCommand::ReadPioExtended => 0x24,
            AtaCommand::ReadDma => 0xC8,
            AtaCommand::ReadDmaExtended => 0x25,
            AtaCommand::WritePio => 0x30,
            AtaCommand::WritePioExtended => 0x34,
            AtaCommand::WriteDma => 0xCA,
            AtaCommand::WriteDmaExtended => 0x35,
            AtaCommand::CacheFlush => 0xE7,
            AtaCommand::CacheFlushExtended => 0xEA,
            AtaCommand::Packet => 0xA0,
            AtaCommand::IdentifyPacket => 0xA1,
            AtaCommand::Identify => 0xEC,
        }
    }

    /// The byte that is written to the command register.
    #[verifier::when_used_as_spec(spec_code)]
    pub fn code(self) -> (r: u8)
        ensures
            r == self.spec_code(),
    {
        match self {
            AtaCommand::ReadPio => 0x20,
            AtaCommand::ReadPioExtended => 0x24,
            AtaCommand::ReadDma => 0xC8,
            AtaCommand::ReadDmaExtended => 0x25,
            AtaCommand::WritePio => 0x30,
            AtaCommand::WritePioExtended => 0x34,
            AtaCommand::WriteDma => 0xCA,
            AtaCommand::WriteDmaExtended => 0x35,
            AtaCommand::CacheFlush => 0xE7,
            AtaCommand::CacheFlushExtended => 0xEA,
            AtaCommand::Packet => 0xA0,
            AtaCommand::IdentifyPacket => 0xA1,
            AtaCommand::Identify => 0xEC,
        }
    }
}

/// One of the two disks of a channel.
#[derive(Clone, Copy, Debug, PartialEq, Eq)]
pub enum IdeDisk {
    Primary,
    Secondary,
}

impl IdeDisk {
    /// The disk that a value of the drive-select register picks: the second
    /// if [`DRIVE_SELECT_SECONDARY`] is set, else the first.
    pub open spec fn spec_selected_by(drive_select: u8) -> IdeDisk {
        if drive_select & DRIVE_SELECT_SECONDARY == 0 {
            IdeDisk::Primary
        } else {
            IdeDisk::Secondary
        }
    }

    /// Names the disk that a value of the drive-select register picks.
    #[verifier::when_used_as_spec(spec_selected_by)]
    pub fn selected_by(drive_select: u8) -> (r: IdeDisk)
        ensures
            r == Self::spec_selected_by(drive_select),
    {
        if drive_select & DRIVE_SELECT_SECONDARY == 0 {
            IdeDisk::Primary
        } else {
            IdeDisk::Secondary
        }
    }

    /// `drive_select` changed so that it picks this disk.
    pub open spec fn spec_select_in(self, drive_select: u8) -> u8 {
        match self {
            IdeDisk::Primary => drive_select & !DRIVE_SELECT_SECONDARY,
            IdeDisk::Secondary => drive_select | DRIVE_SELECT_SECONDARY,
        }
    }
}

/// One access to an I/O port.
#[derive(Clone, Copy, Debug, PartialEq, Eq)]
pub enum PortOperation {
    /// Read the port.
    Read { port: u16 },
    /// Write `value` to the port.
    Write { port: u16, value: u8 },
}

/// Where the polling that follows a write stands.
#[derive(Clone, Copy, Debug, PartialEq, Eq)]
pub enum WritePhase {
    /// The status is still to be read `remaining` times without looking at
    /// it; `remaining` is at least 1.
    Settling { remaining: u8 },
    /// The status is read until it reports an error or is no longer busy.
    Polling,
    /// The status reported an error; the error register is read next.
    ReadingError,
}

/// A write to a register that is under way: the value has been written and
/// the drive is being polled.
#[derive(Clone, Copy, Debug, PartialEq, Eq)]
pub struct RegisterWrite {
    /// The port of the status register.
    pub status_port: u16,
    /// The port of the error register.
    pub error_port: u16,
    /// Where the polling stands.
    pub phase: WritePhase,
}

/// What follows a read during a write.
#[derive(Clone, Copy, Debug, PartialEq, Eq)]
pub enum WriteProgress {
    /// Read again, as the state says.
    Continue(RegisterWrite),
    /// The write is over: it succeeded, or the drive reported this error.
    Done(Result<(), AtaError>),
}

impl RegisterWrite {
    /// The port to read next: the error register once the status has
    /// reported an error, the status register before.
    pub open spec fn spec_operation(&self) -> PortOperation {
        match self.phase {
            WritePhase::ReadingError => PortOperation::Read { port: self.error_port },
            _ => PortOperation::Read { port: self.status_port },
        }
    }

    /// The read to perform next.
    #[verifier::when_used_as_spec(spec_operation)]
    pub fn operation(&self) -> (r: PortOperation)
        ensures
            r == self.spec_operation(),
    {
        match self.phase {
            WritePhase::ReadingError => PortOperation::Read { port: self.error_port },
            _ => PortOperation::Read { port: self.status_port },
        }
    }

    /// What follows when the read of [`Self::spec_operation`] returned
    /// `value`.
    ///
    /// While settling, the value is dropped, and polling starts after the
    /// last of the settling reads. While polling, a status with the error
    /// flag leads to a read of the error register; a status without it ends
    /// the write with success once the busy flag is clear, and is read again
    /// while the flag is set. The value of the error register ends the write
    /// with the error that it reports.
    pub open spec fn spec_resume(self, value: u8) -> WriteProgress {
        match self.phase {
            WritePhase::Settling { remaining } => if remaining > 1 {
                WriteProgress::Continue(
                    RegisterWrite {
                        phase: WritePhase::Settling { remaining: (remaining - 1) as u8 },
                        ..self
                    },
                )
            } else {
                WriteProgress::Continue(RegisterWrite { phase: WritePhase::Polling, ..self })
            },
            WritePhase::Polling => if value & AtaStatus::Error.spec_mask() != 0 {
                WriteProgress::Continue(RegisterWrite { phase: WritePhase::ReadingError, ..self })
            } else if value & AtaStatus::Busy.spec_mask() == 0 {
                WriteProgress::Done(Ok(()))
            } else {
                WriteProgress::Continue(self)
            },
            WritePhase::ReadingError => WriteProgress::Done(
                Err(AtaError::spec_from_register(value)),
            ),
        }
    }

    /// Decides what follows the read that [`Self::operation`] asked for,
    /// which returned `value`.
    #[verifier::when_used_as_spec(spec_resume)]
    pub fn resume(self, value: u8) -> (r: WriteProgress)
        ensures
            r == self.spec_resume(value),
    {
        match self.phase {
            WritePhase::Settling { remaining } => {
                if remaining > 1 {
                    WriteProgress::Continue(
                        RegisterWrite {
                            status_port: self.status_port,
                            error_port: self.error_port,
                            phase: WritePhase::Settling { remaining: remaining - 1 },
                        },
                    )
                } else {
                    WriteProgress::Continue(
                        RegisterWrite {
                            status_port: self.status_port,
                            error_port: self.error_port,
                            phase: WritePhase::Polling,
                        },
                    )
                }
            },
            WritePhase::Polling => {
                if value & AtaStatus::Error.mask() != 0 {
                    WriteProgress::Continue(
                        RegisterWrite {
                            status_port: self.status_port,
                            error_port: self.error_port,
                            phase: WritePhase::ReadingError,
                        },
                    )
                } else if value & AtaStatus::Busy.mask() == 0 {
                    WriteProgress::Done(Ok(()))
                } else {
                    WriteProgress::Continue(self)
                }
            },
            WritePhase::ReadingError => WriteProgress::Done(Err(AtaError::from_register(value))),
        }
    }
}

/// One of the two channels of an IDE controller.
#[derive(Clone, Copy, Debug, PartialEq, Eq)]
pub struct IdeChannel {
    primary_io_port: u16,
    secondary_io_port: u16,
    active_disk: IdeDisk,
}

impl IdeChannel {
    #[verifier::type_invariant]
    spec fn inv(self) -> bool {
        &&& self.primary_io_port <= u16::MAX - 7
        &&& self.secondary_io_port <= u16::MAX - 3
    }

    /// The first base port.
    pub closed spec fn spec_primary_io_port(&self) -> u16 {
        self.primary_io_port
    }

    /// The second base port.
    pub closed spec fn spec_secondary_io_port(&self) -> u16 {
        self.secondary_io_port
    }

    /// The disk that is selected.
    pub closed spec fn spec_active_disk(&self) -> IdeDisk {
        self.active_disk
    }

    /// The port of a register: its offset from the second base port if it is
    /// an alternate register, from the first if not.
    pub open spec fn spec_port_of(&self, register: AtaRegister) -> int {
        if register.spec_is_alt() {
            self.spec_secondary_io_port() + register.spec_offset()
        } else {
            self.spec_primary_io_port() + register.spec_offset()
        }
    }

    /// The channel with the given base ports, given what its drive-select
    /// register reads as: the disk that the value picks is the active one.
    ///
    /// The registers must lie inside the port space: seven ports follow the
    /// first base port and three the second.
    pub fn new(primary_io_port: u16, secondary_io_port: u16, drive_select: u8) -> (r: Self)
        requires
            primary_io_port <= u16::MAX - 7,
            secondary_io_port <= u16::MAX - 3,
        ensures
            r.spec_primary_io_port() == primary_io_port,
            r.spec_secondary_io_port() == secondary_io_port,
            r.spec_active_disk() == IdeDisk::spec_selected_by(drive_select),
    {
        IdeChannel {
            primary_io_port,
            secondary_io_port,
            active_disk: IdeDisk::selected_by(drive_select),
        }
    }

    /// The port of a register.
    pub fn port_of(&self, register: AtaRegister) -> (r: u16)
        ensures
            r == self.spec_port_of(register),
    {
        proof {
            use_type_invariant(self);
        }
        let offset = register.offset();
        if register.is_alt() {
            self.secondary_io_port + offset
        } else {
            self.primary_io_port + offset
        }
    }

    /// The read that reads `register`.
    pub fn read_register(&self, register: AtaRegister) -> (r: PortOperation)
        ensures
            r == (PortOperation::Read { port: self.spec_port_of(register) as u16 }),
            self.spec_port_of(register) <= u16::MAX,
    {
        PortOperation::Read { port: self.port_of(register) }
    }

    /// Starts the write of `data` to `register`: the write to perform now,
    /// and the state of the polling that follows it, which begins with
    /// [`SETTLE_READS`] reads of the status register whose results are
    /// dropped.
    pub fn write_register(&self, register: AtaRegister, data: u8) -> (r: (
        PortOperation,
        RegisterWrite,
    ))
        ensures
            r.0 == (PortOperation::Write { port: self.spec_port_of(register) as u16, value: data }),
            r.1 == (RegisterWrite {
                status_port: self.spec_port_of(AtaRegister::Status) as u16,
                error_port: self.spec_port_of(AtaRegister::Error) as u16,
                phase: WritePhase::Settling { remaining: SETTLE_READS },
            }),
    {
        (
            PortOperation::Write { port: self.port_of(register), value: data },
            RegisterWrite {
                status_port: self.port_of(AtaRegister::Status),
                error_port: self.port_of(AtaRegister::Error),
                phase: WritePhase::Settling { remaining: SETTLE_READS },
            },
        )
    }

    /// The register writes that send `cmd` to the active disk, in order: the
    /// low three bytes of `lba`, the sector count, then the command. Each is
    /// carried out as [`Self::write_register`] says, and the first that
    /// fails ends the command.
    pub open spec fn spec_send_command(cmd: AtaCommand, lba: u64, sectors: u8) -> Seq<
        (AtaRegister, u8),
    > {
        seq![
            (AtaRegister::Lba0, (lba & 0xFF) as u8),
            (AtaRegister::Lba1, ((lba >> 8) & 0xFF) as u8),
            (AtaRegister::Lba2, ((lba >> 16) & 0xFF) as u8),
            (AtaRegister::SectorCount, sectors),
            (AtaRegister::Command, cmd.spec_code()),
        ]
    }

    /// Lists the register writes that send `cmd` to the active disk. The
    /// block address is not checked against the width that the command
    /// takes.
    pub fn send_command(&self, cmd: AtaCommand, lba: u64, sectors: u8) -> (r: [(AtaRegister, u8);
        5])
        ensures
            r@ == Self::spec_send_command(cmd, lba, sectors),
    {
        let r: [(AtaRegister, u8); 5] = [
            (AtaRegister::Lba0, (lba & 0xFF) as u8),
            (AtaRegister::Lba1, ((lba >> 8) & 0xFF) as u8),
            (AtaRegister::Lba2, ((lba >> 16) & 0xFF) as u8),
            (AtaRegister::SectorCount, sectors),
            (AtaRegister::Command, cmd.code()),
        ];
        assert(r@ =~= Self::spec_send_command(cmd, lba, sectors));
        r
    }

    /// The value to write to the alternate control register, given what it
    /// reads as: `control` with [`CONTROL_INTERRUPTS`] set if `enabled`, and
    /// cleared if not.
    pub fn set_interrupts(&self, enabled: bool, control: u8) -> (r: u8)
        ensures
            enabled ==> r == control | CONTROL_INTERRUPTS,
            !enabled ==> r == control & !CONTROL_INTERRUPTS,
    {
        if enabled {
            control | CONTROL_INTERRUPTS
        } else {
            control & !CONTROL_INTERRUPTS
        }
    }

    /// Makes `disk` the active disk. If it is not yet, returns the value to
    /// write to the drive-select register, given what that register reads
    /// as; if it is, nothing is to be written and nothing changes.
    pub fn set_disk(&mut self, disk: IdeDisk, drive_select: u8) -> (r: Option<u8>)
        ensures
            final(self).spec_primary_io_port() == old(self).spec_primary_io_port(),
            final(self).spec_secondary_io_port() == old(self).spec_secondary_io_port(),
            final(self).spec_active_disk() == disk,
            r == (if disk == old(self).spec_active_disk() {
                None
            } else {
                Some(disk.spec_select_in(drive_select))
            }),
    {
        proof {
            use_type_invariant(&*self);
        }
        let same: bool = match (disk, self.active_disk) {
            (IdeDisk::Primary, IdeDisk::Primary) => true,
            (IdeDisk::Secondary, IdeDisk::Secondary) => true,
            _ => false,
        };
        if same {
            None
        } else {
            let value: u8 = match disk {
                IdeDisk::Primary => drive_select & !DRIVE_SELECT_SECONDARY,
                IdeDisk::Secondary => drive_select | DRIVE_SELECT_SECONDARY,
            };
            self.active_disk = disk;
            Some(value)
        }
    }

    /// The disk that is selected.
    #[verifier::when_used_as_spec(spec_active_disk)]
    pub fn active_disk(&self) -> (r: IdeDisk)
        ensures
            r == self.spec_active_disk(),
    {
        self.active_disk
    }
}

/// The number of register writes that send a command.
pub const COMMAND_WRITES: usize = 5;

/// What follows the `done`-th write, counted from 0, of the writes that
/// [`IdeChannel::spec_send_command`] lists, which ended with `outcome`: a
/// write that failed ends the command with its error, the last write ends it
/// with success, and after any other write the next is made.
pub open spec fn spec_after_write(done: usize, outcome: Result<(), AtaError>) -> Option<
    Result<(), AtaError>,
> {
    if outcome is Err {
        Some(outcome)
    } else if done + 1 >= COMMAND_WRITES {
        Some(Ok(()))
    } else {
        None
    }
}

/// Decides what follows one write of a command: `Some` with the result of
/// the command if the command is over, `None` if the next write is to be
/// made.
#[verifier::when_used_as_spec(spec_after_write)]
pub fn after_write(done: usize, outcome: Result<(), AtaError>) -> (r: Option<Result<(), AtaError>>)
    ensures
        r == spec_after_write(done, outcome),
        outcome is Err ==> r == Some(outcome),
        outcome is Ok && done == 4 ==> r == Some(Ok::<(), AtaError>(())),
        outcome is Ok && done < 4 ==> r is None,
{
    match outcome {
        Err(error) => Some(Err(error)),
        Ok(()) => {
            if done >= COMMAND_WRITES - 1 {
                Some(Ok(()))
            } else {
                None
            }
        },
    }
}

/// Selecting a disk makes the drive-select register pick it, and changes no
/// other bit.
pub proof fn selecting_picks_the_disk(disk: IdeDisk, drive_select: u8)
    ensures
        IdeDisk::spec_selected_by(disk.spec_select_in(drive_select)) == disk,
        disk.spec_select_in(drive_select) & !DRIVE_SELECT_SECONDARY == drive_select
            & !DRIVE_SELECT_SECONDARY,
{
    assert((drive_select & !0x08u8) & 0x08 == 0 && (drive_select | 0x08u8) & 0x08 != 0 && (
    drive_select & !0x08u8) & !0x08u8 == drive_select & !0x08u8 && (drive_select | 0x08u8)
        & !0x08u8 == drive_select & !0x08u8) by (bit_vector);
}

/// Why a PCI device cannot be driven as an IDE controller.
#[derive(Clone, Copy, Debug, PartialEq, Eq)]
pub enum IdeError {
    /// A channel is in native mode, where its ports are not the fixed ones.
    NativeMode,
}

/// An IDE controller: two channels of up to two disks each.
#[derive(Clone, Copy, Debug, PartialEq, Eq)]
pub struct IdeController {
    /// The first channel.
    pub primary_channel: IdeChannel,
    /// The second channel.
    pub secondary_channel: IdeChannel,
}

impl IdeController {
    /// What [`Self::from_pci`] makes of the bytes of register 2 of a device,
    /// if the register could be read.
    ///
    /// The device is an IDE controller if its class is mass storage and its
    /// subclass IDE. Bit 0 of the programming-interface byte then tells
    /// whether the first channel is in native mode, and bit 2 whether the
    /// second is; only compatibility mode, with the fixed ports, is driven.
    pub open spec fn describes(
        register: Option<[u8; 4]>,
        primary_drive_select: u8,
        secondary_drive_select: u8,
        r: Result<Option<IdeController>, IdeError>,
    ) -> bool {
        if !(register matches Some(bytes) && class_in(bytes) == Some(
            Class::MassStorageController(MassStorageControllerSubclass::Ide),
        )) {
            r == Ok::<Option<IdeController>, IdeError>(None)
        } else if register->Some_0[1] & 0x05 != 0 {
            r == Err::<Option<IdeController>, IdeError>(IdeError::NativeMode)
        } else {
            &&& r matches Ok(Some(controller))
            &&& controller.primary_channel.spec_primary_io_port() == PRIMARY_CHANNEL_PORT
            &&& controller.primary_channel.spec_secondary_io_port() == PRIMARY_CHANNEL_CONTROL_PORT
            &&& controller.primary_channel.spec_active_disk() == IdeDisk::spec_selected_by(
                primary_drive_select,
            )
            &&& controller.secondary_channel.spec_primary_io_port() == SECONDARY_CHANNEL_PORT
            &&& controller.secondary_channel.spec_secondary_io_port()
                == SECONDARY_CHANNEL_CONTROL_PORT
            &&& controller.secondary_channel.spec_active_disk() == IdeDisk::spec_selected_by(
                secondary_drive_select,
            )
        }
    }

    /// Takes `device` for an IDE controller, if it is one.
    ///
    /// `raw` is what register 2 of the device reads as, used as
    /// [`PciDevice::read_register`] uses it. The two other values are what
    /// the drive-select registers of the two channels read as, at the fixed
    /// ports of compatibility mode.
    pub fn from_pci(
        device: &mut PciDevice,
        raw: u32,
        primary_drive_select: u8,
        secondary_drive_select: u8,
    ) -> (r: Result<Option<IdeController>, IdeError>)
        ensures
            Self::describes(
                old(device).spec_read(2, raw),
                primary_drive_select,
                secondary_drive_select,
                r,
            ),
            final(device).after_read(old(device), 2, raw),
    {
        let is_ide: bool = match device.class(raw) {
            Some(Class::MassStorageController(MassStorageControllerSubclass::Ide)) => true,
            _ => false,
        };
        if !is_ide {
            return Ok(None);
        }
        let ghost after_class = *device;
        let interface: u8 = match device.programming_interface(raw) {
            Some(byte) => byte,
            None => {
                return Ok(None);
            },
        };
        assert(interface & 0x05 != 0 <==> (interface & 0x01 != 0 || interface & 0x04 != 0))
            by (bit_vector);
        if interface & 0x01 != 0 || interface & 0x04 != 0 {
            return Err(IdeError::NativeMode);
        }
        Ok(
            Some(
                IdeController {
                    primary_channel: IdeChannel::new(
                        PRIMARY_CHANNEL_PORT,
                        PRIMARY_CHANNEL_CONTROL_PORT,
                        primary_drive_select,
                    ),
                    secondary_channel: IdeChannel::new(
                        SECONDARY_CHANNEL_PORT,
                        SECONDARY_CHANNEL_CONTROL_PORT,
                        secondary_drive_select,
                    ),
                },
            ),
        )
    }
}

} // verus!
