use bootchain::ata::{
    after_write, AtaCommand, AtaError, AtaRegister, AtaStatus, IdeChannel, IdeController, IdeDisk,
    IdeError, PortOperation, RegisterWrite, WritePhase, WriteProgress, COMMAND_WRITES,
    SETTLE_READS,
};
use bootchain::pci::PciDevice;

/// Carries a write out against a device whose status register reads as the
/// values of `statuses`, in order and then the last of them for ever, and
/// whose error register reads as `error`.
fn carry_out(mut state: RegisterWrite, statuses: &[u8], error: u8) -> (Result<(), AtaError>, usize) {
    let mut status_reads = 0;
    loop {
        let value = match state.operation() {
            PortOperation::Read { port } if port == state.status_port => {
                let value = statuses[status_reads.min(statuses.len() - 1)];
                status_reads += 1;
                value
            }
            PortOperation::Read { port } => {
                assert_eq!(port, state.error_port);
                error
            }
            PortOperation::Write { .. } => panic!("a write during polling"),
        };
        match state.resume(value) {
            WriteProgress::Continue(next) => state = next,
            WriteProgress::Done(result) => return (result, status_reads),
        }
    }
}

#[test]
fn registers_have_their_ports() {
    let channel = IdeChannel::new(0x1F0, 0x3F6, 0);
    let expected = [
        (AtaRegister::Data, 0x1F0),
        (AtaRegister::Error, 0x1F1),
        (AtaRegister::Features, 0x1F1),
        (AtaRegister::SectorCount, 0x1F2),
        (AtaRegister::Lba0, 0x1F3),
        (AtaRegister::Lba1, 0x1F4),
        (AtaRegister::Lba2, 0x1F5),
        (AtaRegister::DriveSelect, 0x1F6),
        (AtaRegister::Command, 0x1F7),
        (AtaRegister::Status, 0x1F7),
        (AtaRegister::AltControl, 0x3F8),
        (AtaRegister::AltStatus, 0x3F8),
        (AtaRegister::DeviceAddress, 0x3F9),
    ];
    for (register, port) in expected {
        assert_eq!(channel.port_of(register), port);
        assert_eq!(channel.read_register(register), PortOperation::Read { port });
        assert_eq!(register.is_alt(), port >= 0x3F6);
    }
    assert_eq!(AtaRegister::Lba2.offset(), 5);
    assert_eq!(AtaRegister::DeviceAddress.offset(), 3);
}

#[test]
fn write_settles_then_polls_until_not_busy() {
    let channel = IdeChannel::new(0x170, 0x376, 0);
    let (write, state) = channel.write_register(AtaRegister::SectorCount, 4);
    assert_eq!(write, PortOperation::Write { port: 0x172, value: 4 });
    assert_eq!(
        state,
        RegisterWrite {
            status_port: 0x177,
            error_port: 0x171,
            phase: WritePhase::Settling { remaining: 15 },
        }
    );
    assert_eq!(SETTLE_READS, 15);
    assert_eq!(carry_out(state, &[0x40], 0), (Ok(()), 16));
    let mut statuses = vec![0x01u8; 15];
    statuses.extend_from_slice(&[0x80, 0x80, 0xC0, 0x50]);
    assert_eq!(carry_out(state, &statuses, 0), (Ok(()), 19));
}

#[test]
fn error_flag_leads_to_the_error_register() {
    let channel = IdeChannel::new(0x1F0, 0x3F6, 0);
    let (_, state) = channel.write_register(AtaRegister::Command, 0x20);
    let mut statuses = vec![0u8; 15];
    statuses.extend_from_slice(&[0x80, 0x81]);
    assert_eq!(carry_out(state, &statuses, 0x04), (Err(AtaError::CommandAborted), 17));
    assert_eq!(carry_out(state, &statuses, 0x00), (Err(AtaError::Unknown), 17));
    assert_eq!(carry_out(state, &statuses, 0x14), (Err(AtaError::CommandAborted), 17));
    let polling = RegisterWrite { status_port: 1, error_port: 2, phase: WritePhase::Polling };
    assert_eq!(
        polling.resume(0x01),
        WriteProgress::Continue(RegisterWrite { phase: WritePhase::ReadingError, ..polling })
    );
    assert_eq!(polling.resume(0x80), WriteProgress::Continue(polling));
    assert_eq!(polling.resume(0x00), WriteProgress::Done(Ok(())));
    let settling =
        RegisterWrite { phase: WritePhase::Settling { remaining: 2 }, ..polling };
    assert_eq!(
        settling.resume(0x01),
        WriteProgress::Continue(RegisterWrite {
            phase: WritePhase::Settling { remaining: 1 },
            ..polling
        })
    );
    let last = RegisterWrite { phase: WritePhase::Settling { remaining: 1 }, ..polling };
    assert_eq!(last.resume(0x01), WriteProgress::Continue(polling));
}

#[test]
fn errors_are_named_by_their_lowest_bit() {
    assert_eq!(AtaError::from_register(0x00), AtaError::Unknown);
    assert_eq!(AtaError::from_register(0x01), AtaError::NoAddressMark);
    assert_eq!(AtaError::from_register(0x02), AtaError::Track0NotFound);
    assert_eq!(AtaError::from_register(0x04), AtaError::CommandAborted);
    assert_eq!(AtaError::from_register(0x08), AtaError::MediaChangeRequest);
    assert_eq!(AtaError::from_register(0x10), AtaError::IdMarkNotFound);
    assert_eq!(AtaError::from_register(0x20), AtaError::MediaChanged);
    assert_eq!(AtaError::from_register(0x40), AtaError::UncorrectableData);
    assert_eq!(AtaError::from_register(0x80), AtaError::BadBlock);
    assert_eq!(AtaError::from_register(0xFF), AtaError::NoAddressMark);
    assert_eq!(AtaError::from_register(0xC0), AtaError::UncorrectableData);
    for register in 1u8..=255 {
        let error = AtaError::from_register(register);
        assert_eq!(error.mask(), 1 << register.trailing_zeros());
    }
    assert_eq!(AtaError::variants().len(), 9);
    assert_eq!(AtaError::variants()[8], AtaError::Unknown);
    assert_eq!(AtaError::Unknown.mask(), 0x81);
    assert_eq!(AtaStatus::Error.mask(), 0x01);
    assert_eq!(AtaStatus::DataRequest.mask(), 0x10);
    assert_eq!(AtaStatus::DeviceFault.mask(), 0x20);
    assert_eq!(AtaStatus::DeviceReady.mask(), 0x40);
    assert_eq!(AtaStatus::Busy.mask(), 0x80);
}

#[test]
fn command_is_five_writes() {
    let channel = IdeChannel::new(0x1F0, 0x3F6, 0);
    assert_eq!(
        channel.send_command(AtaCommand::ReadPio, 0x0000_00AA_BBCC_DDEE, 3),
        [
            (AtaRegister::Lba0, 0xEE),
            (AtaRegister::Lba1, 0xDD),
            (AtaRegister::Lba2, 0xCC),
            (AtaRegister::SectorCount, 3),
            (AtaRegister::Command, 0x20),
        ]
    );
    assert_eq!(AtaCommand::ReadPioExtended.code(), 0x24);
    assert_eq!(AtaCommand::ReadDma.code(), 0xC8);
    assert_eq!(AtaCommand::ReadDmaExtended.code(), 0x25);
    assert_eq!(AtaCommand::WritePio.code(), 0x30);
    assert_eq!(AtaCommand::WritePioExtended.code(), 0x34);
    assert_eq!(AtaCommand::WriteDma.code(), 0xCA);
    assert_eq!(AtaCommand::WriteDmaExtended.code(), 0x35);
    assert_eq!(AtaCommand::CacheFlush.code(), 0xE7);
    assert_eq!(AtaCommand::CacheFlushExtended.code(), 0xEA);
    assert_eq!(AtaCommand::Packet.code(), 0xA0);
    assert_eq!(AtaCommand::IdentifyPacket.code(), 0xA1);
    assert_eq!(AtaCommand::Identify.code(), 0xEC);
}

#[test]
fn disks_and_interrupts_are_single_bits() {
    assert_eq!(IdeChannel::new(0x1F0, 0x3F6, 0xA0).active_disk(), IdeDisk::Primary);
    assert_eq!(IdeChannel::new(0x1F0, 0x3F6, 0xA8).active_disk(), IdeDisk::Secondary);
    assert_eq!(IdeDisk::selected_by(0x08), IdeDisk::Secondary);
    assert_eq!(IdeDisk::selected_by(0xF7), IdeDisk::Primary);
    let mut channel = IdeChannel::new(0x1F0, 0x3F6, 0xA0);
    assert_eq!(channel.set_disk(IdeDisk::Primary, 0xA0), None);
    assert_eq!(channel.active_disk(), IdeDisk::Primary);
    assert_eq!(channel.set_disk(IdeDisk::Secondary, 0xA0), Some(0xA8));
    assert_eq!(channel.active_disk(), IdeDisk::Secondary);
    assert_eq!(channel.set_disk(IdeDisk::Secondary, 0xA0), None);
    assert_eq!(channel.set_disk(IdeDisk::Primary, 0xFF), Some(0xF7));
    assert_eq!(channel.active_disk(), IdeDisk::Primary);
    assert_eq!(channel.set_interrupts(true, 0x00), 0x02);
    assert_eq!(channel.set_interrupts(true, 0xF0), 0xF2);
    assert_eq!(channel.set_interrupts(false, 0xFF), 0xFD);
    assert_eq!(channel.set_interrupts(false, 0x02), 0x00);
}

#[test]
fn ide_controller_is_taken_from_its_class() {
    let mut device = PciDevice::new(0, 1, 1, 0x7010_8086).unwrap();
    let controller =
        IdeController::from_pci(&mut device, 0x0101_8A00, 0xA0, 0xA8).unwrap().unwrap();
    assert_eq!(controller.primary_channel.port_of(AtaRegister::Data), 0x01F0);
    assert_eq!(controller.primary_channel.port_of(AtaRegister::AltControl), 0x03F8);
    assert_eq!(controller.primary_channel.active_disk(), IdeDisk::Primary);
    assert_eq!(controller.secondary_channel.port_of(AtaRegister::Data), 0x0170);
    assert_eq!(controller.secondary_channel.port_of(AtaRegister::AltControl), 0x0378);
    assert_eq!(controller.secondary_channel.active_disk(), IdeDisk::Secondary);
    assert!(device.is_cached(2));

    let mut network = PciDevice::new(0, 2, 0, 0x100E_8086).unwrap();
    assert_eq!(IdeController::from_pci(&mut network, 0x0200_0000, 0, 0), Ok(None));
    let mut absent = PciDevice::new(0, 3, 0, 0x100E_8086).unwrap();
    assert_eq!(IdeController::from_pci(&mut absent, 0xFFFF_FFFF, 0, 0), Ok(None));
    let mut native = PciDevice::new(0, 4, 0, 0x7010_8086).unwrap();
    assert_eq!(
        IdeController::from_pci(&mut native, 0x0101_8F00, 0, 0),
        Err(IdeError::NativeMode)
    );
    let mut half_native = PciDevice::new(0, 5, 0, 0x7010_8086).unwrap();
    assert_eq!(
        IdeController::from_pci(&mut half_native, 0x0101_0400, 0, 0),
        Err(IdeError::NativeMode)
    );
}

#[test]
fn first_failing_write_ends_the_command() {
    assert_eq!(COMMAND_WRITES, 5);
    for done in 0..4 {
        assert_eq!(after_write(done, Ok(())), None);
        assert_eq!(
            after_write(done, Err(AtaError::CommandAborted)),
            Some(Err(AtaError::CommandAborted))
        );
    }
    assert_eq!(after_write(4, Ok(())), Some(Ok(())));
    assert_eq!(after_write(4, Err(AtaError::BadBlock)), Some(Err(AtaError::BadBlock)));
    let channel = IdeChannel::new(0x1F0, 0x3F6, 0);
    let mut written = Vec::new();
    let mut result = None;
    for (done, (register, _)) in
        channel.send_command(AtaCommand::ReadPio, 1, 1).into_iter().enumerate()
    {
        written.push(register);
        let outcome = if register == AtaRegister::Lba2 { Err(AtaError::Unknown) } else { Ok(()) };
        result = after_write(done, outcome);
        if result.is_some() {
            break;
        }
    }
    assert_eq!(result, Some(Err(AtaError::Unknown)));
    assert_eq!(written, vec![AtaRegister::Lba0, AtaRegister::Lba1, AtaRegister::Lba2]);
}
