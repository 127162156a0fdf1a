use bootchain::disk::{
    handoff, linear_address, load_program, read_sectors, sector_ends_program, DiskAddressPacket,
    LoadError, LoadProgress, ProgramLoader, ReadRequest, StageHandoff, SENTINEL,
};

/// A disk of `sectors` sectors, filled with a byte that is no part of the
/// sentinel, with the sentinel at the end of each sector listed in `ends`.
fn synthetic_disk(sectors: usize, ends: &[usize]) -> Vec<u8> {
    let mut disk = vec![0x11u8; sectors * 512];
    for &sector in ends {
        disk[sector * 512 + 508..sector * 512 + 512].copy_from_slice(&SENTINEL.to_le_bytes());
    }
    disk
}

fn sector_of(disk: &[u8], lba: u64) -> [u8; 512] {
    let mut sector = [0u8; 512];
    sector.copy_from_slice(&disk[lba as usize * 512..lba as usize * 512 + 512]);
    sector
}

/// Drives the loader as the boot chain does, reading from `disk`; returns
/// the end address and the block addresses that were read.
fn drive(disk: &[u8], start_lba: u64, offset: u16) -> (Result<u64, LoadError>, Vec<u64>) {
    let mut loader = ProgramLoader::new(start_lba, 0, offset, 0x80);
    let mut reads = Vec::new();
    loop {
        let request = loader.request();
        assert_eq!(request.packet.sectors, 1);
        reads.push(request.packet.lba);
        let sector = sector_of(disk, request.packet.lba);
        match loader.sector_read(&sector) {
            Ok(LoadProgress::Done { end_lba }) => return (Ok(end_lba), reads),
            Ok(LoadProgress::Continue(next)) => loader = next,
            Err(e) => return (Err(e), reads),
        }
    }
}

#[test]
fn sentinel_in_the_last_sector_reads_every_sector() {
    for n in [1usize, 2, 3, 7, 64] {
        let disk = synthetic_disk(n, &[n - 1]);
        let (end, reads) = drive(&disk, 0, 0x7E00);
        assert_eq!(end, Ok(n as u64));
        assert_eq!(reads, (0..n as u64).collect::<Vec<u64>>());
        let program = load_program(&disk, 0, 0, 0x7E00, 0x80).unwrap();
        assert_eq!(program.end_lba, n as u64);
        assert_eq!(program.sectors_read, n as u64);
        assert_eq!(program.image, disk);
        assert_eq!(program.requests.len(), n);
        for (k, request) in program.requests.iter().enumerate() {
            assert_eq!(
                *request,
                ReadRequest {
                    packet: DiskAddressPacket {
                        size: 16,
                        reserved: 0,
                        sectors: 1,
                        offset: 0x7E00 + 512 * k as u16,
                        segment: 0,
                        lba: k as u64,
                    },
                    drive: 0x80,
                }
            );
        }
    }
}

#[test]
fn loading_stops_at_the_first_sentinel() {
    let disk = synthetic_disk(10, &[5]);
    let (end, reads) = drive(&disk, 0, 0x7E00);
    assert_eq!(end, Ok(6));
    assert_eq!(reads, vec![0, 1, 2, 3, 4, 5]);
    let program = load_program(&disk, 0, 0, 0x7E00, 0x80).unwrap();
    assert_eq!(program.end_lba, 6);
    assert_eq!(program.sectors_read, 6);
    assert_eq!(program.image, disk[..6 * 512].to_vec());
}

#[test]
fn loading_starts_where_it_is_told() {
    let disk = synthetic_disk(10, &[2, 5, 9]);
    let (end, reads) = drive(&disk, 3, 0x7E00);
    assert_eq!(end, Ok(6));
    assert_eq!(reads, vec![3, 4, 5]);
    let program = load_program(&disk, 6, 0x0100, 0x0400, 0x81).unwrap();
    assert_eq!(
        program.requests,
        (0..4u16)
            .map(|k| ReadRequest {
                packet: DiskAddressPacket::new(6 + k as u64, 1, 0x0100, 0x0400 + 512 * k),
                drive: 0x81,
            })
            .collect::<Vec<ReadRequest>>()
    );
    assert_eq!(program.end_lba, 10);
    assert_eq!(program.sectors_read, 4);
    assert_eq!(program.image, disk[6 * 512..].to_vec());
}

#[test]
fn each_read_goes_512_bytes_further() {
    let mut loader = ProgramLoader::new(1, 0x0700, 0x7E00, 0x81);
    let plain = [0x22u8; 512];
    for step in 0u16..4 {
        assert_eq!(
            loader.request(),
            ReadRequest {
                packet: DiskAddressPacket {
                    size: 16,
                    reserved: 0,
                    sectors: 1,
                    offset: 0x7E00 + 512 * step,
                    segment: 0x0700,
                    lba: 1 + step as u64,
                },
                drive: 0x81,
            }
        );
        assert_eq!(loader.sectors_read(), step);
        loader = match loader.sector_read(&plain) {
            Ok(LoadProgress::Continue(next)) => next,
            other => panic!("the loader stopped: {:?}", other),
        };
    }
    assert_eq!(loader.lba(), 5);
    assert_eq!(loader.offset(), 0x7E00 + 4 * 512);
}

#[test]
fn window_ends_where_the_offset_no_longer_fits() {
    let disk = synthetic_disk(200, &[]);
    let (end, reads) = drive(&disk, 0, 0x7E00);
    assert_eq!(end, Err(LoadError::WindowExhausted));
    assert_eq!(reads.len(), (0xFFFF - 0x7E00) / 512 + 1);
    assert_eq!(load_program(&disk, 0, 0, 0x7E00, 0x80), Err(LoadError::WindowExhausted));
    let fits = synthetic_disk(200, &[64]);
    assert_eq!(load_program(&fits, 0, 0, 0x7E00, 0x80).map(|p| p.end_lba), Ok(65));
    let too_late = synthetic_disk(200, &[65]);
    assert_eq!(load_program(&too_late, 0, 0, 0x7E00, 0x80), Err(LoadError::WindowExhausted));
}

#[test]
fn disk_without_sentinel_is_reported() {
    let disk = synthetic_disk(5, &[]);
    assert_eq!(load_program(&disk, 0, 0, 0x7E00, 0x80), Err(LoadError::SentinelMissing));
    assert_eq!(load_program(&disk, 9, 0, 0x7E00, 0x80), Err(LoadError::SentinelMissing));
    let early = synthetic_disk(5, &[1]);
    assert_eq!(load_program(&early, 2, 0, 0x7E00, 0x80), Err(LoadError::SentinelMissing));
    let partial = &synthetic_disk(3, &[2])[..3 * 512 - 1];
    assert_eq!(load_program(partial, 0, 0, 0, 0x80), Err(LoadError::SentinelMissing));
}

#[test]
fn sentinel_is_the_last_four_bytes_least_significant_first() {
    let mut sector = [0u8; 512];
    assert!(!sector_ends_program(&sector));
    sector[508] = 0xEF;
    sector[509] = 0xBE;
    sector[510] = 0xAD;
    assert!(!sector_ends_program(&sector));
    sector[511] = 0xDE;
    assert!(sector_ends_program(&sector));
    let mut reversed = [0u8; 512];
    reversed[508..].copy_from_slice(&SENTINEL.to_be_bytes());
    assert!(!sector_ends_program(&reversed));
    let mut early = [0u8; 512];
    early[0..4].copy_from_slice(&SENTINEL.to_le_bytes());
    assert!(!sector_ends_program(&early));
    assert_eq!(SENTINEL, 0xDEADBEEF);
}

#[test]
fn packet_is_sixteen_little_endian_bytes() {
    let packet = DiskAddressPacket::new(0x0000_1122_3344_5566, 0x0102, 0x0A0B, 0x7E00);
    assert_eq!(packet.size, 16);
    assert_eq!(packet.reserved, 0);
    assert_eq!(
        packet.to_bytes(),
        [
            0x10, 0x00, 0x02, 0x01, 0x00, 0x7E, 0x0B, 0x0A, 0x66, 0x55, 0x44, 0x33, 0x22, 0x11,
            0x00, 0x00
        ]
    );
}

#[test]
fn read_sectors_advances_address_and_offset() {
    let mut lba = 7u64;
    let mut address = 0x4000u16;
    let request = read_sectors(&mut lba, 3, &mut address, 0x0050, None);
    assert_eq!(request.packet, DiskAddressPacket::new(7, 3, 0x0050, 0x4000));
    assert_eq!(request.drive, 0x80);
    assert_eq!(lba, 10);
    assert_eq!(address, 0x4000 + 3 * 512);
    let request = read_sectors(&mut lba, 1, &mut address, 0, Some(0x81));
    assert_eq!(request.packet, DiskAddressPacket::new(10, 1, 0, 0x4600));
    assert_eq!(request.drive, 0x81);
    assert_eq!((lba, address), (11, 0x4800));
}

#[test]
fn what_lies_behind_a_stage_is_not_looked_at() {
    let disk = synthetic_disk(10, &[5]);
    let mut other = disk.clone();
    for byte in other[6 * 512..].iter_mut() {
        *byte = 0xEF;
    }
    other.extend_from_slice(&synthetic_disk(3, &[0, 1, 2]));
    assert_eq!(load_program(&other, 0, 0, 0x7E00, 0x80), load_program(&disk, 0, 0, 0x7E00, 0x80));
    assert_eq!(drive(&other, 0, 0x7E00), drive(&disk, 0, 0x7E00));
    let short = &disk[..6 * 512];
    assert_eq!(load_program(short, 0, 0, 0x7E00, 0x80), load_program(&disk, 0, 0, 0x7E00, 0x80));
}

#[test]
fn handoff_names_entry_drive_and_next_sector() {
    assert_eq!(linear_address(0, 0x7E00), 0x7E00);
    assert_eq!(linear_address(0x07C0, 0x0010), 0x7C10);
    assert_eq!(linear_address(0xFFFF, 0xFFFF), 0x10_FFEF);
    assert_eq!(
        handoff(0x1000, 0x0200, 0x80, 17),
        StageHandoff { entry: 0x1_0200, drive: 0x80, next_sector: 17 }
    );
}
