use bootchain::pci::classification::{
    BridgeSubclass, Class, DockingStationSubclass, EncryptionControllerSubclass, HeaderMeta,
    HeaderType, IntelligentControllerSubclass, MassStorageControllerSubclass,
    NetworkControllerSubclass, ProcessorSubclass, SatelliteCommunicationControllerSubclass,
    SignalProcessingControllerSubclass, UnclassifiedSubclass, Vendor, WirelessControllerSubclass,
};
use bootchain::pci::configuration::{PciDeviceAddress, NO_DEVICE};
use bootchain::pci::{bus_behind, decode_register, walk_for, PciDevice, Walk};

#[test]
fn class_and_subclass_bytes_are_named() {
    assert_eq!(
        Class::from_bytes(0, 1),
        Some(Class::Unclassified(UnclassifiedSubclass::VgaCompatible))
    );
    assert_eq!(
        Class::from_bytes(1, 1),
        Some(Class::MassStorageController(MassStorageControllerSubclass::Ide))
    );
    assert_eq!(
        Class::from_bytes(1, 0x80),
        Some(Class::MassStorageController(MassStorageControllerSubclass::Other))
    );
    assert_eq!(
        Class::from_bytes(2, 0),
        Some(Class::NetworkController(NetworkControllerSubclass::Ethernet))
    );
    assert_eq!(Class::from_bytes(6, 4), Some(Class::Bridge(BridgeSubclass::PciToPci)));
    assert_eq!(
        Class::from_bytes(10, 1),
        Some(Class::DockingStation(DockingStationSubclass::Generic))
    );
    assert_eq!(Class::from_bytes(10, 0), None);
    assert_eq!(Class::from_bytes(11, 48), Some(Class::Processor(ProcessorSubclass::Mips)));
    assert_eq!(
        Class::from_bytes(13, 33),
        Some(Class::WirelessController(WirelessControllerSubclass::Ethernet8021b))
    );
    assert_eq!(
        Class::from_bytes(14, 0x80),
        Some(Class::IntelligentController(IntelligentControllerSubclass::I20))
    );
    assert_eq!(Class::from_bytes(14, 0), None);
    assert_eq!(
        Class::from_bytes(15, 4),
        Some(Class::SatelliteCommunicationController(
            SatelliteCommunicationControllerSubclass::Data
        ))
    );
    assert_eq!(Class::from_bytes(15, 0x80), None);
    assert_eq!(
        Class::from_bytes(16, 32),
        Some(Class::SignalProcessingController(
            SignalProcessingControllerSubclass::SignalProcessingManagement
        ))
    );
    assert_eq!(Class::from_bytes(17, 0), Some(Class::ProcessingController));
    assert_eq!(Class::from_bytes(17, 99), Some(Class::ProcessingController));
    assert_eq!(Class::from_bytes(18, 5), Some(Class::NonEssentialInstrumentation));
    assert_eq!(Class::from_bytes(19, 0), None);
    assert_eq!(Class::from_bytes(0x40, 1), Some(Class::CoProcessor));
    assert_eq!(Class::from_bytes(0xFF, 0), Some(Class::Unassigned));
    assert_eq!(Class::from_bytes(0x41, 0), None);
    assert_eq!(Class::from_bytes(1, 9), None);
}

#[test]
fn no_bytes_name_an_encryption_controller() {
    for class in 0u8..=255 {
        for subclass in 0u8..=255 {
            assert!(!matches!(
                Class::from_bytes(class, subclass),
                Some(Class::EncryptionController(_))
            ));
        }
    }
    assert_eq!(
        EncryptionControllerSubclass::from_code(16),
        Some(EncryptionControllerSubclass::Entertainment)
    );
}

#[test]
fn subclass_codes_round_trip() {
    for code in 0u8..=255 {
        if let Some(member) = MassStorageControllerSubclass::from_code(code) {
            assert_eq!(member.code(), code);
        }
        if let Some(member) = ProcessorSubclass::from_code(code) {
            assert_eq!(member.code(), code);
        }
        if let Some(member) = BridgeSubclass::from_code(code) {
            assert_eq!(member.code(), code);
        }
    }
    assert_eq!(MassStorageControllerSubclass::Ide.code(), 1);
    assert_eq!(ProcessorSubclass::CoProcessor.code(), 64);
    assert_eq!(BridgeSubclass::Other.code(), 0x80);
    assert_eq!(BridgeSubclass::from_code(11), None);
}

#[test]
fn vendor_and_header_are_named() {
    assert_eq!(Vendor::try_from(0x1022), Ok(Vendor::AdvancedMicroDevices));
    assert_eq!(Vendor::try_from(0x8086), Err(()));
    assert_eq!(
        HeaderMeta::try_from(0x00),
        Ok(HeaderMeta { multi_function: false, kind: HeaderType::General })
    );
    assert_eq!(
        HeaderMeta::try_from(0x81),
        Ok(HeaderMeta { multi_function: true, kind: HeaderType::PciToPci })
    );
    assert_eq!(
        HeaderMeta::try_from(0x02),
        Ok(HeaderMeta { multi_function: false, kind: HeaderType::PciToCardbus })
    );
    assert_eq!(
        HeaderMeta::try_from(0x7C),
        Ok(HeaderMeta { multi_function: false, kind: HeaderType::General })
    );
    assert_eq!(HeaderMeta::try_from(0x03), Err(()));
    assert_eq!(HeaderMeta::try_from(0x83), Err(()));
}

#[test]
fn address_fields_sit_where_documented() {
    assert_eq!(PciDeviceAddress::new().0, 0x8000_0000);
    assert_eq!(PciDeviceAddress::default(), PciDeviceAddress::new());
    let address =
        PciDeviceAddress::new().with_bus(0xAB).with_device(0x1F).with_function(7).with_register(63);
    assert_eq!(address.0, 0x80AB_FFFC);
    assert_eq!(address.bus(), 0xAB);
    assert_eq!(address.offset(), 0xFC);
    let plain = PciDeviceAddress::new().with_bus(8).with_device(3).with_register(2);
    assert_eq!(plain.0, 0x8008_1808);
    assert_eq!(plain.bus(), 8);
    assert_eq!(plain.device(), 3);
    assert_eq!(plain.function(), 3 << 3);
    assert_eq!(plain.offset(), 8);
    let function_only = PciDeviceAddress::new().with_function(5);
    assert_eq!(function_only.function(), 5);
    let odd_bus = PciDeviceAddress::new().with_bus(1).with_device(2);
    assert_eq!(odd_bus.device(), (1 << 5) | 2);
}

#[test]
fn register_reads_are_decoded_and_remembered() {
    assert_eq!(decode_register(NO_DEVICE), None);
    assert_eq!(decode_register(0x1234_5678), Some([0x78, 0x56, 0x34, 0x12]));
    assert_eq!(PciDevice::new(0, 0, 0, NO_DEVICE), None);
    let mut device = PciDevice::new(2, 3, 1, 0x7010_8086).unwrap();
    assert_eq!(device.bus(), 2);
    assert_eq!(device.register_address(0).0, 0x8002_1900);
    assert_eq!(device.register_address(2).0, 0x8002_1908);
    assert!(device.is_cached(0));
    assert!(!device.is_cached(2));
    assert_eq!(device.read_register(0, 0xDEAD_0000), Some([0x86, 0x80, 0x10, 0x70]));
    assert_eq!(device.read_register(2, NO_DEVICE), None);
    assert!(!device.is_cached(2));
    assert_eq!(device.read_register(2, 0x0101_8A00), Some([0x00, 0x8A, 0x01, 0x01]));
    assert!(device.is_cached(2));
    assert_eq!(device.read_register(2, 0x0C03_0000), Some([0x00, 0x8A, 0x01, 0x01]));
    assert_eq!(device.read_register_uncached(2, 0x0C03_0000), Some([0x00, 0x00, 0x03, 0x0C]));
    assert_eq!(device.read_register(2, NO_DEVICE), Some([0x00, 0x8A, 0x01, 0x01]));
}

#[test]
fn device_is_described_by_its_registers() {
    let mut device = PciDevice::new(0, 1, 1, 0x7010_8086).unwrap();
    assert_eq!(device.vendor(0), None);
    assert_eq!(
        device.class(0x0101_8A00),
        Some(Class::MassStorageController(MassStorageControllerSubclass::Ide))
    );
    assert_eq!(device.programming_interface(NO_DEVICE), Some(0x8A));
    assert_eq!(
        device.header(0x0080_0000),
        Some(HeaderMeta { multi_function: true, kind: HeaderType::General })
    );
    assert_eq!(
        device.header(0x0001_0000),
        Some(HeaderMeta { multi_function: true, kind: HeaderType::General })
    );
    let mut amd = PciDevice::new(0, 0, 0, 0x0000_2210).unwrap();
    assert_eq!(amd.vendor(NO_DEVICE), Some(Vendor::AdvancedMicroDevices));
    let mut silent = PciDevice::new(0, 0, 0, 1).unwrap();
    assert_eq!(silent.class(NO_DEVICE), None);
    assert_eq!(silent.programming_interface(NO_DEVICE), None);
    assert_eq!(silent.header(NO_DEVICE), None);
    assert_eq!(silent.header(0x0003_0000), None);
}

#[test]
fn bridge_names_the_bus_behind_it() {
    let single = HeaderMeta { multi_function: false, kind: HeaderType::PciToPci };
    let several = HeaderMeta { multi_function: true, kind: HeaderType::PciToPci };
    assert_eq!(bus_behind(single, [0, 1, 2, 3]), 2);
    assert_eq!(bus_behind(several, [0, 1, 2, 3]), 1);
}

#[test]
fn header_decides_the_walk() {
    let header = |multi_function, kind| HeaderMeta { multi_function, kind };
    assert_eq!(walk_for(header(false, HeaderType::PciToPci)), Walk::Bridge);
    assert_eq!(walk_for(header(true, HeaderType::PciToPci)), Walk::Bridge);
    assert_eq!(walk_for(header(true, HeaderType::General)), Walk::Functions);
    assert_eq!(walk_for(header(true, HeaderType::PciToCardbus)), Walk::Functions);
    assert_eq!(walk_for(header(true, HeaderType::Unknown)), Walk::Functions);
    assert_eq!(walk_for(header(false, HeaderType::General)), Walk::Single);
    assert_eq!(walk_for(header(false, HeaderType::PciToCardbus)), Walk::Single);
}
