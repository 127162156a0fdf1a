//! What a PCI device is: its class and subclass, its vendor and the kind of
//! its configuration header.
//!
//! A device reports a class byte and a subclass byte. The class byte picks a
//! family; the subclass byte picks a member of it, by the family's own
//! table. Both tables are given at the `spec_from_code` and
//! [`Class::spec_from_bytes`] functions below.

use vstd::prelude::*;

verus! {

/// The members of the family `Unclassified`.
#[derive(Clone, Copy, Debug, PartialEq, Eq)]
pub enum UnclassifiedSubclass {
    NonVgaCompatible,
    VgaCompatible,
}

impl UnclassifiedSubclass {
    /// The subclass byte that stands for this member.
    pub open spec fn spec_code(self) -> u8 {
        match self {
            UnclassifiedSubclass::NonVgaCompatible => 0x00,
            UnclassifiedSubclass::VgaCompatible => 0x01,
        }
    }

    /// The member that a subclass byte stands for, if any.
    pub open spec fn spec_from_code(code: u8) -> Option<UnclassifiedSubclass> {
        if code == 0x00 {
            Some(UnclassifiedSubclass::NonVgaCompatible)
        } else if code == 0x01 {
            Some(UnclassifiedSubclass::VgaCompatible)
        } else {
            None
        }
    }

    /// The subclass byte that stands for this member.
    #[verifier::when_used_as_spec(spec_code)]
    pub fn code(self) -> (r: u8)
        ensures
            r == self.spec_code(),
            Self::spec_from_code(r) == Some(self),
    {
        match self {
            UnclassifiedSubclass::NonVgaCompatible => 0x00,
            UnclassifiedSubclass::VgaCompatible => 0x01,
        }
    }

    /// The member that a subclass byte stands for, if any.
    #[verifier::when_used_as_spec(spec_from_code)]
    pub fn from_code(code: u8) -> (r: Option<UnclassifiedSubclass>)
        ensures
            r == Self::spec_from_code(code),
            r matches Some(member) ==> member.spec_code() == code,
    {
        match code {
            0x00 => Some(UnclassifiedSubclass::NonVgaCompatible),
            0x01 => Some(UnclassifiedSubclass::VgaCompatible),
            _ => None,
        }
    }
}

/// The members of the family `MassStorageController`.
#[derive(Clone, Copy, Debug, PartialEq, Eq)]
pub enum MassStorageControllerSubclass {
    ScsiBus,
    Ide,
    FloppyDisk,
    IpiBus,
    Raid,
    Ata,
    SerialAta,
    SerialAttachedScsi,
    NonVolatileMemory,
    Other,
}

impl MassStorageControllerSubclass {
    /// The subclass byte that stands for this member.
    pub open spec fn spec_code(self) -> u8 {
        match self {
            MassStorageControllerSubclass::ScsiBus => 0x00,
            MassStorageControllerSubclass::Ide => 0x01,
            MassStorageControllerSubclass::FloppyDisk => 0x02,
            MassStorageControllerSubclass::IpiBus => 0x03,
            MassStorageControllerSubclass::Raid => 0x04,
            MassStorageControllerSubclass::Ata => 0x05,
            MassStorageControllerSubclass::SerialAta => 0x06,
            MassStorageControllerSubclass::SerialAttachedScsi => 0x07,
            MassStorageControllerSubclass::NonVolatileMemory => 0x08,
            MassStorageControllerSubclass::Other => 0x80,
        }
    }

    /// The member that a subclass byte stands for, if any.
    pub open spec fn spec_from_code(code: u8) -> Option<MassStorageControllerSubclass> {
        if code == 0x00 {
            Some(MassStorageControllerSubclass::ScsiBus)
        } else if code == 0x01 {
            Some(MassStorageControllerSubclass::Ide)
        } else if code == 0x02 {
            Some(MassStorageControllerSubclass::FloppyDisk)
        } else if code == 0x03 {
            Some(MassStorageControllerSubclass::IpiBus)
        } else if code == 0x04 {
            Some(MassStorageControllerSubclass::Raid)
        } else if code == 0x05 {
            Some(MassStorageControllerSubclass::Ata)
        } else if code == 0x06 {
            Some(MassStorageControllerSubclass::SerialAta)
        } else if code == 0x07 {
            Some(MassStorageControllerSubclass::SerialAttachedScsi)
        } else if code == 0x08 {
            Some(MassStorageControllerSubclass::NonVolatileMemory)
        } else if code == 0x80 {
            Some(MassStorageControllerSubclass::Other)
        } else {
            None
        }
    }

    /// The subclass byte that stands for this member.
    #[verifier::when_used_as_spec(spec_code)]
    pub fn code(self) -> (r: u8)
        ensures
            r == self.spec_code(),
            Self::spec_from_code(r) == Some(self),
    {
        match self {
            MassStorageControllerSubclass::ScsiBus => 0x00,
            MassStorageControllerSubclass::Ide => 0x01,
            MassStorageControllerSubclass::FloppyDisk => 0x02,
            MassStorageControllerSubclass::IpiBus => 0x03,
            MassStorageControllerSubclass::Raid => 0x04,
            MassStorageControllerSubclass::Ata => 0x05,
            MassStorageControllerSubclass::SerialAta => 0x06,
            MassStorageControllerSubclass::SerialAttachedScsi => 0x07,
            MassStorageControllerSubclass::NonVolatileMemory => 0x08,
            MassStorageControllerSubclass::Other => 0x80,
        }
    }

    /// The member that a subclass byte stands for, if any.
    #[verifier::when_used_as_spec(spec_from_code)]
    pub fn from_code(code: u8) -> (r: Option<MassStorageControllerSubclass>)
        ensures
            r == Self::spec_from_code(code),
            r matches Some(member) ==> member.spec_code() == code,
    {
        match code {
            0x00 => Some(MassStorageControllerSubclass::ScsiBus),
            0x01 => Some(MassStorageControllerSubclass::Ide),
            0x02 => Some(MassStorageControllerSubclass::FloppyDisk),
            0x03 => Some(MassStorageControllerSubclass::IpiBus),
            0x04 => Some(MassStorageControllerSubclass::Raid),
            0x05 => Some(MassStorageControllerSubclass::Ata),
            0x06 => Some(MassStorageControllerSubclass::SerialAta),
            0x07 => Some(MassStorageControllerSubclass::SerialAttachedScsi),
            0x08 => Some(MassStorageControllerSubclass::NonVolatileMemory),
            0x80 => Some(MassStorageControllerSubclass::Other),
            _ => None,
        }
    }
}

/// The members of the family `NetworkController`.
#[derive(Clone, Copy, Debug, PartialEq, Eq)]
pub enum NetworkControllerSubclass {
    Ethernet,
    TokenRing,
    Fddi,
    Atm,
    Isdn,
    WorldFip,
    PicMg,
    Infiniband,
    Fabric,
    Other,
}

impl NetworkControllerSubclass {
    /// The subclass byte that stands for this member.
    pub open spec fn spec_code(self) -> u8 {
        match self {
            NetworkControllerSubclass::Ethernet => 0x00,
            NetworkControllerSubclass::TokenRing => 0x01,
            NetworkControllerSubclass::Fddi => 0x02,
            NetworkControllerSubclass::Atm => 0x03,
            NetworkControllerSubclass::Isdn => 0x04,
            NetworkControllerSubclass::WorldFip => 0x05,
            NetworkControllerSubclass::PicMg => 0x06,
            NetworkControllerSubclass::Infiniband => 0x07,
            NetworkControllerSubclass::Fabric => 0x08,
            NetworkControllerSubclass::Other => 0x80,
        }
    }

    /// The member that a subclass byte stands for, if any.
    pub open spec fn spec_from_code(code: u8) -> Option<NetworkControllerSubclass> {
        if code == 0x00 {
            Some(NetworkControllerSubclass::Ethernet)
        } else if code == 0x01 {
            Some(NetworkControllerSubclass::TokenRing)
        } else if code == 0x02 {
            Some(NetworkControllerSubclass::Fddi)
        } else if code == 0x03 {
            Some(NetworkControllerSubclass::Atm)
        } else if code == 0x04 {
            Some(NetworkControllerSubclass::Isdn)
        } else if code == 0x05 {
            Some(NetworkControllerSubclass::WorldFip)
        } else if code == 0x06 {
            Some(NetworkControllerSubclass::PicMg)
        } else if code == 0x07 {
            Some(NetworkControllerSubclass::Infiniband)
        } else if code == 0x08 {
            Some(NetworkControllerSubclass::Fabric)
        } else if code == 0x80 {
            Some(NetworkControllerSubclass::Other)
        } else {
            None
        }
    }

    /// The subclass byte that stands for this member.
    #[verifier::when_used_as_spec(spec_code)]
    pub fn code(self) -> (r: u8)
        ensures
            r == self.spec_code(),
            Self::spec_from_code(r) == Some(self),
    {
        match self {
            NetworkControllerSubclass::Ethernet => 0x00,
            NetworkControllerSubclass::TokenRing => 0x01,
            NetworkControllerSubclass::Fddi => 0x02,
            NetworkControllerSubclass::Atm => 0x03,
            NetworkControllerSubclass::Isdn => 0x04,
            NetworkControllerSubclass::WorldFip => 0x05,
            NetworkControllerSubclass::PicMg => 0x06,
            NetworkControllerSubclass::Infiniband => 0x07,
            NetworkControllerSubclass::Fabric => 0x08,
            NetworkControllerSubclass::Other => 0x80,
        }
    }

    /// The member that a subclass byte stands for, if any.
    #[verifier::when_used_as_spec(spec_from_code)]
    pub fn from_code(code: u8) -> (r: Option<NetworkControllerSubclass>)
        ensures
            r == Self::spec_from_code(code),
            r matches Some(member) ==> member.spec_code() == code,
    {
        match code {
            0x00 => Some(NetworkControllerSubclass::Ethernet),
            0x01 => Some(NetworkControllerSubclass::TokenRing),
            0x02 => Some(NetworkControllerSubclass::Fddi),
            0x03 => Some(NetworkControllerSubclass::Atm),
            0x04 => Some(NetworkControllerSubclass::Isdn),
            0x05 => Some(NetworkControllerSubclass::WorldFip),
            0x06 => Some(NetworkControllerSubclass::PicMg),
            0x07 => Some(NetworkControllerSubclass::Infiniband),
            0x08 => Some(NetworkControllerSubclass::Fabric),
            0x80 => Some(NetworkControllerSubclass::Other),
            _ => None,
        }
    }
}

/// The members of the family `DisplayController`.
#[derive(Clone, Copy, Debug, PartialEq, Eq)]
pub enum DisplayControllerSubclass {
    VgaCompatible,
    Xga,
    NonVga3d,
    Other,
}

impl DisplayControllerSubclass {
    /// The subclass byte that stands for this member.
    pub open spec fn spec_code(self) -> u8 {
        match self {
            DisplayControllerSubclass::VgaCompatible => 0x00,
            DisplayControllerSubclass::Xga => 0x01,
            DisplayControllerSubclass::NonVga3d => 0x02,
            DisplayControllerSubclass::Other => 0x80,
        }
    }

    /// The member that a subclass byte stands for, if any.
    pub open spec fn spec_from_code(code: u8) -> Option<DisplayControllerSubclass> {
        if code == 0x00 {
            Some(DisplayControllerSubclass::VgaCompatible)
        } else if code == 0x01 {
            Some(DisplayControllerSubclass::Xga)
        } else if code == 0x02 {
            Some(DisplayControllerSubclass::NonVga3d)
        } else if code == 0x80 {
            Some(DisplayControllerSubclass::Other)
        } else {
            None
        }
    }

    /// The subclass byte that stands for this member.
    #[verifier::when_used_as_spec(spec_code)]
    pub fn code(self) -> (r: u8)
        ensures
            r == self.spec_code(),
            Self::spec_from_code(r) == Some(self),
    {
        match self {
            DisplayControllerSubclass::VgaCompatible => 0x00,
            DisplayControllerSubclass::Xga => 0x01,
            DisplayControllerSubclass::NonVga3d => 0x02,
            DisplayControllerSubclass::Other => 0x80,
        }
    }

    /// The member that a subclass byte stands for, if any.
    #[verifier::when_used_as_spec(spec_from_code)]
    pub fn from_code(code: u8) -> (r: Option<DisplayControllerSubclass>)
        ensures
            r == Self::spec_from_code(code),
            r matches Some(member) ==> member.spec_code() == code,
    {
        match code {
            0x00 => Some(DisplayControllerSubclass::VgaCompatible),
            0x01 => Some(DisplayControllerSubclass::Xga),
            0x02 => Some(DisplayControllerSubclass::NonVga3d),
            0x80 => Some(DisplayControllerSubclass::Other),
            _ => None,
        }
    }
}

/// The members of the family `MultimediaController`.
#[derive(Clone, Copy, Debug, PartialEq, Eq)]
pub enum MultimediaControllerSubclass {
    MultimediaVideo,
    MultimediaAudio,
    ComputerTelephony,
    Audio,
    Other,
}

impl MultimediaControllerSubclass {
    /// The subclass byte that stands for this member.
    pub open spec fn spec_code(self) -> u8 {
        match self {
            MultimediaControllerSubclass::MultimediaVideo => 0x00,
            MultimediaControllerSubclass::MultimediaAudio => 0x01,
            MultimediaControllerSubclass::ComputerTelephony => 0x02,
            MultimediaControllerSubclass::Audio => 0x03,
            MultimediaControllerSubclass::Other => 0x80,
        }
    }

    /// The member that a subclass byte stands for, if any.
    pub open spec fn spec_from_code(code: u8) -> Option<MultimediaControllerSubclass> {
        if code == 0x00 {
            Some(MultimediaControllerSubclass::MultimediaVideo)
        } else if code == 0x01 {
            Some(MultimediaControllerSubclass::MultimediaAudio)
        } else if code == 0x02 {
            Some(MultimediaControllerSubclass::ComputerTelephony)
        } else if code == 0x03 {
            Some(MultimediaControllerSubclass::Audio)
        } else if code == 0x80 {
            Some(MultimediaControllerSubclass::Other)
        } else {
            None
        }
    }

    /// The subclass byte that stands for this member.
    #[verifier::when_used_as_spec(spec_code)]
    pub fn code(self) -> (r: u8)
        ensures
            r == self.spec_code(),
            Self::spec_from_code(r) == Some(self),
    {
        match self {
            MultimediaControllerSubclass::MultimediaVideo => 0x00,
            MultimediaControllerSubclass::MultimediaAudio => 0x01,
            MultimediaControllerSubclass::ComputerTelephony => 0x02,
            MultimediaControllerSubclass::Audio => 0x03,
            MultimediaControllerSubclass::Other => 0x80,
        }
    }

    /// The member that a subclass byte stands for, if any.
    #[verifier::when_used_as_spec(spec_from_code)]
    pub fn from_code(code: u8) -> (r: Option<MultimediaControllerSubclass>)
        ensures
            r == Self::spec_from_code(code),
            r matches Some(member) ==> member.spec_code() == code,
    {
        match code {
            0x00 => Some(MultimediaControllerSubclass::MultimediaVideo),
            0x01 => Some(MultimediaControllerSubclass::MultimediaAudio),
            0x02 => Some(MultimediaControllerSubclass::ComputerTelephony),
            0x03 => Some(MultimediaControllerSubclass::Audio),
            0x80 => Some(MultimediaControllerSubclass::Other),
            _ => None,
        }
    }
}

/// The members of the family `MemoryController`.
#[derive(Clone, Copy, Debug, PartialEq, Eq)]
pub enum MemoryControllerSubclass {
    Ram,
    Flash,
    Other,
}

impl MemoryControllerSubclass {
    /// The subclass byte that stands for this member.
    pub open spec fn spec_code(self) -> u8 {
        match self {
            MemoryControllerSubclass::Ram => 0x00,
            MemoryControllerSubclass::Flash => 0x01,
            MemoryControllerSubclass::Other => 0x80,
        }
    }

    /// The member that a subclass byte stands for, if any.
    pub open spec fn spec_from_code(code: u8) -> Option<MemoryControllerSubclass> {
        if code == 0x00 {
            Some(MemoryControllerSubclass::Ram)
        } else if code == 0x01 {
            Some(MemoryControllerSubclass::Flash)
        } else if code == 0x80 {
            Some(MemoryControllerSubclass::Other)
        } else {
            None
        }
    }

    /// The subclass byte that stands for this member.
    #[verifier::when_used_as_spec(spec_code)]
    pub fn code(self) -> (r: u8)
        ensures
            r == self.spec_code(),
            Self::spec_from_code(r) == Some(self),
    {
        match self {
            MemoryControllerSubclass::Ram => 0x00,
            MemoryControllerSubclass::Flash => 0x01,
            MemoryControllerSubclass::Other => 0x80,
        }
    }

    /// The member that a subclass byte stands for, if any.
    #[verifier::when_used_as_spec(spec_from_code)]
    pub fn from_code(code: u8) -> (r: Option<MemoryControllerSubclass>)
        ensures
            r == Self::spec_from_code(code),
            r matches Some(member) ==> member.spec_code() == code,
    {
        match code {
            0x00 => Some(MemoryControllerSubclass::Ram),
            0x01 => Some(MemoryControllerSubclass::Flash),
            0x80 => Some(MemoryControllerSubclass::Other),
            _ => None,
        }
    }
}

/// The members of the family `Bridge`.
#[derive(Clone, Copy, Debug, PartialEq, Eq)]
pub enum BridgeSubclass {
    Host,
    Isa,
    Eisa,
    Mca,
    PciToPci,
    Pcmcia,
    NuBus,
    CardBus,
    RaceWay,
    PciToPciSemiTransparent,
    InfinibandToPci,
    Other,
}

impl BridgeSubclass {
    /// The subclass byte that stands for this member.
    pub open spec fn spec_code(self) -> u8 {
        match self {
            BridgeSubclass::Host => 0x00,
            BridgeSubclass::Isa => 0x01,
            BridgeSubclass::Eisa => 0x02,
            BridgeSubclass::Mca => 0x03,
            BridgeSubclass::PciToPci => 0x04,
            BridgeSubclass::Pcmcia => 0x05,
            BridgeSubclass::NuBus => 0x06,
            BridgeSubclass::CardBus => 0x07,
            BridgeSubclass::RaceWay => 0x08,
            BridgeSubclass::PciToPciSemiTransparent => 0x09,
            BridgeSubclass::InfinibandToPci => 0x0A,
            BridgeSubclass::Other => 0x80,
        }
    }

    /// The member that a subclass byte stands for, if any.
    pub open spec fn spec_from_code(code: u8) -> Option<BridgeSubclass> {
        if code == 0x00 {
            Some(BridgeSubclass::Host)
        } else if code == 0x01 {
            Some(BridgeSubclass::Isa)
        } else if code == 0x02 {
            Some(BridgeSubclass::Eisa)
        } else if code == 0x03 {
            Some(BridgeSubclass::Mca)
        } else if code == 0x04 {
            Some(BridgeSubclass::PciToPci)
        } else if code == 0x05 {
            Some(BridgeSubclass::Pcmcia)
        } else if code == 0x06 {
            Some(BridgeSubclass::NuBus)
        } else if code == 0x07 {
            Some(BridgeSubclass::CardBus)
        } else if code == 0x08 {
            Some(BridgeSubclass::RaceWay)
        } else if code == 0x09 {
            Some(BridgeSubclass::PciToPciSemiTransparent)
        } else if code == 0x0A {
            Some(BridgeSubclass::InfinibandToPci)
        } else if code == 0x80 {
            Some(BridgeSubclass::Other)
        } else {
            None
        }
    }

    /// The subclass byte that stands for this member.
    #[verifier::when_used_as_spec(spec_code)]
    pub fn code(self) -> (r: u8)
        ensures
            r == self.spec_code(),
            Self::spec_from_code(r) == Some(self),
    {
        match self {
            BridgeSubclass::Host => 0x00,
            BridgeSubclass::Isa => 0x01,
            BridgeSubclass::Eisa => 0x02,
            BridgeSubclass::Mca => 0x03,
            BridgeSubclass::PciToPci => 0x04,
            BridgeSubclass::Pcmcia => 0x05,
            BridgeSubclass::NuBus => 0x06,
            BridgeSubclass::CardBus => 0x07,
            BridgeSubclass::RaceWay => 0x08,
            BridgeSubclass::PciToPciSemiTransparent => 0x09,
            BridgeSubclass::InfinibandToPci => 0x0A,
            BridgeSubclass::Other => 0x80,
        }
    }

    /// The member that a subclass byte stands for, if any.
    #[verifier::when_used_as_spec(spec_from_code)]
    pub fn from_code(code: u8) -> (r: Option<BridgeSubclass>)
        ensures
            r == Self::spec_from_code(code),
            r matches Some(member) ==> member.spec_code() == code,
    {
        match code {
            0x00 => Some(BridgeSubclass::Host),
            0x01 => Some(BridgeSubclass::Isa),
            0x02 => Some(BridgeSubclass::Eisa),
            0x03 => Some(BridgeSubclass::Mca),
            0x04 => Some(BridgeSubclass::PciToPci),
            0x05 => Some(BridgeSubclass::Pcmcia),
            0x06 => Some(BridgeSubclass::NuBus),
            0x07 => Some(BridgeSubclass::CardBus),
            0x08 => Some(BridgeSubclass::RaceWay),
            0x09 => Some(BridgeSubclass::PciToPciSemiTransparent),
            0x0A => Some(BridgeSubclass::InfinibandToPci),
            0x80 => Some(BridgeSubclass::Other),
            _ => None,
        }
    }
}

/// The members of the family `SimpleCommunicationController`.
#[derive(Clone, Copy, Debug, PartialEq, Eq)]
pub enum SimpleCommunicationControllerSubclass {
    Serial,
    Parallel,
    MultiportSerial,
    Modem,
    Ieee488,
    SmartCard,
    Other,
}

impl SimpleCommunicationControllerSubclass {
    /// The subclass byte that stands for this member.
    pub open spec fn spec_code(self) -> u8 {
        match self {
            SimpleCommunicationControllerSubclass::Serial => 0x00,
            SimpleCommunicationControllerSubclass::Parallel => 0x01,
            SimpleCommunicationControllerSubclass::MultiportSerial => 0x02,
            SimpleCommunicationControllerSubclass::Modem => 0x03,
            SimpleCommunicationControllerSubclass::Ieee488 => 0x04,
            SimpleCommunicationControllerSubclass::SmartCard => 0x05,
            SimpleCommunicationControllerSubclass::Other => 0x80,
        }
    }

    /// The member that a subclass byte stands for, if any.
    pub open spec fn spec_from_code(code: u8) -> Option<SimpleCommunicationControllerSubclass> {
        if code == 0x00 {
            Some(SimpleCommunicationControllerSubclass::Serial)
        } else if code == 0x01 {
            Some(SimpleCommunicationControllerSubclass::Parallel)
        } else if code == 0x02 {
            Some(SimpleCommunicationControllerSubclass::MultiportSerial)
        } else if code == 0x03 {
            Some(SimpleCommunicationControllerSubclass::Modem)
        } else if code == 0x04 {
            Some(SimpleCommunicationControllerSubclass::Ieee488)
        } else if code == 0x05 {
            Some(SimpleCommunicationControllerSubclass::SmartCard)
        } else if code == 0x80 {
            Some(SimpleCommunicationControllerSubclass::Other)
        } else {
            None
        }
    }

    /// The subclass byte that stands for this member.
    #[verifier::when_used_as_spec(spec_code)]
    pub fn code(self) -> (r: u8)
        ensures
            r == self.spec_code(),
            Self::spec_from_code(r) == Some(self),
    {
        match self {
            SimpleCommunicationControllerSubclass::Serial => 0x00,
            SimpleCommunicationControllerSubclass::Parallel => 0x01,
            SimpleCommunicationControllerSubclass::MultiportSerial => 0x02,
            SimpleCommunicationControllerSubclass::Modem => 0x03,
            SimpleCommunicationControllerSubclass::Ieee488 => 0x04,
            SimpleCommunicationControllerSubclass::SmartCard => 0x05,
            SimpleCommunicationControllerSubclass::Other => 0x80,
        }
    }

    /// The member that a subclass byte stands for, if any.
    #[verifier::when_used_as_spec(spec_from_code)]
    pub fn from_code(code: u8) -> (r: Option<SimpleCommunicationControllerSubclass>)
        ensures
            r == Self::spec_from_code(code),
            r matches Some(member) ==> member.spec_code() == code,
    {
        match code {
            0x00 => Some(SimpleCommunicationControllerSubclass::Serial),
            0x01 => Some(SimpleCommunicationControllerSubclass::Parallel),
            0x02 => Some(SimpleCommunicationControllerSubclass::MultiportSerial),
            0x03 => Some(SimpleCommunicationControllerSubclass::Modem),
            0x04 => Some(SimpleCommunicationControllerSubclass::Ieee488),
            0x05 => Some(SimpleCommunicationControllerSubclass::SmartCard),
            0x80 => Some(SimpleCommunicationControllerSubclass::Other),
            _ => None,
        }
    }
}

/// The members of the family `BaseSystemPeripheral`.
#[derive(Clone, Copy, Debug, PartialEq, Eq)]
pub enum BaseSystemPeripheralSubclass {
    Pic,
    DmaController,
    Timer,
    RtcController,
    PciHotPlugController,
    SdHostController,
    Iommu,
    Other,
}

impl BaseSystemPeripheralSubclass {
    /// The subclass byte that stands for this member.
    pub open spec fn spec_code(self) -> u8 {
        match self {
            BaseSystemPeripheralSubclass::Pic => 0x00,
            BaseSystemPeripheralSubclass::DmaController => 0x01,
            BaseSystemPeripheralSubclass::Timer => 0x02,
            BaseSystemPeripheralSubclass::RtcController => 0x03,
            BaseSystemPeripheralSubclass::PciHotPlugController => 0x04,
            BaseSystemPeripheralSubclass::SdHostController => 0x05,
            BaseSystemPeripheralSubclass::Iommu => 0x06,
            BaseSystemPeripheralSubclass::Other => 0x80,
        }
    }

    /// The member that a subclass byte stands for, if any.
    pub open spec fn spec_from_code(code: u8) -> Option<BaseSystemPeripheralSubclass> {
        if code == 0x00 {
            Some(BaseSystemPeripheralSubclass::Pic)
        } else if code == 0x01 {
            Some(BaseSystemPeripheralSubclass::DmaController)
        } else if code == 0x02 {
            Some(BaseSystemPeripheralSubclass::Timer)
        } else if code == 0x03 {
            Some(BaseSystemPeripheralSubclass::RtcController)
        } else if code == 0x04 {
            Some(BaseSystemPeripheralSubclass::PciHotPlugController)
        } else if code == 0x05 {
            Some(BaseSystemPeripheralSubclass::SdHostController)
        } else if code == 0x06 {
            Some(BaseSystemPeripheralSubclass::Iommu)
        } else if code == 0x80 {
            Some(BaseSystemPeripheralSubclass::Other)
        } else {
            None
        }
    }

    /// The subclass byte that stands for this member.
    #[verifier::when_used_as_spec(spec_code)]
    pub fn code(self) -> (r: u8)
        ensures
            r == self.spec_code(),
            Self::spec_from_code(r) == Some(self),
    {
        match self {
            BaseSystemPeripheralSubclass::Pic => 0x00,
            BaseSystemPeripheralSubclass::DmaController => 0x01,
            BaseSystemPeripheralSubclass::Timer => 0x02,
            BaseSystemPeripheralSubclass::RtcController => 0x03,
            BaseSystemPeripheralSubclass::PciHotPlugController => 0x04,
            BaseSystemPeripheralSubclass::SdHostController => 0x05,
            BaseSystemPeripheralSubclass::Iommu => 0x06,
            BaseSystemPeripheralSubclass::Other => 0x80,
        }
    }

    /// The member that a subclass byte stands for, if any.
    #[verifier::when_used_as_spec(spec_from_code)]
    pub fn from_code(code: u8) -> (r: Option<BaseSystemPeripheralSubclass>)
        ensures
            r == Self::spec_from_code(code),
            r matches Some(member) ==> member.spec_code() == code,
    {
        match code {
            0x00 => Some(BaseSystemPeripheralSubclass::Pic),
            0x01 => Some(BaseSystemPeripheralSubclass::DmaController),
            0x02 => Some(BaseSystemPeripheralSubclass::Timer),
            0x03 => Some(BaseSystemPeripheralSubclass::RtcController),
            0x04 => Some(BaseSystemPeripheralSubclass::PciHotPlugController),
            0x05 => Some(BaseSystemPeripheralSubclass::SdHostController),
            0x06 => Some(BaseSystemPeripheralSubclass::Iommu),
            0x80 => Some(BaseSystemPeripheralSubclass::Other),
            _ => None,
        }
    }
}

/// The members of the family `InputDeviceController`.
#[derive(Clone, Copy, Debug, PartialEq, Eq)]
pub enum InputDeviceControllerSubclass {
    Keyboard,
    DigitizerPen,
    Mouse,
    Scanner,
    Gameport,
    Other,
}

impl InputDeviceControllerSubclass {
    /// The subclass byte that stands for this member.
    pub open spec fn spec_code(self) -> u8 {
        match self {
            InputDeviceControllerSubclass::Keyboard => 0x00,
            InputDeviceControllerSubclass::DigitizerPen => 0x01,
            InputDeviceControllerSubclass::Mouse => 0x02,
            InputDeviceControllerSubclass::Scanner => 0x03,
            InputDeviceControllerSubclass::Gameport => 0x04,
            InputDeviceControllerSubclass::Other => 0x80,
        }
    }

    /// The member that a subclass byte stands for, if any.
    pub open spec fn spec_from_code(code: u8) -> Option<InputDeviceControllerSubclass> {
        if code == 0x00 {
            Some(InputDeviceControllerSubclass::Keyboard)
        } else if code == 0x01 {
            Some(InputDeviceControllerSubclass::DigitizerPen)
        } else if code == 0x02 {
            Some(InputDeviceControllerSubclass::Mouse)
        } else if code == 0x03 {
            Some(InputDeviceControllerSubclass::Scanner)
        } else if code == 0x04 {
            Some(InputDeviceControllerSubclass::Gameport)
        } else if code == 0x80 {
            Some(InputDeviceControllerSubclass::Other)
        } else {
            None
        }
    }

    /// The subclass byte that stands for this member.
    #[verifier::when_used_as_spec(spec_code)]
    pub fn code(self) -> (r: u8)
        ensures
            r == self.spec_code(),
            Self::spec_from_code(r) == Some(self),
    {
        match self {
            InputDeviceControllerSubclass::Keyboard => 0x00,
            InputDeviceControllerSubclass::DigitizerPen => 0x01,
            InputDeviceControllerSubclass::Mouse => 0x02,
            InputDeviceControllerSubclass::Scanner => 0x03,
            InputDeviceControllerSubclass::Gameport => 0x04,
            InputDeviceControllerSubclass::Other => 0x80,
        }
    }

    /// The member that a subclass byte stands for, if any.
    #[verifier::when_used_as_spec(spec_from_code)]
    pub fn from_code(code: u8) -> (r: Option<InputDeviceControllerSubclass>)
        ensures
            r == Self::spec_from_code(code),
            r matches Some(member) ==> member.spec_code() == code,
    {
        match code {
            0x00 => Some(InputDeviceControllerSubclass::Keyboard),
            0x01 => Some(InputDeviceControllerSubclass::DigitizerPen),
            0x02 => Some(InputDeviceControllerSubclass::Mouse),
            0x03 => Some(InputDeviceControllerSubclass::Scanner),
            0x04 => Some(InputDeviceControllerSubclass::Gameport),
            0x80 => Some(InputDeviceControllerSubclass::Other),
            _ => None,
        }
    }
}

/// The members of the family `DockingStation`.
#[derive(Clone, Copy, Debug, PartialEq, Eq)]
pub enum DockingStationSubclass {
    Generic,
    Other,
}

impl DockingStationSubclass {
    /// The subclass byte that stands for this member.
    pub open spec fn spec_code(self) -> u8 {
        match self {
            DockingStationSubclass::Generic => 0x01,
            DockingStationSubclass::Other => 0x80,
        }
    }

    /// The member that a subclass byte stands for, if any.
    pub open spec fn spec_from_code(code: u8) -> Option<DockingStationSubclass> {
        if code == 0x01 {
            Some(DockingStationSubclass::Generic)
        } else if code == 0x80 {
            Some(DockingStationSubclass::Other)
        } else {
            None
        }
    }

    /// The subclass byte that stands for this member.
    #[verifier::when_used_as_spec(spec_code)]
    pub fn code(self) -> (r: u8)
        ensures
            r == self.spec_code(),
            Self::spec_from_code(r) == Some(self),
    {
        match self {
            DockingStationSubclass::Generic => 0x01,
            DockingStationSubclass::Other => 0x80,
        }
    }

    /// The member that a subclass byte stands for, if any.
    #[verifier::when_used_as_spec(spec_from_code)]
    pub fn from_code(code: u8) -> (r: Option<DockingStationSubclass>)
        ensures
            r == Self::spec_from_code(code),
            r matches Some(member) ==> member.spec_code() == code,
    {
        match code {
            0x01 => Some(DockingStationSubclass::Generic),
            0x80 => Some(DockingStationSubclass::Other),
            _ => None,
        }
    }
}

/// The members of the family `Processor`.
#[derive(Clone, Copy, Debug, PartialEq, Eq)]
pub enum ProcessorSubclass {
    Processor386,
    Processor486,
    Pentium,
    PentiumPro,
    Alpha,
    PowerPc,
    Mips,
    CoProcessor,
    Other,
}

impl ProcessorSubclass {
    /// The subclass byte that stands for this member.
    pub open spec fn spec_code(self) -> u8 {
        match self {
            ProcessorSubclass::Processor386 => 0x00,
            ProcessorSubclass::Processor486 => 0x01,
            ProcessorSubclass::Pentium => 0x02,
            ProcessorSubclass::PentiumPro => 0x03,
            ProcessorSubclass::Alpha => 0x10,
            ProcessorSubclass::PowerPc => 0x20,
            ProcessorSubclass::Mips => 0x30,
            ProcessorSubclass::CoProcessor => 0x40,
            ProcessorSubclass::Other => 0x80,
        }
    }

    /// The member that a subclass byte stands for, if any.
    pub open spec fn spec_from_code(code: u8) -> Option<ProcessorSubclass> {
        if code == 0x00 {
            Some(ProcessorSubclass::Processor386)
        } else if code == 0x01 {
            Some(ProcessorSubclass::Processor486)
        } else if code == 0x02 {
            Some(ProcessorSubclass::Pentium)
        } else if code == 0x03 {
            Some(ProcessorSubclass::PentiumPro)
        } else if code == 0x10 {
            Some(ProcessorSubclass::Alpha)
        } else if code == 0x20 {
            Some(ProcessorSubclass::PowerPc)
        } else if code == 0x30 {
            Some(ProcessorSubclass::Mips)
        } else if code == 0x40 {
            Some(ProcessorSubclass::CoProcessor)
        } else if code == 0x80 {
            Some(ProcessorSubclass::Other)
        } else {
            None
        }
    }

    /// The subclass byte that stands for this member.
    #[verifier::when_used_as_spec(spec_code)]
    pub fn code(self) -> (r: u8)
        ensures
            r == self.spec_code(),
            Self::spec_from_code(r) == Some(self),
    {
        match self {
            ProcessorSubclass::Processor386 => 0x00,
            ProcessorSubclass::Processor486 => 0x01,
            ProcessorSubclass::Pentium => 0x02,
            ProcessorSubclass::PentiumPro => 0x03,
            ProcessorSubclass::Alpha => 0x10,
            ProcessorSubclass::PowerPc => 0x20,
            ProcessorSubclass::Mips => 0x30,
            ProcessorSubclass::CoProcessor => 0x40,
            ProcessorSubclass::Other => 0x80,
        }
    }

    /// The member that a subclass byte stands for, if any.
    #[verifier::when_used_as_spec(spec_from_code)]
    pub fn from_code(code: u8) -> (r: Option<ProcessorSubclass>)
        ensures
            r == Self::spec_from_code(code),
            r matches Some(member) ==> member.spec_code() == code,
    {
        match code {
            0x00 => Some(ProcessorSubclass::Processor386),
            0x01 => Some(ProcessorSubclass::Processor486),
            0x02 => Some(ProcessorSubclass::Pentium),
            0x03 => Some(ProcessorSubclass::PentiumPro),
            0x10 => Some(ProcessorSubclass::Alpha),
            0x20 => Some(ProcessorSubclass::PowerPc),
            0x30 => Some(ProcessorSubclass::Mips),
            0x40 => Some(ProcessorSubclass::CoProcessor),
            0x80 => Some(ProcessorSubclass::Other),
            _ => None,
        }
    }
}

/// The members of the family `SerialBusController`.
#[derive(Clone, Copy, Debug, PartialEq, Eq)]
pub enum SerialBusControllerSubclass {
    FireWire,
    AccessBus,
    Ssa,
    UsbController,
    Fibre,
    SmBus,
    Infiniband,
    Ipmi,
    Sercos,
    CanBus,
    Other,
}

impl SerialBusControllerSubclass {
    /// The subclass byte that stands for this member.
    pub open spec fn spec_code(self) -> u8 {
        match self {
            SerialBusControllerSubclass::FireWire => 0x00,
            SerialBusControllerSubclass::AccessBus => 0x01,
            SerialBusControllerSubclass::Ssa => 0x02,
            SerialBusControllerSubclass::UsbController => 0x03,
            SerialBusControllerSubclass::Fibre => 0x04,
            SerialBusControllerSubclass::SmBus => 0x05,
            SerialBusControllerSubclass::Infiniband => 0x06,
            SerialBusControllerSubclass::Ipmi => 0x07,
            SerialBusControllerSubclass::Sercos => 0x08,
            SerialBusControllerSubclass::CanBus => 0x09,
            SerialBusControllerSubclass::Other => 0x80,
        }
    }

    /// The member that a subclass byte stands for, if any.
    pub open spec fn spec_from_code(code: u8) -> Option<SerialBusControllerSubclass> {
        if code == 0x00 {
            Some(SerialBusControllerSubclass::FireWire)
        } else if code == 0x01 {
            Some(SerialBusControllerSubclass::AccessBus)
        } else if code == 0x02 {
            Some(SerialBusControllerSubclass::Ssa)
        } else if code == 0x03 {
            Some(SerialBusControllerSubclass::UsbController)
        } else if code == 0x04 {
            Some(SerialBusControllerSubclass::Fibre)
        } else if code == 0x05 {
            Some(SerialBusControllerSubclass::SmBus)
        } else if code == 0x06 {
            Some(SerialBusControllerSubclass::Infiniband)
        } else if code == 0x07 {
            Some(SerialBusControllerSubclass::Ipmi)
        } else if code == 0x08 {
            Some(SerialBusControllerSubclass::Sercos)
        } else if code == 0x09 {
            Some(SerialBusControllerSubclass::CanBus)
        } else if code == 0x80 {
            Some(SerialBusControllerSubclass::Other)
        } else {
            None
        }
    }

    /// The subclass byte that stands for this member.
    #[verifier::when_used_as_spec(spec_code)]
    pub fn code(self) -> (r: u8)
        ensures
            r == self.spec_code(),
            Self::spec_from_code(r) == Some(self),
    {
        match self {
            SerialBusControllerSubclass::FireWire => 0x00,
            SerialBusControllerSubclass::AccessBus => 0x01,
            SerialBusControllerSubclass::Ssa => 0x02,
            SerialBusControllerSubclass::UsbController => 0x03,
            SerialBusControllerSubclass::Fibre => 0x04,
            SerialBusControllerSubclass::SmBus => 0x05,
            SerialBusControllerSubclass::Infiniband => 0x06,
            SerialBusControllerSubclass::Ipmi => 0x07,
            SerialBusControllerSubclass::Sercos => 0x08,
            SerialBusControllerSubclass::CanBus => 0x09,
            SerialBusControllerSubclass::Other => 0x80,
        }
    }

    /// The member that a subclass byte stands for, if any.
    #[verifier::when_used_as_spec(spec_from_code)]
    pub fn from_code(code: u8) -> (r: Option<SerialBusControllerSubclass>)
        ensures
            r == Self::spec_from_code(code),
            r matches Some(member) ==> member.spec_code() == code,
    {
        match code {
            0x00 => Some(SerialBusControllerSubclass::FireWire),
            0x01 => Some(SerialBusControllerSubclass::AccessBus),
            0x02 => Some(SerialBusControllerSubclass::Ssa),
            0x03 => Some(SerialBusControllerSubclass::UsbController),
            0x04 => Some(SerialBusControllerSubclass::Fibre),
            0x05 => Some(SerialBusControllerSubclass::SmBus),
            0x06 => Some(SerialBusControllerSubclass::Infiniband),
            0x07 => Some(SerialBusControllerSubclass::Ipmi),
            0x08 => Some(SerialBusControllerSubclass::Sercos),
            0x09 => Some(SerialBusControllerSubclass::CanBus),
            0x80 => Some(SerialBusControllerSubclass::Other),
            _ => None,
        }
    }
}

/// The members of the family `WirelessController`.
#[derive(Clone, Copy, Debug, PartialEq, Eq)]
pub enum WirelessControllerSubclass {
    IRdaCompatible,
    ConsumerIr,
    Rf,
    Bluetooth,
    Broadband,
    Ethernet8021a,
    Ethernet8021b,
    Other,
}

impl WirelessControllerSubclass {
    /// The subclass byte that stands for this member.
    pub open spec fn spec_code(self) -> u8 {
        match self {
            WirelessControllerSubclass::IRdaCompatible => 0x00,
            WirelessControllerSubclass::ConsumerIr => 0x01,
            WirelessControllerSubclass::Rf => 0x10,
            WirelessControllerSubclass::Bluetooth => 0x11,
            WirelessControllerSubclass::Broadband => 0x12,
            WirelessControllerSubclass::Ethernet8021a => 0x20,
            WirelessControllerSubclass::Ethernet8021b => 0x21,
            WirelessControllerSubclass::Other => 0x80,
        }
    }

    /// The member that a subclass byte stands for, if any.
    pub open spec fn spec_from_code(code: u8) -> Option<WirelessControllerSubclass> {
        if code == 0x00 {
            Some(WirelessControllerSubclass::IRdaCompatible)
        } else if code == 0x01 {
            Some(WirelessControllerSubclass::ConsumerIr)
        } else if code == 0x10 {
            Some(WirelessControllerSubclass::Rf)
        } else if code == 0x11 {
            Some(WirelessControllerSubclass::Bluetooth)
        } else if code == 0x12 {
            Some(WirelessControllerSubclass::Broadband)
        } else if code == 0x20 {
            Some(WirelessControllerSubclass::Ethernet8021a)
        } else if code == 0x21 {
            Some(WirelessControllerSubclass::Ethernet8021b)
        } else if code == 0x80 {
            Some(WirelessControllerSubclass::Other)
        } else {
            None
        }
    }

    /// The subclass byte that stands for this member.
    #[verifier::when_used_as_spec(spec_code)]
    pub fn code(self) -> (r: u8)
        ensures
            r == self.spec_code(),
            Self::spec_from_code(r) == Some(self),
    {
        match self {
            WirelessControllerSubclass::IRdaCompatible => 0x00,
            WirelessControllerSubclass::ConsumerIr => 0x01,
            WirelessControllerSubclass::Rf => 0x10,
            WirelessControllerSubclass::Bluetooth => 0x11,
            WirelessControllerSubclass::Broadband => 0x12,
            WirelessControllerSubclass::Ethernet8021a => 0x20,
            WirelessControllerSubclass::Ethernet8021b => 0x21,
            WirelessControllerSubclass::Other => 0x80,
        }
    }

    /// The member that a subclass byte stands for, if any.
    #[verifier::when_used_as_spec(spec_from_code)]
    pub fn from_code(code: u8) -> (r: Option<WirelessControllerSubclass>)
        ensures
            r == Self::spec_from_code(code),
            r matches Some(member) ==> member.spec_code() == code,
    {
        match code {
            0x00 => Some(WirelessControllerSubclass::IRdaCompatible),
            0x01 => Some(WirelessControllerSubclass::ConsumerIr),
            0x10 => Some(WirelessControllerSubclass::Rf),
            0x11 => Some(WirelessControllerSubclass::Bluetooth),
            0x12 => Some(WirelessControllerSubclass::Broadband),
            0x20 => Some(WirelessControllerSubclass::Ethernet8021a),
            0x21 => Some(WirelessControllerSubclass::Ethernet8021b),
            0x80 => Some(WirelessControllerSubclass::Other),
            _ => None,
        }
    }
}

/// The members of the family `IntelligentController`.
#[derive(Clone, Copy, Debug, PartialEq, Eq)]
pub enum IntelligentControllerSubclass {
    I20,
}

impl IntelligentControllerSubclass {
    /// The subclass byte that stands for this member.
    pub open spec fn spec_code(self) -> u8 {
        match self {
            IntelligentControllerSubclass::I20 => 0x80,
        }
    }

    /// The member that a subclass byte stands for, if any.
    pub open spec fn spec_from_code(code: u8) -> Option<IntelligentControllerSubclass> {
        if code == 0x80 {
            Some(IntelligentControllerSubclass::I20)
        } else {
            None
        }
    }

    /// The subclass byte that stands for this member.
    #[verifier::when_used_as_spec(spec_code)]
    pub fn code(self) -> (r: u8)
        ensures
            r == self.spec_code(),
            Self::spec_from_code(r) == Some(self),
    {
        match self {
            IntelligentControllerSubclass::I20 => 0x80,
        }
    }

    /// The member that a subclass byte stands for, if any.
    #[verifier::when_used_as_spec(spec_from_code)]
    pub fn from_code(code: u8) -> (r: Option<IntelligentControllerSubclass>)
        ensures
            r == Self::spec_from_code(code),
            r matches Some(member) ==> member.spec_code() == code,
    {
        match code {
            0x80 => Some(IntelligentControllerSubclass::I20),
            _ => None,
        }
    }
}

/// The members of the family `SatelliteCommunicationController`.
#[derive(Clone, Copy, Debug, PartialEq, Eq)]
pub enum SatelliteCommunicationControllerSubclass {
    Tv,
    Audio,
    Voice,
    Data,
}

impl SatelliteCommunicationControllerSubclass {
    /// The subclass byte that stands for this member.
    pub open spec fn spec_code(self) -> u8 {
        match self {
            SatelliteCommunicationControllerSubclass::Tv => 0x01,
            SatelliteCommunicationControllerSubclass::Audio => 0x02,
            SatelliteCommunicationControllerSubclass::Voice => 0x03,
            SatelliteCommunicationControllerSubclass::Data => 0x04,
        }
    }

    /// The member that a subclass byte stands for, if any.
    pub open spec fn spec_from_code(code: u8) -> Option<SatelliteCommunicationControllerSubclass> {
        if code == 0x01 {
            Some(SatelliteCommunicationControllerSubclass::Tv)
        } else if code == 0x02 {
            Some(SatelliteCommunicationControllerSubclass::Audio)
        } else if code == 0x03 {
            Some(SatelliteCommunicationControllerSubclass::Voice)
        } else if code == 0x04 {
            Some(SatelliteCommunicationControllerSubclass::Data)
        } else {
            None
        }
    }

    /// The subclass byte that stands for this member.
    #[verifier::when_used_as_spec(spec_code)]
    pub fn code(self) -> (r: u8)
        ensures
            r == self.spec_code(),
            Self::spec_from_code(r) == Some(self),
    {
        match self {
            SatelliteCommunicationControllerSubclass::Tv => 0x01,
            SatelliteCommunicationControllerSubclass::Audio => 0x02,
            SatelliteCommunicationControllerSubclass::Voice => 0x03,
            SatelliteCommunicationControllerSubclass::Data => 0x04,
        }
    }

    /// The member that a subclass byte stands for, if any.
    #[verifier::when_used_as_spec(spec_from_code)]
    pub fn from_code(code: u8) -> (r: Option<SatelliteCommunicationControllerSubclass>)
        ensures
            r == Self::spec_from_code(code),
            r matches Some(member) ==> member.spec_code() == code,
    {
        match code {
            0x01 => Some(SatelliteCommunicationControllerSubclass::Tv),
            0x02 => Some(SatelliteCommunicationControllerSubclass::Audio),
            0x03 => Some(SatelliteCommunicationControllerSubclass::Voice),
            0x04 => Some(SatelliteCommunicationControllerSubclass::Data),
            _ => None,
        }
    }
}

/// The members of the family `EncryptionController`.
#[derive(Clone, Copy, Debug, PartialEq, Eq)]
pub enum EncryptionControllerSubclass {
    NetworkAndComputing,
    Entertainment,
    Other,
}

impl EncryptionControllerSubclass {
    /// The subclass byte that stands for this member.
    pub open spec fn spec_code(self) -> u8 {
        match self {
            EncryptionControllerSubclass::NetworkAndComputing => 0x00,
            EncryptionControllerSubclass::Entertainment => 0x10,
            EncryptionControllerSubclass::Other => 0x80,
        }
    }

    /// The member that a subclass byte stands for, if any.
    pub open spec fn spec_from_code(code: u8) -> Option<EncryptionControllerSubclass> {
        if code == 0x00 {
            Some(EncryptionControllerSubclass::NetworkAndComputing)
        } else if code == 0x10 {
            Some(EncryptionControllerSubclass::Entertainment)
        } else if code == 0x80 {
            Some(EncryptionControllerSubclass::Other)
        } else {
            None
        }
    }

    /// The subclass byte that stands for this member.
    #[verifier::when_used_as_spec(spec_code)]
    pub fn code(self) -> (r: u8)
        ensures
            r == self.spec_code(),
            Self::spec_from_code(r) == Some(self),
    {
        match self {
            EncryptionControllerSubclass::NetworkAndComputing => 0x00,
            EncryptionControllerSubclass::Entertainment => 0x10,
            EncryptionControllerSubclass::Other => 0x80,
        }
    }

    /// The member that a subclass byte stands for, if any.
    #[verifier::when_used_as_spec(spec_from_code)]
    pub fn from_code(code: u8) -> (r: Option<EncryptionControllerSubclass>)
        ensures
            r == Self::spec_from_code(code),
            r matches Some(member) ==> member.spec_code() == code,
    {
        match code {
            0x00 => Some(EncryptionControllerSubclass::NetworkAndComputing),
            0x10 => Some(EncryptionControllerSubclass::Entertainment),
            0x80 => Some(EncryptionControllerSubclass::Other),
            _ => None,
        }
    }
}

/// The members of the family `SignalProcessingController`.
#[derive(Clone, Copy, Debug, PartialEq, Eq)]
pub enum SignalProcessingControllerSubclass {
    DpioModules,
    PerformaceCounters,
    CommunicationSynchronizer,
    SignalProcessingManagement,
    Other,
}

impl SignalProcessingControllerSubclass {
    /// The subclass byte that stands for this member.
    pub open spec fn spec_code(self) -> u8 {
        match self {
            SignalProcessingControllerSubclass::DpioModules => 0x00,
            SignalProcessingControllerSubclass::PerformaceCounters => 0x01,
            SignalProcessingControllerSubclass::CommunicationSynchronizer => 0x10,
            SignalProcessingControllerSubclass::SignalProcessingManagement => 0x20,
            SignalProcessingControllerSubclass::Other => 0x80,
        }
    }

    /// The member that a subclass byte stands for, if any.
    pub open spec fn spec_from_code(code: u8) -> Option<SignalProcessingControllerSubclass> {
        if code == 0x00 {
            Some(SignalProcessingControllerSubclass::DpioModules)
        } else if code == 0x01 {
            Some(SignalProcessingControllerSubclass::PerformaceCounters)
        } else if code == 0x10 {
            Some(SignalProcessingControllerSubclass::CommunicationSynchronizer)
        } else if code == 0x20 {
            Some(SignalProcessingControllerSubclass::SignalProcessingManagement)
        } else if code == 0x80 {
            Some(SignalProcessingControllerSubclass::Other)
        } else {
            None
        }
    }

    /// The subclass byte that stands for this member.
    #[verifier::when_used_as_spec(spec_code)]
    pub fn code(self) -> (r: u8)
        ensures
            r == self.spec_code(),
            Self::spec_from_code(r) == Some(self),
    {
        match self {
            SignalProcessingControllerSubclass::DpioModules => 0x00,
            SignalProcessingControllerSubclass::PerformaceCounters => 0x01,
            SignalProcessingControllerSubclass::CommunicationSynchronizer => 0x10,
            SignalProcessingControllerSubclass::SignalProcessingManagement => 0x20,
            SignalProcessingControllerSubclass::Other => 0x80,
        }
    }

    /// The member that a subclass byte stands for, if any.
    #[verifier::when_used_as_spec(spec_from_code)]
    pub fn from_code(code: u8) -> (r: Option<SignalProcessingControllerSubclass>)
        ensures
            r == Self::spec_from_code(code),
            r matches Some(member) ==> member.spec_code() == code,
    {
        match code {
            0x00 => Some(SignalProcessingControllerSubclass::DpioModules),
            0x01 => Some(SignalProcessingControllerSubclass::PerformaceCounters),
            0x10 => Some(SignalProcessingControllerSubclass::CommunicationSynchronizer),
            0x20 => Some(SignalProcessingControllerSubclass::SignalProcessingManagement),
            0x80 => Some(SignalProcessingControllerSubclass::Other),
            _ => None,
        }
    }
}

/// The class of a PCI device, with its subclass where the class has any.
#[derive(Clone, Copy, Debug, PartialEq, Eq)]
pub enum Class {
    /// A device from before classes were defined.
    Unclassified(UnclassifiedSubclass),
    /// A controller of disks or other storage.
    MassStorageController(MassStorageControllerSubclass),
    /// A network controller.
    NetworkController(NetworkControllerSubclass),
    /// A display controller.
    DisplayController(DisplayControllerSubclass),
    /// A multimedia controller.
    MultimediaController(MultimediaControllerSubclass),
    /// A memory controller.
    MemoryController(MemoryControllerSubclass),
    /// A bridge to another bus.
    Bridge(BridgeSubclass),
    /// A serial, parallel or similar controller.
    SimpleCommunicationController(SimpleCommunicationControllerSubclass),
    /// A peripheral of the base system.
    BaseSystemPeripheral(BaseSystemPeripheralSubclass),
    /// A controller of input devices.
    InputDeviceController(InputDeviceControllerSubclass),
    /// A docking station.
    DockingStation(DockingStationSubclass),
    /// A processor.
    Processor(ProcessorSubclass),
    /// A controller of a serial bus.
    SerialBusController(SerialBusControllerSubclass),
    /// A wireless controller.
    WirelessController(WirelessControllerSubclass),
    /// An intelligent I/O controller.
    IntelligentController(IntelligentControllerSubclass),
    /// A satellite communication controller.
    SatelliteCommunicationController(SatelliteCommunicationControllerSubclass),
    /// An encryption controller.
    EncryptionController(EncryptionControllerSubclass),
    /// A signal processing controller.
    SignalProcessingController(SignalProcessingControllerSubclass),
    /// A processing accelerator.
    ProcessingController,
    /// Instrumentation that the system can do without.
    NonEssentialInstrumentation,
    /// A co-processor.
    CoProcessor,
    /// A device that fits no class.
    Unassigned,
}

/// Wraps a member of a family, if there is one, as a class.
pub open spec fn in_family<S>(member: Option<S>, family: spec_fn(S) -> Class) -> Option<Class> {
    match member {
        Some(m) => Some(family(m)),
        None => None,
    }
}

impl Class {
    /// The class that a class byte and a subclass byte stand for, if any.
    ///
    /// Class bytes 0 to 15 pick the first sixteen families in the order of
    /// the variants, and 16 picks `SignalProcessingController`; the subclass
    /// byte is then read by the family's table. Class bytes 17, 18, 0x40 and
    /// 0xFF stand for `ProcessingController`, `NonEssentialInstrumentation`,
    /// `CoProcessor` and `Unassigned`, whatever the subclass byte. No other
    /// class byte stands for anything, and no pair of bytes stands for an
    /// `EncryptionController`.
    pub open spec fn spec_from_bytes(class: u8, subclass: u8) -> Option<Class> {
        if class == 0 {
            in_family(UnclassifiedSubclass::spec_from_code(subclass), |m: UnclassifiedSubclass| Class::Unclassified(m))
        } else if class == 1 {
            in_family(MassStorageControllerSubclass::spec_from_code(subclass), |m: MassStorageControllerSubclass| Class::MassStorageController(m))
        } else if class == 2 {
            in_family(NetworkControllerSubclass::spec_from_code(subclass), |m: NetworkControllerSubclass| Class::NetworkController(m))
        } else if class == 3 {
            in_family(DisplayControllerSubclass::spec_from_code(subclass), |m: DisplayControllerSubclass| Class::DisplayController(m))
        } else if class == 4 {
            in_family(MultimediaControllerSubclass::spec_from_code(subclass), |m: MultimediaControllerSubclass| Class::MultimediaController(m))
        } else if class == 5 {
            in_family(MemoryControllerSubclass::spec_from_code(subclass), |m: MemoryControllerSubclass| Class::MemoryController(m))
        } else if class == 6 {
            in_family(BridgeSubclass::spec_from_code(subclass), |m: BridgeSubclass| Class::Bridge(m))
        } else if class == 7 {
            in_family(SimpleCommunicationControllerSubclass::spec_from_code(subclass), |m: SimpleCommunicationControllerSubclass| Class::SimpleCommunicationController(m))
        } else if class == 8 {
            in_family(BaseSystemPeripheralSubclass::spec_from_code(subclass), |m: BaseSystemPeripheralSubclass| Class::BaseSystemPeripheral(m))
        } else if class == 9 {
            in_family(InputDeviceControllerSubclass::spec_from_code(subclass), |m: InputDeviceControllerSubclass| Class::InputDeviceController(m))
        } else if class == 10 {
            in_family(DockingStationSubclass::spec_from_code(subclass), |m: DockingStationSubclass| Class::DockingStation(m))
        } else if class == 11 {
            in_family(ProcessorSubclass::spec_from_code(subclass), |m: ProcessorSubclass| Class::Processor(m))
        } else if class == 12 {
            in_family(SerialBusControllerSubclass::spec_from_code(subclass), |m: SerialBusControllerSubclass| Class::SerialBusController(m))
        } else if class == 13 {
            in_family(WirelessControllerSubclass::spec_from_code(subclass), |m: WirelessControllerSubclass| Class::WirelessController(m))
        } else if class == 14 {
            in_family(IntelligentControllerSubclass::spec_from_code(subclass), |m: IntelligentControllerSubclass| Class::IntelligentController(m))
        } else if class == 15 {
            in_family(SatelliteCommunicationControllerSubclass::spec_from_code(subclass), |m: SatelliteCommunicationControllerSubclass| Class::SatelliteCommunicationController(m))
        } else if class == 16 {
            in_family(SignalProcessingControllerSubclass::spec_from_code(subclass), |m: SignalProcessingControllerSubclass| Class::SignalProcessingController(m))
        } else if class == 17 {
            Some(Class::ProcessingController)
        } else if class == 18 {
            Some(Class::NonEssentialInstrumentation)
        } else if class == 0x40 {
            Some(Class::CoProcessor)
        } else if class == 0xFF {
            Some(Class::Unassigned)
        } else {
            None
        }
    }

    /// Names the class that a device reports in its class byte and its
    /// subclass byte. `None` when the pair stands for no class.
    #[verifier::when_used_as_spec(spec_from_bytes)]
    pub fn from_bytes(class: u8, subclass: u8) -> (r: Option<Class>)
        ensures
            r == Self::spec_from_bytes(class, subclass),
    {
        match class {
            0 => match UnclassifiedSubclass::from_code(subclass) {
                Some(member) => Some(Class::Unclassified(member)),
                None => None,
            },
            1 => match MassStorageControllerSubclass::from_code(subclass) {
                Some(member) => Some(Class::MassStorageController(member)),
                None => None,
            },
            2 => match NetworkControllerSubclass::from_code(subclass) {
                Some(member) => Some(Class::NetworkController(member)),
                None => None,
            },
            3 => match DisplayControllerSubclass::from_code(subclass) {
                Some(member) => Some(Class::DisplayController(member)),
                None => None,
            },
            4 => match MultimediaControllerSubclass::from_code(subclass) {
                Some(member) => Some(Class::MultimediaController(member)),
                None => None,
            },
            5 => match MemoryControllerSubclass::from_code(subclass) {
                Some(member) => Some(Class::MemoryController(member)),
                None => None,
            },
            6 => match BridgeSubclass::from_code(subclass) {
                Some(member) => Some(Class::Bridge(member)),
                None => None,
            },
            7 => match SimpleCommunicationControllerSubclass::from_code(subclass) {
                Some(member) => Some(Class::SimpleCommunicationController(member)),
                None => None,
            },
            8 => match BaseSystemPeripheralSubclass::from_code(subclass) {
                Some(member) => Some(Class::BaseSystemPeripheral(member)),
                None => None,
            },
            9 => match InputDeviceControllerSubclass::from_code(subclass) {
                Some(member) => Some(Class::InputDeviceController(member)),
                None => None,
            },
            10 => match DockingStationSubclass::from_code(subclass) {
                Some(member) => Some(Class::DockingStation(member)),
                None => None,
            },
            11 => match ProcessorSubclass::from_code(subclass) {
                Some(member) => Some(Class::Processor(member)),
                None => None,
            },
            12 => match SerialBusControllerSubclass::from_code(subclass) {
                Some(member) => Some(Class::SerialBusController(member)),
                None => None,
            },
            13 => match WirelessControllerSubclass::from_code(subclass) {
                Some(member) => Some(Class::WirelessController(member)),
                None => None,
            },
            14 => match IntelligentControllerSubclass::from_code(subclass) {
                Some(member) => Some(Class::IntelligentController(member)),
                None => None,
            },
            15 => match SatelliteCommunicationControllerSubclass::from_code(subclass) {
                Some(member) => Some(Class::SatelliteCommunicationController(member)),
                None => None,
            },
            16 => match SignalProcessingControllerSubclass::from_code(subclass) {
                Some(member) => Some(Class::SignalProcessingController(member)),
                None => None,
            },
            17 => Some(Class::ProcessingController),
            18 => Some(Class::NonEssentialInstrumentation),
            0x40 => Some(Class::CoProcessor),
            0xFF => Some(Class::Unassigned),
            _ => None,
        }
    }
}

/// The maker of a PCI device.
#[non_exhaustive]
#[derive(Clone, Copy, Debug, PartialEq, Eq)]
pub enum Vendor {
    AdvancedMicroDevices,
}

impl Vendor {
    /// The vendor that an identifier stands for: 0x1022 is Advanced Micro
    /// Devices, and no other identifier is known.
    pub open spec fn spec_try_from(value: u16) -> Result<Vendor, ()> {
        if value == 0x1022 {
            Ok(Vendor::AdvancedMicroDevices)
        } else {
            Err(())
        }
    }

    /// Names the vendor that an identifier stands for.
    #[verifier::when_used_as_spec(spec_try_from)]
    pub fn try_from(value: u16) -> (r: Result<Vendor, ()>)
        ensures
            r == Self::spec_try_from(value),
    {
        match value {
            0x1022 => Ok(Vendor::AdvancedMicroDevices),
            _ => Err(()),
        }
    }
}

/// The layout of the rest of a configuration header.
#[derive(Clone, Copy, Debug, PartialEq, Eq)]
pub enum HeaderType {
    /// The header of an ordinary device.
    General,
    /// The header of a bridge from PCI to PCI.
    PciToPci,
    /// The header of a bridge from PCI to CardBus.
    PciToCardbus,
    Unknown,
}

/// What the header-type byte of a configuration header says.
#[derive(Clone, Copy, Debug, PartialEq, Eq)]
pub struct HeaderMeta {
    /// The device has more than one function.
    pub multi_function: bool,
    /// The layout of the rest of the header.
    pub kind: HeaderType,
}

impl HeaderMeta {
    /// What a header-type byte says: bit 7 tells whether the device has
    /// several functions, and the low two bits give the layout, 0 to 2 in
    /// the order of the variants. A byte whose low two bits are both set
    /// names no layout.
    pub open spec fn spec_try_from(value: u8) -> Result<HeaderMeta, ()> {
        let multi_function = value & 0x80 != 0;
        let kind = value & 0x03;
        if kind == 0 {
            Ok(HeaderMeta { multi_function, kind: HeaderType::General })
        } else if kind == 1 {
            Ok(HeaderMeta { multi_function, kind: HeaderType::PciToPci })
        } else if kind == 2 {
            Ok(HeaderMeta { multi_function, kind: HeaderType::PciToCardbus })
        } else {
            Err(())
        }
    }

    /// Reads a header-type byte.
    #[verifier::when_used_as_spec(spec_try_from)]
    pub fn try_from(value: u8) -> (r: Result<HeaderMeta, ()>)
        ensures
            r == Self::spec_try_from(value),
    {
        let multi_function: bool = value & 0x80 != 0;
        let kind: u8 = value & 0x03;
        if kind == 0 {
            Ok(HeaderMeta { multi_function, kind: HeaderType::General })
        } else if kind == 1 {
            Ok(HeaderMeta { multi_function, kind: HeaderType::PciToPci })
        } else if kind == 2 {
            Ok(HeaderMeta { multi_function, kind: HeaderType::PciToCardbus })
        } else {
            Err(())
        }
    }
}

} // verus!
