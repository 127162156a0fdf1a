//! Finding out what sits on the PCI bus, from what its configuration space
//! reads as.
//!
//! The configuration space of a function is 64 registers of four bytes.
//! Reading one is port I/O, which the caller does: a [`PciDevice`] says at
//! which address a register is read, takes what the read returned, and
//! remembers it, so that each register is read from the bus once.

pub mod classification;
pub mod configuration;

use vstd::prelude::*;
use crate::pci::classification::{Class, HeaderMeta, HeaderType, Vendor};
use crate::pci::configuration::{address_of, PciDeviceAddress, NO_DEVICE};

verus! {

/// The number of registers in the configuration space of a function.
pub const REGISTERS: usize = 64;

/// The four bytes of a register, least significant first.
pub open spec fn register_bytes(raw: u32) -> [u8; 4] {
    [
        (raw & 0xFF) as u8,
        ((raw >> 8) & 0xFF) as u8,
        ((raw >> 16) & 0xFF) as u8,
        ((raw >> 24) & 0xFF) as u8,
    ]
}

/// What a read of a register means: nothing where no device answered, else
/// the register's four bytes.
pub open spec fn spec_decode_register(raw: u32) -> Option<[u8; 4]> {
    if raw == NO_DEVICE {
        None
    } else {
        Some(register_bytes(raw))
    }
}

/// Tells what a read of a register means.
#[verifier::when_used_as_spec(spec_decode_register)]
pub fn decode_register(raw: u32) -> (r: Option<[u8; 4]>)
    ensures
        r == spec_decode_register(raw),
{
    if raw == NO_DEVICE {
        None
    } else {
        let bytes: [u8; 4] = [
            (raw & 0xFF) as u8,
            ((raw >> 8) & 0xFF) as u8,
            ((raw >> 16) & 0xFF) as u8,
            ((raw >> 24) & 0xFF) as u8,
        ];
        assert(bytes@ =~= register_bytes(raw)@);
        assert(bytes =~= register_bytes(raw));
        Some(bytes)
    }
}

/// The vendor that the bytes of register 0 name: the identifier is byte 1
/// with byte 0 above it.
pub open spec fn vendor_in(bytes: [u8; 4]) -> Option<Vendor> {
    match Vendor::spec_try_from((bytes[1] as u16) | ((bytes[0] as u16) << 8)) {
        Ok(vendor) => Some(vendor),
        Err(_) => None,
    }
}

/// The class that the bytes of register 2 name: byte 3 is the class, byte 2
/// the subclass.
pub open spec fn class_in(bytes: [u8; 4]) -> Option<Class> {
    Class::spec_from_bytes(bytes[3], bytes[2])
}

/// What the bytes of register 3 say of the header: byte 2 is the
/// header-type byte.
pub open spec fn header_in(bytes: [u8; 4]) -> Option<HeaderMeta> {
    match HeaderMeta::spec_try_from(bytes[2]) {
        Ok(meta) => Some(meta),
        Err(_) => None,
    }
}

/// The bus behind a bridge, given what the header says of the bridge and
/// the bytes of its register 6: byte 1 for a bridge with several functions,
/// byte 2 for one with a single function.
pub open spec fn spec_bus_behind(header: HeaderMeta, register: [u8; 4]) -> u8 {
    if header.multi_function {
        register[1]
    } else {
        register[2]
    }
}

/// Tells which bus lies behind a bridge, given what the header says of the
/// bridge and the bytes of its register 6.
#[verifier::when_used_as_spec(spec_bus_behind)]
pub fn bus_behind(header: HeaderMeta, register: [u8; 4]) -> (r: u8)
    ensures
        r == spec_bus_behind(header, register),
{
    if header.multi_function {
        register[1]
    } else {
        register[2]
    }
}

/// What a walk over a bus does with a device that it has found.
#[derive(Clone, Copy, Debug, PartialEq, Eq)]
pub enum Walk {
    /// The device is a bridge: walk the bus behind it.
    Bridge,
    /// The device has several functions: look at each of them.
    Functions,
    /// The device has one function: look at it.
    Single,
}

/// What a walk does with a device whose header says `header`: a bridge from
/// PCI to PCI is followed, whatever else the header says; of the other
/// devices, one with several functions has each of them looked at.
pub open spec fn spec_walk_for(header: HeaderMeta) -> Walk {
    if header.kind == HeaderType::PciToPci {
        Walk::Bridge
    } else if header.multi_function {
        Walk::Functions
    } else {
        Walk::Single
    }
}

/// Decides what a walk over a bus does with a device, by its header.
#[verifier::when_used_as_spec(spec_walk_for)]
pub fn walk_for(header: HeaderMeta) -> (r: Walk)
    ensures
        r == (if header.kind == HeaderType::PciToPci {
            Walk::Bridge
        } else if header.multi_function {
            Walk::Functions
        } else {
            Walk::Single
        }),
{
    let bridge: bool = match header.kind {
        HeaderType::PciToPci => true,
        _ => false,
    };
    if bridge {
        Walk::Bridge
    } else if header.multi_function {
        Walk::Functions
    } else {
        Walk::Single
    }
}

/// One function of one device on a PCI bus, with the registers of its
/// configuration space that have been read so far.
#[derive(Clone, Copy, Debug, PartialEq, Eq)]
pub struct PciDevice {
    address: PciDeviceAddress,
    cache: [Option<[u8; 4]>; 64],
}

impl PciDevice {
    /// The address of register 0 of the function.
    pub closed spec fn spec_address(&self) -> PciDeviceAddress {
        self.address
    }

    /// The bytes of register `register`, if it has been read.
    pub closed spec fn spec_cached(&self, register: int) -> Option<[u8; 4]> {
        self.cache[register]
    }

    /// The device is `previous` with `bytes` remembered for `register`.
    pub open spec fn remembers(&self, previous: &PciDevice, register: int, bytes: [u8; 4]) -> bool {
        &&& self.spec_address() == previous.spec_address()
        &&& forall|i: int|
            0 <= i < 64 ==> #[trigger] self.spec_cached(i) == (if i == register {
                Some(bytes)
            } else {
                previous.spec_cached(i)
            })
    }

    /// What a read of register `register` gives: the remembered bytes if
    /// there are any, else what `raw` means.
    pub open spec fn spec_read(&self, register: int, raw: u32) -> Option<[u8; 4]> {
        match self.spec_cached(register) {
            Some(bytes) => Some(bytes),
            None => spec_decode_register(raw),
        }
    }

    /// The device after a read of register `register` for which the bus
    /// returned `raw`: the bytes are remembered if the register had not been
    /// read and a device answered, and nothing changes otherwise.
    pub open spec fn after_read(&self, previous: &PciDevice, register: int, raw: u32) -> bool {
        if previous.spec_cached(register) is None && raw != NO_DEVICE {
            self.remembers(previous, register, register_bytes(raw))
        } else {
            *self == *previous
        }
    }

    /// The function `function` of device `device` on bus `bus`, given what
    /// its register 0 reads as. `None` when no device answered the read;
    /// otherwise register 0 is remembered and no other register is.
    pub fn new(bus: u8, device: u8, function: u8, identity: u32) -> (r: Option<Self>)
        ensures
            identity == NO_DEVICE ==> r is None,
            identity != NO_DEVICE ==> r is Some && r->Some_0.spec_address() == address_of(
                bus,
                device,
                function,
                0,
            ) && r->Some_0.spec_cached(0) == Some(register_bytes(identity)) && forall|i: int|
                1 <= i < 64 ==> r->Some_0.spec_cached(i) is None,
    {
        let address = PciDeviceAddress::new().with_bus(bus).with_device(device).with_function(
            function,
        );
        assert(address.0 | ((0u8 as u32) << 2) == address.0) by (bit_vector);
        let mut this = PciDevice { address, cache: [None;64] };
        match this.read_register(0, identity) {
            Some(_) => Some(this),
            None => None,
        }
    }

    /// The address at which register `register` is read from the bus.
    pub fn register_address(&self, register: u8) -> (r: PciDeviceAddress)
        ensures
            r.0 == self.spec_address().0 | ((register as u32) << 2),
    {
        self.address.with_register(register)
    }

    /// Tells whether register `register` has been read.
    pub fn is_cached(&self, register: u8) -> (r: bool)
        requires
            register < 64,
        ensures
            r == self.spec_cached(register as int) is Some,
    {
        self.cache[register as usize].is_some()
    }

    /// Reads register `register`. If it has been read before, the
    /// remembered bytes are returned and `raw` is not looked at. Otherwise
    /// `raw` is what the bus returned for [`Self::register_address`]: its
    /// bytes are remembered and returned, unless no device answered.
    pub fn read_register(&mut self, register: u8, raw: u32) -> (r: Option<[u8; 4]>)
        requires
            register < 64,
        ensures
            r == old(self).spec_read(register as int, raw),
            final(self).after_read(old(self), register as int, raw),
    {
        match self.cache[register as usize] {
            Some(bytes) => Some(bytes),
            None => {
                match self.read_register_uncached(register, raw) {
                    Some(bytes) => {
                        self.cache[register as usize] = Some(bytes);
                        Some(bytes)
                    },
                    None => None,
                }
            },
        }
    }

    /// Reads register `register` without looking at what is remembered and
    /// without remembering: `raw` is what the bus returned for
    /// [`Self::register_address`].
    pub fn read_register_uncached(&self, register: u8, raw: u32) -> (r: Option<[u8; 4]>)
        ensures
            r == spec_decode_register(raw),
    {
        decode_register(raw)
    }

    /// The vendor of the device, from register 0, which is read as
    /// [`Self::read_register`] reads it. `None` when the register cannot be
    /// read or names no known vendor.
    pub fn vendor(&mut self, raw: u32) -> (r: Option<Vendor>)
        ensures
            r == (match old(self).spec_read(0, raw) {
                Some(bytes) => vendor_in(bytes),
                None => None,
            }),
            final(self).after_read(old(self), 0, raw),
    {
        match self.read_register(0, raw) {
            Some(bytes) => {
                let identifier: u16 = (bytes[1] as u16) | ((bytes[0] as u16) << 8);
                match Vendor::try_from(identifier) {
                    Ok(vendor) => Some(vendor),
                    Err(_) => None,
                }
            },
            None => None,
        }
    }

    /// The class of the device, from register 2, which is read as
    /// [`Self::read_register`] reads it. `None` when the register cannot be
    /// read or names no known class.
    pub fn class(&mut self, raw: u32) -> (r: Option<Class>)
        ensures
            r == (match old(self).spec_read(2, raw) {
                Some(bytes) => class_in(bytes),
                None => None,
            }),
            final(self).after_read(old(self), 2, raw),
    {
        match self.read_register(2, raw) {
            Some(bytes) => Class::from_bytes(bytes[3], bytes[2]),
            None => None,
        }
    }

    /// What the header-type byte says, from register 3, which is read as
    /// [`Self::read_register`] reads it. `None` when the register cannot be
    /// read or the byte names no layout.
    pub fn header(&mut self, raw: u32) -> (r: Option<HeaderMeta>)
        ensures
            r == (match old(self).spec_read(3, raw) {
                Some(bytes) => header_in(bytes),
                None => None,
            }),
            final(self).after_read(old(self), 3, raw),
    {
        match self.read_register(3, raw) {
            Some(bytes) => match HeaderMeta::try_from(bytes[2]) {
                Ok(meta) => Some(meta),
                Err(_) => None,
            },
            None => None,
        }
    }

    /// The programming-interface byte: byte 1 of register 2, which is read
    /// as [`Self::read_register`] reads it.
    pub fn programming_interface(&mut self, raw: u32) -> (r: Option<u8>)
        ensures
            r == (match old(self).spec_read(2, raw) {
                Some(bytes) => Some(bytes[1]),
                None => None,
            }),
            final(self).after_read(old(self), 2, raw),
    {
        match self.read_register(2, raw) {
            Some(bytes) => Some(bytes[1]),
            None => None,
        }
    }

    /// The bus that the device is on, as [`PciDeviceAddress::bus`] reads it.
    pub fn bus(&self) -> (r: u8)
        ensures
            r == self.spec_address().spec_bus(),
    {
        self.address.bus()
    }

    /// The number of the device on its bus, as
    /// [`PciDeviceAddress::device`] reads it.
    pub fn device(&self) -> (r: u8)
        ensures
            r == self.spec_address().spec_device(),
    {
        self.address.device()
    }

    /// The number of the function on its device, as
    /// [`PciDeviceAddress::function`] reads it.
    pub fn function(&self) -> (r: u8)
        ensures
            r == self.spec_address().spec_function(),
    {
        self.address.function()
    }
}

} // verus!
