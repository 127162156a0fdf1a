//! Addresses in the PCI configuration space.
//!
//! An address is the 32-bit value that is written to I/O port `0xCF8`
//! before the register is read from port `0xCFC`:
//!
//! | bits   | contents                              |
//! |--------|---------------------------------------|
//! | 31     | enable                                |
//! | 16..24 | bus                                   |
//! | 11..16 | device                                |
//! | 8..11  | function                              |
//! | 0..8   | byte offset of the register, 4 each   |
//!
//! The `with_` functions put a number at the start of its field without
//! cutting it to the field's width, and the getters read eight bits from the
//! start of a field. A device below 32 and a function below 8 stay inside
//! their fields.

use vstd::prelude::*;

verus! {

/// The port that an address is written to.
pub const ADDRESS_PORT: u16 = 0xCF8;

/// The port that the register at the address is then read from.
pub const DATA_PORT: u16 = 0xCFC;

/// What a read returns where no device answers.
pub const NO_DEVICE: u32 = 0xFFFF_FFFF;

/// An address in the configuration space of one function of one device.
#[derive(Clone, Copy, Debug, PartialEq, Eq)]
pub struct PciDeviceAddress(pub u32);

impl PciDeviceAddress {
    /// The address of register 0 of function 0 of device 0 on bus 0, with
    /// the enable bit set.
    pub fn new() -> (r: Self)
        ensures
            r.0 == 0x8000_0000,
    {
        PciDeviceAddress(0x8000_0000)
    }

    /// This address with `bus` added at bit 16.
    pub fn with_bus(&self, bus: u8) -> (r: Self)
        ensures
            r.0 == self.0 | ((bus as u32) << 16),
    {
        PciDeviceAddress(self.0 | ((bus as u32) << 16))
    }

    /// This address with `device` added at bit 11.
    pub fn with_device(&self, device: u8) -> (r: Self)
        ensures
            r.0 == self.0 | ((device as u32) << 11),
    {
        PciDeviceAddress(self.0 | ((device as u32) << 11))
    }

    /// This address with `function` added at bit 8.
    pub fn with_function(&self, function: u8) -> (r: Self)
        ensures
            r.0 == self.0 | ((function as u32) << 8),
    {
        PciDeviceAddress(self.0 | ((function as u32) << 8))
    }

    /// This address with the byte offset of register `register`, which is
    /// four times its number, added at bit 0.
    pub fn with_register(&self, register: u8) -> (r: Self)
        ensures
            r.0 == self.0 | ((register as u32) << 2),
    {
        PciDeviceAddress(self.0 | ((register as u32) << 2))
    }

    /// The eight bits from bit 16 up: the bus.
    pub open spec fn spec_bus(&self) -> u8 {
        ((self.0 >> 16) & 0xFF) as u8
    }

    /// The eight bits from bit 11 up: the device in the low five of them.
    pub open spec fn spec_device(&self) -> u8 {
        ((self.0 >> 11) & 0xFF) as u8
    }

    /// The eight bits from bit 8 up: the function in the low three of them.
    pub open spec fn spec_function(&self) -> u8 {
        ((self.0 >> 8) & 0xFF) as u8
    }

    /// The low eight bits: the byte offset of the register.
    pub open spec fn spec_offset(&self) -> u8 {
        (self.0 & 0xFF) as u8
    }

    /// The eight bits from bit 16 up: the bus.
    #[verifier::when_used_as_spec(spec_bus)]
    pub fn bus(&self) -> (r: u8)
        ensures
            r == self.spec_bus(),
    {
        ((self.0 >> 16) & 0xFF) as u8
    }

    /// The eight bits from bit 11 up: the device in the low five of them.
    #[verifier::when_used_as_spec(spec_device)]
    pub fn device(&self) -> (r: u8)
        ensures
            r == self.spec_device(),
    {
        ((self.0 >> 11) & 0xFF) as u8
    }

    /// The eight bits from bit 8 up: the function in the low three of them.
    #[verifier::when_used_as_spec(spec_function)]
    pub fn function(&self) -> (r: u8)
        ensures
            r == self.spec_function(),
    {
        ((self.0 >> 8) & 0xFF) as u8
    }

    /// The low eight bits: the byte offset of the register.
    #[verifier::when_used_as_spec(spec_offset)]
    pub fn offset(&self) -> (r: u8)
        ensures
            r == self.spec_offset(),
    {
        (self.0 & 0xFF) as u8
    }
}

impl Default for PciDeviceAddress {
    fn default() -> (r: Self)
        ensures
            r.0 == 0x8000_0000,
    {
        PciDeviceAddress(0x8000_0000)
    }
}

/// The address that the four `with_` functions make of a bus, a device, a
/// function and a register, starting from [`PciDeviceAddress::new`].
pub open spec fn address_of(bus: u8, device: u8, function: u8, register: u8) -> PciDeviceAddress {
    PciDeviceAddress(
        0x8000_0000u32 | ((bus as u32) << 16) | ((device as u32) << 11) | ((function as u32) << 8)
            | ((register as u32) << 2),
    )
}

proof fn lemma_fields(bus: u8, device: u8, function: u8, register: u8)
    by (bit_vector)
    requires
        device < 32,
        function < 8,
        register < 64,
    ensures
        ({
            let v = 0x8000_0000u32 | ((bus as u32) << 16) | ((device as u32) << 11) | ((
            function as u32) << 8) | ((register as u32) << 2);
            &&& ((v >> 16) & 0xFF) as u8 == bus
            &&& ((v >> 11) & 0x1F) as u8 == device
            &&& ((v >> 8) & 0x07) as u8 == function
            &&& (v & 0xFF) as u8 == register * 4
            &&& ((v >> 11) & 0xFF) as u8 == ((bus & 0x07) << 5) | device
            &&& ((v >> 8) & 0xFF) as u8 == ((device & 0x1F) << 3) | function
            &&& v & 0x8000_0000 != 0
        }),
{
}

/// What the getters return for an address put together from numbers that
/// fit their fields: the bus and the register's offset come back as they
/// went in; the device comes back with the low three bits of the bus above
/// it, and the function with the device above it.
pub proof fn getters_read_fields(bus: u8, device: u8, function: u8, register: u8)
    requires
        device < 32,
        function < 8,
        register < 64,
    ensures
        address_of(bus, device, function, register).spec_bus() == bus,
        address_of(bus, device, function, register).spec_offset() == register * 4,
        address_of(bus, device, function, register).spec_device() == ((bus & 0x07) << 5) | device,
        address_of(bus, device, function, register).spec_function() == ((device & 0x1F) << 3)
            | function,
        bus & 0x07 == 0 ==> address_of(bus, device, function, register).spec_device() == device,
        device == 0 ==> address_of(bus, device, function, register).spec_function() == function,
{
    lemma_fields(bus, device, function, register);
    assert(((0u8 << 5) | device) == device && ((0u8 << 3) | function) == function)
        by (bit_vector);
    assert(0u8 & 0x1F == 0) by (bit_vector);
}

} // verus!
