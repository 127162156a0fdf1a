//! The records that describe interrupt handlers to the CPU.

use vstd::prelude::*;

verus! {

/// The first interrupt vector of each of the two legacy interrupt
/// controllers, once they are moved out of the way of CPU exceptions.
#[derive(Clone, Copy, Debug, PartialEq, Eq)]
pub enum Interrupts {
    /// The timer, on the first line of the first controller.
    Timer,
    /// The keyboard, on the second line of the first controller.
    Keyboard,
}

impl Interrupts {
    /// The interrupt vector: 32 for the timer, 33 for the keyboard.
    pub open spec fn spec_vector(self) -> u8 {
        match self {
            Interrupts::Timer => 32,
            Interrupts::Keyboard => 33,
        }
    }

    /// The interrupt vector.
    #[verifier::when_used_as_spec(spec_vector)]
    pub fn vector(self) -> (r: u8)
        ensures
            r == self.spec_vector(),
    {
        match self {
            Interrupts::Timer => 32,
            Interrupts::Keyboard => 33,
        }
    }
}

/// One entry of the interrupt descriptor table: where the handler of one
/// interrupt is.
#[derive(Clone, Copy, Debug, PartialEq, Eq)]
pub struct InterruptDescriptor {
    /// Bits 0..16 of the handler's address.
    pub offset1: u16,
    /// The selector of the handler's code segment.
    pub segment: u16,
    /// The index of the stack to switch to, in three bits; 0 for none.
    pub stack_table: u8,
    /// Gate type, privilege and the present bit.
    pub attributes: u8,
    /// Bits 16..32 of the handler's address.
    pub offset2: u16,
    /// Bits 32..64 of the handler's address.
    pub offset3: u32,
    /// Always 0.
    pub reserved: u32,
}

impl InterruptDescriptor {
    /// The entry that names no handler: every field is zero.
    pub open spec fn spec_null() -> InterruptDescriptor {
        InterruptDescriptor {
            offset1: 0,
            segment: 0,
            stack_table: 0,
            attributes: 0,
            offset2: 0,
            offset3: 0,
            reserved: 0,
        }
    }

    /// The entry that names no handler: every field is zero.
    #[verifier::when_used_as_spec(spec_null)]
    pub fn null() -> (r: Self)
        ensures
            r == Self::spec_null(),
    {
        InterruptDescriptor {
            offset1: 0,
            segment: 0,
            stack_table: 0,
            attributes: 0,
            offset2: 0,
            offset3: 0,
            reserved: 0,
        }
    }

    /// The address of the handler, put together from its three parts.
    pub open spec fn spec_handler(self) -> u64 {
        (self.offset1 as u64) | ((self.offset2 as u64) << 16) | ((self.offset3 as u64) << 32)
    }

    /// The entry for the handler at `handler`, in the code segment that
    /// `segment` selects.
    pub fn new(handler: u64, segment: u16, stack_table: u8, attributes: u8) -> (r: Self)
        ensures
            r.spec_handler() == handler,
            r.segment == segment,
            r.stack_table == stack_table,
            r.attributes == attributes,
            r.offset1 == (handler & 0xFFFF) as u16,
            r.offset2 == ((handler >> 16) & 0xFFFF) as u16,
            r.offset3 == (handler >> 32) as u32,
            r.reserved == 0,
    {
        assert((((handler & 0xFFFF) as u16) as u64) | (((((handler >> 16) & 0xFFFF) as u16) as u64)
            << 16) | ((((handler >> 32) as u32) as u64) << 32) == handler) by (bit_vector);
        InterruptDescriptor {
            offset1: (handler & 0xFFFF) as u16,
            segment,
            stack_table,
            attributes,
            offset2: ((handler >> 16) & 0xFFFF) as u16,
            offset3: (handler >> 32) as u32,
            reserved: 0,
        }
    }

    /// The address of the handler.
    #[verifier::when_used_as_spec(spec_handler)]
    pub fn handler(self) -> (r: u64)
        ensures
            r == self.spec_handler(),
    {
        (self.offset1 as u64) | ((self.offset2 as u64) << 16) | ((self.offset3 as u64) << 32)
    }
}

/// The interrupt descriptor table: one entry per interrupt vector.
#[derive(Clone, Copy, Debug, PartialEq, Eq)]
pub struct Idt<const LEN: usize> {
    /// The entries, by vector.
    pub interrupts: [InterruptDescriptor; LEN],
}

/// What the IDTR register is loaded with: where the table is and how long.
#[derive(Clone, Copy, Debug, PartialEq, Eq)]
pub struct IdtDescriptor {
    /// The size of the table in bytes, less one.
    pub size: u16,
    /// The address of the table.
    pub offset: u64,
}

impl IdtDescriptor {
    /// The record for an empty table: any interrupt faults.
    pub open spec fn spec_null() -> IdtDescriptor {
        IdtDescriptor { size: 0, offset: 0 }
    }

    /// The record for an empty table: any interrupt faults.
    #[verifier::when_used_as_spec(spec_null)]
    pub fn null() -> (r: IdtDescriptor)
        ensures
            r == Self::spec_null(),
    {
        IdtDescriptor { size: 0, offset: 0 }
    }
}

} // verus!
