//! Fixed-width value types: 12-bit addresses, 8-bit constants and 4-bit
//! register identifiers, each a range-checked wrapper around the raw bit
//! fields of an instruction word.

use vstd::prelude::*;

verus! {

/// A 12-bit memory address, packed from three 4-bit nibbles.
#[derive(Clone, Copy, Debug, PartialEq, Eq, Structural)]
pub struct Address {
    pub value: u16,
}

impl Address {
    /// The 12-bit range invariant: an address never exceeds 0xFFF.
    pub open spec fn wf(self) -> bool {
        self.value <= 0xFFF
    }

    /// Packs three nibbles (high to low) into a 12-bit address.
    pub fn new(x: u8, y: u8, z: u8) -> (r: Address)
        requires
            x < 16,
            y < 16,
            z < 16,
        ensures
            r.value == 256 * x + 16 * y + z,
            r.wf(),
    {
        Address { value: 256 * (x as u16) + 16 * (y as u16) + (z as u16) }
    }
}

/// An 8-bit literal constant, packed from two 4-bit nibbles.
#[derive(Clone, Copy, Debug, PartialEq, Eq, Structural)]
pub struct Constant {
    pub value: u8,
}

impl Constant {
    /// Packs two nibbles (high, low) into an 8-bit constant.
    pub fn new(x: u8, y: u8) -> (r: Constant)
        requires
            x < 16,
            y < 16,
        ensures
            r.value == 16 * x + y,
    {
        Constant { value: 16 * x + y }
    }
}

/// An identifier for one of the 16 general-purpose registers V0..VF.
/// VF doubles as the carry/borrow/collision flag register.
#[derive(Clone, Copy, Debug, PartialEq, Eq, Structural)]
pub struct Register {
    pub value: u8,
}

impl Register {
    /// The 4-bit range invariant: a register identifier is in [0, 15].
    pub open spec fn wf(self) -> bool {
        self.value < 16
    }

    /// Wraps a nibble as a register identifier.
    pub fn new(x: u8) -> (r: Register)
        requires
            x < 16,
        ensures
            r.value == x,
            r.wf(),
    {
        Register { value: x }
    }
}

} // verus!
