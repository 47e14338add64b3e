//! The decoder: a pure function from a 2-byte instruction word to an
//! `Instruction`, or an explicit decode failure carrying the offending
//! address and the raw nibbles.

use vstd::prelude::*;
use crate::values::Address;
use crate::values::Constant;
use crate::values::Register;
use crate::instruction::Instruction;

verus! {

/// An unrecognized bit pattern: the address it was fetched from and the
/// four raw nibbles, so the host can diagnose it. Never a silent no-op.
#[derive(Clone, Copy, Debug, PartialEq, Eq, Structural)]
pub struct DecodeError {
    pub at: u16,
    pub a: u8,
    pub b: u8,
    pub c: u8,
    pub d: u8,
}

/// The high nibble of a byte.
pub open spec fn hi_nibble(x: u8) -> u8 {
    x / 16
}

/// The low nibble of a byte.
pub open spec fn lo_nibble(x: u8) -> u8 {
    x % 16
}

/// The address packed from three nibbles (high to low).
pub open spec fn spec_address(b: u8, c: u8, d: u8) -> Address {
    Address { value: (256 * b + 16 * c + d) as u16 }
}

/// The constant packed from two nibbles (high, low).
pub open spec fn spec_constant(c: u8, d: u8) -> Constant {
    Constant { value: (16 * c + d) as u8 }
}

/// The register named by one nibble.
pub open spec fn spec_register(b: u8) -> Register {
    Register { value: b }
}

/// The decode table: maps the four nibbles (a, b, c, d) of an instruction
/// word to its operation, or `None` for a pattern outside every documented
/// family. Dispatch is on the family nibble `a`; families 0x0, 0x5, 0x8,
/// 0x9, 0xE and 0xF are further disambiguated by the low nibbles, and a
/// family that requires a sub-code fails when none matches.
pub open spec fn spec_decode(a: u8, b: u8, c: u8, d: u8) -> Option<Instruction>
    recommends
        a < 16,
        b < 16,
        c < 16,
        d < 16,
{
    if a == 0x0 {
        if b == 0x0 && c == 0xE && d == 0x0 {
            Some(Instruction::ClearScreen)
        } else if b == 0x0 && c == 0xE && d == 0xE {
            Some(Instruction::Return)
        } else {
            Some(Instruction::SysCall(spec_address(b, c, d)))
        }
    } else if a == 0x1 {
        Some(Instruction::Jump(spec_address(b, c, d)))
    } else if a == 0x2 {
        Some(Instruction::Call(spec_address(b, c, d)))
    } else if a == 0x3 {
        Some(Instruction::SkipIfEqual(spec_register(b), spec_constant(c, d)))
    } else if a == 0x4 {
        Some(Instruction::SkipIfNotEqual(spec_register(b), spec_constant(c, d)))
    } else if a == 0x5 {
        if d == 0x0 {
            Some(Instruction::SkipIfRegistersEqual(spec_register(b), spec_register(c)))
        } else {
            None
        }
    } else if a == 0x6 {
        Some(Instruction::SetImmediate(spec_register(b), spec_constant(c, d)))
    } else if a == 0x7 {
        Some(Instruction::AddImmediate(spec_register(b), spec_constant(c, d)))
    } else if a == 0x8 {
        if d == 0x0 {
            Some(Instruction::SetRegister(spec_register(b), spec_register(c)))
        } else if d == 0x1 {
            Some(Instruction::OrRegister(spec_register(b), spec_register(c)))
        } else if d == 0x2 {
            Some(Instruction::AndRegister(spec_register(b), spec_register(c)))
        } else if d == 0x3 {
            Some(Instruction::XorRegister(spec_register(b), spec_register(c)))
        } else if d == 0x4 {
            Some(Instruction::AdcRegister(spec_register(b), spec_register(c)))
        } else if d == 0x5 {
            Some(Instruction::SwbRegister(spec_register(b), spec_register(c)))
        } else if d == 0x6 {
            Some(Instruction::ShrRegister(spec_register(b), spec_register(c)))
        } else if d == 0x7 {
            Some(Instruction::ReverseSwbRegister(spec_register(b), spec_register(c)))
        } else if d == 0xE {
            Some(Instruction::ShlRegister(spec_register(b), spec_register(c)))
        } else {
            None
        }
    } else if a == 0x9 {
        if d == 0x0 {
            Some(Instruction::SkipIfRegistersNotEqual(spec_register(b), spec_register(c)))
        } else {
            None
        }
    } else if a == 0xA {
        Some(Instruction::StoreAddress(spec_address(b, c, d)))
    } else if a == 0xB {
        Some(Instruction::JumpOffset(spec_address(b, c, d)))
    } else if a == 0xC {
        Some(Instruction::StoreRandom(spec_register(b), spec_constant(c, d)))
    } else if a == 0xD {
        Some(Instruction::DrawSprite(spec_register(b), spec_register(c), Constant { value: d }))
    } else if a == 0xE {
        if c == 0x9 && d == 0xE {
            Some(Instruction::SkipIfPressed(spec_register(b)))
        } else if c == 0xA && d == 0x1 {
            Some(Instruction::SkipIfNotPressed(spec_register(b)))
        } else {
            None
        }
    } else {
        if c == 0x0 && d == 0x7 {
            Some(Instruction::SetFromDelay(spec_register(b)))
        } else if c == 0x0 && d == 0xA {
            Some(Instruction::WaitKeyPress(spec_register(b)))
        } else if c == 0x1 && d == 0x5 {
            Some(Instruction::SetToDelay(spec_register(b)))
        } else if c == 0x1 && d == 0x8 {
            Some(Instruction::SetToSound(spec_register(b)))
        } else if c == 0x1 && d == 0xE {
            Some(Instruction::AddAddress(spec_register(b)))
        } else if c == 0x2 && d == 0x9 {
            Some(Instruction::SetAddressToSprite(spec_register(b)))
        } else if c == 0x3 && d == 0x3 {
            Some(Instruction::StoreBCD(spec_register(b)))
        } else if c == 0x5 && d == 0x5 {
            Some(Instruction::StoreRegisters(spec_register(b)))
        } else if c == 0x6 && d == 0x5 {
            Some(Instruction::LoadRegisters(spec_register(b)))
        } else {
            None
        }
    }
}

/// Whether the four nibbles form a documented instruction pattern.
pub open spec fn legal_pattern(a: u8, b: u8, c: u8, d: u8) -> bool {
    ||| a == 0x0
    ||| a == 0x1
    ||| a == 0x2
    ||| a == 0x3
    ||| a == 0x4
    ||| (a == 0x5 && d == 0x0)
    ||| a == 0x6
    ||| a == 0x7
    ||| (a == 0x8 && (d <= 0x7 || d == 0xE))
    ||| (a == 0x9 && d == 0x0)
    ||| a == 0xA
    ||| a == 0xB
    ||| a == 0xC
    ||| a == 0xD
    ||| (a == 0xE && ((c == 0x9 && d == 0xE) || (c == 0xA && d == 0x1)))
    ||| (a == 0xF && ((c == 0x0 && (d == 0x7 || d == 0xA))
            || (c == 0x1 && (d == 0x5 || d == 0x8 || d == 0xE))
            || (c == 0x2 && d == 0x9)
            || (c == 0x3 && d == 0x3)
            || (c == 0x5 && d == 0x5)
            || (c == 0x6 && d == 0x5)))
}

/// Decode totality over the legal set: a nibble pattern decodes to an
/// operation exactly when it is a documented pattern, and every decoded
/// operation is well-formed.
pub proof fn lemma_decode_total(a: u8, b: u8, c: u8, d: u8)
    requires
        a < 16,
        b < 16,
        c < 16,
        d < 16,
    ensures
        spec_decode(a, b, c, d) is Some <==> legal_pattern(a, b, c, d),
        spec_decode(a, b, c, d) matches Some(i) ==> i.wf(),
{
}

/// Splits the two bytes of an instruction word into four nibbles and maps
/// the pattern to its operation. `at` is the address the word was fetched
/// from; it is carried into the error so an unknown opcode is reported
/// with its exact location, never silently skipped.
pub fn decode_instruction(hi: u8, lo: u8, at: u16) -> (r: Result<Instruction, DecodeError>)
    ensures
        (match spec_decode(hi_nibble(hi), lo_nibble(hi), hi_nibble(lo), lo_nibble(lo)) {
            Some(i) => r == Ok::<Instruction, DecodeError>(i),
            None => r == Err::<Instruction, DecodeError>(DecodeError {
                at,
                a: hi_nibble(hi),
                b: lo_nibble(hi),
                c: hi_nibble(lo),
                d: lo_nibble(lo),
            }),
        }),
        r matches Ok(i) ==> i.wf(),
{
    let a = hi / 16;
    let b = hi % 16;
    let c = lo / 16;
    let d = lo % 16;
    match a {
        0x0 => {
            if b == 0x0 && c == 0xE && d == 0x0 {
                Ok(Instruction::ClearScreen)
            } else if b == 0x0 && c == 0xE && d == 0xE {
                Ok(Instruction::Return)
            } else {
                Ok(Instruction::SysCall(Address::new(b, c, d)))
            }
        },
        0x1 => Ok(Instruction::Jump(Address::new(b, c, d))),
        0x2 => Ok(Instruction::Call(Address::new(b, c, d))),
        0x3 => Ok(Instruction::SkipIfEqual(Register::new(b), Constant::new(c, d))),
        0x4 => Ok(Instruction::SkipIfNotEqual(Register::new(b), Constant::new(c, d))),
        0x5 if d == 0x0 => Ok(Instruction::SkipIfRegistersEqual(Register::new(b), Register::new(c))),
        0x6 => Ok(Instruction::SetImmediate(Register::new(b), Constant::new(c, d))),
        0x7 => Ok(Instruction::AddImmediate(Register::new(b), Constant::new(c, d))),
        0x8 if d == 0x0 => Ok(Instruction::SetRegister(Register::new(b), Register::new(c))),
        0x8 if d == 0x1 => Ok(Instruction::OrRegister(Register::new(b), Register::new(c))),
        0x8 if d == 0x2 => Ok(Instruction::AndRegister(Register::new(b), Register::new(c))),
        0x8 if d == 0x3 => Ok(Instruction::XorRegister(Register::new(b), Register::new(c))),
        0x8 if d == 0x4 => Ok(Instruction::AdcRegister(Register::new(b), Register::new(c))),
        0x8 if d == 0x5 => Ok(Instruction::SwbRegister(Register::new(b), Register::new(c))),
        0x8 if d == 0x6 => Ok(Instruction::ShrRegister(Register::new(b), Register::new(c))),
        0x8 if d == 0x7 => Ok(Instruction::ReverseSwbRegister(Register::new(b), Register::new(c))),
        0x8 if d == 0xE => Ok(Instruction::ShlRegister(Register::new(b), Register::new(c))),
        0x9 if d == 0x0 => Ok(Instruction::SkipIfRegistersNotEqual(Register::new(b), Register::new(c))),
        0xA => Ok(Instruction::StoreAddress(Address::new(b, c, d))),
        0xB => Ok(Instruction::JumpOffset(Address::new(b, c, d))),
        0xC => Ok(Instruction::StoreRandom(Register::new(b), Constant::new(c, d))),
        0xD => Ok(Instruction::DrawSprite(Register::new(b), Register::new(c), Constant { value: d })),
        0xE if c == 0x9 && d == 0xE => Ok(Instruction::SkipIfPressed(Register::new(b))),
        0xE if c == 0xA && d == 0x1 => Ok(Instruction::SkipIfNotPressed(Register::new(b))),
        0xF if c == 0x0 && d == 0x7 => Ok(Instruction::SetFromDelay(Register::new(b))),
        0xF if c == 0x0 && d == 0xA => Ok(Instruction::WaitKeyPress(Register::new(b))),
        0xF if c == 0x1 && d == 0x5 => Ok(Instruction::SetToDelay(Register::new(b))),
        0xF if c == 0x1 && d == 0x8 => Ok(Instruction::SetToSound(Register::new(b))),
        0xF if c == 0x1 && d == 0xE => Ok(Instruction::AddAddress(Register::new(b))),
        0xF if c == 0x2 && d == 0x9 => Ok(Instruction::SetAddressToSprite(Register::new(b))),
        0xF if c == 0x3 && d == 0x3 => Ok(Instruction::StoreBCD(Register::new(b))),
        0xF if c == 0x5 && d == 0x5 => Ok(Instruction::StoreRegisters(Register::new(b))),
        0xF if c == 0x6 && d == 0x5 => Ok(Instruction::LoadRegisters(Register::new(b))),
        _ => Err(DecodeError { at, a, b, c, d }),
    }
}

} // verus!
