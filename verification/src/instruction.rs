//! The closed operation set: every legal instruction shape, each variant
//! carrying its already-decoded, range-checked operands.

use vstd::prelude::*;
use crate::values::Address;
use crate::values::Constant;
use crate::values::Register;

verus! {

/// One decoded instruction. Each variant owns only the operands its
/// semantics require; a value is created once per decode and consumed
/// once by execution.
#[derive(Clone, Copy, Debug, PartialEq, Eq, Structural)]
pub enum Instruction {
    /// Legacy machine-code call; decoded for compatibility, executed as a
    /// no-op that surfaces the target address to the host.
    SysCall(Address),
    ClearScreen,
    Return,
    Jump(Address),
    Call(Address),
    SkipIfEqual(Register, Constant),
    SkipIfNotEqual(Register, Constant),
    SkipIfRegistersEqual(Register, Register),
    SetImmediate(Register, Constant),
    AddImmediate(Register, Constant),
    SetRegister(Register, Register),
    OrRegister(Register, Register),
    AndRegister(Register, Register),
    XorRegister(Register, Register),
    AdcRegister(Register, Register),
    SwbRegister(Register, Register),
    ShrRegister(Register, Register),
    ReverseSwbRegister(Register, Register),
    ShlRegister(Register, Register),
    SkipIfRegistersNotEqual(Register, Register),
    StoreAddress(Address),
    JumpOffset(Address),
    StoreRandom(Register, Constant),
    /// Draw a sprite at the coordinates held by the two registers; the
    /// constant is the sprite height in rows (at most 15).
    DrawSprite(Register, Register, Constant),
    SkipIfPressed(Register),
    SkipIfNotPressed(Register),
    SetFromDelay(Register),
    WaitKeyPress(Register),
    SetToDelay(Register),
    SetToSound(Register),
    AddAddress(Register),
    SetAddressToSprite(Register),
    StoreBCD(Register),
    StoreRegisters(Register),
    LoadRegisters(Register),
}

impl Instruction {
    /// Well-formedness: every operand satisfies its own range invariant,
    /// and a sprite height fits in one nibble.
    pub open spec fn wf(self) -> bool {
        match self {
            Instruction::SysCall(a) => a.wf(),
            Instruction::ClearScreen => true,
            Instruction::Return => true,
            Instruction::Jump(a) => a.wf(),
            Instruction::Call(a) => a.wf(),
            Instruction::SkipIfEqual(x, _) => x.wf(),
            Instruction::SkipIfNotEqual(x, _) => x.wf(),
            Instruction::SkipIfRegistersEqual(x, y) => x.wf() && y.wf(),
            Instruction::SetImmediate(x, _) => x.wf(),
            Instruction::AddImmediate(x, _) => x.wf(),
            Instruction::SetRegister(x, y) => x.wf() && y.wf(),
            Instruction::OrRegister(x, y) => x.wf() && y.wf(),
            Instruction::AndRegister(x, y) => x.wf() && y.wf(),
            Instruction::XorRegister(x, y) => x.wf() && y.wf(),
            Instruction::AdcRegister(x, y) => x.wf() && y.wf(),
            Instruction::SwbRegister(x, y) => x.wf() && y.wf(),
            Instruction::ShrRegister(x, y) => x.wf() && y.wf(),
            Instruction::ReverseSwbRegister(x, y) => x.wf() && y.wf(),
            Instruction::ShlRegister(x, y) => x.wf() && y.wf(),
            Instruction::SkipIfRegistersNotEqual(x, y) => x.wf() && y.wf(),
            Instruction::StoreAddress(a) => a.wf(),
            Instruction::JumpOffset(a) => a.wf(),
            Instruction::StoreRandom(x, _) => x.wf(),
            Instruction::DrawSprite(x, y, n) => x.wf() && y.wf() && n.value < 16,
            Instruction::SkipIfPressed(x) => x.wf(),
            Instruction::SkipIfNotPressed(x) => x.wf(),
            Instruction::SetFromDelay(x) => x.wf(),
            Instruction::WaitKeyPress(x) => x.wf(),
            Instruction::SetToDelay(x) => x.wf(),
            Instruction::SetToSound(x) => x.wf(),
            Instruction::AddAddress(x) => x.wf(),
            Instruction::SetAddressToSprite(x) => x.wf(),
            Instruction::StoreBCD(x) => x.wf(),
            Instruction::StoreRegisters(x) => x.wf(),
            Instruction::LoadRegisters(x) => x.wf(),
        }
    }
}

} // verus!
