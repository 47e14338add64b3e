//! The executor: applies one decoded operation to the machine state,
//! advancing the program counter by one instruction word unless the
//! operation redirects control flow. Side effects directed at external
//! collaborators (display, input, host) are returned as explicit
//! requests, never performed in place.

use vstd::prelude::*;
use vstd::pervasive::VecAdditionalExecFns;
use crate::values::Address;
use crate::values::Constant;
use crate::values::Register;
use crate::instruction::Instruction;
use crate::machine::MachineError;
use crate::machine::MachineState;
use crate::machine::StateModel;
use crate::machine::FLAG_REGISTER;
use crate::machine::MEMORY_SIZE;
use crate::machine::STACK_DEPTH;
use crate::timers::Timers;

verus! {

/// A side-effect request produced by one execution step, to be fulfilled
/// by an external collaborator before the next step.
#[derive(Debug)]
pub enum Effect {
    /// The operation had no externally visible effect.
    NoEffect,
    /// Clear the display.
    ClearScreen,
    /// Draw `sprite` (one byte per row, read from the address register's
    /// memory location) at the coordinates taken from the two registers;
    /// the collaborator must report whether any pixel collided, and the
    /// host writes that answer back through `set_collision_flag`.
    Draw { x: u8, y: u8, sprite: Vec<u8> },
    /// Execution is paused awaiting a key press; the host resumes it by
    /// writing the pressed key through `provide_key` into `dest`.
    WaitKey { dest: Register },
    /// A legacy machine-code call was decoded; the core treats it as a
    /// no-op and surfaces the target so the host can decide.
    Sys { target: Address },
}

/// The mathematical model of an effect, with the sprite bytes as a
/// sequence.
#[verifier::ext_equal]
pub ghost enum EffectModel {
    NoEffect,
    ClearScreen,
    Draw { x: u8, y: u8, sprite: Seq<u8> },
    WaitKey { dest: u8 },
    Sys { target: u16 },
}

impl View for Effect {
    type V = EffectModel;

    open spec fn view(&self) -> EffectModel {
        match self {
            Effect::NoEffect => EffectModel::NoEffect,
            Effect::ClearScreen => EffectModel::ClearScreen,
            Effect::Draw { x, y, sprite } => EffectModel::Draw { x: *x, y: *y, sprite: sprite@ },
            Effect::WaitKey { dest } => EffectModel::WaitKey { dest: dest.value },
            Effect::Sys { target } => EffectModel::Sys { target: target.value },
        }
    }
}

/// Whether key number `k` (the low nibble of a register value) is down
/// in the host's key snapshot, one bit per key.
pub open spec fn key_pressed(keys: u16, k: u8) -> bool {
    (keys >> ((k % 16) as u16)) & 1 == 1
}

/// The program counter after a conditional skip: one extra instruction
/// word when the condition holds.
pub open spec fn skip_ip(ip: u16, cond: bool) -> u16
    recommends
        ip + 4 <= u16::MAX,
{
    if cond {
        (ip + 4) as u16
    } else {
        (ip + 2) as u16
    }
}

/// One step of the operational semantics: the state, timers and effect
/// after applying `i` to `pre`, or the fatal error it raises (in which
/// case the machine is left unchanged). `keys` is the host's snapshot of
/// pressed keys and `random` the byte drawn by the host's randomness
/// source for this step.
///
/// The error-prone corners, pinned exactly:
/// - add-with-carry wraps modulo 256 and sets VF to 1 on unsigned
///   overflow, else 0; the flag write lands after the result write;
/// - subtract-with-borrow (both directions) wraps modulo 256 and sets VF
///   to 1 when *no* borrow occurred (minuend >= subtrahend), else 0;
/// - shifts move the first operand by one bit and give VF the bit
///   shifted out (low bit for right, high bit for left);
/// - conditional skips advance the program counter by 4 when the
///   condition holds, else by 2;
/// - a call pushes the address of the next instruction word and a return
///   pops it; over- and underflow of the bounded stack are fatal;
/// - block memory operations read or write through the address register
///   without mutating it.
pub open spec fn step_spec(
    pre: StateModel,
    t: Timers,
    i: Instruction,
    keys: u16,
    random: u8,
) -> Result<(StateModel, Timers, EffectModel), MachineError>
    recommends
        pre.wf(),
        i.wf(),
        pre.ip + 1 < MEMORY_SIZE,
{
    let next = StateModel { ip: (pre.ip + 2) as u16, ..pre };
    match i {
        Instruction::SysCall(a) => Ok((next, t, EffectModel::Sys { target: a.value })),
        Instruction::ClearScreen => Ok((next, t, EffectModel::ClearScreen)),
        Instruction::Return => {
            if pre.stack.len() == 0 {
                Err(MachineError::StackUnderflow)
            } else {
                Ok((
                    StateModel { ip: pre.stack.last(), stack: pre.stack.drop_last(), ..pre },
                    t,
                    EffectModel::NoEffect,
                ))
            }
        },
        Instruction::Jump(a) => Ok((StateModel { ip: a.value, ..pre }, t, EffectModel::NoEffect)),
        Instruction::Call(a) => {
            if pre.stack.len() >= STACK_DEPTH {
                Err(MachineError::StackOverflow)
            } else {
                Ok((
                    StateModel {
                        ip: a.value,
                        stack: pre.stack.push((pre.ip + 2) as u16),
                        ..pre
                    },
                    t,
                    EffectModel::NoEffect,
                ))
            }
        },
        Instruction::SkipIfEqual(x, c) => {
            let cond = pre.regs[x.value as int] == c.value;
            Ok((StateModel { ip: skip_ip(pre.ip, cond), ..pre }, t, EffectModel::NoEffect))
        },
        Instruction::SkipIfNotEqual(x, c) => {
            let cond = pre.regs[x.value as int] != c.value;
            Ok((StateModel { ip: skip_ip(pre.ip, cond), ..pre }, t, EffectModel::NoEffect))
        },
        Instruction::SkipIfRegistersEqual(x, y) => {
            let cond = pre.regs[x.value as int] == pre.regs[y.value as int];
            Ok((StateModel { ip: skip_ip(pre.ip, cond), ..pre }, t, EffectModel::NoEffect))
        },
        Instruction::SetImmediate(x, c) => Ok((
            StateModel { regs: pre.regs.update(x.value as int, c.value), ..next },
            t,
            EffectModel::NoEffect,
        )),
        Instruction::AddImmediate(x, c) => {
            let sum = pre.regs[x.value as int] + c.value;
            Ok((
                StateModel { regs: pre.regs.update(x.value as int, (sum % 256) as u8), ..next },
                t,
                EffectModel::NoEffect,
            ))
        },
        Instruction::SetRegister(x, y) => Ok((
            StateModel { regs: pre.regs.update(x.value as int, pre.regs[y.value as int]), ..next },
            t,
            EffectModel::NoEffect,
        )),
        Instruction::OrRegister(x, y) => Ok((
            StateModel {
                regs: pre.regs.update(
                    x.value as int,
                    pre.regs[x.value as int] | pre.regs[y.value as int],
                ),
                ..next
            },
            t,
            EffectModel::NoEffect,
        )),
        Instruction::AndRegister(x, y) => Ok((
            StateModel {
                regs: pre.regs.update(
                    x.value as int,
                    pre.regs[x.value as int] & pre.regs[y.value as int],
                ),
                ..next
            },
            t,
            EffectModel::NoEffect,
        )),
        Instruction::XorRegister(x, y) => Ok((
            StateModel {
                regs: pre.regs.update(
                    x.value as int,
                    pre.regs[x.value as int] ^ pre.regs[y.value as int],
                ),
                ..next
            },
            t,
            EffectModel::NoEffect,
        )),
        Instruction::AdcRegister(x, y) => {
            let sum = pre.regs[x.value as int] + pre.regs[y.value as int];
            let flag: u8 = if sum > 255 { 1u8 } else { 0u8 };
            Ok((
                StateModel {
                    regs: pre.regs
                        .update(x.value as int, (sum % 256) as u8)
                        .update(FLAG_REGISTER as int, flag),
                    ..next
                },
                t,
                EffectModel::NoEffect,
            ))
        },
        Instruction::SwbRegister(x, y) => {
            let rx = pre.regs[x.value as int];
            let ry = pre.regs[y.value as int];
            let res: u8 = if rx >= ry { (rx - ry) as u8 } else { (rx + 256 - ry) as u8 };
            let flag: u8 = if rx >= ry { 1u8 } else { 0u8 };
            Ok((
                StateModel {
                    regs: pre.regs.update(x.value as int, res).update(FLAG_REGISTER as int, flag),
                    ..next
                },
                t,
                EffectModel::NoEffect,
            ))
        },
        Instruction::ShrRegister(x, y) => {
            let rx = pre.regs[x.value as int];
            let flag: u8 = (rx % 2) as u8;
            Ok((
                StateModel {
                    regs: pre.regs
                        .update(x.value as int, (rx / 2) as u8)
                        .update(FLAG_REGISTER as int, flag),
                    ..next
                },
                t,
                EffectModel::NoEffect,
            ))
        },
        Instruction::ReverseSwbRegister(x, y) => {
            let rx = pre.regs[x.value as int];
            let ry = pre.regs[y.value as int];
            let res: u8 = if ry >= rx { (ry - rx) as u8 } else { (ry + 256 - rx) as u8 };
            let flag: u8 = if ry >= rx { 1u8 } else { 0u8 };
            Ok((
                StateModel {
                    regs: pre.regs.update(x.value as int, res).update(FLAG_REGISTER as int, flag),
                    ..next
                },
                t,
                EffectModel::NoEffect,
            ))
        },
        Instruction::ShlRegister(x, y) => {
            let rx = pre.regs[x.value as int];
            let flag: u8 = (rx / 128) as u8;
            Ok((
                StateModel {
                    regs: pre.regs
                        .update(x.value as int, ((rx * 2) % 256) as u8)
                        .update(FLAG_REGISTER as int, flag),
                    ..next
                },
                t,
                EffectModel::NoEffect,
            ))
        },
        Instruction::SkipIfRegistersNotEqual(x, y) => {
            let cond = pre.regs[x.value as int] != pre.regs[y.value as int];
            Ok((StateModel { ip: skip_ip(pre.ip, cond), ..pre }, t, EffectModel::NoEffect))
        },
        Instruction::StoreAddress(a) => Ok((
            StateModel { addr: a.value, ..next },
            t,
            EffectModel::NoEffect,
        )),
        Instruction::JumpOffset(a) => Ok((
            StateModel { ip: (a.value + pre.regs[0]) as u16, ..pre },
            t,
            EffectModel::NoEffect,
        )),
        Instruction::StoreRandom(x, c) => Ok((
            StateModel { regs: pre.regs.update(x.value as int, random & c.value), ..next },
            t,
            EffectModel::NoEffect,
        )),
        Instruction::DrawSprite(x, y, n) => {
            if pre.addr + n.value > MEMORY_SIZE {
                Err(MachineError::OutOfBounds { at: pre.addr })
            } else {
                Ok((
                    next,
                    t,
                    EffectModel::Draw {
                        x: pre.regs[x.value as int],
                        y: pre.regs[y.value as int],
                        sprite: pre.mem.subrange(pre.addr as int, pre.addr + n.value),
                    },
                ))
            }
        },
        Instruction::SkipIfPressed(x) => {
            let cond = key_pressed(keys, pre.regs[x.value as int]);
            Ok((StateModel { ip: skip_ip(pre.ip, cond), ..pre }, t, EffectModel::NoEffect))
        },
        Instruction::SkipIfNotPressed(x) => {
            let cond = !key_pressed(keys, pre.regs[x.value as int]);
            Ok((StateModel { ip: skip_ip(pre.ip, cond), ..pre }, t, EffectModel::NoEffect))
        },
        Instruction::SetFromDelay(x) => Ok((
            StateModel { regs: pre.regs.update(x.value as int, t.delay), ..next },
            t,
            EffectModel::NoEffect,
        )),
        Instruction::WaitKeyPress(x) => Ok((
            next,
            t,
            EffectModel::WaitKey { dest: x.value },
        )),
        Instruction::SetToDelay(x) => Ok((
            next,
            Timers { delay: pre.regs[x.value as int], ..t },
            EffectModel::NoEffect,
        )),
        Instruction::SetToSound(x) => Ok((
            next,
            Timers { sound: pre.regs[x.value as int], ..t },
            EffectModel::NoEffect,
        )),
        Instruction::AddAddress(x) => Ok((
            StateModel {
                addr: (((pre.addr + pre.regs[x.value as int]) % (MEMORY_SIZE as int)) as u16),
                ..next
            },
            t,
            EffectModel::NoEffect,
        )),
        Instruction::SetAddressToSprite(x) => Ok((
            StateModel { addr: (5 * (pre.regs[x.value as int] % 16)) as u16, ..next },
            t,
            EffectModel::NoEffect,
        )),
        Instruction::StoreBCD(x) => {
            if pre.addr + 3 > MEMORY_SIZE {
                Err(MachineError::OutOfBounds { at: pre.addr })
            } else {
                let rx = pre.regs[x.value as int];
                Ok((
                    StateModel {
                        mem: pre.mem
                            .update(pre.addr as int, (rx / 100) as u8)
                            .update(pre.addr + 1, ((rx / 10) % 10) as u8)
                            .update(pre.addr + 2, (rx % 10) as u8),
                        ..next
                    },
                    t,
                    EffectModel::NoEffect,
                ))
            }
        },
        Instruction::StoreRegisters(x) => {
            if pre.addr + x.value + 1 > MEMORY_SIZE {
                Err(MachineError::OutOfBounds { at: pre.addr })
            } else {
                Ok((
                    StateModel {
                        mem: Seq::new(
                            pre.mem.len(),
                            |j: int| if pre.addr <= j <= pre.addr + x.value {
                                pre.regs[j - pre.addr]
                            } else {
                                pre.mem[j]
                            },
                        ),
                        ..next
                    },
                    t,
                    EffectModel::NoEffect,
                ))
            }
        },
        Instruction::LoadRegisters(x) => {
            if pre.addr + x.value + 1 > MEMORY_SIZE {
                Err(MachineError::OutOfBounds { at: pre.addr })
            } else {
                Ok((
                    StateModel {
                        regs: Seq::new(
                            pre.regs.len(),
                            |j: int| if j <= x.value {
                                pre.mem[pre.addr + j]
                            } else {
                                pre.regs[j]
                            },
                        ),
                        ..next
                    },
                    t,
                    EffectModel::NoEffect,
                ))
            }
        },
    }
}

/// Copies `count` registers into memory starting at `base`, leaving every
/// other byte untouched.
fn copy_regs_to_mem(mem: &mut Vec<u8>, regs: &Vec<u8>, base: usize, count: usize)
    requires
        base + count <= usize::MAX,
        base + count <= old(mem)@.len(),
        count <= regs@.len(),
    ensures
        final(mem)@.len() == old(mem)@.len(),
        forall|j: int| 0 <= j < count ==> final(mem)@[base + j] == regs@[j],
        forall|j: int|
            0 <= j < old(mem)@.len() && !(base <= j < base + count)
                ==> final(mem)@[j] == old(mem)@[j],
{
    let mut i: usize = 0;
    while i < count
        invariant
            i <= count,
            base + count <= usize::MAX,
            base + count <= mem@.len(),
            count <= regs@.len(),
            mem@.len() == old(mem)@.len(),
            forall|j: int| 0 <= j < i ==> mem@[base + j] == regs@[j],
            forall|j: int|
                0 <= j < old(mem)@.len() && !(base <= j < base + i) ==> mem@[j] == old(mem)@[j],
        decreases count - i,
    {
        mem.set(base + i, regs[i]);
        i = i + 1;
    }
}

/// Fills the first `count` registers from memory starting at `base`,
/// leaving the remaining registers untouched.
fn copy_mem_to_regs(regs: &mut Vec<u8>, mem: &Vec<u8>, base: usize, count: usize)
    requires
        base + count <= usize::MAX,
        base + count <= mem@.len(),
        count <= old(regs)@.len(),
    ensures
        final(regs)@.len() == old(regs)@.len(),
        forall|j: int| 0 <= j < count ==> final(regs)@[j] == mem@[base + j],
        forall|j: int| count <= j < old(regs)@.len() ==> final(regs)@[j] == old(regs)@[j],
{
    let mut i: usize = 0;
    while i < count
        invariant
            i <= count,
            base + count <= usize::MAX,
            base + count <= mem@.len(),
            count <= regs@.len(),
            regs@.len() == old(regs)@.len(),
            forall|j: int| 0 <= j < i ==> regs@[j] == mem@[base + j],
            forall|j: int| i <= j < old(regs)@.len() ==> regs@[j] == old(regs)@[j],
        decreases count - i,
    {
        regs.set(i, mem[base + i]);
        i = i + 1;
    }
}

/// Reads `count` bytes of memory starting at `base`.
fn read_mem_slice(mem: &Vec<u8>, base: usize, count: usize) -> (r: Vec<u8>)
    requires
        base + count <= usize::MAX,
        base + count <= mem@.len(),
    ensures
        r@ == mem@.subrange(base as int, base + count),
{
    let mut out: Vec<u8> = Vec::new();
    let mut i: usize = 0;
    while i < count
        invariant
            i <= count,
            base + count <= usize::MAX,
            base + count <= mem@.len(),
            out@.len() == i,
            forall|j: int| 0 <= j < i ==> out@[j] == mem@[base + j],
        decreases count - i,
    {
        out.push(mem[base + i]);
        i = i + 1;
    }
    proof {
        assert(out@ =~= mem@.subrange(base as int, base + count));
    }
    out
}

impl MachineState {
    /// Applies one decoded operation, advancing the program counter by one
    /// instruction word unless the operation redirects control flow. The
    /// returned effect is a request to an external collaborator; a fatal
    /// condition is returned as an error with the machine left unchanged.
    /// `keys` is a snapshot of the pressed keys, one bit per key, and
    /// `random` is the host-supplied random byte consumed by the
    /// random-value operation.
    #[verifier::rlimit(100)]
    pub fn execute(
        &mut self,
        timers: &mut Timers,
        instr: Instruction,
        keys: u16,
        random: u8,
    ) -> (r: Result<Effect, MachineError>)
        requires
            old(self)@.wf(),
            instr.wf(),
            old(self)@.ip + 1 < MEMORY_SIZE,
        ensures
            final(self)@.wf(),
            (match step_spec(old(self)@, *old(timers), instr, keys, random) {
                Ok(post) => {
                    &&& r matches Ok(e) && e@ == post.2
                    &&& final(self)@ == post.0
                    &&& *final(timers) == post.1
                },
                Err(er) => {
                    &&& r == Err::<Effect, MachineError>(er)
                    &&& final(self)@ == old(self)@
                    &&& *final(timers) == *old(timers)
                },
            }),
    {
        match instr {
            Instruction::SysCall(a) => {
                self.ip = self.ip + 2;
                Ok(Effect::Sys { target: a })
            },
            Instruction::ClearScreen => {
                self.ip = self.ip + 2;
                Ok(Effect::ClearScreen)
            },
            Instruction::Return => {
                match self.stack.pop() {
                    Some(target) => {
                        self.ip = target;
                        Ok(Effect::NoEffect)
                    },
                    None => Err(MachineError::StackUnderflow),
                }
            },
            Instruction::Jump(a) => {
                self.ip = a.value;
                Ok(Effect::NoEffect)
            },
            Instruction::Call(a) => {
                if self.stack.len() >= STACK_DEPTH {
                    Err(MachineError::StackOverflow)
                } else {
                    self.stack.push(self.ip + 2);
                    self.ip = a.value;
                    Ok(Effect::NoEffect)
                }
            },
            Instruction::SkipIfEqual(x, c) => {
                let cond = self.registers[x.value as usize] == c.value;
                self.ip = if cond { self.ip + 4 } else { self.ip + 2 };
                Ok(Effect::NoEffect)
            },
            Instruction::SkipIfNotEqual(x, c) => {
                let cond = self.registers[x.value as usize] != c.value;
                self.ip = if cond { self.ip + 4 } else { self.ip + 2 };
                Ok(Effect::NoEffect)
            },
            Instruction::SkipIfRegistersEqual(x, y) => {
                let cond = self.registers[x.value as usize] == self.registers[y.value as usize];
                self.ip = if cond { self.ip + 4 } else { self.ip + 2 };
                Ok(Effect::NoEffect)
            },
            Instruction::SetImmediate(x, c) => {
                self.registers.set(x.value as usize, c.value);
                self.ip = self.ip + 2;
                Ok(Effect::NoEffect)
            },
            Instruction::AddImmediate(x, c) => {
                let sum: u16 = self.registers[x.value as usize] as u16 + c.value as u16;
                self.registers.set(x.value as usize, (sum % 256) as u8);
                self.ip = self.ip + 2;
                Ok(Effect::NoEffect)
            },
            Instruction::SetRegister(x, y) => {
                let v = self.registers[y.value as usize];
                self.registers.set(x.value as usize, v);
                self.ip = self.ip + 2;
                Ok(Effect::NoEffect)
            },
            Instruction::OrRegister(x, y) => {
                let v = self.registers[x.value as usize] | self.registers[y.value as usize];
                self.registers.set(x.value as usize, v);
                self.ip = self.ip + 2;
                Ok(Effect::NoEffect)
            },
            Instruction::AndRegister(x, y) => {
                let v = self.registers[x.value as usize] & self.registers[y.value as usize];
                self.registers.set(x.value as usize, v);
                self.ip = self.ip + 2;
                Ok(Effect::NoEffect)
            },
            Instruction::XorRegister(x, y) => {
                let v = self.registers[x.value as usize] ^ self.registers[y.value as usize];
                self.registers.set(x.value as usize, v);
                self.ip = self.ip + 2;
                Ok(Effect::NoEffect)
            },
            Instruction::AdcRegister(x, y) => {
                let sum: u16 = self.registers[x.value as usize] as u16
                    + self.registers[y.value as usize] as u16;
                let flag: u8 = if sum > 255 { 1 } else { 0 };
                self.registers.set(x.value as usize, (sum % 256) as u8);
                self.registers.set(FLAG_REGISTER, flag);
                self.ip = self.ip + 2;
                Ok(Effect::NoEffect)
            },
            Instruction::SwbRegister(x, y) => {
                let rx = self.registers[x.value as usize];
                let ry = self.registers[y.value as usize];
                let res: u8 = if rx >= ry {
                    rx - ry
                } else {
                    ((rx as u16 + 256 - ry as u16) % 256) as u8
                };
                let flag: u8 = if rx >= ry { 1 } else { 0 };
                self.registers.set(x.value as usize, res);
                self.registers.set(FLAG_REGISTER, flag);
                self.ip = self.ip + 2;
                Ok(Effect::NoEffect)
            },
            Instruction::ShrRegister(x, _y) => {
                let rx = self.registers[x.value as usize];
                let flag: u8 = rx % 2;
                self.registers.set(x.value as usize, rx / 2);
                self.registers.set(FLAG_REGISTER, flag);
                self.ip = self.ip + 2;
                Ok(Effect::NoEffect)
            },
            Instruction::ReverseSwbRegister(x, y) => {
                let rx = self.registers[x.value as usize];
                let ry = self.registers[y.value as usize];
                let res: u8 = if ry >= rx {
                    ry - rx
                } else {
                    ((ry as u16 + 256 - rx as u16) % 256) as u8
                };
                let flag: u8 = if ry >= rx { 1 } else { 0 };
                self.registers.set(x.value as usize, res);
                self.registers.set(FLAG_REGISTER, flag);
                self.ip = self.ip + 2;
                Ok(Effect::NoEffect)
            },
            Instruction::ShlRegister(x, _y) => {
                let rx = self.registers[x.value as usize];
                let flag: u8 = rx / 128;
                self.registers.set(x.value as usize, ((rx as u16 * 2) % 256) as u8);
                self.registers.set(FLAG_REGISTER, flag);
                self.ip = self.ip + 2;
                Ok(Effect::NoEffect)
            },
            Instruction::SkipIfRegistersNotEqual(x, y) => {
                let cond = self.registers[x.value as usize] != self.registers[y.value as usize];
                self.ip = if cond { self.ip + 4 } else { self.ip + 2 };
                Ok(Effect::NoEffect)
            },
            Instruction::StoreAddress(a) => {
                self.addr = a;
                self.ip = self.ip + 2;
                Ok(Effect::NoEffect)
            },
            Instruction::JumpOffset(a) => {
                self.ip = a.value + self.registers[0] as u16;
                Ok(Effect::NoEffect)
            },
            Instruction::StoreRandom(x, c) => {
                self.registers.set(x.value as usize, random & c.value);
                self.ip = self.ip + 2;
                Ok(Effect::NoEffect)
            },
            Instruction::DrawSprite(x, y, n) => {
                let base = self.addr.value as usize;
                let count = n.value as usize;
                if base + count > MEMORY_SIZE {
                    Err(MachineError::OutOfBounds { at: self.addr.value })
                } else {
                    let sprite = read_mem_slice(&self.memory, base, count);
                    let px = self.registers[x.value as usize];
                    let py = self.registers[y.value as usize];
                    self.ip = self.ip + 2;
                    Ok(Effect::Draw { x: px, y: py, sprite })
                }
            },
            Instruction::SkipIfPressed(x) => {
                let k: u16 = (self.registers[x.value as usize] % 16) as u16;
                let cond = (keys >> k) & 1 == 1;
                self.ip = if cond { self.ip + 4 } else { self.ip + 2 };
                Ok(Effect::NoEffect)
            },
            Instruction::SkipIfNotPressed(x) => {
                let k: u16 = (self.registers[x.value as usize] % 16) as u16;
                let cond = (keys >> k) & 1 != 1;
                self.ip = if cond { self.ip + 4 } else { self.ip + 2 };
                Ok(Effect::NoEffect)
            },
            Instruction::SetFromDelay(x) => {
                self.registers.set(x.value as usize, timers.delay);
                self.ip = self.ip + 2;
                Ok(Effect::NoEffect)
            },
            Instruction::WaitKeyPress(x) => {
                self.ip = self.ip + 2;
                Ok(Effect::WaitKey { dest: x })
            },
            Instruction::SetToDelay(x) => {
                timers.delay = self.registers[x.value as usize];
                self.ip = self.ip + 2;
                Ok(Effect::NoEffect)
            },
            Instruction::SetToSound(x) => {
                timers.sound = self.registers[x.value as usize];
                self.ip = self.ip + 2;
                Ok(Effect::NoEffect)
            },
            Instruction::AddAddress(x) => {
                let sum: u16 = self.addr.value + self.registers[x.value as usize] as u16;
                self.addr = Address { value: sum % (MEMORY_SIZE as u16) };
                self.ip = self.ip + 2;
                Ok(Effect::NoEffect)
            },
            Instruction::SetAddressToSprite(x) => {
                let digit = self.registers[x.value as usize] % 16;
                self.addr = Address { value: 5 * digit as u16 };
                self.ip = self.ip + 2;
                Ok(Effect::NoEffect)
            },
            Instruction::StoreBCD(x) => {
                let base = self.addr.value as usize;
                if base + 3 > MEMORY_SIZE {
                    Err(MachineError::OutOfBounds { at: self.addr.value })
                } else {
                    let rx = self.registers[x.value as usize];
                    self.memory.set(base, rx / 100);
                    self.memory.set(base + 1, (rx / 10) % 10);
                    self.memory.set(base + 2, rx % 10);
                    self.ip = self.ip + 2;
                    Ok(Effect::NoEffect)
                }
            },
            Instruction::StoreRegisters(x) => {
                let base = self.addr.value as usize;
                let count = x.value as usize + 1;
                if base + count > MEMORY_SIZE {
                    Err(MachineError::OutOfBounds { at: self.addr.value })
                } else {
                    let ghost pre = self@;
                    copy_regs_to_mem(&mut self.memory, &self.registers, base, count);
                    self.ip = self.ip + 2;
                    proof {
                        assert(self.memory@ =~= Seq::new(
                            pre.mem.len(),
                            |j: int| if pre.addr <= j <= pre.addr + x.value {
                                pre.regs[j - pre.addr]
                            } else {
                                pre.mem[j]
                            },
                        ));
                    }
                    Ok(Effect::NoEffect)
                }
            },
            Instruction::LoadRegisters(x) => {
                let base = self.addr.value as usize;
                let count = x.value as usize + 1;
                if base + count > MEMORY_SIZE {
                    Err(MachineError::OutOfBounds { at: self.addr.value })
                } else {
                    let ghost pre = self@;
                    copy_mem_to_regs(&mut self.registers, &self.memory, base, count);
                    self.ip = self.ip + 2;
                    proof {
                        assert(self.registers@ =~= Seq::new(
                            pre.regs.len(),
                            |j: int| if j <= x.value {
                                pre.mem[pre.addr + j]
                            } else {
                                pre.regs[j]
                            },
                        ));
                    }
                    Ok(Effect::NoEffect)
                }
            },
        }
    }

    /// Writes the display collaborator's collision answer for the last
    /// draw request into the flag register VF: 1 when a drawn pixel
    /// collided with an already-set pixel, else 0.
    pub fn set_collision_flag(&mut self, collided: bool)
        requires
            old(self)@.wf(),
        ensures
            final(self)@ == (StateModel {
                regs: old(self)@.regs.update(
                    FLAG_REGISTER as int,
                    if collided { 1u8 } else { 0u8 },
                ),
                ..old(self)@
            }),
            final(self)@.wf(),
    {
        self.registers.set(FLAG_REGISTER, if collided { 1 } else { 0 });
    }

    /// Resumes a paused wait-for-key operation: the input collaborator
    /// reports which key was pressed and it is written into the operation's
    /// destination register.
    pub fn provide_key(&mut self, dest: Register, key: u8)
        requires
            old(self)@.wf(),
            dest.wf(),
        ensures
            final(self)@ == (StateModel {
                regs: old(self)@.regs.update(dest.value as int, key),
                ..old(self)@
            }),
            final(self)@.wf(),
    {
        self.registers.set(dest.value as usize, key);
    }
}

/// Conditional skip offsets: skip-if-equal with matching operands
/// advances the program counter by exactly 4 from its pre-instruction
/// value, and by exactly 2 with non-matching operands; everything else
/// is untouched either way.
pub proof fn lemma_skip_offsets(
    pre: StateModel,
    t: Timers,
    x: Register,
    c: Constant,
    keys: u16,
    random: u8,
)
    requires
        pre.wf(),
        x.wf(),
        pre.ip + 1 < MEMORY_SIZE,
    ensures
        ({
            let r = step_spec(pre, t, Instruction::SkipIfEqual(x, c), keys, random);
            &&& r is Ok
            &&& r->Ok_0.0.ip == if pre.regs[x.value as int] == c.value {
                pre.ip + 4
            } else {
                pre.ip + 2
            }
            &&& r->Ok_0.0 == (StateModel { ip: r->Ok_0.0.ip, ..pre })
            &&& r->Ok_0.1 == t
        }),
{
}

/// Stack discipline: a call pushes the address of the instruction after
/// it and jumps; a return then restores exactly that address and the
/// stack as it was before the call, touching nothing else. A call on a
/// full stack fails with a stack overflow and changes nothing.
pub proof fn lemma_call_return(pre: StateModel, t: Timers, a: Address, keys: u16, random: u8)
    requires
        pre.wf(),
        a.wf(),
        pre.ip + 1 < MEMORY_SIZE,
    ensures
        pre.stack.len() >= STACK_DEPTH ==> step_spec(pre, t, Instruction::Call(a), keys, random)
            == Err::<(StateModel, Timers, EffectModel), MachineError>(MachineError::StackOverflow),
        pre.stack.len() < STACK_DEPTH ==> ({
            let r1 = step_spec(pre, t, Instruction::Call(a), keys, random);
            &&& r1 is Ok
            &&& r1->Ok_0.0.ip == a.value
            &&& r1->Ok_0.0.wf()
            &&& ({
                let r2 = step_spec(r1->Ok_0.0, r1->Ok_0.1, Instruction::Return, keys, random);
                &&& r2 is Ok
                &&& r2->Ok_0.0.ip == pre.ip + 2
                &&& r2->Ok_0.0.stack == pre.stack
                &&& r2->Ok_0.0.regs == pre.regs
                &&& r2->Ok_0.0.mem == pre.mem
                &&& r2->Ok_0.0.addr == pre.addr
            })
        }),
{
    if pre.stack.len() < STACK_DEPTH {
        let pushed = pre.stack.push((pre.ip + 2) as u16);
        assert(pushed.last() == (pre.ip + 2) as u16);
        assert(pushed.drop_last() =~= pre.stack);
    }
}

} // verus!
