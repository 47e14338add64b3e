//! Machine state: registers, address register, program counter, call
//! stack and the memory image, together with the fatal error kinds and
//! the fetch step. Mutated exclusively by the executor.

use vstd::prelude::*;
use vstd::pervasive::VecAdditionalExecFns;
use crate::decode::DecodeError;
use crate::values::Address;

verus! {

/// Size of the addressable memory image in bytes.
pub const MEMORY_SIZE: usize = 4096;

/// Number of general-purpose byte registers.
pub const NUM_REGISTERS: usize = 16;

/// Maximum call depth of the bounded return stack.
pub const STACK_DEPTH: usize = 16;

/// Conventional load address of a program image.
pub const PROGRAM_START: u16 = 0x200;

/// Index of the carry/borrow/collision flag register VF.
pub const FLAG_REGISTER: usize = 15;

/// A fatal condition for the running program. The core never aborts the
/// host: every failure is returned as a typed value and the caller
/// decides whether to halt, skip or patch.
#[derive(Clone, Copy, Debug, PartialEq, Eq, Structural)]
pub enum MachineError {
    /// An unrecognized instruction pattern, with its address and nibbles.
    Decode(DecodeError),
    /// A subroutine call would exceed the bounded stack depth.
    StackOverflow,
    /// A return was executed with an empty call stack.
    StackUnderflow,
    /// A program-counter or address-register-derived access fell beyond
    /// the memory image; `at` is the first offending address.
    OutOfBounds { at: u16 },
}

/// The mathematical model of a machine state: plain integers and
/// sequences, used by every contract about execution.
#[verifier::ext_equal]
pub ghost struct StateModel {
    pub ip: u16,
    pub finished: bool,
    pub addr: u16,
    pub regs: Seq<u8>,
    pub stack: Seq<u16>,
    pub mem: Seq<u8>,
}

impl StateModel {
    /// Well-formedness: full register file and memory image, bounded
    /// stack, and an address register within the 12-bit range.
    pub open spec fn wf(self) -> bool {
        &&& self.regs.len() == NUM_REGISTERS
        &&& self.mem.len() == MEMORY_SIZE
        &&& self.stack.len() <= STACK_DEPTH
        &&& self.addr <= 0xFFF
    }
}

/// The machine state of one running program: program counter, call
/// stack, register file, 12-bit address register, halted flag and the
/// full memory image (program plus working memory).
pub struct MachineState {
    pub ip: u16,
    pub finished: bool,
    pub addr: Address,
    pub registers: Vec<u8>,
    pub stack: Vec<u16>,
    pub memory: Vec<u8>,
}

impl View for MachineState {
    type V = StateModel;

    open spec fn view(&self) -> StateModel {
        StateModel {
            ip: self.ip,
            finished: self.finished,
            addr: self.addr.value,
            regs: self.registers@,
            stack: self.stack@,
            mem: self.memory@,
        }
    }
}

impl MachineState {
    /// A fresh machine: program counter at the conventional load address,
    /// empty stack, zeroed registers, address register and memory.
    pub fn new() -> (r: MachineState)
        ensures
            r@.wf(),
            r@.ip == PROGRAM_START,
            !r@.finished,
            r@.addr == 0,
            r@.stack.len() == 0,
            forall|i: int| 0 <= i < NUM_REGISTERS ==> r@.regs[i] == 0,
            forall|i: int| 0 <= i < MEMORY_SIZE ==> r@.mem[i] == 0,
    {
        MachineState {
            ip: PROGRAM_START,
            finished: false,
            addr: Address { value: 0 },
            registers: vec![0u8; NUM_REGISTERS],
            stack: Vec::new(),
            memory: vec![0u8; MEMORY_SIZE],
        }
    }

    /// Copies a program image into memory at the conventional load
    /// address. Loading from persistent storage is the host's job; this
    /// only establishes the precondition "memory contains the bytes".
    /// Returns `OutOfBounds` when the image would run past the memory
    /// ceiling, leaving the state unchanged.
    pub fn load_program(&mut self, program: &Vec<u8>) -> (r: Result<(), MachineError>)
        requires
            old(self)@.wf(),
        ensures
            final(self)@.wf(),
            final(self)@.ip == old(self)@.ip,
            final(self)@.finished == old(self)@.finished,
            final(self)@.addr == old(self)@.addr,
            final(self)@.regs == old(self)@.regs,
            final(self)@.stack == old(self)@.stack,
            PROGRAM_START + program@.len() <= MEMORY_SIZE ==> {
                &&& r == Ok::<(), MachineError>(())
                &&& final(self)@.mem.len() == MEMORY_SIZE
                &&& forall|i: int| 0 <= i < program@.len()
                    ==> final(self)@.mem[PROGRAM_START + i] == program@[i]
                &&& forall|i: int| 0 <= i < MEMORY_SIZE
                    && !(PROGRAM_START <= i < PROGRAM_START + program@.len())
                    ==> final(self)@.mem[i] == old(self)@.mem[i]
            },
            PROGRAM_START + program@.len() > MEMORY_SIZE ==> {
                &&& r == Err::<(), MachineError>(MachineError::OutOfBounds { at: PROGRAM_START })
                &&& final(self)@.mem == old(self)@.mem
            },
    {
        if program.len() > MEMORY_SIZE - (PROGRAM_START as usize) {
            return Err(MachineError::OutOfBounds { at: PROGRAM_START });
        }
        let base: usize = PROGRAM_START as usize;
        let mut i: usize = 0;
        while i < program.len()
            invariant
                base == PROGRAM_START as int,
                i <= program@.len(),
                base + program@.len() <= MEMORY_SIZE,
                self.memory@.len() == MEMORY_SIZE,
                self.ip == old(self).ip,
                self.finished == old(self).finished,
                self.addr == old(self).addr,
                self.registers@ == old(self).registers@,
                self.stack@ == old(self).stack@,
                forall|j: int| 0 <= j < i ==> self.memory@[base + j] == program@[j],
                forall|j: int| 0 <= j < MEMORY_SIZE && !(base <= j < base + i)
                    ==> self.memory@[j] == old(self).memory@[j],
            decreases program@.len() - i,
        {
            self.memory.set(base + i, program[i]);
            i = i + 1;
        }
        Ok(())
    }

    /// Reads the two bytes of the instruction word at the current program
    /// counter, or reports an out-of-bounds program counter.
    pub fn fetch(&self) -> (r: Result<(u8, u8), MachineError>)
        requires
            self@.wf(),
        ensures
            self@.ip + 1 < MEMORY_SIZE ==> r == Ok::<(u8, u8), MachineError>(
                (self@.mem[self@.ip as int], self@.mem[self@.ip + 1]),
            ),
            self@.ip + 1 >= MEMORY_SIZE ==> r == Err::<(u8, u8), MachineError>(
                MachineError::OutOfBounds { at: self@.ip },
            ),
    {
        let ip = self.ip as usize;
        if ip + 1 < MEMORY_SIZE {
            Ok((self.memory[ip], self.memory[ip + 1]))
        } else {
            Err(MachineError::OutOfBounds { at: self.ip })
        }
    }
}

} // verus!
