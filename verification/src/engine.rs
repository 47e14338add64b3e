//! The run-loop entry point: one full turn of the fetch-decode-execute
//! engine, composing the decoder's and the executor's contracts.

use vstd::prelude::*;
use crate::decode::DecodeError;
use crate::decode::decode_instruction;
use crate::decode::hi_nibble;
use crate::decode::lo_nibble;
use crate::decode::spec_decode;
use crate::exec::Effect;
use crate::exec::step_spec;
use crate::machine::MachineError;
use crate::machine::MachineState;
use crate::machine::MEMORY_SIZE;
use crate::timers::Timers;

verus! {

impl MachineState {
    /// One full turn of the fetch-decode-execute engine: reads the
    /// instruction word at the program counter, decodes it and applies
    /// it. Every failure (program counter out of bounds, unknown opcode,
    /// fatal operation) is returned with the machine unchanged.
    pub fn step(
        &mut self,
        timers: &mut Timers,
        keys: u16,
        random: u8,
    ) -> (r: Result<Effect, MachineError>)
        requires
            old(self)@.wf(),
        ensures
            final(self)@.wf(),
            old(self)@.ip + 1 >= MEMORY_SIZE ==> {
                &&& r == Err::<Effect, MachineError>(MachineError::OutOfBounds {
                    at: old(self)@.ip,
                })
                &&& final(self)@ == old(self)@
                &&& *final(timers) == *old(timers)
            },
            old(self)@.ip + 1 < MEMORY_SIZE ==> ({
                let hi = old(self)@.mem[old(self)@.ip as int];
                let lo = old(self)@.mem[old(self)@.ip + 1];
                match spec_decode(hi_nibble(hi), lo_nibble(hi), hi_nibble(lo), lo_nibble(lo)) {
                    None => {
                        &&& r == Err::<Effect, MachineError>(MachineError::Decode(DecodeError {
                            at: old(self)@.ip,
                            a: hi_nibble(hi),
                            b: lo_nibble(hi),
                            c: hi_nibble(lo),
                            d: lo_nibble(lo),
                        }))
                        &&& final(self)@ == old(self)@
                        &&& *final(timers) == *old(timers)
                    },
                    Some(i) => match step_spec(old(self)@, *old(timers), i, keys, random) {
                        Ok(post) => {
                            &&& r matches Ok(e) && e@ == post.2
                            &&& final(self)@ == post.0
                            &&& *final(timers) == post.1
                        },
                        Err(er) => {
                            &&& r == Err::<Effect, MachineError>(er)
                            &&& final(self)@ == old(self)@
                            &&& *final(timers) == *old(timers)
                        },
                    },
                }
            }),
    {
        match self.fetch() {
            Err(e) => Err(e),
            Ok((hi, lo)) => {
                match decode_instruction(hi, lo, self.ip) {
                    Err(e) => Err(MachineError::Decode(e)),
                    Ok(instr) => self.execute(timers, instr, keys, random),
                }
            },
        }
    }

}

} // verus!
