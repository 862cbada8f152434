//! RES: the reserved opcode. Executing it is an illegal-instruction
//! condition: the machine state is left untouched and the execution loop
//! stops.

use vstd::prelude::*;
use crate::instructions::Signal;
use crate::registers::Registers;

verus! {

/// Reports the illegal-instruction condition; nothing is modified.
pub fn res(_instruction: u16, registers: &mut Registers) -> (sig: Signal)
    ensures
        *final(registers) == *old(registers),
        sig == Signal::IllegalInstruction,
{
    Signal::IllegalInstruction
}

} // verus!
