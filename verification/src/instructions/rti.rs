//! RTI: return from interrupt. This machine has no interrupt mechanism, so
//! the opcode is illegal: the machine state is left untouched and the
//! execution loop stops.

use vstd::prelude::*;
use crate::instructions::Signal;
use crate::registers::Registers;

verus! {

/// Reports the illegal-instruction condition; nothing is modified.
pub fn rti(_instruction: u16, registers: &mut Registers) -> (sig: Signal)
    ensures
        *final(registers) == *old(registers),
        sig == Signal::IllegalInstruction,
{
    Signal::IllegalInstruction
}

} // verus!
