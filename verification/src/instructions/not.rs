//! NOT: bitwise complement of a source register into a destination
//! register, with the condition flag set from the written value.

use vstd::prelude::*;
use crate::instructions::{flag_for, update_flags};
use crate::registers::Registers;

verus! {

/// The register file after a NOT instruction: the destination register
/// holds the 16-bit complement of the source register, and the condition
/// flag describes that value.
pub open spec fn not_spec(regs: Registers, instruction: u16) -> Registers {
    let dr = (instruction >> 9) & 0x7;
    let sr = (instruction >> 6) & 0x7;
    let value = !regs.spec_read(sr);
    (Registers { cond: flag_for(value), ..regs.spec_update(dr, value) })
}

/// Executes a NOT instruction against the register file.
pub fn not(instruction: u16, registers: &mut Registers)
    ensures
        *final(registers) == not_spec(*old(registers), instruction),
{
    proof {
        assert((instruction >> 9) & 0x7 < 8) by (bit_vector);
        assert((instruction >> 6) & 0x7 < 8) by (bit_vector);
    }
    let destination_register = (instruction >> 9) & 0x7;
    let source_register = (instruction >> 6) & 0x7;
    let source_register_value = registers.read(source_register);

    registers.update(destination_register, !source_register_value);

    update_flags(destination_register, registers);
}

} // verus!
