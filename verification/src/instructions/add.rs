//! ADD: two's-complement addition into a destination register.
//!
//! Field layout, from the most significant end: a 4-bit opcode, a 3-bit
//! destination register, a 3-bit first source register, then one mode bit.
//! With the mode bit clear the remaining low bits name a second source
//! register; with it set they carry a 5-bit immediate that is
//! sign-extended before the addition. The sum wraps modulo 65536 and the
//! condition flag is set from the written value.

use vstd::prelude::*;
use crate::instructions::{flag_for, sign_extend, sign_extended, update_flags};
use crate::registers::Registers;

verus! {

/// The register file after an ADD instruction: the destination register
/// holds the wrapped sum of the first source and the selected operand, and
/// the condition flag describes that sum.
pub open spec fn add_spec(regs: Registers, instruction: u16) -> Registers {
    let dr = (instruction >> 9) & 0x7;
    let sr1 = (instruction >> 6) & 0x7;
    let operand = if (instruction >> 5) & 0x1 == 1 {
        sign_extend(instruction & 0x1F, 5)
    } else {
        regs.spec_read(instruction & 0x7)
    };
    let value = regs.spec_read(sr1).wrapping_add(operand);
    (Registers { cond: flag_for(value), ..regs.spec_update(dr, value) })
}

/// Executes an ADD instruction against the register file.
pub fn add(instruction: u16, registers: &mut Registers)
    ensures
        *final(registers) == add_spec(*old(registers), instruction),
{
    proof {
        assert((instruction >> 9) & 0x7 < 8) by (bit_vector);
        assert((instruction >> 6) & 0x7 < 8) by (bit_vector);
        assert(instruction & 0x7 < 8) by (bit_vector);
    }
    let destination_register = (instruction >> 9) & 0x7;
    let source_1 = (instruction >> 6) & 0x7;

    let imm_flag = (instruction >> 5) & 0x1;

    if imm_flag == 1 {
        let imm5 = sign_extended(instruction & 0x1F, 5);
        let value = registers.read(source_1).wrapping_add(imm5);
        registers.update(destination_register, value);
    } else {
        let source_2 = instruction & 0x7;
        let value = registers.read(source_1).wrapping_add(registers.read(source_2));
        registers.update(destination_register, value);
    }

    update_flags(destination_register, registers);
}

} // verus!
