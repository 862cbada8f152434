//! AND: bitwise conjunction into a destination register.
//!
//! The field layout matches ADD: destination, first source, then a mode
//! bit choosing between a second source register (bit clear) and a 5-bit
//! sign-extended immediate (bit set). The condition flag is set from the
//! written value.

use vstd::prelude::*;
use crate::instructions::{flag_for, sign_extend, sign_extended, update_flags};
use crate::registers::Registers;

verus! {

/// The register file after an AND instruction: the destination register
/// holds the bitwise AND of the first source and the selected operand,
/// and the condition flag describes that value.
pub open spec fn and_spec(regs: Registers, instruction: u16) -> Registers {
    let dr = (instruction >> 9) & 0x7;
    let sr1 = (instruction >> 6) & 0x7;
    let operand = if (instruction >> 5) & 0x1 == 1 {
        sign_extend(instruction & 0x1F, 5)
    } else {
        regs.spec_read(instruction & 0x7)
    };
    let value = regs.spec_read(sr1) & operand;
    (Registers { cond: flag_for(value), ..regs.spec_update(dr, value) })
}

/// Executes an AND instruction against the register file.
pub fn and(instruction: u16, registers: &mut Registers)
    ensures
        *final(registers) == and_spec(*old(registers), instruction),
{
    proof {
        assert((instruction >> 9) & 0x7 < 8) by (bit_vector);
        assert((instruction >> 6) & 0x7 < 8) by (bit_vector);
        assert(instruction & 0x7 < 8) by (bit_vector);
    }
    let immediate_flag = (instruction >> 5) & 0x1;

    let destination_register = (instruction >> 9) & 0x7;
    let source_1 = (instruction >> 6) & 0x7;
    let source_1_value = registers.read(source_1);

    if immediate_flag == 1 {
        let immediate_value_extended = sign_extended(instruction & 0x1F, 5);
        registers.update(destination_register, source_1_value & immediate_value_extended);
    } else {
        let source_2 = instruction & 0x7;
        let source_2_value = registers.read(source_2);
        registers.update(destination_register, source_1_value & source_2_value);
    }

    update_flags(destination_register, registers);
}

} // verus!
