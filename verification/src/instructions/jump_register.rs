//! JSR / JSRR: subroutine call.
//!
//! The return address — the program counter as it stands after the fetch —
//! is saved into register 7 first. Bit 11 then selects the long form
//! (program counter moves by a sign-extended 11-bit displacement) or the
//! register form (program counter takes the base register's value; a base
//! of 7 therefore reads the just-saved return address).

use vstd::prelude::*;
use crate::instructions::{sign_extend, sign_extended};
use crate::registers::Registers;

verus! {

/// The register file after a JSR or JSRR instruction: register 7 holds
/// the pre-jump program counter, and the program counter holds either the
/// displaced value (long form) or the base register's value.
pub open spec fn jump_register_spec(regs: Registers, instruction: u16) -> Registers {
    let saved = regs.spec_update(7, regs.pc);
    if (instruction >> 11) & 0x1 == 1 {
        (Registers { pc: regs.pc.wrapping_add(sign_extend(instruction & 0x7FF, 11)), ..saved })
    } else {
        (Registers { pc: saved.spec_read((instruction >> 6) & 0x7), ..saved })
    }
}

/// Executes a JSR or JSRR instruction against the register file.
pub fn jump_register(instruction: u16, registers: &mut Registers)
    ensures
        *final(registers) == jump_register_spec(*old(registers), instruction),
{
    proof {
        assert((instruction >> 6) & 0x7 < 8) by (bit_vector);
    }
    let long_flag = (instruction >> 11) & 0x1;
    let return_address = registers.read_program_counter();
    registers.update(7, return_address);

    if long_flag == 1 {
        let offset = sign_extended(instruction & 0x7FF, 11);
        let target = return_address.wrapping_add(offset);
        registers.update_program_counter(target);
    } else {
        let base_register = (instruction >> 6) & 0x7;
        let target = registers.read(base_register);
        registers.update_program_counter(target);
    }
}

/// A subroutine call saves the pre-jump program counter into register 7,
/// and the program counter then holds the displaced value (long form) or
/// the base register's value (register form; stated for bases other than
/// 7, which the save has just overwritten).
pub proof fn lemma_jump_register(regs: Registers, instruction: u16)
    ensures
        jump_register_spec(regs, instruction).r7 == regs.pc,
        (instruction >> 11) & 0x1 == 1 ==> jump_register_spec(regs, instruction).pc
            == regs.pc.wrapping_add(sign_extend(instruction & 0x7FF, 11)),
        (instruction >> 11) & 0x1 != 1 && (instruction >> 6) & 0x7 != 7
            ==> jump_register_spec(regs, instruction).pc == regs.spec_read(
            (instruction >> 6) & 0x7,
        ),
{
    assert((instruction >> 6) & 0x7 < 8) by (bit_vector);
}

} // verus!
