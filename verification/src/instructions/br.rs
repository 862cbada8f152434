//! BR: conditional branch.
//!
//! Bits 11, 10 and 9 select the n, z and p conditions; the low nine bits
//! are a sign-extended displacement. The branch is taken when the selected
//! condition bits overlap the one-hot encoding of the current condition
//! flag — a bitwise AND tested against zero, so an instruction may name
//! several conditions and match any of them.

use vstd::prelude::*;
use crate::instructions::{sign_extend, sign_extended};
use crate::registers::Registers;

verus! {

/// The register file after a BR instruction: the program counter moves by
/// the sign-extended displacement when the instruction's n/z/p selection
/// overlaps the current flag, and nothing changes otherwise.
pub open spec fn br_spec(regs: Registers, instruction: u16) -> Registers {
    let pc_offset = sign_extend(instruction & 0x1FF, 9);
    let cond_flag = (instruction >> 9) & 0x7;
    if cond_flag & regs.cond.bits_spec() != 0 {
        (Registers { pc: regs.pc.wrapping_add(pc_offset), ..regs })
    } else {
        regs
    }
}

/// Executes a BR instruction against the register file.
pub fn br(instruction: u16, registers: &mut Registers)
    ensures
        *final(registers) == br_spec(*old(registers), instruction),
{
    let pc_offset = sign_extended(instruction & 0x1FF, 9);
    let cond_flag = (instruction >> 9) & 0x7;

    let current_flag = registers.read_cond_flag().bits();

    if cond_flag & current_flag != 0 {
        let target = registers.read_program_counter().wrapping_add(pc_offset);
        registers.update_program_counter(target);
    }
}

} // verus!
