//! LEA: load effective address. The destination register receives the
//! program counter plus a sign-extended 9-bit displacement — the address
//! itself, with no memory access — and the condition flag is set from it.

use vstd::prelude::*;
use crate::instructions::{flag_for, sign_extend, sign_extended, update_flags};
use crate::registers::Registers;

verus! {

/// The register file after a LEA instruction: the destination register
/// holds the displaced program counter and the condition flag describes
/// that value.
pub open spec fn lea_spec(regs: Registers, instruction: u16) -> Registers {
    let dr = (instruction >> 9) & 0x7;
    let value = regs.pc.wrapping_add(sign_extend(instruction & 0x1FF, 9));
    (Registers { cond: flag_for(value), ..regs.spec_update(dr, value) })
}

/// Executes a LEA instruction against the register file.
pub fn lea(instruction: u16, registers: &mut Registers)
    ensures
        *final(registers) == lea_spec(*old(registers), instruction),
{
    proof {
        assert((instruction >> 9) & 0x7 < 8) by (bit_vector);
    }
    let destination_register = (instruction >> 9) & 0x7;
    let offset = sign_extended(instruction & 0x1FF, 9);

    let address = registers.read_program_counter().wrapping_add(offset);

    registers.update(destination_register, address);
    update_flags(destination_register, registers);
}

} // verus!
