//! STR: store relative to a base register. The source register's value is
//! written at the base register's value plus a sign-extended 6-bit
//! displacement. Stores never poll the keyboard device.

use vstd::prelude::*;
use crate::instructions::{sign_extend, sign_extended};
use crate::memory::Memory;
use crate::registers::Registers;

verus! {

/// Memory contents after an STR instruction.
pub open spec fn str_spec(regs: Registers, mem: Seq<u16>, instruction: u16) -> Seq<u16> {
    let sr = (instruction >> 9) & 0x7;
    let base = (instruction >> 6) & 0x7;
    let address = regs.spec_read(base).wrapping_add(sign_extend(instruction & 0x3F, 6));
    mem.update(address as int, regs.spec_read(sr))
}

/// Executes an STR instruction against the register file and memory.
pub fn str(instruction: u16, registers: &mut Registers, memory: &mut Memory)
    requires
        old(memory).wf(),
    ensures
        final(memory).wf(),
        final(memory)@ == str_spec(*old(registers), old(memory)@, instruction),
        *final(registers) == *old(registers),
{
    proof {
        assert((instruction >> 9) & 0x7 < 8) by (bit_vector);
        assert((instruction >> 6) & 0x7 < 8) by (bit_vector);
    }
    let source_register = (instruction >> 9) & 0x7;
    let base_register = (instruction >> 6) & 0x7;

    let offset = sign_extended(instruction & 0x3F, 6);

    let address = registers.read(base_register).wrapping_add(offset);
    let value = registers.read(source_register);

    memory.write(address, value);
}

} // verus!
