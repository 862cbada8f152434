//! ST: store a source register's value into memory at the program counter
//! plus a sign-extended 9-bit displacement. Stores never poll the keyboard
//! device and never touch the condition flag.

use vstd::prelude::*;
use crate::instructions::{sign_extend, sign_extended};
use crate::memory::Memory;
use crate::registers::Registers;

verus! {

/// Memory contents after an ST instruction.
pub open spec fn st_spec(regs: Registers, mem: Seq<u16>, instruction: u16) -> Seq<u16> {
    let sr = (instruction >> 9) & 0x7;
    let address = regs.pc.wrapping_add(sign_extend(instruction & 0x1FF, 9));
    mem.update(address as int, regs.spec_read(sr))
}

/// Executes an ST instruction against the register file and memory.
pub fn st(instruction: u16, registers: &mut Registers, memory: &mut Memory)
    requires
        old(memory).wf(),
    ensures
        final(memory).wf(),
        final(memory)@ == st_spec(*old(registers), old(memory)@, instruction),
        *final(registers) == *old(registers),
{
    proof {
        assert((instruction >> 9) & 0x7 < 8) by (bit_vector);
    }
    let source_register = (instruction >> 9) & 0x7;
    let pc = registers.read_program_counter();
    let offset = sign_extended(instruction & 0x1FF, 9);

    let address = pc.wrapping_add(offset);
    let value = registers.read(source_register);

    memory.write(address, value);
}

} // verus!
