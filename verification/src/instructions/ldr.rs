//! LDR: load relative to a base register. The destination register
//! receives the word at the base register's value plus a sign-extended
//! 6-bit displacement; the condition flag is set from the loaded value.

use vstd::prelude::*;
use crate::channel::ByteChannel;
use crate::instructions::{flag_for, sign_extend, sign_extended, update_flags};
use crate::memory::{input_after_read, mem_after_read, read_value, Memory};
use crate::registers::Registers;

verus! {

/// Register file, memory contents and pending input after an LDR
/// instruction.
pub open spec fn ldr_spec(regs: Registers, mem: Seq<u16>, input: Seq<u8>, instruction: u16) -> (
    Registers,
    Seq<u16>,
    Seq<u8>,
) {
    let dr = (instruction >> 9) & 0x7;
    let base = (instruction >> 6) & 0x7;
    let address = regs.spec_read(base).wrapping_add(sign_extend(instruction & 0x3F, 6));
    let value = read_value(mem, input, address);
    (
        (Registers { cond: flag_for(value), ..regs.spec_update(dr, value) }),
        mem_after_read(mem, input, address),
        input_after_read(input, address),
    )
}

/// Executes an LDR instruction against the register file and memory.
pub fn ldr(instruction: u16, registers: &mut Registers, memory: &mut Memory, chan: &mut ByteChannel)
    requires
        old(memory).wf(),
    ensures
        final(memory).wf(),
        (*final(registers), final(memory)@, final(chan).input@) == ldr_spec(
            *old(registers),
            old(memory)@,
            old(chan).input@,
            instruction,
        ),
        final(chan).output@ == old(chan).output@,
{
    proof {
        assert((instruction >> 9) & 0x7 < 8) by (bit_vector);
        assert((instruction >> 6) & 0x7 < 8) by (bit_vector);
    }
    let destination_register = (instruction >> 9) & 0x7;
    let base_register = (instruction >> 6) & 0x7;
    let offset = sign_extended(instruction & 0x3F, 6);

    let address = registers.read(base_register).wrapping_add(offset);

    let value = memory.read(address, chan);
    registers.update(destination_register, value);
    update_flags(destination_register, registers);
}

} // verus!
