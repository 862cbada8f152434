//! LD: load from memory at the program counter plus a sign-extended 9-bit
//! displacement, into a destination register, with the condition flag set
//! from the loaded value. The memory read polls the keyboard device when
//! it lands on the status register.

use vstd::prelude::*;
use crate::channel::ByteChannel;
use crate::instructions::{flag_for, sign_extend, sign_extended, update_flags};
use crate::memory::{input_after_read, mem_after_read, read_value, Memory};
use crate::registers::Registers;

verus! {

/// Register file, memory contents and pending input after an LD
/// instruction.
pub open spec fn ld_spec(regs: Registers, mem: Seq<u16>, input: Seq<u8>, instruction: u16) -> (
    Registers,
    Seq<u16>,
    Seq<u8>,
) {
    let dr = (instruction >> 9) & 0x7;
    let address = regs.pc.wrapping_add(sign_extend(instruction & 0x1FF, 9));
    let value = read_value(mem, input, address);
    (
        (Registers { cond: flag_for(value), ..regs.spec_update(dr, value) }),
        mem_after_read(mem, input, address),
        input_after_read(input, address),
    )
}

/// Executes an LD instruction against the register file and memory.
pub fn ld(instruction: u16, registers: &mut Registers, memory: &mut Memory, chan: &mut ByteChannel)
    requires
        old(memory).wf(),
    ensures
        final(memory).wf(),
        (*final(registers), final(memory)@, final(chan).input@) == ld_spec(
            *old(registers),
            old(memory)@,
            old(chan).input@,
            instruction,
        ),
        final(chan).output@ == old(chan).output@,
{
    proof {
        assert((instruction >> 9) & 0x7 < 8) by (bit_vector);
    }
    let destination_register = (instruction >> 9) & 0x7;
    let offset = sign_extended(instruction & 0x1FF, 9);
    let pc = registers.read_program_counter();

    let address = pc.wrapping_add(offset);

    let value = memory.read(address, chan);
    registers.update(destination_register, value);

    update_flags(destination_register, registers);
}

} // verus!
