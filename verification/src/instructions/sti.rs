//! STI: store indirect. The word at the program counter plus a
//! sign-extended 9-bit displacement names the address that receives the
//! source register's value. The address-fetching read polls the keyboard
//! device when it lands on the status register; the store itself never
//! does.

use vstd::prelude::*;
use crate::channel::ByteChannel;
use crate::instructions::{sign_extend, sign_extended};
use crate::memory::{input_after_read, mem_after_read, read_value, Memory};
use crate::registers::Registers;

verus! {

/// Memory contents and pending input after an STI instruction: the
/// intermediate read's poll effect, then the store at the fetched address.
pub open spec fn sti_spec(regs: Registers, mem: Seq<u16>, input: Seq<u8>, instruction: u16) -> (
    Seq<u16>,
    Seq<u8>,
) {
    let sr = (instruction >> 9) & 0x7;
    let first_address = regs.pc.wrapping_add(sign_extend(instruction & 0x1FF, 9));
    let target = read_value(mem, input, first_address);
    let mem1 = mem_after_read(mem, input, first_address);
    (
        mem1.update(target as int, regs.spec_read(sr)),
        input_after_read(input, first_address),
    )
}

/// Executes an STI instruction against the register file and memory.
pub fn sti(instruction: u16, registers: &mut Registers, memory: &mut Memory, chan: &mut ByteChannel)
    requires
        old(memory).wf(),
    ensures
        final(memory).wf(),
        (final(memory)@, final(chan).input@) == sti_spec(
            *old(registers),
            old(memory)@,
            old(chan).input@,
            instruction,
        ),
        *final(registers) == *old(registers),
        final(chan).output@ == old(chan).output@,
{
    proof {
        assert((instruction >> 9) & 0x7 < 8) by (bit_vector);
    }
    let source_register = (instruction >> 9) & 0x7;
    let pc = registers.read_program_counter();
    let offset = sign_extended(instruction & 0x1FF, 9);

    let first_address = pc.wrapping_add(offset);
    let address = memory.read(first_address, chan);
    let value = registers.read(source_register);

    memory.write(address, value);
}

} // verus!
