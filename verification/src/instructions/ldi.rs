//! LDI: load indirect. The word at the program counter plus a
//! sign-extended 9-bit displacement is itself an address; the destination
//! register receives the word at that second address. Each of the two
//! memory reads polls the keyboard device when it lands on the status
//! register.

use vstd::prelude::*;
use crate::channel::ByteChannel;
use crate::instructions::{flag_for, sign_extend, sign_extended, update_flags};
use crate::memory::{input_after_read, mem_after_read, read_value, Memory, MR_KBSR};
use crate::registers::Registers;

verus! {

/// Register file, memory contents and pending input after an LDI
/// instruction, with the effects of both reads applied in order.
pub open spec fn ldi_spec(regs: Registers, mem: Seq<u16>, input: Seq<u8>, instruction: u16) -> (
    Registers,
    Seq<u16>,
    Seq<u8>,
) {
    let dr = (instruction >> 9) & 0x7;
    let first_address = regs.pc.wrapping_add(sign_extend(instruction & 0x1FF, 9));
    let second_address = read_value(mem, input, first_address);
    let mem1 = mem_after_read(mem, input, first_address);
    let input1 = input_after_read(input, first_address);
    let value = read_value(mem1, input1, second_address);
    (
        (Registers { cond: flag_for(value), ..regs.spec_update(dr, value) }),
        mem_after_read(mem1, input1, second_address),
        input_after_read(input1, second_address),
    )
}

/// Executes an LDI instruction against the register file and memory.
pub fn ldi(instruction: u16, registers: &mut Registers, memory: &mut Memory, chan: &mut ByteChannel)
    requires
        old(memory).wf(),
    ensures
        final(memory).wf(),
        (*final(registers), final(memory)@, final(chan).input@) == ldi_spec(
            *old(registers),
            old(memory)@,
            old(chan).input@,
            instruction,
        ),
        final(chan).output@ == old(chan).output@,
{
    proof {
        assert((instruction >> 9) & 0x7 < 8) by (bit_vector);
    }
    let destination_register = (instruction >> 9) & 0x7;
    let offset = sign_extended(instruction & 0x1FF, 9);

    let first_address = registers.read_program_counter().wrapping_add(offset);
    let address = memory.read(first_address, chan);

    let value = memory.read(address, chan);
    registers.update(destination_register, value);
    update_flags(destination_register, registers);
}

/// Round trip through an indirect load: store an address `a` at the
/// displaced program counter and a value `v` at `a`, and LDI leaves `v` in
/// the destination register (with the flag describing `v`), memory and
/// pending input untouched. Stated for a displaced address distinct from
/// `a` (else the second store hides the first) and with both addresses
/// away from the keyboard status register, whose read has poll effects.
pub proof fn lemma_ldi_round_trip(
    regs: Registers,
    mem: Seq<u16>,
    input: Seq<u8>,
    instruction: u16,
    a: u16,
    v: u16,
)
    requires
        mem.len() == 0x10000,
        regs.pc.wrapping_add(sign_extend(instruction & 0x1FF, 9)) != a,
        regs.pc.wrapping_add(sign_extend(instruction & 0x1FF, 9)) != MR_KBSR,
        a != MR_KBSR,
    ensures
        ({
            let first = regs.pc.wrapping_add(sign_extend(instruction & 0x1FF, 9));
            let prepared = mem.update(first as int, a).update(a as int, v);
            let dr = (instruction >> 9) & 0x7;
            let r = ldi_spec(regs, prepared, input, instruction);
            r.0.spec_read(dr) == v && r.0.cond == flag_for(v) && r.1 == prepared && r.2 == input
        }),
{
}

} // verus!
