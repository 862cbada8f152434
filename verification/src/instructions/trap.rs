//! TRAP: system calls for character I/O, selected by the low byte of the
//! instruction. GETC (0x20) reads one byte into register 0 without echo;
//! OUT (0x21) writes register 0's low byte; PUTS (0x22) writes one byte
//! per memory word starting at the address in register 0 until a zero
//! word; IN (0x23) prompts, reads one byte into register 0 and echoes it;
//! PUTSP (0x24) is PUTS with two packed bytes per word; HALT (0x25) stops
//! the machine. Any other code is an unknown-trap condition. None of the
//! handlers writes memory, and the string walks read memory as plain data.

use vstd::prelude::*;
use crate::channel::ByteChannel;
use crate::instructions::Signal;
use crate::memory::Memory;
use crate::registers::Registers;

verus! {

/// The bytes PUTS emits for the string starting at `addr`: the low byte of
/// each word before the first zero word, stopping at the top of the
/// address space if no zero word follows.
pub open spec fn puts_output(mem: Seq<u16>, addr: int) -> Seq<u8>
    decreases 0x10000 - addr,
{
    if addr < 0 || addr >= 0x10000 {
        Seq::empty()
    } else if mem[addr] == 0 {
        Seq::empty()
    } else {
        seq![(mem[addr] & 0xFF) as u8] + puts_output(mem, addr + 1)
    }
}

/// The bytes PUTSP emits for the packed string starting at `addr`: for
/// each word before the first zero word, its low byte and then — unless it
/// is zero — its high byte.
pub open spec fn putsp_output(mem: Seq<u16>, addr: int) -> Seq<u8>
    decreases 0x10000 - addr,
{
    if addr < 0 || addr >= 0x10000 {
        Seq::empty()
    } else if mem[addr] == 0 {
        Seq::empty()
    } else {
        let lo = (mem[addr] & 0xFF) as u8;
        let hi = (mem[addr] >> 8) as u8;
        (if hi != 0 {
            seq![lo, hi]
        } else {
            seq![lo]
        }) + putsp_output(mem, addr + 1)
    }
}

/// The prompt IN writes before reading: the bytes of "Enter a  character : ".
pub open spec fn in_prompt() -> Seq<u8> {
    seq![
        0x45u8, 0x6E, 0x74, 0x65, 0x72, 0x20, 0x61, 0x20, 0x20, 0x63, 0x68, 0x61, 0x72, 0x61,
        0x63, 0x74, 0x65, 0x72, 0x20, 0x3A, 0x20,
    ]
}

/// Machine state after a TRAP instruction: the register file, the pending
/// input, the produced output, and the signal handed to the execution
/// loop. Memory is never modified by a trap.
pub open spec fn trap_spec(
    regs: Registers,
    mem: Seq<u16>,
    input: Seq<u8>,
    output: Seq<u8>,
    instruction: u16,
) -> (Registers, Seq<u8>, Seq<u8>, Signal) {
    let code = instruction & 0xFF;
    if code == 0x20 {
        if input.len() == 0 {
            (regs, input, output, Signal::EndOfInput)
        } else {
            ((Registers { r0: input[0] as u16, ..regs }), input.skip(1), output, Signal::Running)
        }
    } else if code == 0x21 {
        (regs, input, output.push((regs.r0 & 0xFF) as u8), Signal::Running)
    } else if code == 0x22 {
        (regs, input, output + puts_output(mem, regs.r0 as int), Signal::Running)
    } else if code == 0x23 {
        if input.len() == 0 {
            (regs, input, output + in_prompt(), Signal::EndOfInput)
        } else {
            (
                (Registers { r0: input[0] as u16, ..regs }),
                input.skip(1),
                (output + in_prompt()).push(input[0]),
                Signal::Running,
            )
        }
    } else if code == 0x24 {
        (regs, input, output + putsp_output(mem, regs.r0 as int), Signal::Running)
    } else if code == 0x25 {
        (regs, input, output, Signal::Halted)
    } else {
        (regs, input, output, Signal::UnknownTrap)
    }
}

/// GETC: one blocking keyboard byte into register 0, no echo, flags
/// untouched. An exhausted input stream is fatal.
pub fn trap_getc(registers: &mut Registers, chan: &mut ByteChannel) -> (sig: Signal)
    ensures
        old(chan).input@.len() == 0 ==> sig == Signal::EndOfInput
            && *final(registers) == *old(registers)
            && final(chan).input@ == old(chan).input@,
        old(chan).input@.len() > 0 ==> sig == Signal::Running
            && *final(registers) == (Registers {
                r0: old(chan).input@[0] as u16,
                ..*old(registers)
            })
            && final(chan).input@ == old(chan).input@.skip(1),
        final(chan).output@ == old(chan).output@,
{
    match chan.read_byte() {
        Some(b) => {
            registers.update(0, b as u16);
            Signal::Running
        }
        None => Signal::EndOfInput,
    }
}

/// OUT: the low byte of register 0 to the display.
pub fn trap_out(registers: &Registers, chan: &mut ByteChannel)
    ensures
        final(chan).input@ == old(chan).input@,
        final(chan).output@ == old(chan).output@.push((registers.r0 & 0xFF) as u8),
{
    let c = registers.read(0);
    chan.write_byte((c & 0xFF) as u8);
}

/// PUTS: one display byte per memory word starting at the address in
/// register 0, up to (not including) the first zero word.
pub fn trap_puts(registers: &Registers, memory: &Memory, chan: &mut ByteChannel)
    requires
        memory.wf(),
    ensures
        final(chan).input@ == old(chan).input@,
        final(chan).output@ == old(chan).output@ + puts_output(memory@, registers.r0 as int),
{
    let mut index: u32 = registers.read(0) as u32;
    while index < 0x10000
        invariant
            memory.wf(),
            index <= 0x10000,
            chan.input@ == old(chan).input@,
            old(chan).output@ + puts_output(memory@, registers.r0 as int) == chan.output@
                + puts_output(memory@, index as int),
        decreases 0x10000 - index,
    {
        let c = memory.peek(index as u16);
        if c == 0 {
            proof {
                assert(chan.output@ + puts_output(memory@, index as int) =~= chan.output@);
            }
            return;
        }
        let ghost before = chan.output@;
        proof {
            assert(c & 0xFF < 0x100) by (bit_vector);
        }
        chan.write_byte((c & 0xFF) as u8);
        proof {
            assert(before + puts_output(memory@, index as int) =~= chan.output@ + puts_output(
                memory@,
                index + 1,
            ));
        }
        index = index + 1;
    }
    proof {
        assert(chan.output@ + puts_output(memory@, index as int) =~= chan.output@);
    }
}

/// Writes the IN prompt to the display.
fn write_prompt(chan: &mut ByteChannel)
    ensures
        final(chan).input@ == old(chan).input@,
        final(chan).output@ == old(chan).output@ + in_prompt(),
{
    chan.write_byte(0x45);
    chan.write_byte(0x6E);
    chan.write_byte(0x74);
    chan.write_byte(0x65);
    chan.write_byte(0x72);
    chan.write_byte(0x20);
    chan.write_byte(0x61);
    chan.write_byte(0x20);
    chan.write_byte(0x20);
    chan.write_byte(0x63);
    chan.write_byte(0x68);
    chan.write_byte(0x61);
    chan.write_byte(0x72);
    chan.write_byte(0x61);
    chan.write_byte(0x63);
    chan.write_byte(0x74);
    chan.write_byte(0x65);
    chan.write_byte(0x72);
    chan.write_byte(0x20);
    chan.write_byte(0x3A);
    chan.write_byte(0x20);
    proof {
        assert(chan.output@ =~= old(chan).output@ + in_prompt());
    }
}

/// IN: prompt, one blocking keyboard byte into register 0, echoed to the
/// display. An exhausted input stream is fatal (the prompt has already
/// been written when that is discovered).
pub fn trap_in(registers: &mut Registers, chan: &mut ByteChannel) -> (sig: Signal)
    ensures
        old(chan).input@.len() == 0 ==> sig == Signal::EndOfInput
            && *final(registers) == *old(registers)
            && final(chan).input@ == old(chan).input@
            && final(chan).output@ == old(chan).output@ + in_prompt(),
        old(chan).input@.len() > 0 ==> sig == Signal::Running
            && *final(registers) == (Registers {
                r0: old(chan).input@[0] as u16,
                ..*old(registers)
            })
            && final(chan).input@ == old(chan).input@.skip(1)
            && final(chan).output@ == (old(chan).output@ + in_prompt()).push(old(chan).input@[0]),
{
    write_prompt(chan);
    match chan.read_byte() {
        Some(b) => {
            chan.write_byte(b);
            registers.update(0, b as u16);
            Signal::Running
        }
        None => Signal::EndOfInput,
    }
}

/// PUTSP: the packed-string variant of PUTS — for each word up to the
/// first zero word, its low byte and then its high byte unless zero.
pub fn trap_putsp(registers: &Registers, memory: &Memory, chan: &mut ByteChannel)
    requires
        memory.wf(),
    ensures
        final(chan).input@ == old(chan).input@,
        final(chan).output@ == old(chan).output@ + putsp_output(memory@, registers.r0 as int),
{
    let mut index: u32 = registers.read(0) as u32;
    while index < 0x10000
        invariant
            memory.wf(),
            index <= 0x10000,
            chan.input@ == old(chan).input@,
            old(chan).output@ + putsp_output(memory@, registers.r0 as int) == chan.output@
                + putsp_output(memory@, index as int),
        decreases 0x10000 - index,
    {
        let c = memory.peek(index as u16);
        if c == 0 {
            proof {
                assert(chan.output@ + putsp_output(memory@, index as int) =~= chan.output@);
            }
            return;
        }
        let ghost before = chan.output@;
        proof {
            assert(c & 0xFF < 0x100) by (bit_vector);
        }
        let c1 = (c & 0xFF) as u8;
        chan.write_byte(c1);
        proof {
            assert(c >> 8 < 0x100) by (bit_vector);
        }
        let c2 = (c >> 8) as u8;
        if c2 != 0 {
            chan.write_byte(c2);
        }
        proof {
            assert(before + putsp_output(memory@, index as int) =~= chan.output@ + putsp_output(
                memory@,
                index + 1,
            ));
        }
        index = index + 1;
    }
    proof {
        assert(chan.output@ + putsp_output(memory@, index as int) =~= chan.output@);
    }
}

/// HALT: reports the halt condition to the execution loop.
pub fn trap_halt() -> (sig: Signal)
    ensures
        sig == Signal::Halted,
{
    Signal::Halted
}

/// Dispatches a TRAP instruction on the low byte of its encoding.
pub fn trap(
    instruction: u16,
    registers: &mut Registers,
    memory: &Memory,
    chan: &mut ByteChannel,
) -> (sig: Signal)
    requires
        memory.wf(),
    ensures
        (*final(registers), final(chan).input@, final(chan).output@, sig) == trap_spec(
            *old(registers),
            memory@,
            old(chan).input@,
            old(chan).output@,
            instruction,
        ),
{
    let trap_code = instruction & 0xFF;

    match trap_code {
        0x20 => trap_getc(registers, chan),
        0x21 => {
            trap_out(registers, chan);
            Signal::Running
        }
        0x22 => {
            trap_puts(registers, memory, chan);
            Signal::Running
        }
        0x23 => trap_in(registers, chan),
        0x24 => {
            trap_putsp(registers, memory, chan);
            Signal::Running
        }
        0x25 => trap_halt(),
        _ => Signal::UnknownTrap,
    }
}

} // verus!
