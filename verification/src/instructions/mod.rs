//! Instruction decoding and the pieces shared by every handler: sign
//! extension of immediate fields, condition-flag derivation, the opcode
//! table, and the signal an executed instruction reports back to the
//! execution loop.

pub mod add;
pub mod and;
pub mod br;
pub mod branch;
pub mod jump;
pub mod jump_register;
pub mod ld;
pub mod ldi;
pub mod ldr;
pub mod lea;
pub mod st;
pub mod sti;
pub mod str;
pub mod trap;
pub mod not;
pub mod res;
pub mod rti;

use vstd::prelude::*;
use crate::channel::ByteChannel;
use crate::memory::Memory;
use crate::registers::Registers;

verus! {

/// The condition flag: exactly one of the three values holds at any time,
/// reflecting the sign of the last value written to a general register.
#[derive(Clone, Copy, Debug, PartialEq, Eq, Structural)]
pub enum ConditionalFlags {
    Positive,
    Zero,
    Negative,
}

impl ConditionalFlags {
    /// The one-hot encoding used by the branch instruction's n/z/p field:
    /// P is bit 0, Z is bit 1, N is bit 2.
    pub open spec fn bits_spec(self) -> u16 {
        match self {
            ConditionalFlags::Positive => 1,
            ConditionalFlags::Zero => 2,
            ConditionalFlags::Negative => 4,
        }
    }

    /// One-hot encoding of the flag (P=1, Z=2, N=4).
    pub fn bits(self) -> (r: u16)
        ensures
            r == self.bits_spec(),
    {
        match self {
            ConditionalFlags::Positive => 1,
            ConditionalFlags::Zero => 2,
            ConditionalFlags::Negative => 4,
        }
    }
}

/// The flag describing a just-written register value: `Zero` for 0,
/// `Negative` when the high bit is set, `Positive` otherwise.
pub open spec fn flag_for(value: u16) -> ConditionalFlags {
    if value == 0 {
        ConditionalFlags::Zero
    } else if value >> 15 == 1 {
        ConditionalFlags::Negative
    } else {
        ConditionalFlags::Positive
    }
}

/// Exactly one of {Negative, Zero, Positive} describes any written value,
/// and which one is decided by the value's zero-ness and high (sign) bit.
pub proof fn lemma_flag_trichotomy(value: u16)
    ensures
        flag_for(value) == ConditionalFlags::Zero <==> value == 0,
        flag_for(value) == ConditionalFlags::Negative <==> value >= 0x8000,
        flag_for(value) == ConditionalFlags::Positive <==> 0 < value < 0x8000,
{
    assert(value >> 15 == 1 <==> value >= 0x8000) by (bit_vector);
}

/// What an executed instruction tells the execution loop. `Running` means
/// execution may continue; every other value is terminal.
#[derive(Clone, Copy, Debug, PartialEq, Eq, Structural)]
pub enum Signal {
    /// The instruction completed and the machine may fetch the next one.
    Running,
    /// The HALT trap was executed.
    Halted,
    /// A reserved opcode (RES or RTI) was fetched.
    IllegalInstruction,
    /// A TRAP instruction carried a code outside the recognized set.
    UnknownTrap,
    /// A blocking read found the input stream exhausted.
    EndOfInput,
    /// The program counter reached the top of the address space.
    PcOutOfRange,
}

/// `x` with bit `bit_count - 1` replicated into all higher bits: the value
/// of a `bit_count`-bit two's-complement field widened to 16 bits.
pub open spec fn sign_extend(x: u16, bit_count: u16) -> u16 {
    if (x >> ((bit_count - 1) as u16)) & 1 == 1 {
        x | (0xFFFFu16 << bit_count)
    } else {
        x
    }
}

/// Sign-extends a `bit_count`-bit field to the full 16-bit width.
pub fn sign_extended(x: u16, bit_count: u16) -> (r: u16)
    requires
        1 <= bit_count < 16,
    ensures
        r == sign_extend(x, bit_count),
{
    if (x >> (bit_count - 1)) & 1 == 1 {
        x | (0xFFFF << bit_count)
    } else {
        x
    }
}

/// Sign extension undoes masking: a value that already fits in `n` signed
/// bits (its top bits are copies of bit `n - 1`) is reproduced exactly by
/// masking it to `n` bits and sign-extending the field back.
pub proof fn lemma_sign_extend_identity(x: u16, n: u16)
    by (bit_vector)
    requires
        1 <= n < 16,
        x >> ((n - 1) as u16) == 0 || x >> ((n - 1) as u16) == 0xFFFFu16 >> ((n - 1) as u16),
    ensures
        sign_extend(x & (((1u16 << n) - 1) as u16), n) == x,
{
}

/// Sets the condition flag from the value currently held by general
/// register `r`.
pub fn update_flags(r: u16, registers: &mut Registers)
    requires
        r < 8,
    ensures
        *final(registers) == (Registers {
            cond: flag_for(old(registers).spec_read(r)),
            ..*old(registers)
        }),
{
    if registers.read(r) == 0 {
        registers.update_cond_flag(ConditionalFlags::Zero);
    } else if registers.read(r) >> 15 == 1 {
        registers.update_cond_flag(ConditionalFlags::Negative);
    } else {
        registers.update_cond_flag(ConditionalFlags::Positive);
    }
}

/// The sixteen opcodes, in the order of their 4-bit encodings (BR is 0,
/// TRAP is 15). RES and RTI are reserved: fetching either is fatal.
#[allow(non_camel_case_types)]
#[derive(Clone, Copy, Debug, PartialEq, Eq, Structural)]
pub enum Instructions {
    BR,
    ADD,
    LD,
    ST,
    JSR,
    AND,
    LDR,
    STR,
    RTI,
    NOT,
    LDI,
    STI,
    JMP,
    RES,
    LEA,
    TRAP,
}

impl Instructions {
    /// The opcode selected by a 4-bit value; `None` for anything above 15.
    pub open spec fn from_opcode_spec(value: u16) -> Option<Instructions> {
        if value == 0 {
            Some(Instructions::BR)
        } else if value == 1 {
            Some(Instructions::ADD)
        } else if value == 2 {
            Some(Instructions::LD)
        } else if value == 3 {
            Some(Instructions::ST)
        } else if value == 4 {
            Some(Instructions::JSR)
        } else if value == 5 {
            Some(Instructions::AND)
        } else if value == 6 {
            Some(Instructions::LDR)
        } else if value == 7 {
            Some(Instructions::STR)
        } else if value == 8 {
            Some(Instructions::RTI)
        } else if value == 9 {
            Some(Instructions::NOT)
        } else if value == 10 {
            Some(Instructions::LDI)
        } else if value == 11 {
            Some(Instructions::STI)
        } else if value == 12 {
            Some(Instructions::JMP)
        } else if value == 13 {
            Some(Instructions::RES)
        } else if value == 14 {
            Some(Instructions::LEA)
        } else if value == 15 {
            Some(Instructions::TRAP)
        } else {
            None
        }
    }

    /// Decodes a raw opcode value; fails with `None` rather than falling
    /// through, so an extended numeric mapping cannot silently no-op.
    pub fn try_from(value: u16) -> (r: Option<Instructions>)
        ensures
            r == Instructions::from_opcode_spec(value),
    {
        match value {
            0 => Some(Instructions::BR),
            1 => Some(Instructions::ADD),
            2 => Some(Instructions::LD),
            3 => Some(Instructions::ST),
            4 => Some(Instructions::JSR),
            5 => Some(Instructions::AND),
            6 => Some(Instructions::LDR),
            7 => Some(Instructions::STR),
            8 => Some(Instructions::RTI),
            9 => Some(Instructions::NOT),
            10 => Some(Instructions::LDI),
            11 => Some(Instructions::STI),
            12 => Some(Instructions::JMP),
            13 => Some(Instructions::RES),
            14 => Some(Instructions::LEA),
            15 => Some(Instructions::TRAP),
            _ => None,
        }
    }
}

/// The whole machine after one decoded instruction: register file, memory
/// contents, pending input, produced output, and the signal for the
/// execution loop. The opcode is the top four bits of the instruction
/// word; RES and RTI leave the state untouched and report the
/// illegal-instruction condition.
pub open spec fn execute_instruction_spec(
    instruction: u16,
    regs: Registers,
    mem: Seq<u16>,
    input: Seq<u8>,
    output: Seq<u8>,
) -> (Registers, Seq<u16>, Seq<u8>, Seq<u8>, Signal) {
    let op = instruction >> 12;
    if op == 0 {
        (br::br_spec(regs, instruction), mem, input, output, Signal::Running)
    } else if op == 1 {
        (add::add_spec(regs, instruction), mem, input, output, Signal::Running)
    } else if op == 2 {
        let r = ld::ld_spec(regs, mem, input, instruction);
        (r.0, r.1, r.2, output, Signal::Running)
    } else if op == 3 {
        (regs, st::st_spec(regs, mem, instruction), input, output, Signal::Running)
    } else if op == 4 {
        (jump_register::jump_register_spec(regs, instruction), mem, input, output, Signal::Running)
    } else if op == 5 {
        (and::and_spec(regs, instruction), mem, input, output, Signal::Running)
    } else if op == 6 {
        let r = ldr::ldr_spec(regs, mem, input, instruction);
        (r.0, r.1, r.2, output, Signal::Running)
    } else if op == 7 {
        (regs, str::str_spec(regs, mem, instruction), input, output, Signal::Running)
    } else if op == 8 {
        (regs, mem, input, output, Signal::IllegalInstruction)
    } else if op == 9 {
        (not::not_spec(regs, instruction), mem, input, output, Signal::Running)
    } else if op == 10 {
        let r = ldi::ldi_spec(regs, mem, input, instruction);
        (r.0, r.1, r.2, output, Signal::Running)
    } else if op == 11 {
        let r = sti::sti_spec(regs, mem, input, instruction);
        (regs, r.0, r.1, output, Signal::Running)
    } else if op == 12 {
        (jump::jump_spec(regs, instruction), mem, input, output, Signal::Running)
    } else if op == 13 {
        (regs, mem, input, output, Signal::IllegalInstruction)
    } else if op == 14 {
        (lea::lea_spec(regs, instruction), mem, input, output, Signal::Running)
    } else if op == 15 {
        let r = trap::trap_spec(regs, mem, input, output, instruction);
        (r.0, mem, r.1, r.2, r.3)
    } else {
        (regs, mem, input, output, Signal::IllegalInstruction)
    }
}

/// Every instruction that writes a general register leaves the condition
/// flag describing the value now held by its destination register — by
/// [`lemma_flag_trichotomy`], exactly one of {N, Z, P}, decided by that
/// value's zero-ness and sign bit. The register-writing opcodes are ADD,
/// AND, NOT, LD, LDI, LDR and LEA.
pub proof fn lemma_written_register_flag(
    instruction: u16,
    regs: Registers,
    mem: Seq<u16>,
    input: Seq<u8>,
    output: Seq<u8>,
)
    requires
        ({
            let op = instruction >> 12;
            op == 1 || op == 5 || op == 9 || op == 2 || op == 10 || op == 6 || op == 14
        }),
    ensures
        ({
            let r = execute_instruction_spec(instruction, regs, mem, input, output);
            let dr = (instruction >> 9) & 0x7;
            r.0.cond == flag_for(r.0.spec_read(dr))
        }),
{
    assert((instruction >> 9) & 0x7 < 8) by (bit_vector);
}

/// Decodes the opcode of a fetched instruction word and runs the owning
/// handler, reporting back the handler's signal.
pub fn execute_instruction(
    instruction: u16,
    registers: &mut Registers,
    memory: &mut Memory,
    chan: &mut ByteChannel,
) -> (sig: Signal)
    requires
        old(memory).wf(),
    ensures
        final(memory).wf(),
        (*final(registers), final(memory)@, final(chan).input@, final(chan).output@, sig)
            == execute_instruction_spec(
            instruction,
            *old(registers),
            old(memory)@,
            old(chan).input@,
            old(chan).output@,
        ),
{
    let opcode = instruction >> 12;
    proof {
        assert(instruction >> 12 < 16) by (bit_vector);
    }
    let instruction_kind = Instructions::try_from(opcode);
    match instruction_kind {
        Some(Instructions::BR) => {
            br::br(instruction, registers);
            Signal::Running
        }
        Some(Instructions::ADD) => {
            add::add(instruction, registers);
            Signal::Running
        }
        Some(Instructions::LD) => {
            ld::ld(instruction, registers, memory, chan);
            Signal::Running
        }
        Some(Instructions::ST) => {
            st::st(instruction, registers, memory);
            Signal::Running
        }
        Some(Instructions::JSR) => {
            jump_register::jump_register(instruction, registers);
            Signal::Running
        }
        Some(Instructions::AND) => {
            and::and(instruction, registers);
            Signal::Running
        }
        Some(Instructions::LDR) => {
            ldr::ldr(instruction, registers, memory, chan);
            Signal::Running
        }
        Some(Instructions::STR) => {
            str::str(instruction, registers, memory);
            Signal::Running
        }
        Some(Instructions::RTI) => rti::rti(instruction, registers),
        Some(Instructions::NOT) => {
            not::not(instruction, registers);
            Signal::Running
        }
        Some(Instructions::LDI) => {
            ldi::ldi(instruction, registers, memory, chan);
            Signal::Running
        }
        Some(Instructions::STI) => {
            sti::sti(instruction, registers, memory, chan);
            Signal::Running
        }
        Some(Instructions::JMP) => {
            jump::jump(instruction, registers);
            Signal::Running
        }
        Some(Instructions::RES) => res::res(instruction, registers),
        Some(Instructions::LEA) => {
            lea::lea(instruction, registers);
            Signal::Running
        }
        Some(Instructions::TRAP) => trap::trap(instruction, registers, memory, chan),
        None => {
            proof {
                assert(false);
            }
            Signal::IllegalInstruction
        }
    }
}

} // verus!
