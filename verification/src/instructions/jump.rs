//! JMP: unconditional jump to the address held in a base register. With
//! base register 7 this doubles as the subroutine return (RET).

use vstd::prelude::*;
use crate::registers::Registers;

verus! {

/// The register file after a JMP instruction: the program counter takes
/// the value of the base register named by bits 8..6.
pub open spec fn jump_spec(regs: Registers, instruction: u16) -> Registers {
    let base = (instruction >> 6) & 0x7;
    (Registers { pc: regs.spec_read(base), ..regs })
}

/// Executes a JMP instruction against the register file.
pub fn jump(instruction: u16, registers: &mut Registers)
    ensures
        *final(registers) == jump_spec(*old(registers), instruction),
{
    proof {
        assert((instruction >> 6) & 0x7 < 8) by (bit_vector);
    }
    let base_register = (instruction >> 6) & 0x7;
    let base_register_value = registers.read(base_register);

    registers.update_program_counter(base_register_value);
}

} // verus!
