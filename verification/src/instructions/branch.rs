//! The conditional branch under its spelled-out name; the semantics are
//! those of [`crate::instructions::br`].

use vstd::prelude::*;
use crate::instructions::br::{br, br_spec};
use crate::registers::Registers;

verus! {

/// Executes a BR instruction against the register file.
pub fn branch(instruction: u16, registers: &mut Registers)
    ensures
        *final(registers) == br_spec(*old(registers), instruction),
{
    br(instruction, registers);
}

} // verus!
