//! The register file: eight general-purpose 16-bit registers, the program
//! counter, and the condition flag derived from the last register write.

use vstd::prelude::*;
use crate::instructions::ConditionalFlags;

verus! {

/// Address at which execution conventionally starts.
pub const PROGRAM_COUNTER_START: u16 = 0x3000;

/// The machine's register file. General registers are addressed by index
/// 0 through 7; the program counter and the condition flag have dedicated
/// accessors. An out-of-range general index is a caller error (it would
/// mean a decoder bug), so the accessors require `index < 8`.
pub struct Registers {
    pub r0: u16,
    pub r1: u16,
    pub r2: u16,
    pub r3: u16,
    pub r4: u16,
    pub r5: u16,
    pub r6: u16,
    pub r7: u16,
    pub pc: u16,
    pub cond: ConditionalFlags,
}

impl Registers {
    /// The register file at machine start: all general registers zero, the
    /// program counter at the conventional start address, the flag `Zero`.
    pub open spec fn initial_spec() -> Registers {
        (Registers {
            r0: 0,
            r1: 0,
            r2: 0,
            r3: 0,
            r4: 0,
            r5: 0,
            r6: 0,
            r7: 0,
            pc: PROGRAM_COUNTER_START,
            cond: ConditionalFlags::Zero,
        })
    }

    /// The value of general register `index`.
    pub open spec fn spec_read(self, index: u16) -> u16 {
        if index == 0 {
            self.r0
        } else if index == 1 {
            self.r1
        } else if index == 2 {
            self.r2
        } else if index == 3 {
            self.r3
        } else if index == 4 {
            self.r4
        } else if index == 5 {
            self.r5
        } else if index == 6 {
            self.r6
        } else {
            self.r7
        }
    }

    /// The register file with general register `index` set to `value`.
    pub open spec fn spec_update(self, index: u16, value: u16) -> Registers {
        if index == 0 {
            (Registers { r0: value, ..self })
        } else if index == 1 {
            (Registers { r1: value, ..self })
        } else if index == 2 {
            (Registers { r2: value, ..self })
        } else if index == 3 {
            (Registers { r3: value, ..self })
        } else if index == 4 {
            (Registers { r4: value, ..self })
        } else if index == 5 {
            (Registers { r5: value, ..self })
        } else if index == 6 {
            (Registers { r6: value, ..self })
        } else {
            (Registers { r7: value, ..self })
        }
    }

    pub fn initial() -> (r: Registers)
        ensures
            r == Registers::initial_spec(),
    {
        Registers {
            r0: 0,
            r1: 0,
            r2: 0,
            r3: 0,
            r4: 0,
            r5: 0,
            r6: 0,
            r7: 0,
            pc: PROGRAM_COUNTER_START,
            cond: ConditionalFlags::Zero,
        }
    }

    /// Writes general register `register_index`.
    pub fn update(&mut self, register_index: u16, value: u16)
        requires
            register_index < 8,
        ensures
            *final(self) == old(self).spec_update(register_index, value),
    {
        if register_index == 0 {
            self.r0 = value;
        } else if register_index == 1 {
            self.r1 = value;
        } else if register_index == 2 {
            self.r2 = value;
        } else if register_index == 3 {
            self.r3 = value;
        } else if register_index == 4 {
            self.r4 = value;
        } else if register_index == 5 {
            self.r5 = value;
        } else if register_index == 6 {
            self.r6 = value;
        } else {
            self.r7 = value;
        }
    }

    pub fn update_program_counter(&mut self, value: u16)
        ensures
            *final(self) == (Registers { pc: value, ..*old(self) }),
    {
        self.pc = value;
    }

    pub fn update_cond_flag(&mut self, value: ConditionalFlags)
        ensures
            *final(self) == (Registers { cond: value, ..*old(self) }),
    {
        self.cond = value;
    }

    /// Reads general register `register`.
    pub fn read(&self, register: u16) -> (r: u16)
        requires
            register < 8,
        ensures
            r == self.spec_read(register),
    {
        if register == 0 {
            self.r0
        } else if register == 1 {
            self.r1
        } else if register == 2 {
            self.r2
        } else if register == 3 {
            self.r3
        } else if register == 4 {
            self.r4
        } else if register == 5 {
            self.r5
        } else if register == 6 {
            self.r6
        } else {
            self.r7
        }
    }

    pub fn read_cond_flag(&self) -> (r: ConditionalFlags)
        ensures
            r == self.cond,
    {
        self.cond
    }

    pub fn read_program_counter(&self) -> (r: u16)
        ensures
            r == self.pc,
    {
        self.pc
    }

    /// Advances the program counter by one. The caller keeps the counter
    /// below the top of the address space, so the increment cannot wrap.
    pub fn increment_program_counter(&mut self)
        requires
            old(self).pc < 0xFFFF,
        ensures
            *final(self) == (Registers { pc: (old(self).pc + 1) as u16, ..*old(self) }),
    {
        self.pc = self.pc + 1;
    }
}

} // verus!
