//! The addressable memory: 65536 words of 16 bits, with two addresses
//! reserved for the memory-mapped keyboard device. Reading the keyboard
//! status address polls the input channel; no other access touches a
//! device, and writes never do.

use vstd::prelude::*;
use crate::channel::ByteChannel;

verus! {

/// Number of 16-bit words in memory: the full 16-bit address space.
pub const MEMORY_SIZE: usize = 65536;

/// Keyboard status register: reading it polls the input channel and leaves
/// the high bit set exactly when a byte is ready.
pub const MR_KBSR: u16 = 0xFE00;

/// Keyboard data register: holds the byte announced by the status register.
pub const MR_KBDR: u16 = 0xFE02;

/// Flat word-addressed memory. Every 16-bit address is valid.
pub struct Memory {
    memory: Vec<u16>,
}

/// Memory contents and pending input after the keyboard poll that a read
/// of the status address performs: with a byte available the status word
/// gets its high bit set and the data word receives the byte; with none
/// the status word is cleared.
pub open spec fn poll_update(mem: Seq<u16>, input: Seq<u8>) -> Seq<u16> {
    if input.len() > 0 {
        mem.update(MR_KBSR as int, 0x8000u16).update(MR_KBDR as int, input[0] as u16)
    } else {
        mem.update(MR_KBSR as int, 0u16)
    }
}

/// Memory contents after a read of `addr`: unchanged unless `addr` is the
/// keyboard status register, which polls first.
pub open spec fn mem_after_read(mem: Seq<u16>, input: Seq<u8>, addr: u16) -> Seq<u16> {
    if addr == MR_KBSR {
        poll_update(mem, input)
    } else {
        mem
    }
}

/// Pending input after a read of `addr`: one byte is consumed exactly when
/// `addr` is the keyboard status register and a byte was available.
pub open spec fn input_after_read(input: Seq<u8>, addr: u16) -> Seq<u8> {
    if addr == MR_KBSR && input.len() > 0 {
        input.skip(1)
    } else {
        input
    }
}

/// The word a read of `addr` returns: the stored word, after the keyboard
/// poll when `addr` is the status register.
pub open spec fn read_value(mem: Seq<u16>, input: Seq<u8>, addr: u16) -> u16 {
    mem_after_read(mem, input, addr)[addr as int]
}

/// All-zero memory contents.
pub open spec fn zero_mem() -> Seq<u16> {
    Seq::new(MEMORY_SIZE as nat, |i: int| 0u16)
}

impl View for Memory {
    type V = Seq<u16>;

    closed spec fn view(&self) -> Seq<u16> {
        self.memory@
    }
}

impl Memory {
    /// Every address of the 16-bit space is backed by a word.
    pub open spec fn wf(self) -> bool {
        self@.len() == MEMORY_SIZE
    }

    /// Memory with every word zero.
    pub fn empty() -> (m: Memory)
        ensures
            m.wf(),
            m@ == zero_mem(),
    {
        let mut words: Vec<u16> = Vec::new();
        while words.len() < MEMORY_SIZE
            invariant
                words@.len() <= MEMORY_SIZE,
                forall|i: int| 0 <= i < words@.len() ==> words@[i] == 0u16,
            decreases MEMORY_SIZE - words@.len(),
        {
            words.push(0);
        }
        proof {
            assert(words@ =~= zero_mem());
        }
        Memory { memory: words }
    }

    /// Polls the input channel on behalf of a status-register read and
    /// records the outcome in the two keyboard words.
    fn handle_keyboard(&mut self, chan: &mut ByteChannel)
        requires
            old(self).wf(),
        ensures
            final(self).wf(),
            final(self)@ == poll_update(old(self)@, old(chan).input@),
            final(chan).input@ == input_after_read(old(chan).input@, MR_KBSR),
            final(chan).output@ == old(chan).output@,
    {
        match chan.try_read_byte() {
            Some(b) => {
                self.write(MR_KBSR, 0x8000);
                self.write(MR_KBDR, b as u16);
            }
            None => {
                self.write(MR_KBSR, 0);
            }
        }
    }

    /// Reads the word at `index`. Reading the keyboard status register
    /// first polls the input channel (the one side-effecting access);
    /// every other address is a plain lookup.
    pub fn read(&mut self, index: u16, chan: &mut ByteChannel) -> (r: u16)
        requires
            old(self).wf(),
        ensures
            final(self).wf(),
            final(self)@ == mem_after_read(old(self)@, old(chan).input@, index),
            final(chan).input@ == input_after_read(old(chan).input@, index),
            final(chan).output@ == old(chan).output@,
            r == read_value(old(self)@, old(chan).input@, index),
    {
        if index == MR_KBSR {
            self.handle_keyboard(chan);
        }
        self.memory[index as usize]
    }

    /// The word at `index`, read as plain data: no device is polled. This
    /// is the access the trap handlers use to walk strings in memory.
    pub fn peek(&self, index: u16) -> (r: u16)
        requires
            self.wf(),
        ensures
            r == self@[index as int],
    {
        self.memory[index as usize]
    }

    /// Stores `value` at `index`. Writes never touch the keyboard device.
    pub fn write(&mut self, index: u16, value: u16)
        requires
            old(self).wf(),
        ensures
            final(self).wf(),
            final(self)@ == old(self)@.update(index as int, value),
    {
        self.memory.set(index as usize, value);
    }
}

} // verus!
