//! The machine itself: register file plus memory, driven by a
//! fetch-increment-decode-execute loop. One transition of that loop is
//! pinned down by [`step_spec`], and a bounded run of it by [`run_spec`];
//! the executable loop is proved to follow them exactly.

use vstd::prelude::*;
use crate::channel::ByteChannel;
use crate::instructions::{execute_instruction, execute_instruction_spec, Signal};
use crate::loader::{be_word, be_word_spec, loaded_mem, LoadError};
use crate::memory::{input_after_read, mem_after_read, read_value, zero_mem, Memory};
use crate::registers::Registers;

verus! {

/// The whole machine as one mathematical value: register file, memory
/// contents, pending input bytes, and produced output bytes.
#[verifier::ext_equal]
pub struct MachineState {
    pub regs: Registers,
    pub mem: Seq<u16>,
    pub input: Seq<u8>,
    pub output: Seq<u8>,
}

/// One transition of the execution loop: fetch the word at the program
/// counter (with the keyboard poll the fetch may perform), advance the
/// counter, and execute the fetched instruction.
pub open spec fn step_spec(s: MachineState) -> (MachineState, Signal) {
    let fetched = read_value(s.mem, s.input, s.regs.pc);
    let mem1 = mem_after_read(s.mem, s.input, s.regs.pc);
    let input1 = input_after_read(s.input, s.regs.pc);
    let regs1 = (Registers { pc: s.regs.pc.wrapping_add(1), ..s.regs });
    let r = execute_instruction_spec(fetched, regs1, mem1, input1, s.output);
    ((MachineState { regs: r.0, mem: r.1, input: r.2, output: r.3 }), r.4)
}

/// Up to `fuel` transitions of the execution loop: stepping stops at the
/// first terminal signal, or with `PcOutOfRange` when the program counter
/// stands at the top of the address space, or with `Running` when the
/// budget runs out first.
pub open spec fn run_spec(s: MachineState, fuel: nat) -> (MachineState, Signal)
    decreases fuel,
{
    if fuel == 0 {
        (s, Signal::Running)
    } else if s.regs.pc >= 0xFFFF {
        (s, Signal::PcOutOfRange)
    } else {
        let r = step_spec(s);
        if r.1 == Signal::Running {
            run_spec(r.0, (fuel - 1) as nat)
        } else {
            r
        }
    }
}

/// Register file and memory, owned as one context object so the engine is
/// re-entrant and each test can build a fresh machine.
pub struct VirtualMachine {
    pub memory: Memory,
    pub registers: Registers,
}

impl VirtualMachine {
    pub open spec fn wf(self) -> bool {
        self.memory.wf()
    }

    /// The machine together with a channel, as one [`MachineState`].
    pub open spec fn state_with(self, chan: ByteChannel) -> MachineState {
        (MachineState {
            regs: self.registers,
            mem: self.memory@,
            input: chan.input@,
            output: chan.output@,
        })
    }

    /// A fresh machine: zeroed memory, registers in their initial state.
    pub fn create() -> (vm: VirtualMachine)
        ensures
            vm.wf(),
            vm.registers == Registers::initial_spec(),
            vm.memory@ == zero_mem(),
    {
        VirtualMachine { memory: Memory::empty(), registers: Registers::initial() }
    }

    /// Reads a memory word, with the keyboard poll a read of the status
    /// register performs.
    pub fn read_memory(&mut self, address: u16, chan: &mut ByteChannel) -> (r: u16)
        requires
            old(self).wf(),
        ensures
            final(self).wf(),
            final(self).registers == old(self).registers,
            final(self).memory@ == mem_after_read(old(self).memory@, old(chan).input@, address),
            final(chan).input@ == input_after_read(old(chan).input@, address),
            final(chan).output@ == old(chan).output@,
            r == read_value(old(self).memory@, old(chan).input@, address),
    {
        self.memory.read(address, chan)
    }

    /// Reads a general register.
    pub fn read_register(&self, register_index: u16) -> (r: u16)
        requires
            register_index < 8,
        ensures
            r == self.registers.spec_read(register_index),
    {
        self.registers.read(register_index)
    }

    /// One fetch-increment-decode-execute transition, exactly as
    /// [`step_spec`] describes it.
    pub fn step(&mut self, chan: &mut ByteChannel) -> (sig: Signal)
        requires
            old(self).wf(),
            old(self).registers.pc < 0xFFFF,
        ensures
            final(self).wf(),
            (final(self).state_with(*final(chan)), sig) == step_spec(
                old(self).state_with(*old(chan)),
            ),
    {
        let pc = self.registers.read_program_counter();
        let next_instruction = self.memory.read(pc, chan);

        self.registers.increment_program_counter();

        execute_instruction(next_instruction, &mut self.registers, &mut self.memory, chan)
    }

    /// Runs the execution loop for at most `max_steps` transitions,
    /// following [`run_spec`] exactly: it stops at the first terminal
    /// signal, when the program counter reaches the top of the address
    /// space, or — with `Running` — when the step budget is exhausted.
    pub fn execute_program(&mut self, chan: &mut ByteChannel, max_steps: u64) -> (sig: Signal)
        requires
            old(self).wf(),
        ensures
            final(self).wf(),
            (final(self).state_with(*final(chan)), sig) == run_spec(
                old(self).state_with(*old(chan)),
                max_steps as nat,
            ),
    {
        let mut fuel = max_steps;
        loop
            invariant
                self.wf(),
                run_spec(old(self).state_with(*old(chan)), max_steps as nat) == run_spec(
                    self.state_with(*chan),
                    fuel as nat,
                ),
            decreases fuel,
        {
            if fuel == 0 {
                return Signal::Running;
            }
            if self.registers.read_program_counter() >= 0xFFFF {
                return Signal::PcOutOfRange;
            }
            let sig = self.step(chan);
            fuel = fuel - 1;
            match sig {
                Signal::Running => {}
                _ => {
                    return sig;
                }
            }
        }
    }

    /// Populates memory from a program image: the first two bytes are the
    /// big-endian origin address, and each following big-endian word lands
    /// at consecutive addresses from the origin (wrapping at the top of
    /// the address space). A trailing odd byte is ignored. An image too
    /// short to carry an origin is rejected and memory is untouched.
    pub fn load_program(&mut self, image: &Vec<u8>) -> (r: Result<(), LoadError>)
        requires
            old(self).wf(),
        ensures
            final(self).wf(),
            final(self).registers == old(self).registers,
            match r {
                Ok(_) => image@.len() >= 2 && final(self).memory@ == loaded_mem(
                    old(self).memory@,
                    be_word_spec(image@[0], image@[1]),
                    image@.skip(2),
                ),
                Err(e) => image@.len() < 2 && e == LoadError::MissingOrigin && final(self).memory@
                    == old(self).memory@,
            },
    {
        if image.len() < 2 {
            return Err(LoadError::MissingOrigin);
        }

        let origin = be_word(image[0], image[1]);

        let mut address = origin;
        let mut i: usize = 2;
        while i < image.len() - 1
            invariant
                self.wf(),
                self.registers == old(self).registers,
                2 <= i <= image.len(),
                image@.len() >= 2,
                loaded_mem(old(self).memory@, origin, image@.skip(2)) == loaded_mem(
                    self.memory@,
                    address,
                    image@.skip(i as int),
                ),
            decreases image.len() - i,
        {
            let word = be_word(image[i], image[i + 1]);
            let ghost before = self.memory@;
            self.memory.write(address, word);
            proof {
                assert(image@.skip(i as int)[0] == image@[i as int]);
                assert(image@.skip(i as int)[1] == image@[i as int + 1]);
                assert(image@.skip(i as int).skip(2) =~= image@.skip(i as int + 2));
            }
            address = address.wrapping_add(1);
            i = i + 2;
        }
        Ok(())
    }
}

/// Halting is final: once the fetched word is a HALT trap, the transition
/// reports `Halted` and the loop makes no further transition whatever
/// budget remains — no further instruction is fetched, so memory (beyond
/// the fetch's own keyboard poll), registers (beyond the fetch increment)
/// and the output stay exactly as the halting step left them.
pub proof fn lemma_halt_stops(s: MachineState, fuel: nat)
    requires
        1 <= fuel,
        s.regs.pc < 0xFFFF,
        read_value(s.mem, s.input, s.regs.pc) >> 12 == 15,
        read_value(s.mem, s.input, s.regs.pc) & 0xFF == 0x25,
    ensures
        run_spec(s, fuel) == step_spec(s),
        run_spec(s, fuel).1 == Signal::Halted,
        run_spec(s, fuel).0.regs == (Registers { pc: s.regs.pc.wrapping_add(1), ..s.regs }),
        run_spec(s, fuel).0.mem == mem_after_read(s.mem, s.input, s.regs.pc),
        run_spec(s, fuel).0.input == input_after_read(s.input, s.regs.pc),
        run_spec(s, fuel).0.output == s.output,
{
}

/// A branch whose condition selection does not overlap the current flag
/// changes nothing but the implicit fetch increment of the program
/// counter (and the fetch's own keyboard poll), and execution continues.
pub proof fn lemma_br_not_taken(s: MachineState)
    requires
        s.regs.pc < 0xFFFF,
        read_value(s.mem, s.input, s.regs.pc) >> 12 == 0,
        ((read_value(s.mem, s.input, s.regs.pc) >> 9) & 0x7) & s.regs.cond.bits_spec() == 0,
    ensures
        step_spec(s).1 == Signal::Running,
        step_spec(s).0.regs == (Registers { pc: s.regs.pc.wrapping_add(1), ..s.regs }),
        step_spec(s).0.mem == mem_after_read(s.mem, s.input, s.regs.pc),
        step_spec(s).0.input == input_after_read(s.input, s.regs.pc),
        step_spec(s).0.output == s.output,
{
}

} // verus!
