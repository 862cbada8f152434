//! Whole-machine behaviour: decoding edge cases, trap I/O, the keyboard
//! device, the loader, and the execution loop.

use lc3_vm::channel::ByteChannel;
use lc3_vm::instructions::add;
use lc3_vm::instructions::and;
use lc3_vm::instructions::br;
use lc3_vm::instructions::branch;
use lc3_vm::instructions::execute_instruction;
use lc3_vm::instructions::jump_register;
use lc3_vm::instructions::ldi;
use lc3_vm::instructions::not;
use lc3_vm::instructions::res;
use lc3_vm::instructions::rti;
use lc3_vm::instructions::sign_extended;
use lc3_vm::instructions::trap;
use lc3_vm::instructions::ConditionalFlags;
use lc3_vm::instructions::Instructions;
use lc3_vm::instructions::Signal;
use lc3_vm::loader::LoadError;
use lc3_vm::memory::Memory;
use lc3_vm::memory::MR_KBDR;
use lc3_vm::memory::MR_KBSR;
use lc3_vm::registers::Registers;
use lc3_vm::vm::VirtualMachine;

#[test]
fn sign_extend_boundary_negative() {
    // A 5-bit field holding -16 extends to the 16-bit -16.
    assert_eq!(sign_extended(0b10000, 5), 0xFFF0);
    // A value that fits positively is untouched.
    assert_eq!(sign_extended(0b01111, 5), 0b01111);
}

#[test]
fn add_immediate_scenario() {
    // DR = R0, SR1 = R1, immediate 3, with R1 = 5: R0 becomes 8, Positive.
    let instruction: u16 = 0b0001_000_001_1_00011;
    let mut registers = Registers::initial();
    registers.update(1, 5);

    add::add(instruction, &mut registers);

    assert_eq!(registers.read(0), 8);
    assert_eq!(registers.read_cond_flag(), ConditionalFlags::Positive);
}

#[test]
fn add_wraps_and_sets_zero() {
    // 0xFFFF + 1 wraps to zero, and the flag says so.
    let instruction: u16 = 0b0001_000_001_1_00001;
    let mut registers = Registers::initial();
    registers.update(1, 0xFFFF);

    add::add(instruction, &mut registers);

    assert_eq!(registers.read(0), 0);
    assert_eq!(registers.read_cond_flag(), ConditionalFlags::Zero);
}

#[test]
fn and_register_scenario() {
    // DR = R2, SR1 = R1, SR2 = R4, with R1 = 0b101 and R4 = 0b110.
    let instruction: u16 = 0b0101_010_001_0_00_100;
    let mut registers = Registers::initial();
    registers.update(0b001, 0b101);
    registers.update(0b100, 0b110);

    and::and(instruction, &mut registers);

    assert_eq!(registers.read(0b010), 0b100);
    assert_eq!(registers.read_cond_flag(), ConditionalFlags::Positive);
}

#[test]
fn and_immediate_scenario() {
    // DR = R0, SR1 = R1, immediate 0b01010, with R1 = 0b1111.
    let instruction: u16 = 0b0101_000_001_1_01010;
    let mut registers = Registers::initial();
    registers.update(1, 0b1111);

    and::and(instruction, &mut registers);

    assert_eq!(registers.read(0), 0b1010);
    assert_eq!(registers.read_cond_flag(), ConditionalFlags::Positive);
}

#[test]
fn not_scenario() {
    // DR = R1, SR = R3, with R3 = 0b110001: the complement has its high
    // bit set, so the flag is Negative.
    let instruction: u16 = 0b1001_001_011_1_11111;
    let mut registers = Registers::initial();
    registers.update(0b011, 0b110001);

    not::not(instruction, &mut registers);

    assert_eq!(registers.read(0b001), 0xFFCE);
    assert_eq!(registers.read_cond_flag(), ConditionalFlags::Negative);
}

#[test]
fn branch_overlap_matches_any_selected_condition() {
    // The n and z bits are both selected; a Zero flag overlaps, so the
    // branch is taken.
    let instruction: u16 = 0b0000_1_1_0_000000101;
    let mut registers = Registers::initial();
    registers.update_cond_flag(ConditionalFlags::Zero);

    br::br(instruction, &mut registers);

    assert_eq!(registers.read_program_counter(), 0x3005);
}

#[test]
fn branch_not_taken_leaves_pc() {
    // Only the p bit is selected and the flag is Negative: no overlap, the
    // program counter stays.
    let instruction: u16 = 0b0000_0_0_1_000000101;
    let mut registers = Registers::initial();
    registers.update_cond_flag(ConditionalFlags::Negative);

    br::br(instruction, &mut registers);

    assert_eq!(registers.read_program_counter(), 0x3000);
}

#[test]
fn branch_all_conditions_taken_for_each_flag() {
    for flag in [
        ConditionalFlags::Positive,
        ConditionalFlags::Zero,
        ConditionalFlags::Negative,
    ] {
        let instruction: u16 = 0b0000_1_1_1_000000010;
        let mut registers = Registers::initial();
        registers.update_cond_flag(flag);

        branch::branch(instruction, &mut registers);

        assert_eq!(registers.read_program_counter(), 0x3002);
    }
}

#[test]
fn branch_negative_offset() {
    // A 9-bit offset of -2 moves the program counter backwards.
    let instruction: u16 = 0b0000_0_1_0_111111110;
    let mut registers = Registers::initial();

    br::br(instruction, &mut registers);

    assert_eq!(registers.read_program_counter(), 0x2FFE);
}

#[test]
fn jump_register_saves_return_address() {
    // Long form: R7 takes the pre-jump counter, the counter moves by the
    // sign-extended 11-bit offset.
    let instruction: u16 = 0b0100_1_00000000101;
    let mut registers = Registers::initial();

    jump_register::jump_register(instruction, &mut registers);

    assert_eq!(registers.read(7), 0x3000);
    assert_eq!(registers.read_program_counter(), 0x3005);
}

#[test]
fn jump_register_jsrr_saves_return_address() {
    // Register form: the counter takes the base register's value and R7
    // still takes the pre-jump counter.
    let instruction: u16 = 0b0100_0_00_011_000000;
    let mut registers = Registers::initial();
    registers.update(0b011, 0x4242);

    jump_register::jump_register(instruction, &mut registers);

    assert_eq!(registers.read(7), 0x3000);
    assert_eq!(registers.read_program_counter(), 0x4242);
}

#[test]
fn ldi_round_trip_scenario() {
    // Memory[PC + 2] holds the address 0x4000 and Memory[0x4000] holds the
    // value: LDI brings the value home.
    let instruction: u16 = 0b1010_101_000000010;
    let mut registers = Registers::initial();
    let mut memory = Memory::empty();
    let mut chan = ByteChannel::new();

    memory.write(0x3002, 0x4000);
    memory.write(0x4000, 0xBEEF);

    ldi::ldi(instruction, &mut registers, &mut memory, &mut chan);

    assert_eq!(registers.read(0b101), 0xBEEF);
    assert_eq!(registers.read_cond_flag(), ConditionalFlags::Negative);
}

#[test]
fn keyboard_status_read_with_pending_byte() {
    let mut memory = Memory::empty();
    let mut chan = ByteChannel {
        input: vec![0x41],
        output: Vec::new(),
    };

    let status = memory.read(MR_KBSR, &mut chan);
    assert_eq!(status, 0x8000);
    assert_eq!(memory.read(MR_KBDR, &mut chan), 0x41);
    assert!(chan.input.is_empty());
}

#[test]
fn keyboard_status_read_without_input() {
    let mut memory = Memory::empty();
    let mut chan = ByteChannel::new();

    memory.write(MR_KBSR, 0x8000);
    let status = memory.read(MR_KBSR, &mut chan);
    assert_eq!(status, 0);
}

#[test]
fn trap_getc_reads_without_echo() {
    let mut registers = Registers::initial();
    let mut memory = Memory::empty();
    let mut chan = ByteChannel {
        input: vec![b'q'],
        output: Vec::new(),
    };

    let sig = trap::trap(0xF020, &mut registers, &memory, &mut chan);

    assert_eq!(sig, Signal::Running);
    assert_eq!(registers.read(0), b'q' as u16);
    assert!(chan.output.is_empty());
}

#[test]
fn trap_getc_end_of_input_is_fatal() {
    let mut registers = Registers::initial();
    let mut memory = Memory::empty();
    let mut chan = ByteChannel::new();

    let sig = trap::trap(0xF020, &mut registers, &memory, &mut chan);

    assert_eq!(sig, Signal::EndOfInput);
    assert_eq!(registers.read(0), 0);
}

#[test]
fn trap_out_writes_low_byte() {
    let mut registers = Registers::initial();
    let memory = Memory::empty();
    let mut chan = ByteChannel::new();

    registers.update(0, 0x1241);
    let sig = trap::trap(0xF021, &mut registers, &memory, &mut chan);

    assert_eq!(sig, Signal::Running);
    assert_eq!(chan.output, vec![0x41]);
}

#[test]
fn trap_in_prompts_and_echoes() {
    let mut registers = Registers::initial();
    let memory = Memory::empty();
    let mut chan = ByteChannel {
        input: vec![b'Z'],
        output: Vec::new(),
    };

    let sig = trap::trap(0xF023, &mut registers, &memory, &mut chan);

    assert_eq!(sig, Signal::Running);
    assert_eq!(registers.read(0), b'Z' as u16);
    let mut expected = b"Enter a  character : ".to_vec();
    expected.push(b'Z');
    assert_eq!(chan.output, expected);
}

#[test]
fn trap_putsp_unpacks_two_bytes_per_word() {
    let mut registers = Registers::initial();
    let mut memory = Memory::empty();
    let mut chan = ByteChannel::new();

    registers.update(0, 0x3000);
    // "ab" packed into one word (low byte first), then "c" alone: its high
    // byte is zero and is not emitted.
    memory.write(0x3000, (b'b' as u16) << 8 | b'a' as u16);
    memory.write(0x3001, b'c' as u16);
    memory.write(0x3002, 0x0000);

    let sig = trap::trap(0xF024, &mut registers, &memory, &mut chan);

    assert_eq!(sig, Signal::Running);
    assert_eq!(chan.output, b"abc".to_vec());
}

#[test]
fn trap_halt_signals_halted() {
    let mut registers = Registers::initial();
    let memory = Memory::empty();
    let mut chan = ByteChannel::new();

    let sig = trap::trap(0xF025, &mut registers, &memory, &mut chan);

    assert_eq!(sig, Signal::Halted);
}

#[test]
fn trap_unknown_code_is_fatal() {
    let mut registers = Registers::initial();
    let memory = Memory::empty();
    let mut chan = ByteChannel::new();

    let sig = trap::trap(0xF0FF, &mut registers, &memory, &mut chan);

    assert_eq!(sig, Signal::UnknownTrap);
}

#[test]
fn reserved_opcodes_are_illegal() {
    let mut registers = Registers::initial();
    let mut memory = Memory::empty();
    let mut chan = ByteChannel::new();

    // Opcode 8 is RTI, opcode 13 is RES.
    let rti_sig = execute_instruction(0x8000, &mut registers, &mut memory, &mut chan);
    let res_sig = execute_instruction(0xD000, &mut registers, &mut memory, &mut chan);

    assert_eq!(rti_sig, Signal::IllegalInstruction);
    assert_eq!(res_sig, Signal::IllegalInstruction);
    assert_eq!(registers.read_program_counter(), 0x3000);
}

#[test]
fn opcode_decoding_is_total_on_four_bits() {
    for value in 0u16..16 {
        assert!(Instructions::try_from(value).is_some());
    }
    assert!(Instructions::try_from(16).is_none());
    assert!(Instructions::try_from(0xFFFF).is_none());
}

#[test]
fn load_program_places_words_at_origin() {
    let mut vm = VirtualMachine::create();
    let image: Vec<u8> = vec![0x30, 0x00, 0x12, 0x34, 0xAB, 0xCD];

    let r = vm.load_program(&image);

    assert!(r.is_ok());
    assert_eq!(vm.memory.peek(0x3000), 0x1234);
    assert_eq!(vm.memory.peek(0x3001), 0xABCD);
    assert_eq!(vm.memory.peek(0x3002), 0x0000);
}

#[test]
fn load_program_ignores_trailing_odd_byte() {
    let mut vm = VirtualMachine::create();
    let image: Vec<u8> = vec![0x30, 0x00, 0xAB, 0xCD, 0xEF];

    let r = vm.load_program(&image);

    assert!(r.is_ok());
    assert_eq!(vm.memory.peek(0x3000), 0xABCD);
    assert_eq!(vm.memory.peek(0x3001), 0x0000);
}

#[test]
fn load_program_rejects_missing_origin() {
    let mut vm = VirtualMachine::create();
    let image: Vec<u8> = vec![0x30];

    let r = vm.load_program(&image);

    assert_eq!(r, Err(LoadError::MissingOrigin));
    assert_eq!(vm.memory.peek(0x0030), 0x0000);
}

#[test]
fn load_program_twice_gives_identical_memory() {
    let image: Vec<u8> = vec![0x30, 0x00, 0x12, 0x34, 0xAB, 0xCD];

    let mut once = VirtualMachine::create();
    assert!(once.load_program(&image).is_ok());

    let mut twice = VirtualMachine::create();
    assert!(twice.load_program(&image).is_ok());
    assert!(twice.load_program(&image).is_ok());

    for address in 0u32..0x10000 {
        assert_eq!(once.memory.peek(address as u16), twice.memory.peek(address as u16));
    }
}

#[test]
fn halt_stops_the_loop_without_further_fetch() {
    let mut vm = VirtualMachine::create();
    let mut chan = ByteChannel::new();
    // HALT at the start address, then a would-be ADD that must never run.
    vm.memory.write(0x3000, 0xF025);
    vm.memory.write(0x3001, 0b0001_000_000_1_00001);

    let sig = vm.execute_program(&mut chan, 1000);

    assert_eq!(sig, Signal::Halted);
    assert_eq!(vm.registers.read_program_counter(), 0x3001);
    assert_eq!(vm.read_register(0), 0);
}

#[test]
fn execute_program_runs_until_halt() {
    let mut vm = VirtualMachine::create();
    let mut chan = ByteChannel::new();
    // R0 = R0 + 5; OUT; HALT.
    let image: Vec<u8> = vec![0x30, 0x00, 0x10, 0x25, 0xF0, 0x21, 0xF0, 0x25];
    assert!(vm.load_program(&image).is_ok());

    let sig = vm.execute_program(&mut chan, 1000);

    assert_eq!(sig, Signal::Halted);
    assert_eq!(vm.read_register(0), 5);
    assert_eq!(chan.output, vec![5u8]);
    assert_eq!(vm.registers.read_program_counter(), 0x3003);
}

#[test]
fn execute_program_out_of_budget_reports_running() {
    let mut vm = VirtualMachine::create();
    let mut chan = ByteChannel::new();

    let sig = vm.execute_program(&mut chan, 0);

    assert_eq!(sig, Signal::Running);
    assert_eq!(vm.registers.read_program_counter(), 0x3000);
}

#[test]
fn execute_program_stops_at_address_ceiling() {
    let mut vm = VirtualMachine::create();
    let mut chan = ByteChannel::new();
    vm.registers.update_program_counter(0xFFFF);

    let sig = vm.execute_program(&mut chan, 1000);

    assert_eq!(sig, Signal::PcOutOfRange);
    assert_eq!(vm.registers.read_program_counter(), 0xFFFF);
}

#[test]
fn execute_program_stops_on_illegal_instruction() {
    let mut vm = VirtualMachine::create();
    let mut chan = ByteChannel::new();
    // Zeroed memory fetches BR with no conditions selected (never taken)
    // at every address; plant an RTI a few words in.
    vm.memory.write(0x3002, 0x8000);

    let sig = vm.execute_program(&mut chan, 1000);

    assert_eq!(sig, Signal::IllegalInstruction);
    assert_eq!(vm.registers.read_program_counter(), 0x3003);
}

#[test]
fn channel_reads_oldest_byte_first() {
    let mut chan = ByteChannel {
        input: vec![1, 2, 3],
        output: Vec::new(),
    };

    assert_eq!(chan.try_read_byte(), Some(1));
    assert_eq!(chan.read_byte(), Some(2));
    assert_eq!(chan.read_byte(), Some(3));
    assert_eq!(chan.read_byte(), None);

    chan.write_byte(9);
    chan.write_byte(8);
    assert_eq!(chan.output, vec![9, 8]);
}

#[test]
fn reserved_handlers_leave_registers_untouched() {
    let mut registers = Registers::initial();
    registers.update(3, 0x77);

    assert_eq!(res::res(0xD000, &mut registers), Signal::IllegalInstruction);
    assert_eq!(rti::rti(0x8000, &mut registers), Signal::IllegalInstruction);
    assert_eq!(registers.read(3), 0x77);
    assert_eq!(registers.read_program_counter(), 0x3000);
}

#[test]
fn vm_read_memory_polls_the_keyboard() {
    let mut vm = VirtualMachine::create();
    let mut chan = ByteChannel {
        input: vec![0x61],
        output: Vec::new(),
    };

    vm.memory.write(0x2000, 0x5555);
    assert_eq!(vm.read_memory(0x2000, &mut chan), 0x5555);
    assert_eq!(chan.input, vec![0x61]);

    assert_eq!(vm.read_memory(MR_KBSR, &mut chan), 0x8000);
    assert_eq!(vm.read_memory(MR_KBDR, &mut chan), 0x61);
    assert!(chan.input.is_empty());
}

#[test]
fn increment_program_counter_advances_by_one() {
    let mut registers = Registers::initial();
    registers.increment_program_counter();
    assert_eq!(registers.read_program_counter(), 0x3001);
}
