//! Scenario tests: addressing-mode wraparound, the indirect-jump page
//! defect, subroutine call/return, branches, compares, faults on unknown
//! opcodes, the dispatch table, the step budget, and the observer hook.

use mos6502::flags::{CARRY, NEGATIVE, OVERFLOW, ZERO};
use mos6502::AddressingMode;
use mos6502::EmuError;
use mos6502::Mem;
use mos6502::Mnemonic;
use mos6502::Observer;
use mos6502::StepOutcome;
use mos6502::CPU;

#[test]
fn test_zero_page_indexed_wraps_within_page() {
    let mut cpu = CPU::new();
    cpu.program_counter = 0x8000;
    cpu.mem_write(0x8000, 0x80);
    cpu.register_x = 0xff;
    assert_eq!(cpu.get_operand_address(AddressingMode::ZeroPageX), 0x7f);
    cpu.register_y = 0xff;
    assert_eq!(cpu.get_operand_address(AddressingMode::ZeroPageY), 0x7f);
}

#[test]
fn test_indirect_jump_page_boundary_bug() {
    let mut cpu = CPU::new();
    // Pointer at 0x10ff: low byte there, high byte from 0x1000 (same page),
    // never from 0x1100.
    cpu.mem_write(0x10ff, 0x34);
    cpu.mem_write(0x1000, 0x12);
    cpu.mem_write(0x1100, 0x99);
    cpu.mem_write(0x1234, 0x00);
    cpu.load(vec![0x6c, 0xff, 0x10]);
    cpu.program_counter = cpu.mem_read_u16(0xFFFC);
    cpu.run().unwrap();
    assert_eq!(cpu.program_counter, 0x1235);
}

#[test]
fn test_indirect_jump_without_page_boundary() {
    let mut cpu = CPU::new();
    cpu.mem_write(0x10fe, 0x34);
    cpu.mem_write(0x10ff, 0x12);
    cpu.mem_write(0x1234, 0x00);
    cpu.load(vec![0x6c, 0xfe, 0x10]);
    cpu.program_counter = cpu.mem_read_u16(0xFFFC);
    cpu.run().unwrap();
    assert_eq!(cpu.program_counter, 0x1235);
}

#[test]
fn test_jsr_rts_round_trip() {
    let mut cpu = CPU::new();
    // 0x8000: JSR 0x8005; 0x8003: BRK; 0x8005: RTS.
    cpu.load(vec![0x20, 0x05, 0x80, 0x00, 0xea, 0x60]);
    cpu.program_counter = cpu.mem_read_u16(0xFFFC);
    let sp_before = cpu.stack_pointer;
    cpu.run().unwrap();
    assert_eq!(cpu.program_counter, 0x8004);
    assert_eq!(cpu.stack_pointer, sp_before);
}

#[test]
fn test_jsr_pushes_return_address_minus_one() {
    let mut cpu = CPU::new();
    // 0x8000: JSR 0x8004; 0x8003: BRK; 0x8004: BRK.
    cpu.load(vec![0x20, 0x04, 0x80, 0x00, 0x00]);
    cpu.program_counter = cpu.mem_read_u16(0xFFFC);
    cpu.run().unwrap();
    assert_eq!(cpu.stack_pop_u16(), 0x8002);
}

#[test]
fn test_branch_taken_skips() {
    let mut cpu = CPU::new();
    // LDA #1 clears zero, so BNE +1 jumps over the BRK to the INX.
    cpu.load(vec![0xa9, 0x01, 0xd0, 0x01, 0x00, 0xe8, 0x00]);
    cpu.program_counter = cpu.mem_read_u16(0xFFFC);
    cpu.run().unwrap();
    assert_eq!(cpu.register_x, 1);
}

#[test]
fn test_branch_not_taken_falls_through() {
    let mut cpu = CPU::new();
    // LDA #0 sets zero, so BNE falls through to the BRK.
    cpu.load(vec![0xa9, 0x00, 0xd0, 0x01, 0x00, 0xe8, 0x00]);
    cpu.program_counter = cpu.mem_read_u16(0xFFFC);
    cpu.run().unwrap();
    assert_eq!(cpu.register_x, 0);
    assert_eq!(cpu.program_counter, 0x8005);
}

#[test]
fn test_branch_backward_displacement() {
    let mut cpu = CPU::new();
    // 0x8000: INX; 0x8001: CPX #3; 0x8003: BNE -5 (back to 0x8000).
    cpu.load(vec![0xe8, 0xe0, 0x03, 0xd0, 0xfb, 0x00]);
    cpu.program_counter = cpu.mem_read_u16(0xFFFC);
    cpu.run().unwrap();
    assert_eq!(cpu.register_x, 3);
}

#[test]
fn test_cmp_sets_carry_and_zero() {
    let mut cpu = CPU::new();
    cpu.register_a = 0x10;
    cpu.program_counter = 0x8000;
    cpu.load(vec![0xc9, 0x10, 0x00]);
    cpu.run().unwrap();
    assert!(cpu.status.contains(CARRY));
    assert!(cpu.status.contains(ZERO));
}

#[test]
fn test_cmp_clears_carry_when_smaller() {
    let mut cpu = CPU::new();
    cpu.register_a = 0x10;
    cpu.program_counter = 0x8000;
    cpu.load(vec![0xc9, 0x20, 0x00]);
    cpu.run().unwrap();
    assert!(!cpu.status.contains(CARRY));
    assert!(!cpu.status.contains(ZERO));
    assert!(cpu.status.contains(NEGATIVE));
}

#[test]
fn test_cpx_cpy() {
    let mut cpu = CPU::new();
    cpu.register_x = 0x05;
    cpu.register_y = 0x01;
    cpu.program_counter = 0x8000;
    // CPX #3 (x greater: carry), CPY #2 (y smaller: no carry).
    cpu.load(vec![0xe0, 0x03, 0x00]);
    cpu.run().unwrap();
    assert!(cpu.status.contains(CARRY));
    cpu.program_counter = 0x8000;
    cpu.load(vec![0xc0, 0x02, 0x00]);
    cpu.run().unwrap();
    assert!(!cpu.status.contains(CARRY));
}

#[test]
fn test_bit_copies_operand_bits() {
    let mut cpu = CPU::new();
    cpu.mem_write(0x10, 0xc0);
    cpu.register_a = 0x0f;
    cpu.program_counter = 0x8000;
    cpu.load(vec![0x24, 0x10, 0x00]);
    cpu.run().unwrap();
    assert!(cpu.status.contains(ZERO));
    assert!(cpu.status.contains(NEGATIVE));
    assert!(cpu.status.contains(OVERFLOW));
}

#[test]
fn test_rol_accumulator_through_carry() {
    let mut cpu = CPU::new();
    cpu.register_a = 0x80;
    cpu.set_carry_flag();
    cpu.program_counter = 0x8000;
    cpu.load(vec![0x2a, 0x00]);
    cpu.run().unwrap();
    assert_eq!(cpu.register_a, 0x01);
    assert!(cpu.status.contains(CARRY));
}

#[test]
fn test_ror_accumulator_through_carry() {
    let mut cpu = CPU::new();
    cpu.register_a = 0x01;
    cpu.set_carry_flag();
    cpu.program_counter = 0x8000;
    cpu.load(vec![0x6a, 0x00]);
    cpu.run().unwrap();
    assert_eq!(cpu.register_a, 0x80);
    assert!(cpu.status.contains(CARRY));
}

#[test]
fn test_rti_restores_flags_and_pointer() {
    let mut cpu = CPU::new();
    cpu.load(vec![0x40, 0x00, 0x00, 0x00]);
    cpu.program_counter = cpu.mem_read_u16(0xFFFC);
    cpu.stack_push_u16(0x8003);
    cpu.stack_push(0b1000_0010);
    cpu.run().unwrap();
    assert_eq!(cpu.status.bits(), 0b1010_0010);
    assert_eq!(cpu.program_counter, 0x8004);
}

#[test]
fn test_transfers() {
    let mut cpu = CPU::new();
    // LDA #0x42, TAY, TSX, BRK.
    cpu.load_and_run(vec![0xa9, 0x42, 0xa8, 0xba, 0x00]).unwrap();
    assert_eq!(cpu.register_y, 0x42);
    assert_eq!(cpu.register_x, 0xfd);
    assert!(cpu.status.contains(NEGATIVE));

    let mut cpu = CPU::new();
    // LDX #0x33, TXS: the stack pointer moves, flags untouched by TXS.
    cpu.load_and_run(vec![0xa2, 0x33, 0x9a, 0x00]).unwrap();
    assert_eq!(cpu.stack_pointer, 0x33);

    let mut cpu = CPU::new();
    cpu.register_y = 0x07;
    cpu.program_counter = 0x8000;
    cpu.load(vec![0x98, 0x00]);
    cpu.run().unwrap();
    assert_eq!(cpu.register_a, 0x07);
}

#[test]
fn test_adc_signed_overflow_flag() {
    let mut cpu = CPU::new();
    cpu.register_a = 0x50;
    cpu.program_counter = 0x8000;
    cpu.load(vec![0x69, 0x50, 0x00]);
    cpu.run().unwrap();
    assert_eq!(cpu.register_a, 0xa0);
    assert!(cpu.status.contains(OVERFLOW));
    assert!(!cpu.status.contains(CARRY));
    assert!(cpu.status.contains(NEGATIVE));
}

#[test]
fn test_stack_push_pop_round_trip() {
    let mut cpu = CPU::new();
    let sp_before = cpu.stack_pointer;
    cpu.stack_push(0xab);
    assert_eq!(cpu.stack_pop(), 0xab);
    assert_eq!(cpu.stack_pointer, sp_before);
    cpu.stack_push_u16(0x1234);
    assert_eq!(cpu.stack_pop_u16(), 0x1234);
    assert_eq!(cpu.stack_pointer, sp_before);
}

#[test]
fn test_increment_then_decrement_restores() {
    let mut cpu = CPU::new();
    // INX then DEX: X is back at zero and the zero flag reflects it.
    cpu.load_and_run(vec![0xe8, 0xca, 0x00]).unwrap();
    assert_eq!(cpu.register_x, 0);
    assert!(cpu.status.contains(ZERO));
    assert!(!cpu.status.contains(NEGATIVE));
}

#[test]
fn test_unrecognized_opcode_faults_with_diagnostic() {
    let mut cpu = CPU::new();
    cpu.load(vec![0xea, 0x02, 0x00]);
    cpu.program_counter = cpu.mem_read_u16(0xFFFC);
    match cpu.run() {
        Err(EmuError::UnrecognizedOpcode { opcode, at }) => {
            assert_eq!(opcode, 0x02);
            assert_eq!(at, 0x8001);
        },
        _ => panic!("an unknown opcode must stop the run with a diagnostic"),
    }
}

#[test]
fn test_step_outcomes() {
    let mut cpu = CPU::new();
    cpu.load(vec![0xa9, 0x07, 0x00]);
    cpu.program_counter = cpu.mem_read_u16(0xFFFC);
    assert_eq!(cpu.step(), StepOutcome::Running);
    assert_eq!(cpu.register_a, 0x07);
    assert_eq!(cpu.step(), StepOutcome::Halted);
}

#[test]
fn test_run_for_exhausts_budget_on_endless_loop() {
    let mut cpu = CPU::new();
    // JMP back to the load base: an endless loop; the budget runs out.
    cpu.load(vec![0x4c, 0x00, 0x80]);
    cpu.program_counter = cpu.mem_read_u16(0xFFFC);
    assert_eq!(cpu.run_for(10), StepOutcome::Running);
    assert_eq!(cpu.program_counter, 0x8000);
}

#[test]
fn test_opcode_entries() {
    let entry = mos6502::opcodes::opcode_entry(0xa9).unwrap();
    assert_eq!(entry.mnemonic, Mnemonic::Lda);
    assert_eq!(entry.mode, AddressingMode::Immediate);
    assert_eq!(entry.len, 2);

    let entry = mos6502::opcodes::opcode_entry(0x6c).unwrap();
    assert_eq!(entry.mnemonic, Mnemonic::JmpInd);
    assert_eq!(entry.len, 3);

    assert!(mos6502::opcodes::opcode_entry(0x02).is_none());
}

#[test]
fn test_absolute_indexed_load() {
    let mut cpu = CPU::new();
    cpu.mem_write(0x0011, 0x77);
    // LDX #1, LDA 0x0010,X.
    cpu.load(vec![0xa2, 0x01, 0xbd, 0x10, 0x00, 0x00]);
    cpu.program_counter = cpu.mem_read_u16(0xFFFC);
    cpu.run().unwrap();
    assert_eq!(cpu.register_a, 0x77);
}

#[test]
fn test_indirect_x_load() {
    let mut cpu = CPU::new();
    cpu.mem_write(0x24, 0x34);
    cpu.mem_write(0x25, 0x12);
    cpu.mem_write(0x1234, 0xcd);
    // LDX #4, LDA (0x20,X).
    cpu.load(vec![0xa2, 0x04, 0xa1, 0x20, 0x00]);
    cpu.program_counter = cpu.mem_read_u16(0xFFFC);
    cpu.run().unwrap();
    assert_eq!(cpu.register_a, 0xcd);
}

#[test]
fn test_indirect_y_load() {
    let mut cpu = CPU::new();
    cpu.mem_write(0x10, 0x00);
    cpu.mem_write(0x11, 0x90);
    cpu.mem_write(0x9005, 0xab);
    // LDY #5, LDA (0x10),Y.
    cpu.load(vec![0xa0, 0x05, 0xb1, 0x10, 0x00]);
    cpu.program_counter = cpu.mem_read_u16(0xFFFC);
    cpu.run().unwrap();
    assert_eq!(cpu.register_a, 0xab);
}

#[test]
fn test_word_access_wraps_at_top_of_memory() {
    let mut cpu = CPU::new();
    cpu.mem_write(0xffff, 0x34);
    cpu.mem_write(0x0000, 0x12);
    assert_eq!(cpu.mem_read_u16(0xffff), 0x1234);
    cpu.mem_write_u16(0xffff, 0xbeef);
    assert_eq!(cpu.mem_read(0xffff), 0xef);
    assert_eq!(cpu.mem_read(0x0000), 0xbe);
}

#[test]
fn test_load_at_chosen_base() {
    let mut cpu = CPU::new();
    cpu.load_at(&vec![0xa9, 0x2a, 0x00], 0x0600);
    assert_eq!(cpu.mem_read(0x0600), 0xa9);
    assert_eq!(cpu.mem_read_u16(0xFFFC), 0x0600);
    cpu.reset();
    assert_eq!(cpu.program_counter, 0x0600);
    cpu.run().unwrap();
    assert_eq!(cpu.register_a, 0x2a);
}

#[test]
fn test_flag_set_clear_instructions() {
    let mut cpu = CPU::new();
    // SEC, SED, SEI then CLC: carry ends clear, decimal and interrupt set.
    cpu.load_and_run(vec![0x38, 0xf8, 0x78, 0x18, 0x00]).unwrap();
    assert!(!cpu.status.contains(CARRY));
    assert!(cpu.status.contains(mos6502::flags::DECIMAL_MODE));
    assert!(cpu.status.contains(mos6502::flags::INTERRUPT_DISABLE));
}

#[test]
fn test_stack_pointer_wraps_within_page() {
    let mut cpu = CPU::new();
    cpu.stack_pointer = 0x00;
    cpu.stack_push(0x07);
    assert_eq!(cpu.stack_pointer, 0xff);
    assert_eq!(cpu.mem_read(0x0100), 0x07);
    assert_eq!(cpu.stack_pop(), 0x07);
    assert_eq!(cpu.stack_pointer, 0x00);
}

#[test]
fn test_instruction_pointer_wraps_at_top() {
    let mut cpu = CPU::new();
    cpu.mem_write(0xffff, 0xe8);
    cpu.program_counter = 0xffff;
    assert_eq!(cpu.step(), StepOutcome::Running);
    assert_eq!(cpu.register_x, 1);
    assert_eq!(cpu.program_counter, 0x0000);
}

struct CountingObserver {
    retired: u32,
}

impl Observer for CountingObserver {
    fn on_instruction(&mut self, cpu: &mut CPU) {
        self.retired += 1;
        let _ = cpu.register_a;
    }
}

#[test]
fn test_observer_zero_budget_changes_nothing() {
    let mut cpu = CPU::new();
    cpu.load(vec![0xa9, 0x05, 0x00]);
    cpu.program_counter = cpu.mem_read_u16(0xFFFC);
    let mut observer = CountingObserver { retired: 0 };
    assert_eq!(cpu.run_with_callback(&mut observer, 0), StepOutcome::Running);
    assert_eq!(observer.retired, 0);
    assert_eq!(cpu.register_a, 0);
    assert_eq!(cpu.program_counter, 0x8000);
}

#[test]
fn test_observer_skipped_on_halting_first_step() {
    let mut cpu = CPU::new();
    cpu.load(vec![0x00]);
    cpu.program_counter = cpu.mem_read_u16(0xFFFC);
    let mut observer = CountingObserver { retired: 0 };
    assert_eq!(cpu.run_with_callback(&mut observer, 1000), StepOutcome::Halted);
    assert_eq!(observer.retired, 0);
    assert_eq!(cpu.program_counter, 0x8001);
}

#[test]
fn test_observer_sees_each_retired_instruction() {
    let mut cpu = CPU::new();
    cpu.load(vec![0xa9, 0x05, 0xaa, 0x00]);
    cpu.program_counter = cpu.mem_read_u16(0xFFFC);
    let mut observer = CountingObserver { retired: 0 };
    assert_eq!(cpu.run_with_callback(&mut observer, 1000), StepOutcome::Halted);
    assert_eq!(observer.retired, 2);
    assert_eq!(cpu.register_x, 0x05);
}
