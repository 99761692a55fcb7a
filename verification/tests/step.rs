use dmg_core::cpu::instruction::Instruction;
use dmg_core::cpu::{FatalStop, CPU};

#[test]
fn step_advances_pc_by_width_one() {
    let mut cpu = CPU::new(vec![0x00]);
    assert_eq!(cpu.step(), Ok(()));
    assert_eq!(cpu.pc, 1);
}

#[test]
fn step_advances_pc_by_width_two_for_immediate_load() {
    let mut cpu = CPU::new(vec![0x06, 0x42]);
    assert_eq!(cpu.step(), Ok(()));
    assert_eq!(cpu.pc, 2);
    assert_eq!(cpu.registers.b, 0x42);
}

#[test]
fn step_advances_pc_by_width_three_for_word_load() {
    let mut cpu = CPU::new(vec![0x01, 0xCD, 0xAB]);
    assert_eq!(cpu.step(), Ok(()));
    assert_eq!(cpu.pc, 3);
    assert_eq!(cpu.registers.get_bc(), 0xABCD);
}

#[test]
fn step_advances_pc_by_width_two_for_prefixed_instruction() {
    let mut cpu = CPU::new(vec![0xCB, 0x30]);
    cpu.registers.b = 0xAB;
    assert_eq!(cpu.step(), Ok(()));
    assert_eq!(cpu.pc, 2);
    assert_eq!(cpu.registers.b, 0xBA);
}

#[test]
fn step_wraps_pc_around_the_address_space() {
    let mut cpu = CPU::new(Vec::new());
    cpu.bus.write_byte(0xFFFF, 0x00);
    cpu.pc = 0xFFFF;
    assert_eq!(cpu.step(), Ok(()));
    assert_eq!(cpu.pc, 0);
}

#[test]
fn relative_jump_backwards_by_two_returns_to_same_address() {
    let mut cpu = CPU::new(Vec::new());
    cpu.bus.write_byte(0x0100, 0x18);
    cpu.bus.write_byte(0x0101, 0xFE);
    cpu.pc = 0x0100;
    assert_eq!(cpu.step(), Ok(()));
    assert_eq!(cpu.pc, 0x0100);
}

#[test]
fn relative_jump_forward_lands_past_the_offset() {
    let mut cpu = CPU::new(vec![0x18, 0x05]);
    assert_eq!(cpu.step(), Ok(()));
    assert_eq!(cpu.pc, 0x0007);
}

#[test]
fn conditional_relative_jump_not_taken_advances_by_two() {
    let mut cpu = CPU::new(vec![0x20, 0x05]);
    cpu.registers.f.zero = true;
    assert_eq!(cpu.step(), Ok(()));
    assert_eq!(cpu.pc, 2);
}

#[test]
fn unrecognized_opcode_reports_fatal_stop_and_changes_nothing() {
    let mut cpu = CPU::new(vec![0xD3]);
    let before_a = cpu.registers.a;
    let result = cpu.step();
    assert_eq!(
        result,
        Err(FatalStop { address: 0, byte: 0xD3, prefixed: false })
    );
    assert_eq!(cpu.pc, 0);
    assert_eq!(cpu.sp, 0);
    assert_eq!(cpu.registers.a, before_a);
    assert!(!cpu.registers.f.zero);
    assert!(!cpu.is_halted);
    assert_eq!(cpu.bus.read_byte(0), 0xD3);
}

#[test]
fn unrecognized_prefixed_opcode_reports_extended_table() {
    let mut cpu = CPU::new(vec![0xCB, 0x01]);
    let result = cpu.step();
    assert_eq!(
        result,
        Err(FatalStop { address: 1, byte: 0x01, prefixed: true })
    );
    assert_eq!(cpu.pc, 0);
}

#[test]
fn halted_core_stays_put_until_interrupt_pending() {
    let mut cpu = CPU::new(vec![0x00]);
    let _ = cpu.execute(Instruction::HALT());
    assert!(cpu.is_halted);
    assert_eq!(cpu.step(), Ok(()));
    assert!(cpu.is_halted);
    assert_eq!(cpu.pc, 0);
    cpu.interrupt_pending = true;
    assert_eq!(cpu.step(), Ok(()));
    assert!(!cpu.is_halted);
    assert_eq!(cpu.pc, 0);
    assert_eq!(cpu.step(), Ok(()));
    assert_eq!(cpu.pc, 1);
}

#[test]
fn halt_freezes_pc_on_the_halt_instruction() {
    let mut cpu = CPU::new(Vec::new());
    cpu.pc = 0x0200;
    let next_pc = cpu.execute(Instruction::HALT());
    assert_eq!(next_pc, 0x0201);
    assert!(cpu.is_halted);
    assert_eq!(cpu.step(), Ok(()));
    assert_eq!(cpu.pc, 0x0200);
}

#[test]
fn call_pushes_return_address_and_ret_comes_back() {
    let mut cpu = CPU::new(vec![0xCD, 0x10, 0x00]);
    cpu.sp = 0xFFFE;
    cpu.bus.write_byte(0x0010, 0xC9);
    assert_eq!(cpu.step(), Ok(()));
    assert_eq!(cpu.pc, 0x0010);
    assert_eq!(cpu.sp, 0xFFFC);
    assert_eq!(cpu.bus.read_byte(0xFFFD), 0x00);
    assert_eq!(cpu.bus.read_byte(0xFFFC), 0x03);
    assert_eq!(cpu.step(), Ok(()));
    assert_eq!(cpu.pc, 0x0003);
    assert_eq!(cpu.sp, 0xFFFE);
}

#[test]
fn conditional_call_not_taken_advances_by_three() {
    let mut cpu = CPU::new(vec![0xC4, 0x10, 0x00]);
    cpu.registers.f.zero = true;
    cpu.sp = 0xFFFE;
    assert_eq!(cpu.step(), Ok(()));
    assert_eq!(cpu.pc, 3);
    assert_eq!(cpu.sp, 0xFFFE);
}

#[test]
fn restart_pushes_next_address_and_jumps_to_vector() {
    let mut cpu = CPU::new(vec![0xEF]);
    cpu.pc = 0;
    cpu.sp = 0xFFFE;
    assert_eq!(cpu.step(), Ok(()));
    assert_eq!(cpu.pc, 0x28);
    assert_eq!(cpu.sp, 0xFFFC);
    assert_eq!(cpu.bus.read_byte(0xFFFC), 0x01);
    assert_eq!(cpu.bus.read_byte(0xFFFD), 0x00);
}

#[test]
fn xor_accumulator_through_step_clears_it() {
    let mut cpu = CPU::new(vec![0xAF]);
    cpu.registers.a = 0x55;
    assert_eq!(cpu.step(), Ok(()));
    assert_eq!(cpu.registers.a, 0);
    assert!(cpu.registers.f.zero);
    assert_eq!(cpu.pc, 1);
}

#[test]
fn load_auto_increment_walks_hl_forward() {
    let mut cpu = CPU::new(vec![0x2A]);
    cpu.registers.set_hl(0xC000);
    cpu.bus.write_byte(0xC000, 0x77);
    assert_eq!(cpu.step(), Ok(()));
    assert_eq!(cpu.registers.a, 0x77);
    assert_eq!(cpu.registers.get_hl(), 0xC001);
    assert_eq!(cpu.pc, 1);
}

#[test]
fn high_page_store_uses_fixed_base() {
    let mut cpu = CPU::new(vec![0xE0, 0x80]);
    cpu.registers.a = 0x5A;
    assert_eq!(cpu.step(), Ok(()));
    assert_eq!(cpu.bus.read_byte(0xFF80), 0x5A);
    assert_eq!(cpu.pc, 2);
}

#[test]
fn memory_indirect_increment_touches_the_byte_at_hl() {
    let mut cpu = CPU::new(vec![0x34]);
    cpu.registers.set_hl(0xC123);
    cpu.bus.write_byte(0xC123, 0x0F);
    assert_eq!(cpu.step(), Ok(()));
    assert_eq!(cpu.bus.read_byte(0xC123), 0x10);
    assert!(cpu.registers.f.half_carry);
    assert_eq!(cpu.pc, 1);
}

#[test]
fn absolute_jump_through_execute_reads_little_endian_target() {
    let mut cpu = CPU::new(vec![0x00, 0x34, 0x12]);
    let next_pc = cpu.execute(Instruction::JP(
        dmg_core::cpu::instruction::JumpTest::Always,
    ));
    assert_eq!(next_pc, 0x1234);
}

#[test]
fn absolute_jump_not_taken_advances_by_three() {
    let mut cpu = CPU::new(vec![0x00, 0x34, 0x12]);
    let next_pc = cpu.execute(Instruction::JP(
        dmg_core::cpu::instruction::JumpTest::Zero,
    ));
    assert_eq!(next_pc, 3);
}

#[test]
fn sixteen_bit_add_into_hl_through_step() {
    let mut cpu = CPU::new(vec![0x09]);
    cpu.registers.set_hl(0x0FFF);
    cpu.registers.set_bc(0x0001);
    assert_eq!(cpu.step(), Ok(()));
    assert_eq!(cpu.registers.get_hl(), 0x1000);
    assert!(cpu.registers.f.half_carry);
    assert_eq!(cpu.pc, 1);
}

#[test]
fn xor_from_memory_through_step() {
    let mut cpu = CPU::new(vec![0xAE]);
    cpu.registers.a = 0xF0;
    cpu.registers.set_hl(0xC000);
    cpu.bus.write_byte(0xC000, 0x0F);
    assert_eq!(cpu.step(), Ok(()));
    assert_eq!(cpu.registers.a, 0xFF);
    assert_eq!(cpu.pc, 1);
}

#[test]
fn compare_immediate_through_step_advances_by_two() {
    let mut cpu = CPU::new(vec![0xFE, 0x07]);
    cpu.registers.a = 0x07;
    assert_eq!(cpu.step(), Ok(()));
    assert!(cpu.registers.f.zero);
    assert_eq!(cpu.registers.a, 0x07);
    assert_eq!(cpu.pc, 2);
}

#[test]
fn stack_pointer_loads_from_hl_through_step() {
    let mut cpu = CPU::new(vec![0xF9]);
    cpu.registers.set_hl(0xCAFE);
    assert_eq!(cpu.step(), Ok(()));
    assert_eq!(cpu.sp, 0xCAFE);
    assert_eq!(cpu.pc, 1);
}

#[test]
fn hl_loads_stack_pointer_plus_signed_offset_through_step() {
    let mut cpu = CPU::new(vec![0xF8, 0xFE]);
    cpu.sp = 0x0100;
    assert_eq!(cpu.step(), Ok(()));
    assert_eq!(cpu.registers.get_hl(), 0x00FE);
    assert!(!cpu.registers.f.zero);
    assert!(!cpu.registers.f.subtract);
    assert_eq!(cpu.pc, 2);
}

#[test]
fn stack_pointer_stores_to_immediate_address_through_step() {
    let mut cpu = CPU::new(vec![0x08, 0x00, 0xC0]);
    cpu.sp = 0xABCD;
    assert_eq!(cpu.step(), Ok(()));
    assert_eq!(cpu.bus.read_byte(0xC000), 0xCD);
    assert_eq!(cpu.bus.read_byte(0xC001), 0xAB);
    assert_eq!(cpu.pc, 3);
}

#[test]
fn store_accumulator_through_immediate_address_through_step() {
    let mut cpu = CPU::new(vec![0xEA, 0x05, 0x80]);
    cpu.registers.a = 0x42;
    assert_eq!(cpu.step(), Ok(()));
    assert_eq!(cpu.bus.read_byte(0x8005), 0x42);
    assert_eq!(cpu.pc, 3);
}

#[test]
fn conditional_return_taken_on_carry() {
    let mut cpu = CPU::new(vec![0xD8]);
    cpu.sp = 0xFFFC;
    cpu.bus.write_byte(0xFFFC, 0x77);
    cpu.bus.write_byte(0xFFFD, 0x06);
    cpu.registers.f.carry = true;
    assert_eq!(cpu.step(), Ok(()));
    assert_eq!(cpu.pc, 0x0677);
    assert_eq!(cpu.sp, 0xFFFE);
}

#[test]
fn return_from_interrupt_pops_unconditionally() {
    let mut cpu = CPU::new(vec![0xD9]);
    cpu.sp = 0xFFFC;
    cpu.bus.write_byte(0xFFFC, 0x10);
    cpu.bus.write_byte(0xFFFD, 0x20);
    cpu.registers.f.zero = true;
    assert_eq!(cpu.step(), Ok(()));
    assert_eq!(cpu.pc, 0x2010);
    assert_eq!(cpu.sp, 0xFFFE);
}
