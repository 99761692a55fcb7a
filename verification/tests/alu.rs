use dmg_core::cpu::instruction::{ArithmeticTarget, Instruction};
use dmg_core::cpu::CPU;

fn fresh_cpu() -> CPU {
    CPU::new(Vec::new())
}

#[test]
fn add_sets_zero_and_carry_when_sum_wraps_to_zero() {
    let mut cpu = fresh_cpu();
    cpu.registers.a = 200;
    let result = cpu.add(56);
    assert_eq!(result, 0);
    assert!(cpu.registers.f.zero);
    assert!(cpu.registers.f.carry);
    assert!(cpu.registers.f.half_carry);
    assert!(!cpu.registers.f.subtract);
}

#[test]
fn add_half_carry_exact_boundary() {
    let mut cpu = fresh_cpu();
    cpu.registers.a = 0x0F;
    let result = cpu.add(0x01);
    assert_eq!(result, 0x10);
    assert!(cpu.registers.f.half_carry);
    assert!(!cpu.registers.f.carry);
    assert!(!cpu.registers.f.zero);
}

#[test]
fn add_small_values_sets_no_flags() {
    let mut cpu = fresh_cpu();
    cpu.registers.a = 1;
    let result = cpu.add(2);
    assert_eq!(result, 3);
    assert!(!cpu.registers.f.zero);
    assert!(!cpu.registers.f.carry);
    assert!(!cpu.registers.f.half_carry);
    assert!(!cpu.registers.f.subtract);
}

#[test]
fn subtract_carry_iff_initial_smaller() {
    let mut cpu = fresh_cpu();
    cpu.registers.a = 5;
    let result = cpu.sub(10);
    assert_eq!(result, 251);
    assert!(cpu.registers.f.carry);
    assert!(cpu.registers.f.half_carry);
    assert!(cpu.registers.f.subtract);
    assert!(!cpu.registers.f.zero);
}

#[test]
fn subtract_equal_values_sets_zero_only() {
    let mut cpu = fresh_cpu();
    cpu.registers.a = 7;
    let result = cpu.sub(7);
    assert_eq!(result, 0);
    assert!(cpu.registers.f.zero);
    assert!(cpu.registers.f.subtract);
    assert!(!cpu.registers.f.carry);
    assert!(!cpu.registers.f.half_carry);
}

#[test]
fn subtract_half_carry_compares_low_nibbles() {
    let mut cpu = fresh_cpu();
    cpu.registers.a = 0x21;
    let result = cpu.sub(0x12);
    assert_eq!(result, 0x0F);
    assert!(!cpu.registers.f.carry);
    assert!(cpu.registers.f.half_carry);
}

#[test]
fn sbc_subtracts_operand_plus_carry() {
    let mut cpu = fresh_cpu();
    cpu.registers.a = 10;
    cpu.registers.f.carry = true;
    let result = cpu.sbc(3);
    assert_eq!(result, 6);
    assert!(cpu.registers.f.subtract);
    assert!(!cpu.registers.f.carry);
}

#[test]
fn sbc_carry_counts_toward_borrow() {
    let mut cpu = fresh_cpu();
    cpu.registers.a = 3;
    cpu.registers.f.carry = true;
    let result = cpu.sbc(3);
    assert_eq!(result, 255);
    assert!(cpu.registers.f.carry);
}

#[test]
fn and_sets_half_carry_always() {
    let mut cpu = fresh_cpu();
    cpu.registers.a = 0b1100;
    let result = cpu.and(0b1010);
    assert_eq!(result, 0b1000);
    assert!(cpu.registers.f.half_carry);
    assert!(!cpu.registers.f.carry);
    assert!(!cpu.registers.f.zero);
}

#[test]
fn or_and_xor_clear_half_carry_and_carry() {
    let mut cpu = fresh_cpu();
    cpu.registers.a = 0b1100;
    let result = cpu.or(0b1010);
    assert_eq!(result, 0b1110);
    assert!(!cpu.registers.f.half_carry);
    assert!(!cpu.registers.f.carry);

    cpu.registers.a = 0xFF;
    let result = cpu.xor(0xFF);
    assert_eq!(result, 0);
    assert!(cpu.registers.f.zero);
    assert!(!cpu.registers.f.half_carry);
}

#[test]
fn addhl_half_carry_out_of_bit_11() {
    let mut cpu = fresh_cpu();
    cpu.registers.set_hl(0x0FFF);
    let result = cpu.addhl(1);
    assert_eq!(result, 0x1000);
    assert!(cpu.registers.f.half_carry);
    assert!(!cpu.registers.f.carry);
}

#[test]
fn addhl_carry_out_of_bit_15_wraps_to_zero() {
    let mut cpu = fresh_cpu();
    cpu.registers.set_hl(0xFFFF);
    let result = cpu.addhl(1);
    assert_eq!(result, 0);
    assert!(cpu.registers.f.carry);
    assert!(cpu.registers.f.zero);
}

#[test]
fn increment_wraps_and_keeps_carry() {
    let mut cpu = fresh_cpu();
    cpu.registers.f.carry = true;
    cpu.registers.b = 0xFF;
    let _ = cpu.execute(Instruction::INC(ArithmeticTarget::B));
    assert_eq!(cpu.registers.b, 0);
    assert!(cpu.registers.f.zero);
    assert!(cpu.registers.f.half_carry);
    assert!(cpu.registers.f.carry);
    assert!(!cpu.registers.f.subtract);
}

#[test]
fn decrement_sets_subtract_and_half_borrow() {
    let mut cpu = fresh_cpu();
    cpu.registers.c = 0x10;
    let _ = cpu.execute(Instruction::DEC(ArithmeticTarget::C));
    assert_eq!(cpu.registers.c, 0x0F);
    assert!(cpu.registers.f.subtract);
    assert!(cpu.registers.f.half_carry);
    assert!(!cpu.registers.f.zero);
}

#[test]
fn compare_discards_value_but_sets_flags() {
    let mut cpu = fresh_cpu();
    cpu.registers.a = 9;
    cpu.registers.b = 9;
    let _ = cpu.execute(Instruction::CP(ArithmeticTarget::B));
    assert_eq!(cpu.registers.a, 9);
    assert!(cpu.registers.f.zero);
    assert!(cpu.registers.f.subtract);
}

#[test]
fn add_through_execute_stores_into_accumulator() {
    let mut cpu = fresh_cpu();
    cpu.registers.a = 0x11;
    cpu.registers.e = 0x22;
    let next_pc = cpu.execute(Instruction::ADD(ArithmeticTarget::E));
    assert_eq!(cpu.registers.a, 0x33);
    assert_eq!(next_pc, 1);
}
