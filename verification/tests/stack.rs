use dmg_core::cpu::instruction::{Instruction, StackTarget};
use dmg_core::cpu::CPU;

#[test]
fn push_then_pop_returns_value_and_restores_sp() {
    let mut cpu = CPU::new(Vec::new());
    cpu.sp = 0xFFFE;
    cpu.push(0xBEEF);
    assert_eq!(cpu.sp, 0xFFFC);
    let value = cpu.pop();
    assert_eq!(value, 0xBEEF);
    assert_eq!(cpu.sp, 0xFFFE);
}

#[test]
fn push_pop_round_trip_wraps_through_address_zero() {
    let mut cpu = CPU::new(Vec::new());
    cpu.sp = 0;
    cpu.push(0x1234);
    assert_eq!(cpu.sp, 0xFFFE);
    assert_eq!(cpu.bus.read_byte(0xFFFF), 0x12);
    assert_eq!(cpu.bus.read_byte(0xFFFE), 0x34);
    let value = cpu.pop();
    assert_eq!(value, 0x1234);
    assert_eq!(cpu.sp, 0);
}

#[test]
fn push_stores_high_byte_at_higher_address() {
    let mut cpu = CPU::new(Vec::new());
    cpu.sp = 0x2000;
    cpu.push(0xABCD);
    assert_eq!(cpu.bus.read_byte(0x1FFF), 0xAB);
    assert_eq!(cpu.bus.read_byte(0x1FFE), 0xCD);
}

#[test]
fn push_pop_af_round_trips_flags() {
    let mut cpu = CPU::new(Vec::new());
    cpu.sp = 0xFFFE;
    cpu.registers.a = 0x9C;
    cpu.registers.f.zero = true;
    cpu.registers.f.carry = true;
    let _ = cpu.execute(Instruction::PUSH(StackTarget::AF));
    cpu.registers.a = 0;
    cpu.registers.f.zero = false;
    cpu.registers.f.carry = false;
    cpu.registers.f.subtract = true;
    let _ = cpu.execute(Instruction::POP(StackTarget::AF));
    assert_eq!(cpu.registers.a, 0x9C);
    assert!(cpu.registers.f.zero);
    assert!(cpu.registers.f.carry);
    assert!(!cpu.registers.f.subtract);
    assert!(!cpu.registers.f.half_carry);
    assert_eq!(cpu.sp, 0xFFFE);
}

#[test]
fn push_pop_bc_through_execute() {
    let mut cpu = CPU::new(Vec::new());
    cpu.sp = 0xC000;
    cpu.registers.set_bc(0x1357);
    let _ = cpu.execute(Instruction::PUSH(StackTarget::BC));
    cpu.registers.set_bc(0);
    let _ = cpu.execute(Instruction::POP(StackTarget::BC));
    assert_eq!(cpu.registers.get_bc(), 0x1357);
    assert_eq!(cpu.sp, 0xC000);
}

#[test]
fn af_pair_keeps_low_nibble_zero() {
    let mut cpu = CPU::new(Vec::new());
    cpu.registers.set_af(0xFFFF);
    assert_eq!(cpu.registers.a, 0xFF);
    assert!(cpu.registers.f.zero);
    assert!(cpu.registers.f.subtract);
    assert!(cpu.registers.f.half_carry);
    assert!(cpu.registers.f.carry);
    assert_eq!(cpu.registers.get_af(), 0xFFF0);
    assert_eq!(cpu.registers.get_af() & 0xF, 0);
}

#[test]
fn register_pairs_compose_big_endian() {
    let mut cpu = CPU::new(Vec::new());
    cpu.registers.set_bc(0xABCD);
    assert_eq!(cpu.registers.b, 0xAB);
    assert_eq!(cpu.registers.c, 0xCD);
    assert_eq!(cpu.registers.get_bc(), 0xABCD);
    cpu.registers.set_de(0x0102);
    assert_eq!(cpu.registers.get_de(), 0x0102);
    cpu.registers.set_hl(0xFF00);
    assert_eq!(cpu.registers.h, 0xFF);
    assert_eq!(cpu.registers.l, 0x00);
}
