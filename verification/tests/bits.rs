use dmg_core::cpu::instruction::{ArithmeticTarget, ArithmeticTarget16, Instruction};
use dmg_core::cpu::registers::Flags;
use dmg_core::cpu::{reset_bit, set_bit, CPU};

#[test]
fn set_bit_always_ors_the_mask_in() {
    for n in 0u8..8 {
        for v in [0x00u8, 0x01, 0x55, 0xAA, 0xFE, 0xFF] {
            assert_eq!(set_bit(v, n), v | (1 << n));
        }
    }
}

#[test]
fn reset_bit_always_masks_the_bit_out() {
    for n in 0u8..8 {
        for v in [0x00u8, 0x01, 0x55, 0xAA, 0xFE, 0xFF] {
            assert_eq!(reset_bit(v, n), v & !(1 << n));
        }
    }
}

#[test]
fn set_through_execute_leaves_all_flags_unmodified() {
    let mut cpu = CPU::new(Vec::new());
    cpu.registers.f = Flags { zero: true, subtract: true, half_carry: false, carry: true };
    cpu.registers.b = 0b0100_0001;
    let _ = cpu.execute(Instruction::SET(3, ArithmeticTarget::B));
    assert_eq!(cpu.registers.b, 0b0100_1001);
    assert_eq!(
        cpu.registers.f,
        Flags { zero: true, subtract: true, half_carry: false, carry: true }
    );
}

#[test]
fn reset_through_execute_leaves_all_flags_unmodified() {
    let mut cpu = CPU::new(Vec::new());
    cpu.registers.f = Flags { zero: false, subtract: true, half_carry: true, carry: false };
    cpu.registers.d = 0xFF;
    let _ = cpu.execute(Instruction::RES(7, ArithmeticTarget::D));
    assert_eq!(cpu.registers.d, 0x7F);
    assert_eq!(
        cpu.registers.f,
        Flags { zero: false, subtract: true, half_carry: true, carry: false }
    );
}

#[test]
fn set_and_reset_on_memory_through_hl() {
    let mut cpu = CPU::new(Vec::new());
    cpu.registers.set_hl(0x8010);
    cpu.bus.write_byte(0x8010, 0b0000_0001);
    let _ = cpu.execute(Instruction::SET16(6));
    assert_eq!(cpu.bus.read_byte(0x8010), 0b0100_0001);
    let _ = cpu.execute(Instruction::RES16(0));
    assert_eq!(cpu.bus.read_byte(0x8010), 0b0100_0000);
}

#[test]
fn bit_test_sets_zero_iff_bit_clear() {
    let mut cpu = CPU::new(Vec::new());
    cpu.registers.f.carry = true;
    cpu.registers.h = 0x80;
    let _ = cpu.execute(Instruction::BIT(7, ArithmeticTarget::H));
    assert!(!cpu.registers.f.zero);
    assert!(cpu.registers.f.carry);
    cpu.registers.h = 0x00;
    let _ = cpu.execute(Instruction::BIT(7, ArithmeticTarget::H));
    assert!(cpu.registers.f.zero);
    assert!(cpu.registers.f.carry);
}

#[test]
fn bit_test_on_memory_reads_the_byte_at_hl() {
    let mut cpu = CPU::new(Vec::new());
    cpu.registers.set_hl(0xC000);
    cpu.bus.write_byte(0xC000, 0x80);
    let _ = cpu.execute(Instruction::BIT16(7));
    assert!(!cpu.registers.f.zero);
    cpu.bus.write_byte(0xC000, 0x7F);
    let _ = cpu.execute(Instruction::BIT16(7));
    assert!(cpu.registers.f.zero);
}

#[test]
fn swap_exchanges_nibbles() {
    let mut cpu = CPU::new(Vec::new());
    cpu.registers.e = 0xAB;
    let _ = cpu.execute(Instruction::SWAP(ArithmeticTarget::E));
    assert_eq!(cpu.registers.e, 0xBA);
    assert!(!cpu.registers.f.zero);
    assert!(!cpu.registers.f.carry);
}

#[test]
fn swap_on_memory_through_hl_pair() {
    let mut cpu = CPU::new(Vec::new());
    cpu.registers.set_hl(0x9000);
    cpu.bus.write_byte(0x9000, 0x1F);
    let _ = cpu.execute(Instruction::SWAP16(ArithmeticTarget16::HL));
    assert_eq!(cpu.bus.read_byte(0x9000), 0xF1);
}

#[test]
fn arithmetic_shift_right_preserves_the_sign_bit() {
    let mut cpu = CPU::new(Vec::new());
    cpu.registers.a = 0x81;
    let _ = cpu.execute(Instruction::SRA(ArithmeticTarget::A));
    assert_eq!(cpu.registers.a, 0xC0);
    assert!(cpu.registers.f.carry);
}

#[test]
fn logical_shift_right_clears_the_sign_bit() {
    let mut cpu = CPU::new(Vec::new());
    cpu.registers.a = 0x81;
    let _ = cpu.execute(Instruction::SRL(ArithmeticTarget::A));
    assert_eq!(cpu.registers.a, 0x40);
    assert!(cpu.registers.f.carry);
}

#[test]
fn shift_left_moves_top_bit_into_carry() {
    let mut cpu = CPU::new(Vec::new());
    cpu.registers.a = 0x80;
    let _ = cpu.execute(Instruction::SLA(ArithmeticTarget::A));
    assert_eq!(cpu.registers.a, 0);
    assert!(cpu.registers.f.carry);
    assert!(cpu.registers.f.zero);
}

#[test]
fn rotate_right_through_carry_folds_old_carry_in() {
    let mut cpu = CPU::new(Vec::new());
    cpu.registers.f.carry = true;
    cpu.registers.a = 0x02;
    let _ = cpu.execute(Instruction::RRA());
    assert_eq!(cpu.registers.a, 0x81);
    assert!(!cpu.registers.f.carry);
}

#[test]
fn rotate_left_circular_wraps_bit_seven_to_bit_zero() {
    let mut cpu = CPU::new(Vec::new());
    cpu.registers.c = 0x80;
    let _ = cpu.execute(Instruction::RLC(ArithmeticTarget::C));
    assert_eq!(cpu.registers.c, 0x01);
    assert!(cpu.registers.f.carry);
}

#[test]
fn rotate_right_circular_wraps_bit_zero_to_bit_seven() {
    let mut cpu = CPU::new(Vec::new());
    cpu.registers.c = 0x01;
    let _ = cpu.execute(Instruction::RRC(ArithmeticTarget::C));
    assert_eq!(cpu.registers.c, 0x80);
    assert!(cpu.registers.f.carry);
}

#[test]
fn complement_accumulator_sets_subtract_and_half_carry() {
    let mut cpu = CPU::new(Vec::new());
    cpu.registers.a = 0x35;
    cpu.registers.f.zero = true;
    let _ = cpu.execute(Instruction::CPL());
    assert_eq!(cpu.registers.a, 0xCA);
    assert!(cpu.registers.f.subtract);
    assert!(cpu.registers.f.half_carry);
    assert!(cpu.registers.f.zero);
}

#[test]
fn carry_flag_controls() {
    let mut cpu = CPU::new(Vec::new());
    let _ = cpu.execute(Instruction::SCF());
    assert!(cpu.registers.f.carry);
    let _ = cpu.execute(Instruction::CCF());
    assert!(!cpu.registers.f.carry);
    let _ = cpu.execute(Instruction::CCF());
    assert!(cpu.registers.f.carry);
}
