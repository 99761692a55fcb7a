use dmg_core::cpu::instruction::{
    ADDHLTarget, ArithmeticTarget, ArithmeticTarget16, IncDec16Target, Indirect, Instruction,
    JumpTest, LoadByteSource, LoadByteTarget, LoadType, LoadWordTarget, RSTLocation, StackTarget,
};

#[test]
fn decode_is_idempotent_for_identical_inputs() {
    for byte in [0x00u8, 0x18, 0x34, 0x76, 0x80, 0xCB, 0xCD, 0xD3, 0xFF] {
        for prefixed in [false, true] {
            let first = Instruction::from_byte(byte, prefixed);
            let second = Instruction::from_byte(byte, prefixed);
            assert_eq!(first, second);
        }
    }
}

#[test]
fn decode_ordinary_samples() {
    assert_eq!(Instruction::from_byte(0x00, false), Some(Instruction::NOP()));
    assert_eq!(
        Instruction::from_byte(0x80, false),
        Some(Instruction::ADD(ArithmeticTarget::B))
    );
    assert_eq!(
        Instruction::from_byte(0x86, false),
        Some(Instruction::ADD16(ArithmeticTarget16::HL))
    );
    assert_eq!(
        Instruction::from_byte(0x09, false),
        Some(Instruction::ADDHL(ADDHLTarget::BC))
    );
    assert_eq!(
        Instruction::from_byte(0x18, false),
        Some(Instruction::JR(JumpTest::Always))
    );
    assert_eq!(
        Instruction::from_byte(0xCD, false),
        Some(Instruction::CALL(JumpTest::Always))
    );
    assert_eq!(
        Instruction::from_byte(0xC9, false),
        Some(Instruction::RET(JumpTest::Always))
    );
    assert_eq!(Instruction::from_byte(0xD9, false), Some(Instruction::RETI()));
    assert_eq!(
        Instruction::from_byte(0xEF, false),
        Some(Instruction::RST(RSTLocation::X28))
    );
    assert_eq!(
        Instruction::from_byte(0xF5, false),
        Some(Instruction::PUSH(StackTarget::AF))
    );
    assert_eq!(
        Instruction::from_byte(0x06, false),
        Some(Instruction::LD(LoadType::Byte(LoadByteTarget::B, LoadByteSource::D8)))
    );
    assert_eq!(
        Instruction::from_byte(0x31, false),
        Some(Instruction::LD(LoadType::Word(LoadWordTarget::SP)))
    );
}

#[test]
fn decode_accumulator_indirect_modes() {
    assert_eq!(
        Instruction::from_byte(0x02, false),
        Some(Instruction::LD(LoadType::IndirectFromA(Indirect::BCIndirect)))
    );
    assert_eq!(
        Instruction::from_byte(0x0A, false),
        Some(Instruction::LD(LoadType::AFromIndirect(Indirect::BCIndirect)))
    );
    assert_eq!(
        Instruction::from_byte(0xE2, false),
        Some(Instruction::LD(LoadType::IndirectFromA(Indirect::LastByteIndirect)))
    );
    assert_eq!(
        Instruction::from_byte(0xF2, false),
        Some(Instruction::LD(LoadType::AFromIndirect(Indirect::LastByteIndirect)))
    );
    assert_eq!(
        Instruction::from_byte(0xEA, false),
        Some(Instruction::LD(LoadType::IndirectFromA(Indirect::WordIndirect)))
    );
    assert_eq!(
        Instruction::from_byte(0xFA, false),
        Some(Instruction::LD(LoadType::AFromIndirect(Indirect::WordIndirect)))
    );
}

#[test]
fn decode_increment_decrement_modes() {
    assert_eq!(
        Instruction::from_byte(0x34, false),
        Some(Instruction::INC16(IncDec16Target::HLI))
    );
    assert_eq!(
        Instruction::from_byte(0x23, false),
        Some(Instruction::INC16(IncDec16Target::HL))
    );
    assert_eq!(
        Instruction::from_byte(0x35, false),
        Some(Instruction::DEC16(IncDec16Target::HLI))
    );
    assert_eq!(
        Instruction::from_byte(0x3B, false),
        Some(Instruction::DEC16(IncDec16Target::SP))
    );
}

#[test]
fn decode_extended_table_samples() {
    assert_eq!(
        Instruction::from_byte(0x00, true),
        Some(Instruction::RLC(ArithmeticTarget::B))
    );
    assert_eq!(
        Instruction::from_byte(0x30, true),
        Some(Instruction::SWAP(ArithmeticTarget::B))
    );
    assert_eq!(
        Instruction::from_byte(0x36, true),
        Some(Instruction::SWAP16(ArithmeticTarget16::HL))
    );
    assert_eq!(
        Instruction::from_byte(0x7C, true),
        Some(Instruction::BIT(7, ArithmeticTarget::H))
    );
    assert_eq!(Instruction::from_byte(0x7E, true), Some(Instruction::BIT16(7)));
}

#[test]
fn decode_yields_none_where_the_table_has_no_entry() {
    assert_eq!(Instruction::from_byte(0xD3, false), None);
    assert_eq!(Instruction::from_byte(0x76, false), None);
    assert_eq!(Instruction::from_byte(0xCB, false), None);
    assert_eq!(Instruction::from_byte(0x01, true), None);
    assert_eq!(Instruction::from_byte(0xFF, true), None);
}

#[test]
fn restart_locations_map_to_their_fixed_addresses() {
    assert_eq!(RSTLocation::X00.to_hex(), 0x00);
    assert_eq!(RSTLocation::X08.to_hex(), 0x08);
    assert_eq!(RSTLocation::X10.to_hex(), 0x10);
    assert_eq!(RSTLocation::X18.to_hex(), 0x18);
    assert_eq!(RSTLocation::X20.to_hex(), 0x20);
    assert_eq!(RSTLocation::X28.to_hex(), 0x28);
    assert_eq!(RSTLocation::X30.to_hex(), 0x30);
    assert_eq!(RSTLocation::X38.to_hex(), 0x38);
}
