//! Instruction decoder: a pure, total mapping from an opcode byte (and a
//! flag saying whether the extended, prefix-reached table is in use) to a
//! tagged instruction value, or `None` where the table has no entry.
//!
//! Two disjoint lookup tables are kept: the ordinary one, and the extended
//! one entered when the ordinary stream yields the reserved prefix byte
//! `0xCB`. The prefix byte itself is never an instruction.

use vstd::prelude::*;

verus! {

/// The reserved byte that switches decoding to the extended table.
pub const PREFIX_BYTE: u8 = 0xCB;

/// An 8-bit register operand of an arithmetic, logic, bit or rotate
/// instruction.
#[derive(Copy, Clone, Debug, PartialEq, Eq, Structural)]
pub enum ArithmeticTarget {
    A,
    B,
    C,
    D,
    E,
    H,
    L,
}

/// A 16-bit register pair used as a memory-indirect operand.
#[derive(Copy, Clone, Debug, PartialEq, Eq, Structural)]
pub enum ArithmeticTarget16 {
    BC,
    DE,
    HL,
}

/// Operand of a 16-bit increment or decrement: a register pair, the stack
/// pointer, or the byte addressed by HL (`HLI`, the sole 8-bit form).
#[derive(Copy, Clone, Debug, PartialEq, Eq, Structural)]
pub enum IncDec16Target {
    BC,
    DE,
    HL,
    HLI,
    SP,
}

/// A register pair named by a stack push or pop.
#[derive(Copy, Clone, Debug, PartialEq, Eq, Structural)]
pub enum StackTarget {
    AF,
    BC,
    DE,
    HL,
}

/// The condition of a conditional control transfer.
#[derive(Copy, Clone, Debug, PartialEq, Eq, Structural)]
pub enum JumpTest {
    NotZero,
    Zero,
    NotCarry,
    Carry,
    Always,
}

/// Destination of an 8-bit load: a register, or the byte addressed by HL.
#[derive(Copy, Clone, Debug, PartialEq, Eq, Structural)]
pub enum LoadByteTarget {
    A,
    B,
    C,
    D,
    E,
    H,
    L,
    HLI,
}

/// Source of an 8-bit load: a register, an immediate byte (`D8`), or the
/// byte addressed by HL.
#[derive(Copy, Clone, Debug, PartialEq, Eq, Structural)]
pub enum LoadByteSource {
    A,
    B,
    C,
    D,
    E,
    H,
    L,
    D8,
    HLI,
}

/// Destination of a 16-bit immediate load.
#[derive(Copy, Clone, Debug, PartialEq, Eq, Structural)]
pub enum LoadWordTarget {
    AF,
    BC,
    DE,
    HL,
    SP,
}

/// An indirect addressing mode used by accumulator loads and stores:
/// through BC or DE, through HL with auto-decrement or auto-increment,
/// through an immediate 16-bit address, or through the fixed high page
/// (`0xFF00`) offset by register C.
#[derive(Copy, Clone, Debug, PartialEq, Eq, Structural)]
pub enum Indirect {
    BCIndirect,
    DEIndirect,
    HLIndirectMinus,
    HLIndirectPlus,
    WordIndirect,
    LastByteIndirect,
}

/// Operand of the 16-bit add into HL.
#[derive(Copy, Clone, Debug, PartialEq, Eq, Structural)]
pub enum ADDHLTarget {
    BC,
    DE,
    HL,
    SP,
}

/// The shape of a load instruction.
#[derive(Copy, Clone, Debug, PartialEq, Eq, Structural)]
pub enum LoadType {
    Byte(LoadByteTarget, LoadByteSource),
    Word(LoadWordTarget),
    AFromIndirect(Indirect),
    IndirectFromA(Indirect),
    AFromByteAddress(),
    ByteAddressFromA(),
    SPFromHL(),
    HLFromSPN(),
    IndirectFromSP(),
}

/// One of the eight fixed low-memory restart vectors.
#[derive(Copy, Clone, Debug, PartialEq, Eq, Structural)]
pub enum RSTLocation {
    X00,
    X08,
    X10,
    X18,
    X20,
    X28,
    X30,
    X38,
}

/// The address a restart location stands for.
pub open spec fn rst_address(loc: RSTLocation) -> u16 {
    match loc {
        RSTLocation::X00 => 0x00,
        RSTLocation::X08 => 0x08,
        RSTLocation::X10 => 0x10,
        RSTLocation::X18 => 0x18,
        RSTLocation::X20 => 0x20,
        RSTLocation::X28 => 0x28,
        RSTLocation::X30 => 0x30,
        RSTLocation::X38 => 0x38,
    }
}

impl RSTLocation {
    /// The fixed target address of this restart vector.
    pub fn to_hex(&self) -> (address: u16)
        ensures
            address == rst_address(*self),
    {
        match self {
            RSTLocation::X00 => 0x00,
            RSTLocation::X08 => 0x08,
            RSTLocation::X10 => 0x10,
            RSTLocation::X18 => 0x18,
            RSTLocation::X20 => 0x20,
            RSTLocation::X28 => 0x28,
            RSTLocation::X30 => 0x30,
            RSTLocation::X38 => 0x38,
        }
    }
}

/// A decoded instruction: an immutable tagged value carrying at most two
/// small operands.
#[derive(Copy, Clone, Debug, PartialEq, Eq, Structural)]
pub enum Instruction {
    NOP(),
    HALT(),
    CALL(JumpTest),
    RET(JumpTest),
    RETI(),
    PUSH(StackTarget),
    POP(StackTarget),
    LD(LoadType),
    ADD(ArithmeticTarget),
    ADD16(ArithmeticTarget16),
    ADDD8(),
    ADDHL(ADDHLTarget),
    SUB(ArithmeticTarget),
    SBC(ArithmeticTarget),
    AND(ArithmeticTarget),
    OR(ArithmeticTarget),
    XOR(ArithmeticTarget),
    XOR16(ArithmeticTarget16),
    XORD8(),
    CP(ArithmeticTarget),
    CP16(ArithmeticTarget16),
    CPD8(),
    INC(ArithmeticTarget),
    INC16(IncDec16Target),
    DEC(ArithmeticTarget),
    DEC16(IncDec16Target),
    CCF(),
    SCF(),
    RRA(),
    RR(ArithmeticTarget),
    RLA(),
    RL(ArithmeticTarget),
    RRCA(),
    RRC(ArithmeticTarget),
    RLCA(),
    RLC(ArithmeticTarget),
    CPL(),
    BIT(u8, ArithmeticTarget),
    BIT16(u8),
    RES(u8, ArithmeticTarget),
    RES16(u8),
    SET(u8, ArithmeticTarget),
    SET16(u8),
    SRL(ArithmeticTarget),
    SRA(ArithmeticTarget),
    SLA(ArithmeticTarget),
    SWAP(ArithmeticTarget),
    SWAP16(ArithmeticTarget16),
    JP(JumpTest),
    JR(JumpTest),
    RST(RSTLocation),
}

/// Every bit index an instruction carries is in range (0 to 7).
pub open spec fn inst_wf(inst: Instruction) -> bool {
    match inst {
        Instruction::BIT(n, _) => n < 8,
        Instruction::BIT16(n) => n < 8,
        Instruction::RES(n, _) => n < 8,
        Instruction::RES16(n) => n < 8,
        Instruction::SET(n, _) => n < 8,
        Instruction::SET16(n) => n < 8,
        _ => true,
    }
}

/// The encoded width in bytes of an instruction as seen by the execution
/// engine: the opcode byte it was decoded from plus its operand bytes. (An
/// extended-table instruction spends one further byte on the prefix; the
/// engine accounts for that before executing.)
pub open spec fn spec_width(inst: Instruction) -> u16 {
    match inst {
        Instruction::LD(load_type) => match load_type {
            LoadType::Byte(_, source) => if source is D8 {
                2
            } else {
                1
            },
            LoadType::Word(_) => 3,
            LoadType::AFromIndirect(indirect) => if indirect is WordIndirect {
                3
            } else {
                1
            },
            LoadType::IndirectFromA(indirect) => if indirect is WordIndirect {
                3
            } else {
                1
            },
            LoadType::AFromByteAddress() => 2,
            LoadType::ByteAddressFromA() => 2,
            LoadType::SPFromHL() => 1,
            LoadType::HLFromSPN() => 2,
            LoadType::IndirectFromSP() => 3,
        },
        Instruction::ADDD8() => 2,
        Instruction::XORD8() => 2,
        Instruction::CPD8() => 2,
        Instruction::JP(_) => 3,
        Instruction::JR(_) => 2,
        Instruction::CALL(_) => 3,
        _ => 1,
    }
}

/// Whether the instruction computes its own next program counter instead of
/// advancing by its encoded width: the jumps, calls, returns and restarts.
pub open spec fn is_control_transfer(inst: Instruction) -> bool {
    match inst {
        Instruction::JP(_) => true,
        Instruction::JR(_) => true,
        Instruction::CALL(_) => true,
        Instruction::RET(_) => true,
        Instruction::RETI() => true,
        Instruction::RST(_) => true,
        _ => false,
    }
}

/// The extended lookup table, keyed by the byte following the prefix.
pub open spec fn spec_decode_prefixed(byte: u8) -> Option<Instruction> {
    match byte {
        0x00 => Some(Instruction::RLC(ArithmeticTarget::B)),
        0x30 => Some(Instruction::SWAP(ArithmeticTarget::B)),
        0x31 => Some(Instruction::SWAP(ArithmeticTarget::C)),
        0x32 => Some(Instruction::SWAP(ArithmeticTarget::D)),
        0x33 => Some(Instruction::SWAP(ArithmeticTarget::E)),
        0x34 => Some(Instruction::SWAP(ArithmeticTarget::H)),
        0x35 => Some(Instruction::SWAP(ArithmeticTarget::L)),
        0x36 => Some(Instruction::SWAP16(ArithmeticTarget16::HL)),
        0x37 => Some(Instruction::SWAP(ArithmeticTarget::A)),
        0x78 => Some(Instruction::BIT(7, ArithmeticTarget::B)),
        0x79 => Some(Instruction::BIT(7, ArithmeticTarget::C)),
        0x7a => Some(Instruction::BIT(7, ArithmeticTarget::D)),
        0x7b => Some(Instruction::BIT(7, ArithmeticTarget::E)),
        0x7c => Some(Instruction::BIT(7, ArithmeticTarget::H)),
        0x7d => Some(Instruction::BIT(7, ArithmeticTarget::L)),
        0x7e => Some(Instruction::BIT16(7)),
        0x7f => Some(Instruction::BIT(7, ArithmeticTarget::A)),
        _ => None,
    }
}

/// The ordinary lookup table, keyed by the opcode byte.
pub open spec fn spec_decode_not_prefixed(byte: u8) -> Option<Instruction> {
    match byte {
        0x00 => Some(Instruction::NOP()),
        0x01 => Some(Instruction::LD(LoadType::Word(LoadWordTarget::BC))),
        0x11 => Some(Instruction::LD(LoadType::Word(LoadWordTarget::DE))),
        0x21 => Some(Instruction::LD(LoadType::Word(LoadWordTarget::HL))),
        0x31 => Some(Instruction::LD(LoadType::Word(LoadWordTarget::SP))),
        0x02 => Some(Instruction::LD(LoadType::IndirectFromA(Indirect::BCIndirect))),
        0x12 => Some(Instruction::LD(LoadType::IndirectFromA(Indirect::DEIndirect))),
        0x22 => Some(Instruction::LD(LoadType::IndirectFromA(Indirect::HLIndirectPlus))),
        0x32 => Some(Instruction::LD(LoadType::IndirectFromA(Indirect::HLIndirectMinus))),
        0x06 => Some(Instruction::LD(LoadType::Byte(LoadByteTarget::B, LoadByteSource::D8))),
        0x0e => Some(Instruction::LD(LoadType::Byte(LoadByteTarget::C, LoadByteSource::D8))),
        0x16 => Some(Instruction::LD(LoadType::Byte(LoadByteTarget::D, LoadByteSource::D8))),
        0x1e => Some(Instruction::LD(LoadType::Byte(LoadByteTarget::E, LoadByteSource::D8))),
        0x26 => Some(Instruction::LD(LoadType::Byte(LoadByteTarget::H, LoadByteSource::D8))),
        0x2e => Some(Instruction::LD(LoadType::Byte(LoadByteTarget::L, LoadByteSource::D8))),
        0x36 => Some(Instruction::LD(LoadType::Byte(LoadByteTarget::HLI, LoadByteSource::D8))),
        0x3e => Some(Instruction::LD(LoadType::Byte(LoadByteTarget::A, LoadByteSource::D8))),
        0x18 => Some(Instruction::JR(JumpTest::Always)),
        0x20 => Some(Instruction::JR(JumpTest::NotZero)),
        0x30 => Some(Instruction::JR(JumpTest::NotCarry)),
        0x28 => Some(Instruction::JR(JumpTest::Zero)),
        0x38 => Some(Instruction::JR(JumpTest::Carry)),
        0xaf => Some(Instruction::XOR(ArithmeticTarget::A)),
        0xa8 => Some(Instruction::XOR(ArithmeticTarget::B)),
        0xa9 => Some(Instruction::XOR(ArithmeticTarget::C)),
        0xaa => Some(Instruction::XOR(ArithmeticTarget::D)),
        0xab => Some(Instruction::XOR(ArithmeticTarget::E)),
        0xac => Some(Instruction::XOR(ArithmeticTarget::H)),
        0xad => Some(Instruction::XOR(ArithmeticTarget::L)),
        0xae => Some(Instruction::XOR16(ArithmeticTarget16::HL)),
        0xee => Some(Instruction::XORD8()),
        0x70 => Some(Instruction::LD(LoadType::Byte(LoadByteTarget::HLI, LoadByteSource::B))),
        0x71 => Some(Instruction::LD(LoadType::Byte(LoadByteTarget::HLI, LoadByteSource::C))),
        0x72 => Some(Instruction::LD(LoadType::Byte(LoadByteTarget::HLI, LoadByteSource::D))),
        0x73 => Some(Instruction::LD(LoadType::Byte(LoadByteTarget::HLI, LoadByteSource::E))),
        0x74 => Some(Instruction::LD(LoadType::Byte(LoadByteTarget::HLI, LoadByteSource::H))),
        0x75 => Some(Instruction::LD(LoadType::Byte(LoadByteTarget::HLI, LoadByteSource::L))),
        0x77 => Some(Instruction::LD(LoadType::Byte(LoadByteTarget::HLI, LoadByteSource::A))),
        0x78 => Some(Instruction::LD(LoadType::Byte(LoadByteTarget::A, LoadByteSource::B))),
        0x79 => Some(Instruction::LD(LoadType::Byte(LoadByteTarget::A, LoadByteSource::C))),
        0x7a => Some(Instruction::LD(LoadType::Byte(LoadByteTarget::A, LoadByteSource::D))),
        0x7b => Some(Instruction::LD(LoadType::Byte(LoadByteTarget::A, LoadByteSource::E))),
        0x7c => Some(Instruction::LD(LoadType::Byte(LoadByteTarget::A, LoadByteSource::H))),
        0x7d => Some(Instruction::LD(LoadType::Byte(LoadByteTarget::A, LoadByteSource::L))),
        0x7e => Some(Instruction::LD(LoadType::Byte(LoadByteTarget::A, LoadByteSource::HLI))),
        0x7f => Some(Instruction::LD(LoadType::Byte(LoadByteTarget::A, LoadByteSource::A))),
        0xe0 => Some(Instruction::LD(LoadType::ByteAddressFromA())),
        0xf0 => Some(Instruction::LD(LoadType::AFromByteAddress())),
        0x08 => Some(Instruction::LD(LoadType::IndirectFromSP())),
        0xf9 => Some(Instruction::LD(LoadType::SPFromHL())),
        0xf8 => Some(Instruction::LD(LoadType::HLFromSPN())),
        0xc5 => Some(Instruction::PUSH(StackTarget::BC)),
        0xd5 => Some(Instruction::PUSH(StackTarget::DE)),
        0xe5 => Some(Instruction::PUSH(StackTarget::HL)),
        0xf5 => Some(Instruction::PUSH(StackTarget::AF)),
        0xc1 => Some(Instruction::POP(StackTarget::BC)),
        0xd1 => Some(Instruction::POP(StackTarget::DE)),
        0xe1 => Some(Instruction::POP(StackTarget::HL)),
        0xf1 => Some(Instruction::POP(StackTarget::AF)),
        0xc4 => Some(Instruction::CALL(JumpTest::NotZero)),
        0xd4 => Some(Instruction::CALL(JumpTest::NotCarry)),
        0xcc => Some(Instruction::CALL(JumpTest::Zero)),
        0xdc => Some(Instruction::CALL(JumpTest::Carry)),
        0xcd => Some(Instruction::CALL(JumpTest::Always)),
        0xbf => Some(Instruction::CP(ArithmeticTarget::A)),
        0xb8 => Some(Instruction::CP(ArithmeticTarget::B)),
        0xb9 => Some(Instruction::CP(ArithmeticTarget::C)),
        0xba => Some(Instruction::CP(ArithmeticTarget::D)),
        0xbb => Some(Instruction::CP(ArithmeticTarget::E)),
        0xbc => Some(Instruction::CP(ArithmeticTarget::H)),
        0xbd => Some(Instruction::CP(ArithmeticTarget::L)),
        0xbe => Some(Instruction::CP16(ArithmeticTarget16::HL)),
        0xfe => Some(Instruction::CPD8()),
        0xf2 => Some(Instruction::LD(LoadType::AFromIndirect(Indirect::LastByteIndirect))),
        0x0a => Some(Instruction::LD(LoadType::AFromIndirect(Indirect::BCIndirect))),
        0x1a => Some(Instruction::LD(LoadType::AFromIndirect(Indirect::DEIndirect))),
        0x2a => Some(Instruction::LD(LoadType::AFromIndirect(Indirect::HLIndirectPlus))),
        0x3a => Some(Instruction::LD(LoadType::AFromIndirect(Indirect::HLIndirectMinus))),
        0xfa => Some(Instruction::LD(LoadType::AFromIndirect(Indirect::WordIndirect))),
        0xc0 => Some(Instruction::RET(JumpTest::NotZero)),
        0xd0 => Some(Instruction::RET(JumpTest::NotCarry)),
        0xc8 => Some(Instruction::RET(JumpTest::Zero)),
        0xd8 => Some(Instruction::RET(JumpTest::Carry)),
        0xc9 => Some(Instruction::RET(JumpTest::Always)),
        0xd9 => Some(Instruction::RETI()),
        0xc7 => Some(Instruction::RST(RSTLocation::X00)),
        0xd7 => Some(Instruction::RST(RSTLocation::X10)),
        0xe7 => Some(Instruction::RST(RSTLocation::X20)),
        0xf7 => Some(Instruction::RST(RSTLocation::X30)),
        0xcf => Some(Instruction::RST(RSTLocation::X08)),
        0xdf => Some(Instruction::RST(RSTLocation::X18)),
        0xef => Some(Instruction::RST(RSTLocation::X28)),
        0xff => Some(Instruction::RST(RSTLocation::X38)),
        0x87 => Some(Instruction::ADD(ArithmeticTarget::A)),
        0x80 => Some(Instruction::ADD(ArithmeticTarget::B)),
        0x81 => Some(Instruction::ADD(ArithmeticTarget::C)),
        0x82 => Some(Instruction::ADD(ArithmeticTarget::D)),
        0x83 => Some(Instruction::ADD(ArithmeticTarget::E)),
        0x84 => Some(Instruction::ADD(ArithmeticTarget::H)),
        0x85 => Some(Instruction::ADD(ArithmeticTarget::L)),
        0x86 => Some(Instruction::ADD16(ArithmeticTarget16::HL)),
        0xc6 => Some(Instruction::ADDD8()),
        0x09 => Some(Instruction::ADDHL(ADDHLTarget::BC)),
        0x19 => Some(Instruction::ADDHL(ADDHLTarget::DE)),
        0x29 => Some(Instruction::ADDHL(ADDHLTarget::HL)),
        0x39 => Some(Instruction::ADDHL(ADDHLTarget::SP)),
        0xe2 => Some(Instruction::LD(LoadType::IndirectFromA(Indirect::LastByteIndirect))),
        0xea => Some(Instruction::LD(LoadType::IndirectFromA(Indirect::WordIndirect))),
        0x3c => Some(Instruction::INC(ArithmeticTarget::A)),
        0x04 => Some(Instruction::INC(ArithmeticTarget::B)),
        0x14 => Some(Instruction::INC(ArithmeticTarget::D)),
        0x24 => Some(Instruction::INC(ArithmeticTarget::H)),
        0x0c => Some(Instruction::INC(ArithmeticTarget::C)),
        0x1c => Some(Instruction::INC(ArithmeticTarget::E)),
        0x2c => Some(Instruction::INC(ArithmeticTarget::L)),
        0x34 => Some(Instruction::INC16(IncDec16Target::HLI)),
        0x03 => Some(Instruction::INC16(IncDec16Target::BC)),
        0x13 => Some(Instruction::INC16(IncDec16Target::DE)),
        0x23 => Some(Instruction::INC16(IncDec16Target::HL)),
        0x33 => Some(Instruction::INC16(IncDec16Target::SP)),
        0x3d => Some(Instruction::DEC(ArithmeticTarget::A)),
        0x05 => Some(Instruction::DEC(ArithmeticTarget::B)),
        0x0d => Some(Instruction::DEC(ArithmeticTarget::C)),
        0x15 => Some(Instruction::DEC(ArithmeticTarget::D)),
        0x1d => Some(Instruction::DEC(ArithmeticTarget::E)),
        0x25 => Some(Instruction::DEC(ArithmeticTarget::H)),
        0x2d => Some(Instruction::DEC(ArithmeticTarget::L)),
        0x35 => Some(Instruction::DEC16(IncDec16Target::HLI)),
        0x0b => Some(Instruction::DEC16(IncDec16Target::BC)),
        0x1b => Some(Instruction::DEC16(IncDec16Target::DE)),
        0x2b => Some(Instruction::DEC16(IncDec16Target::HL)),
        0x3b => Some(Instruction::DEC16(IncDec16Target::SP)),
        _ => None,
    }
}

/// The decode function: dispatches to the extended table when `prefixed`,
/// else the ordinary one.
pub open spec fn spec_decode(byte: u8, prefixed: bool) -> Option<Instruction> {
    if prefixed {
        spec_decode_prefixed(byte)
    } else {
        spec_decode_not_prefixed(byte)
    }
}

impl Instruction {
    /// Decode one byte against the table chosen by `prefixed`. Pure and
    /// deterministic: the result is a function of the two inputs alone, so
    /// identical inputs always yield identical output, and no engine state
    /// is read or written.
    pub fn from_byte(byte: u8, prefixed: bool) -> (inst: Option<Instruction>)
        ensures
            inst == spec_decode(byte, prefixed),
            inst matches Some(i) ==> inst_wf(i),
    {
        if prefixed {
            Instruction::from_byte_prefixed(byte)
        } else {
            Instruction::from_byte_not_prefixed(byte)
        }
    }

    /// Look the byte up in the extended table.
    fn from_byte_prefixed(byte: u8) -> (inst: Option<Instruction>)
        ensures
            inst == spec_decode_prefixed(byte),
    {
        match byte {
            0x00 => Some(Instruction::RLC(ArithmeticTarget::B)),
            0x30 => Some(Instruction::SWAP(ArithmeticTarget::B)),
            0x31 => Some(Instruction::SWAP(ArithmeticTarget::C)),
            0x32 => Some(Instruction::SWAP(ArithmeticTarget::D)),
            0x33 => Some(Instruction::SWAP(ArithmeticTarget::E)),
            0x34 => Some(Instruction::SWAP(ArithmeticTarget::H)),
            0x35 => Some(Instruction::SWAP(ArithmeticTarget::L)),
            0x36 => Some(Instruction::SWAP16(ArithmeticTarget16::HL)),
            0x37 => Some(Instruction::SWAP(ArithmeticTarget::A)),
            0x78 => Some(Instruction::BIT(7, ArithmeticTarget::B)),
            0x79 => Some(Instruction::BIT(7, ArithmeticTarget::C)),
            0x7a => Some(Instruction::BIT(7, ArithmeticTarget::D)),
            0x7b => Some(Instruction::BIT(7, ArithmeticTarget::E)),
            0x7c => Some(Instruction::BIT(7, ArithmeticTarget::H)),
            0x7d => Some(Instruction::BIT(7, ArithmeticTarget::L)),
            0x7e => Some(Instruction::BIT16(7)),
            0x7f => Some(Instruction::BIT(7, ArithmeticTarget::A)),
            _ => None,
        }
    }

    /// Look the byte up in the ordinary table.
    fn from_byte_not_prefixed(byte: u8) -> (inst: Option<Instruction>)
        ensures
            inst == spec_decode_not_prefixed(byte),
    {
        match byte {
            0x00 => Some(Instruction::NOP()),
            0x01 => Some(Instruction::LD(LoadType::Word(LoadWordTarget::BC))),
            0x11 => Some(Instruction::LD(LoadType::Word(LoadWordTarget::DE))),
            0x21 => Some(Instruction::LD(LoadType::Word(LoadWordTarget::HL))),
            0x31 => Some(Instruction::LD(LoadType::Word(LoadWordTarget::SP))),
            0x02 => Some(Instruction::LD(LoadType::IndirectFromA(Indirect::BCIndirect))),
            0x12 => Some(Instruction::LD(LoadType::IndirectFromA(Indirect::DEIndirect))),
            0x22 => Some(Instruction::LD(LoadType::IndirectFromA(Indirect::HLIndirectPlus))),
            0x32 => Some(Instruction::LD(LoadType::IndirectFromA(Indirect::HLIndirectMinus))),
            0x06 => Some(Instruction::LD(LoadType::Byte(LoadByteTarget::B, LoadByteSource::D8))),
            0x0e => Some(Instruction::LD(LoadType::Byte(LoadByteTarget::C, LoadByteSource::D8))),
            0x16 => Some(Instruction::LD(LoadType::Byte(LoadByteTarget::D, LoadByteSource::D8))),
            0x1e => Some(Instruction::LD(LoadType::Byte(LoadByteTarget::E, LoadByteSource::D8))),
            0x26 => Some(Instruction::LD(LoadType::Byte(LoadByteTarget::H, LoadByteSource::D8))),
            0x2e => Some(Instruction::LD(LoadType::Byte(LoadByteTarget::L, LoadByteSource::D8))),
            0x36 => Some(Instruction::LD(LoadType::Byte(LoadByteTarget::HLI, LoadByteSource::D8))),
            0x3e => Some(Instruction::LD(LoadType::Byte(LoadByteTarget::A, LoadByteSource::D8))),
            0x18 => Some(Instruction::JR(JumpTest::Always)),
            0x20 => Some(Instruction::JR(JumpTest::NotZero)),
            0x30 => Some(Instruction::JR(JumpTest::NotCarry)),
            0x28 => Some(Instruction::JR(JumpTest::Zero)),
            0x38 => Some(Instruction::JR(JumpTest::Carry)),
            0xaf => Some(Instruction::XOR(ArithmeticTarget::A)),
            0xa8 => Some(Instruction::XOR(ArithmeticTarget::B)),
            0xa9 => Some(Instruction::XOR(ArithmeticTarget::C)),
            0xaa => Some(Instruction::XOR(ArithmeticTarget::D)),
            0xab => Some(Instruction::XOR(ArithmeticTarget::E)),
            0xac => Some(Instruction::XOR(ArithmeticTarget::H)),
            0xad => Some(Instruction::XOR(ArithmeticTarget::L)),
            0xae => Some(Instruction::XOR16(ArithmeticTarget16::HL)),
            0xee => Some(Instruction::XORD8()),
            0x70 => Some(Instruction::LD(LoadType::Byte(LoadByteTarget::HLI, LoadByteSource::B))),
            0x71 => Some(Instruction::LD(LoadType::Byte(LoadByteTarget::HLI, LoadByteSource::C))),
            0x72 => Some(Instruction::LD(LoadType::Byte(LoadByteTarget::HLI, LoadByteSource::D))),
            0x73 => Some(Instruction::LD(LoadType::Byte(LoadByteTarget::HLI, LoadByteSource::E))),
            0x74 => Some(Instruction::LD(LoadType::Byte(LoadByteTarget::HLI, LoadByteSource::H))),
            0x75 => Some(Instruction::LD(LoadType::Byte(LoadByteTarget::HLI, LoadByteSource::L))),
            0x77 => Some(Instruction::LD(LoadType::Byte(LoadByteTarget::HLI, LoadByteSource::A))),
            0x78 => Some(Instruction::LD(LoadType::Byte(LoadByteTarget::A, LoadByteSource::B))),
            0x79 => Some(Instruction::LD(LoadType::Byte(LoadByteTarget::A, LoadByteSource::C))),
            0x7a => Some(Instruction::LD(LoadType::Byte(LoadByteTarget::A, LoadByteSource::D))),
            0x7b => Some(Instruction::LD(LoadType::Byte(LoadByteTarget::A, LoadByteSource::E))),
            0x7c => Some(Instruction::LD(LoadType::Byte(LoadByteTarget::A, LoadByteSource::H))),
            0x7d => Some(Instruction::LD(LoadType::Byte(LoadByteTarget::A, LoadByteSource::L))),
            0x7e => Some(Instruction::LD(LoadType::Byte(LoadByteTarget::A, LoadByteSource::HLI))),
            0x7f => Some(Instruction::LD(LoadType::Byte(LoadByteTarget::A, LoadByteSource::A))),
            0xe0 => Some(Instruction::LD(LoadType::ByteAddressFromA())),
            0xf0 => Some(Instruction::LD(LoadType::AFromByteAddress())),
            0x08 => Some(Instruction::LD(LoadType::IndirectFromSP())),
            0xf9 => Some(Instruction::LD(LoadType::SPFromHL())),
            0xf8 => Some(Instruction::LD(LoadType::HLFromSPN())),
            0xc5 => Some(Instruction::PUSH(StackTarget::BC)),
            0xd5 => Some(Instruction::PUSH(StackTarget::DE)),
            0xe5 => Some(Instruction::PUSH(StackTarget::HL)),
            0xf5 => Some(Instruction::PUSH(StackTarget::AF)),
            0xc1 => Some(Instruction::POP(StackTarget::BC)),
            0xd1 => Some(Instruction::POP(StackTarget::DE)),
            0xe1 => Some(Instruction::POP(StackTarget::HL)),
            0xf1 => Some(Instruction::POP(StackTarget::AF)),
            0xc4 => Some(Instruction::CALL(JumpTest::NotZero)),
            0xd4 => Some(Instruction::CALL(JumpTest::NotCarry)),
            0xcc => Some(Instruction::CALL(JumpTest::Zero)),
            0xdc => Some(Instruction::CALL(JumpTest::Carry)),
            0xcd => Some(Instruction::CALL(JumpTest::Always)),
            0xbf => Some(Instruction::CP(ArithmeticTarget::A)),
            0xb8 => Some(Instruction::CP(ArithmeticTarget::B)),
            0xb9 => Some(Instruction::CP(ArithmeticTarget::C)),
            0xba => Some(Instruction::CP(ArithmeticTarget::D)),
            0xbb => Some(Instruction::CP(ArithmeticTarget::E)),
            0xbc => Some(Instruction::CP(ArithmeticTarget::H)),
            0xbd => Some(Instruction::CP(ArithmeticTarget::L)),
            0xbe => Some(Instruction::CP16(ArithmeticTarget16::HL)),
            0xfe => Some(Instruction::CPD8()),
            0xf2 => Some(Instruction::LD(LoadType::AFromIndirect(Indirect::LastByteIndirect))),
            0x0a => Some(Instruction::LD(LoadType::AFromIndirect(Indirect::BCIndirect))),
            0x1a => Some(Instruction::LD(LoadType::AFromIndirect(Indirect::DEIndirect))),
            0x2a => Some(Instruction::LD(LoadType::AFromIndirect(Indirect::HLIndirectPlus))),
            0x3a => Some(Instruction::LD(LoadType::AFromIndirect(Indirect::HLIndirectMinus))),
            0xfa => Some(Instruction::LD(LoadType::AFromIndirect(Indirect::WordIndirect))),
            0xc0 => Some(Instruction::RET(JumpTest::NotZero)),
            0xd0 => Some(Instruction::RET(JumpTest::NotCarry)),
            0xc8 => Some(Instruction::RET(JumpTest::Zero)),
            0xd8 => Some(Instruction::RET(JumpTest::Carry)),
            0xc9 => Some(Instruction::RET(JumpTest::Always)),
            0xd9 => Some(Instruction::RETI()),
            0xc7 => Some(Instruction::RST(RSTLocation::X00)),
            0xd7 => Some(Instruction::RST(RSTLocation::X10)),
            0xe7 => Some(Instruction::RST(RSTLocation::X20)),
            0xf7 => Some(Instruction::RST(RSTLocation::X30)),
            0xcf => Some(Instruction::RST(RSTLocation::X08)),
            0xdf => Some(Instruction::RST(RSTLocation::X18)),
            0xef => Some(Instruction::RST(RSTLocation::X28)),
            0xff => Some(Instruction::RST(RSTLocation::X38)),
            0x87 => Some(Instruction::ADD(ArithmeticTarget::A)),
            0x80 => Some(Instruction::ADD(ArithmeticTarget::B)),
            0x81 => Some(Instruction::ADD(ArithmeticTarget::C)),
            0x82 => Some(Instruction::ADD(ArithmeticTarget::D)),
            0x83 => Some(Instruction::ADD(ArithmeticTarget::E)),
            0x84 => Some(Instruction::ADD(ArithmeticTarget::H)),
            0x85 => Some(Instruction::ADD(ArithmeticTarget::L)),
            0x86 => Some(Instruction::ADD16(ArithmeticTarget16::HL)),
            0xc6 => Some(Instruction::ADDD8()),
            0x09 => Some(Instruction::ADDHL(ADDHLTarget::BC)),
            0x19 => Some(Instruction::ADDHL(ADDHLTarget::DE)),
            0x29 => Some(Instruction::ADDHL(ADDHLTarget::HL)),
            0x39 => Some(Instruction::ADDHL(ADDHLTarget::SP)),
            0xe2 => Some(Instruction::LD(LoadType::IndirectFromA(Indirect::LastByteIndirect))),
            0xea => Some(Instruction::LD(LoadType::IndirectFromA(Indirect::WordIndirect))),
            0x3c => Some(Instruction::INC(ArithmeticTarget::A)),
            0x04 => Some(Instruction::INC(ArithmeticTarget::B)),
            0x14 => Some(Instruction::INC(ArithmeticTarget::D)),
            0x24 => Some(Instruction::INC(ArithmeticTarget::H)),
            0x0c => Some(Instruction::INC(ArithmeticTarget::C)),
            0x1c => Some(Instruction::INC(ArithmeticTarget::E)),
            0x2c => Some(Instruction::INC(ArithmeticTarget::L)),
            0x34 => Some(Instruction::INC16(IncDec16Target::HLI)),
            0x03 => Some(Instruction::INC16(IncDec16Target::BC)),
            0x13 => Some(Instruction::INC16(IncDec16Target::DE)),
            0x23 => Some(Instruction::INC16(IncDec16Target::HL)),
            0x33 => Some(Instruction::INC16(IncDec16Target::SP)),
            0x3d => Some(Instruction::DEC(ArithmeticTarget::A)),
            0x05 => Some(Instruction::DEC(ArithmeticTarget::B)),
            0x0d => Some(Instruction::DEC(ArithmeticTarget::C)),
            0x15 => Some(Instruction::DEC(ArithmeticTarget::D)),
            0x1d => Some(Instruction::DEC(ArithmeticTarget::E)),
            0x25 => Some(Instruction::DEC(ArithmeticTarget::H)),
            0x2d => Some(Instruction::DEC(ArithmeticTarget::L)),
            0x35 => Some(Instruction::DEC16(IncDec16Target::HLI)),
            0x0b => Some(Instruction::DEC16(IncDec16Target::BC)),
            0x1b => Some(Instruction::DEC16(IncDec16Target::DE)),
            0x2b => Some(Instruction::DEC16(IncDec16Target::HL)),
            0x3b => Some(Instruction::DEC16(IncDec16Target::SP)),
            _ => None,
        }
    }
}

} // verus!
