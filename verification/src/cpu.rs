//! Execution engine: applies decoded instructions to the register file,
//! flags and memory bus, computes the next program-counter value, and owns
//! the session state (registers, PC, SP, bus, halt flag).
//!
//! The intended behaviour is given by a mathematical interpreter over
//! [`CpuView`] ([`spec_execute`] and [`spec_step`]); every executable method
//! is proved equal to it.

pub mod instruction;
pub mod memorybus;
pub mod registers;

use crate::cpu::instruction::{
    ADDHLTarget, ArithmeticTarget, ArithmeticTarget16, IncDec16Target, Indirect, Instruction,
    JumpTest, LoadByteSource, LoadByteTarget, LoadType, LoadWordTarget, RSTLocation, StackTarget,
    PREFIX_BYTE, inst_wf, is_control_transfer, rst_address, spec_decode, spec_width,
};
use crate::cpu::memorybus::{BusView, MemoryBus, bus_read, bus_write};
use crate::cpu::registers::{
    Flags, Registers, byte_to_flags, flags_to_byte, lemma_word_split_join, make_word, word_hi,
    word_lo, zeroed_registers,
};
use vstd::prelude::*;

verus! {

/// The mathematical state of a whole session: register file, program
/// counter, stack pointer, both memory stores, the halt flag and the
/// host-driven interrupt-pending signal.
#[verifier::ext_equal]
pub ghost struct CpuView {
    pub regs: Registers,
    pub pc: u16,
    pub sp: u16,
    pub bus: BusView,
    pub halted: bool,
    pub interrupt_pending: bool,
}

impl CpuView {
    /// Both memory stores have their fixed sizes.
    pub open spec fn wf(&self) -> bool {
        self.bus.wf()
    }
}

/// The same state with the program counter replaced.
pub open spec fn with_pc(s: CpuView, pc: u16) -> CpuView {
    CpuView { pc, ..s }
}

/// The result of an 8-bit ALU operation: the value and the four flags it
/// leaves behind.
pub ghost struct AluOut {
    pub value: u8,
    pub flags: Flags,
}

/// The result of a 16-bit ALU operation.
pub ghost struct Alu16Out {
    pub value: u16,
    pub flags: Flags,
}

/// 8-bit addition: the sum modulo 256; zero iff that sum is zero, never a
/// subtraction, half-carry on carry out of bit 3, carry on carry out of
/// bit 7.
pub open spec fn spec_add(a: u8, b: u8) -> AluOut {
    AluOut {
        value: a.wrapping_add(b),
        flags: Flags {
            zero: a.wrapping_add(b) == 0,
            subtract: false,
            half_carry: (a & 0xF) + (b & 0xF) > 0xF,
            carry: a + b > 255,
        },
    }
}

/// 16-bit addition into HL: zero iff the wrapped sum is zero, half-carry on
/// carry out of bit 11, carry on carry out of bit 15.
pub open spec fn spec_addhl(a: u16, b: u16) -> Alu16Out {
    Alu16Out {
        value: a.wrapping_add(b),
        flags: Flags {
            zero: a.wrapping_add(b) == 0,
            subtract: false,
            half_carry: (a & 0xFFF) + (b & 0xFFF) > 0xFFF,
            carry: a + b > 0xFFFF,
        },
    }
}

/// 8-bit subtraction: the difference modulo 256; always a subtraction,
/// half-carry on borrow into bit 4, carry when the initial value is smaller
/// than the operand.
pub open spec fn spec_sub(a: u8, b: u8) -> AluOut {
    AluOut {
        value: a.wrapping_sub(b),
        flags: Flags {
            zero: a.wrapping_sub(b) == 0,
            subtract: true,
            half_carry: (a & 0xF) < (b & 0xF),
            carry: a < b,
        },
    }
}

/// Subtraction with carry-in: the operand plus the carry bit is subtracted
/// as one amount, and the borrow flags account for it.
pub open spec fn spec_sbc(a: u8, b: u8, carry_in: bool) -> AluOut {
    let c: u8 = if carry_in {
        1
    } else {
        0
    };
    AluOut {
        value: a.wrapping_sub(b).wrapping_sub(c),
        flags: Flags {
            zero: a.wrapping_sub(b).wrapping_sub(c) == 0,
            subtract: true,
            half_carry: (a & 0xF) < (b & 0xF) + c,
            carry: a < b + c,
        },
    }
}

/// Bitwise and: half-carry is always set, carry always cleared.
pub open spec fn spec_and(a: u8, b: u8) -> AluOut {
    AluOut {
        value: a & b,
        flags: Flags { zero: (a & b) == 0, subtract: false, half_carry: true, carry: false },
    }
}

/// Bitwise or: half-carry and carry always cleared.
pub open spec fn spec_or(a: u8, b: u8) -> AluOut {
    AluOut {
        value: a | b,
        flags: Flags { zero: (a | b) == 0, subtract: false, half_carry: false, carry: false },
    }
}

/// Bitwise exclusive or: half-carry and carry always cleared.
pub open spec fn spec_xor(a: u8, b: u8) -> AluOut {
    AluOut {
        value: a ^ b,
        flags: Flags { zero: (a ^ b) == 0, subtract: false, half_carry: false, carry: false },
    }
}

/// 8-bit increment: wraps; the carry flag keeps its previous value.
pub open spec fn spec_inc(v: u8, f: Flags) -> AluOut {
    AluOut {
        value: v.wrapping_add(1),
        flags: Flags {
            zero: v.wrapping_add(1) == 0,
            subtract: false,
            half_carry: (v & 0xF) + 1 > 0xF,
            carry: f.carry,
        },
    }
}

/// 8-bit decrement: wraps; the carry flag keeps its previous value.
pub open spec fn spec_dec(v: u8, f: Flags) -> AluOut {
    AluOut {
        value: v.wrapping_sub(1),
        flags: Flags {
            zero: v.wrapping_sub(1) == 0,
            subtract: true,
            half_carry: (v & 0xF) == 0,
            carry: f.carry,
        },
    }
}

/// Rotate right through carry: the old carry enters at bit 7, the shifted-out
/// bit 0 becomes the carry.
pub open spec fn spec_rr(v: u8, carry_in: bool) -> AluOut {
    let msb: u8 = if carry_in {
        0x80
    } else {
        0
    };
    AluOut {
        value: (v >> 1) | msb,
        flags: Flags {
            zero: ((v >> 1) | msb) == 0,
            subtract: false,
            half_carry: false,
            carry: v & 1 == 1,
        },
    }
}

/// Rotate left through carry: the old carry enters at bit 0, the shifted-out
/// bit 7 becomes the carry.
pub open spec fn spec_rl(v: u8, carry_in: bool) -> AluOut {
    let lsb: u8 = if carry_in {
        1
    } else {
        0
    };
    AluOut {
        value: (v << 1) | lsb,
        flags: Flags {
            zero: ((v << 1) | lsb) == 0,
            subtract: false,
            half_carry: false,
            carry: v & 0x80 != 0,
        },
    }
}

/// Rotate right (circular): bit 0 moves to bit 7 and becomes the carry.
pub open spec fn spec_rrc(v: u8) -> AluOut {
    AluOut {
        value: (v >> 1) | ((v & 1) << 7),
        flags: Flags {
            zero: ((v >> 1) | ((v & 1) << 7)) == 0,
            subtract: false,
            half_carry: false,
            carry: v & 1 == 1,
        },
    }
}

/// Rotate left (circular): bit 7 moves to bit 0 and becomes the carry.
pub open spec fn spec_rlc(v: u8) -> AluOut {
    AluOut {
        value: (v << 1) | ((v & 0x80) >> 7),
        flags: Flags {
            zero: ((v << 1) | ((v & 0x80) >> 7)) == 0,
            subtract: false,
            half_carry: false,
            carry: (v & 0x80) >> 7 == 1,
        },
    }
}

/// Logical shift right: bit 7 becomes zero, bit 0 becomes the carry.
pub open spec fn spec_srl(v: u8) -> AluOut {
    AluOut {
        value: v >> 1,
        flags: Flags {
            zero: (v >> 1) == 0,
            subtract: false,
            half_carry: false,
            carry: v & 1 == 1,
        },
    }
}

/// Arithmetic shift right: bit 7 (the sign) is preserved, bit 0 becomes the
/// carry.
pub open spec fn spec_sra(v: u8) -> AluOut {
    AluOut {
        value: (v >> 1) | (v & 0x80),
        flags: Flags {
            zero: ((v >> 1) | (v & 0x80)) == 0,
            subtract: false,
            half_carry: false,
            carry: v & 1 == 1,
        },
    }
}

/// Logical shift left: bit 7 becomes the carry.
pub open spec fn spec_sla(v: u8) -> AluOut {
    AluOut {
        value: v << 1,
        flags: Flags {
            zero: (v << 1) == 0,
            subtract: false,
            half_carry: false,
            carry: v & 0x80 != 0,
        },
    }
}

/// Nibble swap: the low nibble moves to the top, the high nibble to the
/// bottom; carry is always cleared.
pub open spec fn spec_swap(v: u8) -> AluOut {
    AluOut {
        value: (v << 4) | (v >> 4),
        flags: Flags {
            zero: ((v << 4) | (v >> 4)) == 0,
            subtract: false,
            half_carry: false,
            carry: false,
        },
    }
}

/// Setting bit `n` always yields the value or-ed with `1 << n`.
pub open spec fn spec_set_bit(v: u8, n: u8) -> u8
    recommends
        n < 8,
{
    v | (1u8 << n)
}

/// Clearing bit `n` always yields the value and-ed with the complement of
/// `1 << n`.
pub open spec fn spec_reset_bit(v: u8, n: u8) -> u8
    recommends
        n < 8,
{
    v & !(1u8 << n)
}

/// Whether bit `n` of the value is set.
pub open spec fn spec_bit_test(v: u8, n: u8) -> bool
    recommends
        n < 8,
{
    v & (1u8 << n) != 0
}

/// Whether a condition holds of the current flags.
pub open spec fn spec_condition(f: Flags, test: JumpTest) -> bool {
    match test {
        JumpTest::NotZero => !f.zero,
        JumpTest::Zero => f.zero,
        JumpTest::NotCarry => !f.carry,
        JumpTest::Carry => f.carry,
        JumpTest::Always => true,
    }
}

/// The 8-bit register named by an arithmetic target.
pub open spec fn get_reg8(r: Registers, target: ArithmeticTarget) -> u8 {
    match target {
        ArithmeticTarget::A => r.a,
        ArithmeticTarget::B => r.b,
        ArithmeticTarget::C => r.c,
        ArithmeticTarget::D => r.d,
        ArithmeticTarget::E => r.e,
        ArithmeticTarget::H => r.h,
        ArithmeticTarget::L => r.l,
    }
}

/// The register file with the named 8-bit register replaced.
pub open spec fn set_reg8(r: Registers, target: ArithmeticTarget, v: u8) -> Registers {
    match target {
        ArithmeticTarget::A => Registers { a: v, ..r },
        ArithmeticTarget::B => Registers { b: v, ..r },
        ArithmeticTarget::C => Registers { c: v, ..r },
        ArithmeticTarget::D => Registers { d: v, ..r },
        ArithmeticTarget::E => Registers { e: v, ..r },
        ArithmeticTarget::H => Registers { h: v, ..r },
        ArithmeticTarget::L => Registers { l: v, ..r },
    }
}

/// The 16-bit pair named by an indirect operand.
pub open spec fn get_pair16(r: Registers, target: ArithmeticTarget16) -> u16 {
    match target {
        ArithmeticTarget16::BC => make_word(r.b, r.c),
        ArithmeticTarget16::DE => make_word(r.d, r.e),
        ArithmeticTarget16::HL => make_word(r.h, r.l),
    }
}

/// The register file with the named 16-bit pair replaced.
pub open spec fn set_pair16(r: Registers, target: ArithmeticTarget16, v: u16) -> Registers {
    match target {
        ArithmeticTarget16::BC => Registers { b: word_hi(v), c: word_lo(v), ..r },
        ArithmeticTarget16::DE => Registers { d: word_hi(v), e: word_lo(v), ..r },
        ArithmeticTarget16::HL => Registers { h: word_hi(v), l: word_lo(v), ..r },
    }
}

/// The 16-bit value a stack push takes from the named pair; AF packs the
/// flags byte below the accumulator.
pub open spec fn get_stack_pair(r: Registers, target: StackTarget) -> u16 {
    match target {
        StackTarget::AF => make_word(r.a, flags_to_byte(r.f)),
        StackTarget::BC => make_word(r.b, r.c),
        StackTarget::DE => make_word(r.d, r.e),
        StackTarget::HL => make_word(r.h, r.l),
    }
}

/// The register file after a stack pop into the named pair; popping into AF
/// unpacks the flags from the low byte (its low nibble is discarded).
pub open spec fn set_stack_pair(r: Registers, target: StackTarget, v: u16) -> Registers {
    match target {
        StackTarget::AF => Registers { a: word_hi(v), f: byte_to_flags(word_lo(v)), ..r },
        StackTarget::BC => Registers { b: word_hi(v), c: word_lo(v), ..r },
        StackTarget::DE => Registers { d: word_hi(v), e: word_lo(v), ..r },
        StackTarget::HL => Registers { h: word_hi(v), l: word_lo(v), ..r },
    }
}

/// The register file with its flags replaced.
pub open spec fn with_flags(r: Registers, f: Flags) -> Registers {
    Registers { f, ..r }
}

/// The little-endian 16-bit word following the opcode byte at `addr`: the
/// byte at `addr + 1` is the low half, the byte at `addr + 2` the high half.
pub open spec fn read_word_at(b: BusView, addr: u16) -> u16 {
    make_word(bus_read(b, addr.wrapping_add(2)), bus_read(b, addr.wrapping_add(1)))
}

/// The state after pushing a 16-bit value: the stack pointer moves down
/// twice, the high byte is stored first (at the higher address).
pub open spec fn spec_push16(s: CpuView, value: u16) -> CpuView {
    let sp1 = s.sp.wrapping_sub(1);
    let b1 = bus_write(s.bus, sp1, word_hi(value));
    let sp2 = sp1.wrapping_sub(1);
    let b2 = bus_write(b1, sp2, word_lo(value));
    CpuView { sp: sp2, bus: b2, ..s }
}

/// The 16-bit value a pop yields: the low byte from the stack pointer, the
/// high byte from one above it.
pub open spec fn spec_pop_value(s: CpuView) -> u16 {
    make_word(bus_read(s.bus, s.sp.wrapping_add(1)), bus_read(s.bus, s.sp))
}

/// The state after a pop: only the stack pointer changes, moving up twice.
pub open spec fn spec_pop16(s: CpuView) -> CpuView {
    CpuView { sp: s.sp.wrapping_add(2), ..s }
}

/// The target of a relative jump: the address after the two-byte
/// instruction, displaced by the signed offset byte (wrapping).
pub open spec fn jr_target(pc: u16, offset: u8) -> u16 {
    let next = pc.wrapping_add(2);
    if offset < 128 {
        next.wrapping_add(offset as u16)
    } else {
        next.wrapping_sub((256 - offset) as u16)
    }
}

/// The stack-pointer-plus-signed-byte value and the flags it raises: zero
/// and subtract cleared, half-carry and carry from the low-byte addition.
pub open spec fn spec_sp_plus_n(sp: u16, n: u8) -> Alu16Out {
    Alu16Out {
        value: if n < 128 {
            sp.wrapping_add(n as u16)
        } else {
            sp.wrapping_sub((256 - n) as u16)
        },
        flags: Flags {
            zero: false,
            subtract: false,
            half_carry: (sp & 0xF) + (n & 0xF) > 0xF,
            carry: (sp & 0xFF) + n > 0xFF,
        },
    }
}

/// The fatal condition raised when decode finds no table entry: the address
/// the byte was read from, the raw byte, and whether the extended table was
/// in use.
#[derive(Copy, Clone, Debug, PartialEq, Eq, Structural)]
pub struct FatalStop {
    pub address: u16,
    pub byte: u8,
    pub prefixed: bool,
}

/// The execution core: register file, program counter, stack pointer, memory
/// bus, halt flag, and the host-set interrupt-pending signal.
pub struct CPU {
    pub registers: Registers,
    pub pc: u16,
    pub sp: u16,
    pub bus: MemoryBus,
    pub is_halted: bool,
    pub interrupt_pending: bool,
}

impl View for CPU {
    type V = CpuView;

    open spec fn view(&self) -> CpuView {
        CpuView {
            regs: self.registers,
            pc: self.pc,
            sp: self.sp,
            bus: self.bus@,
            halted: self.is_halted,
            interrupt_pending: self.interrupt_pending,
        }
    }
}

impl CPU {
    /// Both memory stores have their fixed sizes.
    pub open spec fn wf(&self) -> bool {
        self@.wf()
    }

    /// A fresh session: registers, flags, PC and SP all zero, not halted, no
    /// interrupt pending; flat memory seeded from the boot data (truncated
    /// to the fixed seed size if longer), video memory zeroed.
    pub fn new(boot_rom: Vec<u8>) -> (cpu: CPU)
        ensures
            cpu.wf(),
            cpu@.regs == zeroed_registers(),
            cpu@.pc == 0,
            cpu@.sp == 0,
            !cpu@.halted,
            !cpu@.interrupt_pending,
            forall|i: int|
                0 <= i < crate::cpu::memorybus::ADDRESS_SPACE_SIZE ==> cpu@.bus.mem[i] == (if i
                    < boot_rom@.len() && i < crate::cpu::memorybus::BOOT_ROM_SIZE {
                    boot_rom@[i]
                } else {
                    0u8
                }),
            forall|i: int| 0 <= i < crate::gpu::VRAM_SIZE ==> cpu@.bus.vram[i] == 0u8,
    {
        CPU {
            registers: Registers::new(),
            pc: 0,
            sp: 0,
            bus: MemoryBus::new(boot_rom),
            is_halted: false,
            interrupt_pending: false,
        }
    }

    /// The byte immediately after the opcode at the current PC.
    pub fn read_next_byte(&self) -> (value: u8)
        requires
            self.wf(),
        ensures
            value == bus_read(self@.bus, self@.pc.wrapping_add(1)),
    {
        self.bus.read_byte(self.pc.wrapping_add(1))
    }

    /// The little-endian 16-bit word following the opcode at the current PC.
    pub fn read_next_word(&self) -> (value: u16)
        requires
            self.wf(),
        ensures
            value == read_word_at(self@.bus, self@.pc),
    {
        let lo: u8 = self.bus.read_byte(self.pc.wrapping_add(1));
        let hi: u8 = self.bus.read_byte(self.pc.wrapping_add(2));
        (hi as u16) * 256 + (lo as u16)
    }

    /// The 8-bit register an arithmetic target names.
    pub fn get_arithmetic_target_value(&self, target: ArithmeticTarget) -> (value: u8)
        ensures
            value == get_reg8(self.registers, target),
    {
        match target {
            ArithmeticTarget::A => self.registers.a,
            ArithmeticTarget::B => self.registers.b,
            ArithmeticTarget::C => self.registers.c,
            ArithmeticTarget::D => self.registers.d,
            ArithmeticTarget::E => self.registers.e,
            ArithmeticTarget::H => self.registers.h,
            ArithmeticTarget::L => self.registers.l,
        }
    }

    /// Store into the 8-bit register an arithmetic target names.
    pub fn set_arithmetic_target_value(&mut self, target: ArithmeticTarget, value: u8)
        ensures
            final(self).registers == set_reg8(old(self).registers, target, value),
            final(self).pc == old(self).pc,
            final(self).sp == old(self).sp,
            final(self).bus == old(self).bus,
            final(self).is_halted == old(self).is_halted,
            final(self).interrupt_pending == old(self).interrupt_pending,
    {
        match target {
            ArithmeticTarget::A => self.registers.a = value,
            ArithmeticTarget::B => self.registers.b = value,
            ArithmeticTarget::C => self.registers.c = value,
            ArithmeticTarget::D => self.registers.d = value,
            ArithmeticTarget::E => self.registers.e = value,
            ArithmeticTarget::H => self.registers.h = value,
            ArithmeticTarget::L => self.registers.l = value,
        }
    }

    /// The 16-bit pair an indirect operand names.
    pub fn get_arithmetic_target_value16(&self, target: ArithmeticTarget16) -> (value: u16)
        ensures
            value == get_pair16(self.registers, target),
    {
        match target {
            ArithmeticTarget16::BC => self.registers.get_bc(),
            ArithmeticTarget16::DE => self.registers.get_de(),
            ArithmeticTarget16::HL => self.registers.get_hl(),
        }
    }

    /// Store into the 16-bit pair an indirect operand names.
    pub fn set_arithmetic_target_value16(&mut self, target: ArithmeticTarget16, value: u16)
        ensures
            final(self).registers == set_pair16(old(self).registers, target, value),
            final(self).pc == old(self).pc,
            final(self).sp == old(self).sp,
            final(self).bus == old(self).bus,
            final(self).is_halted == old(self).is_halted,
            final(self).interrupt_pending == old(self).interrupt_pending,
    {
        match target {
            ArithmeticTarget16::BC => self.registers.set_bc(value),
            ArithmeticTarget16::DE => self.registers.set_de(value),
            ArithmeticTarget16::HL => self.registers.set_hl(value),
        }
    }

    /// Whether a jump condition holds of the current flags.
    pub fn condition_met(&self, test: JumpTest) -> (met: bool)
        ensures
            met == spec_condition(self.registers.f, test),
    {
        match test {
            JumpTest::NotZero => !self.registers.f.zero,
            JumpTest::Zero => self.registers.f.zero,
            JumpTest::NotCarry => !self.registers.f.carry,
            JumpTest::Carry => self.registers.f.carry,
            JumpTest::Always => true,
        }
    }

    /// Add `value` on the accumulator's ALU path: returns the wrapped sum
    /// and sets the flags of [`spec_add`]. Only the flags change here; the
    /// caller stores the returned value.
    pub fn add(&mut self, value: u8) -> (result: u8)
        requires
            old(self).wf(),
        ensures
            final(self).wf(),
            result == spec_add(old(self).registers.a, value).value,
            final(self)@ == (CpuView {
                regs: with_flags(old(self)@.regs, spec_add(old(self).registers.a, value).flags),
                ..old(self)@
            }),
    {
        let a: u8 = self.registers.a;
        let total: u16 = a as u16 + value as u16;
        let result: u8 = (total % 256) as u8;
        proof {
            lemma_nibble_bound(a);
            lemma_nibble_bound(value);
            assert(a.wrapping_add(value) == result);
        }
        self.registers.f = Flags {
            zero: result == 0,
            subtract: false,
            half_carry: (a & 0xF) + (value & 0xF) > 0xF,
            carry: total > 255,
        };
        proof {
            assert(self@ =~= (CpuView {
                regs: with_flags(old(self)@.regs, spec_add(old(self).registers.a, value).flags),
                ..old(self)@
            }));
        }
        result
    }

    /// Add `value` on HL's ALU path: returns the wrapped 16-bit sum and
    /// sets the flags of [`spec_addhl`]. Only the flags change here; the
    /// caller stores the returned value.
    pub fn addhl(&mut self, value: u16) -> (result: u16)
        requires
            old(self).wf(),
        ensures
            final(self).wf(),
            result == spec_addhl(
                make_word(old(self).registers.h, old(self).registers.l),
                value,
            ).value,
            final(self)@ == (CpuView {
                regs: with_flags(
                    old(self)@.regs,
                    spec_addhl(make_word(old(self).registers.h, old(self).registers.l),
                        value).flags,
                ),
                ..old(self)@
            }),
    {
        let hl: u16 = self.registers.get_hl();
        let total: u32 = hl as u32 + value as u32;
        let result: u16 = (total % 0x10000) as u16;
        proof {
            lemma_low12_bound(hl);
            lemma_low12_bound(value);
            assert(hl.wrapping_add(value) == result);
        }
        self.registers.f = Flags {
            zero: result == 0,
            subtract: false,
            half_carry: (hl & 0xFFF) + (value & 0xFFF) > 0xFFF,
            carry: total > 0xFFFF,
        };
        proof {
            assert(self@ =~= (CpuView {
                regs: with_flags(
                    old(self)@.regs,
                    spec_addhl(make_word(old(self).registers.h, old(self).registers.l),
                        value).flags,
                ),
                ..old(self)@
            }));
        }
        result
    }

    /// Subtract `value` on the accumulator's ALU path: returns the wrapped
    /// difference and sets the flags of [`spec_sub`]. Compare uses the same
    /// path and simply discards the value.
    pub fn sub(&mut self, value: u8) -> (result: u8)
        requires
            old(self).wf(),
        ensures
            final(self).wf(),
            result == spec_sub(old(self).registers.a, value).value,
            final(self)@ == (CpuView {
                regs: with_flags(old(self)@.regs, spec_sub(old(self).registers.a, value).flags),
                ..old(self)@
            }),
    {
        let a: u8 = self.registers.a;
        let result: u8 = a.wrapping_sub(value);
        self.registers.f = Flags {
            zero: result == 0,
            subtract: true,
            half_carry: (a & 0xF) < (value & 0xF),
            carry: a < value,
        };
        proof {
            assert(self@ =~= (CpuView {
                regs: with_flags(old(self)@.regs, spec_sub(old(self).registers.a, value).flags),
                ..old(self)@
            }));
        }
        result
    }

    /// Subtract `value` plus the carry flag on the accumulator's ALU path:
    /// returns the wrapped difference and sets the flags of [`spec_sbc`].
    pub fn sbc(&mut self, value: u8) -> (result: u8)
        requires
            old(self).wf(),
        ensures
            final(self).wf(),
            result == spec_sbc(old(self).registers.a, value, old(self).registers.f.carry).value,
            final(self)@ == (CpuView {
                regs: with_flags(
                    old(self)@.regs,
                    spec_sbc(old(self).registers.a, value, old(self).registers.f.carry).flags,
                ),
                ..old(self)@
            }),
    {
        let a: u8 = self.registers.a;
        let c: u8 = if self.registers.f.carry {
            1
        } else {
            0
        };
        let result: u8 = a.wrapping_sub(value).wrapping_sub(c);
        proof {
            lemma_nibble_bound(a);
            lemma_nibble_bound(value);
        }
        self.registers.f = Flags {
            zero: result == 0,
            subtract: true,
            half_carry: ((a & 0xF) as u16) < ((value & 0xF) as u16) + (c as u16),
            carry: (a as u16) < (value as u16) + (c as u16),
        };
        proof {
            assert(self@ =~= (CpuView {
                regs: with_flags(
                    old(self)@.regs,
                    spec_sbc(old(self).registers.a, value, old(self).registers.f.carry).flags,
                ),
                ..old(self)@
            }));
        }
        result
    }

    /// Bitwise-and `value` on the accumulator's ALU path; flags of
    /// [`spec_and`].
    pub fn and(&mut self, value: u8) -> (result: u8)
        requires
            old(self).wf(),
        ensures
            final(self).wf(),
            result == spec_and(old(self).registers.a, value).value,
            final(self)@ == (CpuView {
                regs: with_flags(old(self)@.regs, spec_and(old(self).registers.a, value).flags),
                ..old(self)@
            }),
    {
        let result: u8 = self.registers.a & value;
        self.registers.f = Flags {
            zero: result == 0,
            subtract: false,
            half_carry: true,
            carry: false,
        };
        proof {
            assert(self@ =~= (CpuView {
                regs: with_flags(old(self)@.regs, spec_and(old(self).registers.a, value).flags),
                ..old(self)@
            }));
        }
        result
    }

    /// Bitwise-or `value` on the accumulator's ALU path; flags of
    /// [`spec_or`].
    pub fn or(&mut self, value: u8) -> (result: u8)
        requires
            old(self).wf(),
        ensures
            final(self).wf(),
            result == spec_or(old(self).registers.a, value).value,
            final(self)@ == (CpuView {
                regs: with_flags(old(self)@.regs, spec_or(old(self).registers.a, value).flags),
                ..old(self)@
            }),
    {
        let result: u8 = self.registers.a | value;
        self.registers.f = Flags {
            zero: result == 0,
            subtract: false,
            half_carry: false,
            carry: false,
        };
        proof {
            assert(self@ =~= (CpuView {
                regs: with_flags(old(self)@.regs, spec_or(old(self).registers.a, value).flags),
                ..old(self)@
            }));
        }
        result
    }

    /// Bitwise-xor `value` on the accumulator's ALU path; flags of
    /// [`spec_xor`].
    pub fn xor(&mut self, value: u8) -> (result: u8)
        requires
            old(self).wf(),
        ensures
            final(self).wf(),
            result == spec_xor(old(self).registers.a, value).value,
            final(self)@ == (CpuView {
                regs: with_flags(old(self)@.regs, spec_xor(old(self).registers.a, value).flags),
                ..old(self)@
            }),
    {
        let result: u8 = self.registers.a ^ value;
        self.registers.f = Flags {
            zero: result == 0,
            subtract: false,
            half_carry: false,
            carry: false,
        };
        proof {
            assert(self@ =~= (CpuView {
                regs: with_flags(old(self)@.regs, spec_xor(old(self).registers.a, value).flags),
                ..old(self)@
            }));
        }
        result
    }

    /// The next PC of an absolute jump: the 16-bit word after the opcode
    /// when the condition held, else PC plus the instruction's width of 3.
    pub fn jump(&self, should_jump: bool) -> (next_pc: u16)
        requires
            self.wf(),
        ensures
            next_pc == if should_jump {
                read_word_at(self@.bus, self@.pc)
            } else {
                self@.pc.wrapping_add(3)
            },
    {
        if should_jump {
            self.read_next_word()
        } else {
            self.pc.wrapping_add(3)
        }
    }

    /// The next PC of a relative jump: PC plus 2, displaced by the signed
    /// offset byte when the condition held.
    pub fn jump_relative(&self, should_jump: bool) -> (next_pc: u16)
        requires
            self.wf(),
        ensures
            next_pc == if should_jump {
                jr_target(self@.pc, bus_read(self@.bus, self@.pc.wrapping_add(1)))
            } else {
                self@.pc.wrapping_add(2)
            },
    {
        let next_step: u16 = self.pc.wrapping_add(2);
        if should_jump {
            let offset: u8 = self.read_next_byte();
            if offset < 128 {
                next_step.wrapping_add(offset as u16)
            } else {
                next_step.wrapping_sub(256 - offset as u16)
            }
        } else {
            next_step
        }
    }

    /// Push a 16-bit value: the stack pointer moves down twice and the two
    /// bytes are stored high-first.
    pub fn push(&mut self, value: u16)
        requires
            old(self).wf(),
        ensures
            final(self).wf(),
            final(self)@ == spec_push16(old(self)@, value),
    {
        self.sp = self.sp.wrapping_sub(1);
        self.bus.write_byte(self.sp, (value / 256) as u8);
        self.sp = self.sp.wrapping_sub(1);
        self.bus.write_byte(self.sp, (value % 256) as u8);
        proof {
            assert(self@ =~= spec_push16(old(self)@, value));
        }
    }

    /// Pop a 16-bit value: the two bytes are read low-first and the stack
    /// pointer moves up twice.
    pub fn pop(&mut self) -> (value: u16)
        requires
            old(self).wf(),
        ensures
            final(self).wf(),
            value == spec_pop_value(old(self)@),
            final(self)@ == spec_pop16(old(self)@),
    {
        let lo: u8 = self.bus.read_byte(self.sp);
        self.sp = self.sp.wrapping_add(1);
        let hi: u8 = self.bus.read_byte(self.sp);
        self.sp = self.sp.wrapping_add(1);
        proof {
            assert(self@ =~= spec_pop16(old(self)@));
        }
        (hi as u16) * 256 + (lo as u16)
    }

    /// A conditional call: when the condition held, the address of the
    /// following instruction (PC plus 3) is pushed and the word operand is
    /// returned as the next PC; else nothing changes and PC plus 3 is
    /// returned.
    pub fn call(&mut self, should_jump: bool) -> (next_pc: u16)
        requires
            old(self).wf(),
        ensures
            final(self).wf(),
            should_jump ==> final(self)@ == spec_push16(old(self)@, old(self)@.pc.wrapping_add(3))
                && next_pc == read_word_at(
                spec_push16(old(self)@, old(self)@.pc.wrapping_add(3)).bus,
                old(self)@.pc,
            ),
            !should_jump ==> final(self)@ == old(self)@ && next_pc == old(self)@.pc.wrapping_add(3),
    {
        let next_pc: u16 = self.pc.wrapping_add(3);
        if should_jump {
            self.push(next_pc);
            self.read_next_word()
        } else {
            next_pc
        }
    }

    /// A conditional return: when the condition held, a 16-bit address is
    /// popped and returned as the next PC; else nothing changes and PC plus
    /// 1 is returned.
    pub fn return_(&mut self, should_jump: bool) -> (next_pc: u16)
        requires
            old(self).wf(),
        ensures
            final(self).wf(),
            should_jump ==> final(self)@ == spec_pop16(old(self)@) && next_pc == spec_pop_value(
                old(self)@,
            ),
            !should_jump ==> final(self)@ == old(self)@ && next_pc == old(self)@.pc.wrapping_add(1),
    {
        if should_jump {
            self.pop()
        } else {
            self.pc.wrapping_add(1)
        }
    }
}

/// The low nibble of a byte is at most `0xF`, and masking it equals taking
/// the remainder by 16.
pub proof fn lemma_nibble_bound(x: u8)
    ensures
        x & 0xF <= 0xF,
        (x & 0xF) == x % 16,
{
    assert(x & 0xF <= 0xF && (x & 0xF) == x % 16) by (bit_vector);
}

/// The low twelve bits of a word are at most `0xFFF`.
pub proof fn lemma_low12_bound(x: u16)
    ensures
        x & 0xFFF <= 0xFFF,
{
    assert(x & 0xFFF <= 0xFFF) by (bit_vector);
}

/// Set bit `n`: always the value or-ed with `1 << n`. The function computes
/// the value only, so it touches no flag.
pub fn set_bit(value: u8, n: u8) -> (result: u8)
    requires
        n < 8,
    ensures
        result == spec_set_bit(value, n),
        result == (value | (1u8 << n)),
{
    value | (1u8 << n)
}

/// Clear bit `n`: always the value and-ed with the complement of `1 << n`.
/// The function computes the value only, so it touches no flag.
pub fn reset_bit(value: u8, n: u8) -> (result: u8)
    requires
        n < 8,
    ensures
        result == spec_reset_bit(value, n),
        result == (value & !(1u8 << n)),
{
    value & !(1u8 << n)
}

/// The state after an accumulator ALU operation: A takes the value, the
/// flags are replaced, PC moves to `pc`.
pub open spec fn acc_op(s: CpuView, out: AluOut, pc: u16) -> CpuView {
    CpuView { regs: Registers { a: out.value, f: out.flags, ..s.regs }, pc, ..s }
}

/// The state after an operation that only replaces the flags.
pub open spec fn flags_op(s: CpuView, f: Flags, pc: u16) -> CpuView {
    CpuView { regs: with_flags(s.regs, f), pc, ..s }
}

/// The state after an ALU operation on a named register: the register takes
/// the value, the flags are replaced.
pub open spec fn reg_op(s: CpuView, target: ArithmeticTarget, out: AluOut, pc: u16) -> CpuView {
    CpuView { regs: with_flags(set_reg8(s.regs, target, out.value), out.flags), pc, ..s }
}

/// The right-hand operand of the 16-bit add into HL.
pub open spec fn addhl_operand(s: CpuView, target: ADDHLTarget) -> u16 {
    match target {
        ADDHLTarget::BC => make_word(s.regs.b, s.regs.c),
        ADDHLTarget::DE => make_word(s.regs.d, s.regs.e),
        ADDHLTarget::HL => make_word(s.regs.h, s.regs.l),
        ADDHLTarget::SP => s.sp,
    }
}

/// The state after a load instruction; its PC advances by the load's width.
pub open spec fn spec_execute_load(s: CpuView, load_type: LoadType) -> CpuView {
    let d = s.pc.wrapping_add(spec_width(Instruction::LD(load_type)));
    match load_type {
        LoadType::Byte(target, source) => {
            let source_value = match source {
                LoadByteSource::A => s.regs.a,
                LoadByteSource::B => s.regs.b,
                LoadByteSource::C => s.regs.c,
                LoadByteSource::D => s.regs.d,
                LoadByteSource::E => s.regs.e,
                LoadByteSource::H => s.regs.h,
                LoadByteSource::L => s.regs.l,
                LoadByteSource::D8 => bus_read(s.bus, s.pc.wrapping_add(1)),
                LoadByteSource::HLI => bus_read(s.bus, make_word(s.regs.h, s.regs.l)),
            };
            match target {
                LoadByteTarget::A => CpuView { regs: Registers { a: source_value, ..s.regs }, pc: d, ..s },
                LoadByteTarget::B => CpuView { regs: Registers { b: source_value, ..s.regs }, pc: d, ..s },
                LoadByteTarget::C => CpuView { regs: Registers { c: source_value, ..s.regs }, pc: d, ..s },
                LoadByteTarget::D => CpuView { regs: Registers { d: source_value, ..s.regs }, pc: d, ..s },
                LoadByteTarget::E => CpuView { regs: Registers { e: source_value, ..s.regs }, pc: d, ..s },
                LoadByteTarget::H => CpuView { regs: Registers { h: source_value, ..s.regs }, pc: d, ..s },
                LoadByteTarget::L => CpuView { regs: Registers { l: source_value, ..s.regs }, pc: d, ..s },
                LoadByteTarget::HLI => CpuView {
                    bus: bus_write(s.bus, make_word(s.regs.h, s.regs.l), source_value),
                    pc: d,
                    ..s
                },
            }
        },
        LoadType::Word(target) => {
            let w = read_word_at(s.bus, s.pc);
            match target {
                LoadWordTarget::AF => CpuView {
                    regs: Registers { a: word_hi(w), f: byte_to_flags(word_lo(w)), ..s.regs },
                    pc: d,
                    ..s
                },
                LoadWordTarget::BC => CpuView { regs: Registers { b: word_hi(w), c: word_lo(w), ..s.regs }, pc: d, ..s },
                LoadWordTarget::DE => CpuView { regs: Registers { d: word_hi(w), e: word_lo(w), ..s.regs }, pc: d, ..s },
                LoadWordTarget::HL => CpuView { regs: Registers { h: word_hi(w), l: word_lo(w), ..s.regs }, pc: d, ..s },
                LoadWordTarget::SP => CpuView { sp: w, pc: d, ..s },
            }
        },
        LoadType::AFromIndirect(indirect) => match indirect {
            Indirect::BCIndirect => CpuView {
                regs: Registers { a: bus_read(s.bus, make_word(s.regs.b, s.regs.c)), ..s.regs },
                pc: d,
                ..s
            },
            Indirect::DEIndirect => CpuView {
                regs: Registers { a: bus_read(s.bus, make_word(s.regs.d, s.regs.e)), ..s.regs },
                pc: d,
                ..s
            },
            Indirect::HLIndirectMinus => {
                let hl = make_word(s.regs.h, s.regs.l);
                let next_hl = hl.wrapping_sub(1);
                CpuView {
                    regs: Registers {
                        a: bus_read(s.bus, hl),
                        h: word_hi(next_hl),
                        l: word_lo(next_hl),
                        ..s.regs
                    },
                    pc: d,
                    ..s
                }
            },
            Indirect::HLIndirectPlus => {
                let hl = make_word(s.regs.h, s.regs.l);
                let next_hl = hl.wrapping_add(1);
                CpuView {
                    regs: Registers {
                        a: bus_read(s.bus, hl),
                        h: word_hi(next_hl),
                        l: word_lo(next_hl),
                        ..s.regs
                    },
                    pc: d,
                    ..s
                }
            },
            Indirect::WordIndirect => CpuView {
                regs: Registers { a: bus_read(s.bus, read_word_at(s.bus, s.pc)), ..s.regs },
                pc: d,
                ..s
            },
            Indirect::LastByteIndirect => CpuView {
                regs: Registers { a: bus_read(s.bus, (0xFF00 + s.regs.c) as u16), ..s.regs },
                pc: d,
                ..s
            },
        },
        LoadType::IndirectFromA(indirect) => match indirect {
            Indirect::BCIndirect => CpuView {
                bus: bus_write(s.bus, make_word(s.regs.b, s.regs.c), s.regs.a),
                pc: d,
                ..s
            },
            Indirect::DEIndirect => CpuView {
                bus: bus_write(s.bus, make_word(s.regs.d, s.regs.e), s.regs.a),
                pc: d,
                ..s
            },
            Indirect::HLIndirectMinus => {
                let hl = make_word(s.regs.h, s.regs.l);
                let next_hl = hl.wrapping_sub(1);
                CpuView {
                    regs: Registers { h: word_hi(next_hl), l: word_lo(next_hl), ..s.regs },
                    bus: bus_write(s.bus, hl, s.regs.a),
                    pc: d,
                    ..s
                }
            },
            Indirect::HLIndirectPlus => {
                let hl = make_word(s.regs.h, s.regs.l);
                let next_hl = hl.wrapping_add(1);
                CpuView {
                    regs: Registers { h: word_hi(next_hl), l: word_lo(next_hl), ..s.regs },
                    bus: bus_write(s.bus, hl, s.regs.a),
                    pc: d,
                    ..s
                }
            },
            Indirect::WordIndirect => CpuView {
                bus: bus_write(s.bus, read_word_at(s.bus, s.pc), s.regs.a),
                pc: d,
                ..s
            },
            Indirect::LastByteIndirect => CpuView {
                bus: bus_write(s.bus, (0xFF00 + s.regs.c) as u16, s.regs.a),
                pc: d,
                ..s
            },
        },
        LoadType::AFromByteAddress() => {
            let offset = bus_read(s.bus, s.pc.wrapping_add(1));
            CpuView {
                regs: Registers { a: bus_read(s.bus, (0xFF00 + offset) as u16), ..s.regs },
                pc: d,
                ..s
            }
        },
        LoadType::ByteAddressFromA() => {
            let offset = bus_read(s.bus, s.pc.wrapping_add(1));
            CpuView { bus: bus_write(s.bus, (0xFF00 + offset) as u16, s.regs.a), pc: d, ..s }
        },
        LoadType::SPFromHL() => CpuView { sp: make_word(s.regs.h, s.regs.l), pc: d, ..s },
        LoadType::HLFromSPN() => {
            let n = bus_read(s.bus, s.pc.wrapping_add(1));
            let out = spec_sp_plus_n(s.sp, n);
            CpuView {
                regs: Registers {
                    h: word_hi(out.value),
                    l: word_lo(out.value),
                    f: out.flags,
                    ..s.regs
                },
                pc: d,
                ..s
            }
        },
        LoadType::IndirectFromSP() => {
            let addr = read_word_at(s.bus, s.pc);
            let b1 = bus_write(s.bus, addr, word_lo(s.sp));
            let b2 = bus_write(b1, addr.wrapping_add(1), word_hi(s.sp));
            CpuView { bus: b2, pc: d, ..s }
        },
    }
}

/// The mathematical meaning of executing one instruction on a session state.
/// The result's PC is the next program-counter value (the default advance by
/// the instruction's width, or the computed target of a control transfer);
/// the engine applies it unless the instruction halted the core.
pub open spec fn spec_execute(s: CpuView, inst: Instruction) -> CpuView {
    let d = s.pc.wrapping_add(spec_width(inst));
    match inst {
        Instruction::NOP() => with_pc(s, d),
        Instruction::HALT() => CpuView { pc: d, halted: true, ..s },
        Instruction::CALL(test) => if spec_condition(s.regs.f, test) {
            let pushed = spec_push16(s, s.pc.wrapping_add(3));
            with_pc(pushed, read_word_at(pushed.bus, s.pc))
        } else {
            with_pc(s, d)
        },
        Instruction::RET(test) => if spec_condition(s.regs.f, test) {
            with_pc(spec_pop16(s), spec_pop_value(s))
        } else {
            with_pc(s, s.pc.wrapping_add(1))
        },
        Instruction::RETI() => with_pc(spec_pop16(s), spec_pop_value(s)),
        Instruction::RST(location) => with_pc(
            spec_push16(s, s.pc.wrapping_add(1)),
            rst_address(location),
        ),
        Instruction::PUSH(target) => with_pc(spec_push16(s, get_stack_pair(s.regs, target)), d),
        Instruction::POP(target) => CpuView {
            regs: set_stack_pair(s.regs, target, spec_pop_value(s)),
            sp: s.sp.wrapping_add(2),
            pc: d,
            ..s
        },
        Instruction::LD(load_type) => spec_execute_load(s, load_type),
        Instruction::ADD(target) => acc_op(s, spec_add(s.regs.a, get_reg8(s.regs, target)), d),
        Instruction::ADD16(target) => acc_op(
            s,
            spec_add(s.regs.a, bus_read(s.bus, get_pair16(s.regs, target))),
            d,
        ),
        Instruction::ADDD8() => acc_op(
            s,
            spec_add(s.regs.a, bus_read(s.bus, s.pc.wrapping_add(1))),
            d,
        ),
        Instruction::ADDHL(target) => {
            let out = spec_addhl(make_word(s.regs.h, s.regs.l), addhl_operand(s, target));
            CpuView {
                regs: Registers {
                    h: word_hi(out.value),
                    l: word_lo(out.value),
                    f: out.flags,
                    ..s.regs
                },
                pc: d,
                ..s
            }
        },
        Instruction::SUB(target) => acc_op(s, spec_sub(s.regs.a, get_reg8(s.regs, target)), d),
        Instruction::SBC(target) => acc_op(
            s,
            spec_sbc(s.regs.a, get_reg8(s.regs, target), s.regs.f.carry),
            d,
        ),
        Instruction::AND(target) => acc_op(s, spec_and(s.regs.a, get_reg8(s.regs, target)), d),
        Instruction::OR(target) => acc_op(s, spec_or(s.regs.a, get_reg8(s.regs, target)), d),
        Instruction::XOR(target) => acc_op(s, spec_xor(s.regs.a, get_reg8(s.regs, target)), d),
        Instruction::XOR16(target) => acc_op(
            s,
            spec_xor(s.regs.a, bus_read(s.bus, get_pair16(s.regs, target))),
            d,
        ),
        Instruction::XORD8() => acc_op(
            s,
            spec_xor(s.regs.a, bus_read(s.bus, s.pc.wrapping_add(1))),
            d,
        ),
        Instruction::CP(target) => flags_op(
            s,
            spec_sub(s.regs.a, get_reg8(s.regs, target)).flags,
            d,
        ),
        Instruction::CP16(target) => flags_op(
            s,
            spec_sub(s.regs.a, bus_read(s.bus, get_pair16(s.regs, target))).flags,
            d,
        ),
        Instruction::CPD8() => flags_op(
            s,
            spec_sub(s.regs.a, bus_read(s.bus, s.pc.wrapping_add(1))).flags,
            d,
        ),
        Instruction::INC(target) => reg_op(s, target, spec_inc(get_reg8(s.regs, target), s.regs.f), d),
        Instruction::INC16(target) => match target {
            IncDec16Target::BC => CpuView {
                regs: set_pair16(
                    s.regs,
                    ArithmeticTarget16::BC,
                    make_word(s.regs.b, s.regs.c).wrapping_add(1),
                ),
                pc: d,
                ..s
            },
            IncDec16Target::DE => CpuView {
                regs: set_pair16(
                    s.regs,
                    ArithmeticTarget16::DE,
                    make_word(s.regs.d, s.regs.e).wrapping_add(1),
                ),
                pc: d,
                ..s
            },
            IncDec16Target::HL => CpuView {
                regs: set_pair16(
                    s.regs,
                    ArithmeticTarget16::HL,
                    make_word(s.regs.h, s.regs.l).wrapping_add(1),
                ),
                pc: d,
                ..s
            },
            IncDec16Target::SP => CpuView { sp: s.sp.wrapping_add(1), pc: d, ..s },
            IncDec16Target::HLI => {
                let hl = make_word(s.regs.h, s.regs.l);
                let out = spec_inc(bus_read(s.bus, hl), s.regs.f);
                CpuView {
                    bus: bus_write(s.bus, hl, out.value),
                    regs: with_flags(s.regs, out.flags),
                    pc: d,
                    ..s
                }
            },
        },
        Instruction::DEC(target) => reg_op(s, target, spec_dec(get_reg8(s.regs, target), s.regs.f), d),
        Instruction::DEC16(target) => match target {
            IncDec16Target::BC => CpuView {
                regs: set_pair16(
                    s.regs,
                    ArithmeticTarget16::BC,
                    make_word(s.regs.b, s.regs.c).wrapping_sub(1),
                ),
                pc: d,
                ..s
            },
            IncDec16Target::DE => CpuView {
                regs: set_pair16(
                    s.regs,
                    ArithmeticTarget16::DE,
                    make_word(s.regs.d, s.regs.e).wrapping_sub(1),
                ),
                pc: d,
                ..s
            },
            IncDec16Target::HL => CpuView {
                regs: set_pair16(
                    s.regs,
                    ArithmeticTarget16::HL,
                    make_word(s.regs.h, s.regs.l).wrapping_sub(1),
                ),
                pc: d,
                ..s
            },
            IncDec16Target::SP => CpuView { sp: s.sp.wrapping_sub(1), pc: d, ..s },
            IncDec16Target::HLI => {
                let hl = make_word(s.regs.h, s.regs.l);
                let out = spec_dec(bus_read(s.bus, hl), s.regs.f);
                CpuView {
                    bus: bus_write(s.bus, hl, out.value),
                    regs: with_flags(s.regs, out.flags),
                    pc: d,
                    ..s
                }
            },
        },
        Instruction::CCF() => flags_op(
            s,
            Flags {
                zero: s.regs.f.zero,
                subtract: false,
                half_carry: false,
                carry: !s.regs.f.carry,
            },
            d,
        ),
        Instruction::SCF() => flags_op(
            s,
            Flags { zero: s.regs.f.zero, subtract: false, half_carry: false, carry: true },
            d,
        ),
        Instruction::RRA() => acc_op(s, spec_rr(s.regs.a, s.regs.f.carry), d),
        Instruction::RR(target) => reg_op(
            s,
            target,
            spec_rr(get_reg8(s.regs, target), s.regs.f.carry),
            d,
        ),
        Instruction::RLA() => acc_op(s, spec_rl(s.regs.a, s.regs.f.carry), d),
        Instruction::RL(target) => reg_op(
            s,
            target,
            spec_rl(get_reg8(s.regs, target), s.regs.f.carry),
            d,
        ),
        Instruction::RRCA() => acc_op(s, spec_rrc(s.regs.a), d),
        Instruction::RRC(target) => reg_op(s, target, spec_rrc(get_reg8(s.regs, target)), d),
        Instruction::RLCA() => acc_op(s, spec_rlc(s.regs.a), d),
        Instruction::RLC(target) => reg_op(s, target, spec_rlc(get_reg8(s.regs, target)), d),
        Instruction::CPL() => CpuView {
            regs: Registers {
                a: !s.regs.a,
                f: Flags {
                    zero: s.regs.f.zero,
                    subtract: true,
                    half_carry: true,
                    carry: s.regs.f.carry,
                },
                ..s.regs
            },
            pc: d,
            ..s
        },
        Instruction::BIT(n, target) => flags_op(
            s,
            Flags {
                zero: !spec_bit_test(get_reg8(s.regs, target), n),
                subtract: false,
                half_carry: false,
                carry: s.regs.f.carry,
            },
            d,
        ),
        Instruction::BIT16(n) => flags_op(
            s,
            Flags {
                zero: !spec_bit_test(bus_read(s.bus, make_word(s.regs.h, s.regs.l)), n),
                subtract: false,
                half_carry: false,
                carry: s.regs.f.carry,
            },
            d,
        ),
        Instruction::RES(n, target) => CpuView {
            regs: set_reg8(s.regs, target, spec_reset_bit(get_reg8(s.regs, target), n)),
            pc: d,
            ..s
        },
        Instruction::RES16(n) => {
            let hl = make_word(s.regs.h, s.regs.l);
            CpuView {
                bus: bus_write(s.bus, hl, spec_reset_bit(bus_read(s.bus, hl), n)),
                pc: d,
                ..s
            }
        },
        Instruction::SET(n, target) => CpuView {
            regs: set_reg8(s.regs, target, spec_set_bit(get_reg8(s.regs, target), n)),
            pc: d,
            ..s
        },
        Instruction::SET16(n) => {
            let hl = make_word(s.regs.h, s.regs.l);
            CpuView {
                bus: bus_write(s.bus, hl, spec_set_bit(bus_read(s.bus, hl), n)),
                pc: d,
                ..s
            }
        },
        Instruction::SRL(target) => reg_op(s, target, spec_srl(get_reg8(s.regs, target)), d),
        Instruction::SRA(target) => reg_op(s, target, spec_sra(get_reg8(s.regs, target)), d),
        Instruction::SLA(target) => reg_op(s, target, spec_sla(get_reg8(s.regs, target)), d),
        Instruction::SWAP(target) => reg_op(s, target, spec_swap(get_reg8(s.regs, target)), d),
        Instruction::SWAP16(target) => {
            let addr = get_pair16(s.regs, target);
            let out = spec_swap(bus_read(s.bus, addr));
            CpuView {
                bus: bus_write(s.bus, addr, out.value),
                regs: with_flags(s.regs, out.flags),
                pc: d,
                ..s
            }
        },
        Instruction::JP(test) => if spec_condition(s.regs.f, test) {
            with_pc(s, read_word_at(s.bus, s.pc))
        } else {
            with_pc(s, s.pc.wrapping_add(3))
        },
        Instruction::JR(test) => if spec_condition(s.regs.f, test) {
            with_pc(s, jr_target(s.pc, bus_read(s.bus, s.pc.wrapping_add(1))))
        } else {
            with_pc(s, s.pc.wrapping_add(2))
        },
    }
}

/// The mathematical meaning of one engine step. A halted core only consults
/// the interrupt-pending signal: when it is set the halt flag clears,
/// otherwise nothing changes; in neither case does anything else move.
/// Otherwise the byte at PC is fetched; the reserved prefix byte makes the
/// engine fetch the next byte and decode it against the extended table,
/// advancing past the prefix first. An instruction executes via
/// [`spec_execute`] and its next PC is applied (unless it halted the core,
/// when PC stays on the instruction). A byte without a table entry yields
/// the fatal stop carrying its address, the byte, and the table used, and
/// changes nothing.
pub open spec fn spec_step(s: CpuView) -> Result<CpuView, FatalStop> {
    if s.halted {
        Ok(CpuView { halted: !s.interrupt_pending, ..s })
    } else {
        let first = bus_read(s.bus, s.pc);
        let prefixed = first == PREFIX_BYTE;
        let opcode = if prefixed {
            bus_read(s.bus, s.pc.wrapping_add(1))
        } else {
            first
        };
        match spec_decode(opcode, prefixed) {
            Some(inst) => {
                let s1 = if prefixed {
                    CpuView { pc: s.pc.wrapping_add(1), ..s }
                } else {
                    s
                };
                let t = spec_execute(s1, inst);
                Ok(
                    if t.halted {
                        CpuView { pc: s1.pc, ..t }
                    } else {
                        t
                    },
                )
            },
            None => Err(
                FatalStop {
                    address: if prefixed {
                        s.pc.wrapping_add(1)
                    } else {
                        s.pc
                    },
                    byte: opcode,
                    prefixed,
                },
            ),
        }
    }
}


/// The arithmetic and logic family: add, add-with-operand-from-memory or
/// immediate, 16-bit add into HL, subtract (with and without carry-in),
/// and, or, xor and compare in all their operand shapes.
pub open spec fn is_arithmetic(inst: Instruction) -> bool {
    match inst {
        Instruction::ADD(_) | Instruction::ADD16(_) | Instruction::ADDD8()
        | Instruction::ADDHL(_) | Instruction::SUB(_) | Instruction::SBC(_)
        | Instruction::AND(_) | Instruction::OR(_) | Instruction::XOR(_)
        | Instruction::XOR16(_) | Instruction::XORD8() | Instruction::CP(_)
        | Instruction::CP16(_) | Instruction::CPD8() => true,
        _ => false,
    }
}

/// The increment/decrement family, 8-bit and 16-bit.
pub open spec fn is_inc_dec(inst: Instruction) -> bool {
    match inst {
        Instruction::INC(_) | Instruction::INC16(_) | Instruction::DEC(_)
        | Instruction::DEC16(_) => true,
        _ => false,
    }
}

/// The rotate family: left and right, with and without carry-in folding.
pub open spec fn is_rotate(inst: Instruction) -> bool {
    match inst {
        Instruction::RRA() | Instruction::RR(_) | Instruction::RLA() | Instruction::RL(_)
        | Instruction::RRCA() | Instruction::RRC(_) | Instruction::RLCA()
        | Instruction::RLC(_) => true,
        _ => false,
    }
}

/// The shift and nibble-swap family.
pub open spec fn is_shift_swap(inst: Instruction) -> bool {
    match inst {
        Instruction::SRL(_) | Instruction::SRA(_) | Instruction::SLA(_)
        | Instruction::SWAP(_) | Instruction::SWAP16(_) => true,
        _ => false,
    }
}

/// The bit-test, bit-set and bit-clear family.
pub open spec fn is_bit_op(inst: Instruction) -> bool {
    match inst {
        Instruction::BIT(_, _) | Instruction::BIT16(_) | Instruction::RES(_, _)
        | Instruction::RES16(_) | Instruction::SET(_, _) | Instruction::SET16(_) => true,
        _ => false,
    }
}

impl CPU {
    /// Execute a load instruction; returns the next PC.
    pub fn execute_load(&mut self, load_type: LoadType) -> (next_pc: u16)
        requires
            old(self).wf(),
        ensures
            final(self).wf(),
            next_pc == spec_execute_load(old(self)@, load_type).pc,
            final(self)@ == with_pc(spec_execute_load(old(self)@, load_type), old(self)@.pc),
    {
        let ghost target_state = spec_execute_load(old(self)@, load_type);
        let mut pc_increment: u16 = 1;
        match load_type {
            LoadType::Byte(target, source) => {
                let source_value: u8 = match source {
                    LoadByteSource::A => self.registers.a,
                    LoadByteSource::B => self.registers.b,
                    LoadByteSource::C => self.registers.c,
                    LoadByteSource::D => self.registers.d,
                    LoadByteSource::E => self.registers.e,
                    LoadByteSource::H => self.registers.h,
                    LoadByteSource::L => self.registers.l,
                    LoadByteSource::D8 => self.read_next_byte(),
                    LoadByteSource::HLI => self.bus.read_byte(self.registers.get_hl()),
                };
                match target {
                    LoadByteTarget::A => self.registers.a = source_value,
                    LoadByteTarget::B => self.registers.b = source_value,
                    LoadByteTarget::C => self.registers.c = source_value,
                    LoadByteTarget::D => self.registers.d = source_value,
                    LoadByteTarget::E => self.registers.e = source_value,
                    LoadByteTarget::H => self.registers.h = source_value,
                    LoadByteTarget::L => self.registers.l = source_value,
                    LoadByteTarget::HLI => {
                        let address: u16 = self.registers.get_hl();
                        self.bus.write_byte(address, source_value);
                    },
                }
                match source {
                    LoadByteSource::D8 => pc_increment = 2,
                    _ => pc_increment = 1,
                }
            },
            LoadType::Word(target) => {
                let word: u16 = self.read_next_word();
                match target {
                    LoadWordTarget::AF => self.registers.set_af(word),
                    LoadWordTarget::BC => self.registers.set_bc(word),
                    LoadWordTarget::DE => self.registers.set_de(word),
                    LoadWordTarget::HL => self.registers.set_hl(word),
                    LoadWordTarget::SP => self.sp = word,
                }
                pc_increment = 3;
            },
            LoadType::AFromIndirect(indirect) => {
                match indirect {
                    Indirect::BCIndirect => {
                        let address: u16 = self.registers.get_bc();
                        self.registers.a = self.bus.read_byte(address);
                    },
                    Indirect::DEIndirect => {
                        let address: u16 = self.registers.get_de();
                        self.registers.a = self.bus.read_byte(address);
                    },
                    Indirect::HLIndirectMinus => {
                        let hl: u16 = self.registers.get_hl();
                        let value: u8 = self.bus.read_byte(hl);
                        self.registers.set_hl(hl.wrapping_sub(1));
                        self.registers.a = value;
                    },
                    Indirect::HLIndirectPlus => {
                        let hl: u16 = self.registers.get_hl();
                        let value: u8 = self.bus.read_byte(hl);
                        self.registers.set_hl(hl.wrapping_add(1));
                        self.registers.a = value;
                    },
                    Indirect::WordIndirect => {
                        let word: u16 = self.read_next_word();
                        self.registers.a = self.bus.read_byte(word);
                        pc_increment = 3;
                    },
                    Indirect::LastByteIndirect => {
                        let address: u16 = 0xFF00 + self.registers.c as u16;
                        self.registers.a = self.bus.read_byte(address);
                    },
                }
            },
            LoadType::IndirectFromA(indirect) => {
                match indirect {
                    Indirect::BCIndirect => {
                        let address: u16 = self.registers.get_bc();
                        self.bus.write_byte(address, self.registers.a);
                    },
                    Indirect::DEIndirect => {
                        let address: u16 = self.registers.get_de();
                        self.bus.write_byte(address, self.registers.a);
                    },
                    Indirect::HLIndirectMinus => {
                        let hl: u16 = self.registers.get_hl();
                        self.bus.write_byte(hl, self.registers.a);
                        self.registers.set_hl(hl.wrapping_sub(1));
                    },
                    Indirect::HLIndirectPlus => {
                        let hl: u16 = self.registers.get_hl();
                        self.bus.write_byte(hl, self.registers.a);
                        self.registers.set_hl(hl.wrapping_add(1));
                    },
                    Indirect::WordIndirect => {
                        let word: u16 = self.read_next_word();
                        self.bus.write_byte(word, self.registers.a);
                        pc_increment = 3;
                    },
                    Indirect::LastByteIndirect => {
                        let address: u16 = 0xFF00 + self.registers.c as u16;
                        self.bus.write_byte(address, self.registers.a);
                    },
                }
            },
            LoadType::AFromByteAddress() => {
                let offset: u16 = self.read_next_byte() as u16;
                self.registers.a = self.bus.read_byte(0xFF00 + offset);
                pc_increment = 2;
            },
            LoadType::ByteAddressFromA() => {
                let offset: u16 = self.read_next_byte() as u16;
                self.bus.write_byte(0xFF00 + offset, self.registers.a);
                pc_increment = 2;
            },
            LoadType::SPFromHL() => {
                self.sp = self.registers.get_hl();
            },
            LoadType::HLFromSPN() => {
                let n: u8 = self.read_next_byte();
                let sp: u16 = self.sp;
                let value: u16 = if n < 128 {
                    sp.wrapping_add(n as u16)
                } else {
                    sp.wrapping_sub(256 - n as u16)
                };
                proof {
                    lemma_nibble_bound(n);
                    lemma_u16_low_bits(sp);
                }
                self.registers.set_hl(value);
                self.registers.f = Flags {
                    zero: false,
                    subtract: false,
                    half_carry: (sp & 0xF) + ((n & 0xF) as u16) > 0xF,
                    carry: (sp & 0xFF) + (n as u16) > 0xFF,
                };
                pc_increment = 2;
            },
            LoadType::IndirectFromSP() => {
                let word: u16 = self.read_next_word();
                let sp: u16 = self.sp;
                self.bus.write_byte(word, (sp % 256) as u8);
                self.bus.write_byte(word.wrapping_add(1), (sp / 256) as u8);
                pc_increment = 3;
            },
        }
        proof {
            assert(self@ =~= with_pc(target_state, old(self)@.pc));
        }
        self.pc.wrapping_add(pc_increment)
    }


    /// Execute an arithmetic or logic instruction; returns the next PC.
    #[verifier::rlimit(100)]
    #[verifier::spinoff_prover]
    fn execute_arithmetic(&mut self, instruction: Instruction) -> (next_pc: u16)
        requires
            old(self).wf(),
            inst_wf(instruction),
            is_arithmetic(instruction),
        ensures
            final(self).wf(),
            next_pc == spec_execute(old(self)@, instruction).pc,
            final(self)@ == with_pc(spec_execute(old(self)@, instruction), old(self)@.pc),
    {
        let ghost target_state = spec_execute(old(self)@, instruction);
        let mut pc_increment: u16 = 1;
        match instruction {
            Instruction::ADD(target) => {
                let value: u8 = self.get_arithmetic_target_value(target);
                let result: u8 = self.add(value);
                self.registers.a = result;
            },
            Instruction::ADD16(target) => {
                let address: u16 = self.get_arithmetic_target_value16(target);
                let value: u8 = self.bus.read_byte(address);
                let result: u8 = self.add(value);
                self.registers.a = result;
            },
            Instruction::ADDD8() => {
                let value: u8 = self.read_next_byte();
                let result: u8 = self.add(value);
                self.registers.a = result;
                pc_increment = 2;
            },
            Instruction::ADDHL(target) => {
                let value: u16 = match target {
                    ADDHLTarget::BC => self.registers.get_bc(),
                    ADDHLTarget::DE => self.registers.get_de(),
                    ADDHLTarget::HL => self.registers.get_hl(),
                    ADDHLTarget::SP => self.sp,
                };
                let result: u16 = self.addhl(value);
                self.registers.set_hl(result);
            },
            Instruction::SUB(target) => {
                let value: u8 = self.get_arithmetic_target_value(target);
                let result: u8 = self.sub(value);
                self.registers.a = result;
            },
            Instruction::SBC(target) => {
                let value: u8 = self.get_arithmetic_target_value(target);
                let result: u8 = self.sbc(value);
                self.registers.a = result;
            },
            Instruction::AND(target) => {
                let value: u8 = self.get_arithmetic_target_value(target);
                let result: u8 = self.and(value);
                self.registers.a = result;
            },
            Instruction::OR(target) => {
                let value: u8 = self.get_arithmetic_target_value(target);
                let result: u8 = self.or(value);
                self.registers.a = result;
            },
            Instruction::XOR(target) => {
                let value: u8 = self.get_arithmetic_target_value(target);
                let result: u8 = self.xor(value);
                self.registers.a = result;
            },
            Instruction::XOR16(target) => {
                let address: u16 = self.get_arithmetic_target_value16(target);
                let value: u8 = self.bus.read_byte(address);
                let result: u8 = self.xor(value);
                self.registers.a = result;
            },
            Instruction::XORD8() => {
                let value: u8 = self.read_next_byte();
                let result: u8 = self.xor(value);
                self.registers.a = result;
                pc_increment = 2;
            },
            Instruction::CP(target) => {
                let value: u8 = self.get_arithmetic_target_value(target);
                let _ = self.sub(value);
            },
            Instruction::CP16(target) => {
                let address: u16 = self.get_arithmetic_target_value16(target);
                let value: u8 = self.bus.read_byte(address);
                let _ = self.sub(value);
            },
            Instruction::CPD8() => {
                let value: u8 = self.read_next_byte();
                let _ = self.sub(value);
                pc_increment = 2;
            },
            _ => {
                proof {
                    assert(false);
                }
            },
        }
        proof {
            assert(self@ =~= with_pc(target_state, old(self)@.pc));
        }
        self.pc.wrapping_add(pc_increment)
    }

    /// Execute an increment or decrement instruction; returns the next PC.
    #[verifier::spinoff_prover]
    fn execute_inc_dec(&mut self, instruction: Instruction) -> (next_pc: u16)
        requires
            old(self).wf(),
            inst_wf(instruction),
            is_inc_dec(instruction),
        ensures
            final(self).wf(),
            next_pc == spec_execute(old(self)@, instruction).pc,
            final(self)@ == with_pc(spec_execute(old(self)@, instruction), old(self)@.pc),
    {
        let ghost target_state = spec_execute(old(self)@, instruction);
        let pc_increment: u16 = 1;
        match instruction {
            Instruction::INC(target) => {
                let initial: u8 = self.get_arithmetic_target_value(target);
                let result: u8 = initial.wrapping_add(1);
                proof {
                    lemma_nibble_bound(initial);
                }
                self.set_arithmetic_target_value(target, result);
                self.registers.f = Flags {
                    zero: result == 0,
                    subtract: false,
                    half_carry: (initial & 0xF) + 1 > 0xF,
                    carry: self.registers.f.carry,
                };
            },
            Instruction::INC16(target) => {
                match target {
                    IncDec16Target::BC => {
                        let value: u16 = self.registers.get_bc();
                        self.registers.set_bc(value.wrapping_add(1));
                    },
                    IncDec16Target::DE => {
                        let value: u16 = self.registers.get_de();
                        self.registers.set_de(value.wrapping_add(1));
                    },
                    IncDec16Target::HL => {
                        let value: u16 = self.registers.get_hl();
                        self.registers.set_hl(value.wrapping_add(1));
                    },
                    IncDec16Target::SP => {
                        self.sp = self.sp.wrapping_add(1);
                    },
                    IncDec16Target::HLI => {
                        let hl: u16 = self.registers.get_hl();
                        let initial: u8 = self.bus.read_byte(hl);
                        let result: u8 = initial.wrapping_add(1);
                        proof {
                            lemma_nibble_bound(initial);
                        }
                        self.bus.write_byte(hl, result);
                        self.registers.f = Flags {
                            zero: result == 0,
                            subtract: false,
                            half_carry: (initial & 0xF) + 1 > 0xF,
                            carry: self.registers.f.carry,
                        };
                    },
                }
            },
            Instruction::DEC(target) => {
                let initial: u8 = self.get_arithmetic_target_value(target);
                let result: u8 = initial.wrapping_sub(1);
                self.set_arithmetic_target_value(target, result);
                self.registers.f = Flags {
                    zero: result == 0,
                    subtract: true,
                    half_carry: (initial & 0xF) == 0,
                    carry: self.registers.f.carry,
                };
            },
            Instruction::DEC16(target) => {
                match target {
                    IncDec16Target::BC => {
                        let value: u16 = self.registers.get_bc();
                        self.registers.set_bc(value.wrapping_sub(1));
                    },
                    IncDec16Target::DE => {
                        let value: u16 = self.registers.get_de();
                        self.registers.set_de(value.wrapping_sub(1));
                    },
                    IncDec16Target::HL => {
                        let value: u16 = self.registers.get_hl();
                        self.registers.set_hl(value.wrapping_sub(1));
                    },
                    IncDec16Target::SP => {
                        self.sp = self.sp.wrapping_sub(1);
                    },
                    IncDec16Target::HLI => {
                        let hl: u16 = self.registers.get_hl();
                        let initial: u8 = self.bus.read_byte(hl);
                        let result: u8 = initial.wrapping_sub(1);
                        self.bus.write_byte(hl, result);
                        self.registers.f = Flags {
                            zero: result == 0,
                            subtract: true,
                            half_carry: (initial & 0xF) == 0,
                            carry: self.registers.f.carry,
                        };
                    },
                }
            },
            _ => {
                proof {
                    assert(false);
                }
            },
        }
        proof {
            assert(self@ =~= with_pc(target_state, old(self)@.pc));
        }
        self.pc.wrapping_add(pc_increment)
    }

    /// Execute a rotate instruction; returns the next PC.
    #[verifier::rlimit(100)]
    #[verifier::spinoff_prover]
    fn execute_rotate(&mut self, instruction: Instruction) -> (next_pc: u16)
        requires
            old(self).wf(),
            inst_wf(instruction),
            is_rotate(instruction),
        ensures
            final(self).wf(),
            next_pc == spec_execute(old(self)@, instruction).pc,
            final(self)@ == with_pc(spec_execute(old(self)@, instruction), old(self)@.pc),
    {
        let ghost target_state = spec_execute(old(self)@, instruction);
        let pc_increment: u16 = 1;
        match instruction {
            Instruction::RRA() => {
                let initial: u8 = self.registers.a;
                let msb: u8 = if self.registers.f.carry {
                    0x80
                } else {
                    0
                };
                let result: u8 = (initial >> 1) | msb;
                self.registers.a = result;
                self.registers.f = Flags {
                    zero: result == 0,
                    subtract: false,
                    half_carry: false,
                    carry: initial & 1 == 1,
                };
            },
            Instruction::RR(target) => {
                let initial: u8 = self.get_arithmetic_target_value(target);
                let msb: u8 = if self.registers.f.carry {
                    0x80
                } else {
                    0
                };
                let result: u8 = (initial >> 1) | msb;
                self.set_arithmetic_target_value(target, result);
                self.registers.f = Flags {
                    zero: result == 0,
                    subtract: false,
                    half_carry: false,
                    carry: initial & 1 == 1,
                };
            },
            Instruction::RLA() => {
                let initial: u8 = self.registers.a;
                let lsb: u8 = if self.registers.f.carry {
                    1
                } else {
                    0
                };
                let result: u8 = (initial << 1) | lsb;
                self.registers.a = result;
                self.registers.f = Flags {
                    zero: result == 0,
                    subtract: false,
                    half_carry: false,
                    carry: initial & 0x80 != 0,
                };
            },
            Instruction::RL(target) => {
                let initial: u8 = self.get_arithmetic_target_value(target);
                let lsb: u8 = if self.registers.f.carry {
                    1
                } else {
                    0
                };
                let result: u8 = (initial << 1) | lsb;
                self.set_arithmetic_target_value(target, result);
                self.registers.f = Flags {
                    zero: result == 0,
                    subtract: false,
                    half_carry: false,
                    carry: initial & 0x80 != 0,
                };
            },
            Instruction::RRCA() => {
                let initial: u8 = self.registers.a;
                let lsb: u8 = initial & 1;
                let result: u8 = (initial >> 1) | (lsb << 7);
                self.registers.a = result;
                self.registers.f = Flags {
                    zero: result == 0,
                    subtract: false,
                    half_carry: false,
                    carry: lsb == 1,
                };
            },
            Instruction::RRC(target) => {
                let initial: u8 = self.get_arithmetic_target_value(target);
                let lsb: u8 = initial & 1;
                let result: u8 = (initial >> 1) | (lsb << 7);
                self.set_arithmetic_target_value(target, result);
                self.registers.f = Flags {
                    zero: result == 0,
                    subtract: false,
                    half_carry: false,
                    carry: lsb == 1,
                };
            },
            Instruction::RLCA() => {
                let initial: u8 = self.registers.a;
                let msb: u8 = (initial & 0x80) >> 7;
                let result: u8 = (initial << 1) | msb;
                self.registers.a = result;
                self.registers.f = Flags {
                    zero: result == 0,
                    subtract: false,
                    half_carry: false,
                    carry: msb == 1,
                };
            },
            Instruction::RLC(target) => {
                let initial: u8 = self.get_arithmetic_target_value(target);
                let msb: u8 = (initial & 0x80) >> 7;
                let result: u8 = (initial << 1) | msb;
                self.set_arithmetic_target_value(target, result);
                self.registers.f = Flags {
                    zero: result == 0,
                    subtract: false,
                    half_carry: false,
                    carry: msb == 1,
                };
            },
            _ => {
                proof {
                    assert(false);
                }
            },
        }
        proof {
            assert(self@ =~= with_pc(target_state, old(self)@.pc));
        }
        self.pc.wrapping_add(pc_increment)
    }

    /// Execute a shift or nibble-swap instruction; returns the next PC.
    #[verifier::rlimit(100)]
    #[verifier::spinoff_prover]
    fn execute_shift_swap(&mut self, instruction: Instruction) -> (next_pc: u16)
        requires
            old(self).wf(),
            inst_wf(instruction),
            is_shift_swap(instruction),
        ensures
            final(self).wf(),
            next_pc == spec_execute(old(self)@, instruction).pc,
            final(self)@ == with_pc(spec_execute(old(self)@, instruction), old(self)@.pc),
    {
        let ghost target_state = spec_execute(old(self)@, instruction);
        let pc_increment: u16 = 1;
        match instruction {
            Instruction::SRL(target) => {
                let initial: u8 = self.get_arithmetic_target_value(target);
                let result: u8 = initial >> 1;
                self.set_arithmetic_target_value(target, result);
                self.registers.f = Flags {
                    zero: result == 0,
                    subtract: false,
                    half_carry: false,
                    carry: initial & 1 == 1,
                };
            },
            Instruction::SRA(target) => {
                let initial: u8 = self.get_arithmetic_target_value(target);
                let result: u8 = (initial >> 1) | (initial & 0x80);
                self.set_arithmetic_target_value(target, result);
                self.registers.f = Flags {
                    zero: result == 0,
                    subtract: false,
                    half_carry: false,
                    carry: initial & 1 == 1,
                };
            },
            Instruction::SLA(target) => {
                let initial: u8 = self.get_arithmetic_target_value(target);
                let result: u8 = initial << 1;
                self.set_arithmetic_target_value(target, result);
                self.registers.f = Flags {
                    zero: result == 0,
                    subtract: false,
                    half_carry: false,
                    carry: initial & 0x80 != 0,
                };
            },
            Instruction::SWAP(target) => {
                let initial: u8 = self.get_arithmetic_target_value(target);
                let result: u8 = (initial << 4) | (initial >> 4);
                self.set_arithmetic_target_value(target, result);
                self.registers.f = Flags {
                    zero: result == 0,
                    subtract: false,
                    half_carry: false,
                    carry: false,
                };
            },
            Instruction::SWAP16(target) => {
                let address: u16 = self.get_arithmetic_target_value16(target);
                let initial: u8 = self.bus.read_byte(address);
                let result: u8 = (initial << 4) | (initial >> 4);
                self.bus.write_byte(address, result);
                self.registers.f = Flags {
                    zero: result == 0,
                    subtract: false,
                    half_carry: false,
                    carry: false,
                };
            },
            _ => {
                proof {
                    assert(false);
                }
            },
        }
        proof {
            assert(self@ =~= with_pc(target_state, old(self)@.pc));
        }
        self.pc.wrapping_add(pc_increment)
    }

    /// Execute a bit test, set or clear instruction; returns the next PC.
    #[verifier::spinoff_prover]
    fn execute_bit_op(&mut self, instruction: Instruction) -> (next_pc: u16)
        requires
            old(self).wf(),
            inst_wf(instruction),
            is_bit_op(instruction),
        ensures
            final(self).wf(),
            next_pc == spec_execute(old(self)@, instruction).pc,
            final(self)@ == with_pc(spec_execute(old(self)@, instruction), old(self)@.pc),
    {
        let ghost target_state = spec_execute(old(self)@, instruction);
        let pc_increment: u16 = 1;
        match instruction {
            Instruction::BIT(bit_to_check, target) => {
                let value: u8 = self.get_arithmetic_target_value(target);
                let bit_set: bool = value & (1u8 << bit_to_check) != 0;
                self.registers.f = Flags {
                    zero: !bit_set,
                    subtract: false,
                    half_carry: false,
                    carry: self.registers.f.carry,
                };
            },
            Instruction::BIT16(bit_to_check) => {
                let address: u16 = self.registers.get_hl();
                let value: u8 = self.bus.read_byte(address);
                let bit_set: bool = value & (1u8 << bit_to_check) != 0;
                self.registers.f = Flags {
                    zero: !bit_set,
                    subtract: false,
                    half_carry: false,
                    carry: self.registers.f.carry,
                };
            },
            Instruction::RES(bit_to_clear, target) => {
                let initial: u8 = self.get_arithmetic_target_value(target);
                let result: u8 = reset_bit(initial, bit_to_clear);
                self.set_arithmetic_target_value(target, result);
            },
            Instruction::RES16(bit_to_clear) => {
                let address: u16 = self.registers.get_hl();
                let initial: u8 = self.bus.read_byte(address);
                let result: u8 = reset_bit(initial, bit_to_clear);
                self.bus.write_byte(address, result);
            },
            Instruction::SET(bit_to_set, target) => {
                let initial: u8 = self.get_arithmetic_target_value(target);
                let result: u8 = set_bit(initial, bit_to_set);
                self.set_arithmetic_target_value(target, result);
            },
            Instruction::SET16(bit_to_set) => {
                let address: u16 = self.registers.get_hl();
                let initial: u8 = self.bus.read_byte(address);
                let result: u8 = set_bit(initial, bit_to_set);
                self.bus.write_byte(address, result);
            },
            _ => {
                proof {
                    assert(false);
                }
            },
        }
        proof {
            assert(self@ =~= with_pc(target_state, old(self)@.pc));
        }
        self.pc.wrapping_add(pc_increment)
    }

    /// Execute one decoded instruction against the registers, flags and bus;
    /// returns the next PC (the engine applies it unless the core halted).
    /// Exactly [`spec_execute`].
    #[verifier::rlimit(100)]
    #[verifier::spinoff_prover]
    pub fn execute(&mut self, instruction: Instruction) -> (next_pc: u16)
        requires
            old(self).wf(),
            inst_wf(instruction),
        ensures
            final(self).wf(),
            next_pc == spec_execute(old(self)@, instruction).pc,
            final(self)@ == with_pc(spec_execute(old(self)@, instruction), old(self)@.pc),
    {
        let ghost target_state = spec_execute(old(self)@, instruction);
        let mut pc_increment: u16 = 1;
        match instruction {
            Instruction::NOP() => {},
            Instruction::HALT() => {
                self.is_halted = true;
            },
            Instruction::CALL(test) => {
                let jump_condition: bool = self.condition_met(test);
                let next: u16 = self.call(jump_condition);
                proof {
                    assert(self@ =~= with_pc(target_state, old(self)@.pc));
                }
                return next;
            },
            Instruction::RET(test) => {
                let jump_condition: bool = self.condition_met(test);
                let next: u16 = self.return_(jump_condition);
                proof {
                    assert(self@ =~= with_pc(target_state, old(self)@.pc));
                }
                return next;
            },
            Instruction::RETI() => {
                let next: u16 = self.return_(true);
                proof {
                    assert(self@ =~= with_pc(target_state, old(self)@.pc));
                }
                return next;
            },
            Instruction::RST(location) => {
                let target: u16 = location.to_hex();
                let return_address: u16 = self.pc.wrapping_add(1);
                self.push(return_address);
                proof {
                    assert(self@ =~= with_pc(target_state, old(self)@.pc));
                }
                return target;
            },
            Instruction::PUSH(source) => {
                let value: u16 = match source {
                    StackTarget::AF => self.registers.get_af(),
                    StackTarget::BC => self.registers.get_bc(),
                    StackTarget::DE => self.registers.get_de(),
                    StackTarget::HL => self.registers.get_hl(),
                };
                self.push(value);
            },
            Instruction::POP(target) => {
                let result: u16 = self.pop();
                match target {
                    StackTarget::AF => self.registers.set_af(result),
                    StackTarget::BC => self.registers.set_bc(result),
                    StackTarget::DE => self.registers.set_de(result),
                    StackTarget::HL => self.registers.set_hl(result),
                }
            },
            Instruction::LD(load_type) => {
                let next: u16 = self.execute_load(load_type);
                proof {
                    assert(self@ =~= with_pc(target_state, old(self)@.pc));
                }
                return next;
            },
            Instruction::ADD(_) | Instruction::ADD16(_) | Instruction::ADDD8()
            | Instruction::ADDHL(_) | Instruction::SUB(_) | Instruction::SBC(_)
            | Instruction::AND(_) | Instruction::OR(_) | Instruction::XOR(_)
            | Instruction::XOR16(_) | Instruction::XORD8() | Instruction::CP(_)
            | Instruction::CP16(_) | Instruction::CPD8() => {
                let next: u16 = self.execute_arithmetic(instruction);
                return next;
            },
            Instruction::INC(_) | Instruction::INC16(_) | Instruction::DEC(_)
            | Instruction::DEC16(_) => {
                let next: u16 = self.execute_inc_dec(instruction);
                return next;
            },
            Instruction::RRA() | Instruction::RR(_) | Instruction::RLA() | Instruction::RL(_)
            | Instruction::RRCA() | Instruction::RRC(_) | Instruction::RLCA()
            | Instruction::RLC(_) => {
                let next: u16 = self.execute_rotate(instruction);
                return next;
            },
            Instruction::SRL(_) | Instruction::SRA(_) | Instruction::SLA(_)
            | Instruction::SWAP(_) | Instruction::SWAP16(_) => {
                let next: u16 = self.execute_shift_swap(instruction);
                return next;
            },
            Instruction::BIT(_, _) | Instruction::BIT16(_) | Instruction::RES(_, _)
            | Instruction::RES16(_) | Instruction::SET(_, _) | Instruction::SET16(_) => {
                let next: u16 = self.execute_bit_op(instruction);
                return next;
            },
            Instruction::CCF() => {
                self.registers.f = Flags {
                    zero: self.registers.f.zero,
                    subtract: false,
                    half_carry: false,
                    carry: !self.registers.f.carry,
                };
            },
            Instruction::SCF() => {
                self.registers.f = Flags {
                    zero: self.registers.f.zero,
                    subtract: false,
                    half_carry: false,
                    carry: true,
                };
            },
            Instruction::CPL() => {
                let initial: u8 = self.registers.a;
                self.registers.a = !initial;
                self.registers.f = Flags {
                    zero: self.registers.f.zero,
                    subtract: true,
                    half_carry: true,
                    carry: self.registers.f.carry,
                };
            },
            Instruction::JP(test) => {
                let jump_condition: bool = self.condition_met(test);
                let next: u16 = self.jump(jump_condition);
                proof {
                    assert(self@ =~= with_pc(target_state, old(self)@.pc));
                }
                return next;
            },
            Instruction::JR(test) => {
                let jump_condition: bool = self.condition_met(test);
                let next: u16 = self.jump_relative(jump_condition);
                proof {
                    assert(self@ =~= with_pc(target_state, old(self)@.pc));
                }
                return next;
            },
        }
        proof {
            assert(self@ =~= with_pc(target_state, old(self)@.pc));
        }
        self.pc.wrapping_add(pc_increment)
    }

    /// Advance emulation by exactly one instruction, exactly as
    /// [`spec_step`] says: fetch at PC, decode (consuming a second byte
    /// after the reserved prefix), execute, and apply the next PC. A halted
    /// core does nothing besides consulting the interrupt-pending signal,
    /// which clears the halt flag. On a byte with no table entry nothing
    /// changes and the fatal stop is returned, carrying the failing address,
    /// the raw byte, and whether the extended table was in use.
    pub fn step(&mut self) -> (result: Result<(), FatalStop>)
        requires
            old(self).wf(),
        ensures
            final(self).wf(),
            match spec_step(old(self)@) {
                Ok(t) => result is Ok && final(self)@ == t,
                Err(stop) => result == Err::<(), FatalStop>(stop) && final(self)@ == old(self)@,
            },
    {
        if self.is_halted {
            if self.interrupt_pending {
                self.is_halted = false;
            }
            proof {
                assert(self@ =~= (CpuView {
                    halted: !old(self)@.interrupt_pending,
                    ..old(self)@
                }));
            }
            return Ok(());
        }
        let first: u8 = self.bus.read_byte(self.pc);
        let prefixed: bool = first == PREFIX_BYTE;
        let opcode: u8 = if prefixed {
            self.bus.read_byte(self.pc.wrapping_add(1))
        } else {
            first
        };
        match Instruction::from_byte(opcode, prefixed) {
            Some(instruction) => {
                if prefixed {
                    self.pc = self.pc.wrapping_add(1);
                }
                let ghost s1 = self@;
                let next_pc: u16 = self.execute(instruction);
                if !self.is_halted {
                    self.pc = next_pc;
                    proof {
                        assert(self@ =~= spec_execute(s1, instruction));
                    }
                } else {
                    proof {
                        assert(self@ =~= with_pc(spec_execute(s1, instruction), s1.pc));
                    }
                }
                Ok(())
            },
            None => {
                let address: u16 = if prefixed {
                    self.pc.wrapping_add(1)
                } else {
                    self.pc
                };
                Err(FatalStop { address, byte: opcode, prefixed })
            },
        }
    }
}

/// The spec for `u16` masking used by the stack-pointer-plus-offset load:
/// the low nibble and low byte are bounded by their masks.
pub proof fn lemma_u16_low_bits(x: u16)
    ensures
        x & 0xF <= 0xF,
        x & 0xFF <= 0xFF,
{
    assert(x & 0xF <= 0xF && x & 0xFF <= 0xFF) by (bit_vector);
}

/// The flags of 8-bit addition, stated arithmetically: for all 8-bit values
/// `a` and `b`, the result is `(a + b)` modulo 256; the zero flag holds iff
/// that is zero; the carry flag holds iff `a + b` exceeds 255; the
/// half-carry flag holds iff the low nibbles alone sum past `0xF`; and the
/// subtract flag is always clear.
pub proof fn lemma_add_flags(a: u8, b: u8)
    ensures
        spec_add(a, b).value == (a + b) % 256,
        spec_add(a, b).flags.zero == ((a + b) % 256 == 0),
        spec_add(a, b).flags.carry == (a + b > 255),
        spec_add(a, b).flags.half_carry == ((a & 0xF) + (b & 0xF) > 0xF),
        !spec_add(a, b).flags.subtract,
{
}

/// The flags of 8-bit subtraction: for all `a` and `b`, the carry flag holds
/// iff `a < b`; the half-carry flag holds iff the low nibble of `a` is
/// smaller than the low nibble of `b`; the subtract flag is always set; and
/// the zero flag holds iff `a == b`.
pub proof fn lemma_subtract_flags(a: u8, b: u8)
    ensures
        spec_sub(a, b).value == (if a >= b {
            a - b
        } else {
            a - b + 256
        }),
        spec_sub(a, b).flags.carry == (a < b),
        spec_sub(a, b).flags.half_carry == ((a & 0xF) < (b & 0xF)),
        spec_sub(a, b).flags.subtract,
        spec_sub(a, b).flags.zero == (a == b),
{
}

/// Stack round trip: popping immediately after pushing a value yields
/// exactly that value, and the stack pointer is back where it was before
/// the push.
pub proof fn lemma_push_pop_round_trip(s: CpuView, value: u16)
    requires
        s.wf(),
    ensures
        spec_push16(s, value).wf(),
        spec_pop_value(spec_push16(s, value)) == value,
        spec_pop16(spec_push16(s, value)).sp == s.sp,
{
    let sp1 = s.sp.wrapping_sub(1);
    let sp2 = sp1.wrapping_sub(1);
    let inner = bus_write(s.bus, sp1, word_hi(value));
    crate::cpu::memorybus::lemma_bus_read_after_write(inner, sp2, word_lo(value), sp1);
    crate::cpu::memorybus::lemma_bus_read_after_write(s.bus, sp1, word_hi(value), sp2);
    lemma_word_split_join(value);
    assert(sp2.wrapping_add(1) == sp1);
    assert(sp1 != sp2);
    assert(sp2.wrapping_add(2) == s.sp);
}

/// Widths stay between one and three bytes.
pub proof fn lemma_width_bound(inst: Instruction)
    ensures
        1 <= spec_width(inst) <= 3,
{
}

/// An instruction that is neither a control transfer nor a halt leaves the
/// program counter at its default advance (the instruction's width past the
/// PC it executed from), and never changes the halt flag.
pub proof fn lemma_execute_default_pc(s: CpuView, inst: Instruction)
    requires
        !is_control_transfer(inst),
        !(inst is HALT),
    ensures
        spec_execute(s, inst).pc == s.pc.wrapping_add(spec_width(inst)),
        spec_execute(s, inst).halted == s.halted,
{
}

/// PC advancement: a step that fetches and executes any instruction of
/// encoded width `w` that is not a control transfer (and not a halt) leaves
/// PC at `(pc + w)` modulo 65536. A prefix-reached instruction spends one
/// byte on the prefix, so its encoded width is its own width plus one.
pub proof fn lemma_step_pc_advance(s: CpuView, inst: Instruction)
    requires
        s.wf(),
        !s.halted,
        !is_control_transfer(inst),
        !(inst is HALT),
        ({
            let first = bus_read(s.bus, s.pc);
            if first == PREFIX_BYTE {
                spec_decode(bus_read(s.bus, s.pc.wrapping_add(1)), true) == Some(inst)
            } else {
                spec_decode(first, false) == Some(inst)
            }
        }),
    ensures
        ({
            let first = bus_read(s.bus, s.pc);
            let encoded_width: u16 = if first == PREFIX_BYTE {
                (1 + spec_width(inst)) as u16
            } else {
                spec_width(inst)
            };
            spec_step(s) matches Ok(t) && t.pc == s.pc.wrapping_add(encoded_width)
        }),
{
    let first = bus_read(s.bus, s.pc);
    lemma_width_bound(inst);
    if first == PREFIX_BYTE {
        let s1 = CpuView { pc: s.pc.wrapping_add(1), ..s };
        lemma_execute_default_pc(s1, inst);
        assert(s.pc.wrapping_add(1).wrapping_add(spec_width(inst)) == s.pc.wrapping_add(
            (1 + spec_width(inst)) as u16,
        ));
    } else {
        lemma_execute_default_pc(s, inst);
    }
}

/// Unrecognized opcode: when the fetched byte has no table entry for its
/// (byte, prefixed) pair, the step yields exactly the fatal stop naming the
/// failing address, the raw byte and the table in use. (The step contract
/// adds that the engine state is then left entirely unchanged.)
pub proof fn lemma_step_unrecognized(s: CpuView)
    requires
        !s.halted,
        ({
            let first = bus_read(s.bus, s.pc);
            let prefixed = first == PREFIX_BYTE;
            let opcode = if prefixed {
                bus_read(s.bus, s.pc.wrapping_add(1))
            } else {
                first
            };
            spec_decode(opcode, prefixed) is None
        }),
    ensures
        ({
            let first = bus_read(s.bus, s.pc);
            let prefixed = first == PREFIX_BYTE;
            let opcode = if prefixed {
                bus_read(s.bus, s.pc.wrapping_add(1))
            } else {
                first
            };
            spec_step(s) == Err::<CpuView, FatalStop>(
                FatalStop {
                    address: if prefixed {
                        s.pc.wrapping_add(1)
                    } else {
                        s.pc
                    },
                    byte: opcode,
                    prefixed,
                },
            )
        }),
{
}

/// Bit set and clear never touch a flag: executing them leaves the flag
/// register exactly as it was, and the named register (or the byte at HL)
/// takes exactly the or-mask or and-not-mask value.
pub proof fn lemma_bit_set_reset_preserve_flags(s: CpuView, n: u8, target: ArithmeticTarget)
    requires
        n < 8,
    ensures
        spec_execute(s, Instruction::SET(n, target)).regs.f == s.regs.f,
        spec_execute(s, Instruction::RES(n, target)).regs.f == s.regs.f,
        spec_execute(s, Instruction::SET16(n)).regs.f == s.regs.f,
        spec_execute(s, Instruction::RES16(n)).regs.f == s.regs.f,
        spec_execute(s, Instruction::SET(n, target)).regs == set_reg8(
            s.regs,
            target,
            get_reg8(s.regs, target) | (1u8 << n),
        ),
        spec_execute(s, Instruction::RES(n, target)).regs == set_reg8(
            s.regs,
            target,
            get_reg8(s.regs, target) & !(1u8 << n),
        ),
{
}

/// Packing the accumulator-and-flags pair and unpacking it again restores
/// the register file exactly: what a push of AF stores determines A and all
/// four flags, because the flags byte's low nibble is always zero.
pub proof fn lemma_af_pack_unpack(r: Registers)
    ensures
        set_stack_pair(r, StackTarget::AF, get_stack_pair(r, StackTarget::AF)) == r,
{
    crate::cpu::registers::lemma_word_join_split(r.a, flags_to_byte(r.f));
    crate::cpu::registers::lemma_flags_byte_round_trip(r.f);
}

} // verus!
