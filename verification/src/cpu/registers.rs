//! Register file: eight independent 8-bit registers, with three virtual
//! 16-bit pairs derived from them (BC, DE, HL) plus the accumulator+flags
//! pair AF. Pairs are composed big-endian: the high register occupies bits
//! 15 to 8. The flags byte keeps its low nibble zero; only the top four bits
//! (zero, subtract, half-carry, carry) are meaningful.

use vstd::prelude::*;

verus! {

/// The four condition flags, conceptually the top nibble of the flags byte.
#[derive(Clone, Copy, Debug, PartialEq, Eq, Structural)]
pub struct Flags {
    pub zero: bool,
    pub subtract: bool,
    pub half_carry: bool,
    pub carry: bool,
}

/// The flags byte: zero in bit 7, subtract in bit 6, half-carry in bit 5,
/// carry in bit 4, and a low nibble that is always zero.
pub open spec fn flags_to_byte(f: Flags) -> u8 {
    ((if f.zero {
        0x80u8
    } else {
        0u8
    }) + (if f.subtract {
        0x40u8
    } else {
        0u8
    }) + (if f.half_carry {
        0x20u8
    } else {
        0u8
    }) + (if f.carry {
        0x10u8
    } else {
        0u8
    })) as u8
}

/// Flags recovered from a byte: only the top four bits are read, so the low
/// nibble of the source byte is ignored.
pub open spec fn byte_to_flags(b: u8) -> Flags {
    Flags {
        zero: b & 0x80 != 0,
        subtract: b & 0x40 != 0,
        half_carry: b & 0x20 != 0,
        carry: b & 0x10 != 0,
    }
}

/// The high byte of a 16-bit word.
pub open spec fn word_hi(w: u16) -> u8 {
    (w / 256) as u8
}

/// The low byte of a 16-bit word.
pub open spec fn word_lo(w: u16) -> u8 {
    (w % 256) as u8
}

/// A 16-bit word composed big-endian from two bytes.
pub open spec fn make_word(hi: u8, lo: u8) -> u16 {
    (hi * 256 + lo) as u16
}

/// Splitting a word into bytes and composing them again is the identity.
pub proof fn lemma_word_split_join(w: u16)
    ensures
        make_word(word_hi(w), word_lo(w)) == w,
{
}

/// Composing two bytes and splitting the word again gives the bytes back.
pub proof fn lemma_word_join_split(hi: u8, lo: u8)
    ensures
        word_hi(make_word(hi, lo)) == hi,
        word_lo(make_word(hi, lo)) == lo,
{
}

impl Flags {
    /// All four flags cleared.
    pub fn cleared() -> (f: Flags)
        ensures
            f == (Flags { zero: false, subtract: false, half_carry: false, carry: false }),
    {
        Flags { zero: false, subtract: false, half_carry: false, carry: false }
    }

    /// The packed flags byte; its low nibble is always zero.
    pub fn to_byte(&self) -> (b: u8)
        ensures
            b == flags_to_byte(*self),
    {
        (if self.zero {
            0x80u8
        } else {
            0u8
        }) + (if self.subtract {
            0x40u8
        } else {
            0u8
        }) + (if self.half_carry {
            0x20u8
        } else {
            0u8
        }) + (if self.carry {
            0x10u8
        } else {
            0u8
        })
    }

    /// Flags unpacked from a byte; the low nibble of `b` is ignored.
    pub fn from_byte(b: u8) -> (f: Flags)
        ensures
            f == byte_to_flags(b),
    {
        Flags {
            zero: b & 0x80 != 0,
            subtract: b & 0x40 != 0,
            half_carry: b & 0x20 != 0,
            carry: b & 0x10 != 0,
        }
    }
}

/// Unpacking the byte a flag set was packed into gives the same flags back,
/// so AF round-trips exactly through push and pop.
pub proof fn lemma_flags_byte_round_trip(f: Flags)
    ensures
        byte_to_flags(flags_to_byte(f)) == f,
{
    let zb: u8 = if f.zero {
        0x80u8
    } else {
        0u8
    };
    let sb: u8 = if f.subtract {
        0x40u8
    } else {
        0u8
    };
    let hb: u8 = if f.half_carry {
        0x20u8
    } else {
        0u8
    };
    let cb: u8 = if f.carry {
        0x10u8
    } else {
        0u8
    };
    let b: u8 = flags_to_byte(f);
    assert((b & 0x80 != 0) == (zb == 0x80) && (b & 0x40 != 0) == (sb == 0x40) && (b & 0x20 != 0)
        == (hb == 0x20) && (b & 0x10 != 0) == (cb == 0x10)) by (bit_vector)
        requires
            b == ((zb + sb + hb + cb) as u8),
            zb == 0x80 || zb == 0,
            sb == 0x40 || sb == 0,
            hb == 0x20 || hb == 0,
            cb == 0x10 || cb == 0,
    ;
}

/// The eight 8-bit registers. The 16-bit pairs are always derived, never
/// stored separately.
#[derive(Clone, Copy, Debug, PartialEq, Eq, Structural)]
pub struct Registers {
    pub a: u8,
    pub b: u8,
    pub c: u8,
    pub d: u8,
    pub e: u8,
    pub f: Flags,
    pub h: u8,
    pub l: u8,
}

/// The register file with every register (and every flag) zero.
pub open spec fn zeroed_registers() -> Registers {
    Registers {
        a: 0,
        b: 0,
        c: 0,
        d: 0,
        e: 0,
        f: Flags { zero: false, subtract: false, half_carry: false, carry: false },
        h: 0,
        l: 0,
    }
}

impl Registers {
    /// A fresh register file, all zero.
    pub fn new() -> (regs: Registers)
        ensures
            regs == zeroed_registers(),
    {
        Registers {
            a: 0,
            b: 0,
            c: 0,
            d: 0,
            e: 0,
            f: Flags::cleared(),
            h: 0,
            l: 0,
        }
    }

    /// The BC pair, composed big-endian.
    pub fn get_bc(&self) -> (w: u16)
        ensures
            w == make_word(self.b, self.c),
    {
        (self.b as u16) * 256 + (self.c as u16)
    }

    /// Write the BC pair: B takes the high byte, C the low byte.
    pub fn set_bc(&mut self, value: u16)
        ensures
            *final(self) == (Registers { b: word_hi(value), c: word_lo(value), ..*old(self) }),
    {
        self.b = (value / 256) as u8;
        self.c = (value % 256) as u8;
    }

    /// The DE pair, composed big-endian.
    pub fn get_de(&self) -> (w: u16)
        ensures
            w == make_word(self.d, self.e),
    {
        (self.d as u16) * 256 + (self.e as u16)
    }

    /// Write the DE pair: D takes the high byte, E the low byte.
    pub fn set_de(&mut self, value: u16)
        ensures
            *final(self) == (Registers { d: word_hi(value), e: word_lo(value), ..*old(self) }),
    {
        self.d = (value / 256) as u8;
        self.e = (value % 256) as u8;
    }

    /// The HL pair, composed big-endian.
    pub fn get_hl(&self) -> (w: u16)
        ensures
            w == make_word(self.h, self.l),
    {
        (self.h as u16) * 256 + (self.l as u16)
    }

    /// Write the HL pair: H takes the high byte, L the low byte.
    pub fn set_hl(&mut self, value: u16)
        ensures
            *final(self) == (Registers { h: word_hi(value), l: word_lo(value), ..*old(self) }),
    {
        self.h = (value / 256) as u8;
        self.l = (value % 256) as u8;
    }

    /// The AF pair: the accumulator over the packed flags byte.
    pub fn get_af(&self) -> (w: u16)
        ensures
            w == make_word(self.a, flags_to_byte(self.f)),
    {
        (self.a as u16) * 256 + (self.f.to_byte() as u16)
    }

    /// Write the AF pair: A takes the high byte, the flags are unpacked from
    /// the top nibble of the low byte (its low nibble is discarded, keeping
    /// the flags-byte invariant).
    pub fn set_af(&mut self, value: u16)
        ensures
            *final(self) == (Registers {
                a: word_hi(value),
                f: byte_to_flags(word_lo(value)),
                ..*old(self)
            }),
    {
        self.a = (value / 256) as u8;
        self.f = Flags::from_byte((value % 256) as u8);
    }
}

} // verus!
