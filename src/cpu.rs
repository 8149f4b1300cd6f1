//! The register file: eight 8-bit registers, the stack pointer and the
//! program counter, with 16-bit pair views and named flag bits.
use vstd::prelude::*;

use crate::bytes::{high_byte, join, join_bytes, lemma_join_split, low_byte, split};

verus! {

/// Bit of the flags register that holds the Zero flag.
pub const ZERO_BIT: u8 = 7;

/// Bit of the flags register that holds the Subtract flag.
pub const SUBTRACT_BIT: u8 = 6;

/// Bit of the flags register that holds the Half-carry flag.
pub const HALF_CARRY_BIT: u8 = 5;

/// Bit of the flags register that holds the Carry flag.
pub const CARRY_BIT: u8 = 4;

/// Whether bit `bit` of `f` is set.
pub open spec fn has_bit(f: u8, bit: u8) -> bool {
    f & (1u8 << bit) != 0
}

/// `f` with bit `bit` set to `v` and every other bit kept.
pub open spec fn with_bit(f: u8, bit: u8, v: bool) -> u8 {
    if v {
        f | (1u8 << bit)
    } else {
        f & !(1u8 << bit)
    }
}

/// What a write of `v` to AF stores in the flags register: the low byte
/// with its lower nibble cleared (`v & 0xF0`).
pub open spec fn masked_flags(v: u16) -> u8 {
    low_byte(v) & 0xF0u8
}

/// Programmer-visible CPU state. `f` is the flags register.
pub struct Registers {
    pub a: u8,
    pub b: u8,
    pub c: u8,
    pub d: u8,
    pub e: u8,
    pub f: u8,
    pub h: u8,
    pub l: u8,
    pub sp: u16,
    pub pc: u16,
}

impl Registers {
    /// A register file with every register zero.
    pub fn new() -> (r: Registers)
        ensures
            r.a == 0 && r.b == 0 && r.c == 0 && r.d == 0,
            r.e == 0 && r.f == 0 && r.h == 0 && r.l == 0,
            r.sp == 0 && r.pc == 0,
    {
        Registers { a: 0, b: 0, c: 0, d: 0, e: 0, f: 0, h: 0, l: 0, sp: 0, pc: 0 }
    }

    /// The AF pair: `a` in the high byte, the flags in the low byte.
    pub fn af(&self) -> (r: u16)
        ensures
            r == join_bytes(self.a, self.f),
    {
        join(self.a, self.f)
    }

    /// The BC pair: `b` high, `c` low.
    pub fn bc(&self) -> (r: u16)
        ensures
            r == join_bytes(self.b, self.c),
    {
        join(self.b, self.c)
    }

    /// The DE pair: `d` high, `e` low.
    pub fn de(&self) -> (r: u16)
        ensures
            r == join_bytes(self.d, self.e),
    {
        join(self.d, self.e)
    }

    /// The HL pair: `h` high, `l` low.
    pub fn hl(&self) -> (r: u16)
        ensures
            r == join_bytes(self.h, self.l),
    {
        join(self.h, self.l)
    }

    /// Writes `value` through the AF pair; the lower nibble of the flags
    /// register is cleared.
    pub fn set_af(&mut self, value: u16)
        ensures
            *final(self) == (Registers { a: high_byte(value), f: masked_flags(value), ..*old(self) }),
    {
        let (hi, lo) = split(value);
        self.a = hi;
        self.f = lo & 0xF0;
    }

    /// Writes `value` through the BC pair.
    pub fn set_bc(&mut self, value: u16)
        ensures
            *final(self) == (Registers { b: high_byte(value), c: low_byte(value), ..*old(self) }),
    {
        let (hi, lo) = split(value);
        self.b = hi;
        self.c = lo;
    }

    /// Writes `value` through the DE pair.
    pub fn set_de(&mut self, value: u16)
        ensures
            *final(self) == (Registers { d: high_byte(value), e: low_byte(value), ..*old(self) }),
    {
        let (hi, lo) = split(value);
        self.d = hi;
        self.e = lo;
    }

    /// Writes `value` through the HL pair.
    pub fn set_hl(&mut self, value: u16)
        ensures
            *final(self) == (Registers { h: high_byte(value), l: low_byte(value), ..*old(self) }),
    {
        let (hi, lo) = split(value);
        self.h = hi;
        self.l = lo;
    }

    fn flag(&self, bit: u8) -> (r: bool)
        requires
            bit < 8,
        ensures
            r == has_bit(self.f, bit),
    {
        self.f & (1u8 << bit) != 0
    }

    fn set_flag(&mut self, bit: u8, value: bool)
        requires
            bit < 8,
        ensures
            *final(self) == (Registers { f: with_bit(old(self).f, bit, value), ..*old(self) }),
    {
        if value {
            self.f = self.f | (1u8 << bit);
        } else {
            self.f = self.f & !(1u8 << bit);
        }
    }

    /// The Zero flag (bit 7 of `f`).
    pub fn flag_z(&self) -> (r: bool)
        ensures
            r == has_bit(self.f, ZERO_BIT),
    {
        self.flag(ZERO_BIT)
    }

    /// The Subtract flag (bit 6 of `f`).
    pub fn flag_n(&self) -> (r: bool)
        ensures
            r == has_bit(self.f, SUBTRACT_BIT),
    {
        self.flag(SUBTRACT_BIT)
    }

    /// The Half-carry flag (bit 5 of `f`).
    pub fn flag_h(&self) -> (r: bool)
        ensures
            r == has_bit(self.f, HALF_CARRY_BIT),
    {
        self.flag(HALF_CARRY_BIT)
    }

    /// The Carry flag (bit 4 of `f`).
    pub fn flag_c(&self) -> (r: bool)
        ensures
            r == has_bit(self.f, CARRY_BIT),
    {
        self.flag(CARRY_BIT)
    }

    /// Sets or clears the Zero flag, leaving every other bit of `f` as it was.
    pub fn set_flag_z(&mut self, value: bool)
        ensures
            *final(self) == (Registers { f: with_bit(old(self).f, ZERO_BIT, value), ..*old(self) }),
    {
        self.set_flag(ZERO_BIT, value)
    }

    /// Sets or clears the Subtract flag, leaving every other bit of `f` as it was.
    pub fn set_flag_n(&mut self, value: bool)
        ensures
            *final(self) == (Registers { f: with_bit(old(self).f, SUBTRACT_BIT, value), ..*old(self) }),
    {
        self.set_flag(SUBTRACT_BIT, value)
    }

    /// Sets or clears the Half-carry flag, leaving every other bit of `f` as it was.
    pub fn set_flag_h(&mut self, value: bool)
        ensures
            *final(self) == (Registers { f: with_bit(old(self).f, HALF_CARRY_BIT, value), ..*old(self) }),
    {
        self.set_flag(HALF_CARRY_BIT, value)
    }

    /// Sets or clears the Carry flag, leaving every other bit of `f` as it was.
    pub fn set_flag_c(&mut self, value: bool)
        ensures
            *final(self) == (Registers { f: with_bit(old(self).f, CARRY_BIT, value), ..*old(self) }),
    {
        self.set_flag(CARRY_BIT, value)
    }
}

/// Writing `(hi << 8) | lo` through a pair stores exactly `hi` in the high
/// register and `lo` in the low one; through AF the flags register receives
/// `lo & 0xF0`.
pub proof fn lemma_pair_write_splits(hi: u8, lo: u8)
    ensures
        high_byte(((hi as u16) << 8) | (lo as u16)) == hi,
        low_byte(((hi as u16) << 8) | (lo as u16)) == lo,
        masked_flags(((hi as u16) << 8) | (lo as u16)) == lo & 0xF0u8,
{
    assert(high_byte(((hi as u16) << 8) | (lo as u16)) == hi) by (bit_vector);
    assert(low_byte(((hi as u16) << 8) | (lo as u16)) == lo) by (bit_vector);
    assert(masked_flags(((hi as u16) << 8) | (lo as u16)) == lo & 0xF0u8) by (bit_vector);
}

/// Reading a pair back after writing `v` through it gives `v` for BC, DE and
/// HL, and `(v & 0xFF00) | (v & 0xF0)` for AF.
pub proof fn lemma_pair_round_trip(v: u16)
    ensures
        join_bytes(high_byte(v), low_byte(v)) == v,
        join_bytes(high_byte(v), masked_flags(v)) == (v & 0xFF00u16) | (v & 0xF0u16),
{
    lemma_join_split(v);
    assert(join_bytes(high_byte(v), masked_flags(v)) == (v & 0xFF00u16) | (v & 0xF0u16))
        by (bit_vector);
}

/// After `with_bit(f, bit, v)`, bit `bit` reads `v` and every other bit of
/// the byte reads as in `f`.
pub proof fn lemma_with_bit_reads(f: u8, bit: u8, v: bool, other: u8)
    requires
        bit < 8,
        other < 8,
    ensures
        has_bit(with_bit(f, bit, v), bit) == v,
        other != bit ==> has_bit(with_bit(f, bit, v), other) == has_bit(f, other),
{
    assert(has_bit(with_bit(f, bit, v), bit) == v) by (bit_vector)
        requires
            bit < 8,
    ;
    assert(other != bit ==> has_bit(with_bit(f, bit, v), other) == has_bit(f, other))
        by (bit_vector)
        requires
            bit < 8,
            other < 8,
    ;
}

/// Setting a flag and then clearing it leaves the flag clear and every other
/// bit of the flags register as it was before both writes.
pub proof fn lemma_flag_set_then_clear(f: u8, bit: u8)
    requires
        bit < 8,
    ensures
        !has_bit(with_bit(with_bit(f, bit, true), bit, false), bit),
        forall|other: u8|
            other < 8 && other != bit ==> #[trigger] has_bit(
                with_bit(with_bit(f, bit, true), bit, false),
                other,
            ) == has_bit(f, other),
        with_bit(with_bit(f, bit, true), bit, false) == with_bit(f, bit, false),
{
    let g = with_bit(f, bit, true);
    lemma_with_bit_reads(g, bit, false, bit);
    assert forall|other: u8| other < 8 && other != bit implies #[trigger] has_bit(
        with_bit(g, bit, false),
        other,
    ) == has_bit(f, other) by {
        lemma_with_bit_reads(f, bit, true, other);
        lemma_with_bit_reads(g, bit, false, other);
    }
    assert(with_bit(with_bit(f, bit, true), bit, false) == with_bit(f, bit, false))
        by (bit_vector)
        requires
            bit < 8,
    ;
}

} // verus!
