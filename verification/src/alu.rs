//! The arithmetic of the instruction set, stated over integers, and the facts
//! that tie the bit operations of the implementation to it.
use vstd::prelude::*;

use crate::register::FlagSet;

verus! {

pub open spec fn inc8(x: u8) -> u8 {
    ((x + 1) % 256) as u8
}

pub open spec fn dec8(x: u8) -> u8 {
    ((x + 255) % 256) as u8
}

/// Flags after an 8-bit increment of `x`; the carry is kept.
pub open spec fn inc8_flags(fs: FlagSet, x: u8) -> FlagSet {
    FlagSet { zero: inc8(x) == 0, negative: false, half_carry: x % 16 == 15, carry: fs.carry }
}

/// Flags after an 8-bit decrement of `x`; the carry is kept.
pub open spec fn dec8_flags(fs: FlagSet, x: u8) -> FlagSet {
    FlagSet { zero: dec8(x) == 0, negative: true, half_carry: x % 16 == 0, carry: fs.carry }
}

/// `a + v + c` modulo 256.
pub open spec fn add8(a: u8, v: u8, c: u8) -> u8 {
    ((a + v + c) % 256) as u8
}

/// `a - v - c` modulo 256.
pub open spec fn sub8(a: u8, v: u8, c: u8) -> u8 {
    ((a + 512 - v - c) % 256) as u8
}

/// Two wrapping subtractions in a row compute `sub8`.
pub proof fn lemma_wrapping_sub(a: u8, v: u8, c: u8)
    requires
        c <= 1,
    ensures
        vstd::wrapping::u8_specs::wrapping_sub(vstd::wrapping::u8_specs::wrapping_sub(a, v), c)
            == sub8(a, v, c),
{
}

/// Two wrapping additions in a row compute `add8`.
pub proof fn lemma_wrapping_add(a: u8, v: u8, c: u8)
    requires
        c <= 1,
    ensures
        vstd::wrapping::u8_specs::wrapping_add(vstd::wrapping::u8_specs::wrapping_add(a, v), c)
            == add8(a, v, c),
{
}

/// Flags of an addition `a + v + c` whose stored result is `result`.
pub open spec fn add_flags(a: u8, v: u8, c: u8, result: u8) -> FlagSet {
    FlagSet {
        zero: result == 0,
        negative: false,
        half_carry: a % 16 + v % 16 + c > 15,
        carry: a + v + c > 255,
    }
}

/// Flags of a subtraction `a - v - c` whose stored result is `result`.
pub open spec fn sub_flags(a: u8, v: u8, c: u8, result: u8) -> FlagSet {
    FlagSet { zero: result == 0, negative: true, half_carry: a % 16 < v % 16 + c, carry: v + c > a }
}

/// Flags of a logic operation with result `r`.
pub open spec fn logic_flags(r: u8, half_carry: bool) -> FlagSet {
    FlagSet { zero: r == 0, negative: false, half_carry, carry: false }
}

/// Rotate left; bit 7 comes round to bit 0.
pub open spec fn rlc8(x: u8) -> u8 {
    ((x * 2) % 256 + x / 128) as u8
}

/// Rotate right; bit 0 comes round to bit 7.
pub open spec fn rrc8(x: u8) -> u8 {
    (x / 2 + (x % 2) * 128) as u8
}

/// Rotate left through the carry `c`.
pub open spec fn rl8(x: u8, c: bool) -> u8 {
    ((x * 2) % 256 + if c {
        1int
    } else {
        0int
    }) as u8
}

/// Rotate right through the carry `c`.
pub open spec fn rr8(x: u8, c: bool) -> u8 {
    (x / 2 + if c {
        128int
    } else {
        0int
    }) as u8
}

/// Shift left; bit 0 becomes 0.
pub open spec fn sla8(x: u8) -> u8 {
    ((x * 2) % 256) as u8
}

/// Shift right keeping bit 7.
pub open spec fn sra8(x: u8) -> u8 {
    (x / 2 + if x >= 128 {
        128int
    } else {
        0int
    }) as u8
}

/// Shift right; bit 7 becomes 0.
pub open spec fn srl8(x: u8) -> u8 {
    (x / 2) as u8
}

/// Exchange the two nibbles.
pub open spec fn swap8(x: u8) -> u8 {
    ((x % 16) * 16 + x / 16) as u8
}

/// Whether bit `b` of `x` is set.
pub open spec fn bit_is_set(x: u8, b: u8) -> bool {
    x & (1u8 << b) != 0
}

/// `x` with bit `b` cleared.
pub open spec fn res8(x: u8, b: u8) -> u8 {
    x & !(1u8 << b)
}

/// `x` with bit `b` set.
pub open spec fn set8(x: u8, b: u8) -> u8 {
    x | (1u8 << b)
}

/// Flags after a rotate or shift with result `r` and carry out `carry`.
pub open spec fn shift_flags(r: u8, carry: bool) -> FlagSet {
    FlagSet { zero: r == 0, negative: false, half_carry: false, carry }
}

/// Flags with only the carry possibly set.
pub open spec fn carry_only(carry: bool) -> FlagSet {
    FlagSet { zero: false, negative: false, half_carry: false, carry }
}

/// Whether `x` is a packed BCD byte: two decimal digits, one per nibble.
pub open spec fn is_bcd(x: u8) -> bool {
    x / 16 <= 9 && x % 16 <= 9
}

/// The number that a packed BCD byte stands for.
pub open spec fn bcd_value(x: u8) -> int {
    (x / 16) * 10 + x % 16
}

/// The packed BCD byte of a number in 0..100.
pub open spec fn to_bcd(n: int) -> u8 {
    ((n / 10) * 16 + n % 10) as u8
}

/// A byte read as a two's complement offset, extended to 16 bits.
pub open spec fn sign_extend(b: u8) -> u16 {
    if b < 128 {
        b as u16
    } else {
        (b + 0xFF00) as u16
    }
}

/// `pc` moved by the signed offset `b`, modulo 2^16.
pub open spec fn jump_relative(pc: u16, b: u8) -> u16 {
    ((pc + sign_extend(b)) % 65536) as u16
}

/// What the bit operations on a byte compute, in integers.
pub proof fn lemma_byte_ops(x: u8)
    by (bit_vector)
    ensures
        x & 0x0F == x % 16,
        (x & 0x80 == 0x80) == (x >= 128),
        (x & 0x01 == 0x01) == (x % 2 == 1),
        x >> 1 == x / 2,
        (x >> 1) | (x & 0x80) == x / 2 + (if x >= 128 {
            128u8
        } else {
            0u8
        }),
        (x >> 4) | (x << 4) == (x % 16) * 16 + x / 16,
        !x == 255 - x,
{
}

/// Or-ing a carry bit into a shifted byte adds it.
pub proof fn lemma_carry_in(x: u8, c: u8)
    by (bit_vector)
    ensures
        c <= 1 ==> (x << 1) | c == (x * 2) % 256 + c,
{
}

/// Or-ing a carry bit into bit 7 of a right-shifted byte adds it.
pub proof fn lemma_carry_in_high(x: u8, c: u8)
    by (bit_vector)
    ensures
        c == 0 || c == 0x80 ==> (x >> 1) | c == x / 2 + c,
{
}

/// A left shift by one doubles modulo 256.
pub proof fn lemma_shift_left(x: u8)
    by (bit_vector)
    ensures
        x << 1 == (x * 2) % 256,
{
}

/// What the bit operations on a 16-bit value compute, in integers.
pub proof fn lemma_word_ops(v: u16)
    by (bit_vector)
    ensures
        v & 0x000F == v % 16,
        v & 0x00FF == v % 256,
        v & 0x07FF == v % 0x800,
        v & 0xFFF0 == v - v % 16,
{
}

/// How a byte read as `i8` extends to 16 bits and moves a 16-bit address.
pub proof fn lemma_signed_byte(b: u8, pc: u16)
    by (bit_vector)
    ensures
        b as i8 as i16 as u16 == (if b < 128 {
            b as u16
        } else {
            (b + 0xFF00) as u16
        }),
        ((pc as u32 as i32) + (b as i8 as i32)) as u16 == (if b < 128 {
            (pc + b) % 65536
        } else {
            (pc + b + 0xFF00) % 65536
        }) as u16,
{
}

/// The fields of an opcode: bits 0 to 2 and bits 3 to 5.
pub proof fn lemma_low_bits(op: u8)
    by (bit_vector)
    ensures
        op & 0x7 == op % 8,
        (op >> 3) & 0x7 == (op / 8) % 8,
{
}

/// An address in the page 0xFF00..=0xFFFF from its low byte.
pub proof fn lemma_high_page(v: u8)
    by (bit_vector)
    ensures
        0xFF00u16 | (v as u16) == 0xFF00 + v,
{
}

/// The constants that DAA ors together.
pub proof fn lemma_daa_adjust(adj: u8)
    by (bit_vector)
    ensures
        adj == 0 ==> adj | 0x06 == 0x06 && adj | 0x60 == 0x60,
        adj == 0x06 ==> adj | 0x06 == 0x06 && adj | 0x60 == 0x66,
        adj == 0x60 ==> adj | 0x06 == 0x66 && adj | 0x60 == 0x60,
        adj == 0x66 ==> adj | 0x06 == 0x66 && adj | 0x60 == 0x66,
{
}

} // verus!
