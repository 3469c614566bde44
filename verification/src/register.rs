//! The register file of the CPU and the four condition flags kept in `F`.
use vstd::prelude::*;

verus! {

/// The eight 8-bit registers, the stack pointer and the program counter.
#[derive(Clone, Copy, Debug, PartialEq, Eq, Structural)]
pub struct Register {
    pub a: u8,
    pub b: u8,
    pub c: u8,
    pub d: u8,
    pub e: u8,
    pub f: u8,
    pub h: u8,
    pub l: u8,
    pub sp: u16,
    pub pc: u16,
}

/// The condition flags, each one bit in the upper nibble of `F`.
#[derive(Clone, Copy, Debug, PartialEq, Eq, Structural)]
pub enum Flags {
    Zero,
    Negative,
    HalfCarry,
    Carry,
}

/// The four flags as booleans: the meaning of the upper nibble of `F`.
#[derive(Clone, Copy, Debug, PartialEq, Eq, Structural)]
pub struct FlagSet {
    pub zero: bool,
    pub negative: bool,
    pub half_carry: bool,
    pub carry: bool,
}

pub open spec fn combine_pair(hi: u8, lo: u8) -> u16 {
    (hi * 256 + lo) as u16
}

impl Register {
    /// The register values right after the boot ROM has run.
    pub open spec fn power_on() -> Register {
        Register {
            a: 0x01,
            b: 0x00,
            c: 0x13,
            d: 0x00,
            e: 0xD8,
            f: 0xB0,
            h: 0x01,
            l: 0x4D,
            sp: 0xFFFE,
            pc: 0x0100,
        }
    }

    pub open spec fn af(self) -> u16 {
        combine_pair(self.a, self.f)
    }

    pub open spec fn bc(self) -> u16 {
        combine_pair(self.b, self.c)
    }

    pub open spec fn de(self) -> u16 {
        combine_pair(self.d, self.e)
    }

    pub open spec fn hl(self) -> u16 {
        combine_pair(self.h, self.l)
    }

    pub open spec fn with_af(self, v: u16) -> Register {
        Register { a: (v / 256) as u8, f: (v % 256) as u8, ..self }
    }

    pub open spec fn with_bc(self, v: u16) -> Register {
        Register { b: (v / 256) as u8, c: (v % 256) as u8, ..self }
    }

    pub open spec fn with_de(self, v: u16) -> Register {
        Register { d: (v / 256) as u8, e: (v % 256) as u8, ..self }
    }

    pub open spec fn with_hl(self, v: u16) -> Register {
        Register { h: (v / 256) as u8, l: (v % 256) as u8, ..self }
    }

    pub fn new() -> (r: Register)
        ensures
            r == Register::power_on(),
    {
        Register {
            a: 0x01,
            b: 0x00,
            c: 0x13,
            d: 0x00,
            e: 0xD8,
            f: 0xB0,
            h: 0x01,
            l: 0x4D,
            sp: 0xFFFE,
            pc: 0x0100,
        }
    }

    pub fn get_af(&self) -> (v: u16)
        ensures
            v == self.af(),
    {
        (self.a as u16) * 256 + (self.f as u16)
    }

    pub fn get_bc(&self) -> (v: u16)
        ensures
            v == self.bc(),
    {
        (self.b as u16) * 256 + (self.c as u16)
    }

    pub fn get_de(&self) -> (v: u16)
        ensures
            v == self.de(),
    {
        (self.d as u16) * 256 + (self.e as u16)
    }

    pub fn get_hl(&self) -> (v: u16)
        ensures
            v == self.hl(),
    {
        (self.h as u16) * 256 + (self.l as u16)
    }

    pub fn set_af(&mut self, v: u16)
        ensures
            *final(self) == old(self).with_af(v),
    {
        self.a = (v / 256) as u8;
        self.f = (v % 256) as u8;
    }

    pub fn set_bc(&mut self, v: u16)
        ensures
            *final(self) == old(self).with_bc(v),
    {
        self.b = (v / 256) as u8;
        self.c = (v % 256) as u8;
    }

    pub fn set_de(&mut self, v: u16)
        ensures
            *final(self) == old(self).with_de(v),
    {
        self.d = (v / 256) as u8;
        self.e = (v % 256) as u8;
    }

    pub fn set_hl(&mut self, v: u16)
        ensures
            *final(self) == old(self).with_hl(v),
    {
        self.h = (v / 256) as u8;
        self.l = (v % 256) as u8;
    }
}

impl Flags {
    /// The bit of `F` that holds this flag.
    pub open spec fn mask(self) -> u8 {
        match self {
            Flags::Zero => 0x80,
            Flags::Negative => 0x40,
            Flags::HalfCarry => 0x20,
            Flags::Carry => 0x10,
        }
    }

    pub fn bit(self) -> (b: u8)
        ensures
            b == self.mask(),
    {
        match self {
            Flags::Zero => 0x80,
            Flags::Negative => 0x40,
            Flags::HalfCarry => 0x20,
            Flags::Carry => 0x10,
        }
    }
}

pub open spec fn zero_bit(f: u8) -> bool {
    f & 0x80 == 0x80
}

pub open spec fn negative_bit(f: u8) -> bool {
    f & 0x40 == 0x40
}

pub open spec fn half_carry_bit(f: u8) -> bool {
    f & 0x20 == 0x20
}

pub open spec fn carry_bit(f: u8) -> bool {
    f & 0x10 == 0x10
}

/// The upper nibble built from four flag values; the lower nibble is zero.
pub open spec fn flag_byte(z: bool, n: bool, h: bool, c: bool) -> u8 {
    ((if z { 0x80u8 } else { 0u8 }) + (if n { 0x40u8 } else { 0u8 }) + (if h { 0x20u8 } else { 0u8 })
        + (if c { 0x10u8 } else { 0u8 })) as u8
}

/// What the register `F` says of each flag.
pub open spec fn flags_of(f: u8) -> FlagSet {
    FlagSet {
        zero: zero_bit(f),
        negative: negative_bit(f),
        half_carry: half_carry_bit(f),
        carry: carry_bit(f),
    }
}

impl FlagSet {
    pub open spec fn get(self, flag: Flags) -> bool {
        match flag {
            Flags::Zero => self.zero,
            Flags::Negative => self.negative,
            Flags::HalfCarry => self.half_carry,
            Flags::Carry => self.carry,
        }
    }

    pub open spec fn with(self, flag: Flags, on: bool) -> FlagSet {
        match flag {
            Flags::Zero => FlagSet { zero: on, ..self },
            Flags::Negative => FlagSet { negative: on, ..self },
            Flags::HalfCarry => FlagSet { half_carry: on, ..self },
            Flags::Carry => FlagSet { carry: on, ..self },
        }
    }

    /// The value of `F` that holds exactly these flags.
    pub open spec fn byte(self) -> u8 {
        flag_byte(self.zero, self.negative, self.half_carry, self.carry)
    }
}

/// Reading the flags back out of the byte built from them gives them back,
/// and that byte has a zero lower nibble.
pub proof fn lemma_flag_byte_roundtrip(z: bool, n: bool, h: bool, c: bool)
    by (bit_vector)
    ensures
        zero_bit(flag_byte(z, n, h, c)) == z,
        negative_bit(flag_byte(z, n, h, c)) == n,
        half_carry_bit(flag_byte(z, n, h, c)) == h,
        carry_bit(flag_byte(z, n, h, c)) == c,
        flag_byte(z, n, h, c) & 0x0F == 0,
        flag_byte(z, n, h, c) % 16 == 0,
{
}

/// Setting or clearing one flag bit and masking the lower nibble yields the
/// byte of the flags with that one flag changed.
pub proof fn lemma_flag_update(f: u8)
    by (bit_vector)
    ensures
        (f | 0x80) & 0xF0 == flag_byte(true, negative_bit(f), half_carry_bit(f), carry_bit(f)),
        (f | 0x40) & 0xF0 == flag_byte(zero_bit(f), true, half_carry_bit(f), carry_bit(f)),
        (f | 0x20) & 0xF0 == flag_byte(zero_bit(f), negative_bit(f), true, carry_bit(f)),
        (f | 0x10) & 0xF0 == flag_byte(zero_bit(f), negative_bit(f), half_carry_bit(f), true),
        (f & !0x80u8) & 0xF0 == flag_byte(false, negative_bit(f), half_carry_bit(f), carry_bit(f)),
        (f & !0x40u8) & 0xF0 == flag_byte(zero_bit(f), false, half_carry_bit(f), carry_bit(f)),
        (f & !0x20u8) & 0xF0 == flag_byte(zero_bit(f), negative_bit(f), false, carry_bit(f)),
        (f & !0x10u8) & 0xF0 == flag_byte(zero_bit(f), negative_bit(f), half_carry_bit(f), false),
        ((f & 0x80) & 0x20) & 0x10 == 0,
        f & 0x0F == 0 ==> f ^ 0x10 == flag_byte(zero_bit(f), negative_bit(f), half_carry_bit(f), !carry_bit(f)),
{
}

/// The byte of a flag set reads back as that flag set.
pub proof fn lemma_flags_of_byte(fs: FlagSet)
    ensures
        flags_of(fs.byte()) == fs,
        fs.byte() % 16 == 0,
        fs.byte() & 0x0F == 0,
{
    lemma_flag_byte_roundtrip(fs.zero, fs.negative, fs.half_carry, fs.carry);
}

/// The flags read back out of the byte built from them, for every flag set.
pub broadcast proof fn lemma_flags_roundtrip(fs: FlagSet)
    ensures
        #[trigger] flags_of(fs.byte()) == fs,
{
    lemma_flags_of_byte(fs);
}

} // verus!
