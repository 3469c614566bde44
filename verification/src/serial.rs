//! The serial port (registers 0xFF01 and 0xFF02). A transfer started with the
//! internal clock sends the byte in SB at once; the bytes sent are kept.
use vstd::prelude::*;

verus! {

pub const SB: u16 = 0xFF01;

pub const SC: u16 = 0xFF02;

pub struct Serial {
    sb: u8,
    sc: u8,
    output: Vec<u8>,
}

/// The serial port's registers and everything sent so far.
pub struct SerialView {
    pub sb: u8,
    pub sc: u8,
    pub output: Seq<u8>,
}

/// Whether a value written to SC starts a transfer with the internal clock.
pub open spec fn starts_transfer(value: u8) -> bool {
    value >= 0x80 && value % 2 == 1
}

impl SerialView {
    pub open spec fn read(self, addr: u16) -> u8 {
        if addr == SB {
            self.sb
        } else if addr == SC {
            self.sc
        } else {
            0xFF
        }
    }

    /// Writing SC with a transfer request sends SB and clears the request bit.
    pub open spec fn write(self, addr: u16, value: u8) -> SerialView {
        if addr == SB {
            SerialView { sb: value, ..self }
        } else if addr == SC {
            if starts_transfer(value) {
                SerialView { sc: (value % 0x80) as u8, output: self.output.push(self.sb), ..self }
            } else {
                SerialView { sc: value, ..self }
            }
        } else {
            self
        }
    }
}

impl View for Serial {
    type V = SerialView;

    closed spec fn view(&self) -> SerialView {
        SerialView { sb: self.sb, sc: self.sc, output: self.output@ }
    }
}

impl Serial {
    pub fn new() -> (s: Serial)
        ensures
            s@ == (SerialView { sb: 0, sc: 0, output: Seq::empty() }),
    {
        Serial { sb: 0, sc: 0, output: Vec::new() }
    }

    pub fn read_byte(&self, addr: u16) -> (v: u8)
        ensures
            v == self@.read(addr),
    {
        if addr == SB {
            self.sb
        } else if addr == SC {
            self.sc
        } else {
            0xFF
        }
    }

    pub fn write_byte(&mut self, addr: u16, value: u8)
        ensures
            final(self)@ == old(self)@.write(addr, value),
    {
        proof {
            lemma_transfer_bits(value);
        }
        if addr == SB {
            self.sb = value;
        } else if addr == SC {
            if value & 0x81 == 0x81 {
                self.output.push(self.sb);
                self.sc = value & 0x7F;
            } else {
                self.sc = value;
            }
        }
    }

    /// A copy of the port with the same contents.
    pub fn duplicate(&self) -> (s: Serial)
        ensures
            s@ == self@,
    {
        Serial { sb: self.sb, sc: self.sc, output: crate::bytes::copy_bytes(&self.output) }
    }

    /// The bytes sent over the port so far, oldest first.
    pub fn output(&self) -> (o: &Vec<u8>)
        ensures
            o@ == self@.output,
    {
        &self.output
    }
}

/// A write of SC with bits 7 and 0 set sends SB: it is appended to the
/// output and bit 7 of SC clears. Any other write of SC sends nothing. SB
/// reads back what was written to it.
pub proof fn lemma_serial_transfer(v: SerialView, value: u8)
    ensures
        v.write(SC, value).output == if value >= 0x80 && value % 2 == 1 {
            v.output.push(v.sb)
        } else {
            v.output
        },
        v.write(SC, value).read(SC) == if value >= 0x80 && value % 2 == 1 {
            value - 0x80
        } else {
            value as int
        },
        v.write(SB, value).read(SB) == value,
        v.write(SB, value).output == v.output,
{
}

proof fn lemma_transfer_bits(value: u8)
    by (bit_vector)
    ensures
        (value & 0x81 == 0x81) == (value >= 0x80 && value % 2 == 1),
        value & 0x7F == value % 0x80,
{
}

} // verus!
