//! A cartridge without a memory bank controller: up to 32 KiB of ROM at
//! 0x0000..=0x7FFF and 8 KiB of external RAM at 0xA000..=0xBFFF.
use vstd::prelude::*;

use crate::bytes::{copy_bytes, zeroed};

verus! {

pub const EXTERNAL_RAM_START: u16 = 0xA000;

pub const EXTERNAL_RAM_END: u16 = 0xBFFF;

pub const EXTERNAL_RAM_SIZE: usize = 0x2000;

/// Where the header's title starts and ends (exclusive).
pub const TITLE_START: usize = 0x134;

pub const TITLE_END: usize = 0x144;

pub struct Cartridge {
    rom: Vec<u8>,
    ram: Vec<u8>,
}

pub struct CartridgeView {
    pub rom: Seq<u8>,
    pub ram: Seq<u8>,
}

/// The title bytes from `i` on: they stop at a zero byte, at the end of the
/// title field or at the end of the ROM.
pub open spec fn title_from(rom: Seq<u8>, i: int) -> Seq<u8>
    decreases TITLE_END - i,
{
    if i < 0 || i >= TITLE_END || i >= rom.len() || rom[i] == 0 {
        Seq::empty()
    } else {
        seq![rom[i]] + title_from(rom, i + 1)
    }
}

impl CartridgeView {
    pub open spec fn wf(self) -> bool {
        self.ram.len() == EXTERNAL_RAM_SIZE
    }

    /// ROM bytes past the end of the image read as 0xFF, as an open bus does.
    pub open spec fn read(self, addr: u16) -> u8 {
        if addr <= 0x7FFF {
            if addr < self.rom.len() {
                self.rom[addr as int]
            } else {
                0xFF
            }
        } else if EXTERNAL_RAM_START <= addr <= EXTERNAL_RAM_END {
            self.ram[addr - EXTERNAL_RAM_START]
        } else {
            0xFF
        }
    }

    /// Writes to ROM are ignored; writes to external RAM are kept.
    pub open spec fn write(self, addr: u16, value: u8) -> CartridgeView {
        if EXTERNAL_RAM_START <= addr <= EXTERNAL_RAM_END {
            CartridgeView { ram: self.ram.update(addr - EXTERNAL_RAM_START, value), ..self }
        } else {
            self
        }
    }

    pub open spec fn title(self) -> Seq<u8> {
        title_from(self.rom, TITLE_START as int)
    }
}

impl View for Cartridge {
    type V = CartridgeView;

    closed spec fn view(&self) -> CartridgeView {
        CartridgeView { rom: self.rom@, ram: self.ram@ }
    }
}

impl Cartridge {
    /// A cartridge holding the ROM image `rom`, with cleared external RAM.
    pub fn new(rom: Vec<u8>) -> (c: Cartridge)
        ensures
            c@.rom == rom@,
            c@.ram == Seq::new(EXTERNAL_RAM_SIZE as nat, |i: int| 0u8),
            c@.wf(),
    {
        let ram = zeroed(EXTERNAL_RAM_SIZE);
        Cartridge { rom, ram }
    }

    pub fn read_byte(&self, addr: u16) -> (v: u8)
        requires
            self@.wf(),
        ensures
            v == self@.read(addr),
    {
        if addr <= 0x7FFF {
            if (addr as usize) < self.rom.len() {
                self.rom[addr as usize]
            } else {
                0xFF
            }
        } else if EXTERNAL_RAM_START <= addr && addr <= EXTERNAL_RAM_END {
            self.ram[(addr - EXTERNAL_RAM_START) as usize]
        } else {
            0xFF
        }
    }

    pub fn write_byte(&mut self, addr: u16, value: u8)
        requires
            old(self)@.wf(),
        ensures
            final(self)@ == old(self)@.write(addr, value),
            final(self)@.wf(),
    {
        if EXTERNAL_RAM_START <= addr && addr <= EXTERNAL_RAM_END {
            self.ram.set((addr - EXTERNAL_RAM_START) as usize, value);
        }
    }

    /// A copy of the cartridge with the same contents.
    pub fn duplicate(&self) -> (c: Cartridge)
        ensures
            c@ == self@,
    {
        Cartridge { rom: copy_bytes(&self.rom), ram: copy_bytes(&self.ram) }
    }

    /// The title from the cartridge header.
    pub fn title(&self) -> (t: Vec<u8>)
        ensures
            t@ == self@.title(),
    {
        let mut out: Vec<u8> = Vec::new();
        let mut i: usize = TITLE_START;
        while i < TITLE_END && i < self.rom.len() && self.rom[i] != 0
            invariant
                TITLE_START <= i <= TITLE_END,
                out@ + title_from(self.rom@, i as int) == title_from(self.rom@, TITLE_START as int),
            decreases TITLE_END - i,
        {
            out.push(self.rom[i]);
            assert(out@ + title_from(self.rom@, (i + 1) as int) =~= out@.drop_last() + title_from(
                self.rom@,
                i as int,
            ));
            i = i + 1;
        }
        assert(title_from(self.rom@, i as int) =~= Seq::<u8>::empty());
        assert(out@ + title_from(self.rom@, i as int) =~= out@);
        out
    }
}

} // verus!
