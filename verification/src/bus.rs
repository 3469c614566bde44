//! The memory bus: maps each 16-bit address to the cartridge, video RAM,
//! working RAM, high RAM or an I/O register.
use vstd::prelude::*;

use crate::bytes::{copy_bytes, zeroed};
use crate::cartridge::{Cartridge, CartridgeView};
use crate::serial::{Serial, SerialView};
use crate::timer::Timer;

verus! {

// "word" here means 16 bits, stored low byte first.
pub const ROM_START: u16 = 0x0000;

pub const ROM_END: u16 = 0x7FFF;

pub const VRAM_START: u16 = 0x8000;

pub const VRAM_END: u16 = 0x9FFF;

pub const EXTERNAL_START: u16 = 0xA000;

pub const EXTERNAL_END: u16 = 0xBFFF;

pub const WRAM_START: u16 = 0xC000;

pub const WRAM_END: u16 = 0xDFFF;

pub const ECHO_START: u16 = 0xE000;

pub const ECHO_END: u16 = 0xFDFF;

pub const SPRITE_OAM_START: u16 = 0xFE00;

pub const SPRITE_OAM_END: u16 = 0xFE9F;

pub const PROHIBITED_START: u16 = 0xFEA0;

pub const PROHIBITED_END: u16 = 0xFEFF;

pub const JOYPAD: u16 = 0xFF00;

pub const SERIAL_START: u16 = 0xFF01;

pub const SERIAL_END: u16 = 0xFF02;

pub const TIMER_START: u16 = 0xFF04;

pub const TIMER_END: u16 = 0xFF07;

pub const INTERRUPT_FLAG: u16 = 0xFF0F;

pub const SOUND_START: u16 = 0xFF10;

pub const SOUND_END: u16 = 0xFF26;

pub const HRAM_START: u16 = 0xFF80;

pub const HRAM_END: u16 = 0xFFFE;

pub const INTERRUPT_ENABLE: u16 = 0xFFFF;

pub const WRAM_SIZE: u16 = 0x0FFF;

pub const VRAM_SIZE: u16 = 0x1FFF;

pub const HRAM_SIZE: u16 = 0x7E;

/// Everything the CPU can read from or write to.
pub struct Bus {
    pub timer: Timer,
    rom: Cartridge,
    pub serial: Serial,
    // internal RAM
    working_ram: Vec<u8>,
    // graphic tiles; the sprite attribute table shares its first bytes
    video_ram: Vec<u8>,
    high_ram: Vec<u8>,
}

/// The contents of the bus: the devices behind it and the three RAMs.
pub struct BusView {
    pub timer: Timer,
    pub rom: CartridgeView,
    pub serial: SerialView,
    pub wram: Seq<u8>,
    pub vram: Seq<u8>,
    pub hram: Seq<u8>,
}

/// The RAM banks of the bus, each a byte array.
#[derive(Clone, Copy, Debug, PartialEq, Eq, Structural)]
pub enum Bank {
    Video,
    External,
    Working,
    High,
}

/// A byte of RAM: its bank and its index in that bank.
pub struct Cell {
    pub bank: Bank,
    pub index: int,
}

/// Index into video RAM of an address in 0x8000..=0x9FFF.
pub open spec fn vram_index(addr: u16) -> int {
    (addr % 0x2000) as int
}

/// Index into working RAM of an address in 0xC000..=0xFDFF.
pub open spec fn wram_index(addr: u16) -> int {
    (addr % 0x1000) as int
}

/// Index into high RAM of an address in 0xFF80..=0xFFFE: two neighbouring
/// addresses share each byte.
pub open spec fn hram_index(addr: u16) -> int {
    (addr % 0x80) / 2 * 2
}

/// The RAM byte that a read of `addr` returns, if a RAM byte answers it.
pub open spec fn read_cell(addr: u16) -> Option<Cell> {
    if VRAM_START <= addr <= VRAM_END {
        Some(Cell { bank: Bank::Video, index: vram_index(addr) })
    } else if EXTERNAL_START <= addr <= EXTERNAL_END {
        Some(Cell { bank: Bank::External, index: addr - EXTERNAL_START })
    } else if WRAM_START <= addr <= ECHO_END {
        Some(Cell { bank: Bank::Working, index: wram_index(addr) })
    } else if SPRITE_OAM_START <= addr <= SPRITE_OAM_END {
        Some(Cell { bank: Bank::Video, index: addr - SPRITE_OAM_START })
    } else if HRAM_START <= addr <= HRAM_END {
        Some(Cell { bank: Bank::High, index: hram_index(addr) })
    } else {
        None
    }
}

/// The RAM byte that a write to `addr` changes, if any: the echo of working
/// RAM at 0xE000..=0xFDFF can be read but not written.
pub open spec fn write_cell(addr: u16) -> Option<Cell> {
    if ECHO_START <= addr <= ECHO_END {
        None
    } else {
        read_cell(addr)
    }
}

impl BusView {
    pub open spec fn wf(self) -> bool {
        &&& self.rom.wf()
        &&& self.timer.wf()
        &&& self.wram.len() == WRAM_SIZE + 1
        &&& self.vram.len() == VRAM_SIZE + 1
        &&& self.hram.len() == HRAM_SIZE + 1
    }

    /// The byte that the CPU reads at `addr`.
    pub open spec fn read(self, addr: u16) -> u8 {
        if ROM_START <= addr <= ROM_END {
            self.rom.read(addr)
        } else if VRAM_START <= addr <= VRAM_END {
            self.vram[vram_index(addr)]
        } else if EXTERNAL_START <= addr <= EXTERNAL_END {
            self.rom.read(addr)
        } else if WRAM_START <= addr <= ECHO_END {
            self.wram[wram_index(addr)]
        } else if SPRITE_OAM_START <= addr <= SPRITE_OAM_END {
            self.vram[addr - SPRITE_OAM_START]
        } else if SERIAL_START <= addr <= SERIAL_END {
            self.serial.read(addr)
        } else if TIMER_START <= addr <= TIMER_END {
            self.timer.read(addr)
        } else if HRAM_START <= addr <= HRAM_END {
            self.hram[hram_index(addr)]
        } else {
            // the prohibited area, the joypad, the interrupt registers and sound read as 0
            0
        }
    }

    /// The bus after the CPU writes `value` at `addr`.
    pub open spec fn write(self, addr: u16, value: u8) -> BusView {
        if ROM_START <= addr <= ROM_END {
            BusView { rom: self.rom.write(addr, value), ..self }
        } else if VRAM_START <= addr <= VRAM_END {
            BusView { vram: self.vram.update(vram_index(addr), value), ..self }
        } else if EXTERNAL_START <= addr <= EXTERNAL_END {
            BusView { rom: self.rom.write(addr, value), ..self }
        } else if WRAM_START <= addr <= WRAM_END {
            BusView { wram: self.wram.update(wram_index(addr), value), ..self }
        } else if SPRITE_OAM_START <= addr <= SPRITE_OAM_END {
            BusView { vram: self.vram.update(addr - SPRITE_OAM_START, value), ..self }
        } else if SERIAL_START <= addr <= SERIAL_END {
            BusView { serial: self.serial.write(addr, value), ..self }
        } else if TIMER_START <= addr <= TIMER_END {
            BusView { timer: self.timer.write(addr, value), ..self }
        } else if HRAM_START <= addr <= HRAM_END {
            BusView { hram: self.hram.update(hram_index(addr), value), ..self }
        } else {
            self
        }
    }

    /// The 16-bit value at `addr` and `addr + 1`, low byte first.
    pub open spec fn read_word(self, addr: u16) -> u16 {
        (self.read(addr) + self.read((addr + 1) as u16) * 256) as u16
    }

    pub open spec fn write_word(self, addr: u16, value: u16) -> BusView {
        self.write(addr, (value % 256) as u8).write((addr + 1) as u16, (value / 256) as u8)
    }

    /// The bus right after power-on, holding the ROM image `rom`: all RAM
    /// is clear, the serial control register holds 0x7E and the timer
    /// control register 0xF8.
    pub open spec fn power_on(rom: Seq<u8>) -> BusView {
        BusView {
            timer: Timer { tac: 0xF8, ..Timer::power_on() },
            rom: CartridgeView { rom, ram: Seq::new(0x2000, |i: int| 0u8) },
            serial: SerialView { sb: 0, sc: 0x7E, output: Seq::empty() },
            wram: Seq::new(0x1000, |i: int| 0u8),
            vram: Seq::new(0x2000, |i: int| 0u8),
            hram: Seq::new(0x7F, |i: int| 0u8),
        }
    }
}

impl View for Bus {
    type V = BusView;

    closed spec fn view(&self) -> BusView {
        BusView {
            timer: self.timer,
            rom: self.rom@,
            serial: self.serial@,
            wram: self.working_ram@,
            vram: self.video_ram@,
            hram: self.high_ram@,
        }
    }
}

proof fn lemma_word_bits(value: u16, lo: u8, hi: u8)
    by (bit_vector)
    ensures
        (lo as u16) | ((hi as u16) << 8) == lo + hi * 256,
        value & 0xFF == value % 256,
        value >> 8 == value / 256,
{
}

proof fn lemma_index_masks(addr: u16)
    by (bit_vector)
    ensures
        addr & VRAM_SIZE == addr % 0x2000,
        addr & WRAM_SIZE == addr % 0x1000,
        addr & HRAM_SIZE == (addr % 0x80) / 2 * 2,
{
}

/// A write to a RAM byte changes exactly the reads that this byte answers,
/// and keeps the bus well formed.
pub proof fn lemma_write_then_read(b: BusView, addr: u16, value: u8, other: u16)
    requires
        b.wf(),
        write_cell(addr) is Some,
    ensures
        b.write(addr, value).wf(),
        b.write(addr, value).read(other) == if read_cell(other) == write_cell(addr) {
            value
        } else {
            b.read(other)
        },
{
}

/// Every write keeps the bus well formed.
pub broadcast proof fn lemma_write_keeps_wf(b: BusView, addr: u16, value: u8)
    requires
        b.wf(),
    ensures
        #[trigger] b.write(addr, value).wf(),
{
}

/// Advancing the timer keeps the bus well formed.
pub broadcast proof fn lemma_timer_keeps_wf(b: BusView, m: u8)
    requires
        b.wf(),
    ensures
        #[trigger] (BusView { timer: b.timer.advanced(m), ..b }).wf(),
{
}

/// A word written where its two bytes are distinct RAM bytes reads back
/// unchanged.
pub proof fn lemma_word_roundtrip(b: BusView, addr: u16, value: u16)
    requires
        b.wf(),
        addr < 0xFFFF,
        write_cell(addr) is Some,
        write_cell((addr + 1) as u16) is Some,
        write_cell(addr) != write_cell((addr + 1) as u16),
    ensures
        b.write_word(addr, value).read_word(addr) == value,
{
    let lo = (value % 256) as u8;
    let hi = (value / 256) as u8;
    let b1 = b.write(addr, lo);
    lemma_write_then_read(b, addr, lo, addr);
    lemma_write_then_read(b1, (addr + 1) as u16, hi, addr);
    lemma_write_then_read(b1, (addr + 1) as u16, hi, (addr + 1) as u16);
}

/// Video RAM (0x8000..=0x9FFF) holds one byte per address: a write there
/// changes the read of that address only, among video RAM addresses.
pub proof fn lemma_vram_bytes(b: BusView, addr: u16, other: u16, value: u8)
    requires
        b.wf(),
        VRAM_START <= addr <= VRAM_END,
        VRAM_START <= other <= VRAM_END,
    ensures
        b.write(addr, value).read(other) == if addr == other {
            value
        } else {
            b.read(other)
        },
{
}

/// External RAM (0xA000..=0xBFFF) holds one byte per address.
pub proof fn lemma_external_ram_bytes(b: BusView, addr: u16, other: u16, value: u8)
    requires
        b.wf(),
        EXTERNAL_START <= addr <= EXTERNAL_END,
        EXTERNAL_START <= other <= EXTERNAL_END,
    ensures
        b.write(addr, value).read(other) == if addr == other {
            value
        } else {
            b.read(other)
        },
{
}

/// Working RAM (0xC000..=0xDFFF) holds 4 KiB: addresses 0x1000 apart share
/// a byte, others do not; the echo at 0xE000..=0xFDFF reads the byte 0x2000
/// below and ignores writes.
pub proof fn lemma_wram_bytes(b: BusView, addr: u16, other: u16, value: u8)
    requires
        b.wf(),
        WRAM_START <= addr <= WRAM_END,
        WRAM_START <= other <= WRAM_END,
    ensures
        b.write(addr, value).read(other) == if addr % 0x1000 == other % 0x1000 {
            value
        } else {
            b.read(other)
        },
{
}

/// The echo of working RAM reads the byte 0x2000 below and ignores writes.
pub proof fn lemma_echo(b: BusView, addr: u16, value: u8)
    requires
        ECHO_START <= addr <= ECHO_END,
    ensures
        b.read(addr) == b.read((addr - 0x2000) as u16),
        b.write(addr, value) == b,
{
}

/// The sprite attribute table (0xFE00..=0xFE9F) reads and writes the first
/// bytes of video RAM.
pub proof fn lemma_sprite_table(b: BusView, addr: u16, value: u8)
    requires
        SPRITE_OAM_START <= addr <= SPRITE_OAM_END,
    ensures
        b.read(addr) == b.read((addr - 0x7E00) as u16),
        b.write(addr, value) == b.write((addr - 0x7E00) as u16, value),
{
}

/// High RAM (0xFF80..=0xFFFE): the addresses 2k and 2k + 1 share a byte, and
/// a write changes only the reads of its pair.
pub proof fn lemma_hram_bytes(b: BusView, addr: u16, other: u16, value: u8)
    requires
        b.wf(),
        HRAM_START <= addr <= HRAM_END,
        HRAM_START <= other <= HRAM_END,
    ensures
        b.write(addr, value).read(other) == if addr / 2 == other / 2 {
            value
        } else {
            b.read(other)
        },
{
}

/// Writes to ROM (0x0000..=0x7FFF) change nothing, and ROM reads the image
/// (0xFF past its end).
pub proof fn lemma_rom(b: BusView, addr: u16, value: u8)
    requires
        addr <= ROM_END,
    ensures
        b.write(addr, value) == b,
        b.read(addr) == if addr < b.rom.rom.len() {
            b.rom.rom[addr as int]
        } else {
            0xFF
        },
{
}

/// A write into one region leaves the reads of every address outside that
/// region's bytes as they were: RAM regions, ROM and the I/O registers do
/// not overlap, except that the sprite table shares video RAM.
pub proof fn lemma_regions_apart(b: BusView, addr: u16, other: u16, value: u8)
    requires
        b.wf(),
        write_cell(addr) is Some,
        read_cell(other) is None,
    ensures
        b.write(addr, value).read(other) == b.read(other),
{
}

/// The timer registers TIMA, TMA and TAC read back what was written; a write
/// to DIV clears it. The serial data register reads back what was written.
/// The joypad, the prohibited area, the interrupt and sound registers and
/// the unused I/O addresses read 0 and ignore writes.
pub proof fn lemma_io_registers(b: BusView, addr: u16, value: u8)
    ensures
        b.write(0xFF05, value).read(0xFF05) == value,
        b.write(0xFF06, value).read(0xFF06) == value,
        b.write(0xFF07, value).read(0xFF07) == value,
        b.write(0xFF04, value).read(0xFF04) == 0,
        b.write(0xFF01, value).read(0xFF01) == value,
        (PROHIBITED_START <= addr <= 0xFF00 || addr == 0xFF03 || 0xFF08 <= addr <= 0xFF7F || addr
            == 0xFFFF) ==> b.read(addr) == 0 && b.write(addr, value) == b,
{
}

/// A word reads as its low byte at `addr` plus 256 times its high byte at
/// `addr + 1`, and a word write is a byte write of each, low byte first.
pub proof fn lemma_word_bytes(b: BusView, addr: u16, value: u16)
    requires
        addr < 0xFFFF,
    ensures
        b.read_word(addr) == b.read(addr) + 256 * b.read((addr + 1) as u16),
        b.write_word(addr, value) == b.write(addr, (value % 256) as u8).write(
            (addr + 1) as u16,
            (value / 256) as u8,
        ),
{
}

impl Bus {
    /// A bus with the ROM image `rom` and the hardware registers set as the
    /// boot ROM leaves them.
    pub fn new(rom: Vec<u8>) -> (bus: Bus)
        ensures
            bus@ == BusView::power_on(rom@),
            bus@.wf(),
    {
        let mut bus = Bus {
            timer: Timer::new(),
            serial: Serial::new(),
            rom: Cartridge::new(rom),
            working_ram: zeroed(WRAM_SIZE as usize + 1),
            video_ram: zeroed(VRAM_SIZE as usize + 1),
            high_ram: zeroed(HRAM_SIZE as usize + 1),
        };
        // hardware registers
        bus.write_byte(0xFF00, 0xCF);
        bus.write_byte(0xFF01, 0x00);
        bus.write_byte(0xFF02, 0x7E);
        bus.write_byte(0xFF04, 0xAB);
        bus.write_byte(0xFF05, 0x00);
        bus.write_byte(0xFF06, 0x00);
        bus.write_byte(0xFF07, 0xF8);
        bus.write_byte(0xFF10, 0x80);
        bus.write_byte(0xFF11, 0xBF);
        bus.write_byte(0xFF12, 0xF3);
        bus.write_byte(0xFF14, 0xBF);
        bus.write_byte(0xFF16, 0x3F);
        bus.write_byte(0xFF17, 0x00);
        bus.write_byte(0xFF19, 0xBF);
        bus.write_byte(0xFF1A, 0x7F);
        bus.write_byte(0xFF1B, 0xFF);
        bus.write_byte(0xFF1C, 0x9F);
        bus.write_byte(0xFF1E, 0xFF);
        bus.write_byte(0xFF20, 0xFF);
        bus.write_byte(0xFF21, 0x00);
        bus.write_byte(0xFF22, 0x00);
        bus.write_byte(0xFF23, 0xBF);
        bus.write_byte(0xFF24, 0x77);
        bus.write_byte(0xFF25, 0xF3);
        bus.write_byte(0xFF26, 0xF1);
        bus.write_byte(0xFF40, 0x91);
        bus.write_byte(0xFF42, 0x00);
        bus.write_byte(0xFF43, 0x00);
        bus.write_byte(0xFF45, 0x00);
        bus.write_byte(0xFF47, 0xFC);
        bus.write_byte(0xFF48, 0xFF);
        bus.write_byte(0xFF49, 0xFF);
        bus.write_byte(0xFF4A, 0x00);
        bus.write_byte(0xFF4B, 0x00);
        assert(bus@.serial =~= BusView::power_on(rom@).serial);
        bus
    }

    pub fn read_byte(&self, addr: u16) -> (v: u8)
        requires
            self@.wf(),
        ensures
            v == self@.read(addr),
    {
        proof {
            lemma_index_masks(addr);
        }
        match addr {
            // from the cartridge, usually a fixed bank
            ROM_START..=ROM_END => self.rom.read_byte(addr),
            VRAM_START..=VRAM_END => self.video_ram[(addr & VRAM_SIZE) as usize],
            EXTERNAL_START..=EXTERNAL_END => self.rom.read_byte(addr),
            WRAM_START..=WRAM_END | ECHO_START..=0xEFFF | 0xF000..=ECHO_END => {
                self.working_ram[(addr & WRAM_SIZE) as usize]
            },
            // sprite attribute table
            SPRITE_OAM_START..=SPRITE_OAM_END => {
                self.video_ram[(addr - SPRITE_OAM_START) as usize]
            },
            // prohibited area
            PROHIBITED_START..=PROHIBITED_END => 0,
            // I/O registers
            JOYPAD => 0,
            SERIAL_START..=SERIAL_END => self.serial.read_byte(addr),
            TIMER_START..=TIMER_END => self.timer.read_byte(addr),
            INTERRUPT_FLAG => 0,
            SOUND_START..=SOUND_END => 0,
            // high RAM
            HRAM_START..=HRAM_END => self.high_ram[(addr & HRAM_SIZE) as usize],
            INTERRUPT_ENABLE => 0,
            _ => 0,
        }
    }

    pub fn write_byte(&mut self, addr: u16, value: u8)
        requires
            old(self)@.wf(),
        ensures
            final(self)@ == old(self)@.write(addr, value),
            final(self)@.wf(),
    {
        proof {
            lemma_index_masks(addr);
        }
        match addr {
            // from the cartridge, usually a fixed bank
            ROM_START..=ROM_END => self.rom.write_byte(addr, value),
            VRAM_START..=VRAM_END => self.video_ram.set((addr & VRAM_SIZE) as usize, value),
            EXTERNAL_START..=EXTERNAL_END => self.rom.write_byte(addr, value),
            WRAM_START..=WRAM_END => self.working_ram.set((addr & WRAM_SIZE) as usize, value),
            // sprite attribute table
            SPRITE_OAM_START..=SPRITE_OAM_END => {
                self.video_ram.set((addr - SPRITE_OAM_START) as usize, value)
            },
            // prohibited area
            PROHIBITED_START..=PROHIBITED_END => {},
            // I/O registers
            JOYPAD => {},
            SERIAL_START..=SERIAL_END => self.serial.write_byte(addr, value),
            TIMER_START..=TIMER_END => self.timer.write_byte(addr, value),
            INTERRUPT_FLAG => {},
            SOUND_START..=SOUND_END => {},
            // high RAM
            HRAM_START..=HRAM_END => self.high_ram.set((addr & HRAM_SIZE) as usize, value),
            // interrupt enable register
            INTERRUPT_ENABLE => {},
            _ => {},
        }
    }

    /// The timer, as the view holds it.
    pub fn timer(&self) -> (t: &Timer)
        ensures
            *t == self@.timer,
    {
        &self.timer
    }

    /// The serial port, as the view holds it.
    pub fn serial(&self) -> (s: &Serial)
        ensures
            s@ == self@.serial,
    {
        &self.serial
    }

    /// Advances the timer by `m` M-cycles.
    pub fn update_timer(&mut self, m: u8)
        requires
            old(self)@.wf(),
        ensures
            final(self)@ == (BusView { timer: old(self)@.timer.advanced(m), ..old(self)@ }),
            final(self)@.wf(),
    {
        self.timer.update(m);
    }

    /// Whether the timer overflowed during its last update.
    pub fn timer_interrupt(&self) -> (r: bool)
        ensures
            r == self@.timer.interrupt,
    {
        self.timer.interrupt
    }

    /// A copy of the bus with the same contents.
    pub fn duplicate(&self) -> (b: Bus)
        ensures
            b@ == self@,
    {
        Bus {
            timer: self.timer,
            rom: self.rom.duplicate(),
            serial: self.serial.duplicate(),
            working_ram: copy_bytes(&self.working_ram),
            video_ram: copy_bytes(&self.video_ram),
            high_ram: copy_bytes(&self.high_ram),
        }
    }

    pub fn read_word(&self, addr: u16) -> (v: u16)
        requires
            self@.wf(),
            addr < 0xFFFF,
        ensures
            v == self@.read_word(addr),
    {
        let lo = self.read_byte(addr);
        let hi = self.read_byte(addr + 1);
        proof {
            lemma_word_bits(0, lo, hi);
        }
        (lo as u16) | ((hi as u16) << 8)
    }

    pub fn write_word(&mut self, addr: u16, value: u16)
        requires
            old(self)@.wf(),
            addr < 0xFFFF,
        ensures
            final(self)@ == old(self)@.write_word(addr, value),
            final(self)@.wf(),
    {
        proof {
            lemma_word_bits(value, 0, 0);
        }
        self.write_byte(addr, (value & 0xFF) as u8);
        self.write_byte(addr + 1, (value >> 8) as u8);
    }
}

} // verus!
