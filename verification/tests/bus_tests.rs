use rustyboy::bus::Bus;
use rustyboy::cartridge::Cartridge;
use rustyboy::gameboy::Gameboy;
use rustyboy::serial::Serial;
use rustyboy::timer::Timer;

fn bus() -> Bus {
    let mut rom = vec![0u8; 0x8000];
    rom[0x0000] = 0x31;
    rom[0x7FFF] = 0x99;
    Bus::new(rom)
}

#[test]
fn rom_reads_and_ignores_writes() {
    let mut b = bus();
    assert_eq!(b.read_byte(0x0000), 0x31);
    assert_eq!(b.read_byte(0x7FFF), 0x99);
    b.write_byte(0x0000, 0x55);
    assert_eq!(b.read_byte(0x0000), 0x31);
}

#[test]
fn short_rom_reads_ff_past_its_end() {
    let b = Bus::new(vec![1, 2, 3]);
    assert_eq!(b.read_byte(0x0002), 3);
    assert_eq!(b.read_byte(0x0003), 0xFF);
}

#[test]
fn ram_read_after_write() {
    let mut b = bus();
    for (addr, v) in [(0x8000u16, 1u8), (0x9FFF, 2), (0xA000, 3), (0xBFFF, 4), (0xC000, 5), (0xDFFF, 6), (0xFE00, 7), (0xFF80, 8)] {
        b.write_byte(addr, v);
        assert_eq!(b.read_byte(addr), v);
    }
}

#[test]
fn echo_ram_reads_working_ram_but_ignores_writes() {
    let mut b = bus();
    b.write_byte(0xC123, 0x42);
    assert_eq!(b.read_byte(0xE123), 0x42);
    b.write_byte(0xE123, 0x17);
    assert_eq!(b.read_byte(0xC123), 0x42);
}

#[test]
fn working_ram_banks_alias() {
    let mut b = bus();
    b.write_byte(0xC010, 0xAB);
    assert_eq!(b.read_byte(0xD010), 0xAB);
}

#[test]
fn sprite_table_shares_video_ram() {
    let mut b = bus();
    b.write_byte(0xFE05, 0x66);
    assert_eq!(b.read_byte(0x8005), 0x66);
}

#[test]
fn high_ram_neighbours_share_a_byte() {
    let mut b = bus();
    b.write_byte(0xFF81, 0x12);
    assert_eq!(b.read_byte(0xFF80), 0x12);
}

#[test]
fn unmapped_registers_read_zero() {
    let mut b = bus();
    for addr in [0xFEA0u16, 0xFF00, 0xFF0F, 0xFF10, 0xFF40, 0xFFFF] {
        b.write_byte(addr, 0x5A);
        assert_eq!(b.read_byte(addr), 0);
    }
}

#[test]
fn word_round_trip_and_byte_order() {
    let mut b = bus();
    b.write_word(0xC000, 0xBEEF);
    assert_eq!(b.read_byte(0xC000), 0xEF);
    assert_eq!(b.read_byte(0xC001), 0xBE);
    assert_eq!(b.read_word(0xC000), 0xBEEF);
}

#[test]
fn word_in_high_ram_keeps_high_byte() {
    let mut b = bus();
    b.write_word(0xFF80, 0x1234);
    assert_eq!(b.read_word(0xFF80), 0x1212);
}

#[test]
fn power_on_io_registers() {
    let b = bus();
    assert_eq!(b.read_byte(0xFF02), 0x7E);
    assert_eq!(b.read_byte(0xFF07), 0xF8);
    assert_eq!(b.read_byte(0xFF04), 0x00);
    assert_eq!(b.read_byte(0xFF01), 0x00);
}

#[test]
fn serial_transfer_records_byte() {
    let mut b = bus();
    b.write_byte(0xFF01, b'A');
    b.write_byte(0xFF02, 0x81);
    assert_eq!(b.serial.output(), &vec![b'A']);
    assert_eq!(b.read_byte(0xFF02), 0x01);
    b.write_byte(0xFF02, 0x80);
    assert_eq!(b.serial.output().len(), 1);
}

#[test]
fn serial_port_alone() {
    let mut s = Serial::new();
    s.write_byte(0xFF01, 7);
    assert_eq!(s.read_byte(0xFF01), 7);
    assert_eq!(s.read_byte(0xFF03), 0xFF);
}

#[test]
fn timer_divider_and_counter() {
    let mut t = Timer::new();
    t.update(63);
    assert_eq!(t.read_byte(0xFF04), 0);
    t.update(1);
    assert_eq!(t.read_byte(0xFF04), 1);
    t.write_byte(0xFF04, 0x77);
    assert_eq!(t.read_byte(0xFF04), 0);
    // enabled, 4 M-cycles per tick, reload 0x10
    t.write_byte(0xFF06, 0x10);
    t.write_byte(0xFF05, 0xFE);
    t.write_byte(0xFF07, 0x05);
    t.update(4);
    assert_eq!(t.read_byte(0xFF05), 0xFF);
    assert!(!t.interrupt);
    t.update(4);
    assert_eq!(t.read_byte(0xFF05), 0x10);
    assert!(t.interrupt);
    t.update(1);
    assert!(!t.interrupt);
}

#[test]
fn timer_disabled_counter_stays() {
    let mut t = Timer::new();
    t.write_byte(0xFF05, 3);
    t.update(200);
    assert_eq!(t.read_byte(0xFF05), 3);
    assert_eq!(t.read_byte(0xFF04), 3);
}

#[test]
fn cartridge_title_and_ram() {
    let mut rom = vec![0u8; 0x8000];
    rom[0x134..0x139].copy_from_slice(b"TETRI");
    let mut c = Cartridge::new(rom);
    assert_eq!(c.title(), b"TETRI".to_vec());
    c.write_byte(0xA001, 9);
    assert_eq!(c.read_byte(0xA001), 9);
    assert_eq!(c.read_byte(0xC000), 0xFF);
}

#[test]
fn gameboy_starts_at_entry_point() {
    let gb = Gameboy::new(vec![0u8; 0x8000]);
    assert_eq!(gb.cpu.registers().pc, 0x0100);
    assert!(!gb.cpu.is_halted());
}
