//! A Game Boy (DMG) emulator core: the CPU, its register file and the memory bus.
pub mod bytes;
pub mod register;
pub mod timer;
pub mod serial;
pub mod cartridge;
pub mod bus;
pub mod alu;
pub mod instructions;
pub mod cpu;
pub mod gameboy;
pub mod laws;
pub mod isa_laws;
