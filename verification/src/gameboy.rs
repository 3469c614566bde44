//! The console: the CPU with its bus, built from a ROM image.
use vstd::prelude::*;

use crate::bus::BusView;
use crate::cpu::Cpu;
use crate::register::Register;

verus! {

pub struct Gameboy {
    pub cpu: Cpu,
}

impl Gameboy {
    /// A console at power-on with the cartridge ROM image `rom`.
    pub fn new(rom: Vec<u8>) -> (gb: Gameboy)
        ensures
            gb.cpu@.reg == Register::power_on(),
            gb.cpu@.bus == BusView::power_on(rom@),
            gb.cpu@.m == 0,
            !gb.cpu@.halted,
            !gb.cpu@.should_interrupt,
            gb.cpu@.wf(),
    {
        Gameboy { cpu: Cpu::new(rom) }
    }
}

} // verus!
