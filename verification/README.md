# rustyboy

A Game Boy (DMG) emulator core whose behaviour is specified and proved with Verus.

- `src/register.rs`: the register file and the flags in `F`.
- `src/alu.rs`: the arithmetic of the instruction set over integers, and the
  bit-vector facts that tie the bit operations of the code to it.
- `src/instructions.rs`: `CpuView`, the machine as a mathematical value, with one
  function per instruction, the decoder (`exec_op`, `cb_op`) and one cycle
  (`cycle`); `op_ok` and `cycle_ok` say on which states an instruction runs to its end.
- `src/cpu.rs`: the CPU; every instruction is proved to do what
  `instructions.rs` says, and `run_cycle` to perform `CpuView::cycle`.
- `src/bus.rs`, `src/cartridge.rs`, `src/timer.rs`, `src/serial.rs`: the memory
  map and the devices behind it.
- `src/laws.rs`: properties over several instructions or steps.
- `app/main.rs`: loads a ROM file, opens a window with `minifb` and steps the CPU.
