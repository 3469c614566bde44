use rustyboy::cpu::Cpu;
use rustyboy::register::Flags;

/// A ROM image of 32 KiB holding `program` from 0x0100, where execution starts.
fn rom_with(program: &[u8]) -> Vec<u8> {
    let mut rom = vec![0u8; 0x8000];
    rom[0x100..0x100 + program.len()].copy_from_slice(program);
    rom
}

fn cpu_with(program: &[u8]) -> Cpu {
    Cpu::new(rom_with(program))
}

fn run(cpu: &mut Cpu, steps: usize) {
    for _ in 0..steps {
        assert!(cpu.can_run_cycle());
        cpu.run_cycle();
    }
}

#[test]
fn test_correct_resetting_of_flags() {
    let mut cpu = Cpu::new(rom_with(&[]));
    cpu.reset_flags();
    assert_eq!(0, cpu.registers().f);
}

#[test]
fn test_correct_setting_of_flag() {
    let mut cpu = Cpu::new(rom_with(&[]));
    cpu.reset_flags();
    cpu.set_flag(Flags::Carry);
    assert_eq!(0x10, cpu.registers().f);
    cpu.set_flag(Flags::HalfCarry);
    assert_eq!(0x30, cpu.registers().f);
}

#[test]
fn test_correct_unsetting_of_flag() {
    let mut cpu = Cpu::new(rom_with(&[]));
    cpu.unset_flag(Flags::Zero);
    assert_eq!(0x30, cpu.registers().f);
}

#[test]
fn test_if_flag_is_active() {
    let cpu = Cpu::new(rom_with(&[]));
    assert_eq!(true, cpu.flag_is_active(Flags::Zero));
    assert_eq!(true, cpu.flag_is_active(Flags::Carry));
    assert_eq!(true, cpu.flag_is_active(Flags::HalfCarry));
}

#[test]
fn power_on_registers() {
    let r = Cpu::new(rom_with(&[])).registers();
    assert_eq!((r.a, r.f, r.b, r.c, r.d, r.e, r.h, r.l), (0x01, 0xB0, 0x00, 0x13, 0x00, 0xD8, 0x01, 0x4D));
    assert_eq!((r.sp, r.pc), (0xFFFE, 0x0100));
}

#[test]
fn flag_not_active_after_unset_and_others_kept() {
    let mut cpu = cpu_with(&[]);
    cpu.unset_flag(Flags::Carry);
    assert!(!cpu.flag_is_active(Flags::Carry));
    assert!(cpu.flag_is_active(Flags::Zero));
    assert!(cpu.flag_is_active(Flags::HalfCarry));
    assert!(!cpu.flag_is_active(Flags::Negative));
}

#[test]
fn reset_then_no_flag_active() {
    let mut cpu = cpu_with(&[]);
    cpu.reset_flags();
    for flag in [Flags::Zero, Flags::Negative, Flags::HalfCarry, Flags::Carry] {
        assert!(!cpu.flag_is_active(flag));
    }
}

#[test]
fn nop_advances_pc() {
    let mut cpu = cpu_with(&[0x00]);
    let report = cpu.run_cycle();
    assert!(report.executed && report.recognized && !report.interrupted);
    assert_eq!(report.opcode, 0x00);
    assert_eq!(cpu.registers().pc, 0x0101);
}

#[test]
fn load_immediates_into_pairs() {
    // LD BC,0x1234; LD DE,0x5678; LD HL,0x9ABC; LD SP,0xD000
    let mut cpu = cpu_with(&[0x01, 0x34, 0x12, 0x11, 0x78, 0x56, 0x21, 0xBC, 0x9A, 0x31, 0x00, 0xD0]);
    run(&mut cpu, 4);
    let r = cpu.registers();
    assert_eq!((r.b, r.c, r.d, r.e, r.h, r.l), (0x12, 0x34, 0x56, 0x78, 0x9A, 0xBC));
    assert_eq!(r.sp, 0xD000);
    assert_eq!(r.pc, 0x010C);
}

#[test]
fn inc_b_sets_half_carry_and_zero() {
    // LD B,0x0F; INC B; LD B,0xFF; INC B
    let mut cpu = cpu_with(&[0x06, 0x0F, 0x04, 0x06, 0xFF, 0x04]);
    run(&mut cpu, 2);
    assert_eq!(cpu.registers().b, 0x10);
    assert!(cpu.flag_is_active(Flags::HalfCarry));
    assert!(!cpu.flag_is_active(Flags::Zero));
    assert!(!cpu.flag_is_active(Flags::Negative));
    // the carry from power-on is kept
    assert!(cpu.flag_is_active(Flags::Carry));
    run(&mut cpu, 2);
    assert_eq!(cpu.registers().b, 0x00);
    assert!(cpu.flag_is_active(Flags::Zero));
    assert!(cpu.flag_is_active(Flags::HalfCarry));
}

#[test]
fn dec_then_inc_gives_value_back() {
    // LD C,0x00; DEC C; INC C
    let mut cpu = cpu_with(&[0x0E, 0x00, 0x0D, 0x0C]);
    run(&mut cpu, 2);
    assert_eq!(cpu.registers().c, 0xFF);
    assert!(cpu.flag_is_active(Flags::Negative));
    assert!(cpu.flag_is_active(Flags::HalfCarry));
    run(&mut cpu, 1);
    assert_eq!(cpu.registers().c, 0x00);
    assert!(cpu.flag_is_active(Flags::Zero));
}

#[test]
fn xor_a_clears_a_and_sets_zero() {
    let mut cpu = cpu_with(&[0xAF]);
    run(&mut cpu, 1);
    assert_eq!(cpu.registers().a, 0);
    assert_eq!(cpu.registers().f, 0x80);
}

#[test]
fn add_ignores_carry_flag() {
    // power-on F has the carry set; ADD A,B with A = 1, B = 0 gives 1
    let mut cpu = cpu_with(&[0x80]);
    run(&mut cpu, 1);
    assert_eq!(cpu.registers().a, 0x01);
    assert!(!cpu.flag_is_active(Flags::Carry));
    assert!(!cpu.flag_is_active(Flags::Zero));
}

#[test]
fn adc_adds_carry_flag() {
    // power-on F has the carry set; ADC A,B with A = 1, B = 0 gives 2
    let mut cpu = cpu_with(&[0x88]);
    run(&mut cpu, 1);
    assert_eq!(cpu.registers().a, 0x02);
}

#[test]
fn sub_register_ignores_carry_flag() {
    // carry set at power-on; LD A,3; LD B,1; SUB B gives 2
    let mut cpu = cpu_with(&[0x3E, 0x03, 0x06, 0x01, 0x90]);
    run(&mut cpu, 3);
    assert_eq!(cpu.registers().a, 0x02);
    assert_eq!(cpu.registers().f, 0x40);
}

#[test]
fn sbc_of_ff_with_carry() {
    // carry set at power-on; LD A,0x00; LD B,0xFF; SBC A,B
    let mut cpu = cpu_with(&[0x3E, 0x00, 0x06, 0xFF, 0x98]);
    run(&mut cpu, 3);
    assert_eq!(cpu.registers().a, 0x00);
    assert_eq!(cpu.registers().f, 0xF0);
}

#[test]
fn sbc_immediate_ff_with_carry() {
    // carry set at power-on; LD A,0x05; SBC A,0xFF
    let mut cpu = cpu_with(&[0x3E, 0x05, 0xDE, 0xFF]);
    run(&mut cpu, 2);
    assert_eq!(cpu.registers().a, 0x05);
    assert_eq!(cpu.registers().f, 0x70);
}

#[test]
fn add_immediate_flags_ignore_carry() {
    // carry set at power-on; LD A,0x0F; ADD A,0x00
    let mut cpu = cpu_with(&[0x3E, 0x0F, 0xC6, 0x00]);
    run(&mut cpu, 2);
    assert_eq!(cpu.registers().a, 0x0F);
    assert_eq!(cpu.registers().f, 0x00);
}

#[test]
fn add_immediate_sets_carry() {
    // SCF; CCF (carry clear); LD A,0xF0; ADD A,0x20
    let mut cpu = cpu_with(&[0x37, 0x3F, 0x3E, 0xF0, 0xC6, 0x20]);
    run(&mut cpu, 4);
    assert_eq!(cpu.registers().a, 0x10);
    assert!(cpu.flag_is_active(Flags::Carry));
    assert!(!cpu.flag_is_active(Flags::HalfCarry));
}

#[test]
fn sub_immediate_borrows() {
    // SCF; CCF; LD A,0x10; SUB 0x01
    let mut cpu = cpu_with(&[0x37, 0x3F, 0x3E, 0x10, 0xD6, 0x01]);
    run(&mut cpu, 4);
    assert_eq!(cpu.registers().a, 0x0F);
    assert!(cpu.flag_is_active(Flags::Negative));
    assert!(cpu.flag_is_active(Flags::HalfCarry));
    assert!(!cpu.flag_is_active(Flags::Carry));
}

#[test]
fn compare_keeps_a() {
    // SCF; CCF; LD A,0x42; CP 0x42
    let mut cpu = cpu_with(&[0x37, 0x3F, 0x3E, 0x42, 0xFE, 0x42]);
    run(&mut cpu, 4);
    assert_eq!(cpu.registers().a, 0x42);
    assert!(cpu.flag_is_active(Flags::Zero));
    assert!(cpu.flag_is_active(Flags::Negative));
}

#[test]
fn sub_immediate_ignores_carry_flag() {
    // carry set at power-on; LD A,5; SUB 1 gives 4; then SUB 0xFF
    let mut cpu = cpu_with(&[0x3E, 0x05, 0xD6, 0x01, 0xD6, 0xFF]);
    run(&mut cpu, 2);
    assert_eq!(cpu.registers().a, 0x04);
    assert_eq!(cpu.registers().f, 0x40);
    run(&mut cpu, 1);
    assert_eq!(cpu.registers().a, 0x05);
    assert_eq!(cpu.registers().f, 0x70);
}

#[test]
fn compare_equal_with_carry_set() {
    // carry set at power-on; LD A,5; CP 5; LD B,5; CP B
    let mut cpu = cpu_with(&[0x3E, 0x05, 0xFE, 0x05, 0x06, 0x05, 0xB8]);
    run(&mut cpu, 2);
    assert_eq!(cpu.registers().a, 0x05);
    assert_eq!(cpu.registers().f, 0xC0);
    run(&mut cpu, 1);
    // set the carry again with SCF, then compare with B
    let mut cpu2 = cpu_with(&[0x3E, 0x05, 0x06, 0x05, 0x37, 0xB8]);
    run(&mut cpu2, 4);
    assert_eq!(cpu2.registers().f, 0xC0);
    run(&mut cpu, 1);
    assert_eq!(cpu.registers().f, 0xC0);
}

#[test]
fn daa_after_bcd_subtraction() {
    // LD A,0x10; SUB 0x01 (A = 0x0F, N and H set); DAA gives 0x09
    let mut cpu = cpu_with(&[0x3E, 0x10, 0xD6, 0x01, 0x27]);
    run(&mut cpu, 2);
    assert_eq!(cpu.registers().a, 0x0F);
    assert_eq!(cpu.registers().f, 0x60);
    run(&mut cpu, 1);
    assert_eq!(cpu.registers().a, 0x09);
    assert_eq!(cpu.registers().f, 0x40);
}

#[test]
fn daa_after_bcd_subtraction_with_borrow() {
    // LD A,0x23; LD B,0x45; SUB B; DAA gives 0x78 (23 - 45 = -22, i.e. 78 and a borrow)
    let mut cpu = cpu_with(&[0x3E, 0x23, 0x06, 0x45, 0x90, 0x27]);
    run(&mut cpu, 4);
    assert_eq!(cpu.registers().a, 0x78);
    assert!(cpu.flag_is_active(Flags::Carry));
    assert!(cpu.flag_is_active(Flags::Negative));
}

#[test]
fn daa_after_bcd_addition_with_carry() {
    // LD A,0x99; LD B,0x01; ADD A,B; DAA gives 0x00 and a decimal carry
    let mut cpu = cpu_with(&[0x3E, 0x99, 0x06, 0x01, 0x80, 0x27]);
    run(&mut cpu, 4);
    assert_eq!(cpu.registers().a, 0x00);
    assert!(cpu.flag_is_active(Flags::Carry));
    assert!(cpu.flag_is_active(Flags::Zero));
}

#[test]
fn rla_rotates_through_carry() {
    // SCF; CCF (carry clear); LD A,0x80; RLA; RLA
    let mut cpu = cpu_with(&[0x37, 0x3F, 0x3E, 0x80, 0x17, 0x17]);
    run(&mut cpu, 4);
    assert_eq!(cpu.registers().a, 0x00);
    assert_eq!(cpu.registers().f, 0x10);
    run(&mut cpu, 1);
    assert_eq!(cpu.registers().a, 0x01);
    assert_eq!(cpu.registers().f, 0x00);
}

#[test]
fn rra_rotates_through_carry() {
    // SCF; CCF (carry clear, Z kept); LD A,0x01; RRA; RRA
    let mut cpu = cpu_with(&[0x37, 0x3F, 0x3E, 0x01, 0x1F, 0x1F]);
    run(&mut cpu, 4);
    assert_eq!(cpu.registers().a, 0x00);
    assert_eq!(cpu.registers().f, 0x90);
    run(&mut cpu, 1);
    assert_eq!(cpu.registers().a, 0x80);
    assert_eq!(cpu.registers().f, 0x80);
}

#[test]
fn operand_past_end_of_memory_cannot_run() {
    // JP 0xFFFF; then LD BC,d16 at 0xFFFF has no room for its operand
    let mut cpu = cpu_with(&[0xC3, 0xFF, 0xFF]);
    run(&mut cpu, 1);
    assert_eq!(cpu.registers().pc, 0xFFFF);
    assert!(!cpu.can_run_cycle());
}

#[test]
fn daa_adjusts_bcd_sum() {
    // SCF; CCF; LD A,0x45; ADD A,0x38 (= 0x7D); DAA (= 0x83)
    let mut cpu = cpu_with(&[0x37, 0x3F, 0x3E, 0x45, 0xC6, 0x38, 0x27]);
    run(&mut cpu, 5);
    assert_eq!(cpu.registers().a, 0x83);
    assert!(!cpu.flag_is_active(Flags::Carry));
    assert!(!cpu.flag_is_active(Flags::Zero));
}

#[test]
fn cpl_complements_a() {
    // LD A,0x35; CPL
    let mut cpu = cpu_with(&[0x3E, 0x35, 0x2F]);
    run(&mut cpu, 2);
    assert_eq!(cpu.registers().a, 0xCA);
    assert!(cpu.flag_is_active(Flags::Negative));
    assert!(cpu.flag_is_active(Flags::HalfCarry));
}

#[test]
fn rotates_of_a() {
    // LD A,0x81; RLCA; RRCA
    let mut cpu = cpu_with(&[0x3E, 0x81, 0x07, 0x0F]);
    run(&mut cpu, 2);
    assert_eq!(cpu.registers().a, 0x03);
    assert_eq!(cpu.registers().f, 0x10);
    run(&mut cpu, 1);
    assert_eq!(cpu.registers().a, 0x81);
    assert_eq!(cpu.registers().f, 0x10);
}

#[test]
fn cb_swap_and_bit_ops() {
    // LD B,0x12; SWAP B; SET 7,B; RES 0,B; BIT 7,B
    let mut cpu = cpu_with(&[0x06, 0x12, 0xCB, 0x30, 0xCB, 0xF8, 0xCB, 0x80, 0xCB, 0x78]);
    run(&mut cpu, 2);
    assert_eq!(cpu.registers().b, 0x21);
    assert_eq!(cpu.registers().f, 0x00);
    run(&mut cpu, 1);
    assert_eq!(cpu.registers().b, 0xA1);
    run(&mut cpu, 1);
    assert_eq!(cpu.registers().b, 0xA0);
    run(&mut cpu, 1);
    // bit 7 is set: Z is clear, H is set
    assert!(!cpu.flag_is_active(Flags::Zero));
    assert!(cpu.flag_is_active(Flags::HalfCarry));
}

#[test]
fn cb_bit_of_clear_bit_sets_zero() {
    // LD C,0x00; BIT 3,C
    let mut cpu = cpu_with(&[0x0E, 0x00, 0xCB, 0x59]);
    run(&mut cpu, 2);
    assert!(cpu.flag_is_active(Flags::Zero));
}

#[test]
fn cb_shift_through_memory_at_hl() {
    // LD HL,0xC000; LD (HL),0x81; SRL (HL)
    let mut cpu = cpu_with(&[0x21, 0x00, 0xC0, 0x36, 0x81, 0xCB, 0x3E]);
    run(&mut cpu, 3);
    assert_eq!(cpu.bus.read_byte(0xC000), 0x40);
    assert!(cpu.flag_is_active(Flags::Carry));
}

#[test]
fn push_and_pop_round_trip_in_working_ram() {
    // LD SP,0xD000; LD BC,0xBEEF; PUSH BC; POP DE
    let mut cpu = cpu_with(&[0x31, 0x00, 0xD0, 0x01, 0xEF, 0xBE, 0xC5, 0xD1]);
    run(&mut cpu, 3);
    assert_eq!(cpu.registers().sp, 0xCFFE);
    assert_eq!(cpu.bus.read_word(0xCFFE), 0xBEEF);
    run(&mut cpu, 1);
    let r = cpu.registers();
    assert_eq!((r.d, r.e, r.sp), (0xBE, 0xEF, 0xD000));
}

#[test]
fn push_and_pop_in_high_ram_alias() {
    // at the power-on SP the two bytes of a pushed word share one byte of high RAM
    // LD BC,0x1234; PUSH BC; POP DE
    let mut cpu = cpu_with(&[0x01, 0x34, 0x12, 0xC5, 0xD1]);
    run(&mut cpu, 3);
    let r = cpu.registers();
    assert_eq!((r.d, r.e, r.sp), (0x12, 0x12, 0xFFFE));
}

#[test]
fn call_and_return() {
    // LD SP,0xD000; CALL 0x0200 ... at 0x0200: RET
    let mut rom = rom_with(&[0x31, 0x00, 0xD0, 0xCD, 0x00, 0x02]);
    rom[0x200] = 0xC9;
    let mut cpu = Cpu::new(rom);
    run(&mut cpu, 2);
    assert_eq!(cpu.registers().pc, 0x0200);
    assert_eq!(cpu.registers().sp, 0xCFFE);
    assert_eq!(cpu.bus.read_word(0xCFFE), 0x0106);
    run(&mut cpu, 1);
    assert_eq!(cpu.registers().pc, 0x0106);
    assert_eq!(cpu.registers().sp, 0xD000);
}

#[test]
fn relative_jumps() {
    // JR NZ,+2 is not taken (Z set at power-on): PC skips its operand
    let mut cpu = cpu_with(&[0x20, 0x02]);
    run(&mut cpu, 1);
    assert_eq!(cpu.registers().pc, 0x0102);
    // JR Z,-2 is taken: back to 0x0100
    let mut cpu = cpu_with(&[0x28, 0xFE]);
    run(&mut cpu, 1);
    assert_eq!(cpu.registers().pc, 0x0100);
    // JR counts its offset from the instruction after it, as JR cc does
    let mut cpu = cpu_with(&[0x18, 0x05]);
    run(&mut cpu, 1);
    assert_eq!(cpu.registers().pc, 0x0107);
    let mut cpu = cpu_with(&[0x18, 0xFE]);
    run(&mut cpu, 1);
    assert_eq!(cpu.registers().pc, 0x0100);
}

#[test]
fn rst_pushes_and_jumps() {
    // LD SP,0xD000; RST 0x28
    let mut cpu = cpu_with(&[0x31, 0x00, 0xD0, 0xEF]);
    run(&mut cpu, 2);
    assert_eq!(cpu.registers().pc, 0x0028);
    assert_eq!(cpu.bus.read_word(0xCFFE), 0x0104);
}

#[test]
fn pop_af_clears_low_nibble() {
    // LD SP,0xD000; LD BC,0x12FF; PUSH BC; POP AF
    let mut cpu = cpu_with(&[0x31, 0x00, 0xD0, 0x01, 0xFF, 0x12, 0xC5, 0xF1]);
    run(&mut cpu, 4);
    let r = cpu.registers();
    assert_eq!((r.a, r.f), (0x12, 0xF0));
}

#[test]
fn load_between_registers_and_memory() {
    // LD HL,0xC010; LD A,0x5A; LD (HL),A; LD B,(HL); LD (HL+),A; LD A,(HL-)
    let mut cpu = cpu_with(&[0x21, 0x10, 0xC0, 0x3E, 0x5A, 0x77, 0x46, 0x22, 0x3A]);
    run(&mut cpu, 4);
    assert_eq!(cpu.bus.read_byte(0xC010), 0x5A);
    assert_eq!(cpu.registers().b, 0x5A);
    run(&mut cpu, 1);
    assert_eq!(cpu.registers().l, 0x11);
    run(&mut cpu, 1);
    assert_eq!(cpu.registers().l, 0x10);
    assert_eq!(cpu.registers().a, 0x00);
}

#[test]
fn add_hl_and_16_bit_counters() {
    // LD HL,0x0FFF; LD BC,0x0001; ADD HL,BC; INC SP; DEC DE
    let mut cpu = cpu_with(&[0x21, 0xFF, 0x0F, 0x01, 0x01, 0x00, 0x09, 0x33, 0x1B]);
    run(&mut cpu, 5);
    let r = cpu.registers();
    assert_eq!((r.h, r.l), (0x10, 0x00));
    assert_eq!(r.sp, 0xFFFF);
    assert_eq!((r.d, r.e), (0x00, 0xD7));
    assert!(cpu.flag_is_active(Flags::HalfCarry));
    assert!(!cpu.flag_is_active(Flags::Carry));
}

#[test]
fn high_page_loads() {
    // LD A,0x77; LDH (0x80),A; LD C,0x80; LD A,0x00; LD A,(C)
    let mut cpu = cpu_with(&[0x3E, 0x77, 0xE0, 0x80, 0x0E, 0x80, 0x3E, 0x00, 0xF2]);
    run(&mut cpu, 5);
    assert_eq!(cpu.registers().a, 0x77);
    assert_eq!(cpu.bus.read_byte(0xFF80), 0x77);
}

#[test]
fn halt_stops_the_cpu() {
    let mut cpu = cpu_with(&[0x76, 0x00]);
    run(&mut cpu, 1);
    assert!(cpu.is_halted());
    let pc = cpu.registers().pc;
    let report = cpu.run_cycle();
    assert!(!report.executed);
    assert_eq!(cpu.registers().pc, pc);
}

#[test]
fn unknown_opcode_is_reported() {
    let mut cpu = cpu_with(&[0xD3]);
    let report = cpu.run_cycle();
    assert!(report.executed);
    assert!(!report.recognized);
    assert_eq!(report.opcode, 0xD3);
    assert_eq!(cpu.registers().pc, 0x0101);
}

#[test]
fn interrupts_enable_and_disable() {
    // EI; DI
    let mut cpu = cpu_with(&[0xFB, 0xF3]);
    run(&mut cpu, 2);
    assert_eq!(cpu.registers().pc, 0x0102);
}

#[test]
fn timer_interrupt_jumps_to_handler() {
    // LD SP,0xD000; LD A,0xFF; LDH (0x05),A (TIMA); LD A,0x05; LDH (0x07),A (TAC: on, 4 cycles);
    // EI; NOP ...
    let mut cpu = cpu_with(&[
        0x31, 0x00, 0xD0, 0x3E, 0xFF, 0xE0, 0x05, 0x3E, 0x05, 0xE0, 0x07, 0xFB, 0x00, 0x00, 0x00,
    ]);
    let mut interrupted = false;
    for _ in 0..12 {
        assert!(cpu.can_run_cycle());
        let report = cpu.run_cycle();
        if report.interrupted {
            interrupted = true;
            break;
        }
    }
    assert!(interrupted);
    assert_eq!(cpu.registers().pc, 0x0040);
    assert_eq!(cpu.registers().sp, 0xCFFE);
}

#[test]
fn interrupt_with_no_stack_room_cannot_run() {
    // LD SP,0x0001; LD A,0xFF; LDH (0x05),A; LD A,0x05; LDH (0x07),A; EI
    let mut cpu = cpu_with(&[0x31, 0x01, 0x00, 0x3E, 0xFF, 0xE0, 0x05, 0x3E, 0x05, 0xE0, 0x07, 0xFB]);
    run(&mut cpu, 5);
    // EI enables interrupts and the timer overflows in the same cycle
    assert!(!cpu.can_run_cycle());
}

#[test]
fn rotate_through_carry_and_back() {
    // SCF; CCF; LD D,0x80; RL D; RR D
    let mut cpu = cpu_with(&[0x37, 0x3F, 0x16, 0x80, 0xCB, 0x12, 0xCB, 0x1A]);
    run(&mut cpu, 4);
    assert_eq!(cpu.registers().d, 0x00);
    assert!(cpu.flag_is_active(Flags::Carry));
    assert!(cpu.flag_is_active(Flags::Zero));
    run(&mut cpu, 1);
    assert_eq!(cpu.registers().d, 0x80);
    assert!(!cpu.flag_is_active(Flags::Carry));
}

#[test]
fn low_nibble_of_f_stays_clear() {
    // LD SP,0xD000; LD BC,0x00FF; PUSH BC; POP AF; CCF; SCF; DAA; CPL
    let mut cpu = cpu_with(&[0x31, 0x00, 0xD0, 0x01, 0xFF, 0x00, 0xC5, 0xF1, 0x3F, 0x37, 0x27, 0x2F]);
    for _ in 0..8 {
        run(&mut cpu, 1);
        assert_eq!(cpu.registers().f & 0x0F, 0);
    }
}

#[test]
fn sra_keeps_sign_and_sla_shifts_in_zero() {
    // LD E,0x81; SRA E; SLA E
    let mut cpu = cpu_with(&[0x1E, 0x81, 0xCB, 0x2B, 0xCB, 0x23]);
    run(&mut cpu, 2);
    assert_eq!(cpu.registers().e, 0xC0);
    assert!(cpu.flag_is_active(Flags::Carry));
    run(&mut cpu, 1);
    assert_eq!(cpu.registers().e, 0x80);
    assert!(cpu.flag_is_active(Flags::Carry));
}

#[test]
fn add_sp_and_ld_hl_sp_offsets() {
    // LD SP,0xD00F; ADD SP,+1; LD HL,SP-1; ADD SP,-2
    let mut cpu = cpu_with(&[0x31, 0x0F, 0xD0, 0xE8, 0x01, 0xF8, 0xFF, 0xE8, 0xFE]);
    run(&mut cpu, 2);
    assert_eq!(cpu.registers().sp, 0xD010);
    assert!(cpu.flag_is_active(Flags::HalfCarry));
    assert!(!cpu.flag_is_active(Flags::Zero));
    run(&mut cpu, 1);
    let r = cpu.registers();
    assert_eq!((r.h, r.l), (0xD0, 0x0F));
    assert_eq!(r.sp, 0xD010);
    run(&mut cpu, 1);
    assert_eq!(cpu.registers().sp, 0xD00E);
}

#[test]
fn store_sp_at_address() {
    // LD (0xC100),SP
    let mut cpu = cpu_with(&[0x08, 0x00, 0xC1]);
    run(&mut cpu, 1);
    assert_eq!(cpu.bus.read_word(0xC100), 0xFFFE);
}

#[test]
fn cb_bit_of_set_bit_clears_zero() {
    // Z is set at power-on; LD B,0x01; BIT 0,B
    let mut cpu = cpu_with(&[0x06, 0x01, 0xCB, 0x40]);
    assert!(cpu.flag_is_active(Flags::Zero));
    run(&mut cpu, 2);
    assert!(!cpu.flag_is_active(Flags::Zero));
    assert!(cpu.flag_is_active(Flags::HalfCarry));
    assert!(!cpu.flag_is_active(Flags::Negative));
    assert!(cpu.flag_is_active(Flags::Carry));
}

#[test]
fn jr_at_end_of_memory_cannot_run() {
    // JR stored at 0xFFFE; JP 0xFFFE; its offset would lie past 0xFFFF
    let mut cpu = cpu_with(&[0xC3, 0xFE, 0xFF]);
    cpu.bus.write_byte(0xFFFE, 0x18);
    run(&mut cpu, 1);
    assert_eq!(cpu.registers().pc, 0xFFFE);
    assert!(!cpu.can_run_cycle());
}
