//! The CPU: fetches, decodes and executes instructions over the bus.
//!
//! The memory interface addresses 65536 bytes (a 16-bit bus); programs are
//! read through the same bus as data, and an instruction is one to three
//! bytes long. Timings are in M-cycles, four clock ticks of the 4.19 MHz
//! clock each.
use vstd::prelude::*;

use crate::alu::{
    lemma_byte_ops, lemma_carry_in, lemma_carry_in_high, lemma_daa_adjust, lemma_high_page,
    lemma_low_bits, lemma_shift_left, lemma_signed_byte, lemma_word_ops,
};
use crate::bus::Bus;
use crate::instructions::CpuView;
use crate::register::{lemma_flag_update, lemma_flags_of_byte, Flags, Register};

verus! {

/// The CPU together with the bus it drives.
pub struct Cpu {
    reg: Register,
    pub bus: Bus,
    // M-cycles of the last instruction
    m: u8,
    halted: bool,
    should_interrupt: bool,
}

/// What one call of `run_cycle` did.
#[derive(Clone, Copy, Debug, PartialEq, Eq, Structural)]
pub struct CycleReport {
    /// False when the CPU was halted and nothing ran.
    pub executed: bool,
    /// The opcode that was fetched.
    pub opcode: u8,
    /// False when the opcode is not one the CPU executes.
    pub recognized: bool,
    /// Whether the timer interrupt was taken after the instruction.
    pub interrupted: bool,
}

impl View for Cpu {
    type V = CpuView;

    closed spec fn view(&self) -> CpuView {
        CpuView {
            reg: self.reg,
            bus: self.bus@,
            m: self.m,
            halted: self.halted,
            should_interrupt: self.should_interrupt,
        }
    }
}

impl Cpu {
    /// A CPU at power-on over a bus holding the ROM image `rom`.
    pub fn new(rom: Vec<u8>) -> (cpu: Cpu)
        ensures
            cpu@.reg == Register::power_on(),
            cpu@.bus == crate::bus::BusView::power_on(rom@),
            cpu@.m == 0,
            !cpu@.halted,
            !cpu@.should_interrupt,
            cpu@.wf(),
    {
        Cpu {
            reg: Register::new(),
            bus: Bus::new(rom),
            m: 0,
            halted: false,
            should_interrupt: false,
        }
    }

    /// The bus, with its view tied to this CPU's view.
    pub fn bus(&self) -> (b: &Bus)
        ensures
            b@ == self@.bus,
    {
        &self.bus
    }

    /// The bus for writing; the CPU's view afterwards holds what the bus
    /// holds then.
    pub fn bus_mut(&mut self) -> (b: &mut Bus)
        ensures
            b@ == old(self)@.bus,
            final(self)@ == (CpuView { bus: final(b)@, ..old(self)@ }),
    {
        &mut self.bus
    }

    /// A copy of the register file.
    pub fn registers(&self) -> (r: Register)
        ensures
            r == self@.reg,
    {
        self.reg
    }

    /// Whether the CPU has executed HALT.
    pub fn is_halted(&self) -> (h: bool)
        ensures
            h == self@.halted,
    {
        self.halted
    }

    // --------------------------- UTIL -----------------------------------------------
    fn read_byte(&mut self) -> (byte: u8)
        requires
            old(self)@.wf(),
            old(self)@.reg.pc < 0xFFFF,
        ensures
            byte == old(self)@.imm8(),
            final(self)@ == old(self)@.with_pc(old(self)@.reg.pc + 1),
    {
        let byte = self.bus.read_byte(self.reg.pc);
        self.reg.pc += 1;
        byte
    }

    fn read_word(&mut self) -> (word: u16)
        requires
            old(self)@.wf(),
            old(self)@.reg.pc <= 0xFFFD,
        ensures
            word == old(self)@.imm16(),
            final(self)@ == old(self)@.with_pc(old(self)@.reg.pc + 2),
    {
        let word = self.bus.read_word(self.reg.pc);
        self.reg.pc += 2;
        word
    }

    // ALU
    // increment register by 1
    fn inc_reg(&mut self, register: u8) -> (result: u8)
        ensures
            result == crate::alu::inc8(register),
            final(self)@ == old(self)@.inc_reg(register),
    {
        proof {
            lemma_byte_ops(register);
        }
        let result = register.wrapping_add(1);
        self.set_flag_on_if(Flags::Zero, result == 0);
        self.unset_flag(Flags::Negative);
        self.set_flag_on_if(Flags::HalfCarry, (register & 0x0F) + 1 > 0x0F);
        result
    }

    // decrement register by 1
    fn dec_reg(&mut self, register: u8) -> (result: u8)
        ensures
            result == crate::alu::dec8(register),
            final(self)@ == old(self)@.dec_reg(register),
    {
        proof {
            lemma_byte_ops(register);
        }
        let result = register.wrapping_sub(1);
        self.set_flag_on_if(Flags::Zero, result == 0);
        self.set_flag(Flags::Negative);
        self.set_flag_on_if(Flags::HalfCarry, (register & 0x0F) == 0);
        result
    }

    fn add16(&mut self, register: u16)
        ensures
            final(self)@ == old(self)@.add16(register),
    {
        let hl = self.reg.get_hl();
        proof {
            lemma_word_ops(hl);
            lemma_word_ops(register);
        }
        let result = hl.wrapping_add(register);
        self.unset_flag(Flags::Negative);
        self.set_flag_on_if(Flags::Carry, hl > 0xFFFF - register);
        self.set_flag_on_if(Flags::HalfCarry, (hl & 0x07FF) + (register & 0x07FF) > 0x07FF);
        assert(result == (hl + register) % 65536);
        self.reg.set_hl(result);
    }

    fn add16_imm(&mut self, register: u16) -> (result: u16)
        requires
            old(self)@.wf(),
            old(self)@.reg.pc < 0xFFFF,
        ensures
            result == old(self)@.add16_imm_value(register),
            final(self)@ == old(self)@.add16_imm(register),
    {
        let byte = self.read_byte();
        proof {
            lemma_signed_byte(byte, 0);
            lemma_word_ops(register);
            lemma_word_ops(crate::alu::sign_extend(byte));
        }
        let value = byte as i8 as i16 as u16;
        self.unset_flag(Flags::Negative);
        self.unset_flag(Flags::Zero);
        self.set_flag_on_if(Flags::HalfCarry, (register & 0x000F) + (value & 0x000F) > 0x000F);
        self.set_flag_on_if(Flags::Carry, (register & 0x00FF) + (value & 0x00FF) > 0x00FF);
        register.wrapping_add(value)
    }

    // STACK OPERATIONS
    pub fn push_stack(&mut self, value: u16)
        requires
            old(self)@.wf(),
            old(self)@.reg.sp >= 2,
        ensures
            final(self)@ == old(self)@.pushed(value),
            final(self)@.wf(),
    {
        self.reg.sp -= 2;
        self.bus.write_word(self.reg.sp, value);
    }

    pub fn pop_stack(&mut self) -> (value: u16)
        requires
            old(self)@.wf(),
            old(self)@.reg.sp < 0xFFFF,
        ensures
            value == old(self)@.top(),
            final(self)@ == old(self)@.popped(),
    {
        let value = self.bus.read_word(self.reg.sp);
        self.reg.sp = self.reg.sp.wrapping_add(2);
        value
    }

    /// Clears all four flags.
    pub fn reset_flags(&mut self)
        ensures
            final(self)@ == old(self)@.with_flags(crate::alu::carry_only(false)),
            final(self)@.reg.f == 0,
            final(self)@.flags() == crate::alu::carry_only(false),
    {
        proof {
            lemma_flag_update(self.reg.f);
            lemma_flags_of_byte(crate::alu::carry_only(false));
        }
        self.reg.f &= 0x80;
        self.reg.f &= 0x20;
        self.reg.f &= 0x10;
    }

    /// Sets `flag`, keeping the other flags.
    pub fn set_flag(&mut self, flag: Flags)
        ensures
            final(self)@ == old(self)@.with_flags(old(self)@.flags().with(flag, true)),
            final(self)@.flags() == old(self)@.flags().with(flag, true),
    {
        proof {
            lemma_flag_update(self.reg.f);
            lemma_flags_of_byte(old(self)@.flags().with(flag, true));
        }
        self.reg.f |= flag.bit();
        self.reg.f &= 0xF0;
    }

    /// Clears `flag`, keeping the other flags.
    pub fn unset_flag(&mut self, flag: Flags)
        ensures
            final(self)@ == old(self)@.with_flags(old(self)@.flags().with(flag, false)),
            final(self)@.flags() == old(self)@.flags().with(flag, false),
    {
        proof {
            lemma_flag_update(self.reg.f);
            lemma_flags_of_byte(old(self)@.flags().with(flag, false));
        }
        self.reg.f &= !flag.bit();
        self.reg.f &= 0xF0;
    }

    /// Whether `flag` is set.
    pub fn flag_is_active(&self, flag: Flags) -> (active: bool)
        ensures
            active == self@.flags().get(flag),
    {
        self.reg.f & flag.bit() == flag.bit()
    }

    fn set_flag_on_if(&mut self, flag: Flags, condition: bool)
        ensures
            final(self)@ == old(self)@.with_flags(old(self)@.flags().with(flag, condition)),
            final(self)@.flags() == old(self)@.flags().with(flag, condition),
    {
        if condition {
            self.set_flag(flag);
        } else {
            self.unset_flag(flag);
        }
    }

    fn get_src_register(&self, src_register: u8) -> (value: u8)
        requires
            self@.wf(),
            src_register < 8,
        ensures
            value == self@.r8(src_register),
    {
        match src_register {
            0 => self.reg.b,
            1 => self.reg.c,
            2 => self.reg.d,
            3 => self.reg.e,
            4 => self.reg.h,
            5 => self.reg.l,
            6 => self.bus.read_byte(self.reg.get_hl()),
            _ => self.reg.a,
        }
    }

    /// Stores `value` in operand `dest_register` (B, C, D, E, H, L, (HL), A).
    fn put_register(&mut self, dest_register: u8, value: u8)
        requires
            old(self)@.wf(),
            dest_register < 8,
        ensures
            final(self)@ == old(self)@.with_r8(dest_register, value),
            final(self)@.wf(),
    {
        match dest_register {
            0 => self.reg.b = value,
            1 => self.reg.c = value,
            2 => self.reg.d = value,
            3 => self.reg.e = value,
            4 => self.reg.h = value,
            5 => self.reg.l = value,
            6 => {
                let hl = self.reg.get_hl();
                self.bus.write_byte(hl, value);
            },
            _ => self.reg.a = value,
        }
    }

    fn set_register(&mut self, dest_register: u8, src_register: u8)
        requires
            old(self)@.wf(),
            dest_register < 8,
            src_register < 8,
        ensures
            final(self)@ == old(self)@.with_r8(dest_register, old(self)@.r8(src_register)),
            final(self)@.wf(),
    {
        let value = self.get_src_register(src_register);
        self.put_register(dest_register, value);
    }
    // rotate register left
    pub fn cb_rlc(&mut self, register: u8) -> (reg: u8)
        ensures
            reg == crate::alu::rlc8(register),
            final(self)@ == old(self)@.with_m(2).with_flags(
                crate::alu::shift_flags(reg, register >= 128),
            ),
    {
        proof {
            lemma_byte_ops(register);
            lemma_carry_in(register, if register >= 128 { 1 } else { 0 });
        }
        self.m = 2;
        let carry = if register & 0x80 == 0x80 {
            1
        } else {
            0
        };
        let reg = register << 1 | carry;
        self.set_flag_on_if(Flags::Zero, reg == 0);
        self.unset_flag(Flags::Negative);
        self.unset_flag(Flags::HalfCarry);
        self.set_flag_on_if(Flags::Carry, register & 0x80 == 0x80);
        reg
    }

    // rotate register right
    pub fn cb_rrc(&mut self, register: u8) -> (reg: u8)
        ensures
            reg == crate::alu::rrc8(register),
            final(self)@ == old(self)@.with_m(2).with_flags(
                crate::alu::shift_flags(reg, register % 2 == 1),
            ),
    {
        proof {
            lemma_byte_ops(register);
            lemma_carry_in_high(register, if register % 2 == 1 { 0x80 } else { 0 });
        }
        self.m = 2;
        let carry = if register & 0x01 == 0x01 {
            0x80
        } else {
            0
        };
        let reg = register >> 1 | carry;
        self.set_flag_on_if(Flags::Zero, reg == 0);
        self.unset_flag(Flags::Negative);
        self.unset_flag(Flags::HalfCarry);
        self.set_flag_on_if(Flags::Carry, register & 0x01 == 0x01);
        reg
    }

    // rotate bits in register left through carry
    pub fn cb_rl(&mut self, register: u8) -> (reg: u8)
        ensures
            reg == crate::alu::rl8(register, old(self)@.flags().carry),
            final(self)@ == old(self)@.with_m(2).with_flags(
                crate::alu::shift_flags(reg, register >= 128),
            ),
    {
        proof {
            lemma_byte_ops(register);
            lemma_carry_in(register, if old(self)@.flags().carry { 1 } else { 0 });
        }
        self.m = 2;
        let reg = register << 1 | if self.flag_is_active(Flags::Carry) {
            1
        } else {
            0
        };
        self.set_flag_on_if(Flags::Zero, reg == 0);
        self.unset_flag(Flags::Negative);
        self.unset_flag(Flags::HalfCarry);
        self.set_flag_on_if(Flags::Carry, register & 0x80 == 0x80);
        reg
    }

    // rotate bits in register right through carry
    pub fn cb_rr(&mut self, register: u8) -> (reg: u8)
        ensures
            reg == crate::alu::rr8(register, old(self)@.flags().carry),
            final(self)@ == old(self)@.with_m(2).with_flags(
                crate::alu::shift_flags(reg, register % 2 == 1),
            ),
    {
        proof {
            lemma_byte_ops(register);
            lemma_carry_in_high(register, if old(self)@.flags().carry { 0x80 } else { 0 });
        }
        self.m = 2;
        let reg = register >> 1 | if self.flag_is_active(Flags::Carry) {
            0x80
        } else {
            0
        };
        self.set_flag_on_if(Flags::Zero, reg == 0);
        self.unset_flag(Flags::Negative);
        self.unset_flag(Flags::HalfCarry);
        self.set_flag_on_if(Flags::Carry, register & 0x01 == 0x01);
        reg
    }

    // shift left arithmetically
    fn cb_sla(&mut self, register: u8) -> (reg: u8)
        ensures
            reg == crate::alu::sla8(register),
            final(self)@ == old(self)@.with_m(2).with_flags(
                crate::alu::shift_flags(reg, register >= 128),
            ),
    {
        proof {
            lemma_byte_ops(register);
            lemma_shift_left(register);
        }
        self.m = 2;
        let reg = register << 1;
        self.unset_flag(Flags::Negative);
        self.unset_flag(Flags::HalfCarry);
        self.set_flag_on_if(Flags::Zero, reg == 0);
        self.set_flag_on_if(Flags::Carry, register & 0x80 == 0x80);
        reg
    }

    // shift right arithmetically: bit 7 is kept
    fn cb_sra(&mut self, register: u8) -> (reg: u8)
        ensures
            reg == crate::alu::sra8(register),
            final(self)@ == old(self)@.with_m(2).with_flags(
                crate::alu::shift_flags(reg, register % 2 == 1),
            ),
    {
        proof {
            lemma_byte_ops(register);
        }
        self.m = 2;
        let reg = (register >> 1) | (register & 0x80);
        self.unset_flag(Flags::Negative);
        self.unset_flag(Flags::HalfCarry);
        self.set_flag_on_if(Flags::Zero, reg == 0);
        self.set_flag_on_if(Flags::Carry, register & 0x01 == 0x01);
        reg
    }

    // swap upper 4 bits with the lower 4 in the register
    pub fn cb_swap(&mut self, register: u8) -> (reg: u8)
        ensures
            reg == crate::alu::swap8(register),
            final(self)@ == old(self)@.with_flags(crate::alu::shift_flags(register, false)),
    {
        proof {
            lemma_byte_ops(register);
        }
        let upper = register >> 4;
        let lower = register << 4;
        let reg = upper | lower;
        self.reset_flags();
        self.set_flag_on_if(Flags::Zero, register == 0);
        reg
    }

    // shift right logically: bit 7 becomes 0
    fn cb_srl(&mut self, register: u8) -> (reg: u8)
        ensures
            reg == crate::alu::srl8(register),
            final(self)@ == old(self)@.with_m(2).with_flags(
                crate::alu::shift_flags(reg, register % 2 == 1),
            ),
    {
        proof {
            lemma_byte_ops(register);
        }
        self.m = 2;
        let reg = register >> 1;
        self.unset_flag(Flags::Negative);
        self.unset_flag(Flags::HalfCarry);
        self.set_flag_on_if(Flags::Zero, reg == 0);
        self.set_flag_on_if(Flags::Carry, register & 0x01 == 0x01);
        reg
    }

    // test bit n in register: the zero flag is set if the bit is not set, cleared otherwise
    fn cb_bit(&mut self, bit: u8, register: u8)
        requires
            bit < 8,
        ensures
            final(self)@ == old(self)@.cb_bit_op_value(bit, register),
    {
        self.m = 2;
        self.set_flag_on_if(Flags::Zero, register & (1 << bit) == 0);
        self.unset_flag(Flags::Negative);
        self.set_flag(Flags::HalfCarry);
    }

    // set bit n in register to 0
    fn cb_res(&mut self, bit: u8, register: u8) -> (r: u8)
        requires
            bit < 8,
        ensures
            r == crate::alu::res8(register, bit),
            final(self)@ == old(self)@.with_m(2),
    {
        self.m = 2;
        register & !(1 << bit)
    }

    // set bit n in register to 1
    fn cb_set(&mut self, bit: u8, register: u8) -> (r: u8)
        requires
            bit < 8,
        ensures
            r == crate::alu::set8(register, bit),
            final(self)@ == old(self)@.with_m(2),
    {
        self.m = 2;
        register | (1 << bit)
    }


    // --------------------------- OPCODES -----------------------------------------------
    // no operation
    fn nop(&mut self)
        ensures
            final(self)@ == old(self)@.nop(),
    {
        self.m = 1;
    }

    // load 2 bytes of data into register pair BC
    fn load_bc(&mut self)
        requires
            old(self)@.wf(),
            old(self)@.reg.pc <= 0xFFFD,
        ensures
            final(self)@ == old(self)@.load_bc(),
    {
        self.m = 3;
        let value = self.read_word();
        self.reg.set_bc(value);
    }

    // store register A at the address in BC
    fn load_bc_a(&mut self)
        requires
            old(self)@.wf(),
        ensures
            final(self)@ == old(self)@.load_bc_a(),
            final(self)@.wf(),
    {
        self.m = 2;
        let addr = self.reg.get_bc();
        self.bus.write_byte(addr, self.reg.a);
    }

    // increment register pair BC
    fn inc_bc(&mut self)
        ensures
            final(self)@ == old(self)@.inc_bc(),
    {
        self.m = 2;
        let value = self.reg.get_bc().wrapping_add(1);
        self.reg.set_bc(value);
    }

    // increment register B
    fn inc_b(&mut self)
        ensures
            final(self)@ == old(self)@.inc_r8(0),
    {
        self.m = 1;
        let value = self.reg.b;
        self.reg.b = self.inc_reg(value);
    }

    // decrement register B
    fn dec_b(&mut self)
        ensures
            final(self)@ == old(self)@.dec_r8(0),
    {
        self.m = 1;
        let value = self.reg.b;
        self.reg.b = self.dec_reg(value);
    }

    // increment register C
    fn inc_c(&mut self)
        ensures
            final(self)@ == old(self)@.inc_r8(1),
    {
        self.m = 1;
        let value = self.reg.c;
        self.reg.c = self.inc_reg(value);
    }

    // decrement register C
    fn dec_c(&mut self)
        ensures
            final(self)@ == old(self)@.dec_r8(1),
    {
        self.m = 1;
        let value = self.reg.c;
        self.reg.c = self.dec_reg(value);
    }

    // increment register D
    fn inc_d(&mut self)
        ensures
            final(self)@ == old(self)@.inc_r8(2),
    {
        self.m = 1;
        let value = self.reg.d;
        self.reg.d = self.inc_reg(value);
    }

    // decrement register D
    fn dec_d(&mut self)
        ensures
            final(self)@ == old(self)@.dec_r8(2),
    {
        self.m = 1;
        let value = self.reg.d;
        self.reg.d = self.dec_reg(value);
    }

    // increment register E
    fn inc_e(&mut self)
        ensures
            final(self)@ == old(self)@.inc_r8(3),
    {
        self.m = 1;
        let value = self.reg.e;
        self.reg.e = self.inc_reg(value);
    }

    // decrement register E
    fn dec_e(&mut self)
        ensures
            final(self)@ == old(self)@.dec_r8(3),
    {
        self.m = 1;
        let value = self.reg.e;
        self.reg.e = self.dec_reg(value);
    }

    // increment register H
    fn inc_h(&mut self)
        ensures
            final(self)@ == old(self)@.inc_r8(4),
    {
        self.m = 1;
        let value = self.reg.h;
        self.reg.h = self.inc_reg(value);
    }

    // decrement register H
    fn dec_h(&mut self)
        ensures
            final(self)@ == old(self)@.dec_r8(4),
    {
        self.m = 1;
        let value = self.reg.h;
        self.reg.h = self.dec_reg(value);
    }

    // increment register L
    fn inc_l(&mut self)
        ensures
            final(self)@ == old(self)@.inc_r8(5),
    {
        self.m = 1;
        let value = self.reg.l;
        self.reg.l = self.inc_reg(value);
    }

    // decrement register L
    fn dec_l(&mut self)
        ensures
            final(self)@ == old(self)@.dec_r8(5),
    {
        self.m = 1;
        let value = self.reg.l;
        self.reg.l = self.dec_reg(value);
    }

    // increment register A
    fn inc_a(&mut self)
        ensures
            final(self)@ == old(self)@.inc_r8(7),
    {
        self.m = 1;
        let value = self.reg.a;
        self.reg.a = self.inc_reg(value);
    }

    // decrement register A
    fn dec_a(&mut self)
        ensures
            final(self)@ == old(self)@.dec_r8(7),
    {
        self.m = 1;
        let value = self.reg.a;
        self.reg.a = self.dec_reg(value);
    }

    // load the byte after the opcode into register B
    fn load_b(&mut self)
        requires
            old(self)@.wf(),
            old(self)@.reg.pc < 0xFFFF,
        ensures
            final(self)@ == old(self)@.load_r8_imm(0),
    {
        self.m = 2;
        self.reg.b = self.read_byte();
    }

    // load the byte after the opcode into register C
    fn ld_c(&mut self)
        requires
            old(self)@.wf(),
            old(self)@.reg.pc < 0xFFFF,
        ensures
            final(self)@ == old(self)@.load_r8_imm(1),
    {
        self.m = 2;
        self.reg.c = self.read_byte();
    }

    // load the byte after the opcode into register D
    fn ld_d(&mut self)
        requires
            old(self)@.wf(),
            old(self)@.reg.pc < 0xFFFF,
        ensures
            final(self)@ == old(self)@.load_r8_imm(2),
    {
        self.m = 2;
        self.reg.d = self.read_byte();
    }

    // load the byte after the opcode into register E
    fn ld_e(&mut self)
        requires
            old(self)@.wf(),
            old(self)@.reg.pc < 0xFFFF,
        ensures
            final(self)@ == old(self)@.load_r8_imm(3),
    {
        self.m = 2;
        self.reg.e = self.read_byte();
    }

    // load the byte after the opcode into register H
    fn ld_h(&mut self)
        requires
            old(self)@.wf(),
            old(self)@.reg.pc < 0xFFFF,
        ensures
            final(self)@ == old(self)@.load_r8_imm(4),
    {
        self.m = 2;
        self.reg.h = self.read_byte();
    }

    // load the byte after the opcode into register L
    fn ld_l(&mut self)
        requires
            old(self)@.wf(),
            old(self)@.reg.pc < 0xFFFF,
        ensures
            final(self)@ == old(self)@.load_r8_imm(5),
    {
        self.m = 2;
        self.reg.l = self.read_byte();
    }

    // load the byte after the opcode into register A
    fn ld_a_byte(&mut self)
        requires
            old(self)@.wf(),
            old(self)@.reg.pc < 0xFFFF,
        ensures
            final(self)@ == old(self)@.load_r8_imm(7),
    {
        self.m = 2;
        self.reg.a = self.read_byte();
    }

    // rotate register A left; bit 7 goes to bit 0 and to the carry
    fn rlca(&mut self)
        ensures
            final(self)@ == old(self)@.rlca(),
    {
        proof {
            lemma_byte_ops(self.reg.a);
            lemma_carry_in(self.reg.a, if self.reg.a >= 128 { 1 } else { 0 });
        }
        self.m = 1;
        self.reset_flags();
        let carry = self.reg.a & 0x80 == 0x80;
        self.reg.a = (self.reg.a << 1) | (if carry {
            1
        } else {
            0
        });
        self.set_flag_on_if(Flags::Carry, carry);
    }

    // store the stack pointer at the address after the opcode
    fn load_sp_at_addr(&mut self)
        requires
            old(self)@.wf(),
            old(self)@.reg.pc <= 0xFFFD,
            old(self)@.imm16() < 0xFFFF,
        ensures
            final(self)@ == old(self)@.load_sp_at_addr(),
            final(self)@.wf(),
    {
        self.m = 5;
        let address = self.read_word();
        self.bus.write_word(address, self.reg.sp);
    }

    // add register pair BC to HL
    fn add_hl_bc(&mut self)
        ensures
            final(self)@ == old(self)@.with_m(2).add16(old(self)@.reg.bc()),
    {
        self.m = 2;
        let value = self.reg.get_bc();
        self.add16(value);
    }

    // load the byte at the address in BC into register A
    fn ld_a_bc(&mut self)
        requires
            old(self)@.wf(),
        ensures
            final(self)@ == old(self)@.ld_a_bc(),
    {
        self.m = 2;
        self.reg.a = self.bus.read_byte(self.reg.get_bc());
    }

    // decrement register pair BC
    fn dec_bc(&mut self)
        ensures
            final(self)@ == old(self)@.dec_bc(),
    {
        self.m = 2;
        let value = self.reg.get_bc().wrapping_sub(1);
        self.reg.set_bc(value);
    }

    // rotate register A right; bit 0 goes to bit 7 and to the carry
    fn rrca(&mut self)
        ensures
            final(self)@ == old(self)@.rrca(),
    {
        proof {
            lemma_byte_ops(self.reg.a);
            lemma_carry_in_high(self.reg.a, if self.reg.a % 2 == 1 { 0x80 } else { 0 });
        }
        self.m = 1;
        self.reset_flags();
        let carry = self.reg.a & 0x01 == 0x01;
        self.reg.a = (self.reg.a >> 1) | (if self.reg.a & 0x01 == 0x01 {
            0x80
        } else {
            0
        });
        self.set_flag_on_if(Flags::Carry, carry);
    }

    // stop the system clock: treated as no operation
    fn stop(&mut self)
        ensures
            final(self)@ == old(self)@.nop(),
    {
        self.nop()
    }

    // load 2 bytes of immediate data into register pair DE
    fn ld_de(&mut self)
        requires
            old(self)@.wf(),
            old(self)@.reg.pc <= 0xFFFD,
        ensures
            final(self)@ == old(self)@.ld_de(),
    {
        self.m = 3;
        let value = self.read_word();
        self.reg.set_de(value);
    }

    // store register A at the address in DE
    fn ld_a(&mut self)
        requires
            old(self)@.wf(),
        ensures
            final(self)@ == old(self)@.ld_a(),
            final(self)@.wf(),
    {
        self.m = 2;
        let addr = self.reg.get_de();
        self.bus.write_byte(addr, self.reg.a);
    }

    // increment register pair DE
    fn inc_de(&mut self)
        ensures
            final(self)@ == old(self)@.inc_de(),
    {
        self.m = 2;
        let value = self.reg.get_de().wrapping_add(1);
        self.reg.set_de(value);
    }

    // rotate register A left through the carry flag
    pub fn rla(&mut self)
        ensures
            final(self)@ == old(self)@.rla(),
    {
        let old_carry = self.flag_is_active(Flags::Carry);
        proof {
            lemma_byte_ops(self.reg.a);
            lemma_carry_in(self.reg.a, if old_carry { 1 } else { 0 });
        }
        self.m = 1;
        self.reset_flags();
        let carry = self.reg.a & 0x80 == 0x80;
        self.reg.a = (self.reg.a << 1) | (if old_carry {
            1
        } else {
            0
        });
        self.set_flag_on_if(Flags::Carry, carry);
    }

    // jump by the signed byte after the opcode
    fn jr(&mut self)
        requires
            old(self)@.wf(),
            old(self)@.reg.pc < 0xFFFF,
        ensures
            final(self)@ == old(self)@.jr(),
    {
        self.m = 3;
        let byte = self.read_byte();
        proof {
            lemma_signed_byte(byte, self.reg.pc);
        }
        let value = byte as i8;
        self.reg.pc = ((self.reg.pc as u32 as i32) + (value as i32)) as u16;
    }

    // add register pair DE to HL
    fn add_hl_de(&mut self)
        ensures
            final(self)@ == old(self)@.with_m(2).add16(old(self)@.reg.de()),
    {
        self.m = 2;
        let value = self.reg.get_de();
        self.add16(value);
    }

    // load the byte at the address in DE into register A
    fn ld_a_de(&mut self)
        requires
            old(self)@.wf(),
        ensures
            final(self)@ == old(self)@.ld_a_de(),
    {
        self.m = 2;
        self.reg.a = self.bus.read_byte(self.reg.get_de());
    }

    // decrement register pair DE
    fn dec_de(&mut self)
        ensures
            final(self)@ == old(self)@.dec_de(),
    {
        self.m = 2;
        let value = self.reg.get_de().wrapping_sub(1);
        self.reg.set_de(value);
    }

    // rotate register A right through the carry flag
    pub fn rra(&mut self)
        ensures
            final(self)@ == old(self)@.rra(),
    {
        let old_carry = self.flag_is_active(Flags::Carry);
        proof {
            lemma_byte_ops(self.reg.a);
            lemma_carry_in_high(self.reg.a, if old_carry { 0x80 } else { 0 });
        }
        self.m = 1;
        let carry = self.reg.a & 0x01 == 0x01;
        self.reg.a = (self.reg.a >> 1) | (if old_carry {
            0x80
        } else {
            0
        });
        self.set_flag_on_if(Flags::Carry, carry);
    }

    // jump by the signed byte after the opcode when `condition` holds
    fn jr_if(&mut self, condition: bool)
        requires
            old(self)@.wf(),
            old(self)@.reg.pc < 0xFFFF,
        ensures
            final(self)@ == old(self)@.jr_if(condition),
    {
        if condition {
            self.m = 3;
            let byte = self.read_byte();
            proof {
                lemma_signed_byte(byte, self.reg.pc);
            }
            let value = byte as i8;
            self.reg.pc = ((self.reg.pc as u32 as i32) + (value as i32)) as u16;
        } else {
            self.m = 2;
            self.reg.pc += 1;
        }
    }

    // jump if the zero flag is clear
    fn jr_nz(&mut self)
        requires
            old(self)@.wf(),
            old(self)@.reg.pc < 0xFFFF,
        ensures
            final(self)@ == old(self)@.jr_if(!old(self)@.flags().zero),
    {
        let condition = !self.flag_is_active(Flags::Zero);
        self.jr_if(condition);
    }

    // load 2 bytes of immediate data into register pair HL
    fn ld_hl(&mut self)
        requires
            old(self)@.wf(),
            old(self)@.reg.pc <= 0xFFFD,
        ensures
            final(self)@ == old(self)@.ld_hl(),
    {
        self.m = 3;
        let value = self.read_word();
        self.reg.set_hl(value);
    }

    // store register A at the address in HL, then increment HL
    fn ld_hl_inc_a(&mut self)
        requires
            old(self)@.wf(),
        ensures
            final(self)@ == old(self)@.ld_hl_inc_a(),
            final(self)@.wf(),
    {
        self.m = 2;
        let addr = self.reg.get_hl();
        self.bus.write_byte(addr, self.reg.a);
        self.reg.set_hl(self.reg.get_hl().wrapping_add(1));
    }

    // increment register pair HL
    fn inc_hl(&mut self)
        ensures
            final(self)@ == old(self)@.inc_hl(),
    {
        self.m = 2;
        let value = self.reg.get_hl().wrapping_add(1);
        self.reg.set_hl(value);
    }

    // decimal adjust A after an addition or subtraction of packed BCD values
    pub fn daa(&mut self)
        ensures
            final(self)@ == old(self)@.daa(),
    {
        proof {
            lemma_byte_ops(self.reg.a);
        }
        self.m = 1;
        let mut adjust: u8 = if self.flag_is_active(Flags::Carry) {
            0x60
        } else {
            0x00
        };
        if self.flag_is_active(Flags::HalfCarry) {
            proof {
                lemma_daa_adjust(adjust);
            }
            adjust |= 0x06;
        };
        if !self.flag_is_active(Flags::Negative) {
            if self.reg.a & 0x0F > 0x09 {
                proof {
                    lemma_daa_adjust(adjust);
                }
                adjust |= 0x06;
            };
            if self.reg.a > 0x99 {
                proof {
                    lemma_daa_adjust(adjust);
                }
                adjust |= 0x60;
            };
            self.reg.a = self.reg.a.wrapping_add(adjust);
        } else {
            // after a subtraction the adjustment is taken away
            proof {
                crate::alu::lemma_wrapping_sub(self.reg.a, adjust, 0);
            }
            self.reg.a = self.reg.a.wrapping_sub(adjust);
        }
        assert(adjust == old(self)@.daa_adjust());
        self.set_flag_on_if(Flags::Carry, adjust >= 0x60);
        self.set_flag_on_if(Flags::Zero, self.reg.a == 0);
        self.unset_flag(Flags::HalfCarry);
    }

    // jump if the zero flag is set
    fn jr_z(&mut self)
        requires
            old(self)@.wf(),
            old(self)@.reg.pc < 0xFFFF,
        ensures
            final(self)@ == old(self)@.jr_if(old(self)@.flags().zero),
    {
        let condition = self.flag_is_active(Flags::Zero);
        self.jr_if(condition);
    }

    // add register pair HL to HL
    fn add_hl_hl(&mut self)
        ensures
            final(self)@ == old(self)@.with_m(2).add16(old(self)@.reg.hl()),
    {
        self.m = 2;
        let value = self.reg.get_hl();
        self.add16(value);
    }

    // load the byte at the address in HL into A, then increment HL
    fn ld_a_hl_plus(&mut self)
        requires
            old(self)@.wf(),
        ensures
            final(self)@ == old(self)@.ld_a_hl_plus(),
    {
        self.m = 2;
        self.reg.a = self.bus.read_byte(self.reg.get_hl());
        self.reg.set_hl(self.reg.get_hl().wrapping_add(1));
    }

    // decrement register pair HL
    fn dec_hl(&mut self)
        ensures
            final(self)@ == old(self)@.dec_hl(),
    {
        self.m = 2;
        let value = self.reg.get_hl().wrapping_sub(1);
        self.reg.set_hl(value);
    }

    // complement register A
    fn cpl(&mut self)
        ensures
            final(self)@ == old(self)@.cpl(),
    {
        proof {
            lemma_byte_ops(self.reg.a);
        }
        self.m = 1;
        self.reg.a = !self.reg.a;
        self.set_flag(Flags::Negative);
        self.set_flag(Flags::HalfCarry);
    }

    // jump if the carry flag is clear
    fn jr_nc(&mut self)
        requires
            old(self)@.wf(),
            old(self)@.reg.pc < 0xFFFF,
        ensures
            final(self)@ == old(self)@.jr_if(!old(self)@.flags().carry),
    {
        let condition = !self.flag_is_active(Flags::Carry);
        self.jr_if(condition);
    }

    // load 2 bytes of immediate data into SP
    fn ld_sp(&mut self)
        requires
            old(self)@.wf(),
            old(self)@.reg.pc <= 0xFFFD,
        ensures
            final(self)@ == old(self)@.ld_sp(),
    {
        self.m = 3;
        self.reg.sp = self.read_word();
    }

    // store register A at the address in HL, then decrement HL
    fn ld_hlm_a(&mut self)
        requires
            old(self)@.wf(),
        ensures
            final(self)@ == old(self)@.ld_hlm_a(),
            final(self)@.wf(),
    {
        self.m = 2;
        let addr = self.reg.get_hl();
        self.bus.write_byte(addr, self.reg.a);
        self.reg.set_hl(self.reg.get_hl().wrapping_sub(1));
    }

    // increment SP
    fn inc_sp(&mut self)
        ensures
            final(self)@ == old(self)@.inc_sp(),
    {
        self.m = 2;
        self.reg.sp = self.reg.sp.wrapping_add(1);
    }

    // increment the byte at the address in HL
    fn inc_content_at_hl(&mut self)
        requires
            old(self)@.wf(),
        ensures
            final(self)@ == old(self)@.inc_content_at_hl(),
            final(self)@.wf(),
    {
        self.m = 3;
        let old_value = self.bus.read_byte(self.reg.get_hl());
        proof {
            lemma_byte_ops(old_value);
        }
        let value = old_value.wrapping_add(1);
        self.unset_flag(Flags::Negative);
        self.set_flag_on_if(Flags::Zero, value == 0);
        let half = (self.bus.read_byte(self.reg.get_hl()) & 0xF) + 1 > 0xF;
        self.set_flag_on_if(Flags::HalfCarry, half);
        let addr = self.reg.get_hl();
        self.bus.write_byte(addr, value);
    }

    // decrement the byte at the address in HL
    fn dec_content_at_hl(&mut self)
        requires
            old(self)@.wf(),
        ensures
            final(self)@ == old(self)@.dec_content_at_hl(),
            final(self)@.wf(),
    {
        self.m = 3;
        let old_value = self.bus.read_byte(self.reg.get_hl());
        proof {
            lemma_byte_ops(old_value);
        }
        let value = old_value.wrapping_sub(1);
        self.set_flag(Flags::Negative);
        self.set_flag_on_if(Flags::Zero, value == 0);
        let half = self.bus.read_byte(self.reg.get_hl()) & 0xF == 0;
        self.set_flag_on_if(Flags::HalfCarry, half);
        let addr = self.reg.get_hl();
        self.bus.write_byte(addr, value);
    }

    // store the byte after the opcode at the address in HL
    fn ld_hl_byte(&mut self)
        requires
            old(self)@.wf(),
            old(self)@.reg.pc < 0xFFFF,
        ensures
            final(self)@ == old(self)@.ld_hl_byte(),
            final(self)@.wf(),
    {
        self.m = 3;
        let value = self.read_byte();
        let addr = self.reg.get_hl();
        self.bus.write_byte(addr, value);
    }

    // set the carry flag
    fn scf(&mut self)
        ensures
            final(self)@ == old(self)@.scf(),
    {
        self.m = 1;
        self.set_flag(Flags::Carry);
        self.unset_flag(Flags::Negative);
        self.unset_flag(Flags::HalfCarry);
    }

    // jump if the carry flag is set
    fn jr_c(&mut self)
        requires
            old(self)@.wf(),
            old(self)@.reg.pc < 0xFFFF,
        ensures
            final(self)@ == old(self)@.jr_if(old(self)@.flags().carry),
    {
        let condition = self.flag_is_active(Flags::Carry);
        self.jr_if(condition);
    }

    // add SP to HL
    fn add_hl_sp(&mut self)
        ensures
            final(self)@ == old(self)@.with_m(2).add16(old(self)@.reg.sp),
    {
        self.m = 2;
        let value = self.reg.sp;
        self.add16(value);
    }

    // load the byte at the address in HL into A, then decrement HL
    fn ld_a_hl_dec(&mut self)
        requires
            old(self)@.wf(),
        ensures
            final(self)@ == old(self)@.ld_a_hl_dec(),
    {
        self.m = 2;
        self.reg.a = self.bus.read_byte(self.reg.get_hl());
        self.reg.set_hl(self.reg.get_hl().wrapping_sub(1));
    }

    // decrement SP
    fn dec_sp(&mut self)
        ensures
            final(self)@ == old(self)@.dec_sp(),
    {
        self.m = 2;
        self.reg.sp = self.reg.sp.wrapping_sub(1);
    }

    // flip the carry flag
    fn ccf(&mut self)
        ensures
            final(self)@ == old(self)@.ccf(),
    {
        self.m = 1;
        self.unset_flag(Flags::Negative);
        self.unset_flag(Flags::HalfCarry);
        proof {
            lemma_flag_update(self.reg.f);
            lemma_flags_of_byte(self@.flags());
            lemma_flags_of_byte(old(self)@.ccf().flags());
            assert(1u8 << 4u8 == 0x10u8) by (bit_vector);
        }
        self.reg.f ^= 1 << 4;
    }

    // opcodes 0x40..=0x7F: HALT at 0x76, else LD between two operands;
    // the low three bits name the source and the next three the destination
    fn parse_load_opcodes(&mut self, opcode: u8)
        requires
            old(self)@.wf(),
            0x40 <= opcode < 0x80,
        ensures
            final(self)@ == old(self)@.load_op(opcode),
            final(self)@.wf(),
    {
        self.m = 1;
        if opcode == 0x76 {
            self.halted = true;
        } else {
            proof {
                lemma_byte_ops(opcode);
                lemma_low_bits(opcode);
            }
            let src_register = opcode & 0x7;
            let dest_register = (opcode >> 3) & 0x7;
            self.set_register(dest_register, src_register);
        }
    }

    // opcodes 0x80..=0x9F: ADD (0), ADC (1), SUB (2) and SBC (3) of A and an
    // operand, selected by bits 3 and 4; the low three bits name the operand
    pub fn parse_math_opcodes(&mut self, opcode: u8)
        requires
            old(self)@.wf(),
            0x80 <= opcode < 0xA0,
        ensures
            final(self)@ == old(self)@.math_op(opcode),
    {
        proof {
            lemma_low_bits(opcode);
        }
        self.m = 1;
        let register = opcode & 0x7;
        let math_operation = (opcode >> 3) & 0x7;
        // only ADC and SBC take the carry flag in
        let carry: u8 = if (math_operation == 1 || math_operation == 3) && self.flag_is_active(
            Flags::Carry,
        ) {
            1
        } else {
            0
        };
        let a = self.reg.a;
        let src = self.get_src_register(register);
        proof {
            lemma_byte_ops(a);
            lemma_byte_ops(src);
        }
        if math_operation == 0 || math_operation == 1 {
            proof {
                crate::alu::lemma_wrapping_add(a, src, carry);
            }
            let result = a.wrapping_add(src).wrapping_add(carry);
            self.unset_flag(Flags::Negative);
            self.set_flag_on_if(Flags::Zero, result == 0);
            self.set_flag_on_if(Flags::HalfCarry, (a & 0xF) + (src & 0xF) + carry > 0xF);
            self.set_flag_on_if(Flags::Carry, a as u16 + src as u16 + carry as u16 > 0xFF);
            self.reg.a = result;
        } else {
            proof {
                crate::alu::lemma_wrapping_sub(a, src, carry);
            }
            let result = a.wrapping_sub(src).wrapping_sub(carry);
            self.set_flag(Flags::Negative);
            self.set_flag_on_if(Flags::Zero, result == 0);
            self.set_flag_on_if(Flags::HalfCarry, (a & 0x0F) < (src & 0x0F) + carry);
            self.set_flag_on_if(Flags::Carry, src as u16 + carry as u16 > a as u16);
            self.reg.a = result;
        }
    }

    // opcodes 0xA0..=0xA7: AND with an operand
    fn parse_and_opcodes(&mut self, opcode: u8)
        requires
            old(self)@.wf(),
            0xA0 <= opcode < 0xA8,
        ensures
            final(self)@ == old(self)@.and_op(opcode),
    {
        proof {
            lemma_low_bits(opcode);
        }
        self.m = 1;
        let register = opcode & 0x7;
        let result = self.reg.a & self.get_src_register(register);
        self.set_flag(Flags::HalfCarry);
        self.unset_flag(Flags::Negative);
        self.unset_flag(Flags::Carry);
        self.set_flag_on_if(Flags::Zero, result == 0);
        self.reg.a = result;
    }

    // opcodes 0xA8..=0xAF: XOR with an operand
    fn parse_xor_opcodes(&mut self, opcode: u8)
        requires
            old(self)@.wf(),
            0xA8 <= opcode < 0xB0,
        ensures
            final(self)@ == old(self)@.xor_op(opcode),
    {
        proof {
            lemma_low_bits(opcode);
        }
        self.m = 1;
        let register = opcode & 0x7;
        let result = self.reg.a ^ self.get_src_register(register);
        self.reset_flags();
        self.set_flag_on_if(Flags::Zero, result == 0);
        self.reg.a = result;
    }

    // opcodes 0xB0..=0xB7: OR with an operand
    fn parse_or_opcodes(&mut self, opcode: u8)
        requires
            old(self)@.wf(),
            0xB0 <= opcode < 0xB8,
        ensures
            final(self)@ == old(self)@.or_op(opcode),
    {
        proof {
            lemma_low_bits(opcode);
        }
        self.m = 1;
        let register = opcode & 0x7;
        let result = self.reg.a | self.get_src_register(register);
        self.reset_flags();
        self.set_flag_on_if(Flags::Zero, result == 0);
        self.reg.a = result;
    }

    // opcodes 0xB8..=0xBF: compare A with an operand
    pub fn parse_cp_opcodes(&mut self, opcode: u8)
        requires
            old(self)@.wf(),
            0xB8 <= opcode < 0xC0,
        ensures
            final(self)@ == old(self)@.cp_op(opcode),
    {
        proof {
            lemma_low_bits(opcode);
        }
        self.m = 1;
        let register = opcode & 0x7;
        let a = self.reg.a;
        let src = self.get_src_register(register);
        proof {
            lemma_byte_ops(a);
            lemma_byte_ops(src);
            crate::alu::lemma_wrapping_sub(a, src, 0);
        }
        let result = a.wrapping_sub(src);
        self.set_flag(Flags::Negative);
        self.set_flag_on_if(Flags::Zero, result == 0);
        self.set_flag_on_if(Flags::HalfCarry, (a & 0x0F) < (src & 0x0F));
        self.set_flag_on_if(Flags::Carry, src > a);
    }

    // return when `condition` holds
    fn ret_if(&mut self, condition: bool)
        requires
            old(self)@.wf(),
            old(self)@.ret_ok(condition),
        ensures
            final(self)@ == old(self)@.ret_if(condition),
    {
        if condition {
            self.m = 5;
            self.reg.pc = self.pop_stack();
        } else {
            self.m = 2;
        }
    }

    // return if the zero flag is clear
    fn ret_nz(&mut self)
        requires
            old(self)@.wf(),
            old(self)@.ret_ok(!old(self)@.flags().zero),
        ensures
            final(self)@ == old(self)@.ret_if(!old(self)@.flags().zero),
    {
        let condition = !self.flag_is_active(Flags::Zero);
        self.ret_if(condition);
    }

    // pop the top of the stack into register pair BC
    fn pop_bc(&mut self)
        requires
            old(self)@.wf(),
            old(self)@.reg.sp < 0xFFFF,
        ensures
            final(self)@ == old(self)@.pop_into(0),
    {
        self.m = 3;
        let value = self.pop_stack();
        self.reg.set_bc(value);
    }

    // jump to the word after the opcode when `condition` holds
    fn jp_if(&mut self, condition: bool)
        requires
            old(self)@.wf(),
            old(self)@.reg.pc <= 0xFFFD,
        ensures
            final(self)@ == old(self)@.jp_if(condition),
    {
        if condition {
            self.m = 4;
            self.reg.pc = self.read_word();
        } else {
            self.m = 3;
            self.reg.pc += 2;
        }
    }

    // jump if the zero flag is clear
    fn jp_nz(&mut self)
        requires
            old(self)@.wf(),
            old(self)@.reg.pc <= 0xFFFD,
        ensures
            final(self)@ == old(self)@.jp_if(!old(self)@.flags().zero),
    {
        let condition = !self.flag_is_active(Flags::Zero);
        self.jp_if(condition);
    }

    // jump to the word after the opcode
    fn jp(&mut self)
        requires
            old(self)@.wf(),
            old(self)@.reg.pc <= 0xFFFD,
        ensures
            final(self)@ == old(self)@.jp_if(true),
    {
        self.m = 4;
        self.reg.pc = self.read_word();
    }

    // call the word after the opcode when `condition` holds
    fn call_if(&mut self, condition: bool)
        requires
            old(self)@.wf(),
            old(self)@.call_ok(condition),
        ensures
            final(self)@ == old(self)@.call_if(condition),
            final(self)@.wf(),
    {
        if condition {
            self.m = 6;
            self.push_stack(self.reg.pc + 2);
            self.reg.pc = self.read_word();
        } else {
            self.m = 3;
            self.reg.pc += 2;
        }
    }

    // call if the zero flag is clear
    fn call_nz(&mut self)
        requires
            old(self)@.wf(),
            old(self)@.call_ok(!old(self)@.flags().zero),
        ensures
            final(self)@ == old(self)@.call_if(!old(self)@.flags().zero),
            final(self)@.wf(),
    {
        let condition = !self.flag_is_active(Flags::Zero);
        self.call_if(condition);
    }

    // push register pair BC
    fn push_bc(&mut self)
        requires
            old(self)@.wf(),
            old(self)@.reg.sp >= 2,
        ensures
            final(self)@ == old(self)@.push_from(old(self)@.reg.bc()),
            final(self)@.wf(),
    {
        self.m = 4;
        let value = self.reg.get_bc();
        self.push_stack(value);
    }

    // add the byte after the opcode to A
    pub fn add_a_byte(&mut self)
        requires
            old(self)@.wf(),
            old(self)@.reg.pc < 0xFFFF,
        ensures
            final(self)@ == old(self)@.add_a_byte(),
    {
        self.m = 2;
        let value = self.read_byte();
        let a = self.reg.a;
        proof {
            lemma_byte_ops(a);
            lemma_byte_ops(value);
            crate::alu::lemma_wrapping_add(a, value, 0);
        }
        let result = a.wrapping_add(value);
        self.unset_flag(Flags::Negative);
        self.set_flag_on_if(Flags::Zero, result == 0);
        self.set_flag_on_if(Flags::HalfCarry, (a & 0xF) + (value & 0xF) > 0xF);
        self.set_flag_on_if(Flags::Carry, a as u16 + value as u16 > 0xFF);
        self.reg.a = result;
    }

    // push PC and jump to `target`
    fn rst(&mut self, target: u16)
        requires
            old(self)@.wf(),
            old(self)@.reg.sp >= 2,
        ensures
            final(self)@ == old(self)@.rst(target),
            final(self)@.wf(),
    {
        self.m = 4;
        self.push_stack(self.reg.pc);
        self.reg.pc = target;
    }

    // call address 0x00
    fn rst_zero(&mut self)
        requires
            old(self)@.wf(),
            old(self)@.reg.sp >= 2,
        ensures
            final(self)@ == old(self)@.rst(0x00),
            final(self)@.wf(),
    {
        self.rst(0x00)
    }

    // return if the zero flag is set
    fn ret_z(&mut self)
        requires
            old(self)@.wf(),
            old(self)@.ret_ok(old(self)@.flags().zero),
        ensures
            final(self)@ == old(self)@.ret_if(old(self)@.flags().zero),
    {
        let condition = self.flag_is_active(Flags::Zero);
        self.ret_if(condition);
    }

    // return from a subroutine
    pub fn ret(&mut self)
        requires
            old(self)@.wf(),
            old(self)@.reg.sp < 0xFFFF,
        ensures
            final(self)@ == old(self)@.with_m(4).popped().with_pc(old(self)@.top() as int),
    {
        self.m = 4;
        self.reg.pc = self.pop_stack();
    }

    // jump if the zero flag is set
    fn jp_z(&mut self)
        requires
            old(self)@.wf(),
            old(self)@.reg.pc <= 0xFFFD,
        ensures
            final(self)@ == old(self)@.jp_if(old(self)@.flags().zero),
    {
        let condition = self.flag_is_active(Flags::Zero);
        self.jp_if(condition);
    }

    // the instruction after the 0xCB prefix; its low three bits name the
    // operand, bits 3 to 5 the operation or the bit, bits 6 and 7 the group
    fn call_cb(&mut self)
        requires
            old(self)@.wf(),
            old(self)@.reg.pc < 0xFFFF,
        ensures
            final(self)@ == old(self)@.call_cb(),
            final(self)@.wf(),
    {
        let opcode = self.read_byte();
        proof {
            lemma_low_bits(opcode);
        }
        let register = opcode & 0x7;
        let operation = (opcode >> 3) & 0x7;
        let value = self.get_src_register(register);
        if opcode < 0x40 {
            let result = match operation {
                0 => self.cb_rlc(value),
                1 => self.cb_rrc(value),
                2 => self.cb_rl(value),
                3 => self.cb_rr(value),
                4 => self.cb_sla(value),
                5 => self.cb_sra(value),
                6 => self.cb_swap(value),
                _ => self.cb_srl(value),
            };
            self.put_register(register, result);
        } else if opcode < 0x80 {
            self.cb_bit(operation, value);
        } else if opcode < 0xC0 {
            let result = self.cb_res(operation, value);
            self.put_register(register, result);
        } else {
            let result = self.cb_set(operation, value);
            self.put_register(register, result);
        }
    }

    // call if the zero flag is set
    fn call_z(&mut self)
        requires
            old(self)@.wf(),
            old(self)@.call_ok(old(self)@.flags().zero),
        ensures
            final(self)@ == old(self)@.call_if(old(self)@.flags().zero),
            final(self)@.wf(),
    {
        let condition = self.flag_is_active(Flags::Zero);
        self.call_if(condition);
    }

    // push the address of the next instruction and jump to the word after the opcode
    pub fn call(&mut self)
        requires
            old(self)@.wf(),
            old(self)@.call_ok(true),
        ensures
            final(self)@ == old(self)@.call_if(true),
            final(self)@.wf(),
    {
        self.m = 6;
        self.push_stack(self.reg.pc + 2);
        self.reg.pc = self.read_word();
    }

    // add the byte after the opcode and the carry flag to A
    pub fn adc_a(&mut self)
        requires
            old(self)@.wf(),
            old(self)@.reg.pc < 0xFFFF,
        ensures
            final(self)@ == old(self)@.adc_a(),
    {
        self.m = 2;
        let carry: u8 = if self.flag_is_active(Flags::Carry) {
            1
        } else {
            0
        };
        let value = self.read_byte();
        let a = self.reg.a;
        proof {
            lemma_byte_ops(a);
            lemma_byte_ops(value);
        }
        proof {
            crate::alu::lemma_wrapping_add(a, value, carry);
        }
        let result = a.wrapping_add(value).wrapping_add(carry);
        self.unset_flag(Flags::Negative);
        self.set_flag_on_if(Flags::Zero, result == 0);
        self.set_flag_on_if(Flags::HalfCarry, (a & 0xF) + (value & 0xF) + carry > 0xF);
        self.set_flag_on_if(Flags::Carry, a as u16 + value as u16 + carry as u16 > 0xFF);
        self.reg.a = result;
    }

    // call address 0x08
    fn rst_one(&mut self)
        requires
            old(self)@.wf(),
            old(self)@.reg.sp >= 2,
        ensures
            final(self)@ == old(self)@.rst(0x08),
            final(self)@.wf(),
    {
        self.rst(0x08)
    }

    // return if the carry flag is clear
    fn ret_nc(&mut self)
        requires
            old(self)@.wf(),
            old(self)@.ret_ok(!old(self)@.flags().carry),
        ensures
            final(self)@ == old(self)@.ret_if(!old(self)@.flags().carry),
    {
        let condition = !self.flag_is_active(Flags::Carry);
        self.ret_if(condition);
    }

    // pop the top of the stack into register pair DE
    fn pop_de(&mut self)
        requires
            old(self)@.wf(),
            old(self)@.reg.sp < 0xFFFF,
        ensures
            final(self)@ == old(self)@.pop_into(1),
    {
        self.m = 3;
        let value = self.pop_stack();
        self.reg.set_de(value);
    }

    // jump if the carry flag is clear
    fn jp_nc(&mut self)
        requires
            old(self)@.wf(),
            old(self)@.reg.pc <= 0xFFFD,
        ensures
            final(self)@ == old(self)@.jp_if(!old(self)@.flags().carry),
    {
        let condition = !self.flag_is_active(Flags::Carry);
        self.jp_if(condition);
    }

    // call if the carry flag is clear
    fn call_nc(&mut self)
        requires
            old(self)@.wf(),
            old(self)@.call_ok(!old(self)@.flags().carry),
        ensures
            final(self)@ == old(self)@.call_if(!old(self)@.flags().carry),
            final(self)@.wf(),
    {
        let condition = !self.flag_is_active(Flags::Carry);
        self.call_if(condition);
    }

    // push register pair DE
    fn push_de(&mut self)
        requires
            old(self)@.wf(),
            old(self)@.reg.sp >= 2,
        ensures
            final(self)@ == old(self)@.push_from(old(self)@.reg.de()),
            final(self)@.wf(),
    {
        self.m = 4;
        let value = self.reg.get_de();
        self.push_stack(value);
    }

    // subtract the byte after the opcode and `carry` from A
    fn sub_with(&mut self, carry: u8)
        requires
            old(self)@.wf(),
            old(self)@.reg.pc < 0xFFFF,
            carry <= 1,
        ensures
            final(self)@ == old(self)@.sub_imm(carry),
    {
        self.m = 2;
        let value = self.read_byte();
        let a = self.reg.a;
        proof {
            lemma_byte_ops(a);
            lemma_byte_ops(value);
            crate::alu::lemma_wrapping_sub(a, value, carry);
        }
        let result = a.wrapping_sub(value).wrapping_sub(carry);
        self.set_flag(Flags::Negative);
        self.set_flag_on_if(Flags::Zero, result == 0);
        self.set_flag_on_if(Flags::HalfCarry, (a & 0xF) < (value & 0xF) + carry);
        self.set_flag_on_if(Flags::Carry, (a as u16) < value as u16 + carry as u16);
        self.reg.a = result;
    }

    // subtract the byte after the opcode from A
    pub fn sub_imm(&mut self)
        requires
            old(self)@.wf(),
            old(self)@.reg.pc < 0xFFFF,
        ensures
            final(self)@ == old(self)@.sub_imm(0),
    {
        self.sub_with(0)
    }

    // call address 0x10
    fn rst_two(&mut self)
        requires
            old(self)@.wf(),
            old(self)@.reg.sp >= 2,
        ensures
            final(self)@ == old(self)@.rst(0x10),
            final(self)@.wf(),
    {
        self.rst(0x10)
    }

    // return if the carry flag is set
    fn ret_c(&mut self)
        requires
            old(self)@.wf(),
            old(self)@.ret_ok(old(self)@.flags().carry),
        ensures
            final(self)@ == old(self)@.ret_if(old(self)@.flags().carry),
    {
        let condition = self.flag_is_active(Flags::Carry);
        self.ret_if(condition);
    }

    // return from a subroutine and enable interrupts
    fn reti(&mut self)
        requires
            old(self)@.wf(),
            old(self)@.reg.sp < 0xFFFF,
        ensures
            final(self)@ == old(self)@.reti(),
    {
        self.m = 4;
        self.reg.pc = self.pop_stack();
        self.should_interrupt = true;
    }

    // jump if the carry flag is set
    fn jp_c(&mut self)
        requires
            old(self)@.wf(),
            old(self)@.reg.pc <= 0xFFFD,
        ensures
            final(self)@ == old(self)@.jp_if(old(self)@.flags().carry),
    {
        let condition = self.flag_is_active(Flags::Carry);
        self.jp_if(condition);
    }

    // call if the carry flag is set
    fn call_c(&mut self)
        requires
            old(self)@.wf(),
            old(self)@.call_ok(old(self)@.flags().carry),
        ensures
            final(self)@ == old(self)@.call_if(old(self)@.flags().carry),
            final(self)@.wf(),
    {
        let condition = self.flag_is_active(Flags::Carry);
        self.call_if(condition);
    }

    // subtract the byte after the opcode and the carry flag from A
    pub fn sbc_a(&mut self)
        requires
            old(self)@.wf(),
            old(self)@.reg.pc < 0xFFFF,
        ensures
            final(self)@ == old(self)@.sub_imm(old(self)@.carry_in()),
    {
        let carry: u8 = if self.flag_is_active(Flags::Carry) {
            1
        } else {
            0
        };
        self.sub_with(carry)
    }

    // call address 0x18
    fn rst_three(&mut self)
        requires
            old(self)@.wf(),
            old(self)@.reg.sp >= 2,
        ensures
            final(self)@ == old(self)@.rst(0x18),
            final(self)@.wf(),
    {
        self.rst(0x18)
    }

    // store A at 0xFF00 plus the byte after the opcode
    fn ld_addr_a(&mut self)
        requires
            old(self)@.wf(),
            old(self)@.reg.pc < 0xFFFF,
        ensures
            final(self)@ == old(self)@.ld_addr_a(),
            final(self)@.wf(),
    {
        self.m = 3;
        let value = self.read_byte();
        proof {
            lemma_high_page(value);
        }
        self.bus.write_byte(0xFF00 | value as u16, self.reg.a);
    }

    // pop the top of the stack into register pair HL
    fn pop_hl(&mut self)
        requires
            old(self)@.wf(),
            old(self)@.reg.sp < 0xFFFF,
        ensures
            final(self)@ == old(self)@.pop_into(2),
    {
        self.m = 3;
        let value = self.pop_stack();
        self.reg.set_hl(value);
    }

    // store A at 0xFF00 plus C
    fn ld_addr_c_a(&mut self)
        requires
            old(self)@.wf(),
        ensures
            final(self)@ == old(self)@.ld_addr_c_a(),
            final(self)@.wf(),
    {
        self.m = 2;
        proof {
            lemma_high_page(self.reg.c);
        }
        self.bus.write_byte(0xFF00 | self.reg.c as u16, self.reg.a);
    }

    // push register pair HL
    fn push_hl(&mut self)
        requires
            old(self)@.wf(),
            old(self)@.reg.sp >= 2,
        ensures
            final(self)@ == old(self)@.push_from(old(self)@.reg.hl()),
            final(self)@.wf(),
    {
        self.m = 4;
        let value = self.reg.get_hl();
        self.push_stack(value);
    }

    // AND A with the byte after the opcode
    fn and_a(&mut self)
        requires
            old(self)@.wf(),
            old(self)@.reg.pc < 0xFFFF,
        ensures
            final(self)@ == old(self)@.logic_imm(old(self)@.reg.a & old(self)@.imm8(), true),
    {
        self.m = 2;
        let result = self.reg.a & self.read_byte();
        self.unset_flag(Flags::Negative);
        self.unset_flag(Flags::Carry);
        self.set_flag(Flags::HalfCarry);
        self.set_flag_on_if(Flags::Zero, result == 0);
        self.reg.a = result;
    }

    // call address 0x20
    fn rst_four(&mut self)
        requires
            old(self)@.wf(),
            old(self)@.reg.sp >= 2,
        ensures
            final(self)@ == old(self)@.rst(0x20),
            final(self)@.wf(),
    {
        self.rst(0x20)
    }

    // add the signed byte after the opcode to SP
    pub fn add_sp(&mut self)
        requires
            old(self)@.wf(),
            old(self)@.reg.pc < 0xFFFF,
        ensures
            final(self)@ == old(self)@.add_sp(),
    {
        self.m = 4;
        let sp = self.reg.sp;
        self.reg.sp = self.add16_imm(sp);
    }

    // jump to the address in HL
    fn jp_hl(&mut self)
        ensures
            final(self)@ == old(self)@.jp_hl(),
    {
        self.m = 1;
        self.reg.pc = self.reg.get_hl();
    }

    // store A at the address after the opcode
    fn ld_addr_a16_a(&mut self)
        requires
            old(self)@.wf(),
            old(self)@.reg.pc <= 0xFFFD,
        ensures
            final(self)@ == old(self)@.ld_addr_a16_a(),
            final(self)@.wf(),
    {
        self.m = 4;
        let address = self.read_word();
        self.bus.write_byte(address, self.reg.a);
    }

    // XOR A with the byte after the opcode
    fn xor_d8(&mut self)
        requires
            old(self)@.wf(),
            old(self)@.reg.pc < 0xFFFF,
        ensures
            final(self)@ == old(self)@.logic_imm(old(self)@.reg.a ^ old(self)@.imm8(), false),
    {
        self.m = 2;
        let value = self.read_byte();
        let result = self.reg.a ^ value;
        self.unset_flag(Flags::Negative);
        self.unset_flag(Flags::HalfCarry);
        self.unset_flag(Flags::Carry);
        self.set_flag_on_if(Flags::Zero, result == 0);
        self.reg.a = result;
    }

    // call address 0x28
    fn rst_five(&mut self)
        requires
            old(self)@.wf(),
            old(self)@.reg.sp >= 2,
        ensures
            final(self)@ == old(self)@.rst(0x28),
            final(self)@.wf(),
    {
        self.rst(0x28)
    }

    // load into A the byte at 0xFF00 plus the byte after the opcode
    fn ld_a_a8(&mut self)
        requires
            old(self)@.wf(),
            old(self)@.reg.pc < 0xFFFF,
        ensures
            final(self)@ == old(self)@.ld_a_a8(),
    {
        self.m = 3;
        let byte = self.read_byte();
        proof {
            lemma_high_page(byte);
        }
        let value = 0xFF00 | byte as u16;
        self.reg.a = self.bus.read_byte(value);
    }

    // pop the top of the stack into AF; the low nibble of F stays clear
    fn pop_af(&mut self)
        requires
            old(self)@.wf(),
            old(self)@.reg.sp < 0xFFFF,
        ensures
            final(self)@ == old(self)@.pop_into(3),
    {
        self.m = 3;
        let value = self.pop_stack();
        proof {
            lemma_word_ops(value);
        }
        self.reg.set_af(value & 0xFFF0);
    }

    // load into A the byte at 0xFF00 plus C
    fn ld_a_c_addr(&mut self)
        requires
            old(self)@.wf(),
        ensures
            final(self)@ == old(self)@.ld_a_c_addr(),
    {
        self.m = 2;
        proof {
            lemma_high_page(self.reg.c);
        }
        self.reg.a = self.bus.read_byte(0xFF00 | self.reg.c as u16);
    }

    // disable interrupts
    fn di(&mut self)
        ensures
            final(self)@ == old(self)@.set_ime(false),
    {
        self.m = 1;
        self.should_interrupt = false;
    }

    // push register pair AF
    fn push_af(&mut self)
        requires
            old(self)@.wf(),
            old(self)@.reg.sp >= 2,
        ensures
            final(self)@ == old(self)@.push_from(old(self)@.reg.af()),
            final(self)@.wf(),
    {
        self.m = 4;
        let value = self.reg.get_af();
        self.push_stack(value);
    }

    // OR A with the byte after the opcode
    fn or_d8(&mut self)
        requires
            old(self)@.wf(),
            old(self)@.reg.pc < 0xFFFF,
        ensures
            final(self)@ == old(self)@.logic_imm(old(self)@.reg.a | old(self)@.imm8(), false),
    {
        self.m = 2;
        let result = self.reg.a | self.read_byte();
        self.unset_flag(Flags::Negative);
        self.unset_flag(Flags::HalfCarry);
        self.unset_flag(Flags::Carry);
        self.set_flag_on_if(Flags::Zero, result == 0);
        self.reg.a = result;
    }

    // call address 0x30
    fn rst_six(&mut self)
        requires
            old(self)@.wf(),
            old(self)@.reg.sp >= 2,
        ensures
            final(self)@ == old(self)@.rst(0x30),
            final(self)@.wf(),
    {
        self.rst(0x30)
    }

    // load SP plus the signed byte after the opcode into HL
    fn ld_hl_sp_s8(&mut self)
        requires
            old(self)@.wf(),
            old(self)@.reg.pc < 0xFFFF,
        ensures
            final(self)@ == old(self)@.ld_hl_sp_s8(),
    {
        self.m = 3;
        let sp = self.reg.sp;
        let value = self.add16_imm(sp);
        self.reg.set_hl(value);
    }

    // load HL into SP
    fn ld_sp_hl(&mut self)
        ensures
            final(self)@ == old(self)@.ld_sp_hl(),
    {
        self.m = 2;
        self.reg.sp = self.reg.get_hl();
    }

    // load into A the byte at the address after the opcode
    fn ld_a_a16(&mut self)
        requires
            old(self)@.wf(),
            old(self)@.reg.pc <= 0xFFFD,
        ensures
            final(self)@ == old(self)@.ld_a_a16(),
    {
        self.m = 4;
        let value = self.read_word();
        self.reg.a = self.bus.read_byte(value);
    }

    // enable interrupts
    fn ei(&mut self)
        ensures
            final(self)@ == old(self)@.set_ime(true),
    {
        self.m = 1;
        self.should_interrupt = true;
    }

    // compare A with the byte after the opcode
    pub fn cp_d8(&mut self)
        requires
            old(self)@.wf(),
            old(self)@.reg.pc < 0xFFFF,
        ensures
            final(self)@ == old(self)@.cp_d8(),
    {
        self.m = 2;
        let value = self.read_byte();
        let a = self.reg.a;
        proof {
            lemma_byte_ops(a);
            lemma_byte_ops(value);
            crate::alu::lemma_wrapping_sub(a, value, 0);
        }
        let result = a.wrapping_sub(value);
        self.set_flag(Flags::Negative);
        self.set_flag_on_if(Flags::Zero, result == 0);
        self.set_flag_on_if(Flags::HalfCarry, (a & 0xF) < (value & 0xF));
        self.set_flag_on_if(Flags::Carry, a < value);
    }

    // call address 0x38
    fn rst_seven(&mut self)
        requires
            old(self)@.wf(),
            old(self)@.reg.sp >= 2,
        ensures
            final(self)@ == old(self)@.rst(0x38),
            final(self)@.wf(),
    {
        self.rst(0x38)
    }

    /// Fetches the opcode at PC and executes it. Returns the opcode and
    /// whether it is one the CPU knows; an unknown opcode changes nothing
    /// beyond moving PC past it.
    #[verifier::rlimit(100)]
    pub fn decode_execute(&mut self) -> (r: (u8, bool))
        requires
            old(self)@.wf(),
            old(self)@.execute_ok(),
        ensures
            final(self)@ == old(self)@.execute(),
            final(self)@.wf(),
            r.0 == old(self)@.opcode(),
            r.1 == CpuView::is_known(r.0),
            old(self)@.reg.f % 16 == 0 ==> final(self)@.reg.f % 16 == 0,
    {
        proof {
            if old(self)@.reg.f % 16 == 0 {
                crate::laws::lemma_execute_keeps_flag_nibble(old(self)@);
            }
        }
        let opcode = self.read_byte();
        let mut recognized = true;
        match opcode {
            0x00 => self.nop(),
            0x01 => self.load_bc(),
            0x02 => self.load_bc_a(),
            0x03 => self.inc_bc(),
            0x04 => self.inc_b(),
            0x05 => self.dec_b(),
            0x06 => self.load_b(),
            0x07 => self.rlca(),
            0x08 => self.load_sp_at_addr(),
            0x09 => self.add_hl_bc(),
            0x0A => self.ld_a_bc(),
            0x0B => self.dec_bc(),
            0x0C => self.inc_c(),
            0x0D => self.dec_c(),
            0x0E => self.ld_c(),
            0x0F => self.rrca(),
            0x10 => self.stop(),
            0x11 => self.ld_de(),
            0x12 => self.ld_a(),
            0x13 => self.inc_de(),
            0x14 => self.inc_d(),
            0x15 => self.dec_d(),
            0x16 => self.ld_d(),
            0x17 => self.rla(),
            0x18 => self.jr(),
            0x19 => self.add_hl_de(),
            0x1A => self.ld_a_de(),
            0x1B => self.dec_de(),
            0x1C => self.inc_e(),
            0x1D => self.dec_e(),
            0x1E => self.ld_e(),
            0x1F => self.rra(),
            0x20 => self.jr_nz(),
            0x21 => self.ld_hl(),
            0x22 => self.ld_hl_inc_a(),
            0x23 => self.inc_hl(),
            0x24 => self.inc_h(),
            0x25 => self.dec_h(),
            0x26 => self.ld_h(),
            0x27 => self.daa(),
            0x28 => self.jr_z(),
            0x29 => self.add_hl_hl(),
            0x2A => self.ld_a_hl_plus(),
            0x2B => self.dec_hl(),
            0x2C => self.inc_l(),
            0x2D => self.dec_l(),
            0x2E => self.ld_l(),
            0x2F => self.cpl(),
            0x30 => self.jr_nc(),
            0x31 => self.ld_sp(),
            0x32 => self.ld_hlm_a(),
            0x33 => self.inc_sp(),
            0x34 => self.inc_content_at_hl(),
            0x35 => self.dec_content_at_hl(),
            0x36 => self.ld_hl_byte(),
            0x37 => self.scf(),
            0x38 => self.jr_c(),
            0x39 => self.add_hl_sp(),
            0x3A => self.ld_a_hl_dec(),
            0x3B => self.dec_sp(),
            0x3C => self.inc_a(),
            0x3D => self.dec_a(),
            0x3E => self.ld_a_byte(),
            0x3F => self.ccf(),
            0x40..=0x7F => self.parse_load_opcodes(opcode),
            0x80..=0x9F => self.parse_math_opcodes(opcode),
            0xA0..=0xA7 => self.parse_and_opcodes(opcode),
            0xA8..=0xAF => self.parse_xor_opcodes(opcode),
            0xB0..=0xB7 => self.parse_or_opcodes(opcode),
            0xB8..=0xBF => self.parse_cp_opcodes(opcode),
            0xC0 => self.ret_nz(),
            0xC1 => self.pop_bc(),
            0xC2 => self.jp_nz(),
            0xC3 => self.jp(),
            0xC4 => self.call_nz(),
            0xC5 => self.push_bc(),
            0xC6 => self.add_a_byte(),
            0xC7 => self.rst_zero(),
            0xC8 => self.ret_z(),
            0xC9 => self.ret(),
            0xCA => self.jp_z(),
            0xCB => self.call_cb(),
            0xCC => self.call_z(),
            0xCD => self.call(),
            0xCE => self.adc_a(),
            0xCF => self.rst_one(),
            0xD0 => self.ret_nc(),
            0xD1 => self.pop_de(),
            0xD2 => self.jp_nc(),
            0xD4 => self.call_nc(),
            0xD5 => self.push_de(),
            0xD6 => self.sub_imm(),
            0xD7 => self.rst_two(),
            0xD8 => self.ret_c(),
            0xD9 => self.reti(),
            0xDA => self.jp_c(),
            0xDC => self.call_c(),
            0xDE => self.sbc_a(),
            0xDF => self.rst_three(),
            0xE0 => self.ld_addr_a(),
            0xE1 => self.pop_hl(),
            0xE2 => self.ld_addr_c_a(),
            0xE5 => self.push_hl(),
            0xE6 => self.and_a(),
            0xE7 => self.rst_four(),
            0xE8 => self.add_sp(),
            0xE9 => self.jp_hl(),
            0xEA => self.ld_addr_a16_a(),
            0xEE => self.xor_d8(),
            0xEF => self.rst_five(),
            0xF0 => self.ld_a_a8(),
            0xF1 => self.pop_af(),
            0xF2 => self.ld_a_c_addr(),
            0xF3 => self.di(),
            0xF5 => self.push_af(),
            0xF6 => self.or_d8(),
            0xF7 => self.rst_six(),
            0xF8 => self.ld_hl_sp_s8(),
            0xF9 => self.ld_sp_hl(),
            0xFA => self.ld_a_a16(),
            0xFB => self.ei(),
            0xFE => self.cp_d8(),
            0xFF => self.rst_seven(),
            _ => {
                recognized = false;
            },
        }
        (opcode, recognized)
    }

    /// Whether the instruction at PC runs to its end (see `CpuView::op_ok`).
    pub fn can_execute(&self) -> (ok: bool)
        requires
            self@.wf(),
        ensures
            ok == self@.execute_ok(),
    {
        if self.reg.pc == 0xFFFF {
            return false;
        }
        let op = self.bus.read_byte(self.reg.pc);
        let pc = self.reg.pc + 1;
        let sp = self.reg.sp;
        let zero = self.flag_is_active(Flags::Zero);
        let carry = self.flag_is_active(Flags::Carry);
        proof {
            lemma_low_bits(op);
        }
        if op == 0x01 || op == 0x11 || op == 0x21 || op == 0x31 || op == 0xC3 || op == 0xEA || op
            == 0xFA || op == 0xC2 || op == 0xCA || op == 0xD2 || op == 0xDA {
            pc <= 0xFFFD
        } else if op == 0x08 {
            pc <= 0xFFFD && self.bus.read_word(pc) < 0xFFFF
        } else if op == 0x06 || op == 0x0E || op == 0x16 || op == 0x1E || op == 0x26 || op == 0x2E
            || op == 0x36 || op == 0x3E || op == 0x18 || op == 0x20 || op == 0x28 || op == 0x30
            || op == 0x38
            || op == 0xC6 || op == 0xCE || op == 0xE6 || op == 0xEE || op == 0xF6 || op == 0xCB
            || op == 0xE0 || op == 0xF0 || op == 0xE8 || op == 0xF8 || op == 0xD6 || op == 0xDE
            || op == 0xFE {
            pc < 0xFFFF
        } else if op == 0xC4 {
            pc <= 0xFFFD && (zero || sp >= 2)
        } else if op == 0xCC {
            pc <= 0xFFFD && (!zero || sp >= 2)
        } else if op == 0xD4 {
            pc <= 0xFFFD && (carry || sp >= 2)
        } else if op == 0xDC {
            pc <= 0xFFFD && (!carry || sp >= 2)
        } else if op == 0xCD {
            pc <= 0xFFFD && sp >= 2
        } else if op == 0xC0 {
            zero || sp < 0xFFFF
        } else if op == 0xC8 {
            !zero || sp < 0xFFFF
        } else if op == 0xD0 {
            carry || sp < 0xFFFF
        } else if op == 0xD8 {
            !carry || sp < 0xFFFF
        } else if op == 0xC1 || op == 0xD1 || op == 0xE1 || op == 0xF1 || op == 0xC9 || op == 0xD9 {
            sp < 0xFFFF
        } else if op == 0xC5 || op == 0xD5 || op == 0xE5 || op == 0xF5 || (op >= 0xC0 && op & 0x7
            == 7) {
            sp >= 2
        } else {
            true
        }
    }

    /// A copy of the CPU and its bus.
    pub fn duplicate(&self) -> (c: Cpu)
        ensures
            c@ == self@,
    {
        Cpu {
            reg: self.reg,
            bus: self.bus.duplicate(),
            m: self.m,
            halted: self.halted,
            should_interrupt: self.should_interrupt,
        }
    }

    /// Whether `run_cycle` can run from this state: the instruction runs to
    /// its end, and when the timer interrupt follows, SP can move down
    /// for the return address.
    pub fn can_run_cycle(&self) -> (ok: bool)
        requires
            self@.wf(),
        ensures
            ok == self@.cycle_ok(),
    {
        if self.halted {
            return true;
        }
        if !self.can_execute() {
            return false;
        }
        let op = self.bus.read_byte(self.reg.pc);
        if 4 <= self.reg.sp && self.reg.sp <= 0xFFFB && op != 0x31 && op != 0xF9 && op != 0xE8 {
            // SP moves by at most two bytes, so a push still fits
            proof {
                crate::laws::lemma_execute_moves_sp_little(self@);
            }
            return true;
        }
        // otherwise run the cycle on a copy and look
        let mut probe = self.duplicate();
        probe.decode_execute();
        let m = probe.m;
        probe.bus.update_timer(m);
        let taken = probe.should_interrupt && probe.bus.timer_interrupt();
        !taken || probe.reg.sp >= 2
    }

    /// One step of the machine: unless halted, execute one instruction,
    /// advance the timer by its M-cycles and, when interrupts are enabled
    /// and the timer overflowed, push PC and jump to the timer handler at
    /// 0x0040.
    pub fn run_cycle(&mut self) -> (report: CycleReport)
        requires
            old(self)@.wf(),
            old(self)@.cycle_ok(),
        ensures
            final(self)@ == old(self)@.cycle(),
            final(self)@.wf(),
            old(self)@.reg.f % 16 == 0 ==> final(self)@.reg.f % 16 == 0,
            report.executed == !old(self)@.halted,
            report.executed ==> report.opcode == old(self)@.opcode() && report.recognized
                == CpuView::is_known(report.opcode) && report.interrupted
                == old(self)@.interrupt_taken(),
            !report.executed ==> report == (CycleReport {
                executed: false,
                opcode: 0,
                recognized: true,
                interrupted: false,
            }),
    {
        proof {
            if old(self)@.reg.f % 16 == 0 {
                crate::laws::lemma_cycle_keeps_flag_nibble(old(self)@);
            }
        }
        if !self.halted {
            let (opcode, recognized) = self.decode_execute();
            let m = self.m;
            self.bus.update_timer(m);
            let interrupted = self.should_interrupt && self.bus.timer_interrupt();
            if interrupted {
                self.push_stack(self.reg.pc);
                self.reg.pc = 0x0040;
            }
            CycleReport { executed: true, opcode, recognized, interrupted }
        } else {
            CycleReport { executed: false, opcode: 0, recognized: true, interrupted: false }
        }
    }
}

} // verus!
