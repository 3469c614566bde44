//! What each instruction does to the machine: the state of the CPU as a
//! mathematical value and one function per instruction on it.
use vstd::prelude::*;

use crate::alu::{
    add8, add_flags, bit_is_set, carry_only, dec8, dec8_flags, inc8, inc8_flags, jump_relative,
    logic_flags, res8, rl8, rlc8, rr8, rrc8, set8, shift_flags, sign_extend, sla8, sra8, srl8,
    sub8, sub_flags, swap8,
};
use crate::bus::BusView;
use crate::register::{flags_of, FlagSet, Flags, Register};

verus! {

/// The whole machine as the CPU sees it.
pub struct CpuView {
    pub reg: Register,
    pub bus: BusView,
    /// M-cycles taken by the last instruction.
    pub m: u8,
    pub halted: bool,
    /// The interrupt master enable flag.
    pub should_interrupt: bool,
}

/// The operation that bits 3 to 5 of a 0xCB-prefixed opcode in
/// 0x00..=0x3F select.
pub open spec fn cb_shift(op: u8, x: u8, c: bool) -> u8 {
    if op == 0 {
        rlc8(x)
    } else if op == 1 {
        rrc8(x)
    } else if op == 2 {
        rl8(x, c)
    } else if op == 3 {
        rr8(x, c)
    } else if op == 4 {
        sla8(x)
    } else if op == 5 {
        sra8(x)
    } else if op == 6 {
        swap8(x)
    } else {
        srl8(x)
    }
}

/// The carry out of that operation.
pub open spec fn cb_shift_carry(op: u8, x: u8) -> bool {
    if op == 0 || op == 2 || op == 4 {
        x >= 128
    } else if op == 6 {
        false
    } else {
        x % 2 == 1
    }
}

impl CpuView {
    pub open spec fn wf(self) -> bool {
        self.bus.wf()
    }

    pub open spec fn flags(self) -> FlagSet {
        flags_of(self.reg.f)
    }

    /// The carry flag as a number.
    pub open spec fn carry_in(self) -> u8 {
        if self.flags().carry {
            1
        } else {
            0
        }
    }

    pub open spec fn with_reg(self, reg: Register) -> CpuView {
        CpuView { reg, ..self }
    }

    pub open spec fn with_bus(self, bus: BusView) -> CpuView {
        CpuView { bus, ..self }
    }

    pub open spec fn with_m(self, m: u8) -> CpuView {
        CpuView { m, ..self }
    }

    pub open spec fn with_flags(self, fs: FlagSet) -> CpuView {
        self.with_reg(Register { f: fs.byte(), ..self.reg })
    }

    pub open spec fn with_pc(self, pc: int) -> CpuView {
        self.with_reg(Register { pc: pc as u16, ..self.reg })
    }

    pub open spec fn with_sp(self, sp: int) -> CpuView {
        self.with_reg(Register { sp: sp as u16, ..self.reg })
    }

    pub open spec fn with_a(self, a: u8) -> CpuView {
        self.with_reg(Register { a, ..self.reg })
    }

    /// The byte after the opcode.
    pub open spec fn imm8(self) -> u8 {
        self.bus.read(self.reg.pc)
    }

    /// The two bytes after the opcode, as a word.
    pub open spec fn imm16(self) -> u16 {
        self.bus.read_word(self.reg.pc)
    }

    /// The 8-bit operand numbered `i` in an opcode: B, C, D, E, H, L, (HL), A.
    pub open spec fn r8(self, i: u8) -> u8 {
        if i == 0 {
            self.reg.b
        } else if i == 1 {
            self.reg.c
        } else if i == 2 {
            self.reg.d
        } else if i == 3 {
            self.reg.e
        } else if i == 4 {
            self.reg.h
        } else if i == 5 {
            self.reg.l
        } else if i == 6 {
            self.bus.read(self.reg.hl())
        } else {
            self.reg.a
        }
    }

    pub open spec fn with_r8(self, i: u8, v: u8) -> CpuView {
        if i == 0 {
            self.with_reg(Register { b: v, ..self.reg })
        } else if i == 1 {
            self.with_reg(Register { c: v, ..self.reg })
        } else if i == 2 {
            self.with_reg(Register { d: v, ..self.reg })
        } else if i == 3 {
            self.with_reg(Register { e: v, ..self.reg })
        } else if i == 4 {
            self.with_reg(Register { h: v, ..self.reg })
        } else if i == 5 {
            self.with_reg(Register { l: v, ..self.reg })
        } else if i == 6 {
            self.with_bus(self.bus.write(self.reg.hl(), v))
        } else {
            self.with_a(v)
        }
    }

    /// `value` pushed: SP moves down two bytes and the word is stored there.
    pub open spec fn pushed(self, value: u16) -> CpuView {
        let sp = (self.reg.sp - 2) as u16;
        self.with_sp(sp as int).with_bus(self.bus.write_word(sp, value))
    }

    /// The word at the top of the stack.
    pub open spec fn top(self) -> u16 {
        self.bus.read_word(self.reg.sp)
    }

    /// SP after a pop.
    pub open spec fn popped(self) -> CpuView {
        self.with_sp((self.reg.sp + 2) % 65536)
    }

    // ------------------------------------------------------------------
    // helpers shared by several instructions
    pub open spec fn inc_reg(self, x: u8) -> CpuView {
        self.with_flags(inc8_flags(self.flags(), x))
    }

    pub open spec fn dec_reg(self, x: u8) -> CpuView {
        self.with_flags(dec8_flags(self.flags(), x))
    }

    /// HL + `v` into HL; Z is kept, the half carry comes out of bit 10.
    pub open spec fn add16(self, v: u16) -> CpuView {
        let hl = self.reg.hl();
        let fs = FlagSet {
            zero: self.flags().zero,
            negative: false,
            half_carry: hl % 0x800 + v % 0x800 > 0x7FF,
            carry: hl + v > 0xFFFF,
        };
        self.with_flags(fs).with_reg(
            self.with_flags(fs).reg.with_hl(((hl + v) % 65536) as u16),
        )
    }

    /// The flags of adding the signed byte after the opcode to `base`.
    pub open spec fn add16_imm_flags(self, base: u16) -> FlagSet {
        let v = sign_extend(self.imm8());
        FlagSet {
            zero: false,
            negative: false,
            half_carry: base % 16 + v % 16 > 15,
            carry: base % 256 + v % 256 > 255,
        }
    }

    /// `base` plus the signed byte after the opcode.
    pub open spec fn add16_imm_value(self, base: u16) -> u16 {
        ((base + sign_extend(self.imm8())) % 65536) as u16
    }

    pub open spec fn add16_imm(self, base: u16) -> CpuView {
        self.with_flags(self.add16_imm_flags(base)).with_pc(self.reg.pc + 1)
    }

    /// Jump by the signed byte after the opcode when `cond` holds, else skip it.
    pub open spec fn jr_if(self, cond: bool) -> CpuView {
        if cond {
            self.with_m(3).with_pc(jump_relative((self.reg.pc + 1) as u16, self.imm8()) as int)
        } else {
            self.with_m(2).with_pc(self.reg.pc + 1)
        }
    }

    /// Jump to the word after the opcode when `cond` holds, else skip it.
    pub open spec fn jp_if(self, cond: bool) -> CpuView {
        if cond {
            self.with_m(4).with_pc(self.imm16() as int)
        } else {
            self.with_m(3).with_pc(self.reg.pc + 2)
        }
    }

    /// Call the word after the opcode when `cond` holds, else skip it. The
    /// target is read after the return address is pushed.
    pub open spec fn call_if(self, cond: bool) -> CpuView {
        if cond {
            let s = self.with_m(6).pushed((self.reg.pc + 2) as u16);
            s.with_pc(s.imm16() as int)
        } else {
            self.with_m(3).with_pc(self.reg.pc + 2)
        }
    }

    /// Return when `cond` holds.
    pub open spec fn ret_if(self, cond: bool) -> CpuView {
        if cond {
            self.with_m(5).popped().with_pc(self.top() as int)
        } else {
            self.with_m(2)
        }
    }

    /// Push PC and jump to `target`.
    pub open spec fn rst(self, target: u16) -> CpuView {
        self.with_m(4).pushed(self.reg.pc).with_pc(target as int)
    }

    /// Whether `ret_if(cond)` can run: the top of the stack is readable.
    pub open spec fn ret_ok(self, cond: bool) -> bool {
        cond ==> self.reg.sp < 0xFFFF
    }

    /// Whether `call_if(cond)` can run.
    pub open spec fn call_ok(self, cond: bool) -> bool {
        self.reg.pc <= 0xFFFD && (cond ==> self.reg.sp >= 2)
    }

    // ------------------------------------------------------------------
    // one function per instruction; PC already points past the opcode
    pub open spec fn nop(self) -> CpuView {
        self.with_m(1)
    }

    pub open spec fn load_bc(self) -> CpuView {
        self.with_m(3).with_pc(self.reg.pc + 2).with_reg(
            self.with_pc(self.reg.pc + 2).reg.with_bc(self.imm16()),
        )
    }

    pub open spec fn load_bc_a(self) -> CpuView {
        self.with_m(2).with_bus(self.bus.write(self.reg.bc(), self.reg.a))
    }

    pub open spec fn inc_bc(self) -> CpuView {
        self.with_m(2).with_reg(self.reg.with_bc(((self.reg.bc() + 1) % 65536) as u16))
    }

    pub open spec fn load_r8_imm(self, i: u8) -> CpuView {
        self.with_m(2).with_pc(self.reg.pc + 1).with_r8(i, self.imm8())
    }

    pub open spec fn inc_r8(self, i: u8) -> CpuView {
        self.with_m(1).inc_reg(self.r8(i)).with_r8(i, inc8(self.r8(i)))
    }

    pub open spec fn dec_r8(self, i: u8) -> CpuView {
        self.with_m(1).dec_reg(self.r8(i)).with_r8(i, dec8(self.r8(i)))
    }

    /// RLCA: bit 7 goes to bit 0 and to the carry; the other flags clear.
    pub open spec fn rlca(self) -> CpuView {
        self.with_m(1).with_flags(carry_only(self.reg.a >= 128)).with_a(rlc8(self.reg.a))
    }

    pub open spec fn load_sp_at_addr(self) -> CpuView {
        self.with_m(5).with_pc(self.reg.pc + 2).with_bus(
            self.bus.write_word(self.imm16(), self.reg.sp),
        )
    }

    pub open spec fn ld_a_bc(self) -> CpuView {
        self.with_m(2).with_a(self.bus.read(self.reg.bc()))
    }

    pub open spec fn dec_bc(self) -> CpuView {
        self.with_m(2).with_reg(self.reg.with_bc(((self.reg.bc() + 65535) % 65536) as u16))
    }

    /// RRCA: bit 0 goes to bit 7 and to the carry; the other flags clear.
    pub open spec fn rrca(self) -> CpuView {
        self.with_m(1).with_flags(carry_only(self.reg.a % 2 == 1)).with_a(rrc8(self.reg.a))
    }

    pub open spec fn ld_de(self) -> CpuView {
        self.with_m(3).with_pc(self.reg.pc + 2).with_reg(
            self.with_pc(self.reg.pc + 2).reg.with_de(self.imm16()),
        )
    }

    pub open spec fn ld_a(self) -> CpuView {
        self.with_m(2).with_bus(self.bus.write(self.reg.de(), self.reg.a))
    }

    pub open spec fn inc_de(self) -> CpuView {
        self.with_m(2).with_reg(self.reg.with_de(((self.reg.de() + 1) % 65536) as u16))
    }

    /// JR: jump by the signed byte after the opcode, counted from the
    /// instruction that follows it.
    pub open spec fn jr(self) -> CpuView {
        self.jr_if(true)
    }

    pub open spec fn ld_a_de(self) -> CpuView {
        self.with_m(2).with_a(self.bus.read(self.reg.de()))
    }

    pub open spec fn dec_de(self) -> CpuView {
        self.with_m(2).with_reg(self.reg.with_de(((self.reg.de() + 65535) % 65536) as u16))
    }

    /// RLA: rotate left through the carry; bit 7 goes to the carry, the old
    /// carry to bit 0, and the other flags clear.
    pub open spec fn rla(self) -> CpuView {
        self.with_m(1).with_flags(carry_only(self.reg.a >= 128)).with_a(
            rl8(self.reg.a, self.flags().carry),
        )
    }

    /// RRA: rotate right through the carry; bit 0 goes to the carry, the old
    /// carry to bit 7, and the other flags are kept.
    pub open spec fn rra(self) -> CpuView {
        self.with_m(1).with_flags(self.flags().with(Flags::Carry, self.reg.a % 2 == 1)).with_a(
            rr8(self.reg.a, self.flags().carry),
        )
    }

    pub open spec fn ld_hl(self) -> CpuView {
        self.with_m(3).with_pc(self.reg.pc + 2).with_reg(
            self.with_pc(self.reg.pc + 2).reg.with_hl(self.imm16()),
        )
    }

    pub open spec fn ld_hl_inc_a(self) -> CpuView {
        self.with_m(2).with_bus(self.bus.write(self.reg.hl(), self.reg.a)).with_reg(
            self.reg.with_hl(((self.reg.hl() + 1) % 65536) as u16),
        )
    }

    pub open spec fn inc_hl(self) -> CpuView {
        self.with_m(2).with_reg(self.reg.with_hl(((self.reg.hl() + 1) % 65536) as u16))
    }

    /// The adjustment that DAA adds to A.
    pub open spec fn daa_adjust(self) -> u8 {
        let fs = self.flags();
        let low = fs.half_carry || (!fs.negative && self.reg.a % 16 > 9);
        let high = fs.carry || (!fs.negative && self.reg.a > 0x99);
        ((if high {
            0x60int
        } else {
            0int
        }) + (if low {
            0x06int
        } else {
            0int
        })) as u8
    }

    /// DAA: after an addition the adjustment is added, after a subtraction
    /// (N set) it is subtracted.
    pub open spec fn daa(self) -> CpuView {
        let adjust = self.daa_adjust();
        let a = if self.flags().negative {
            sub8(self.reg.a, adjust, 0)
        } else {
            add8(self.reg.a, adjust, 0)
        };
        self.with_m(1).with_a(a).with_flags(
            FlagSet {
                zero: a == 0,
                half_carry: false,
                carry: adjust >= 0x60,
                ..self.flags()
            },
        )
    }

    pub open spec fn ld_a_hl_plus(self) -> CpuView {
        self.with_m(2).with_a(self.bus.read(self.reg.hl())).with_reg(
            self.with_a(self.bus.read(self.reg.hl())).reg.with_hl(
                ((self.reg.hl() + 1) % 65536) as u16,
            ),
        )
    }

    pub open spec fn dec_hl(self) -> CpuView {
        self.with_m(2).with_reg(self.reg.with_hl(((self.reg.hl() + 65535) % 65536) as u16))
    }

    /// CPL: A is complemented; N and H are set.
    pub open spec fn cpl(self) -> CpuView {
        self.with_m(1).with_a((255 - self.reg.a) as u8).with_flags(
            FlagSet { negative: true, half_carry: true, ..self.flags() },
        )
    }

    pub open spec fn ld_sp(self) -> CpuView {
        self.with_m(3).with_pc(self.reg.pc + 2).with_sp(self.imm16() as int)
    }

    pub open spec fn ld_hlm_a(self) -> CpuView {
        self.with_m(2).with_bus(self.bus.write(self.reg.hl(), self.reg.a)).with_reg(
            self.reg.with_hl(((self.reg.hl() + 65535) % 65536) as u16),
        )
    }

    pub open spec fn inc_sp(self) -> CpuView {
        self.with_m(2).with_sp((self.reg.sp + 1) % 65536)
    }

    pub open spec fn inc_content_at_hl(self) -> CpuView {
        let v = self.bus.read(self.reg.hl());
        self.with_m(3).with_flags(inc8_flags(self.flags(), v)).with_bus(
            self.bus.write(self.reg.hl(), inc8(v)),
        )
    }

    pub open spec fn dec_content_at_hl(self) -> CpuView {
        let v = self.bus.read(self.reg.hl());
        self.with_m(3).with_flags(dec8_flags(self.flags(), v)).with_bus(
            self.bus.write(self.reg.hl(), dec8(v)),
        )
    }

    pub open spec fn ld_hl_byte(self) -> CpuView {
        self.with_m(3).with_pc(self.reg.pc + 1).with_bus(self.bus.write(self.reg.hl(), self.imm8()))
    }

    /// SCF: carry set, N and H cleared.
    pub open spec fn scf(self) -> CpuView {
        self.with_m(1).with_flags(
            FlagSet { negative: false, half_carry: false, carry: true, ..self.flags() },
        )
    }

    pub open spec fn ld_a_hl_dec(self) -> CpuView {
        self.with_m(2).with_a(self.bus.read(self.reg.hl())).with_reg(
            self.with_a(self.bus.read(self.reg.hl())).reg.with_hl(
                ((self.reg.hl() + 65535) % 65536) as u16,
            ),
        )
    }

    pub open spec fn dec_sp(self) -> CpuView {
        self.with_m(2).with_sp((self.reg.sp + 65535) % 65536)
    }

    /// CCF: carry flipped, N and H cleared.
    pub open spec fn ccf(self) -> CpuView {
        self.with_m(1).with_flags(
            FlagSet {
                negative: false,
                half_carry: false,
                carry: !self.flags().carry,
                ..self.flags()
            },
        )
    }

    /// 0x40..=0x7F: HALT at 0x76, else LD from operand `op % 8` into
    /// operand `op / 8 % 8`.
    pub open spec fn load_op(self, op: u8) -> CpuView {
        if op == 0x76 {
            CpuView { halted: true, ..self.with_m(1) }
        } else {
            self.with_m(1).with_r8((op / 8) % 8, self.r8(op % 8))
        }
    }

    /// The carry that operation `sel` of 0x80..=0x9F takes in: ADC (1) and
    /// SBC (3) take the carry flag, ADD (0) and SUB (2) take none.
    pub open spec fn carry_for(self, sel: u8) -> u8 {
        if sel == 1 || sel == 3 {
            self.carry_in()
        } else {
            0
        }
    }

    /// 0x80..=0x9F: ADD, ADC, SUB and SBC of A and an operand.
    pub open spec fn math_op(self, op: u8) -> CpuView {
        let a = self.reg.a;
        let v = self.r8(op % 8);
        let c = self.carry_for((op / 8) % 8);
        if (op / 8) % 8 <= 1 {
            let r = add8(a, v, c);
            self.with_m(1).with_flags(add_flags(a, v, c, r)).with_a(r)
        } else {
            let r = sub8(a, v, c);
            self.with_m(1).with_flags(sub_flags(a, v, c, r)).with_a(r)
        }
    }

    pub open spec fn and_op(self, op: u8) -> CpuView {
        let r = self.reg.a & self.r8(op % 8);
        self.with_m(1).with_flags(logic_flags(r, true)).with_a(r)
    }

    pub open spec fn xor_op(self, op: u8) -> CpuView {
        let r = self.reg.a ^ self.r8(op % 8);
        self.with_m(1).with_flags(logic_flags(r, false)).with_a(r)
    }

    pub open spec fn or_op(self, op: u8) -> CpuView {
        let r = self.reg.a | self.r8(op % 8);
        self.with_m(1).with_flags(logic_flags(r, false)).with_a(r)
    }

    /// CP: the flags of A minus the operand; A is kept.
    pub open spec fn cp_op(self, op: u8) -> CpuView {
        let a = self.reg.a;
        let v = self.r8(op % 8);
        self.with_m(1).with_flags(sub_flags(a, v, 0, sub8(a, v, 0)))
    }

    pub open spec fn pop_into(self, pair: u8) -> CpuView {
        let v = self.top();
        let s = self.with_m(3).popped();
        if pair == 0 {
            s.with_reg(s.reg.with_bc(v))
        } else if pair == 1 {
            s.with_reg(s.reg.with_de(v))
        } else if pair == 2 {
            s.with_reg(s.reg.with_hl(v))
        } else {
            s.with_reg(s.reg.with_af((v - v % 16) as u16))
        }
    }

    pub open spec fn push_from(self, v: u16) -> CpuView {
        self.with_m(4).pushed(v)
    }

    /// ADD A, d8.
    pub open spec fn add_a_byte(self) -> CpuView {
        let a = self.reg.a;
        let v = self.imm8();
        let r = add8(a, v, 0);
        self.with_m(2).with_pc(self.reg.pc + 1).with_flags(add_flags(a, v, 0, r)).with_a(r)
    }

    pub open spec fn adc_a(self) -> CpuView {
        let a = self.reg.a;
        let v = self.imm8();
        let c = self.carry_in();
        let r = add8(a, v, c);
        self.with_m(2).with_pc(self.reg.pc + 1).with_flags(add_flags(a, v, c, r)).with_a(r)
    }

    /// SUB d8 (`c` = 0) and SBC A, d8 (`c` = the carry flag).
    pub open spec fn sub_imm(self, c: u8) -> CpuView {
        let a = self.reg.a;
        let v = self.imm8();
        let r = sub8(a, v, c);
        self.with_m(2).with_pc(self.reg.pc + 1).with_flags(sub_flags(a, v, c, r)).with_a(r)
    }

    /// CP d8: the flags of A minus d8; A is kept.
    pub open spec fn cp_d8(self) -> CpuView {
        let a = self.reg.a;
        let v = self.imm8();
        self.with_m(2).with_pc(self.reg.pc + 1).with_flags(sub_flags(a, v, 0, sub8(a, v, 0)))
    }

    pub open spec fn reti(self) -> CpuView {
        CpuView { should_interrupt: true, ..self.with_m(4).popped().with_pc(self.top() as int) }
    }

    pub open spec fn ld_addr_a(self) -> CpuView {
        self.with_m(3).with_pc(self.reg.pc + 1).with_bus(
            self.bus.write((0xFF00 + self.imm8()) as u16, self.reg.a),
        )
    }

    pub open spec fn ld_addr_c_a(self) -> CpuView {
        self.with_m(2).with_bus(self.bus.write((0xFF00 + self.reg.c) as u16, self.reg.a))
    }

    pub open spec fn logic_imm(self, r: u8, half_carry: bool) -> CpuView {
        self.with_m(2).with_pc(self.reg.pc + 1).with_flags(logic_flags(r, half_carry)).with_a(r)
    }

    /// ADD SP, s8: SP plus the signed byte after the opcode.
    pub open spec fn add_sp(self) -> CpuView {
        self.with_m(4).add16_imm(self.reg.sp).with_sp(self.add16_imm_value(self.reg.sp) as int)
    }

    pub open spec fn jp_hl(self) -> CpuView {
        self.with_m(1).with_pc(self.reg.hl() as int)
    }

    pub open spec fn ld_addr_a16_a(self) -> CpuView {
        self.with_m(4).with_pc(self.reg.pc + 2).with_bus(self.bus.write(self.imm16(), self.reg.a))
    }

    pub open spec fn ld_a_a8(self) -> CpuView {
        self.with_m(3).with_pc(self.reg.pc + 1).with_a(
            self.bus.read((0xFF00 + self.imm8()) as u16),
        )
    }

    pub open spec fn ld_a_c_addr(self) -> CpuView {
        self.with_m(2).with_a(self.bus.read((0xFF00 + self.reg.c) as u16))
    }

    pub open spec fn set_ime(self, on: bool) -> CpuView {
        CpuView { should_interrupt: on, ..self.with_m(1) }
    }

    pub open spec fn ld_hl_sp_s8(self) -> CpuView {
        let s = self.with_m(3).add16_imm(self.reg.sp);
        s.with_reg(s.reg.with_hl(self.add16_imm_value(self.reg.sp)))
    }

    pub open spec fn ld_sp_hl(self) -> CpuView {
        self.with_m(2).with_sp(self.reg.hl() as int)
    }

    pub open spec fn ld_a_a16(self) -> CpuView {
        self.with_m(4).with_pc(self.reg.pc + 2).with_a(self.bus.read(self.imm16()))
    }

    // ------------------------------------------------------------------
    // the 0xCB-prefixed table
    /// The rotate or shift `op` on operand `i`; SWAP leaves M as it was.
    pub open spec fn cb_shift_op(self, op: u8, i: u8) -> CpuView {
        let x = self.r8(i);
        let r = cb_shift(op, x, self.flags().carry);
        let s = if op == 6 {
            self
        } else {
            self.with_m(2)
        };
        let fs = if op == 6 {
            shift_flags(x, false)
        } else {
            shift_flags(r, cb_shift_carry(op, x))
        };
        s.with_flags(fs).with_r8(i, r)
    }

    /// BIT: Z reports whether the bit is clear.
    pub open spec fn cb_bit_op(self, b: u8, i: u8) -> CpuView {
        self.cb_bit_op_value(b, self.r8(i))
    }

    /// BIT `b` tested on the value `x`.
    pub open spec fn cb_bit_op_value(self, b: u8, x: u8) -> CpuView {
        self.with_m(2).with_flags(
            FlagSet {
                zero: !bit_is_set(x, b),
                negative: false,
                half_carry: true,
                ..self.flags()
            },
        )
    }

    /// The instruction after the 0xCB prefix, `op` being the byte after it.
    pub open spec fn cb_op(self, op: u8) -> CpuView {
        let i = op % 8;
        let y = (op / 8) % 8;
        if op < 0x40 {
            self.cb_shift_op(y, i)
        } else if op < 0x80 {
            self.cb_bit_op(y, i)
        } else if op < 0xC0 {
            self.with_m(2).with_r8(i, res8(self.r8(i), y))
        } else {
            self.with_m(2).with_r8(i, set8(self.r8(i), y))
        }
    }

    pub open spec fn call_cb(self) -> CpuView {
        self.with_pc(self.reg.pc + 1).cb_op(self.imm8())
    }

    // ------------------------------------------------------------------
    // decoding
    /// Whether `op` is an opcode that the CPU executes.
    pub open spec fn is_known(op: u8) -> bool {
        !(op == 0xD3 || op == 0xDB || op == 0xDD || op == 0xE3 || op == 0xE4 || op == 0xEB || op
            == 0xEC || op == 0xED || op == 0xF4 || op == 0xFC || op == 0xFD)
    }

    /// Opcodes 0x00..=0x3F.
    pub open spec fn exec_block0(self, op: u8) -> CpuView {
        let fs = self.flags();
        if op == 0x00 || op == 0x10 {
            self.nop()
        } else if op == 0x01 {
            self.load_bc()
        } else if op == 0x02 {
            self.load_bc_a()
        } else if op == 0x03 {
            self.inc_bc()
        } else if op == 0x07 {
            self.rlca()
        } else if op == 0x17 {
            self.rla()
        } else if op == 0x08 {
            self.load_sp_at_addr()
        } else if op == 0x09 {
            self.with_m(2).add16(self.reg.bc())
        } else if op == 0x0A {
            self.ld_a_bc()
        } else if op == 0x0B {
            self.dec_bc()
        } else if op == 0x0F {
            self.rrca()
        } else if op == 0x11 {
            self.ld_de()
        } else if op == 0x12 {
            self.ld_a()
        } else if op == 0x13 {
            self.inc_de()
        } else if op == 0x18 {
            self.jr()
        } else if op == 0x19 {
            self.with_m(2).add16(self.reg.de())
        } else if op == 0x1A {
            self.ld_a_de()
        } else if op == 0x1B {
            self.dec_de()
        } else if op == 0x1F {
            self.rra()
        } else if op == 0x20 {
            self.jr_if(!fs.zero)
        } else if op == 0x21 {
            self.ld_hl()
        } else if op == 0x22 {
            self.ld_hl_inc_a()
        } else if op == 0x23 {
            self.inc_hl()
        } else if op == 0x27 {
            self.daa()
        } else if op == 0x28 {
            self.jr_if(fs.zero)
        } else if op == 0x29 {
            self.with_m(2).add16(self.reg.hl())
        } else if op == 0x2A {
            self.ld_a_hl_plus()
        } else if op == 0x2B {
            self.dec_hl()
        } else if op == 0x2F {
            self.cpl()
        } else if op == 0x30 {
            self.jr_if(!fs.carry)
        } else if op == 0x31 {
            self.ld_sp()
        } else if op == 0x32 {
            self.ld_hlm_a()
        } else if op == 0x33 {
            self.inc_sp()
        } else if op == 0x34 {
            self.inc_content_at_hl()
        } else if op == 0x35 {
            self.dec_content_at_hl()
        } else if op == 0x36 {
            self.ld_hl_byte()
        } else if op == 0x37 {
            self.scf()
        } else if op == 0x38 {
            self.jr_if(fs.carry)
        } else if op == 0x39 {
            self.with_m(2).add16(self.reg.sp)
        } else if op == 0x3A {
            self.ld_a_hl_dec()
        } else if op == 0x3B {
            self.dec_sp()
        } else if op == 0x3F {
            self.ccf()
        } else if op % 8 == 4 {
            // INC B, C, D, E, H, L, A (0x34 is handled above)
            self.inc_r8(op / 8)
        } else if op % 8 == 5 {
            self.dec_r8(op / 8)
        } else {
            // op % 8 == 6: LD r, d8
            self.load_r8_imm(op / 8)
        }
    }

    /// Opcodes 0xC0..=0xFF.
    pub open spec fn exec_block3(self, op: u8) -> CpuView {
        let fs = self.flags();
        if op == 0xC0 {
            self.ret_if(!fs.zero)
        } else if op == 0xC8 {
            self.ret_if(fs.zero)
        } else if op == 0xD0 {
            self.ret_if(!fs.carry)
        } else if op == 0xD8 {
            self.ret_if(fs.carry)
        } else if op == 0xC9 {
            self.with_m(4).popped().with_pc(self.top() as int)
        } else if op == 0xD9 {
            self.reti()
        } else if op == 0xC1 {
            self.pop_into(0)
        } else if op == 0xD1 {
            self.pop_into(1)
        } else if op == 0xE1 {
            self.pop_into(2)
        } else if op == 0xF1 {
            self.pop_into(3)
        } else if op == 0xC5 {
            self.push_from(self.reg.bc())
        } else if op == 0xD5 {
            self.push_from(self.reg.de())
        } else if op == 0xE5 {
            self.push_from(self.reg.hl())
        } else if op == 0xF5 {
            self.push_from(self.reg.af())
        } else if op == 0xC2 {
            self.jp_if(!fs.zero)
        } else if op == 0xCA {
            self.jp_if(fs.zero)
        } else if op == 0xD2 {
            self.jp_if(!fs.carry)
        } else if op == 0xDA {
            self.jp_if(fs.carry)
        } else if op == 0xC3 {
            self.jp_if(true)
        } else if op == 0xC4 {
            self.call_if(!fs.zero)
        } else if op == 0xCC {
            self.call_if(fs.zero)
        } else if op == 0xD4 {
            self.call_if(!fs.carry)
        } else if op == 0xDC {
            self.call_if(fs.carry)
        } else if op == 0xCD {
            self.call_if(true)
        } else if op == 0xC6 {
            self.add_a_byte()
        } else if op == 0xCE {
            self.adc_a()
        } else if op == 0xD6 {
            self.sub_imm(0)
        } else if op == 0xDE {
            self.sub_imm(self.carry_in())
        } else if op == 0xE6 {
            self.logic_imm(self.reg.a & self.imm8(), true)
        } else if op == 0xEE {
            self.logic_imm(self.reg.a ^ self.imm8(), false)
        } else if op == 0xF6 {
            self.logic_imm(self.reg.a | self.imm8(), false)
        } else if op == 0xFE {
            self.cp_d8()
        } else if op == 0xCB {
            self.call_cb()
        } else if op == 0xE0 {
            self.ld_addr_a()
        } else if op == 0xE2 {
            self.ld_addr_c_a()
        } else if op == 0xE8 {
            self.add_sp()
        } else if op == 0xE9 {
            self.jp_hl()
        } else if op == 0xEA {
            self.ld_addr_a16_a()
        } else if op == 0xF0 {
            self.ld_a_a8()
        } else if op == 0xF2 {
            self.ld_a_c_addr()
        } else if op == 0xF3 {
            self.set_ime(false)
        } else if op == 0xFB {
            self.set_ime(true)
        } else if op == 0xF8 {
            self.ld_hl_sp_s8()
        } else if op == 0xF9 {
            self.ld_sp_hl()
        } else if op == 0xFA {
            self.ld_a_a16()
        } else if op % 8 == 7 {
            // RST to op - 0xC7
            self.rst((op - 0xC7) as u16)
        } else {
            // an opcode the CPU does not know: nothing happens
            self
        }
    }

    /// The effect of opcode `op`, PC already pointing past it.
    pub open spec fn exec_op(self, op: u8) -> CpuView {
        if op < 0x40 {
            self.exec_block0(op)
        } else if op < 0x80 {
            self.load_op(op)
        } else if op < 0xA0 {
            self.math_op(op)
        } else if op < 0xA8 {
            self.and_op(op)
        } else if op < 0xB0 {
            self.xor_op(op)
        } else if op < 0xB8 {
            self.or_op(op)
        } else if op < 0xC0 {
            self.cp_op(op)
        } else {
            self.exec_block3(op)
        }
    }

    /// Whether opcode `op` runs to its end, PC already pointing past it:
    /// reading an operand past 0xFFFF and moving SP below 0 are the inputs
    /// that stop it.
    pub open spec fn op_ok(self, op: u8) -> bool {
        let fs = self.flags();
        let pc = self.reg.pc;
        let sp = self.reg.sp;
        if op == 0x01 || op == 0x11 || op == 0x21 || op == 0x31 || op == 0xC3 || op == 0xEA || op
            == 0xFA || op == 0xC2 || op == 0xCA || op == 0xD2 || op == 0xDA {
            pc <= 0xFFFD
        } else if op == 0x08 {
            pc <= 0xFFFD && self.imm16() < 0xFFFF
        } else if op == 0x06 || op == 0x0E || op == 0x16 || op == 0x1E || op == 0x26 || op == 0x2E
            || op == 0x36 || op == 0x3E || op == 0x18 || op == 0x20 || op == 0x28 || op == 0x30
            || op == 0x38
            || op == 0xC6 || op == 0xCE || op == 0xE6 || op == 0xEE || op == 0xF6 || op == 0xCB
            || op == 0xE0 || op == 0xF0 || op == 0xE8 || op == 0xF8 || op == 0xD6 || op == 0xDE
            || op == 0xFE {
            pc < 0xFFFF
        } else if op == 0xC4 {
            self.call_ok(!fs.zero)
        } else if op == 0xCC {
            self.call_ok(fs.zero)
        } else if op == 0xD4 {
            self.call_ok(!fs.carry)
        } else if op == 0xDC {
            self.call_ok(fs.carry)
        } else if op == 0xCD {
            self.call_ok(true)
        } else if op == 0xC0 {
            self.ret_ok(!fs.zero)
        } else if op == 0xC8 {
            self.ret_ok(fs.zero)
        } else if op == 0xD0 {
            self.ret_ok(!fs.carry)
        } else if op == 0xD8 {
            self.ret_ok(fs.carry)
        } else if op == 0xC1 || op == 0xD1 || op == 0xE1 || op == 0xF1 || op == 0xC9 || op == 0xD9 {
            sp < 0xFFFF
        } else if op == 0xC5 || op == 0xD5 || op == 0xE5 || op == 0xF5 || (op >= 0xC0 && op % 8
            == 7) {
            sp >= 2
        } else {
            true
        }
    }

    /// The opcode at PC.
    pub open spec fn opcode(self) -> u8 {
        self.bus.read(self.reg.pc)
    }

    /// PC moved past the opcode.
    pub open spec fn fetched(self) -> CpuView {
        self.with_pc(self.reg.pc + 1)
    }

    /// Fetch and execute one instruction.
    pub open spec fn execute(self) -> CpuView {
        self.fetched().exec_op(self.opcode())
    }

    pub open spec fn execute_ok(self) -> bool {
        self.reg.pc < 0xFFFF && self.fetched().op_ok(self.opcode())
    }

    /// After the instruction: the timer advanced by its M-cycles.
    pub open spec fn timed(self) -> CpuView {
        let s = self.execute();
        s.with_bus(BusView { timer: s.bus.timer.advanced(s.m), ..s.bus })
    }

    /// Whether the timer interrupt is taken after the instruction.
    pub open spec fn interrupt_taken(self) -> bool {
        self.timed().should_interrupt && self.timed().bus.timer.interrupt
    }

    /// One cycle: unless halted, execute one instruction, advance the timer
    /// and, when interrupts are enabled and the timer overflowed, push PC
    /// and jump to 0x0040.
    pub open spec fn cycle(self) -> CpuView {
        if self.halted {
            self
        } else if self.interrupt_taken() {
            self.timed().pushed(self.timed().reg.pc).with_pc(0x0040)
        } else {
            self.timed()
        }
    }

    /// Whether a cycle runs to its end.
    pub open spec fn cycle_ok(self) -> bool {
        self.halted || (self.execute_ok() && (self.interrupt_taken() ==> self.timed().reg.sp >= 2))
    }
}

} // verus!
