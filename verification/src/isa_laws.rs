//! What the instructions do, stated over the registers, flags and memory
//! before and after them in plain arithmetic, for every input.
use vstd::prelude::*;

use crate::instructions::CpuView;
use crate::register::lemma_flags_roundtrip;

verus! {

// ---------------------------------------------------------------------------
// interrupts

/// With interrupts disabled, and an instruction that is neither EI nor RETI,
/// a cycle never takes the timer interrupt: PC and SP are those the
/// instruction leaves, and memory is not written by the interrupt.
pub proof fn lemma_no_interrupt_while_disabled(s: CpuView)
    requires
        !s.halted,
        !s.should_interrupt,
        s.opcode() != 0xFB,
        s.opcode() != 0xD9,
    ensures
        !s.interrupt_taken(),
        s.cycle() == s.timed(),
        s.cycle().reg.pc == s.execute().reg.pc,
        s.cycle().reg.sp == s.execute().reg.sp,
        s.cycle().bus.vram == s.execute().bus.vram,
        s.cycle().bus.wram == s.execute().bus.wram,
        s.cycle().bus.hram == s.execute().bus.hram,
{
    lemma_interrupt_enable_after(s);
}

/// EI and RETI enable interrupts, DI disables them, and every other
/// instruction leaves the interrupt master enable as it was.
pub proof fn lemma_interrupt_enable_after(s: CpuView)
    ensures
        s.execute().should_interrupt == if s.opcode() == 0xFB || s.opcode() == 0xD9 {
            true
        } else if s.opcode() == 0xF3 {
            false
        } else {
            s.should_interrupt
        },
{
    let t = s.fetched();
    let op = s.opcode();
    if op < 0x40 {
        assert(t.exec_block0(op).should_interrupt == t.should_interrupt);
    } else if op < 0xC0 {
        assert(t.exec_op(op).should_interrupt == t.should_interrupt);
    } else if op == 0xCB {
        assert(t.call_cb().should_interrupt == t.should_interrupt);
    } else {
        assert(t.exec_block3(op).should_interrupt == if op == 0xFB || op == 0xD9 {
            true
        } else if op == 0xF3 {
            false
        } else {
            t.should_interrupt
        });
    }
}

/// With interrupts enabled after the instruction and a timer overflow, the
/// cycle pushes the PC the instruction left and continues at 0x0040.
pub proof fn lemma_interrupt_when_enabled(s: CpuView)
    requires
        !s.halted,
        s.timed().should_interrupt,
        s.timed().bus.timer.interrupt,
        s.timed().reg.sp >= 2,
    ensures
        s.interrupt_taken(),
        s.cycle().reg.pc == 0x0040,
        s.cycle().reg.sp == s.timed().reg.sp - 2,
        s.cycle().bus == s.timed().bus.write_word(
            (s.timed().reg.sp - 2) as u16,
            s.timed().reg.pc,
        ),
{
}

/// A halted CPU neither executes nor takes an interrupt.
pub proof fn lemma_halted_takes_nothing(s: CpuView)
    requires
        s.halted,
    ensures
        s.cycle() == s,
{
}


// ---------------------------------------------------------------------------
// 8-bit arithmetic and compare; `t` is the machine with PC past the opcode

/// The carry flag as a number.
pub open spec fn carry_value(t: CpuView) -> int {
    if t.flags().carry {
        1
    } else {
        0
    }
}

/// ADD A, r (0x80..=0x87): A gets A + r modulo 256; Z reports a zero
/// result, N clears, H and C report the carries out of bits 3 and 7; the
/// carry flag before has no part in it.
pub proof fn lemma_add_register(t: CpuView, op: u8)
    requires
        0x80 <= op <= 0x87,
    ensures
        ({
            let a = t.reg.a as int;
            let r = t.r8((op % 8) as u8) as int;
            let u = t.exec_op(op);
            &&& u.reg.a == (a + r) % 256
            &&& u.flags().zero == ((a + r) % 256 == 0)
            &&& !u.flags().negative
            &&& u.flags().half_carry == (a % 16 + r % 16 > 15)
            &&& u.flags().carry == (a + r > 255)
            &&& u.reg.pc == t.reg.pc
            &&& u.bus == t.bus
        }),
{
    broadcast use lemma_flags_roundtrip;

}

/// ADC A, r (0x88..=0x8F): as ADD, with the carry flag added in.
pub proof fn lemma_adc_register(t: CpuView, op: u8)
    requires
        0x88 <= op <= 0x8F,
    ensures
        ({
            let a = t.reg.a as int;
            let r = t.r8((op % 8) as u8) as int;
            let c = carry_value(t);
            let u = t.exec_op(op);
            &&& u.reg.a == (a + r + c) % 256
            &&& u.flags().zero == ((a + r + c) % 256 == 0)
            &&& !u.flags().negative
            &&& u.flags().half_carry == (a % 16 + r % 16 + c > 15)
            &&& u.flags().carry == (a + r + c > 255)
            &&& u.reg.pc == t.reg.pc
            &&& u.bus == t.bus
        }),
{
    broadcast use lemma_flags_roundtrip;

}

/// SUB r (0x90..=0x97): A gets A - r modulo 256; N sets, H and C report a
/// borrow from bit 4 and from bit 8; the carry flag before has no part in it.
pub proof fn lemma_sub_register(t: CpuView, op: u8)
    requires
        0x90 <= op <= 0x97,
    ensures
        ({
            let a = t.reg.a as int;
            let r = t.r8((op % 8) as u8) as int;
            let u = t.exec_op(op);
            &&& u.reg.a == (a - r + 256) % 256
            &&& u.flags().zero == (a == r)
            &&& u.flags().negative
            &&& u.flags().half_carry == (a % 16 < r % 16)
            &&& u.flags().carry == (r > a)
            &&& u.reg.pc == t.reg.pc
            &&& u.bus == t.bus
        }),
{
    broadcast use lemma_flags_roundtrip;

}

/// SBC A, r (0x98..=0x9F): as SUB, with the carry flag subtracted too.
pub proof fn lemma_sbc_register(t: CpuView, op: u8)
    requires
        0x98 <= op <= 0x9F,
    ensures
        ({
            let a = t.reg.a as int;
            let r = t.r8((op % 8) as u8) as int;
            let c = carry_value(t);
            let u = t.exec_op(op);
            &&& u.reg.a == (a - r - c + 512) % 256
            &&& u.flags().zero == ((a - r - c + 512) % 256 == 0)
            &&& u.flags().negative
            &&& u.flags().half_carry == (a % 16 < r % 16 + c)
            &&& u.flags().carry == (r + c > a)
            &&& u.reg.pc == t.reg.pc
            &&& u.bus == t.bus
        }),
{
    broadcast use lemma_flags_roundtrip;

}

/// CP r (0xB8..=0xBF): A is kept; Z reports A == r, N sets, H reports a
/// borrow from bit 4 and C reports r > A.
pub proof fn lemma_cp_register(t: CpuView, op: u8)
    requires
        0xB8 <= op <= 0xBF,
    ensures
        ({
            let a = t.reg.a as int;
            let r = t.r8((op % 8) as u8) as int;
            let u = t.exec_op(op);
            &&& u.reg.a == a
            &&& u.flags().zero == (a == r)
            &&& u.flags().negative
            &&& u.flags().half_carry == (a % 16 < r % 16)
            &&& u.flags().carry == (r > a)
            &&& u.reg.pc == t.reg.pc
            &&& u.bus == t.bus
        }),
{
    broadcast use lemma_flags_roundtrip;

}

/// AND r, XOR r and OR r (0xA0..=0xB7): A gets the bitwise result; Z
/// reports a zero result, N and C clear, H sets for AND only.
pub proof fn lemma_logic_register(t: CpuView, op: u8)
    requires
        0xA0 <= op <= 0xB7,
    ensures
        ({
            let a = t.reg.a;
            let r = t.r8((op % 8) as u8);
            let u = t.exec_op(op);
            let expected = if op < 0xA8 {
                a & r
            } else if op < 0xB0 {
                a ^ r
            } else {
                a | r
            };
            &&& u.reg.a == expected
            &&& u.flags().zero == (expected == 0)
            &&& !u.flags().negative
            &&& u.flags().half_carry == (op < 0xA8)
            &&& !u.flags().carry
            &&& u.reg.pc == t.reg.pc
        }),
{
    broadcast use lemma_flags_roundtrip;

}

/// The 8-bit operations on the byte after the opcode (ADD, ADC, SUB, SBC,
/// AND, XOR, OR, CP: 0xC6, 0xCE, 0xD6, 0xDE, 0xE6, 0xEE, 0xF6, 0xFE)
/// compute as their register forms on that byte and move PC past it.
#[verifier::rlimit(60)]
pub proof fn lemma_arith_immediate(t: CpuView, op: u8)
    requires
        op == 0xC6 || op == 0xCE || op == 0xD6 || op == 0xDE || op == 0xE6 || op == 0xEE || op
            == 0xF6 || op == 0xFE,
        t.reg.pc < 0xFFFF,
    ensures
        ({
            let a = t.reg.a as int;
            let v = t.bus.read(t.reg.pc);
            let r = v as int;
            let c = carry_value(t);
            let u = t.exec_op(op);
            &&& u.reg.pc == t.reg.pc + 1
            &&& u.bus == t.bus
            &&& (op == 0xC6 ==> u.reg.a == (a + r) % 256 && u.flags().carry == (a + r > 255)
                && u.flags().half_carry == (a % 16 + r % 16 > 15) && !u.flags().negative
                && u.flags().zero == ((a + r) % 256 == 0))
            &&& (op == 0xCE ==> u.reg.a == (a + r + c) % 256 && u.flags().carry == (a + r + c
                > 255) && u.flags().half_carry == (a % 16 + r % 16 + c > 15)
                && !u.flags().negative && u.flags().zero == ((a + r + c) % 256 == 0))
            &&& (op == 0xD6 ==> u.reg.a == (a - r + 256) % 256 && u.flags().carry == (r > a)
                && u.flags().half_carry == (a % 16 < r % 16) && u.flags().negative
                && u.flags().zero == (a == r))
            &&& (op == 0xDE ==> u.reg.a == (a - r - c + 512) % 256 && u.flags().carry == (r + c
                > a) && u.flags().half_carry == (a % 16 < r % 16 + c) && u.flags().negative
                && u.flags().zero == ((a - r - c + 512) % 256 == 0))
            &&& (op == 0xE6 ==> u.reg.a == t.reg.a & v && u.flags().half_carry
                && !u.flags().carry && u.flags().zero == (t.reg.a & v == 0))
            &&& (op == 0xEE ==> u.reg.a == t.reg.a ^ v && !u.flags().half_carry
                && !u.flags().carry && u.flags().zero == (t.reg.a ^ v == 0))
            &&& (op == 0xF6 ==> u.reg.a == t.reg.a | v && !u.flags().half_carry
                && !u.flags().carry && u.flags().zero == (t.reg.a | v == 0))
            &&& (op == 0xFE ==> u.reg.a == a && u.flags().carry == (r > a)
                && u.flags().half_carry == (a % 16 < r % 16) && u.flags().negative
                && u.flags().zero == (a == r))
        }),
{
    broadcast use lemma_flags_roundtrip;

}

/// INC r and DEC r (0x04, 0x05, 0x0C, ... 0x3D, not (HL)): the operand
/// moves by one modulo 256; Z reports a zero result, N reports a decrement,
/// H a carry into or borrow from bit 4; C is kept.
pub proof fn lemma_inc_dec_register(t: CpuView, op: u8)
    requires
        op < 0x40,
        op % 8 == 4 || op % 8 == 5,
        op / 8 != 6,
    ensures
        ({
            let i = (op / 8) as u8;
            let x = t.r8(i) as int;
            let u = t.exec_op(op);
            let y = if op % 8 == 4 {
                (x + 1) % 256
            } else {
                (x + 255) % 256
            };
            &&& u.r8(i) == y
            &&& u.flags().zero == (y == 0)
            &&& u.flags().negative == (op % 8 == 5)
            &&& u.flags().half_carry == if op % 8 == 4 {
                x % 16 == 15
            } else {
                x % 16 == 0
            }
            &&& u.flags().carry == t.flags().carry
            &&& u.reg.pc == t.reg.pc
            &&& u.bus == t.bus
        }),
{
    broadcast use lemma_flags_roundtrip;

}


// ---------------------------------------------------------------------------
// the 0xCB-prefixed instructions; `t` is the machine with PC past 0xCB

/// The rotates and shifts (0xCB 0x00..=0x3F): bits 3 to 5 pick RLC, RRC, RL,
/// RR, SLA, SRA, SWAP or SRL, the low three bits the operand. The result is
/// stored back in the operand; Z reports a zero result, N and H clear, and
/// C gets the bit shifted out (SWAP clears it).
#[verifier::rlimit(50)]
pub proof fn lemma_cb_rotate_shift(t: CpuView)
    requires
        t.reg.pc < 0xFFFF,
        t.bus.read(t.reg.pc) < 0x40,
    ensures
        ({
            let cb = t.bus.read(t.reg.pc);
            let y = cb / 8;
            let i = cb % 8;
            let x = t.r8(i) as int;
            let c = carry_value(t);
            let u = t.exec_op(0xCB);
            let expected = if y == 0 {
                (x * 2) % 256 + x / 128
            } else if y == 1 {
                x / 2 + (x % 2) * 128
            } else if y == 2 {
                (x * 2) % 256 + c
            } else if y == 3 {
                x / 2 + c * 128
            } else if y == 4 {
                (x * 2) % 256
            } else if y == 5 {
                x / 2 + if x >= 128 {
                    128int
                } else {
                    0int
                }
            } else if y == 6 {
                (x % 16) * 16 + x / 16
            } else {
                x / 2
            };
            let carry_out = if y == 0 || y == 2 || y == 4 {
                x >= 128
            } else if y == 6 {
                false
            } else {
                x % 2 == 1
            };
            &&& (i != 6 ==> u.r8(i) == expected)
            &&& (i == 6 ==> u.bus == t.bus.write(t.reg.hl(), expected as u8))
            &&& u.flags().zero == (expected == 0)
            &&& !u.flags().negative
            &&& !u.flags().half_carry
            &&& u.flags().carry == carry_out
            &&& u.reg.pc == t.reg.pc + 1
            &&& u.reg.sp == t.reg.sp
        }),
{
    broadcast use lemma_flags_roundtrip;

    let cb = t.bus.read(t.reg.pc);
    let t2 = t.with_pc(t.reg.pc + 1);
    let y = cb / 8;
    let i = cb % 8;
    assert(t.exec_op(0xCB) == t2.cb_shift_op(y, i));
    assert(t2.r8(i) == t.r8(i));
    assert(t2.flags() == t.flags());
}

/// Bit `j` of `x`, counted from the least significant.
pub open spec fn bit_of(x: u8, j: u8) -> bool {
    (x >> j) % 2 == 1
}

proof fn lemma_bit_masks(x: u8, y: u8, j: u8)
    by (bit_vector)
    requires
        y < 8,
        j < 8,
    ensures
        (x & (1u8 << y) != 0) == ((x >> y) % 2 == 1),
        ((x & !(1u8 << y)) >> j) % 2 == (if j == y {
            0u8
        } else {
            (x >> j) % 2
        }),
        ((x | (1u8 << y)) >> j) % 2 == (if j == y {
            1u8
        } else {
            (x >> j) % 2
        }),
{
}

/// BIT y, r (0xCB 0x40..=0x7F): Z is set exactly when bit y of the operand
/// is clear; N clears, H sets, C is kept, and no register or memory
/// changes.
pub proof fn lemma_cb_bit(t: CpuView)
    requires
        t.reg.pc < 0xFFFF,
        0x40 <= t.bus.read(t.reg.pc) < 0x80,
    ensures
        ({
            let cb = t.bus.read(t.reg.pc);
            let y = (cb / 8 % 8) as u8;
            let x = t.r8((cb % 8) as u8);
            let u = t.exec_op(0xCB);
            &&& u.flags().zero == !bit_of(x, y)
            &&& !u.flags().negative
            &&& u.flags().half_carry
            &&& u.flags().carry == t.flags().carry
            &&& u.bus == t.bus
            &&& u.reg.a == t.reg.a && u.reg.b == t.reg.b && u.reg.c == t.reg.c && u.reg.d
                == t.reg.d && u.reg.e == t.reg.e && u.reg.h == t.reg.h && u.reg.l == t.reg.l
            &&& u.reg.pc == t.reg.pc + 1
        }),
{
    broadcast use lemma_flags_roundtrip;

    let cb = t.bus.read(t.reg.pc);
    lemma_bit_masks(t.r8((cb % 8) as u8), (cb / 8 % 8) as u8, 0);
}

/// RES y, r and SET y, r (0xCB 0x80..=0xFF): bit y of the operand becomes
/// 0 (RES) or 1 (SET), every other bit is kept, and the flags are kept.
pub proof fn lemma_cb_res_set(t: CpuView, j: u8)
    requires
        t.reg.pc < 0xFFFF,
        0x80 <= t.bus.read(t.reg.pc),
        t.bus.read(t.reg.pc) % 8 != 6,
        j < 8,
    ensures
        ({
            let cb = t.bus.read(t.reg.pc);
            let y = (cb / 8 % 8) as u8;
            let i = (cb % 8) as u8;
            let x = t.r8(i);
            let u = t.exec_op(0xCB);
            &&& bit_of(u.r8(i), j) == if j == y {
                cb >= 0xC0
            } else {
                bit_of(x, j)
            }
            &&& u.reg.f == t.reg.f
            &&& u.bus == t.bus
            &&& u.reg.pc == t.reg.pc + 1
        }),
{
    let cb = t.bus.read(t.reg.pc);
    lemma_bit_masks(t.r8((cb % 8) as u8), (cb / 8 % 8) as u8, j);
}

// ---------------------------------------------------------------------------
// control flow; `t` is the machine with PC past the opcode

/// The condition of a conditional jump, call or return, from its opcode:
/// NZ, Z, NC, C by bits 3 and 4; the unconditional forms always hold.
pub open spec fn condition_holds(t: CpuView, op: u8) -> bool {
    let z = t.flags().zero;
    let c = t.flags().carry;
    if op == 0xC3 || op == 0xCD || op == 0xC9 || op == 0xD9 || op == 0x18 {
        true
    } else if op == 0xC2 || op == 0xC4 || op == 0xC0 || op == 0x20 {
        !z
    } else if op == 0xCA || op == 0xCC || op == 0xC8 || op == 0x28 {
        z
    } else if op == 0xD2 || op == 0xD4 || op == 0xD0 || op == 0x30 {
        !c
    } else {
        c
    }
}

/// JP and JP cc (0xC3, 0xC2, 0xCA, 0xD2, 0xDA): when the condition holds PC
/// becomes the little-endian word after the opcode, else PC moves past it;
/// SP, the flags and memory are kept.
pub proof fn lemma_jump_absolute(t: CpuView, op: u8)
    requires
        op == 0xC3 || op == 0xC2 || op == 0xCA || op == 0xD2 || op == 0xDA,
        t.reg.pc <= 0xFFFD,
    ensures
        ({
            let u = t.exec_op(op);
            let target = t.bus.read(t.reg.pc) + 256 * t.bus.read((t.reg.pc + 1) as u16);
            &&& u.reg.pc == if condition_holds(t, op) {
                target
            } else {
                t.reg.pc + 2
            }
            &&& u.reg.sp == t.reg.sp
            &&& u.reg.f == t.reg.f
            &&& u.bus == t.bus
        }),
{
}

/// JR and JR cc (0x18, 0x20, 0x28, 0x30, 0x38): when the condition holds PC
/// moves by the signed byte after the opcode, counted from the next
/// instruction, else PC moves past the byte; SP, flags and memory are kept.
pub proof fn lemma_jump_relative(t: CpuView, op: u8)
    requires
        op == 0x18 || op == 0x20 || op == 0x28 || op == 0x30 || op == 0x38,
        t.reg.pc < 0xFFFF,
    ensures
        ({
            let u = t.exec_op(op);
            let e = t.bus.read(t.reg.pc) as int;
            let offset = if e < 128 {
                e
            } else {
                e - 256
            };
            &&& u.reg.pc == if condition_holds(t, op) {
                (t.reg.pc + 1 + offset + 65536) % 65536
            } else {
                t.reg.pc + 1
            }
            &&& u.reg.sp == t.reg.sp
            &&& u.reg.f == t.reg.f
            &&& u.bus == t.bus
        }),
{
}

/// CALL and CALL cc (0xCD, 0xC4, 0xCC, 0xD4, 0xDC): when the condition
/// holds the address of the next instruction is stored below SP (high byte
/// on top), SP moves down two bytes and PC becomes the word after the
/// opcode as memory then holds it; else PC moves past that word.
pub proof fn lemma_call(t: CpuView, op: u8)
    requires
        op == 0xCD || op == 0xC4 || op == 0xCC || op == 0xD4 || op == 0xDC,
        t.reg.pc <= 0xFFFD,
        t.reg.sp >= 2,
    ensures
        ({
            let u = t.exec_op(op);
            let ret = t.reg.pc + 2;
            let stored = t.bus.write((t.reg.sp - 2) as u16, (ret % 256) as u8).write(
                (t.reg.sp - 1) as u16,
                (ret / 256) as u8,
            );
            &&& condition_holds(t, op) ==> {
                &&& u.reg.sp == t.reg.sp - 2
                &&& u.bus == stored
                &&& u.reg.pc == stored.read(t.reg.pc) + 256 * stored.read((t.reg.pc + 1) as u16)
            }
            &&& !condition_holds(t, op) ==> {
                &&& u.reg.sp == t.reg.sp
                &&& u.bus == t.bus
                &&& u.reg.pc == t.reg.pc + 2
            }
            &&& u.reg.f == t.reg.f
        }),
{
}

/// RET, RETI and RET cc (0xC9, 0xD9, 0xC0, 0xC8, 0xD0, 0xD8): when the
/// condition holds PC becomes the word at SP and SP moves up two bytes;
/// else both are kept. RETI also enables interrupts.
pub proof fn lemma_return(t: CpuView, op: u8)
    requires
        op == 0xC9 || op == 0xD9 || op == 0xC0 || op == 0xC8 || op == 0xD0 || op == 0xD8,
        t.reg.sp < 0xFFFF,
    ensures
        ({
            let u = t.exec_op(op);
            &&& u.reg.pc == if condition_holds(t, op) {
                t.bus.read(t.reg.sp) + 256 * t.bus.read((t.reg.sp + 1) as u16)
            } else {
                t.reg.pc as int
            }
            &&& u.reg.sp == if condition_holds(t, op) {
                (t.reg.sp + 2) % 65536
            } else {
                t.reg.sp as int
            }
            &&& u.reg.f == t.reg.f
            &&& u.bus == t.bus
            &&& (op == 0xD9 ==> u.should_interrupt)
        }),
{
}

/// RST n (0xC7, 0xCF, ... 0xFF): PC is stored below SP, SP moves down two
/// bytes and PC becomes 8 times bits 3 to 5 of the opcode.
#[verifier::rlimit(50)]
pub proof fn lemma_restart(t: CpuView, op: u8)
    requires
        op >= 0xC0,
        op % 8 == 7,
        t.reg.sp >= 2,
    ensures
        ({
            let u = t.exec_op(op);
            &&& u.reg.pc == 8 * ((op / 8) % 8)
            &&& u.reg.sp == t.reg.sp - 2
            &&& u.bus == t.bus.write((t.reg.sp - 2) as u16, (t.reg.pc % 256) as u8).write(
                (t.reg.sp - 1) as u16,
                (t.reg.pc / 256) as u8,
            )
        }),
{
    assert(op == 0xC7 || op == 0xCF || op == 0xD7 || op == 0xDF || op == 0xE7 || op == 0xEF || op
        == 0xF7 || op == 0xFF);
    assert(t.exec_op(op) == t.exec_block3(op));
    assert(t.exec_block3(op) == t.rst((op - 0xC7) as u16));
}

/// JP HL (0xE9): PC becomes H * 256 + L.
pub proof fn lemma_jump_hl(t: CpuView)
    ensures
        t.exec_op(0xE9).reg.pc == t.reg.h * 256 + t.reg.l,
        t.exec_op(0xE9).reg.sp == t.reg.sp,
{
}


// ---------------------------------------------------------------------------
// loads and 16-bit arithmetic; `t` is the machine with PC past the opcode

/// The register pair numbered `p` in an opcode (BC, DE, HL, SP), as a
/// number.
pub open spec fn pair_value(t: CpuView, p: int) -> int {
    if p == 0 {
        t.reg.b * 256 + t.reg.c
    } else if p == 1 {
        t.reg.d * 256 + t.reg.e
    } else if p == 2 {
        t.reg.h * 256 + t.reg.l
    } else {
        t.reg.sp as int
    }
}

/// LD r, r' (0x40..=0x7F but 0x76): the destination operand (bits 3 to 5)
/// gets the source operand (bits 0 to 2); the flags are kept. HALT (0x76)
/// only halts the CPU.
pub proof fn lemma_load_register(t: CpuView, op: u8)
    requires
        0x40 <= op < 0x80,
    ensures
        ({
            let u = t.exec_op(op);
            let d = ((op / 8) % 8) as u8;
            let src = (op % 8) as u8;
            &&& op != 0x76 && d != 6 ==> u.r8(d) == t.r8(src)
            &&& op != 0x76 && d == 6 ==> u.bus == t.bus.write(
                (t.reg.h * 256 + t.reg.l) as u16,
                t.r8(src),
            )
            &&& op == 0x76 ==> u.halted && u.reg == t.reg && u.bus == t.bus
            &&& u.reg.f == t.reg.f
            &&& u.reg.pc == t.reg.pc
            &&& u.reg.sp == t.reg.sp
        }),
{
}

/// LD r, d8 (0x06, 0x0E, ..., 0x3E): the operand gets the byte after the
/// opcode and PC moves past it; the flags are kept.
pub proof fn lemma_load_immediate8(t: CpuView, op: u8)
    requires
        op < 0x40,
        op % 8 == 6,
        t.reg.pc < 0xFFFF,
    ensures
        ({
            let u = t.exec_op(op);
            let d = (op / 8) as u8;
            &&& d != 6 ==> u.r8(d) == t.bus.read(t.reg.pc)
            &&& d == 6 ==> u.bus == t.bus.write(
                (t.reg.h * 256 + t.reg.l) as u16,
                t.bus.read(t.reg.pc),
            )
            &&& u.reg.pc == t.reg.pc + 1
            &&& u.reg.f == t.reg.f
        }),
{
}

/// LD rr, d16 (0x01, 0x11, 0x21, 0x31): the pair gets the little-endian
/// word after the opcode and PC moves past it.
pub proof fn lemma_load_immediate16(t: CpuView, op: u8)
    requires
        op == 0x01 || op == 0x11 || op == 0x21 || op == 0x31,
        t.reg.pc <= 0xFFFD,
    ensures
        ({
            let u = t.exec_op(op);
            &&& pair_value(u, (op / 16) as int) == t.bus.read(t.reg.pc) + 256 * t.bus.read(
                (t.reg.pc + 1) as u16,
            )
            &&& u.reg.pc == t.reg.pc + 2
            &&& u.reg.f == t.reg.f
            &&& u.bus == t.bus
        }),
{
}

/// INC rr and DEC rr (0x03, 0x0B, 0x13, ..., 0x3B): the pair moves by one
/// modulo 65536; the flags are kept.
pub proof fn lemma_inc_dec_pair(t: CpuView, op: u8)
    requires
        op < 0x40,
        op % 8 == 3,
    ensures
        ({
            let u = t.exec_op(op);
            let p = (op / 16) as int;
            &&& pair_value(u, p) == if op % 16 == 3 {
                (pair_value(t, p) + 1) % 65536
            } else {
                (pair_value(t, p) + 65535) % 65536
            }
            &&& u.reg.f == t.reg.f
            &&& u.reg.a == t.reg.a
            &&& u.bus == t.bus
        }),
{
}

/// ADD HL, rr (0x09, 0x19, 0x29, 0x39): HL gets HL + rr modulo 65536; Z is
/// kept, N clears, H reports a carry out of bit 10 and C out of bit 15.
pub proof fn lemma_add_hl(t: CpuView, op: u8)
    requires
        op == 0x09 || op == 0x19 || op == 0x29 || op == 0x39,
    ensures
        ({
            let u = t.exec_op(op);
            let hl = pair_value(t, 2);
            let v = pair_value(t, (op / 16) as int);
            &&& pair_value(u, 2) == (hl + v) % 65536
            &&& u.flags().zero == t.flags().zero
            &&& !u.flags().negative
            &&& u.flags().half_carry == (hl % 0x800 + v % 0x800 > 0x7FF)
            &&& u.flags().carry == (hl + v > 0xFFFF)
            &&& u.bus == t.bus
        }),
{
    broadcast use lemma_flags_roundtrip;

}

/// The loads through a pair: LD (BC), A; LD (DE), A; LD (HL+), A;
/// LD (HL-), A store A at the pair's address, and LD A, (BC); LD A, (DE);
/// LD A, (HL+); LD A, (HL-) load it from there; the HL forms then move HL
/// by one. The flags are kept.
pub proof fn lemma_load_indirect(t: CpuView, op: u8)
    requires
        op < 0x40,
        op % 8 == 2,
    ensures
        ({
            let u = t.exec_op(op);
            let p = (op / 16) as int;
            let addr = if p <= 1 {
                pair_value(t, p)
            } else {
                pair_value(t, 2)
            };
            let store = op % 16 == 2;
            &&& store ==> u.bus == t.bus.write(addr as u16, t.reg.a)
            &&& !store ==> u.reg.a == t.bus.read(addr as u16) && u.bus == t.bus
            &&& p == 2 ==> pair_value(u, 2) == (addr + 1) % 65536
            &&& p == 3 ==> pair_value(u, 2) == (addr + 65535) % 65536
            &&& p <= 1 ==> pair_value(u, 2) == pair_value(t, 2)
            &&& u.reg.f == t.reg.f
        }),
{
}

/// LDH (a8), A; LDH A, (a8); LD (C), A; LD A, (C); LD (a16), A; LD A, (a16):
/// A is stored at or loaded from 0xFF00 plus the byte after the opcode, 0xFF00
/// plus C, or the word after the opcode.
pub proof fn lemma_load_addressed(t: CpuView, op: u8)
    requires
        op == 0xE0 || op == 0xF0 || op == 0xE2 || op == 0xF2 || op == 0xEA || op == 0xFA,
        t.reg.pc <= 0xFFFD,
    ensures
        ({
            let u = t.exec_op(op);
            let addr = if op == 0xE0 || op == 0xF0 {
                0xFF00 + t.bus.read(t.reg.pc)
            } else if op == 0xE2 || op == 0xF2 {
                0xFF00 + t.reg.c
            } else {
                t.bus.read(t.reg.pc) + 256 * t.bus.read((t.reg.pc + 1) as u16)
            };
            &&& (op == 0xE0 || op == 0xE2 || op == 0xEA) ==> u.bus == t.bus.write(
                addr as u16,
                t.reg.a,
            )
            &&& (op == 0xF0 || op == 0xF2 || op == 0xFA) ==> u.reg.a == t.bus.read(addr as u16)
                && u.bus == t.bus
            &&& u.reg.pc == t.reg.pc + if op == 0xE2 || op == 0xF2 {
                0int
            } else if op == 0xE0 || op == 0xF0 {
                1int
            } else {
                2int
            }
            &&& u.reg.f == t.reg.f
        }),
{
}

/// INC (HL) and DEC (HL) (0x34, 0x35): the byte at HL moves by one modulo
/// 256, with the flags of an 8-bit INC or DEC (C kept).
pub proof fn lemma_inc_dec_memory(t: CpuView, op: u8)
    requires
        op == 0x34 || op == 0x35,
    ensures
        ({
            let u = t.exec_op(op);
            let hl = (t.reg.h * 256 + t.reg.l) as u16;
            let x = t.bus.read(hl) as int;
            let y = if op == 0x34 {
                (x + 1) % 256
            } else {
                (x + 255) % 256
            };
            &&& u.bus == t.bus.write(hl, y as u8)
            &&& u.flags().zero == (y == 0)
            &&& u.flags().negative == (op == 0x35)
            &&& u.flags().half_carry == if op == 0x34 {
                x % 16 == 15
            } else {
                x % 16 == 0
            }
            &&& u.flags().carry == t.flags().carry
        }),
{
    broadcast use lemma_flags_roundtrip;

}

/// PUSH rr (0xC5, 0xD5, 0xE5, 0xF5 for BC, DE, HL, AF): the pair is stored
/// below SP, high byte on top, and SP moves down two bytes. POP rr (0xC1,
/// 0xD1, 0xE1, 0xF1): the pair gets the word at SP (F keeps only its upper
/// nibble) and SP moves up two bytes.
#[verifier::rlimit(60)]
pub proof fn lemma_push_pop(t: CpuView, op: u8)
    requires
        op >= 0xC0,
        op % 16 == 1 || op % 16 == 5,
        op % 16 == 5 ==> t.reg.sp >= 2,
        op % 16 == 1 ==> t.reg.sp < 0xFFFF,
    ensures
        ({
            let u = t.exec_op(op);
            let p = ((op - 0xC0) / 16) as int;
            let value = if p == 3 {
                t.reg.a * 256 + t.reg.f
            } else {
                pair_value(t, p)
            };
            let top = t.bus.read(t.reg.sp) + 256 * t.bus.read((t.reg.sp + 1) as u16);
            &&& op % 16 == 5 ==> u.reg.sp == t.reg.sp - 2 && u.bus == t.bus.write(
                (t.reg.sp - 2) as u16,
                (value % 256) as u8,
            ).write((t.reg.sp - 1) as u16, (value / 256) as u8)
            &&& op % 16 == 1 && p < 3 ==> pair_value(u, p) == top && u.reg.sp == (t.reg.sp + 2)
                % 65536
            &&& op % 16 == 1 && p == 3 ==> u.reg.a == top / 256 && u.reg.f == top % 256 - top % 16
                && u.reg.sp == (t.reg.sp + 2) % 65536
        }),
{
    assert(op == 0xC1 || op == 0xD1 || op == 0xE1 || op == 0xF1 || op == 0xC5 || op == 0xD5 || op
        == 0xE5 || op == 0xF5);
    assert(t.exec_op(op) == t.exec_block3(op));
}

// ---------------------------------------------------------------------------
// rotates of A and the flag instructions

/// RLCA, RRCA, RLA and RRA (0x07, 0x0F, 0x17, 0x1F): A rotates by one bit,
/// round itself (RLCA, RRCA) or through the carry (RLA, RRA); C gets the bit
/// rotated out. RLCA, RRCA and RLA clear Z, N and H; RRA keeps them.
pub proof fn lemma_rotate_a(t: CpuView, op: u8)
    requires
        op == 0x07 || op == 0x0F || op == 0x17 || op == 0x1F,
    ensures
        ({
            let u = t.exec_op(op);
            let x = t.reg.a as int;
            let c = carry_value(t);
            &&& u.reg.a == if op == 0x07 {
                (x * 2) % 256 + x / 128
            } else if op == 0x0F {
                x / 2 + (x % 2) * 128
            } else if op == 0x17 {
                (x * 2) % 256 + c
            } else {
                x / 2 + c * 128
            }
            &&& u.flags().carry == if op == 0x07 || op == 0x17 {
                x >= 128
            } else {
                x % 2 == 1
            }
            &&& op != 0x1F ==> !u.flags().zero && !u.flags().negative && !u.flags().half_carry
            &&& op == 0x1F ==> u.flags().zero == t.flags().zero && u.flags().negative
                == t.flags().negative && u.flags().half_carry == t.flags().half_carry
        }),
{
    broadcast use lemma_flags_roundtrip;

}

/// CPL (0x2F) complements A and sets N and H; SCF (0x37) sets C; CCF (0x3F)
/// flips C; SCF and CCF clear N and H. Z is kept by all three.
pub proof fn lemma_flag_instructions(t: CpuView, op: u8)
    requires
        op == 0x2F || op == 0x37 || op == 0x3F,
    ensures
        ({
            let u = t.exec_op(op);
            &&& u.flags().zero == t.flags().zero
            &&& op == 0x2F ==> u.reg.a == 255 - t.reg.a && u.flags().negative
                && u.flags().half_carry && u.flags().carry == t.flags().carry
            &&& op == 0x37 ==> u.flags().carry && !u.flags().negative && !u.flags().half_carry
                && u.reg.a == t.reg.a
            &&& op == 0x3F ==> u.flags().carry == !t.flags().carry && !u.flags().negative
                && !u.flags().half_carry && u.reg.a == t.reg.a
        }),
{
    broadcast use lemma_flags_roundtrip;

}

/// ADD SP, e (0xE8) and LD HL, SP + e (0xF8): SP + e, with e the signed byte
/// after the opcode, goes to SP or to HL; Z and N clear, H and C report the
/// carries out of bits 3 and 7 of the unsigned low byte sum. LD SP, HL
/// (0xF9) copies HL to SP.
pub proof fn lemma_stack_pointer_arith(t: CpuView, op: u8)
    requires
        op == 0xE8 || op == 0xF8 || op == 0xF9,
        t.reg.pc < 0xFFFF,
    ensures
        ({
            let u = t.exec_op(op);
            let sp = t.reg.sp as int;
            let e = t.bus.read(t.reg.pc) as int;
            let sum = (sp + e + if e >= 128 { 0xFF00int } else { 0int }) % 65536;
            &&& op == 0xE8 ==> u.reg.sp == sum
            &&& op == 0xF8 ==> pair_value(u, 2) == sum && u.reg.sp == sp
            &&& op != 0xF9 ==> !u.flags().zero && !u.flags().negative && u.flags().half_carry == (
            sp % 16 + e % 16 > 15) && u.flags().carry == (sp % 256 + e > 255)
            &&& op != 0xF9 ==> u.reg.pc == t.reg.pc + 1
            &&& op == 0xF9 ==> u.reg.sp == pair_value(t, 2) && u.reg.f == t.reg.f
        }),
{
    broadcast use lemma_flags_roundtrip;

}

/// LD (a16), SP (0x08): SP is stored at the word after the opcode, low byte
/// first.
pub proof fn lemma_store_sp(t: CpuView)
    requires
        t.reg.pc <= 0xFFFD,
    ensures
        ({
            let u = t.exec_op(0x08);
            let addr = t.bus.read(t.reg.pc) + 256 * t.bus.read((t.reg.pc + 1) as u16);
            &&& u.bus == t.bus.write(addr as u16, (t.reg.sp % 256) as u8).write(
                (addr + 1) as u16,
                (t.reg.sp / 256) as u8,
            )
            &&& u.reg.pc == t.reg.pc + 2
            &&& u.reg.f == t.reg.f
        }),
{
}

/// NOP, STOP and the opcodes the CPU does not know change nothing beyond the
/// cycles of the instruction.
pub proof fn lemma_no_operation(t: CpuView, op: u8)
    requires
        op == 0x00 || op == 0x10 || !CpuView::is_known(op),
    ensures
        t.exec_op(op).reg == t.reg,
        t.exec_op(op).bus == t.bus,
        t.exec_op(op).halted == t.halted,
        t.exec_op(op).should_interrupt == t.should_interrupt,
{
}


// ---------------------------------------------------------------------------
// timing

/// The M-cycles an instruction takes, by kind: 1 for the register-only
/// 8-bit operations, loads between operands and HALT; 2 for the 8-bit
/// operations on an immediate byte; 4 for PUSH and RST, 3 for POP; a taken
/// JP 4 and a skipped one 3; a taken CALL 6 and a skipped one 3; a taken
/// conditional RET 5 and a skipped one 2.
#[verifier::rlimit(80)]
pub proof fn lemma_cycles(t: CpuView, op: u8)
    ensures
        0x40 <= op < 0xC0 ==> t.exec_op(op).m == 1,
        (op == 0xC6 || op == 0xCE || op == 0xD6 || op == 0xDE || op == 0xE6 || op == 0xEE || op
            == 0xF6 || op == 0xFE) ==> t.exec_op(op).m == 2,
        (op >= 0xC0 && op % 16 == 5) ==> t.exec_op(op).m == 4,
        (op >= 0xC0 && op % 16 == 1) ==> t.exec_op(op).m == 3,
        (op >= 0xC0 && op % 8 == 7) ==> t.exec_op(op).m == 4,
        (op == 0xC3 || op == 0xC2 || op == 0xCA || op == 0xD2 || op == 0xDA) ==> t.exec_op(op).m
            == if condition_holds(t, op) {
            4u8
        } else {
            3u8
        },
        (op == 0xCD || op == 0xC4 || op == 0xCC || op == 0xD4 || op == 0xDC) ==> t.exec_op(op).m
            == if condition_holds(t, op) {
            6u8
        } else {
            3u8
        },
        (op == 0xC0 || op == 0xC8 || op == 0xD0 || op == 0xD8) ==> t.exec_op(op).m
            == if condition_holds(t, op) {
            5u8
        } else {
            2u8
        },
        (op == 0x18 || op == 0x20 || op == 0x28 || op == 0x30 || op == 0x38) ==> t.exec_op(op).m
            == if condition_holds(t, op) {
            3u8
        } else {
            2u8
        },
{
}

/// Without an interrupt, a cycle advances the timer by the M-cycles of the
/// instruction it executed.
pub proof fn lemma_cycle_advances_timer(s: CpuView)
    requires
        !s.halted,
        !s.interrupt_taken(),
    ensures
        s.cycle().bus.timer == s.execute().bus.timer.advanced(s.execute().m),
        s.cycle().reg == s.execute().reg,
{
}

} // verus!
