//! Properties of the machine that span several instructions or steps.
use vstd::prelude::*;

use crate::alu::{
    add_flags, bcd_value, bit_is_set, carry_only, dec8, inc8, is_bcd, res8, rl8, rlc8, rr8, rrc8,
    set8, sub_flags, swap8, to_bcd,
};
use crate::bus::{lemma_word_roundtrip, write_cell, BusView};
use crate::serial::{starts_transfer, SB, SC};
use crate::instructions::CpuView;
use vstd::arithmetic::div_mod::lemma_fundamental_div_mod_converse;
use crate::register::{lemma_flags_of_byte, Flags};

verus! {

/// After the flags are cleared, no flag is active.
pub proof fn lemma_reset_clears_every_flag(s: CpuView, flag: Flags)
    ensures
        !s.with_flags(carry_only(false)).flags().get(flag),
        s.with_flags(carry_only(false)).reg.f == 0,
{
    lemma_flags_of_byte(carry_only(false));
}

/// After a flag is set it is active, and every other flag is as it was.
pub proof fn lemma_set_flag_then_active(s: CpuView, flag: Flags, other: Flags)
    ensures
        s.with_flags(s.flags().with(flag, true)).flags().get(flag),
        other != flag ==> s.with_flags(s.flags().with(flag, true)).flags().get(other) == s.flags().get(
            other,
        ),
{
    lemma_flags_of_byte(s.flags().with(flag, true));
}

/// After a flag is cleared it is not active, and every other flag is as it
/// was.
pub proof fn lemma_unset_flag_then_inactive(s: CpuView, flag: Flags, other: Flags)
    ensures
        !s.with_flags(s.flags().with(flag, false)).flags().get(flag),
        other != flag ==> s.with_flags(s.flags().with(flag, false)).flags().get(other)
            == s.flags().get(other),
{
    lemma_flags_of_byte(s.flags().with(flag, false));
}

/// Incrementing and then decrementing a byte gives it back, and the other
/// way round.
pub proof fn lemma_inc_dec_inverse(x: u8)
    ensures
        dec8(inc8(x)) == x,
        inc8(dec8(x)) == x,
{
}

/// A left rotation is undone by a right rotation, and the other way round.
pub proof fn lemma_rotate_inverse(x: u8)
    ensures
        rrc8(rlc8(x)) == x,
        rlc8(rrc8(x)) == x,
{
}

/// Rotating left through the carry and back through the carry that came
/// out gives the byte back.
pub proof fn lemma_rotate_through_carry_inverse(x: u8, c: bool)
    ensures
        rr8(rl8(x, c), x >= 128) == x,
        rl8(rr8(x, c), x % 2 == 1) == x,
{
}

/// Swapping the nibbles twice gives the byte back.
pub proof fn lemma_swap_involution(x: u8)
    ensures
        swap8(swap8(x)) == x,
{
}

/// A bit that was just cleared tests clear, one that was just set tests set,
/// and the other bits are unchanged.
pub proof fn lemma_res_set_then_bit(x: u8, b: u8, other: u8)
    requires
        b < 8,
        other < 8,
    ensures
        !bit_is_set(res8(x, b), b),
        bit_is_set(set8(x, b), b),
        other != b ==> bit_is_set(res8(x, b), other) == bit_is_set(x, other),
        other != b ==> bit_is_set(set8(x, b), other) == bit_is_set(x, other),
{
    assert(b < 8 && other < 8 ==> {
        &&& (x & !(1u8 << b)) & (1u8 << b) == 0
        &&& (x | (1u8 << b)) & (1u8 << b) != 0
        &&& (other != b ==> ((x & !(1u8 << b)) & (1u8 << other) != 0) == (x & (1u8 << other)
            != 0))
        &&& (other != b ==> ((x | (1u8 << b)) & (1u8 << other) != 0) == (x & (1u8 << other)
            != 0))
    }) by (bit_vector);
}

/// BIT after SET of the same bit clears Z, and after RES of it sets Z; H is
/// set and N clear either way.
pub proof fn lemma_bit_after_set_or_res(s: CpuView, x: u8, b: u8)
    requires
        b < 8,
    ensures
        !s.cb_bit_op_value(b, set8(x, b)).flags().zero,
        s.cb_bit_op_value(b, res8(x, b)).flags().zero,
        s.cb_bit_op_value(b, x).flags().half_carry,
        !s.cb_bit_op_value(b, x).flags().negative,
{
    lemma_res_set_then_bit(x, b, b);
    lemma_flags_of_byte(
        crate::register::FlagSet {
            zero: !bit_is_set(set8(x, b), b),
            negative: false,
            half_carry: true,
            ..s.flags()
        },
    );
    lemma_flags_of_byte(
        crate::register::FlagSet {
            zero: !bit_is_set(res8(x, b), b),
            negative: false,
            half_carry: true,
            ..s.flags()
        },
    );
    lemma_flags_of_byte(
        crate::register::FlagSet {
            zero: !bit_is_set(x, b),
            negative: false,
            half_carry: true,
            ..s.flags()
        },
    );
}

/// A word pushed where its two bytes are distinct RAM bytes is what a pop
/// then reads, and the pop brings SP back to where it was.
pub proof fn lemma_push_then_pop(s: CpuView, value: u16)
    requires
        s.wf(),
        2 <= s.reg.sp,
        write_cell((s.reg.sp - 2) as u16) is Some,
        write_cell((s.reg.sp - 1) as u16) is Some,
        write_cell((s.reg.sp - 2) as u16) != write_cell((s.reg.sp - 1) as u16),
    ensures
        s.pushed(value).top() == value,
        s.pushed(value).popped().reg.sp == s.reg.sp,
{
    lemma_word_roundtrip(s.bus, (s.reg.sp - 2) as u16, value);
}

/// CALL followed by RET comes back to the instruction after the CALL with
/// SP where it was, when the two bytes of the return address are distinct
/// RAM bytes. `s` is the machine with PC past the CALL opcode.
pub proof fn lemma_call_then_return(s: CpuView)
    requires
        s.wf(),
        2 <= s.reg.sp,
        s.reg.pc <= 0xFFFD,
        write_cell((s.reg.sp - 2) as u16) is Some,
        write_cell((s.reg.sp - 1) as u16) is Some,
        write_cell((s.reg.sp - 2) as u16) != write_cell((s.reg.sp - 1) as u16),
    ensures
        ({
            let called = s.call_if(true);
            let back = called.with_m(4).popped().with_pc(called.top() as int);
            back.reg.pc == s.reg.pc + 2 && back.reg.sp == s.reg.sp
        }),
{
    lemma_push_then_pop(s.with_m(6), (s.reg.pc + 2) as u16);
}

/// A byte put in SB and sent by a write to SC that starts a transfer is
/// appended to what the serial port has sent.
pub proof fn lemma_serial_sends(b: BusView, x: u8, control: u8)
    requires
        starts_transfer(control),
    ensures
        b.write(SB, x).write(SC, control).serial.output == b.serial.output.push(x),
{
}

/// A halted CPU does nothing in a cycle.
pub proof fn lemma_halted_cycle(s: CpuView)
    requires
        s.halted,
    ensures
        s.cycle() == s,
{
}

/// HALT (0x76) stops the CPU: the next cycles change nothing.
pub proof fn lemma_halt_stops(s: CpuView)
    requires
        !s.halted,
        s.opcode() == 0x76,
    ensures
        s.execute().halted,
        s.cycle().halted,
        s.cycle().cycle() == s.cycle(),
{
}

/// An opcode the CPU does not know only moves PC past it.
pub proof fn lemma_unknown_opcode(s: CpuView)
    requires
        !CpuView::is_known(s.opcode()),
    ensures
        s.execute() == s.fetched(),
{
}

/// Every flag byte has a clear lower nibble.
pub proof fn lemma_flag_bytes_low_nibble()
    ensures
        forall|fs: crate::register::FlagSet| #[trigger] fs.byte() % 16 == 0,
{
    assert forall|fs: crate::register::FlagSet| #[trigger] fs.byte() % 16 == 0 by {
        lemma_flags_of_byte(fs);
    }
}

/// The lower nibble of F is zero after every instruction when it was zero
/// before.
pub proof fn lemma_execute_keeps_flag_nibble(s: CpuView)
    requires
        s.reg.f % 16 == 0,
    ensures
        s.execute().reg.f % 16 == 0,
{
    lemma_flag_bytes_low_nibble();
    let t = s.fetched();
    let op = s.opcode();
    if op >= 0xC0 {
        let v = t.top();
        assert(((v - v % 16) as u16 % 256) % 16 == 0);
    }
}

/// The lower nibble of F is zero after every cycle when it was zero before:
/// no instruction, timer tick or interrupt sets it.
pub proof fn lemma_cycle_keeps_flag_nibble(s: CpuView)
    requires
        s.reg.f % 16 == 0,
    ensures
        s.cycle().reg.f % 16 == 0,
{
    lemma_execute_keeps_flag_nibble(s);
}

/// Every write of a word keeps the bus well formed.
pub broadcast proof fn lemma_write_word_keeps_wf(b: crate::bus::BusView, addr: u16, value: u16)
    requires
        b.wf(),
    ensures
        #[trigger] b.write_word(addr, value).wf(),
{
    broadcast use crate::bus::lemma_write_keeps_wf;

}

/// Storing into any operand keeps the machine well formed.
pub broadcast proof fn lemma_with_r8_keeps_wf(s: CpuView, i: u8, v: u8)
    requires
        s.wf(),
    ensures
        #[trigger] s.with_r8(i, v).wf(),
{
    broadcast use crate::bus::lemma_write_keeps_wf;

}

/// Every instruction keeps the machine well formed.
#[verifier::rlimit(50)]
pub proof fn lemma_exec_op_keeps_wf(t: CpuView, op: u8)
    requires
        t.wf(),
    ensures
        t.exec_op(op).wf(),
{
    broadcast use {
        crate::bus::lemma_write_keeps_wf,
        lemma_write_word_keeps_wf,
        lemma_with_r8_keeps_wf,
    };

    if op < 0x40 {
        assert(t.exec_block0(op).wf());
    } else if op < 0xC0 {
        assert(t.exec_op(op).wf());
    } else if op == 0xCB {
        assert(t.call_cb().wf());
    } else {
        assert(t.exec_block3(op).wf());
    }
}

/// Every cycle keeps the machine well formed: the RAM sizes and the timer's
/// counters stay in range.
pub proof fn lemma_cycle_keeps_wf(s: CpuView)
    requires
        s.wf(),
    ensures
        s.execute().wf(),
        s.cycle().wf(),
{
    broadcast use {crate::bus::lemma_timer_keeps_wf, lemma_write_word_keeps_wf};

    lemma_exec_op_keeps_wf(s.fetched(), s.opcode());
}

/// Apart from LD SP, d16 (0x31), LD SP, HL (0xF9) and ADD SP, s8 (0xE8), an
/// instruction moves SP by at most two bytes.
#[verifier::rlimit(50)]
pub proof fn lemma_execute_moves_sp_little(s: CpuView)
    requires
        2 <= s.reg.sp <= 0xFFFD,
        s.opcode() != 0x31,
        s.opcode() != 0xF9,
        s.opcode() != 0xE8,
    ensures
        s.reg.sp - 2 <= s.execute().reg.sp <= s.reg.sp + 2,
{
    let t = s.fetched();
    let op = s.opcode();
    if op < 0x40 {
        assert(t.exec_block0(op).reg.sp == t.reg.sp || op == 0x33 || op == 0x3B);
    } else if op < 0xC0 {
        assert(t.exec_op(op).reg.sp == t.reg.sp);
    } else if op == 0xCB {
        assert(t.call_cb().reg.sp == t.reg.sp);
    } else {
        assert(s.reg.sp - 2 <= t.exec_block3(op).reg.sp <= s.reg.sp + 2);
    }
}

/// The arithmetic behind DAA after an addition of two BCD bytes `x` and
/// `y`: with `r` the binary sum modulo 256 and the half carry and carry it
/// produced, adding the adjustment gives the BCD form of the decimal sum
/// modulo 100, and the adjustment reaches 0x60 exactly on a decimal carry.
proof fn lemma_daa_add_arith(x: u8, y: u8)
    requires
        is_bcd(x),
        is_bcd(y),
    ensures
        ({
            let r = (x + y) % 256;
            let low = x % 16 + y % 16 > 15 || r % 16 > 9;
            let high = x + y > 255 || r > 0x99;
            let adjust = (if high { 0x60int } else { 0int }) + (if low { 6int } else { 0int });
            let sum = bcd_value(x) + bcd_value(y);
            &&& (r + adjust) % 256 == to_bcd(sum % 100)
            &&& (adjust >= 0x60) == (sum >= 100)
        }),
{
    let xh: int = (x / 16) as int;
    let xl: int = (x % 16) as int;
    let yh: int = (y / 16) as int;
    let yl: int = (y % 16) as int;
    let sl = xl + yl;
    let sh = xh + yh;
    let c0: int = if sl >= 10 { 1 } else { 0 };
    let d0 = sl - 10 * c0;
    let t = sh + c0;
    let c1: int = if t >= 10 { 1 } else { 0 };
    let d1 = t - 10 * c1;
    let sum = bcd_value(x) + bcd_value(y);
    assert(sum == 100 * c1 + 10 * d1 + d0);
    lemma_fundamental_div_mod_converse(sum, 100, c1, 10 * d1 + d0);
    lemma_fundamental_div_mod_converse(10 * d1 + d0, 10, d1, d0);
    assert(to_bcd(sum % 100) == 16 * d1 + d0);
    let w: int = if x + y > 255 { 1 } else { 0 };
    let r = 16 * (sh - 16 * w) + sl;
    lemma_fundamental_div_mod_converse(x + y, 256, w, r);
    if sl <= 15 {
        lemma_fundamental_div_mod_converse(r, 16, sh - 16 * w, sl);
    } else {
        lemma_fundamental_div_mod_converse(r, 16, sh - 16 * w + 1, sl - 16);
    }
    let high = x + y > 255 || r > 0x99;
    assert(high == (c1 == 1));
    let adjust = 0x60 * c1 + 6 * c0;
    assert(r + adjust == 256 * (c1 - w) + 16 * d1 + d0);
    lemma_fundamental_div_mod_converse(r + adjust, 256, c1 - w, 16 * d1 + d0);
}

/// The arithmetic behind DAA after a subtraction of BCD byte `y` from `x`:
/// with `r` the binary difference modulo 256 and the half borrow and
/// borrow it produced, taking the adjustment away gives the BCD form of the
/// decimal difference modulo 100, and the adjustment reaches 0x60 exactly
/// on a decimal borrow.
proof fn lemma_daa_sub_arith(x: u8, y: u8)
    requires
        is_bcd(x),
        is_bcd(y),
    ensures
        ({
            let r = (x + 512 - y) % 256;
            let low = x % 16 < y % 16;
            let high = y > x;
            let adjust = (if high { 0x60int } else { 0int }) + (if low { 6int } else { 0int });
            let diff = bcd_value(x) - bcd_value(y);
            &&& (r + 512 - adjust) % 256 == to_bcd(if diff < 0 { diff + 100 } else { diff })
            &&& (adjust >= 0x60) == (diff < 0)
        }),
{
    let xh: int = (x / 16) as int;
    let xl: int = (x % 16) as int;
    let yh: int = (y / 16) as int;
    let yl: int = (y % 16) as int;
    let b0: int = if xl < yl { 1 } else { 0 };
    let d0 = xl - yl + 10 * b0;
    let t = xh - yh - b0;
    let b1: int = if t < 0 { 1 } else { 0 };
    let d1 = t + 10 * b1;
    let diff = bcd_value(x) - bcd_value(y);
    assert(diff + 100 * b1 == 10 * d1 + d0);
    assert((y > x) == (b1 == 1));
    lemma_fundamental_div_mod_converse(10 * d1 + d0, 10, d1, d0);
    assert(to_bcd(if diff < 0 { diff + 100 } else { diff }) == 16 * d1 + d0);
    let w: int = if y > x { 1 } else { 2 };
    let r = x + 512 - y - 256 * w;
    lemma_fundamental_div_mod_converse(x + 512 - y, 256, w, r);
    let adjust = 0x60 * b1 + 6 * b0;
    assert(r + 512 - adjust == 256 * (4 - w - b1) + 16 * d1 + d0);
    lemma_fundamental_div_mod_converse(r + 512 - adjust, 256, 4 - w - b1, 16 * d1 + d0);
}

/// ADD A, B (0x80) on two BCD bytes followed by DAA (0x27) leaves in A the BCD form of
/// the decimal sum modulo 100, with the carry set exactly when the decimal
/// sum reaches 100, Z set exactly when A is 0, and H and N clear.
pub proof fn lemma_daa_after_add(s: CpuView)
    requires
        is_bcd(s.reg.a),
        is_bcd(s.reg.b),
    ensures
        ({
            let t = s.exec_op(0x80).exec_op(0x27);
            let sum = bcd_value(s.reg.a) + bcd_value(s.reg.b);
            &&& t.reg.a == to_bcd(sum % 100)
            &&& t.flags().carry == (sum >= 100)
            &&& t.flags().zero == (t.reg.a == 0)
            &&& !t.flags().half_carry
            &&& !t.flags().negative
        }),
{
    let x = s.reg.a;
    let y = s.reg.b;
    let r = crate::alu::add8(x, y, 0);
    lemma_flags_of_byte(add_flags(x, y, 0, r));
    let s1 = s.math_op(0x80);
    assert(s.exec_op(0x80) == s1);
    assert(s1.exec_op(0x27) == s1.daa());
    assert(s1.flags() == add_flags(x, y, 0, r));
    lemma_daa_add_arith(x, y);
    lemma_flags_of_byte(
        crate::register::FlagSet {
            zero: s1.daa().reg.a == 0,
            half_carry: false,
            carry: s1.daa_adjust() >= 0x60,
            ..s1.flags()
        },
    );
}

/// SUB B (0x90) on two BCD bytes followed by DAA (0x27) leaves in A the BCD form of the
/// decimal difference modulo 100, with the carry set exactly when the
/// decimal difference is negative (a borrow), Z set exactly when A is 0, H
/// clear and N set.
pub proof fn lemma_daa_after_sub(s: CpuView)
    requires
        is_bcd(s.reg.a),
        is_bcd(s.reg.b),
    ensures
        ({
            let t = s.exec_op(0x90).exec_op(0x27);
            let diff = bcd_value(s.reg.a) - bcd_value(s.reg.b);
            &&& t.reg.a == to_bcd(if diff < 0 { diff + 100 } else { diff })
            &&& t.flags().carry == (diff < 0)
            &&& t.flags().zero == (t.reg.a == 0)
            &&& !t.flags().half_carry
            &&& t.flags().negative
        }),
{
    let x = s.reg.a;
    let y = s.reg.b;
    let r = crate::alu::sub8(x, y, 0);
    lemma_flags_of_byte(sub_flags(x, y, 0, r));
    let s1 = s.math_op(0x90);
    assert(s.exec_op(0x90) == s1);
    assert(s1.exec_op(0x27) == s1.daa());
    assert(s1.flags() == sub_flags(x, y, 0, r));
    lemma_daa_sub_arith(x, y);
    lemma_flags_of_byte(
        crate::register::FlagSet {
            zero: s1.daa().reg.a == 0,
            half_carry: false,
            carry: s1.daa_adjust() >= 0x60,
            ..s1.flags()
        },
    );
}

} // verus!
