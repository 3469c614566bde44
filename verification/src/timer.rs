//! The divider and the programmable timer (registers 0xFF04 to 0xFF07).
use vstd::prelude::*;

verus! {

/// Register addresses of the timer.
pub const DIV: u16 = 0xFF04;

pub const TIMA: u16 = 0xFF05;

pub const TMA: u16 = 0xFF06;

pub const TAC: u16 = 0xFF07;

/// M-cycles per tick of the divider (16384 Hz at 1.05 MHz).
pub const DIV_PERIOD: u16 = 64;

/// The divider, the counter, its reload value and its control register,
/// with the M-cycles not yet turned into ticks.
#[derive(Clone, Copy, Debug, PartialEq, Eq, Structural)]
pub struct Timer {
    pub div: u8,
    pub tima: u8,
    pub tma: u8,
    pub tac: u8,
    /// M-cycles since the divider last ticked.
    pub div_cycles: u8,
    /// M-cycles since the counter last ticked.
    pub tima_cycles: u32,
    /// Whether the counter overflowed during the last update.
    pub interrupt: bool,
}

/// M-cycles per tick of the counter, chosen by the two low bits of TAC.
pub open spec fn tima_period(tac: u8) -> u32 {
    let sel = tac % 4;
    if sel == 0 {
        256
    } else if sel == 1 {
        4
    } else if sel == 2 {
        16
    } else {
        64
    }
}

/// Whether bit 2 of TAC enables the counter.
pub open spec fn timer_enabled(tac: u8) -> bool {
    (tac / 4) % 2 == 1
}

/// The counter and whether it overflowed after `k` ticks: each tick adds
/// one, and a tick on 0xFF reloads the counter from TMA.
pub open spec fn tima_after(tima: u8, tma: u8, k: nat) -> (u8, bool)
    decreases k,
{
    if k == 0 {
        (tima, false)
    } else {
        let (t, o) = tima_after(tima, tma, (k - 1) as nat);
        if t == 0xFF {
            (tma, true)
        } else {
            ((t + 1) as u8, o)
        }
    }
}

impl Timer {
    pub open spec fn power_on() -> Timer {
        Timer { div: 0, tima: 0, tma: 0, tac: 0, div_cycles: 0, tima_cycles: 0, interrupt: false }
    }

    pub open spec fn wf(self) -> bool {
        self.div_cycles < 64 && self.tima_cycles < 256
    }

    /// The value read at `addr` (0xFF for an address the timer does not hold).
    pub open spec fn read(self, addr: u16) -> u8 {
        if addr == DIV {
            self.div
        } else if addr == TIMA {
            self.tima
        } else if addr == TMA {
            self.tma
        } else if addr == TAC {
            self.tac
        } else {
            0xFF
        }
    }

    /// The timer after writing `value` at `addr`: a write to DIV clears it.
    pub open spec fn write(self, addr: u16, value: u8) -> Timer {
        if addr == DIV {
            Timer { div: 0, div_cycles: 0, ..self }
        } else if addr == TIMA {
            Timer { tima: value, ..self }
        } else if addr == TMA {
            Timer { tma: value, ..self }
        } else if addr == TAC {
            Timer { tac: value, ..self }
        } else {
            self
        }
    }

    /// The timer after `m` M-cycles.
    pub open spec fn advanced(self, m: u8) -> Timer {
        let total = self.div_cycles + m;
        let div = ((self.div + total / 64) % 256) as u8;
        let div_cycles = (total % 64) as u8;
        if timer_enabled(self.tac) {
            let counted = self.tima_cycles + m;
            let period = tima_period(self.tac) as int;
            let (tima, overflow) = tima_after(self.tima, self.tma, (counted / period) as nat);
            Timer {
                div,
                div_cycles,
                tima,
                tima_cycles: (counted % period) as u32,
                interrupt: overflow,
                ..self
            }
        } else {
            Timer { div, div_cycles, interrupt: false, ..self }
        }
    }

    pub fn new() -> (t: Timer)
        ensures
            t == Timer::power_on(),
    {
        Timer { div: 0, tima: 0, tma: 0, tac: 0, div_cycles: 0, tima_cycles: 0, interrupt: false }
    }

    pub fn read_byte(&self, addr: u16) -> (v: u8)
        ensures
            v == self.read(addr),
    {
        if addr == DIV {
            self.div
        } else if addr == TIMA {
            self.tima
        } else if addr == TMA {
            self.tma
        } else if addr == TAC {
            self.tac
        } else {
            0xFF
        }
    }

    pub fn write_byte(&mut self, addr: u16, value: u8)
        ensures
            *final(self) == old(self).write(addr, value),
    {
        if addr == DIV {
            self.div = 0;
            self.div_cycles = 0;
        } else if addr == TIMA {
            self.tima = value;
        } else if addr == TMA {
            self.tma = value;
        } else if addr == TAC {
            self.tac = value;
        }
    }

    /// The counter's tick period for the current TAC.
    fn period(&self) -> (p: u32)
        ensures
            p == tima_period(self.tac),
    {
        let sel = self.tac % 4;
        if sel == 0 {
            256
        } else if sel == 1 {
            4
        } else if sel == 2 {
            16
        } else {
            64
        }
    }

    /// Advances the divider and, when enabled, the counter by `m` M-cycles.
    pub fn update(&mut self, m: u8)
        requires
            old(self).wf(),
        ensures
            *final(self) == old(self).advanced(m),
            final(self).wf(),
    {
        let total: u16 = self.div_cycles as u16 + m as u16;
        self.div = ((self.div as u16 + total / DIV_PERIOD) % 256) as u8;
        self.div_cycles = (total % DIV_PERIOD) as u8;
        if (self.tac / 4) % 2 == 1 {
            let period = self.period();
            let start: u32 = self.tima_cycles + m as u32;
            let mut counter: u32 = start;
            let mut tima: u8 = self.tima;
            let mut overflow = false;
            let ghost mut ticks: nat = 0;
            while counter >= period
                invariant
                    period == tima_period(self.tac),
                    period > 0,
                    period <= 256,
                    counter + ticks * period == start,
                    (tima, overflow) == tima_after(self.tima, self.tma, ticks),
                decreases counter,
            {
                counter = counter - period;
                if tima == 0xFF {
                    tima = self.tma;
                    overflow = true;
                } else {
                    tima = tima + 1;
                }
                proof {
                    ticks = ticks + 1;
                    assert(counter + ticks * period == start) by (nonlinear_arith)
                        requires
                            counter + period + (ticks - 1) * period == start,
                    ;
                }
            }
            proof {
                lemma_div_by_period(start as int, period as int, counter as int, ticks as int);
            }
            self.tima = tima;
            self.tima_cycles = counter;
            self.interrupt = overflow;
        } else {
            self.interrupt = false;
        }
    }
}

/// TIMA counts up by one per tick until it passes 0xFF, and no interrupt is
/// raised on the way.
pub proof fn lemma_tima_counts(tima: u8, tma: u8, k: nat)
    requires
        tima + k <= 255,
    ensures
        tima_after(tima, tma, k) == ((tima + k) as u8, false),
    decreases k,
{
    if k > 0 {
        lemma_tima_counts(tima, tma, (k - 1) as nat);
    }
}

/// The tick that takes TIMA past 0xFF reloads it from TMA and raises the
/// interrupt.
pub proof fn lemma_tima_overflows(tima: u8, tma: u8)
    ensures
        tima_after(tima, tma, (256 - tima) as nat) == (tma, true),
{
    lemma_tima_counts(tima, tma, (255 - tima) as nat);
}

/// Ticks add up: `j` ticks and then `k` more leave TIMA where `j + k` ticks
/// do.
pub proof fn lemma_tima_ticks_compose(tima: u8, tma: u8, j: nat, k: nat)
    ensures
        tima_after(tima_after(tima, tma, j).0, tma, k).0 == tima_after(tima, tma, j + k).0,
    decreases k,
{
    if k > 0 {
        lemma_tima_ticks_compose(tima, tma, j, (k - 1) as nat);
    }
}

/// A disabled timer only moves the divider: TIMA is kept and no interrupt is
/// raised.
pub proof fn lemma_disabled_timer(t: Timer, m: u8)
    requires
        !timer_enabled(t.tac),
    ensures
        t.advanced(m).tima == t.tima,
        !t.advanced(m).interrupt,
{
}

/// The divider counts M-cycles in units of 64: advancing by `a` and then by
/// `b` moves it as advancing by `a + b` does, and it is the number of whole
/// 64-cycle periods modulo 256.
pub proof fn lemma_divider_composes(t: Timer, a: u8, b: u8)
    requires
        t.wf(),
        a + b <= 255,
    ensures
        t.advanced(a).advanced(b).div == t.advanced((a + b) as u8).div,
        t.advanced(a).advanced(b).div_cycles == t.advanced((a + b) as u8).div_cycles,
        t.advanced(a).div == (t.div + (t.div_cycles + a) / 64) % 256,
{
    let x = t.div_cycles + a;
    vstd::arithmetic::div_mod::lemma_fundamental_div_mod(x, 64);
    let y = x % 64 + b;
    vstd::arithmetic::div_mod::lemma_fundamental_div_mod(y, 64);
    vstd::arithmetic::div_mod::lemma_fundamental_div_mod(x + b, 64);
    assert((x + b) / 64 == x / 64 + y / 64) by {
        vstd::arithmetic::div_mod::lemma_fundamental_div_mod_converse(
            x + b,
            64,
            x / 64 + y / 64,
            y % 64,
        );
    }
    assert((x + b) % 64 == y % 64) by {
        vstd::arithmetic::div_mod::lemma_fundamental_div_mod_converse(
            x + b,
            64,
            x / 64 + y / 64,
            y % 64,
        );
    }
    vstd::arithmetic::div_mod::lemma_add_mod_noop(t.div + x / 64, y / 64, 256);
}

/// With the timer enabled and no cycles pending, TIMA ticks once after 4,
/// 16 or 64 M-cycles when the two low bits of TAC are 1, 2 or 3, and not
/// before; with them 0 it does not tick within 255 M-cycles.
pub proof fn lemma_timer_rates(t: Timer)
    requires
        timer_enabled(t.tac),
        t.tima_cycles == 0,
    ensures
        t.tac % 4 == 1 ==> t.advanced(3).tima == t.tima && t.advanced(4).tima == tima_after(
            t.tima,
            t.tma,
            1,
        ).0,
        t.tac % 4 == 2 ==> t.advanced(15).tima == t.tima && t.advanced(16).tima == tima_after(
            t.tima,
            t.tma,
            1,
        ).0,
        t.tac % 4 == 3 ==> t.advanced(63).tima == t.tima && t.advanced(64).tima == tima_after(
            t.tima,
            t.tma,
            1,
        ).0,
        t.tac % 4 == 0 ==> t.advanced(255).tima == t.tima,
{
}

proof fn lemma_div_by_period(start: int, period: int, rest: int, ticks: int)
    requires
        period > 0,
        0 <= rest < period,
        ticks >= 0,
        rest + ticks * period == start,
    ensures
        start / period == ticks,
        start % period == rest,
{
    vstd::arithmetic::div_mod::lemma_fundamental_div_mod_converse(start, period, ticks, rest);
}

} // verus!
