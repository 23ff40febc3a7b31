//! The timer: the DIV prescaler and the TIMA counter with its reload value.
use vstd::prelude::*;

verus! {

/// The line that the timer raises in the interrupt flags.
pub const TIMER_INTERRUPT: u8 = 0x04;

pub struct Timer {
    /// Ticks gathered towards the next increment of DIV.
    pub internal_div: u32,
    /// Ticks gathered towards the next increment of TIMA.
    pub internal_count: u32,
    /// Ticks per increment of TIMA: 1024, 16, 64 or 256.
    pub step: u32,
    /// Pending interrupt lines.
    pub inter: u8,
    pub div: u8,
    pub tima: u8,
    pub tma: u8,
    pub enabled: bool,
}

/// The ticks per TIMA increment that the two clock-select bits stand for.
pub open spec fn step_of(select: int) -> u32 {
    if select == 0 {
        1024
    } else if select == 1 {
        16
    } else if select == 2 {
        64
    } else {
        256
    }
}

/// The clock-select bits that stand for a number of ticks per increment.
pub open spec fn select_of(step: u32) -> u8 {
    if step == 1024 {
        0
    } else if step == 16 {
        1
    } else if step == 64 {
        2
    } else {
        3
    }
}

impl Default for Timer {
    fn default() -> (timer: Timer)
        ensures
            timer == Timer::reset(),
            timer.wf(),
    {
        Timer {
            internal_div: 0,
            internal_count: 0,
            step: 256,
            inter: 0,
            div: 0x18,
            tima: 0x00,
            tma: 0x00,
            enabled: false,
        }
    }
}

impl Timer {
    /// The timer at power-on: DIV at 0x18, 256 ticks per increment, disabled.
    pub open spec fn reset() -> Timer {
        Timer {
            internal_div: 0,
            internal_count: 0,
            step: 256,
            inter: 0,
            div: 0x18,
            tima: 0x00,
            tma: 0x00,
            enabled: false,
        }
    }

    /// The step is one of the four that TAC can select, and neither
    /// accumulator holds a whole period of the longest clock.
    pub open spec fn wf(self) -> bool {
        &&& (self.step == 1024 || self.step == 16 || self.step == 64 || self.step == 256)
        &&& self.internal_div < 256
        &&& self.internal_count < 1024
    }

    /// What TAC reads as: the clock select in bits 0 and 1, the enable bit in
    /// bit 2, and ones above.
    pub open spec fn tac_byte(self) -> u8 {
        (0xF8 + (if self.enabled { 4int } else { 0 }) + select_of(self.step)) as u8
    }

    /// Any write to DIV clears it, together with the ticks gathered for it.
    pub open spec fn after_write_div(self) -> Timer {
        Timer { div: 0, internal_div: 0, ..self }
    }

    /// A write to TAC picks the step by its two low bits and enables the
    /// timer by bit 2.
    pub open spec fn after_write_tac(self, value: u8) -> Timer {
        Timer { step: step_of(value as int % 4), enabled: (value / 4) % 2 == 1, ..self }
    }

    /// One increment of TIMA: past 0xFF it reloads from TMA and raises the
    /// timer line.
    pub open spec fn bumped(self) -> Timer {
        if self.tima == 0xFF {
            Timer { tima: self.tma, inter: TIMER_INTERRUPT, ..self }
        } else {
            Timer { tima: (self.tima + 1) as u8, ..self }
        }
    }

    /// TIMA incremented once for every whole step that `acc` ticks hold; the
    /// ticks left over stay in the accumulator.
    pub open spec fn counted(self, acc: int) -> Timer
        decreases acc,
    {
        if self.step > 0 && acc >= self.step {
            self.bumped().counted(acc - self.step)
        } else {
            Timer { internal_count: acc as u32, ..self }
        }
    }

    /// DIV moved on by one for every 256 ticks gathered, modulo 256.
    pub open spec fn divided(self, ticks: u32) -> Timer {
        let acc = self.internal_div + ticks;
        Timer { div: ((self.div + acc / 256) % 256) as u8, internal_div: (acc % 256) as u32, ..self }
    }

    /// The timer after `ticks` dot ticks.
    pub open spec fn after_cycle(self, ticks: u32) -> Timer {
        if self.enabled {
            self.divided(ticks).counted(self.internal_count + ticks)
        } else {
            self.divided(ticks)
        }
    }

    /// Tells whether the timer is well formed.
    pub fn is_well_formed(&self) -> (ok: bool)
        ensures
            ok == self.wf(),
    {
        (self.step == 1024 || self.step == 16 || self.step == 64 || self.step == 256)
            && self.internal_div < 256 && self.internal_count < 1024
    }

    /// The timer after `calls` calls of `cycle`, each of `ticks` dot ticks.
    pub open spec fn after_cycles(self, ticks: u32, calls: nat) -> Timer
        decreases calls,
    {
        if calls == 0 {
            self
        } else {
            self.after_cycles(ticks, (calls - 1) as nat).after_cycle(ticks)
        }
    }

    /// Reads DIV.
    pub fn read_div(&self) -> (value: u8)
        ensures
            value == self.div,
    {
        self.div
    }

    /// Any write to DIV clears it, together with the ticks gathered for it.
    pub fn write_div(&mut self, _value: u8)
        ensures
            *final(self) == old(self).after_write_div(),
            old(self).wf() ==> final(self).wf(),
    {
        self.div = 0;
        self.internal_div = 0;
    }

    /// Reads TIMA.
    pub fn read_tima(&self) -> (value: u8)
        ensures
            value == self.tima,
    {
        self.tima
    }

    /// Writes TIMA.
    pub fn write_tima(&mut self, value: u8)
        ensures
            *final(self) == (Timer { tima: value, ..*old(self) }),
    {
        self.tima = value;
    }

    /// Reads TMA.
    pub fn read_tma(&self) -> (value: u8)
        ensures
            value == self.tma,
    {
        self.tma
    }

    /// Reads TAC.
    pub fn read_tac(&self) -> (value: u8)
        ensures
            value == self.tac_byte(),
    {
        let clk: u8 = if self.step == 1024 {
            0
        } else if self.step == 16 {
            1
        } else if self.step == 64 {
            2
        } else {
            3
        };
        let en: u8 = if self.enabled { 4 } else { 0 };
        0xF8 + en + clk
    }

    /// Writes TAC.
    pub fn write_tac(&mut self, value: u8)
        ensures
            *final(self) == old(self).after_write_tac(value),
            old(self).wf() ==> final(self).wf(),
    {
        let select: u8 = value % 4;
        self.step = if select == 0 {
            1024
        } else if select == 1 {
            16
        } else if select == 2 {
            64
        } else {
            256
        };
        self.enabled = (value / 4) % 2 == 1;
    }

    /// Writes TMA.
    pub fn write_tma(&mut self, value: u8)
        ensures
            *final(self) == (Timer { tma: value, ..*old(self) }),
    {
        self.tma = value
    }

    /// Moves the timer on by `ticks` dot ticks.
    pub fn cycle(&mut self, ticks: u32)
        requires
            old(self).wf(),
        ensures
            *final(self) == old(self).after_cycle(ticks),
            final(self).wf(),
    {
        let mut acc: u64 = self.internal_div as u64 + ticks as u64;
        let ghost total = acc;
        while acc >= 256
            invariant
                (self.div + acc / 256) % 256 == (old(self).div + total / 256) % 256,
                acc % 256 == total % 256,
                *self == (Timer { div: self.div, ..*old(self) }),
            decreases acc,
        {
            self.div = if self.div == 0xFF { 0 } else { self.div + 1 };
            acc -= 256;
        }
        self.internal_div = acc as u32;
        assert(*self == old(self).divided(ticks));

        if self.enabled {
            let mut left: u64 = self.internal_count as u64 + ticks as u64;
            let ghost goal = self.counted(left as int);
            while left >= self.step as u64
                invariant
                    self.step > 0,
                    self.step <= 1024,
                    self.internal_div < 256,
                    self.step == old(self).step,
                    self.counted(left as int) == goal,
                decreases left,
            {
                if self.tima == 0xFF {
                    self.tima = self.tma;
                    self.inter = TIMER_INTERRUPT;
                } else {
                    self.tima = self.tima + 1;
                }
                left -= self.step as u64;
            }
            self.internal_count = left as u32;
        }
    }

    /// The interrupt lines that the timer has raised and nobody has taken.
    pub fn interrupt(&self) -> (lines: u8)
        ensures
            lines == self.inter,
    {
        self.inter
    }

    /// Takes the pending lines away.
    pub fn ack(&mut self)
        ensures
            *final(self) == (Timer { inter: 0, ..*old(self) }),
    {
        self.inter = 0;
    }
}

/// TAC reads back what was written to it, with ones in its upper five bits.
pub proof fn tac_reads_back(timer: Timer, value: u8)
    ensures
        timer.after_write_tac(value).tac_byte() == value | 0xF8,
{
    assert(0xF8 + value % 8 == value | 0xF8) by (bit_vector);
}

/// While the timer is disabled no number of ticks moves TIMA or raises the
/// timer line.
pub proof fn disabled_timer_keeps_tima(timer: Timer, ticks: u32)
    requires
        !timer.enabled,
    ensures
        timer.after_cycle(ticks).tima == timer.tima,
        timer.after_cycle(ticks).inter == timer.inter,
{
}

/// `n` whole steps in the accumulator move TIMA up by `n` as long as it does
/// not pass 0xFF; the ticks below a step stay behind.
pub proof fn counted_without_overflow(timer: Timer, n: nat, rest: int)
    requires
        timer.step > 0,
        0 <= rest < timer.step,
        timer.tima + n <= 0xFF,
    ensures
        timer.counted(n * timer.step + rest) == (Timer {
            tima: (timer.tima + n) as u8,
            internal_count: rest as u32,
            ..timer
        }),
    decreases n,
{
    let step = timer.step as int;
    if n > 0 {
        assert(n * step + rest - step == (n - 1) * step + rest) by (nonlinear_arith);
        assert(n * step + rest >= step) by (nonlinear_arith)
            requires
                n >= 1,
                step > 0,
                rest >= 0,
        ;
        counted_without_overflow(timer.bumped(), (n - 1) as nat, rest);
    } else {
        assert(n * step + rest == rest) by (nonlinear_arith)
            requires
                n == 0,
        ;
    }
}

/// Enabled at 16 ticks per increment, `16 * n` ticks move TIMA up by exactly
/// `n` as long as it does not pass 0xFF.
pub proof fn enabled_timer_counts_steps(timer: Timer, n: nat)
    requires
        timer.wf(),
        timer.enabled,
        timer.step == 16,
        timer.internal_count < 16,
        16 * n <= u32::MAX,
        timer.tima + n <= 0xFF,
    ensures
        timer.after_cycle((16 * n) as u32).tima == timer.tima + n,
        timer.after_cycle((16 * n) as u32).internal_count == timer.internal_count,
        timer.after_cycle((16 * n) as u32).inter == timer.inter,
{
    let ticks = (16 * n) as u32;
    counted_without_overflow(timer.divided(ticks), n, timer.internal_count as int);
    assert(n * 16 + timer.internal_count == timer.internal_count + ticks);
}

/// The step that takes TIMA past 0xFF reloads it from TMA and raises the
/// timer line.
pub proof fn timer_overflow_reloads(timer: Timer)
    requires
        timer.wf(),
        timer.enabled,
        timer.step == 16,
        timer.internal_count < 16,
        timer.tima == 0xFF,
    ensures
        timer.after_cycle(16).tima == timer.tma,
        timer.after_cycle(16).inter == TIMER_INTERRUPT,
{
    let t = timer.divided(16);
    let acc = timer.internal_count + 16;
    assert(t.counted(acc) == t.bumped().counted(acc - 16));
    assert(t.bumped().counted(acc - 16) == (Timer {
        internal_count: (acc - 16) as u32,
        ..t.bumped()
    }));
}

} // verus!

verus! {

/// While the timer is disabled no number of calls moves TIMA or raises the
/// timer line.
pub proof fn disabled_timer_keeps_tima_over_calls(timer: Timer, ticks: u32, calls: nat)
    requires
        !timer.enabled,
    ensures
        !timer.after_cycles(ticks, calls).enabled,
        timer.after_cycles(ticks, calls).tima == timer.tima,
        timer.after_cycles(ticks, calls).inter == timer.inter,
    decreases calls,
{
    if calls > 0 {
        disabled_timer_keeps_tima_over_calls(timer, ticks, (calls - 1) as nat);
    }
}

/// Enabled at 16 ticks per increment, `n` calls of 16 ticks each move TIMA
/// up by exactly `n` as long as it does not pass 0xFF, and raise no line.
pub proof fn enabled_timer_counts_calls(timer: Timer, n: nat)
    requires
        timer.wf(),
        timer.enabled,
        timer.step == 16,
        timer.internal_count < 16,
        timer.tima + n <= 0xFF,
    ensures
        timer.after_cycles(16, n).wf(),
        timer.after_cycles(16, n).enabled,
        timer.after_cycles(16, n).step == 16,
        timer.after_cycles(16, n).tma == timer.tma,
        timer.after_cycles(16, n).internal_count == timer.internal_count,
        timer.after_cycles(16, n).tima == timer.tima + n,
        timer.after_cycles(16, n).inter == timer.inter,
    decreases n,
{
    if n > 0 {
        let before = timer.after_cycles(16, (n - 1) as nat);
        enabled_timer_counts_calls(timer, (n - 1) as nat);
        counted_without_overflow(before.divided(16), 1, before.internal_count as int);
        assert(1 * 16 + before.internal_count == before.internal_count + 16);
    }
}

/// The call that takes TIMA past 0xFF, after any number of calls that did
/// not, reloads it from TMA and raises the timer line.
pub proof fn timer_overflows_on_the_next_call(timer: Timer, n: nat)
    requires
        timer.wf(),
        timer.enabled,
        timer.step == 16,
        timer.internal_count < 16,
        timer.tima + n == 0xFF,
    ensures
        timer.after_cycles(16, n + 1).tima == timer.tma,
        timer.after_cycles(16, n + 1).inter == TIMER_INTERRUPT,
{
    enabled_timer_counts_calls(timer, n);
    timer_overflow_reloads(timer.after_cycles(16, n));
}

} // verus!
