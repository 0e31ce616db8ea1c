use vstd::prelude::*;
use crate::timer::registers::{TimerControl, prescaler_cycles};

verus! {

/// One hardware timer: a 16-bit counter that reloads on overflow.
#[derive(Debug, Clone, Copy)]
pub struct TimerCounter {
    pub counter: u16,
    pub reload: u16,
    pub control: TimerControl,
    pub cycles: u32,
}

/// Counter after one tick: +1, or the reload value when it overflows.
pub open spec fn tick(c: u16, reload: u16) -> u16 {
    if c == 0xFFFF {
        reload
    } else {
        (c + 1) as u16
    }
}

/// Counter after `n` ticks from `c`.
pub open spec fn ticked(c: u16, reload: u16, n: nat) -> u16
    decreases n,
{
    if n == 0 {
        c
    } else {
        tick(ticked(c, reload, (n - 1) as nat), reload)
    }
}

/// Whether one of `n` ticks from `c` overflows.
pub open spec fn overflows(c: u16, reload: u16, n: nat) -> bool
    decreases n,
{
    if n == 0 {
        false
    } else {
        overflows(c, reload, (n - 1) as nat) || ticked(c, reload, (n - 1) as nat) == 0xFFFF
    }
}

/// A timer and whether it overflowed, after `cpu_cycles` CPU cycles: a
/// running timer that does not count up ticks once per prescaler period
/// (the remaining cycles carry over); other timers are unchanged.
pub open spec fn stepped(t: TimerCounter, cpu_cycles: u32) -> (TimerCounter, bool) {
    if !t.control.enabled || t.control.count_up {
        (t, false)
    } else {
        let total = t.cycles + cpu_cycles;
        let p = prescaler_cycles(t.control.prescaler);
        let n = (total / p as int) as nat;
        (
            TimerCounter { counter: ticked(t.counter, t.reload, n), cycles: (total % p as int) as u32, ..t },
            overflows(t.counter, t.reload, n),
        )
    }
}

/// A timer and whether it overflowed, after the timer before it overflowed:
/// a running count-up timer ticks once; other timers are unchanged.
pub open spec fn cascaded(t: TimerCounter) -> (TimerCounter, bool) {
    if !t.control.enabled || !t.control.count_up {
        (t, false)
    } else {
        (TimerCounter { counter: tick(t.counter, t.reload), ..t }, t.counter == 0xFFFF)
    }
}

/// Below the top of the counter, `n` ticks add `n` and nothing overflows.
pub proof fn lemma_ticks_without_overflow(c: u16, reload: u16, n: nat)
    requires
        c + n <= 0xFFFF,
    ensures
        ticked(c, reload, n) == c + n,
        !overflows(c, reload, n),
    decreases n,
{
    if n > 0 {
        lemma_ticks_without_overflow(c, reload, (n - 1) as nat);
    }
}

/// The tick that leaves 0xFFFF overflows and loads the reload value.
pub proof fn lemma_tick_overflow_reloads(c: u16, reload: u16, n: nat)
    requires
        c + n == 0xFFFF,
    ensures
        ticked(c, reload, n + 1) == reload,
        overflows(c, reload, n + 1),
{
    lemma_ticks_without_overflow(c, reload, n);
}

/// The cycle count of `t`, if it runs on the prescaler, can take `c` more
/// cycles.
pub open spec fn cycles_fit(t: TimerCounter, c: u32) -> bool {
    t.control.enabled && !t.control.count_up ==> t.cycles + c <= u32::MAX
}

impl TimerCounter {
    /// The carried cycles are less than the longest prescaler period.
    pub open spec fn wf(self) -> bool {
        self.cycles < 1024
    }

    /// Stopped timer at 0.
    pub fn new() -> (r: Self)
        ensures
            r.wf(),
            r.counter == 0 && r.reload == 0 && r.cycles == 0,
            r.control == TimerControl::from_spec(0),
    {
        TimerCounter { counter: 0, reload: 0, control: TimerControl::default(), cycles: 0 }
    }

    /// Back to a stopped timer at 0.
    pub fn reset(&mut self)
        ensures
            final(self).wf(),
            final(self).counter == 0 && final(self).reload == 0 && final(self).cycles == 0,
            final(self).control == TimerControl::from_spec(0),
    {
        self.counter = 0;
        self.reload = 0;
        self.control = TimerControl::default();
        self.cycles = 0;
    }

    /// Runs the timer for `cpu_cycles` CPU cycles; returns whether it
    /// overflowed.
    pub fn step(&mut self, cpu_cycles: u32) -> (overflowed: bool)
        requires
            old(self).wf(),
            cycles_fit(*old(self), cpu_cycles),
        ensures
            (*final(self), overflowed) == stepped(*old(self), cpu_cycles),
            final(self).wf(),
    {
        if !self.control.enabled || self.control.count_up {
            return false;
        }
        let ghost start = *self;
        let ghost total: int = self.cycles + cpu_cycles;
        self.cycles = self.cycles + cpu_cycles;
        let prescaler = self.control.get_prescaler_cycles();
        let mut overflowed = false;
        let ghost mut j: nat = 0;
        while self.cycles >= prescaler
            invariant
                prescaler == prescaler_cycles(start.control.prescaler),
                1 <= prescaler <= 1024,
                self.cycles == total - prescaler * j,
                self.counter == ticked(start.counter, start.reload, j),
                overflowed == overflows(start.counter, start.reload, j),
                *self == (TimerCounter { counter: self.counter, cycles: self.cycles, ..start }),
            decreases self.cycles,
        {
            self.cycles = self.cycles - prescaler;
            if self.counter == 0xFFFF {
                self.counter = self.reload;
                overflowed = true;
            } else {
                self.counter = self.counter + 1;
            }
            proof {
                j = j + 1;
            }
        }
        proof {
            vstd::arithmetic::div_mod::lemma_fundamental_div_mod(total, prescaler as int);
            assert(j == total / prescaler as int) by {
                vstd::arithmetic::div_mod::lemma_div_multiples_vanish_fancy(
                    j as int,
                    total - prescaler * j,
                    prescaler as int,
                );
            }
        }
        overflowed
    }

    /// Count-up step after the timer before it overflowed; returns whether
    /// this one overflowed in turn.
    pub fn cascade_increment(&mut self) -> (overflowed: bool)
        ensures
            (*final(self), overflowed) == cascaded(*old(self)),
    {
        if !self.control.enabled || !self.control.count_up {
            return false;
        }
        if self.counter == 0xFFFF {
            self.counter = self.reload;
            true
        } else {
            self.counter = self.counter + 1;
            false
        }
    }

    /// The counter value.
    pub fn read_counter(&self) -> (r: u16)
        ensures
            r == self.counter,
    {
        self.counter
    }

    /// Sets the reload value; a stopped timer also takes it as its counter.
    pub fn write_reload(&mut self, value: u16)
        ensures
            *final(self) == (TimerCounter {
                reload: value,
                counter: if old(self).control.enabled {
                    old(self).counter
                } else {
                    value
                },
                ..*old(self)
            }),
    {
        self.reload = value;
        if !self.control.enabled {
            self.counter = value;
        }
    }

    /// The control register value.
    pub fn read_control(&self) -> (r: u16)
        ensures
            r == self.control.to_spec(),
    {
        self.control.to_u16()
    }

    /// Sets the control register; a timer that starts running begins at its
    /// reload value with no carried cycles.
    pub fn write_control(&mut self, value: u16)
        requires
            old(self).wf(),
        ensures
            final(self).wf(),
            final(self).control == TimerControl::from_spec(value),
            final(self).reload == old(self).reload,
            (!old(self).control.enabled && final(self).control.enabled) ==> final(self).counter
                == old(self).reload && final(self).cycles == 0,
            !(!old(self).control.enabled && final(self).control.enabled) ==> final(self).counter
                == old(self).counter && final(self).cycles == old(self).cycles,
    {
        let old_enabled = self.control.enabled;
        self.control = TimerControl::from_u16(value);
        if !old_enabled && self.control.enabled {
            self.counter = self.reload;
            self.cycles = 0;
        }
    }
}

impl Default for TimerCounter {
    fn default() -> (r: Self)
        ensures
            r.wf(),
            r.counter == 0 && r.reload == 0 && r.cycles == 0,
    {
        Self::new()
    }
}

} // verus!
