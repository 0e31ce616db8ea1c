pub mod constants;
pub mod counter;
pub mod registers;

pub use crate::timer::constants::{
    PRESCALER_1, PRESCALER_1024, PRESCALER_256, PRESCALER_64, TIMER_COUNT, TM0CNT_H, TM0CNT_L,
    TM1CNT_H, TM1CNT_L, TM2CNT_H, TM2CNT_L, TM3CNT_H, TM3CNT_L,
};
pub use crate::timer::counter::TimerCounter;
pub use crate::timer::registers::TimerControl;

use vstd::prelude::*;
use crate::timer::counter::{cascaded, cycles_fit, stepped};

verus! {

/// Timer `i` processed during a step of `cycles` CPU cycles, with the IRQ
/// bits gathered so far in `flags`: a timer that does not count up runs for
/// the cycles (timer 0 always tries to); on overflow its IRQ bit (3 + i) is
/// raised when enabled, and the next timer takes a count-up tick, raising
/// its own bit if it overflows in turn.
pub open spec fn timer_stage(ts: Seq<TimerCounter>, flags: u8, i: int, cycles: u32) -> (Seq<TimerCounter>, u8) {
    let r = if i > 0 && ts[i].control.count_up {
        (ts[i], false)
    } else {
        stepped(ts[i], cycles)
    };
    let ts1 = ts.update(i, r.0);
    let f1 = if r.1 && r.0.control.irq_enable {
        flags | ((1u8 << ((3 + i) as u8)) as u8)
    } else {
        flags
    };
    if r.1 && i < 3 {
        let c = cascaded(ts1[i + 1]);
        (
            ts1.update(i + 1, c.0),
            if c.1 && c.0.control.irq_enable {
                f1 | ((1u8 << ((4 + i) as u8)) as u8)
            } else {
                f1
            },
        )
    } else {
        (ts1, f1)
    }
}

/// Timers `i` to 3 processed in order.
pub open spec fn timer_stages(ts: Seq<TimerCounter>, flags: u8, i: int, cycles: u32) -> (Seq<TimerCounter>, u8)
    decreases 4 - i,
{
    if i >= 4 || i < 0 {
        (ts, flags)
    } else {
        let r = timer_stage(ts, flags, i, cycles);
        timer_stages(r.0, r.1, i + 1, cycles)
    }
}

/// The four hardware timers.
pub struct Timer {
    pub timers: [TimerCounter; 4],
}

impl Timer {
    /// Every timer carries fewer cycles than the longest prescaler period.
    pub open spec fn wf(self) -> bool {
        forall|k: int| 0 <= k < 4 ==> (#[trigger] self.timers@[k]).wf()
    }

    /// Counter (TMxCNT_L) or control (TMxCNT_H) of the timer at `addr`; 0
    /// elsewhere.
    pub open spec fn read_spec(self, addr: u32) -> u16 {
        if TM0CNT_L <= addr <= TM3CNT_H && (addr - TM0CNT_L) % 2 == 0 {
            let t = self.timers@[(addr - TM0CNT_L) / 4];
            if (addr - TM0CNT_L) % 4 == 0 {
                t.counter
            } else {
                t.control.to_spec()
            }
        } else {
            0
        }
    }

    pub fn new() -> (r: Self)
        ensures
            r.wf(),
            forall|k: int|
                0 <= k < 4 ==> #[trigger] r.timers@[k].counter == 0 && r.timers@[k].reload == 0
                    && r.timers@[k].control == TimerControl::from_spec(0),
    {
        Timer {
            timers: [TimerCounter::new(), TimerCounter::new(), TimerCounter::new(), TimerCounter::new()],
        }
    }

    /// Stops every timer and clears it.
    pub fn reset(&mut self)
        ensures
            final(self).wf(),
            forall|k: int|
                0 <= k < 4 ==> (#[trigger] final(self).timers@[k]).counter == 0 && final(self).timers@[k].reload
                    == 0 && final(self).timers@[k].control == TimerControl::from_spec(0),
    {
        let mut i: usize = 0;
        while i < 4
            invariant
                i <= 4,
                forall|k: int|
                    0 <= k < i ==> (#[trigger] self.timers@[k]).wf() && self.timers@[k].counter == 0
                        && self.timers@[k].reload == 0 && self.timers@[k].control == TimerControl::from_spec(
                        0,
                    ),
            decreases 4 - i,
        {
            self.timers[i] = TimerCounter::new();
            i = i + 1;
        }
    }

    /// Runs the timers for `cycles` CPU cycles, with count-up cascading;
    /// returns the IRQ bits (3 to 6) of the timers that overflowed with
    /// their IRQ enabled.
    pub fn step(&mut self, cycles: u32) -> (irq: u8)
        requires
            old(self).wf(),
            forall|k: int| 0 <= k < 4 ==> cycles_fit(#[trigger] old(self).timers@[k], cycles),
        ensures
            final(self).wf(),
            (final(self).timers@, irq) == timer_stages(old(self).timers@, 0, 0, cycles),
    {
        let mut irq_flags: u8 = 0;
        let mut i: usize = 0;
        while i < 4
            invariant
                i <= 4,
                forall|k: int| i <= k < 4 ==> cycles_fit(#[trigger] self.timers@[k], cycles),
                forall|k: int| 0 <= k < 4 ==> (#[trigger] self.timers@[k]).wf(),
                timer_stages(self.timers@, irq_flags, i as int, cycles) == timer_stages(
                    old(self).timers@,
                    0,
                    0,
                    cycles,
                ),
            decreases 4 - i,
        {
            let ghost before = self.timers@;
            let ghost before_flags = irq_flags;
            let mut t = self.timers[i];
            let overflow = if i > 0 && t.control.count_up {
                false
            } else {
                t.step(cycles)
            };
            self.timers[i] = t;
            if overflow && t.control.irq_enable {
                irq_flags = irq_flags | (1u8 << ((3 + i) as u8));
            }
            if overflow && i < 3 {
                let mut n = self.timers[i + 1];
                let cascade_overflow = n.cascade_increment();
                self.timers[i + 1] = n;
                if cascade_overflow && n.control.irq_enable {
                    irq_flags = irq_flags | (1u8 << ((4 + i) as u8));
                }
            }
            assert((self.timers@, irq_flags) == timer_stage(before, before_flags, i as int, cycles));
            i = i + 1;
        }
        (irq_flags)
    }

    /// Reads a timer register (0 for other addresses).
    pub fn read_register(&self, addr: u32) -> (r: u16)
        ensures
            r == self.read_spec(addr),
    {
        if addr == TM0CNT_L {
            self.timers[0].read_counter()
        } else if addr == TM0CNT_H {
            self.timers[0].read_control()
        } else if addr == TM1CNT_L {
            self.timers[1].read_counter()
        } else if addr == TM1CNT_H {
            self.timers[1].read_control()
        } else if addr == TM2CNT_L {
            self.timers[2].read_counter()
        } else if addr == TM2CNT_H {
            self.timers[2].read_control()
        } else if addr == TM3CNT_L {
            self.timers[3].read_counter()
        } else if addr == TM3CNT_H {
            self.timers[3].read_control()
        } else {
            0
        }
    }

    /// Writes a timer register: TMxCNT_L sets the reload value, TMxCNT_H
    /// the control; other addresses are ignored.
    pub fn write_register(&mut self, addr: u32, value: u16)
        requires
            old(self).wf(),
        ensures
            final(self).wf(),
            !(TM0CNT_L <= addr <= TM3CNT_H && (addr - TM0CNT_L) % 2 == 0) ==> final(self).timers@ == old(
                self,
            ).timers@,
            TM0CNT_L <= addr <= TM3CNT_H && (addr - TM0CNT_L) % 2 == 0 ==> {
                let k = (addr - TM0CNT_L) / 4;
                let o = old(self).timers@[k];
                let t = final(self).timers@[k];
                &&& forall|j: int| 0 <= j < 4 && j != k ==> #[trigger] final(self).timers@[j] == old(
                    self,
                ).timers@[j]
                &&& if (addr - TM0CNT_L) % 4 == 0 {
                    &&& t.reload == value
                    &&& t.control == o.control
                    &&& t.cycles == o.cycles
                    &&& t.counter == (if o.control.enabled {
                        o.counter
                    } else {
                        value
                    })
                } else {
                    &&& t.control == TimerControl::from_spec(value)
                    &&& t.reload == o.reload
                    &&& if !o.control.enabled && t.control.enabled {
                        t.counter == o.reload && t.cycles == 0
                    } else {
                        t.counter == o.counter && t.cycles == o.cycles
                    }
                }
            },
    {
        if TM0CNT_L <= addr && addr <= TM3CNT_H && (addr - TM0CNT_L) % 2 == 0 {
            let k = ((addr - TM0CNT_L) / 4) as usize;
            let mut t = self.timers[k];
            if (addr - TM0CNT_L) % 4 == 0 {
                t.write_reload(value);
            } else {
                t.write_control(value);
            }
            self.timers[k] = t;
        }
    }
}

impl Default for Timer {
    fn default() -> (r: Self)
        ensures
            r.wf(),
    {
        Self::new()
    }
}

} // verus!
