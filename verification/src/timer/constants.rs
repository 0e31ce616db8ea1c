use vstd::prelude::*;

verus! {

/// Timer 0 counter/reload register.
pub const TM0CNT_L: u32 = 0x04000100;

/// Timer 0 control register.
pub const TM0CNT_H: u32 = 0x04000102;

pub const TM1CNT_L: u32 = 0x04000104;

pub const TM1CNT_H: u32 = 0x04000106;

pub const TM2CNT_L: u32 = 0x04000108;

pub const TM2CNT_H: u32 = 0x0400010A;

pub const TM3CNT_L: u32 = 0x0400010C;

pub const TM3CNT_H: u32 = 0x0400010E;

/// CPU cycles per timer tick for each prescaler setting.
pub const PRESCALER_1: u32 = 1;

pub const PRESCALER_64: u32 = 64;

pub const PRESCALER_256: u32 = 256;

pub const PRESCALER_1024: u32 = 1024;

/// Number of hardware timers.
pub const TIMER_COUNT: usize = 4;

} // verus!
