use vstd::prelude::*;
use crate::dma::types::{DmaControl, DmaTiming, timing_of};
use crate::instructions::alu::wrap32;

verus! {

/// One DMA channel: its visible registers and the working copies a
/// transfer runs on.
#[derive(Debug, Clone, Copy)]
pub struct DmaChannel {
    pub channel_id: usize,
    pub source_addr: u32,
    pub dest_addr: u32,
    pub word_count: u16,
    pub control: DmaControl,
    pub internal_source: u32,
    pub internal_dest: u32,
    pub internal_count: u16,
    pub active: bool,
}

/// Address after `n` units of `size` bytes under address control `ctrl`
/// (0 increment, 1 decrement, 2 fixed; 3 increments when `three_increments`
/// is set and stays fixed otherwise).
pub open spec fn advanced(addr: u32, ctrl: u8, size: u32, n: int, three_increments: bool) -> u32 {
    if ctrl == 0 || (ctrl == 3 && three_increments) {
        wrap32(addr + n * size)
    } else if ctrl == 1 {
        wrap32(addr - n * size)
    } else {
        addr
    }
}

/// The channel with its working registers loaded from the visible ones; an
/// immediate channel starts.
pub open spec fn reloaded(c: DmaChannel) -> DmaChannel {
    DmaChannel {
        internal_source: c.source_addr,
        internal_dest: c.dest_addr,
        internal_count: c.word_count,
        active: if timing_of(c.control.timing) == DmaTiming::Immediate {
            true
        } else {
            c.active
        },
        ..c
    }
}

/// Units a running channel still has to move: its working count, where 0
/// stands for 0x10000 (the count channel 3 gets from a written 0).
pub open spec fn units(c: DmaChannel) -> int {
    if c.internal_count == 0 {
        0x10000
    } else {
        c.internal_count as int
    }
}

/// A running channel after all of its units went by, and whether it
/// completed: the addresses moved on by the unit count (a reloading
/// destination goes back to its register), the channel stops, and without
/// repeat it is disabled.
pub open spec fn finished(c: DmaChannel) -> (DmaChannel, bool) {
    if !c.active {
        (c, false)
    } else {
        let n = units(c);
        let size = c.control.size_spec();
        (
            DmaChannel {
                internal_source: advanced(c.internal_source, c.control.source_control, size, n, false),
                internal_dest: if c.control.dest_control == 3 {
                    c.dest_addr
                } else {
                    advanced(c.internal_dest, c.control.dest_control, size, n, true)
                },
                internal_count: 0,
                active: false,
                control: DmaControl { enabled: c.control.enabled && c.control.repeat, ..c.control },
                ..c
            },
            true,
        )
    }
}

impl DmaChannel {
    /// Idle channel `channel_id` with cleared registers.
    pub open spec fn fresh(channel_id: usize) -> DmaChannel {
        DmaChannel {
            channel_id,
            source_addr: 0,
            dest_addr: 0,
            word_count: 0,
            control: DmaControl::from_spec(0),
            internal_source: 0,
            internal_dest: 0,
            internal_count: 0,
            active: false,
        }
    }

    pub fn new(channel_id: usize) -> (r: Self)
        ensures
            r == DmaChannel::fresh(channel_id),
    {
        DmaChannel {
            channel_id,
            source_addr: 0,
            dest_addr: 0,
            word_count: 0,
            control: DmaControl::default(),
            internal_source: 0,
            internal_dest: 0,
            internal_count: 0,
            active: false,
        }
    }

    /// Clears every register; the channel stops.
    pub fn reset(&mut self)
        ensures
            *final(self) == DmaChannel::fresh(old(self).channel_id),
    {
        self.source_addr = 0;
        self.dest_addr = 0;
        self.word_count = 0;
        self.control = DmaControl::default();
        self.internal_source = 0;
        self.internal_dest = 0;
        self.internal_count = 0;
        self.active = false;
    }

    /// Sets the source address (27 bits for channel 0, 28 for the others).
    pub fn write_source(&mut self, value: u32)
        ensures
            *final(self) == (DmaChannel {
                source_addr: value & (if old(self).channel_id == 0 {
                    0x07FF_FFFFu32
                } else {
                    0x0FFF_FFFFu32
                }),
                ..*old(self)
            }),
    {
        let mask: u32 = if self.channel_id == 0 {
            0x07FF_FFFF
        } else {
            0x0FFF_FFFF
        };
        self.source_addr = value & mask;
    }

    /// Sets the destination address (27 bits for channels 0 to 2, 28 for
    /// channel 3).
    pub fn write_dest(&mut self, value: u32)
        ensures
            *final(self) == (DmaChannel {
                dest_addr: value & (if old(self).channel_id <= 2 {
                    0x07FF_FFFFu32
                } else {
                    0x0FFF_FFFFu32
                }),
                ..*old(self)
            }),
    {
        let mask: u32 = if self.channel_id <= 2 {
            0x07FF_FFFF
        } else {
            0x0FFF_FFFF
        };
        self.dest_addr = value & mask;
    }

    /// Sets the unit count; 0 stands for the largest count (0x4000 for
    /// channels 0 to 2, and 0 itself, meaning 0x10000, for channel 3).
    pub fn write_count(&mut self, value: u16)
        ensures
            *final(self) == (DmaChannel {
                word_count: if value != 0 {
                    value
                } else if old(self).channel_id <= 2 {
                    0x4000u16
                } else {
                    0u16
                },
                ..*old(self)
            }),
    {
        let max_count: u16 = if self.channel_id <= 2 {
            0x4000
        } else {
            0
        };
        self.word_count = if value == 0 {
            max_count
        } else {
            value
        };
    }

    /// The channel after a write of `value` to its control register.
    pub open spec fn control_written(self, value: u16) -> DmaChannel {
        let c1 = DmaChannel { control: DmaControl::from_spec(value), ..self };
        let c2 = if !self.control.enabled && c1.control.enabled {
            reloaded(c1)
        } else {
            c1
        };
        if !c2.control.enabled {
            DmaChannel { active: false, ..c2 }
        } else {
            c2
        }
    }

    /// Sets the control register: a channel being enabled loads its working
    /// registers (and starts if immediate); a disabled channel stops.
    pub fn write_control(&mut self, value: u16)
        ensures
            *final(self) == old(self).control_written(value),
    {
        let old_enabled = self.control.enabled;
        self.control = DmaControl::from_u16(value);
        if !old_enabled && self.control.enabled {
            self.reload();
        }
        if !self.control.enabled {
            self.active = false;
        }
    }

    /// The control register value.
    pub fn read_control(&self) -> (r: u16)
        ensures
            r == self.control.to_spec(),
    {
        self.control.to_u16()
    }

    fn reload(&mut self)
        ensures
            *final(self) == reloaded(*old(self)),
    {
        self.internal_source = self.source_addr;
        self.internal_dest = self.dest_addr;
        self.internal_count = self.word_count;
        if DmaTiming::from_u8(self.control.timing) == DmaTiming::Immediate {
            self.active = true;
        }
    }

    /// Starts an enabled channel whose timing is `timing`; it reloads its
    /// working registers unless it is a repeating channel already running.
    pub fn trigger(&mut self, timing: DmaTiming)
        ensures
            *final(self) == if old(self).control.enabled && timing_of(old(self).control.timing) == timing {
                let c = if !old(self).active || !old(self).control.repeat {
                    reloaded(*old(self))
                } else {
                    *old(self)
                };
                DmaChannel { active: true, ..c }
            } else {
                *old(self)
            },
    {
        if !self.control.enabled {
            return;
        }
        if DmaTiming::from_u8(self.control.timing) == timing {
            if !self.active || !self.control.repeat {
                self.reload();
            }
            self.active = true;
        }
    }

    /// One transfer unit: moves the working addresses and counts the unit
    /// down (a count of 0 stands for 0x10000 units); returns whether that
    /// was the last one (the channel then stops, and is disabled unless it
    /// repeats).
    pub fn step_transfer(&mut self) -> (complete: bool)
        ensures
            !old(self).active ==> *final(self) == *old(self) && !complete,
            old(self).active ==> {
                let size = old(self).control.size_spec();
                let n = (units(*old(self)) - 1) as u16;
                let src = advanced(old(self).internal_source, old(self).control.source_control, size, 1, false);
                let dst = advanced(old(self).internal_dest, old(self).control.dest_control, size, 1, true);
                &&& complete == (units(*old(self)) == 1)
                &&& *final(self) == if units(*old(self)) == 1 {
                    DmaChannel {
                        internal_source: src,
                        internal_dest: if old(self).control.dest_control == 3 {
                            old(self).dest_addr
                        } else {
                            dst
                        },
                        internal_count: 0,
                        active: false,
                        control: DmaControl {
                            enabled: old(self).control.enabled && old(self).control.repeat,
                            ..old(self).control
                        },
                        ..*old(self)
                    }
                } else {
                    DmaChannel { internal_source: src, internal_dest: dst, internal_count: n, ..*old(self) }
                }
            },
    {
        if !self.active {
            return false;
        }
        let last = self.internal_count == 1;
        self.internal_count = self.internal_count.wrapping_sub(1);
        let transfer_size = self.control.transfer_size();
        proof {
            crate::instructions::alu::lemma_wrap32(self.internal_source + transfer_size);
            crate::instructions::alu::lemma_wrap32(self.internal_source - transfer_size);
            crate::instructions::alu::lemma_wrap32(self.internal_dest + transfer_size);
            crate::instructions::alu::lemma_wrap32(self.internal_dest - transfer_size);
        }
        if self.control.source_control == 0 {
            self.internal_source = self.internal_source.wrapping_add(transfer_size);
        } else if self.control.source_control == 1 {
            self.internal_source = self.internal_source.wrapping_sub(transfer_size);
        }
        if self.control.dest_control == 0 || self.control.dest_control == 3 {
            self.internal_dest = self.internal_dest.wrapping_add(transfer_size);
        } else if self.control.dest_control == 1 {
            self.internal_dest = self.internal_dest.wrapping_sub(transfer_size);
        }
        if last {
            if self.control.dest_control == 3 {
                self.internal_dest = self.dest_addr;
            }
            if !self.control.repeat {
                self.control.enabled = false;
                self.active = false;
            } else {
                self.active = false;
            }
            true
        } else {
            false
        }
    }

    /// Working source address.
    pub fn current_source(&self) -> (r: u32)
        ensures
            r == self.internal_source,
    {
        self.internal_source
    }

    /// Working destination address.
    pub fn current_dest(&self) -> (r: u32)
        ensures
            r == self.internal_dest,
    {
        self.internal_dest
    }

    /// Whether the end of the transfer raises an IRQ.
    pub fn should_irq(&self) -> (r: bool)
        ensures
            r == self.control.irq_enable,
    {
        self.control.irq_enable
    }
}

} // verus!
