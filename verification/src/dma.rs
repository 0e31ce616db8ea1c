pub mod channel;
pub mod constants;
pub mod types;

pub use crate::dma::channel::DmaChannel;
pub use crate::dma::constants::{
    ADDR_DECREMENT, ADDR_FIXED, ADDR_INCREMENT, ADDR_RELOAD, DMA0CNT_H, DMA0CNT_L, DMA0DAD, DMA0SAD,
    DMA1CNT_H, DMA1CNT_L, DMA1DAD, DMA1SAD, DMA2CNT_H, DMA2CNT_L, DMA2DAD, DMA2SAD, DMA3CNT_H,
    DMA3CNT_L, DMA3DAD, DMA3SAD, DMA_CHANNEL_COUNT, TIMING_HBLANK, TIMING_IMMEDIATE, TIMING_SPECIAL,
    TIMING_VBLANK,
};
pub use crate::dma::types::{DmaControl, DmaTiming};

use vstd::prelude::*;
use crate::dma::channel::{advanced, finished, units};
use crate::instructions::alu::wrap32;

verus! {

/// IRQ bits of the channels below `k` that complete their transfer with
/// their IRQ enabled (bit i for channel i).
pub open spec fn dma_irq_bits(chs: Seq<DmaChannel>, k: int) -> u8
    decreases k,
{
    if k <= 0 {
        0
    } else {
        let prev = dma_irq_bits(chs, k - 1);
        if finished(chs[k - 1]).1 && chs[k - 1].control.irq_enable {
            prev | ((1u8 << ((k - 1) as u8)) as u8)
        } else {
            prev
        }
    }
}

/// A channel after a write of `value` to its register at offset `off`
/// (0 source, 4 destination, 8 count, 10 control; count and control take
/// halfword writes only). Other offsets leave it as it is.
pub open spec fn register_written(c: DmaChannel, off: u32, value: u32, is_halfword: bool) -> DmaChannel {
    if off == 0 {
        DmaChannel {
            source_addr: value & (if c.channel_id == 0 {
                0x07FF_FFFFu32
            } else {
                0x0FFF_FFFFu32
            }),
            ..c
        }
    } else if off == 4 {
        DmaChannel {
            dest_addr: value & (if c.channel_id <= 2 {
                0x07FF_FFFFu32
            } else {
                0x0FFF_FFFFu32
            }),
            ..c
        }
    } else if off == 8 && is_halfword {
        DmaChannel {
            word_count: if value as u16 != 0 {
                value as u16
            } else if c.channel_id <= 2 {
                0x4000u16
            } else {
                0u16
            },
            ..c
        }
    } else if off == 10 && is_halfword {
        c.control_written(value as u16)
    } else {
        c
    }
}

/// Transfer `j` of running channel `c`: its working source and destination
/// moved on by `j` units, and whether the units are 32-bit.
pub open spec fn dma_unit(c: DmaChannel, j: int) -> (u32, u32, bool) {
    (
        advanced(c.internal_source, c.control.source_control, c.control.size_spec(), j, false),
        advanced(c.internal_dest, c.control.dest_control, c.control.size_spec(), j, true),
        c.control.transfer_32bit,
    )
}

proof fn lemma_control_bits(v: u16)
    by (bit_vector)
    ensures
        ((v >> 10u16) & 1 == 1) == (v & 0x0400 != 0),
        v & 0x0180 == 0 ==> (v >> 7u16) & 3 == 0,
        v & 0x0060 == 0 ==> (v >> 5u16) & 3 == 0,
        v & 0x0180 == 0x0080 ==> (v >> 7u16) & 3 == 1,
        v & 0x0180 == 0x0100 ==> (v >> 7u16) & 3 == 2,
        v & 0x0180 == 0x0180 ==> (v >> 7u16) & 3 == 3,
        v & 0x0180 >= 0x0100 ==> (v >> 7u16) & 3 >= 2,
        (v >> 7u16) & 3 <= 3,
        v & 0x0060 == 0x0020 ==> (v >> 5u16) & 3 == 1,
        v & 0x0060 == 0x0040 ==> (v >> 5u16) & 3 == 2,
        v & 0x0060 == 0x0060 ==> (v >> 5u16) & 3 == 3,
{
}

/// Moving an address by j + 1 units of `w` bytes, up or down, is moving it
/// by j units and then by one more.
proof fn lemma_wrap_units(a: int, j: int, w: int)
    requires
        0 <= j,
        0 < w <= 4,
    ensures
        wrap32(a + (j + 1) * w) == wrap32(wrap32(a + j * w) + w),
        wrap32(a - (j + 1) * w) == wrap32(wrap32(a - j * w) - w),
{
    assert((j + 1) * w == j * w + w) by (nonlinear_arith);
    vstd::arithmetic::div_mod::lemma_small_mod(w as nat, 0x1_0000_0000);
    vstd::arithmetic::div_mod::lemma_add_mod_noop(a + j * w, w, 0x1_0000_0000);
    vstd::arithmetic::div_mod::lemma_sub_mod_noop(a - j * w, w, 0x1_0000_0000);
    vstd::arithmetic::div_mod::lemma_mod_bound(a + j * w, 0x1_0000_0000);
    vstd::arithmetic::div_mod::lemma_mod_bound(a - j * w, 0x1_0000_0000);
    assert(a + (j + 1) * w == (a + j * w) + w);
    assert(a - (j + 1) * w == (a - j * w) - w);
}

/// A DMA unit is 4 bytes when bit 10 of the control register value `v` is
/// set (32-bit transfers) and 2 bytes otherwise, and every unit is marked
/// 32-bit exactly when bit 10 is set. Unit j + 1's source is that many
/// bytes after unit j's when bits 7-8 are 0 (increment), before it when
/// they are 1 (decrement), and the same otherwise (fixed; 3 is not valid
/// for the source); unit j + 1's destination likewise by bits 5-6, where 3
/// (increment and reload) increments too.
pub proof fn lemma_dma_unit_stride(c: DmaChannel, v: u16, j: int)
    requires
        c.control == DmaControl::from_spec(v),
        0 <= j,
    ensures
        ({
            let w: int = if v & 0x0400 != 0 {
                4
            } else {
                2
            };
            &&& DmaControl::from_spec(v).size_spec() == w
            &&& v & 0x0180 == 0 ==> dma_unit(c, j + 1).0 == wrap32(dma_unit(c, j).0 + w)
            &&& v & 0x0180 == 0x0080 ==> dma_unit(c, j + 1).0 == wrap32(dma_unit(c, j).0 - w)
            &&& v & 0x0180 >= 0x0100 ==> dma_unit(c, j + 1).0 == dma_unit(c, j).0
            &&& (v & 0x0060 == 0 || v & 0x0060 == 0x0060) ==> dma_unit(c, j + 1).1 == wrap32(dma_unit(c, j).1 + w)
            &&& v & 0x0060 == 0x0020 ==> dma_unit(c, j + 1).1 == wrap32(dma_unit(c, j).1 - w)
            &&& v & 0x0060 == 0x0040 ==> dma_unit(c, j + 1).1 == dma_unit(c, j).1
            &&& dma_unit(c, j).2 == (v & 0x0400 != 0)
        }),
{
    lemma_control_bits(v);
    let w = c.control.size_spec() as int;
    let sc = c.control.source_control;
    let dc = c.control.dest_control;
    assert(dma_unit(c, j).0 == advanced(c.internal_source, sc, w as u32, j, false));
    assert(dma_unit(c, j + 1).0 == advanced(c.internal_source, sc, w as u32, j + 1, false));
    assert(dma_unit(c, j).1 == advanced(c.internal_dest, dc, w as u32, j, true));
    assert(dma_unit(c, j + 1).1 == advanced(c.internal_dest, dc, w as u32, j + 1, true));
    if sc == 0 || sc == 1 {
        lemma_wrap_units(c.internal_source as int, j, w);
    }
    if dc == 0 || dc == 1 || dc == 3 {
        lemma_wrap_units(c.internal_dest as int, j, w);
    }
}

/// The transfers a running channel `c` makes, in order: its units
/// `dma_unit(c, 0)`, `dma_unit(c, 1)`, ...; none for a stopped channel.
pub open spec fn channel_transfers(c: DmaChannel) -> Seq<(u32, u32, bool)> {
    if c.active {
        Seq::new(units(c) as nat, |j: int| dma_unit(c, j))
    } else {
        Seq::empty()
    }
}

/// The transfers of channels 0 to `k - 1`, channel by channel.
pub open spec fn dma_transfers(chs: Seq<DmaChannel>, k: int) -> Seq<(u32, u32, bool)>
    decreases k,
{
    if k <= 0 {
        Seq::empty()
    } else {
        dma_transfers(chs, k - 1) + channel_transfers(chs[k - 1])
    }
}

/// Moving an address by `n` units and then by one more is moving it by
/// `n + 1` units.
pub proof fn lemma_advance_step(a: u32, ctrl: u8, size: u32, n: int, three_increments: bool)
    requires
        0 <= n,
    ensures
        advanced(advanced(a, ctrl, size, n, three_increments), ctrl, size, 1, three_increments) == advanced(
            a,
            ctrl,
            size,
            n + 1,
            three_increments,
        ),
{
    let m = 0x1_0000_0000int;
    if ctrl == 0 || (ctrl == 3 && three_increments) {
        vstd::arithmetic::div_mod::lemma_add_mod_noop(a + n * size, size as int, m);
        vstd::arithmetic::div_mod::lemma_mod_twice(size as int, m);
        assert((a + n * size) % m == ((a + n * size) % m) % m) by {
            vstd::arithmetic::div_mod::lemma_mod_twice(a + n * size, m);
        }
        assert(a + n * size + size == a + (n + 1) * size) by (nonlinear_arith);
        assert(size as int % m == size as int) by {
            vstd::arithmetic::div_mod::lemma_small_mod(size as nat, m as nat);
        }
    } else if ctrl == 1 {
        vstd::arithmetic::div_mod::lemma_sub_mod_noop(a - n * size, size as int, m);
        assert(size as int % m == size as int) by {
            vstd::arithmetic::div_mod::lemma_small_mod(size as nat, m as nat);
        }
        assert(a - n * size - size == a - (n + 1) * size) by (nonlinear_arith);
        vstd::arithmetic::div_mod::lemma_mod_twice(a - n * size, m);
    }
}

/// The DMA controller: four channels, channel 0 first in priority.
pub struct DMA {
    pub channels: [DmaChannel; 4],
    /// The transfers handed to the callbacks of `step` so far, oldest first.
    pub transfers: Ghost<Seq<(u32, u32, bool)>>,
}

impl DMA {
    /// Channel `i` is in slot `i`.
    pub open spec fn wf(self) -> bool {
        forall|k: int| 0 <= k < 4 ==> (#[trigger] self.channels@[k]).channel_id == k
    }

    pub fn new() -> (r: Self)
        ensures
            r.wf(),
            forall|k: int| 0 <= k < 4 ==> #[trigger] r.channels@[k] == DmaChannel::fresh(k as usize),
    {
        DMA {
            channels: [DmaChannel::new(0), DmaChannel::new(1), DmaChannel::new(2), DmaChannel::new(3)],
            transfers: Ghost(Seq::empty()),
        }
    }

    /// Clears every channel.
    pub fn reset(&mut self)
        ensures
            forall|k: int|
                0 <= k < 4 ==> #[trigger] final(self).channels@[k] == DmaChannel::fresh(
                    old(self).channels@[k].channel_id,
                ),
    {
        let mut i: usize = 0;
        while i < 4
            invariant
                i <= 4,
                forall|k: int|
                    0 <= k < 4 ==> #[trigger] self.channels@[k] == if k < i {
                        DmaChannel::fresh(old(self).channels@[k].channel_id)
                    } else {
                        old(self).channels@[k]
                    },
            decreases 4 - i,
        {
            let mut c = self.channels[i];
            c.reset();
            self.channels[i] = c;
            i = i + 1;
        }
    }

    /// Offers the start event `timing` to every channel.
    pub fn trigger(&mut self, timing: DmaTiming)
        ensures
            forall|k: int|
                0 <= k < 4 ==> #[trigger] final(self).channels@[k] == if old(self).channels@[k].control.enabled
                    && crate::dma::types::timing_of(old(self).channels@[k].control.timing) == timing {
                    let c = old(self).channels@[k];
                    let d = if !c.active || !c.control.repeat {
                        crate::dma::channel::reloaded(c)
                    } else {
                        c
                    };
                    DmaChannel { active: true, ..d }
                } else {
                    old(self).channels@[k]
                },
    {
        let mut i: usize = 0;
        while i < 4
            invariant
                i <= 4,
                forall|k: int|
                    0 <= k < 4 ==> #[trigger] self.channels@[k] == if k < i {
                        if old(self).channels@[k].control.enabled && crate::dma::types::timing_of(
                            old(self).channels@[k].control.timing,
                        ) == timing {
                            let c = old(self).channels@[k];
                            let d = if !c.active || !c.control.repeat {
                                crate::dma::channel::reloaded(c)
                            } else {
                                c
                            };
                            DmaChannel { active: true, ..d }
                        } else {
                            old(self).channels@[k]
                        }
                    } else {
                        old(self).channels@[k]
                    },
            decreases 4 - i,
        {
            let mut c = self.channels[i];
            c.trigger(timing);
            self.channels[i] = c;
            i = i + 1;
        }
    }

    /// Runs the transfers of every running channel in priority order,
    /// calling `transfer_fn(source, dest, is_32bit)` for each unit; returns
    /// the IRQ bits of the channels that completed with their IRQ enabled.
    /// The callback is asked only for what the `requires` names, and the
    /// calls made, recorded in `transfers` as each is made, are the units of
    /// the running channels in order: channel by channel, `dma_unit(c, j)`
    /// for `j` from 0 up to its unit count. Each transfer recorded is a
    /// call of the callback that returned, with those arguments.
    pub fn step<F: FnMut(u32, u32, bool)>(&mut self, mut transfer_fn: F) -> (irq: u8)
        requires
            old(self).wf(),
            forall|k: int, j: int|
                0 <= k < 4 && old(self).channels@[k].active && 0 <= j < units(old(self).channels@[k])
                    ==> call_requires(transfer_fn, #[trigger] dma_unit(old(self).channels@[k], j)),
        ensures
            final(self).wf(),
            forall|k: int| 0 <= k < 4 ==> #[trigger] final(self).channels@[k] == finished(old(self).channels@[k]).0,
            irq == dma_irq_bits(old(self).channels@, 4),
            final(self).transfers@ == old(self).transfers@ + dma_transfers(old(self).channels@, 4),
            forall|m: int|
                old(self).transfers@.len() <= m < final(self).transfers@.len() ==> call_ensures(
                    transfer_fn,
                    #[trigger] final(self).transfers@[m],
                    (),
                ),
    {
        let mut irq_flags: u8 = 0;
        let mut i: usize = 0;
        let ghost mut log = self.transfers@;
        let ghost callback = transfer_fn;
        proof {
            assert(old(self).transfers@ + dma_transfers(old(self).channels@, 0) =~= log);
        }
        while i < 4
            invariant
                i <= 4,
                log == old(self).transfers@ + dma_transfers(old(self).channels@, i as int),
                transfer_fn == callback,
                forall|m: int|
                    old(self).transfers@.len() <= m < log.len() ==> call_ensures(callback, #[trigger] log[m], ()),
                forall|k: int, j: int|
                    0 <= k < 4 && old(self).channels@[k].active && 0 <= j < units(old(self).channels@[k])
                        ==> call_requires(transfer_fn, #[trigger] dma_unit(old(self).channels@[k], j)),
                forall|k: int|
                    0 <= k < 4 ==> #[trigger] self.channels@[k] == if k < i {
                        finished(old(self).channels@[k]).0
                    } else {
                        old(self).channels@[k]
                    },
                forall|k: int| 0 <= k < 4 ==> (#[trigger] old(self).channels@[k]).channel_id == k,
                irq_flags == dma_irq_bits(old(self).channels@, i as int),
            decreases 4 - i,
        {
            let mut c = self.channels[i];
            let ghost start = c;
            let ghost pre = log;
            if c.active {
                let ghost mut j: int = 0;
                proof {
                    assert(pre + Seq::new(0, |jj: int| dma_unit(start, jj)) =~= pre);
                }
                loop
                    invariant_except_break
                        0 <= j < units(start),
                        log == pre + Seq::new(j as nat, |jj: int| dma_unit(start, jj)),
                        c == (DmaChannel {
                            internal_source: advanced(
                                start.internal_source,
                                start.control.source_control,
                                start.control.size_spec(),
                                j,
                                false,
                            ),
                            internal_dest: advanced(
                                start.internal_dest,
                                start.control.dest_control,
                                start.control.size_spec(),
                                j,
                                true,
                            ),
                            internal_count: if j == 0 {
                                start.internal_count
                            } else {
                                (units(start) - j) as u16
                            },
                            ..start
                        }),
                        units(c) == units(start) - j,
                    invariant
                        start.active,
                        transfer_fn == callback,
                        forall|m: int|
                            old(self).transfers@.len() <= m < log.len() ==> call_ensures(callback, #[trigger] log[m], ()),
                        forall|jj: int|
                            0 <= jj < units(start) ==> call_requires(transfer_fn, #[trigger] dma_unit(start, jj)),
                        forall|k: int, jj: int|
                            0 <= k < 4 && old(self).channels@[k].active && 0 <= jj < units(old(self).channels@[k])
                                ==> call_requires(transfer_fn, #[trigger] dma_unit(old(self).channels@[k], jj)),
                    ensures
                        c == finished(start).0,
                        log == pre + channel_transfers(start),
                        transfer_fn == callback,
                        forall|m: int|
                            old(self).transfers@.len() <= m < log.len() ==> call_ensures(callback, #[trigger] log[m], ()),
                    decreases units(start) - j,
                {
                    let source = c.current_source();
                    let dest = c.current_dest();
                    let is_32bit = c.control.transfer_32bit;
                    assert((source, dest, is_32bit) == dma_unit(start, j));
                    transfer_fn(source, dest, is_32bit);
                    proof {
                        assert(call_ensures(transfer_fn, (source, dest, is_32bit), ()));
                        log = log.push((source, dest, is_32bit));
                        assert(log =~= pre + Seq::new((j + 1) as nat, |jj: int| dma_unit(start, jj)));
                        lemma_advance_step(
                            start.internal_source,
                            start.control.source_control,
                            start.control.size_spec(),
                            j,
                            false,
                        );
                        lemma_advance_step(
                            start.internal_dest,
                            start.control.dest_control,
                            start.control.size_spec(),
                            j,
                            true,
                        );
                    }
                    let complete = c.step_transfer();
                    if complete {
                        proof {
                            assert(j + 1 == units(start));
                            assert(log =~= pre + channel_transfers(start));
                        }
                        break;
                    }
                    proof {
                        j = j + 1;
                    }
                }
                if c.should_irq() {
                    irq_flags = irq_flags | (1u8 << (c.channel_id as u8));
                }
            }
            proof {
                if !start.active {
                    assert(pre + channel_transfers(start) =~= pre);
                }
                assert(start == old(self).channels@[i as int]);
                assert(old(self).transfers@ + dma_transfers(old(self).channels@, i + 1) =~= old(
                    self,
                ).transfers@ + dma_transfers(old(self).channels@, i as int) + channel_transfers(start));
            }
            self.channels[i] = c;
            i = i + 1;
        }
        self.transfers = Ghost(log);
        irq_flags
    }

    /// The register at `addr`: source, destination, count or control of a
    /// channel (channels are 12 bytes apart from 0x040000B0); 0 elsewhere.
    pub open spec fn read_spec(self, addr: u32) -> u32 {
        let id = (addr - 0x040000B0) / 12;
        let off = addr % 12;
        if id >= 4 {
            0
        } else if off == 0 {
            self.channels@[id].source_addr
        } else if off == 4 {
            self.channels@[id].dest_addr
        } else if off == 8 {
            self.channels@[id].word_count as u32
        } else if off == 10 {
            self.channels@[id].control.to_spec() as u32
        } else {
            0
        }
    }

    /// Reads a DMA register.
    pub fn read_register(&self, addr: u32) -> (r: u32)
        requires
            addr >= DMA0SAD,
        ensures
            r == self.read_spec(addr),
    {
        let channel_id = ((addr - DMA0SAD) / 12) as usize;
        if channel_id >= DMA_CHANNEL_COUNT {
            return 0;
        }
        let offset = addr % 12;
        if offset == 0 {
            self.channels[channel_id].source_addr
        } else if offset == 4 {
            self.channels[channel_id].dest_addr
        } else if offset == 8 {
            self.channels[channel_id].word_count as u32
        } else if offset == 10 {
            self.channels[channel_id].read_control() as u32
        } else {
            0
        }
    }

    /// Writes a DMA register: source and destination take the word, count
    /// and control only halfword writes; other addresses are ignored.
    pub fn write_register(&mut self, addr: u32, value: u32, is_halfword: bool)
        requires
            addr >= DMA0SAD,
        ensures
            (addr - DMA0SAD) / 12 >= 4 ==> final(self).channels@ == old(self).channels@,
            (addr - DMA0SAD) / 12 < 4 ==> final(self).channels@ == old(self).channels@.update(
                (addr - DMA0SAD) / 12,
                register_written(old(self).channels@[(addr - DMA0SAD) / 12], addr % 12, value, is_halfword),
            ),
    {
        let channel_id = ((addr - DMA0SAD) / 12) as usize;
        if channel_id >= DMA_CHANNEL_COUNT {
            return;
        }
        let offset = addr % 12;
        let mut c = self.channels[channel_id];
        if offset == 0 {
            c.write_source(value);
        } else if offset == 4 {
            c.write_dest(value);
        } else if offset == 8 {
            if is_halfword {
                c.write_count(value as u16);
            }
        } else if offset == 10 {
            if is_halfword {
                c.write_control(value as u16);
            }
        }
        self.channels[channel_id] = c;
    }

    /// Whether some channel is running.
    pub fn is_active(&self) -> (r: bool)
        ensures
            r == exists|k: int| 0 <= k < 4 && (#[trigger] self.channels@[k]).active,
    {
        let mut i: usize = 0;
        while i < 4
            invariant
                i <= 4,
                forall|k: int| 0 <= k < i ==> !(#[trigger] self.channels@[k]).active,
            decreases 4 - i,
        {
            if self.channels[i].active {
                return true;
            }
            i = i + 1;
        }
        false
    }

    /// The first running channel, if any.
    pub fn active_channel(&self) -> (r: Option<usize>)
        ensures
            r matches Some(k) ==> k < 4 && self.channels@[k as int].active && forall|j: int|
                0 <= j < k ==> !(#[trigger] self.channels@[j]).active,
            r is None ==> forall|k: int| 0 <= k < 4 ==> !(#[trigger] self.channels@[k]).active,
    {
        let mut i: usize = 0;
        while i < 4
            invariant
                i <= 4,
                forall|k: int| 0 <= k < i ==> !(#[trigger] self.channels@[k]).active,
            decreases 4 - i,
        {
            if self.channels[i].active {
                return Some(i);
            }
            i = i + 1;
        }
        None
    }
}

impl Default for DMA {
    fn default() -> (r: Self)
        ensures
            r.wf(),
    {
        Self::new()
    }
}

} // verus!
