use vstd::prelude::*;
use crate::apu::channels::{NoiseChannel, SquareChannel, WaveChannel};
use crate::apu::direct_sound::DirectSound;
use crate::apu::registers::SoundRegisters;

verus! {

/// `x` limited to the range of i16.
pub open spec fn clamp16(x: int) -> i16 {
    if x < -32768 {
        -32768i16
    } else if x > 32767 {
        32767i16
    } else {
        x as i16
    }
}

/// GB master volume factor from SOUNDCNT_H bits 0-1: 1 (25 %), 2 (50 %) or
/// 4 (100 %).
pub open spec fn gb_master(h: u16) -> int {
    if h & 3 == 0 {
        1
    } else if h & 3 == 1 {
        2
    } else {
        4
    }
}

/// Contribution of GB channel `k` with sample `s` to the left (`left`) or
/// right output: the sample times the side's volume times the master
/// factor, when the channel runs and is routed to that side.
pub open spec fn gb_term(regs: SoundRegisters, k: int, running: bool, s: int, left: bool) -> int {
    let l = regs.soundcnt_l;
    let routed = if left {
        (l >> ((12 + k) as u16)) & 1 != 0
    } else {
        (l >> ((8 + k) as u16)) & 1 != 0
    };
    let vol = if left {
        ((l >> 4u16) & 7) as int
    } else {
        (l & 7) as int
    };
    if running && routed {
        s * vol * gb_master(regs.soundcnt_h)
    } else {
        0
    }
}

/// Contribution of a Direct Sound sample `s` to one side: the sample times
/// 4 (full volume bit set) or 2, times 8, when the side's enable bit is set.
pub open spec fn ds_term(h: u16, s: int, vol_bit: u16, enable_bit: u16) -> int {
    if (h >> enable_bit) & 1 != 0 {
        s * (if (h >> vol_bit) & 1 != 0 {
            4int
        } else {
            2int
        }) * 8
    } else {
        0
    }
}

/// The sample a Direct Sound read gives: the oldest waiting one, or 0.
pub open spec fn ds_front(d: DirectSound) -> int {
    if d.queue().len() > 0 {
        d.queue()[0] as int
    } else {
        0
    }
}

/// Left or right (`left`) sum of the four GB channels (running flags `r`,
/// samples `s`) and both Direct Sound samples `a` and `b`.
pub open spec fn mix_side(regs: SoundRegisters, r: (bool, bool, bool, bool), s: (int, int, int, int), a: int, b: int, left: bool) -> int {
    let h = regs.soundcnt_h;
    gb_term(regs, 0, r.0, s.0, left) + gb_term(regs, 1, r.1, s.1, left) + gb_term(regs, 2, r.2, s.2, left)
        + gb_term(regs, 3, r.3, s.3, left) + if left {
        ds_term(h, a, 2, 9) + ds_term(h, b, 3, 13)
    } else {
        ds_term(h, a, 2, 8) + ds_term(h, b, 3, 12)
    }
}

/// Left and right mix, each side limited to i16.
pub open spec fn mixed(regs: SoundRegisters, r: (bool, bool, bool, bool), s: (int, int, int, int), a: int, b: int) -> (i16, i16) {
    (clamp16(mix_side(regs, r, s, a, b, true)), clamp16(mix_side(regs, r, s, a, b, false)))
}

proof fn lemma_sound_bits(h: u16)
    by (bit_vector)
    ensures
        ((h >> 2u16) & 1 != 0) == (h & 0x0004 != 0),
        ((h >> 3u16) & 1 != 0) == (h & 0x0008 != 0),
        ((h >> 8u16) & 1 != 0) == (h & 0x0100 != 0),
        ((h >> 9u16) & 1 != 0) == (h & 0x0200 != 0),
        ((h >> 10u16) & 1 != 0) == (h & 0x0400 != 0),
        ((h >> 11u16) & 1 != 0) == (h & 0x0800 != 0),
        ((h >> 12u16) & 1 != 0) == (h & 0x1000 != 0),
        ((h >> 13u16) & 1 != 0) == (h & 0x2000 != 0),
        ((h >> 14u16) & 1 != 0) == (h & 0x4000 != 0),
        ((h >> 15u16) & 1 != 0) == (h & 0x8000 != 0),
        (h >> 4u16) & 7 == (h & 0x70) / 16,
{
}

/// What Direct Sound adds to each side, by the SOUNDCNT_H layout: sample A
/// times 4 (bit 2 set) or 2, times 8, on the right when bit 8 is set and
/// on the left when bit 9 is set; sample B likewise with volume bit 3 and
/// enable bits 12 (right) and 13 (left). Taking a sample away changes each
/// side by exactly that.
pub proof fn lemma_direct_sound_routing(
    regs: SoundRegisters,
    r: (bool, bool, bool, bool),
    s: (int, int, int, int),
    a: int,
    b: int,
)
    ensures
        ({
            let h = regs.soundcnt_h;
            let va: int = if h & 0x0004 != 0 {
                4
            } else {
                2
            };
            let vb: int = if h & 0x0008 != 0 {
                4
            } else {
                2
            };
            &&& mix_side(regs, r, s, a, b, true) - mix_side(regs, r, s, 0, b, true) == (if h & 0x0200 != 0 {
                a * va * 8
            } else {
                0
            })
            &&& mix_side(regs, r, s, a, b, false) - mix_side(regs, r, s, 0, b, false) == (if h & 0x0100 != 0 {
                a * va * 8
            } else {
                0
            })
            &&& mix_side(regs, r, s, a, b, true) - mix_side(regs, r, s, a, 0, true) == (if h & 0x2000 != 0 {
                b * vb * 8
            } else {
                0
            })
            &&& mix_side(regs, r, s, a, b, false) - mix_side(regs, r, s, a, 0, false) == (if h & 0x1000 != 0 {
                b * vb * 8
            } else {
                0
            })
        }),
{
    lemma_sound_bits(regs.soundcnt_h);
}

/// With every GB channel silent and FIFO B empty, a Direct Sound A sample
/// `a` comes out as `a` times 4 (SOUNDCNT_H bit 2) or 2, times 8, on the
/// left when bit 9 is set and on the right when bit 8 is set, and as 0 on a
/// side whose bit is clear.
pub proof fn lemma_lone_direct_sound_a(regs: SoundRegisters, r: (bool, bool, bool, bool), a: int)
    requires
        -128 <= a <= 127,
    ensures
        ({
            let h = regs.soundcnt_h;
            let out: int = a * (if h & 0x0004 != 0 {
                4int
            } else {
                2int
            }) * 8;
            &&& mixed(regs, r, (0, 0, 0, 0), a, 0).0 == (if h & 0x0200 != 0 {
                out
            } else {
                0
            })
            &&& mixed(regs, r, (0, 0, 0, 0), a, 0).1 == (if h & 0x0100 != 0 {
                out
            } else {
                0
            })
        }),
{
    lemma_sound_bits(regs.soundcnt_h);
    let h = regs.soundcnt_h;
    assert(-4096 <= a * 4 * 8 <= 4096 && -4096 <= a * 2 * 8 <= 4096) by (nonlinear_arith)
        requires
            -128 <= a <= 127,
    ;
    assert(mix_side(regs, r, (0, 0, 0, 0), a, 0, true) == ds_term(h, a, 2, 9));
    assert(mix_side(regs, r, (0, 0, 0, 0), a, 0, false) == ds_term(h, a, 2, 8));
}

/// Volume of one side from SOUNDCNT_L: bits 4-6 for the left, 0-2 for the
/// right.
pub open spec fn gb_side_volume(l: u16, left: bool) -> int {
    if left {
        ((l & 0x70) / 16) as int
    } else {
        (l & 7) as int
    }
}

/// What a running GB channel `k` adds to a side, by the SOUNDCNT_L/H
/// layout: its sample times the side's volume times the master factor
/// (SOUNDCNT_H bits 0-1: 25 %, 50 %, 100 %), when SOUNDCNT_L bit 12 + k
/// (left) or 8 + k (right) routes it there. Silencing a channel changes
/// each side by exactly that.
pub proof fn lemma_gb_routing(regs: SoundRegisters, r: (bool, bool, bool, bool), s: (int, int, int, int), a: int, b: int, left: bool)
    ensures
        ({
            let l = regs.soundcnt_l;
            let m: int = if regs.soundcnt_h & 3 == 0 {
                1
            } else if regs.soundcnt_h & 3 == 1 {
                2
            } else {
                4
            };
            let v = gb_side_volume(l, left);
            &&& mix_side(regs, r, s, a, b, left) - mix_side(regs, r, (0, s.1, s.2, s.3), a, b, left) == (if r.0
                && l & (if left {
                0x1000u16
            } else {
                0x0100u16
            }) != 0 {
                s.0 * v * m
            } else {
                0
            })
            &&& mix_side(regs, r, s, a, b, left) - mix_side(regs, r, (s.0, 0, s.2, s.3), a, b, left) == (if r.1
                && l & (if left {
                0x2000u16
            } else {
                0x0200u16
            }) != 0 {
                s.1 * v * m
            } else {
                0
            })
            &&& mix_side(regs, r, s, a, b, left) - mix_side(regs, r, (s.0, s.1, 0, s.3), a, b, left) == (if r.2
                && l & (if left {
                0x4000u16
            } else {
                0x0400u16
            }) != 0 {
                s.2 * v * m
            } else {
                0
            })
            &&& mix_side(regs, r, s, a, b, left) - mix_side(regs, r, (s.0, s.1, s.2, 0), a, b, left) == (if r.3
                && l & (if left {
                0x8000u16
            } else {
                0x0800u16
            }) != 0 {
                s.3 * v * m
            } else {
                0
            })
        }),
{
    lemma_sound_bits(regs.soundcnt_l);
    assert(((12 + 0int) as u16) == 12u16 && ((12 + 1int) as u16) == 13u16 && ((12 + 2int) as u16) == 14u16
        && ((12 + 3int) as u16) == 15u16);
    assert(((8 + 0int) as u16) == 8u16 && ((8 + 1int) as u16) == 9u16 && ((8 + 2int) as u16) == 10u16 && ((8
        + 3int) as u16) == 11u16);
}

/// Adds GB channel `k`'s contribution to both sides.
fn add_gb(
    regs: &SoundRegisters,
    k: u8,
    running: bool,
    sample: i8,
    left: i32,
    right: i32,
) -> (r: (i32, i32))
    requires
        k < 4,
        -20000 <= left <= 20000,
        -20000 <= right <= 20000,
    ensures
        r.0 == left + gb_term(*regs, k as int, running, sample as int, true),
        r.1 == right + gb_term(*regs, k as int, running, sample as int, false),
        -3584 <= r.0 - left <= 3584,
        -3584 <= r.1 - right <= 3584,
{
    let (gb_vol_left, gb_vol_right) = regs.get_gb_volume();
    let lreg = regs.soundcnt_l;
    proof {
        crate::bits::lemma_u16_field(lreg, 4, 7);
    }
    let m = regs.soundcnt_h & 0x03;
    let gb_master_vol: i32 = if m == 0 {
        1
    } else if m == 1 {
        2
    } else {
        4
    };
    let mut l = left;
    let mut r = right;
    if running {
        let s = sample as i32;
        let (en_left, en_right) = regs.is_gb_channel_enabled(k);
        let vl = gb_vol_left as i32;
        let vr = gb_vol_right as i32;
        assert(-3584 <= s * vl * gb_master_vol <= 3584 && -3584 <= s * vr * gb_master_vol <= 3584)
            by (nonlinear_arith)
            requires
                -128 <= s <= 127,
                0 <= vl <= 7,
                0 <= vr <= 7,
                1 <= gb_master_vol <= 4,
        ;
        if en_left {
            l = l + s * vl * gb_master_vol;
        }
        if en_right {
            r = r + s * vr * gb_master_vol;
        }
    }
    (l, r)
}

/// Limits `x` to the range of i16.
fn clamp_i16(x: i32) -> (r: i16)
    ensures
        r == clamp16(x as int),
{
    if x < -32768 {
        -32768
    } else if x > 32767 {
        32767
    } else {
        x as i16
    }
}

/// Mixes the four GB channels and both Direct Sound FIFOs (taking one
/// sample from each) into a stereo pair (left, right).
#[verifier::rlimit(50)]
#[verifier::spinoff_prover]
pub fn mix_audio(
    ch1: &mut SquareChannel,
    ch2: &mut SquareChannel,
    ch3: &mut WaveChannel,
    ch4: &mut NoiseChannel,
    dsa: &mut DirectSound,
    dsb: &mut DirectSound,
    regs: &SoundRegisters,
) -> (r: (i16, i16))
    requires
        old(ch1).envelope_volume != 128,
        old(ch2).envelope_volume != 128,
        old(ch4).envelope_volume != 128,
        old(dsa).wf(),
        old(dsb).wf(),
    ensures
        *final(ch1) == *old(ch1),
        *final(ch2) == *old(ch2),
        *final(ch3) == *old(ch3),
        *final(ch4) == *old(ch4),
        final(dsa).wf(),
        final(dsb).wf(),
        final(dsa).queue() == (if old(dsa).queue().len() > 0 {
            old(dsa).queue().drop_first()
        } else {
            old(dsa).queue()
        }),
        final(dsb).queue() == (if old(dsb).queue().len() > 0 {
            old(dsb).queue().drop_first()
        } else {
            old(dsb).queue()
        }),
        r == mixed(
            *regs,
            (old(ch1).enabled, old(ch2).enabled, old(ch3).enabled, old(ch4).enabled),
            (
                old(ch1).sample_spec() as int,
                old(ch2).sample_spec() as int,
                old(ch3).sample_spec() as int,
                old(ch4).sample_spec() as int,
            ),
            ds_front(*old(dsa)),
            ds_front(*old(dsb)),
        ),
{
    let mut left: i32 = 0;
    let mut right: i32 = 0;
    let s1 = ch1.get_sample();
    let (l1, r1) = add_gb(regs, 0, ch1.is_enabled(), s1, left, right);
    let s2 = ch2.get_sample();
    let (l2, r2) = add_gb(regs, 1, ch2.is_enabled(), s2, l1, r1);
    let s3 = ch3.get_sample();
    let (l3, r3) = add_gb(regs, 2, ch3.is_enabled(), s3, l2, r2);
    let s4 = ch4.get_sample();
    let (l4, r4) = add_gb(regs, 3, ch4.is_enabled(), s4, l3, r3);
    left = l4;
    right = r4;
    let h = regs.soundcnt_h;
    let dsa_sample = dsa.read_sample() as i32;
    let dsa_vol: i32 = if (h >> 2) & 1 != 0 {
        4
    } else {
        2
    };
    assert(-4096 <= dsa_sample * dsa_vol * 8 <= 4096) by (nonlinear_arith)
        requires
            -128 <= dsa_sample <= 127,
            dsa_vol == 2 || dsa_vol == 4,
    ;
    if (h >> 9) & 1 != 0 {
        left = left + dsa_sample * dsa_vol * 8;
    }
    if (h >> 8) & 1 != 0 {
        right = right + dsa_sample * dsa_vol * 8;
    }
    let dsb_sample = dsb.read_sample() as i32;
    let dsb_vol: i32 = if (h >> 3) & 1 != 0 {
        4
    } else {
        2
    };
    assert(-4096 <= dsb_sample * dsb_vol * 8 <= 4096) by (nonlinear_arith)
        requires
            -128 <= dsb_sample <= 127,
            dsb_vol == 2 || dsb_vol == 4,
    ;
    if (h >> 13) & 1 != 0 {
        left = left + dsb_sample * dsb_vol * 8;
    }
    if (h >> 12) & 1 != 0 {
        right = right + dsb_sample * dsb_vol * 8;
    }
    (clamp_i16(left), clamp_i16(right))
}

} // verus!
