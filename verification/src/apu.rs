pub mod channels;
pub mod direct_sound;
pub mod mixer;
pub mod registers;

pub use crate::apu::registers::SoundRegisters;

use vstd::prelude::*;
use crate::apu::channels::{NoiseChannel, SquareChannel, WaveChannel};
use crate::apu::direct_sound::DirectSound;
use crate::apu::mixer::{ds_front, mix_audio, mixed};

verus! {

/// The FIFO `n` after a write that empties `d` when `reset` holds and
/// leaves it alone otherwise.
pub open spec fn fifo_after(d: DirectSound, reset: bool, n: DirectSound) -> bool {
    if reset {
        n.wf() && n.queue() == Seq::<i8>::empty() && n.fifo == d.fifo
    } else {
        n == d
    }
}

/// Audio processing unit: the sound registers, the four GB channels and
/// the two Direct Sound FIFOs.
#[derive(Debug)]
pub struct APU {
    pub registers: SoundRegisters,
    pub channel1: SquareChannel,
    pub channel2: SquareChannel,
    pub channel3: WaveChannel,
    pub channel4: NoiseChannel,
    pub direct_sound_a: DirectSound,
    pub direct_sound_b: DirectSound,
    pub frame_counter: u64,
}

impl APU {
    /// The FIFO positions are in range and no envelope volume is 128.
    pub open spec fn wf(self) -> bool {
        &&& self.direct_sound_a.wf()
        &&& self.direct_sound_b.wf()
        &&& self.channel1.envelope_volume != 128
        &&& self.channel2.envelope_volume != 128
        &&& self.channel4.envelope_volume != 128
    }

    /// The byte a read at `addr` gives: channel 1 (0x04000060-65), channel 2
    /// (0x68-6D), channel 3 (0x70-75), wave RAM (0x90-9F), channel 4
    /// (0x78-7D), control (0x80-89); 0 elsewhere.
    pub open spec fn read_spec(self, addr: u32) -> u8 {
        if 0x04000060 <= addr <= 0x04000065 {
            self.channel1.read_spec(addr)
        } else if 0x04000068 <= addr <= 0x0400006D {
            self.channel2.read_spec(addr)
        } else if 0x04000070 <= addr <= 0x04000075 {
            self.channel3.read_spec(addr)
        } else if 0x04000090 <= addr <= 0x0400009F {
            self.channel3.wave_ram@[addr - 0x04000090]
        } else if 0x04000078 <= addr <= 0x0400007D {
            self.channel4.read_spec(addr)
        } else if 0x04000080 <= addr <= 0x04000089 {
            self.registers.read_spec(addr)
        } else {
            0
        }
    }

    /// `new` is this APU after a byte write of `value` at `addr`: the unit
    /// that owns the address takes the byte, a write of SOUNDCNT_H's high
    /// byte may empty the FIFOs, and nothing else changes.
    pub open spec fn written(self, addr: u32, value: u8, new: APU) -> bool {
        if 0x04000060 <= addr <= 0x04000065 {
            self.channel1.written(addr, value, new.channel1) && new == (APU { channel1: new.channel1, ..self })
        } else if 0x04000068 <= addr <= 0x0400006D {
            self.channel2.written(addr, value, new.channel2) && new == (APU { channel2: new.channel2, ..self })
        } else if 0x04000070 <= addr <= 0x04000075 {
            self.channel3.written(addr, value, new.channel3) && new == (APU { channel3: new.channel3, ..self })
        } else if 0x04000090 <= addr <= 0x0400009F {
            &&& new.channel3.wave_ram@ == self.channel3.wave_ram@.update(addr - 0x04000090, value)
            &&& new.channel3 == (WaveChannel { wave_ram: new.channel3.wave_ram, ..self.channel3 })
            &&& new == (APU { channel3: new.channel3, ..self })
        } else if 0x04000078 <= addr <= 0x0400007D {
            self.channel4.written(addr, value, new.channel4) && new == (APU { channel4: new.channel4, ..self })
        } else if 0x04000080 <= addr <= 0x04000089 {
            &&& self.registers.written(addr, value, new.registers)
            &&& fifo_after(self.direct_sound_a, addr == 0x04000083 && value & 0x08 != 0, new.direct_sound_a)
            &&& fifo_after(self.direct_sound_b, addr == 0x04000083 && value & 0x80 != 0, new.direct_sound_b)
            &&& new == (APU {
                registers: new.registers,
                direct_sound_a: new.direct_sound_a,
                direct_sound_b: new.direct_sound_b,
                ..self
            })
        } else {
            new == self
        }
    }

    pub fn new() -> (r: Self)
        ensures
            r.wf(),
            r.registers.soundcnt_x == 0,
            r.channel1.has_sweep && !r.channel2.has_sweep,
            r.frame_counter == 0,
    {
        APU {
            registers: SoundRegisters::new(),
            channel1: SquareChannel::new(true),
            channel2: SquareChannel::new(false),
            channel3: WaveChannel::new(),
            channel4: NoiseChannel::new(),
            direct_sound_a: DirectSound::new(),
            direct_sound_b: DirectSound::new(),
            frame_counter: 0,
        }
    }

    pub fn read_byte(&self, addr: u32) -> (r: u8)
        ensures
            r == self.read_spec(addr),
    {
        if 0x04000060 <= addr && addr <= 0x04000065 {
            self.channel1.read_byte(addr)
        } else if 0x04000068 <= addr && addr <= 0x0400006D {
            self.channel2.read_byte(addr)
        } else if 0x04000070 <= addr && addr <= 0x04000075 {
            self.channel3.read_byte(addr)
        } else if 0x04000090 <= addr && addr <= 0x0400009F {
            self.channel3.read_wave_ram(addr)
        } else if 0x04000078 <= addr && addr <= 0x0400007D {
            self.channel4.read_byte(addr)
        } else if 0x04000080 <= addr && addr <= 0x04000089 {
            self.registers.read_byte(addr)
        } else {
            0
        }
    }

    /// Writes a sound register byte; writing the high byte of SOUNDCNT_H
    /// with bit 3 (or bit 7) set also empties FIFO A (or B).
    pub fn write_byte(&mut self, addr: u32, value: u8)
        requires
            old(self).wf(),
        ensures
            final(self).wf(),
            old(self).written(addr, value, *final(self)),
    {
        if 0x04000060 <= addr && addr <= 0x04000065 {
            self.channel1.write_byte(addr, value);
        } else if 0x04000068 <= addr && addr <= 0x0400006D {
            self.channel2.write_byte(addr, value);
        } else if 0x04000070 <= addr && addr <= 0x04000075 {
            self.channel3.write_byte(addr, value);
        } else if 0x04000090 <= addr && addr <= 0x0400009F {
            self.channel3.write_wave_ram(addr, value);
        } else if 0x04000078 <= addr && addr <= 0x0400007D {
            self.channel4.write_byte(addr, value);
        } else if 0x04000080 <= addr && addr <= 0x04000089 {
            self.registers.write_byte(addr, value);
            if addr == 0x04000083 {
                if value & 0x08 != 0 {
                    self.direct_sound_a.reset_fifo();
                }
                if value & 0x80 != 0 {
                    self.direct_sound_b.reset_fifo();
                }
            }
        }
    }

    /// Little-endian halfword at `addr` and `addr + 1`.
    pub fn read_halfword(&self, addr: u32) -> (r: u16)
        requires
            addr < u32::MAX,
        ensures
            r == self.read_spec(addr) + 256 * self.read_spec((addr + 1) as u32),
    {
        let low = self.read_byte(addr) as u16;
        let high = self.read_byte(addr + 1) as u16;
        proof {
            crate::bits::lemma_u16_combine(low, high);
        }
        (high << 8) | low
    }

    /// Writes a little-endian halfword, low byte first.
    pub fn write_halfword(&mut self, addr: u32, value: u16)
        requires
            old(self).wf(),
            addr < u32::MAX,
        ensures
            final(self).wf(),
            exists|mid: APU|
                #[trigger] old(self).written(addr, (value & 0xFF) as u8, mid) && mid.written(
                    (addr + 1) as u32,
                    (value >> 8) as u8,
                    *final(self),
                ),
    {
        self.write_byte(addr, (value & 0xFF) as u8);
        let ghost mid = *self;
        self.write_byte(addr + 1, (value >> 8) as u8);
        assert(old(self).written(addr, (value & 0xFF) as u8, mid) && mid.written(
            (addr + 1) as u32,
            (value >> 8) as u8,
            *self,
        ));
    }

    /// Queues a sample in FIFO A.
    pub fn write_fifo_a(&mut self, value: i8)
        requires
            old(self).direct_sound_a.wf(),
        ensures
            final(self).direct_sound_a.wf(),
            old(self).direct_sound_a.len_spec() < 31 ==> final(self).direct_sound_a.queue() == old(
                self,
            ).direct_sound_a.queue().push(value),
            old(self).direct_sound_a.len_spec() == 31 ==> final(self).direct_sound_a.queue() == Seq::<
                i8,
            >::empty(),
            final(self).direct_sound_b == old(self).direct_sound_b,
            final(self).registers == old(self).registers,
    {
        self.direct_sound_a.write_sample(value);
    }

    /// Queues a sample in FIFO B.
    pub fn write_fifo_b(&mut self, value: i8)
        requires
            old(self).direct_sound_b.wf(),
        ensures
            final(self).direct_sound_b.wf(),
            old(self).direct_sound_b.len_spec() < 31 ==> final(self).direct_sound_b.queue() == old(
                self,
            ).direct_sound_b.queue().push(value),
            old(self).direct_sound_b.len_spec() == 31 ==> final(self).direct_sound_b.queue() == Seq::<
                i8,
            >::empty(),
            final(self).direct_sound_a == old(self).direct_sound_a,
            final(self).registers == old(self).registers,
    {
        self.direct_sound_b.write_sample(value);
    }

    /// One stereo sample: silence while sound is off, else the mix of all
    /// channels (taking one sample from each FIFO).
    pub fn generate_sample(&mut self) -> (r: (i16, i16))
        requires
            old(self).wf(),
        ensures
            final(self).wf(),
            old(self).registers.soundcnt_x & 0x80 == 0 ==> r == (0i16, 0i16) && *final(self) == *old(self),
            old(self).registers.soundcnt_x & 0x80 != 0 ==> {
                &&& final(self).registers == old(self).registers
                &&& final(self).channel1 == old(self).channel1
                &&& final(self).channel2 == old(self).channel2
                &&& final(self).channel3 == old(self).channel3
                &&& final(self).channel4 == old(self).channel4
                &&& final(self).frame_counter == old(self).frame_counter
                &&& final(self).direct_sound_a.queue() == (if old(self).direct_sound_a.queue().len() > 0 {
                    old(self).direct_sound_a.queue().drop_first()
                } else {
                    old(self).direct_sound_a.queue()
                })
                &&& final(self).direct_sound_b.queue() == (if old(self).direct_sound_b.queue().len() > 0 {
                    old(self).direct_sound_b.queue().drop_first()
                } else {
                    old(self).direct_sound_b.queue()
                })
            },
            old(self).registers.soundcnt_x & 0x80 != 0 ==> r == mixed(
                old(self).registers,
                (
                    old(self).channel1.enabled,
                    old(self).channel2.enabled,
                    old(self).channel3.enabled,
                    old(self).channel4.enabled,
                ),
                (
                    old(self).channel1.sample_spec() as int,
                    old(self).channel2.sample_spec() as int,
                    old(self).channel3.sample_spec() as int,
                    old(self).channel4.sample_spec() as int,
                ),
                ds_front(old(self).direct_sound_a),
                ds_front(old(self).direct_sound_b),
            ),
    {
        if !self.registers.is_master_enabled() {
            return (0, 0);
        }
        mix_audio(
            &mut self.channel1,
            &mut self.channel2,
            &mut self.channel3,
            &mut self.channel4,
            &mut self.direct_sound_a,
            &mut self.direct_sound_b,
            &self.registers,
        )
    }

    /// One APU cycle: counts the cycle and steps the channels while sound is
    /// on (a channel step changes nothing yet).
    pub fn step(&mut self)
        requires
            old(self).frame_counter < u64::MAX,
        ensures
            *final(self) == (APU { frame_counter: (old(self).frame_counter + 1) as u64, ..*old(self) }),
    {
        self.frame_counter = self.frame_counter + 1;
        if self.registers.is_master_enabled() {
            self.channel1.step();
            self.channel2.step();
            self.channel3.step();
            self.channel4.step();
        }
    }
}

impl Default for APU {
    fn default() -> (r: Self)
        ensures
            r.wf(),
    {
        Self::new()
    }
}

} // verus!
