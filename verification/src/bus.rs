use vstd::prelude::*;
use crate::cpu::{BusAccess, MemoryBus};
use crate::instructions::alu::{lemma_wrap32, wrap32};
use crate::interrupt::InterruptController;
use crate::memory::{Memory, byte_at, in_oam, in_palette, updated};
use crate::ppu::PPU;

verus! {

/// Addresses of the display registers (0x04000000 to 0x04000055), which the
/// PPU answers.
pub open spec fn in_display_io(a: u32) -> bool {
    0x0400_0000 <= a <= 0x0400_0055
}

/// Low byte (`a` even) or high byte (`a` odd) of the halfword `h`.
pub open spec fn byte_of_halfword(h: u16, a: u32) -> u8 {
    if a % 2 == 0 {
        (h % 256) as u8
    } else {
        (h / 256) as u8
    }
}

/// `h` with the byte that `a` selects replaced by `value`.
pub open spec fn halfword_with_byte(h: u16, a: u32, value: u8) -> u16 {
    if a % 2 == 0 {
        ((h / 256) * 256 + value) as u16
    } else {
        (value * 256 + h % 256) as u16
    }
}

/// System bus: the memory map, the PPU's registers, palette and OAM, the
/// interrupt controller, and the record of the processor's accesses.
pub struct Bus {
    pub memory: Memory,
    pub ppu: PPU,
    pub interrupt: InterruptController,
    pub log: Ghost<Seq<BusAccess>>,
}

impl Bus {
    /// The byte a read at `a` gives.
    pub open spec fn read_spec(self, a: u32) -> u8 {
        if in_display_io(a) {
            byte_of_halfword(self.ppu.read_register_spec((a - a % 2) as u32), a)
        } else if in_palette(a) {
            byte_at(self.ppu.palette_ram@, a - 0x0500_0000, 0)
        } else if in_oam(a) {
            byte_at(self.ppu.oam@, a - 0x0700_0000, 0)
        } else {
            self.memory.read_spec(a)
        }
    }

    /// `new` is this bus after a byte write of `value` at `a`: a display
    /// register gets the halfword that holds the new byte, palette RAM and
    /// OAM are the PPU's, everything else is the memory map's.
    #[verifier::opaque]
    pub open spec fn written(self, a: u32, value: u8, new: Bus) -> bool {
        &&& new.interrupt == self.interrupt
        &&& if in_display_io(a) {
            let al = (a - a % 2) as u32;
            &&& new.memory == self.memory
            &&& self.ppu.register_written(
                al,
                halfword_with_byte(self.ppu.read_register_spec(al), a, value),
                new.ppu,
            )
        } else if in_palette(a) {
            &&& new.memory == self.memory
            &&& new.ppu == (PPU { palette_ram: new.ppu.palette_ram, ..self.ppu })
            &&& new.ppu.palette_ram@ == updated(self.ppu.palette_ram@, a - 0x0500_0000, value)
        } else if in_oam(a) {
            &&& new.memory == self.memory
            &&& new.ppu == (PPU { oam: new.ppu.oam, ..self.ppu })
            &&& new.ppu.oam@ == updated(self.ppu.oam@, a - 0x0700_0000, value)
        } else {
            &&& new.ppu == self.ppu
            &&& self.memory.written(a, value, new.memory)
        }
    }

    pub fn new() -> (b: Self)
        ensures
            b.memory.wf(),
            b.ppu.wf(),
            b.ppu.dispcnt == 0 && b.ppu.scanline == 0 && b.ppu.cycles == 0,
            b.interrupt.ie == 0 && b.interrupt.if_ == 0 && !b.interrupt.ime,
            b.log@ == Seq::<BusAccess>::empty(),
    {
        Bus {
            memory: Memory::new(),
            ppu: PPU::new(),
            interrupt: InterruptController::new(),
            log: Ghost(Seq::empty()),
        }
    }

    /// Installs a BIOS image.
    pub fn load_bios(&mut self, bios: Vec<u8>)
        ensures
            final(self).memory.bios@ == bios@,
            final(self).memory == (Memory { bios: final(self).memory.bios, ..old(self).memory }),
            final(self).ppu == old(self).ppu,
            final(self).interrupt == old(self).interrupt,
            final(self).log == old(self).log,
    {
        self.memory.bios = bios;
    }

    /// Installs a cartridge ROM image.
    pub fn load_rom(&mut self, rom: Vec<u8>)
        ensures
            final(self).memory.rom@ == rom@,
            final(self).memory == (Memory { rom: final(self).memory.rom, ..old(self).memory }),
            final(self).ppu == old(self).ppu,
            final(self).interrupt == old(self).interrupt,
            final(self).log == old(self).log,
    {
        self.memory.rom = rom;
    }

    /// The byte at `addr`.
    pub fn peek_byte(&self, addr: u32) -> (r: u8)
        ensures
            r == self.read_spec(addr),
    {
        if 0x0400_0000 <= addr && addr <= 0x0400_0055 {
            let h = self.ppu.read_register(addr - addr % 2);
            proof {
                crate::bits::lemma_u16_bytes(h);
            }
            if addr % 2 == 0 {
                (h & 0xFF) as u8
            } else {
                (h >> 8) as u8
            }
        } else if 0x0500_0000 <= addr && addr <= 0x0500_03FF {
            self.ppu.read_palette_byte((addr - 0x0500_0000) as usize)
        } else if 0x0700_0000 <= addr && addr <= 0x0700_03FF {
            self.ppu.read_oam_byte((addr - 0x0700_0000) as usize)
        } else {
            self.memory.read_byte(addr)
        }
    }

    /// Writes the byte `value` at `addr`.
    pub fn poke_byte(&mut self, addr: u32, value: u8)
        ensures
            old(self).written(addr, value, *final(self)),
            old(self).memory.wf() && old(self).ppu.wf() ==> final(self).memory.wf() && final(self).ppu.wf(),
            final(self).log == old(self).log,
            final(self).ppu.scanline == old(self).ppu.scanline,
            final(self).ppu.cycles == old(self).ppu.cycles,
            final(self).interrupt == old(self).interrupt,
    {
        reveal(Bus::written);
        if 0x0400_0000 <= addr && addr <= 0x0400_0055 {
            let al = addr - addr % 2;
            let h = self.ppu.read_register(al);
            let v = value as u16;
            assert((h & 0xFF00) | v == (h / 256) * 256 + v && (v << 8u16) | (h & 0xFF) == v * 256 + h % 256)
                by (bit_vector)
                requires
                    v < 256,
            ;
            let nh = if addr % 2 == 0 {
                (h & 0xFF00) | v
            } else {
                (v << 8) | (h & 0xFF)
            };
            self.ppu.write_register(al, nh);
        } else if 0x0500_0000 <= addr && addr <= 0x0500_03FF {
            self.ppu.write_palette_byte((addr - 0x0500_0000) as usize, value);
        } else if 0x0700_0000 <= addr && addr <= 0x0700_03FF {
            self.ppu.write_oam_byte((addr - 0x0700_0000) as usize, value);
        } else {
            self.memory.write_byte(addr, value);
        }
    }
}

impl MemoryBus for Bus {
    /// The memory map and the PPU have their full sizes.
    open spec fn inv(&self) -> bool {
        self.memory.wf() && self.ppu.wf()
    }

    open spec fn accesses(&self) -> Seq<BusAccess> {
        self.log@
    }

    /// Cycles into the frame: line times 1232 plus the cycles into the line.
    open spec fn display_position(&self) -> int {
        self.ppu.scanline * 1232 + self.ppu.cycles
    }

    open spec fn interrupt_state(&self) -> (u16, u16, bool) {
        (self.interrupt.ie, self.interrupt.if_, self.interrupt.ime)
    }

    open spec fn peek(&self, addr: u32) -> u8 {
        self.read_spec(addr)
    }

    open spec fn contents(&self) -> Bus {
        Bus { log: Ghost(Seq::empty()), ..*self }
    }

    fn read_byte(&mut self, addr: u32) -> (r: u8)
        ensures
            r == old(self).read_spec(addr),
            *final(self) == (Bus { log: final(self).log, ..*old(self) }),
    {
        let r = self.peek_byte(addr);
        self.log = Ghost(self.log@.push(BusAccess::ReadByte(addr, r)));
        r
    }

    /// Little-endian halfword: the byte at `addr` and the one after it.
    fn read_halfword(&mut self, addr: u32) -> (r: u16)
        ensures
            r == old(self).read_spec(addr) + 256 * old(self).read_spec(wrap32(addr + 1)),
            *final(self) == (Bus { log: final(self).log, ..*old(self) }),
    {
        proof {
            lemma_wrap32(addr + 1);
        }
        let lo = self.peek_byte(addr) as u16;
        let hi = self.peek_byte(addr.wrapping_add(1)) as u16;
        proof {
            crate::bits::lemma_u16_combine(lo, hi);
        }
        let r = (hi << 8) | lo;
        self.log = Ghost(self.log@.push(BusAccess::ReadHalfword(addr, r)));
        r
    }

    /// Little-endian word: the bytes at `addr` to `addr + 3`.
    fn read_word(&mut self, addr: u32) -> (r: u32)
        ensures
            r == old(self).read_spec(addr) + 0x100 * old(self).read_spec(wrap32(addr + 1)) + 0x1_0000
                * old(self).read_spec(wrap32(addr + 2)) + 0x100_0000 * old(self).read_spec(
                wrap32(addr + 3),
            ),
            *final(self) == (Bus { log: final(self).log, ..*old(self) }),
    {
        proof {
            lemma_wrap32(addr + 1);
            lemma_wrap32(addr + 2);
            lemma_wrap32(addr + 3);
        }
        let b0 = self.peek_byte(addr) as u32;
        let b1 = self.peek_byte(addr.wrapping_add(1)) as u32;
        let b2 = self.peek_byte(addr.wrapping_add(2)) as u32;
        let b3 = self.peek_byte(addr.wrapping_add(3)) as u32;
        proof {
            crate::bits::lemma_u32_combine(b0, b1, b2, b3);
        }
        let r = (b3 << 24) | (b2 << 16) | (b1 << 8) | b0;
        self.log = Ghost(self.log@.push(BusAccess::ReadWord(addr, r)));
        r
    }

    fn write_byte(&mut self, addr: u32, value: u8)
        ensures
            old(self).written(addr, value, *final(self)),
    {
        reveal(Bus::written);
        self.poke_byte(addr, value);
        self.log = Ghost(self.log@.push(BusAccess::WriteByte(addr, value)));
    }

    /// Little-endian halfword write, byte by byte.
    fn write_halfword(&mut self, addr: u32, value: u16)
        ensures
            exists|mid: Bus|
                #[trigger] old(self).written(addr, (value % 256) as u8, mid) && mid.written(
                    wrap32(addr + 1),
                    (value / 256) as u8,
                    *final(self),
                ),
    {
        proof {
            crate::bits::lemma_u16_bytes(value);
        }
        proof {
            lemma_wrap32(addr + 1);
        }
        self.poke_byte(addr, (value & 0xFF) as u8);
        let ghost mid = *self;
        self.poke_byte(addr.wrapping_add(1), ((value >> 8) & 0xFF) as u8);
        assert(mid.written(wrap32(addr + 1), (value / 256) as u8, *self));
        self.log = Ghost(self.log@.push(BusAccess::WriteHalfword(addr, value)));
        assert(mid.written(wrap32(addr + 1), (value / 256) as u8, *self)) by {
            reveal(Bus::written);
        }
    }

    /// Little-endian word write, byte by byte.
    fn write_word(&mut self, addr: u32, value: u32)
        ensures
            exists|m1: Bus, m2: Bus, m3: Bus|
                #[trigger] old(self).written(addr, (value % 256) as u8, m1) && #[trigger] m1.written(
                    wrap32(addr + 1),
                    ((value / 0x100) % 256) as u8,
                    m2,
                ) && #[trigger] m2.written(wrap32(addr + 2), ((value / 0x1_0000) % 256) as u8, m3)
                    && m3.written(wrap32(addr + 3), (value / 0x100_0000) as u8, *final(self)),
    {
        proof {
            crate::bits::lemma_u32_bytes(value);
        }
        proof {
            lemma_wrap32(addr + 1);
            lemma_wrap32(addr + 2);
            lemma_wrap32(addr + 3);
        }
        self.poke_byte(addr, (value & 0xFF) as u8);
        let ghost m1 = *self;
        self.poke_byte(addr.wrapping_add(1), ((value >> 8) & 0xFF) as u8);
        let ghost m2 = *self;
        self.poke_byte(addr.wrapping_add(2), ((value >> 16) & 0xFF) as u8);
        let ghost m3 = *self;
        self.poke_byte(addr.wrapping_add(3), ((value >> 24) & 0xFF) as u8);
        assert(m3.written(wrap32(addr + 3), (value / 0x100_0000) as u8, *self));
        self.log = Ghost(self.log@.push(BusAccess::WriteWord(addr, value)));
        assert(m3.written(wrap32(addr + 3), (value / 0x100_0000) as u8, *self)) by {
            reveal(Bus::written);
        }
    }
}

/// Outside the display registers, a byte written to the bus reads back at
/// its address when that address is writable (RAM, palette, VRAM, OAM,
/// SRAM), and every other address keeps its byte.
pub proof fn lemma_bus_write_then_read(b: Bus, addr: u32, value: u8, c: Bus, a: u32)
    requires
        b.memory.wf(),
        b.ppu.wf(),
        b.written(addr, value, c),
        !in_display_io(addr),
        !in_display_io(a),
    ensures
        c.read_spec(a) == (if a == addr && crate::memory::is_writable(addr) {
            value
        } else {
            b.read_spec(a)
        }),
{
    reveal(Bus::written);
    if !in_palette(addr) && !in_oam(addr) {
        crate::memory::lemma_write_then_read(b.memory, addr, value, c.memory, a);
    }
}

impl Default for Bus {
    fn default() -> (b: Self)
        ensures
            b.memory.wf(),
            b.ppu.wf(),
    {
        Self::new()
    }
}

} // verus!
