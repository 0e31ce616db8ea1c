use vstd::prelude::*;
use crate::instructions::alu::{lemma_wrap32, wrap32};

verus! {

/// Byte `off` of `v`, or `default` past its end.
pub open spec fn byte_at(v: Seq<u8>, off: int, default: u8) -> u8 {
    if 0 <= off < v.len() {
        v[off]
    } else {
        default
    }
}

/// `v` with byte `off` replaced, when `off` is inside it.
pub open spec fn updated(v: Seq<u8>, off: int, value: u8) -> Seq<u8> {
    if 0 <= off < v.len() {
        v.update(off, value)
    } else {
        v
    }
}

pub open spec fn in_bios(a: u32) -> bool {
    a <= 0x3FFF
}

pub open spec fn in_ewram(a: u32) -> bool {
    0x0200_0000 <= a <= 0x0203_FFFF
}

pub open spec fn in_iwram(a: u32) -> bool {
    0x0300_0000 <= a <= 0x0300_7FFF
}

pub open spec fn in_io(a: u32) -> bool {
    0x0400_0000 <= a <= 0x0400_03FF
}

pub open spec fn in_palette(a: u32) -> bool {
    0x0500_0000 <= a <= 0x0500_03FF
}

pub open spec fn in_vram(a: u32) -> bool {
    0x0600_0000 <= a <= 0x0601_7FFF
}

pub open spec fn in_oam(a: u32) -> bool {
    0x0700_0000 <= a <= 0x0700_03FF
}

pub open spec fn in_rom(a: u32) -> bool {
    0x0800_0000 <= a <= 0x0DFF_FFFF
}

pub open spec fn in_sram(a: u32) -> bool {
    0x0E00_0000 <= a <= 0x0E00_FFFF
}

/// Addresses whose writes are stored (BIOS and ROM are read-only).
pub open spec fn is_writable(a: u32) -> bool {
    in_ewram(a) || in_iwram(a) || in_io(a) || in_palette(a) || in_vram(a) || in_oam(a) || in_sram(
        a,
    )
}

/// The memory map of the GBA, one buffer per region.
pub struct Memory {
    pub bios: Vec<u8>,
    pub ewram: Vec<u8>,
    pub iwram: Vec<u8>,
    pub io_registers: Vec<u8>,
    pub palette_ram: Vec<u8>,
    pub vram: Vec<u8>,
    pub oam: Vec<u8>,
    pub rom: Vec<u8>,
    pub sram: Vec<u8>,
}

impl Memory {
    /// The writable regions have their full sizes.
    pub open spec fn wf(self) -> bool {
        &&& self.ewram.len() == 0x40000
        &&& self.iwram.len() == 0x8000
        &&& self.io_registers.len() == 0x400
        &&& self.palette_ram.len() == 0x400
        &&& self.vram.len() == 0x18000
        &&& self.oam.len() == 0x400
        &&& self.sram.len() == 0x10000
    }

    /// The byte at `a` in the memory map (unmapped addresses read 0, ROM and
    /// SRAM past their contents read 0xFF).
    pub open spec fn read_spec(self, a: u32) -> u8 {
        if in_bios(a) {
            byte_at(self.bios@, a as int, 0)
        } else if in_ewram(a) {
            byte_at(self.ewram@, a - 0x0200_0000, 0)
        } else if in_iwram(a) {
            byte_at(self.iwram@, a - 0x0300_0000, 0)
        } else if in_io(a) {
            byte_at(self.io_registers@, a - 0x0400_0000, 0)
        } else if in_palette(a) {
            byte_at(self.palette_ram@, a - 0x0500_0000, 0)
        } else if in_vram(a) {
            byte_at(self.vram@, a - 0x0600_0000, 0)
        } else if in_oam(a) {
            byte_at(self.oam@, a - 0x0700_0000, 0)
        } else if in_rom(a) {
            byte_at(self.rom@, (a & 0x01FF_FFFF) as int, 0xFF)
        } else if in_sram(a) {
            byte_at(self.sram@, a - 0x0E00_0000, 0xFF)
        } else {
            0
        }
    }

    /// `new` is this memory after a byte write of `value` at `a`.
    pub open spec fn written(self, a: u32, value: u8, new: Memory) -> bool {
        &&& new.bios@ == self.bios@
        &&& new.rom@ == self.rom@
        &&& new.ewram@ == (if in_ewram(a) {
            updated(self.ewram@, a - 0x0200_0000, value)
        } else {
            self.ewram@
        })
        &&& new.iwram@ == (if in_iwram(a) {
            updated(self.iwram@, a - 0x0300_0000, value)
        } else {
            self.iwram@
        })
        &&& new.io_registers@ == (if in_io(a) {
            updated(self.io_registers@, a - 0x0400_0000, value)
        } else {
            self.io_registers@
        })
        &&& new.palette_ram@ == (if in_palette(a) {
            updated(self.palette_ram@, a - 0x0500_0000, value)
        } else {
            self.palette_ram@
        })
        &&& new.vram@ == (if in_vram(a) {
            updated(self.vram@, a - 0x0600_0000, value)
        } else {
            self.vram@
        })
        &&& new.oam@ == (if in_oam(a) {
            updated(self.oam@, a - 0x0700_0000, value)
        } else {
            self.oam@
        })
        &&& new.sram@ == (if in_sram(a) {
            updated(self.sram@, a - 0x0E00_0000, value)
        } else {
            self.sram@
        })
    }

    pub fn new() -> (m: Self)
        ensures
            m.wf(),
            m.bios.len() == 0x4000,
            m.rom.len() == 0,
            forall|a: u32| #[trigger] m.read_spec(a) == (if in_rom(a) {
                0xFFu8
            } else {
                0u8
            }),
    {
        let m = Memory {
            bios: vec![0u8; 0x4000],
            ewram: vec![0u8; 0x40000],
            iwram: vec![0u8; 0x8000],
            io_registers: vec![0u8; 0x400],
            palette_ram: vec![0u8; 0x400],
            vram: vec![0u8; 0x18000],
            oam: vec![0u8; 0x400],
            rom: Vec::new(),
            sram: vec![0u8; 0x10000],
        };
        m
    }

    pub fn load_bios(&mut self, bios: Vec<u8>)
        ensures
            final(self).bios@ == bios@,
            final(self).ewram@ == old(self).ewram@,
            final(self).iwram@ == old(self).iwram@,
            final(self).io_registers@ == old(self).io_registers@,
            final(self).palette_ram@ == old(self).palette_ram@,
            final(self).vram@ == old(self).vram@,
            final(self).oam@ == old(self).oam@,
            final(self).rom@ == old(self).rom@,
            final(self).sram@ == old(self).sram@,
    {
        self.bios = bios;
    }

    pub fn load_rom(&mut self, rom: Vec<u8>)
        ensures
            final(self).rom@ == rom@,
            final(self).bios@ == old(self).bios@,
            final(self).ewram@ == old(self).ewram@,
            final(self).iwram@ == old(self).iwram@,
            final(self).io_registers@ == old(self).io_registers@,
            final(self).palette_ram@ == old(self).palette_ram@,
            final(self).vram@ == old(self).vram@,
            final(self).oam@ == old(self).oam@,
            final(self).sram@ == old(self).sram@,
    {
        self.rom = rom;
    }

    pub fn read_byte(&self, addr: u32) -> (r: u8)
        ensures
            r == self.read_spec(addr),
    {
        if addr <= 0x3FFF {
            get_or(&self.bios, addr as usize, 0)
        } else if 0x0200_0000 <= addr && addr <= 0x0203_FFFF {
            get_or(&self.ewram, (addr - 0x0200_0000) as usize, 0)
        } else if 0x0300_0000 <= addr && addr <= 0x0300_7FFF {
            get_or(&self.iwram, (addr - 0x0300_0000) as usize, 0)
        } else if 0x0400_0000 <= addr && addr <= 0x0400_03FF {
            get_or(&self.io_registers, (addr - 0x0400_0000) as usize, 0)
        } else if 0x0500_0000 <= addr && addr <= 0x0500_03FF {
            get_or(&self.palette_ram, (addr - 0x0500_0000) as usize, 0)
        } else if 0x0600_0000 <= addr && addr <= 0x0601_7FFF {
            get_or(&self.vram, (addr - 0x0600_0000) as usize, 0)
        } else if 0x0700_0000 <= addr && addr <= 0x0700_03FF {
            get_or(&self.oam, (addr - 0x0700_0000) as usize, 0)
        } else if 0x0800_0000 <= addr && addr <= 0x0DFF_FFFF {
            get_or(&self.rom, (addr & 0x01FF_FFFF) as usize, 0xFF)
        } else if 0x0E00_0000 <= addr && addr <= 0x0E00_FFFF {
            get_or(&self.sram, (addr - 0x0E00_0000) as usize, 0xFF)
        } else {
            0
        }
    }

    /// Little-endian halfword at `addr` (the second byte at `addr + 1`,
    /// modulo 2^32).
    pub fn read_halfword(&self, addr: u32) -> (r: u16)
        ensures
            r == self.read_spec(addr) + 256 * self.read_spec(wrap32(addr + 1)),
    {
        let low = self.read_byte(addr) as u16;
        proof {
            lemma_wrap32(addr + 1);
        }
        let high = self.read_byte(addr.wrapping_add(1)) as u16;
        proof {
            crate::bits::lemma_u16_combine(low, high);
        }
        (high << 8) | low
    }

    /// Little-endian word at `addr`.
    pub fn read_word(&self, addr: u32) -> (r: u32)
        ensures
            r == self.read_spec(addr) + 0x100 * self.read_spec(wrap32(addr + 1)) + 0x1_0000
                * self.read_spec(wrap32(addr + 2)) + 0x100_0000 * self.read_spec(wrap32(addr + 3)),
    {
        proof {
            lemma_wrap32(addr + 1);
            lemma_wrap32(addr + 2);
            lemma_wrap32(addr + 3);
        }
        let b0 = self.read_byte(addr) as u32;
        let b1 = self.read_byte(addr.wrapping_add(1)) as u32;
        let b2 = self.read_byte(addr.wrapping_add(2)) as u32;
        let b3 = self.read_byte(addr.wrapping_add(3)) as u32;
        proof {
            crate::bits::lemma_u32_combine(b0, b1, b2, b3);
        }
        (b3 << 24) | (b2 << 16) | (b1 << 8) | b0
    }

    pub fn write_byte(&mut self, addr: u32, value: u8)
        ensures
            old(self).written(addr, value, *final(self)),
    {
        if addr <= 0x3FFF {
        } else if 0x0200_0000 <= addr && addr <= 0x0203_FFFF {
            set_if_in(&mut self.ewram, (addr - 0x0200_0000) as usize, value);
        } else if 0x0300_0000 <= addr && addr <= 0x0300_7FFF {
            set_if_in(&mut self.iwram, (addr - 0x0300_0000) as usize, value);
        } else if 0x0400_0000 <= addr && addr <= 0x0400_03FF {
            set_if_in(&mut self.io_registers, (addr - 0x0400_0000) as usize, value);
        } else if 0x0500_0000 <= addr && addr <= 0x0500_03FF {
            set_if_in(&mut self.palette_ram, (addr - 0x0500_0000) as usize, value);
        } else if 0x0600_0000 <= addr && addr <= 0x0601_7FFF {
            set_if_in(&mut self.vram, (addr - 0x0600_0000) as usize, value);
        } else if 0x0700_0000 <= addr && addr <= 0x0700_03FF {
            set_if_in(&mut self.oam, (addr - 0x0700_0000) as usize, value);
        } else if 0x0800_0000 <= addr && addr <= 0x0DFF_FFFF {
        } else if 0x0E00_0000 <= addr && addr <= 0x0E00_FFFF {
            set_if_in(&mut self.sram, (addr - 0x0E00_0000) as usize, value);
        }
    }

    /// Little-endian halfword write: the low byte at `addr`, the high byte at
    /// `addr + 1` (modulo 2^32).
    pub fn write_halfword(&mut self, addr: u32, value: u16)
        ensures
            exists|mid: Memory|
                #[trigger] old(self).written(addr, (value % 256) as u8, mid) && mid.written(
                    wrap32(addr + 1),
                    (value / 256) as u8,
                    *final(self),
                ),
    {
        proof {
            crate::bits::lemma_u16_bytes(value);
        }
        self.write_byte(addr, (value & 0xFF) as u8);
        let ghost mid = *self;
        proof {
            lemma_wrap32(addr + 1);
        }
        self.write_byte(addr.wrapping_add(1), ((value >> 8) & 0xFF) as u8);
        assert(mid.written(wrap32(addr + 1), (value / 256) as u8, *self));
    }

    /// Little-endian word write at `addr` .. `addr + 3` (modulo 2^32).
    pub fn write_word(&mut self, addr: u32, value: u32)
        ensures
            exists|m1: Memory, m2: Memory, m3: Memory|
                #[trigger] old(self).written(addr, (value % 256) as u8, m1) && #[trigger] m1.written(
                    wrap32(addr + 1),
                    ((value / 0x100) % 256) as u8,
                    m2,
                ) && #[trigger] m2.written(wrap32(addr + 2), ((value / 0x1_0000) % 256) as u8, m3)
                    && m3.written(wrap32(addr + 3), (value / 0x100_0000) as u8, *final(self)),
    {
        proof {
            crate::bits::lemma_u32_bytes(value);
        }
        proof {
            lemma_wrap32(addr + 1);
            lemma_wrap32(addr + 2);
            lemma_wrap32(addr + 3);
        }
        self.write_byte(addr, (value & 0xFF) as u8);
        let ghost m1 = *self;
        self.write_byte(addr.wrapping_add(1), ((value >> 8) & 0xFF) as u8);
        let ghost m2 = *self;
        self.write_byte(addr.wrapping_add(2), ((value >> 16) & 0xFF) as u8);
        let ghost m3 = *self;
        self.write_byte(addr.wrapping_add(3), ((value >> 24) & 0xFF) as u8);
        assert(m3.written(wrap32(addr + 3), (value / 0x100_0000) as u8, *self));
    }
}

/// Byte `i` of `v`, or `default` past its end.
pub fn get_or(v: &Vec<u8>, i: usize, default: u8) -> (r: u8)
    ensures
        r == byte_at(v@, i as int, default),
{
    if i < v.len() {
        v[i]
    } else {
        default
    }
}

/// Stores `value` at byte `i` of `v` if `i` is inside it.
pub fn set_if_in(v: &mut Vec<u8>, i: usize, value: u8)
    ensures
        final(v)@ == updated(old(v)@, i as int, value),
{
    if i < v.len() {
        v.set(i, value);
    }
}

/// A byte write reads back at its address when the address is writable and
/// the memory has its full size; every other address keeps its byte.
pub proof fn lemma_write_then_read(old: Memory, addr: u32, value: u8, new: Memory, a: u32)
    requires
        old.wf(),
        old.written(addr, value, new),
    ensures
        new.wf(),
        new.read_spec(a) == (if a == addr && is_writable(addr) {
            value
        } else {
            old.read_spec(a)
        }),
{
}

/// A halfword write reads back as the same halfword when both of its bytes
/// are writable.
pub proof fn lemma_halfword_write_then_read(old: Memory, addr: u32, value: u16, new: Memory)
    requires
        old.wf(),
        is_writable(addr),
        is_writable(wrap32(addr + 1)),
        exists|mid: Memory|
            #[trigger] old.written(addr, (value % 256) as u8, mid) && mid.written(
                wrap32(addr + 1),
                (value / 256) as u8,
                new,
            ),
    ensures
        new.read_spec(addr) + 256 * new.read_spec(wrap32(addr + 1)) == value,
{
    let mid = choose|mid: Memory|
        #[trigger] old.written(addr, (value % 256) as u8, mid) && mid.written(
            wrap32(addr + 1),
            (value / 256) as u8,
            new,
        );
    lemma_write_then_read(old, addr, (value % 256) as u8, mid, addr);
    lemma_write_then_read(old, addr, (value % 256) as u8, mid, wrap32(addr + 1));
    lemma_write_then_read(mid, wrap32(addr + 1), (value / 256) as u8, new, addr);
    lemma_write_then_read(mid, wrap32(addr + 1), (value / 256) as u8, new, wrap32(addr + 1));
    lemma_wrap32(addr + 1);
}

impl Default for Memory {
    fn default() -> (m: Self)
        ensures
            m.wf(),
    {
        Self::new()
    }
}

} // verus!
