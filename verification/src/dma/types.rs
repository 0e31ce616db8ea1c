use vstd::prelude::*;

verus! {

/// DMA control register (DMAxCNT_H): destination control (bits 5-6),
/// source control (7-8), repeat (9), 32-bit units (10), Game Pak DRQ (11),
/// start timing (12-13), IRQ at end (14), enable (15).
#[derive(Debug, Clone, Copy, PartialEq, Eq, Structural)]
pub struct DmaControl {
    pub dest_control: u8,
    pub source_control: u8,
    pub repeat: bool,
    pub transfer_32bit: bool,
    pub game_pak_drq: bool,
    pub timing: u8,
    pub irq_enable: bool,
    pub enabled: bool,
}

/// 1 for a set flag, 0 otherwise.
pub open spec fn bit16(b: bool) -> u16 {
    if b {
        1
    } else {
        0
    }
}

impl DmaControl {
    /// The control that `v` encodes.
    pub open spec fn from_spec(v: u16) -> DmaControl {
        DmaControl {
            dest_control: ((v >> 5u16) & 3) as u8,
            source_control: ((v >> 7u16) & 3) as u8,
            repeat: (v >> 9u16) & 1 == 1,
            transfer_32bit: (v >> 10u16) & 1 == 1,
            game_pak_drq: (v >> 11u16) & 1 == 1,
            timing: ((v >> 12u16) & 3) as u8,
            irq_enable: (v >> 14u16) & 1 == 1,
            enabled: (v >> 15u16) & 1 == 1,
        }
    }

    /// The register value of this control.
    pub open spec fn to_spec(self) -> u16 {
        ((self.dest_control as u16) << 5u16) | ((self.source_control as u16) << 7u16) | (bit16(self.repeat)
            << 9u16) | (bit16(self.transfer_32bit) << 10u16) | (bit16(self.game_pak_drq) << 11u16) | ((
        self.timing as u16) << 12u16) | (bit16(self.irq_enable) << 14u16) | (bit16(self.enabled) << 15u16)
    }

    /// Bytes per transfer unit.
    pub open spec fn size_spec(self) -> u32 {
        if self.transfer_32bit {
            4
        } else {
            2
        }
    }

    pub fn from_u16(value: u16) -> (r: Self)
        ensures
            r == DmaControl::from_spec(value),
            r.dest_control < 4 && r.source_control < 4 && r.timing < 4,
    {
        proof {
            crate::bits::lemma_u16_field(value, 5, 3);
            crate::bits::lemma_u16_field(value, 7, 3);
            crate::bits::lemma_u16_field(value, 12, 3);
        }
        DmaControl {
            dest_control: ((value >> 5) & 3) as u8,
            source_control: ((value >> 7) & 3) as u8,
            repeat: (value >> 9) & 1 == 1,
            transfer_32bit: (value >> 10) & 1 == 1,
            game_pak_drq: (value >> 11) & 1 == 1,
            timing: ((value >> 12) & 3) as u8,
            irq_enable: (value >> 14) & 1 == 1,
            enabled: (value >> 15) & 1 == 1,
        }
    }

    pub fn to_u16(&self) -> (r: u16)
        ensures
            r == self.to_spec(),
    {
        let rp: u16 = if self.repeat {
            1
        } else {
            0
        };
        let w: u16 = if self.transfer_32bit {
            1
        } else {
            0
        };
        let g: u16 = if self.game_pak_drq {
            1
        } else {
            0
        };
        let i: u16 = if self.irq_enable {
            1
        } else {
            0
        };
        let e: u16 = if self.enabled {
            1
        } else {
            0
        };
        ((self.dest_control as u16) << 5) | ((self.source_control as u16) << 7) | (rp << 9) | (w << 10) | (g
            << 11) | ((self.timing as u16) << 12) | (i << 14) | (e << 15)
    }

    /// Bytes per transfer unit: 4 for 32-bit units, else 2.
    pub fn transfer_size(&self) -> (r: u32)
        ensures
            r == self.size_spec(),
    {
        if self.transfer_32bit {
            4
        } else {
            2
        }
    }
}

impl Default for DmaControl {
    fn default() -> (r: Self)
        ensures
            r == DmaControl::from_spec(0),
    {
        proof {
            crate::bits::lemma_u16_field(0, 5, 3);
            crate::bits::lemma_u16_field(0, 7, 3);
            crate::bits::lemma_u16_field(0, 12, 3);
            crate::bits::lemma_u16_field(0, 9, 1);
            crate::bits::lemma_u16_field(0, 10, 1);
            crate::bits::lemma_u16_field(0, 11, 1);
            crate::bits::lemma_u16_field(0, 14, 1);
            crate::bits::lemma_u16_field(0, 15, 1);
        }
        DmaControl {
            dest_control: 0,
            source_control: 0,
            repeat: false,
            transfer_32bit: false,
            game_pak_drq: false,
            timing: 0,
            irq_enable: false,
            enabled: false,
        }
    }
}

/// Decoding a register value and encoding it keeps bits 5 to 15; encoding
/// a control whose two-bit fields are in range and decoding it gives it
/// back.
pub proof fn lemma_dma_control_round_trip(v: u16, c: DmaControl)
    ensures
        DmaControl::from_spec(v).to_spec() == v & 0xFFE0,
        c.dest_control < 4 && c.source_control < 4 && c.timing < 4 ==> DmaControl::from_spec(c.to_spec())
            == c,
{
    assert((((((v >> 5u16) & 3) as u8) as u16) << 5u16) | (((((v >> 7u16) & 3) as u8) as u16) << 7u16) | ((
    if (v >> 9u16) & 1 == 1 {
        1u16
    } else {
        0u16
    }) << 9u16) | ((if (v >> 10u16) & 1 == 1 {
        1u16
    } else {
        0u16
    }) << 10u16) | ((if (v >> 11u16) & 1 == 1 {
        1u16
    } else {
        0u16
    }) << 11u16) | (((((v >> 12u16) & 3) as u8) as u16) << 12u16) | ((if (v >> 14u16) & 1 == 1 {
        1u16
    } else {
        0u16
    }) << 14u16) | ((if (v >> 15u16) & 1 == 1 {
        1u16
    } else {
        0u16
    }) << 15u16) == v & 0xFFE0) by (bit_vector);
    if c.dest_control < 4 && c.source_control < 4 && c.timing < 4 {
        let d = c.dest_control as u16;
        let s = c.source_control as u16;
        let t = c.timing as u16;
        let r = bit16(c.repeat);
        let w = bit16(c.transfer_32bit);
        let g = bit16(c.game_pak_drq);
        let i = bit16(c.irq_enable);
        let e = bit16(c.enabled);
        let x = c.to_spec();
        assert(x == (d << 5u16) | (s << 7u16) | (r << 9u16) | (w << 10u16) | (g << 11u16) | (t << 12u16) | (i
            << 14u16) | (e << 15u16));
        assert((x >> 5u16) & 3 == d && (x >> 7u16) & 3 == s && (x >> 12u16) & 3 == t && ((x >> 9u16) & 1 == 1)
            == (r == 1) && ((x >> 10u16) & 1 == 1) == (w == 1) && ((x >> 11u16) & 1 == 1) == (g == 1) && ((x
            >> 14u16) & 1 == 1) == (i == 1) && ((x >> 15u16) & 1 == 1) == (e == 1)) by (bit_vector)
            requires
                x == (d << 5u16) | (s << 7u16) | (r << 9u16) | (w << 10u16) | (g << 11u16) | (t << 12u16) | (i
                    << 14u16) | (e << 15u16),
                d < 4,
                s < 4,
                t < 4,
                r < 2,
                w < 2,
                g < 2,
                i < 2,
                e < 2,
        ;
    }
}

/// When a DMA channel starts.
#[derive(Debug, Clone, Copy, PartialEq, Eq, Structural)]
pub enum DmaTiming {
    Immediate,
    VBlank,
    HBlank,
    Special,
}

/// The timing a two-bit field selects (Immediate for other values).
pub open spec fn timing_of(v: u8) -> DmaTiming {
    if v == 1 {
        DmaTiming::VBlank
    } else if v == 2 {
        DmaTiming::HBlank
    } else if v == 3 {
        DmaTiming::Special
    } else {
        DmaTiming::Immediate
    }
}

impl DmaTiming {
    pub fn from_u8(value: u8) -> (r: Self)
        ensures
            r == timing_of(value),
    {
        match value {
            1 => DmaTiming::VBlank,
            2 => DmaTiming::HBlank,
            3 => DmaTiming::Special,
            _ => DmaTiming::Immediate,
        }
    }
}

} // verus!
