use vstd::prelude::*;

verus! {

/// Display modes selected by bits 0..2 of DISPCNT.
#[derive(Debug, Clone, Copy, PartialEq, Eq, Structural)]
pub enum DisplayMode {
    Mode0,
    Mode1,
    Mode2,
    Mode3,
    Mode4,
    Mode5,
}

/// The display mode selected by a DISPCNT value (6 and 7 select mode 0).
pub open spec fn display_mode_of(dispcnt: u16) -> DisplayMode {
    let m = dispcnt & 7;
    if m == 1 {
        DisplayMode::Mode1
    } else if m == 2 {
        DisplayMode::Mode2
    } else if m == 3 {
        DisplayMode::Mode3
    } else if m == 4 {
        DisplayMode::Mode4
    } else if m == 5 {
        DisplayMode::Mode5
    } else {
        DisplayMode::Mode0
    }
}

/// Background control register (BGxCNT).
#[derive(Debug, Clone, Copy, PartialEq, Eq, Structural)]
pub struct BgControl {
    pub priority: u8,
    pub char_base: u8,
    pub mosaic: bool,
    pub palette_256: bool,
    pub screen_base: u8,
    pub wrap: bool,
    pub screen_size: u8,
}

/// Bit `n` of a 16-bit register.
pub open spec fn bit16(v: u16, n: u16) -> bool {
    (v >> n) & 1u16 == 1u16
}

/// A flag as the number 0 or 1.
pub open spec fn flag(b: bool) -> u16 {
    if b {
        1
    } else {
        0
    }
}

/// A flag as a number, computed.
pub fn flag_u16(b: bool) -> (r: u16)
    ensures
        r == flag(b),
{
    if b {
        1
    } else {
        0
    }
}

impl BgControl {
    /// Every field fits the width of its bits in the register.
    pub open spec fn wf(self) -> bool {
        self.priority < 4 && self.char_base < 4 && self.screen_base < 32 && self.screen_size < 4
    }

    pub open spec fn from_spec(v: u16) -> BgControl {
        BgControl {
            priority: (v & 0x3) as u8,
            char_base: ((v >> 2) & 0x3) as u8,
            mosaic: bit16(v, 6),
            palette_256: bit16(v, 7),
            screen_base: ((v >> 8) & 0x1F) as u8,
            wrap: bit16(v, 13),
            screen_size: ((v >> 14) & 0x3) as u8,
        }
    }

    pub open spec fn to_spec(self) -> u16 {
        (self.priority as u16) | ((self.char_base as u16) << 2) | (flag(self.mosaic) << 6) | (flag(
            self.palette_256,
        ) << 7) | ((self.screen_base as u16) << 8) | (flag(self.wrap) << 13) | ((
        self.screen_size as u16) << 14)
    }

    pub fn from_u16(value: u16) -> (r: Self)
        ensures
            r == Self::from_spec(value),
            r.wf(),
    {
        proof {
            crate::bits::lemma_u16_field(value, 2, 3);
            crate::bits::lemma_u16_field(value, 8, 0x1F);
            crate::bits::lemma_u16_field(value, 14, 3);
        }
        BgControl {
            priority: (value & 0x3) as u8,
            char_base: ((value >> 2) & 0x3) as u8,
            mosaic: (value >> 6) & 1 == 1,
            palette_256: (value >> 7) & 1 == 1,
            screen_base: ((value >> 8) & 0x1F) as u8,
            wrap: (value >> 13) & 1 == 1,
            screen_size: ((value >> 14) & 0x3) as u8,
        }
    }

    pub fn to_u16(&self) -> (r: u16)
        ensures
            r == self.to_spec(),
    {
        (self.priority as u16) | ((self.char_base as u16) << 2) | (flag_u16(self.mosaic) << 6) | (
        flag_u16(self.palette_256) << 7) | ((self.screen_base as u16) << 8) | (flag_u16(self.wrap)
            << 13) | ((self.screen_size as u16) << 14)
    }

    /// Size of the tile map in tiles (width, height).
    pub fn get_screen_size(&self) -> (r: (usize, usize))
        ensures
            r == (if self.screen_size == 0 {
                (32usize, 32usize)
            } else if self.screen_size == 1 {
                (64usize, 32usize)
            } else if self.screen_size == 2 {
                (32usize, 64usize)
            } else if self.screen_size == 3 {
                (64usize, 64usize)
            } else {
                (32usize, 32usize)
            }),
    {
        if self.screen_size == 0 {
            (32, 32)
        } else if self.screen_size == 1 {
            (64, 32)
        } else if self.screen_size == 2 {
            (32, 64)
        } else if self.screen_size == 3 {
            (64, 64)
        } else {
            (32, 32)
        }
    }
}

impl Default for BgControl {
    fn default() -> (r: Self)
        ensures
            r == BgControl::from_spec(0),
    {
        proof {
            crate::bits::lemma_u16_field(0, 2, 3);
            crate::bits::lemma_u16_field(0, 8, 0x1F);
            crate::bits::lemma_u16_field(0, 14, 3);
            crate::bits::lemma_u16_field(0, 6, 1);
            crate::bits::lemma_u16_field(0, 7, 1);
            crate::bits::lemma_u16_field(0, 13, 1);
        }
        BgControl {
            priority: 0,
            char_base: 0,
            mosaic: false,
            palette_256: false,
            screen_base: 0,
            wrap: false,
            screen_size: 0,
        }
    }
}

/// Decoding a register value and encoding it again keeps every bit but the
/// two unused ones (4 and 5); encoding a well-formed control and decoding it
/// gives it back.
pub proof fn lemma_bg_control_round_trip(v: u16, c: BgControl)
    ensures
        BgControl::from_spec(v).to_spec() == v & 0xFFCF,
        c.wf() ==> BgControl::from_spec(c.to_spec()) == c,
{
    let p = c.priority as u16;
    let cb = c.char_base as u16;
    let sb = c.screen_base as u16;
    let ss = c.screen_size as u16;
    let m = flag(c.mosaic);
    let pl = flag(c.palette_256);
    let w = flag(c.wrap);
    assert(((v & 0x3) as u8) as u16 == v & 0x3 && (((v >> 2u16) & 0x3) as u8) as u16 == (v >> 2u16)
        & 0x3 && (((v >> 8u16) & 0x1F) as u8) as u16 == (v >> 8u16) & 0x1F && (((v >> 14u16) & 0x3) as u8) as u16
        == (v >> 14u16) & 0x3) by (bit_vector);
    assert(((v & 0x3) | (((v >> 2u16) & 0x3) << 2u16) | ((if (v >> 6u16) & 1u16 == 1u16 {
        1u16
    } else {
        0u16
    }) << 6u16) | ((if (v >> 7u16) & 1u16 == 1u16 {
        1u16
    } else {
        0u16
    }) << 7u16) | (((v >> 8u16) & 0x1F) << 8u16) | ((if (v >> 13u16) & 1u16 == 1u16 {
        1u16
    } else {
        0u16
    }) << 13u16) | (((v >> 14u16) & 0x3) << 14u16)) == v & 0xFFCF) by (bit_vector);
    if c.wf() {
        let e = c.to_spec();
        assert(e == p | (cb << 2u16) | (m << 6u16) | (pl << 7u16) | (sb << 8u16) | (w << 13u16) | (ss
            << 14u16));
        assert(e & 0x3 == p && (e >> 2u16) & 0x3 == cb && (e >> 8u16) & 0x1F == sb && (e >> 14u16) & 0x3
            == ss && ((e >> 6u16) & 1u16 == 1u16) == (m == 1) && ((e >> 7u16) & 1u16 == 1u16) == (pl == 1)
            && ((e >> 13u16) & 1u16 == 1u16) == (w == 1)) by (bit_vector)
            requires
                e == p | (cb << 2u16) | (m << 6u16) | (pl << 7u16) | (sb << 8u16) | (w << 13u16) | (ss
                    << 14u16),
                p < 4,
                cb < 4,
                sb < 32,
                ss < 4,
                m < 2,
                pl < 2,
                w < 2,
        ;
    }
}

} // verus!
