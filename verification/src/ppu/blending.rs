use vstd::prelude::*;
use crate::ppu::types::{bit16, flag, flag_u16};

verus! {

/// Colour special effect selected by bits 6..7 of BLDCNT.
#[derive(Debug, Clone, Copy, PartialEq, Eq, Structural)]
pub enum BlendMode {
    Disabled,
    AlphaBlend,
    BrightnessIncrease,
    BrightnessDecrease,
}

pub open spec fn blend_mode_of(v: u16) -> BlendMode {
    let m = (v >> 6) & 0x3;
    if m == 1 {
        BlendMode::AlphaBlend
    } else if m == 2 {
        BlendMode::BrightnessIncrease
    } else if m == 3 {
        BlendMode::BrightnessDecrease
    } else {
        BlendMode::Disabled
    }
}

pub open spec fn blend_mode_code(m: BlendMode) -> u16 {
    match m {
        BlendMode::Disabled => 0,
        BlendMode::AlphaBlend => 1,
        BlendMode::BrightnessIncrease => 2,
        BlendMode::BrightnessDecrease => 3,
    }
}

impl BlendMode {
    pub fn from_u16(value: u16) -> (r: Self)
        ensures
            r == blend_mode_of(value),
    {
        let m = (value >> 6) & 0x3;
        if m == 1 {
            BlendMode::AlphaBlend
        } else if m == 2 {
            BlendMode::BrightnessIncrease
        } else if m == 3 {
            BlendMode::BrightnessDecrease
        } else {
            BlendMode::Disabled
        }
    }
}

fn mode_code(m: BlendMode) -> (r: u16)
    ensures
        r == blend_mode_code(m),
{
    match m {
        BlendMode::Disabled => 0,
        BlendMode::AlphaBlend => 1,
        BlendMode::BrightnessIncrease => 2,
        BlendMode::BrightnessDecrease => 3,
    }
}

/// Blend control register (BLDCNT): the effect and its first and second
/// target layers.
#[derive(Debug, Clone, Copy, PartialEq, Eq, Structural)]
pub struct BlendControl {
    pub mode: BlendMode,
    pub bg0_target1: bool,
    pub bg1_target1: bool,
    pub bg2_target1: bool,
    pub bg3_target1: bool,
    pub obj_target1: bool,
    pub backdrop_target1: bool,
    pub bg0_target2: bool,
    pub bg1_target2: bool,
    pub bg2_target2: bool,
    pub bg3_target2: bool,
    pub obj_target2: bool,
    pub backdrop_target2: bool,
}

impl BlendControl {
    pub open spec fn from_spec(v: u16) -> BlendControl {
        BlendControl {
            mode: blend_mode_of(v),
            bg0_target1: bit16(v, 0),
            bg1_target1: bit16(v, 1),
            bg2_target1: bit16(v, 2),
            bg3_target1: bit16(v, 3),
            obj_target1: bit16(v, 4),
            backdrop_target1: bit16(v, 5),
            bg0_target2: bit16(v, 8),
            bg1_target2: bit16(v, 9),
            bg2_target2: bit16(v, 10),
            bg3_target2: bit16(v, 11),
            obj_target2: bit16(v, 12),
            backdrop_target2: bit16(v, 13),
        }
    }

    pub open spec fn to_spec(self) -> u16 {
        (blend_mode_code(self.mode) << 6) | flag(self.bg0_target1) | (flag(self.bg1_target1) << 1)
            | (flag(self.bg2_target1) << 2) | (flag(self.bg3_target1) << 3) | (flag(self.obj_target1)
            << 4) | (flag(self.backdrop_target1) << 5) | (flag(self.bg0_target2) << 8) | (flag(
            self.bg1_target2,
        ) << 9) | (flag(self.bg2_target2) << 10) | (flag(self.bg3_target2) << 11) | (flag(
            self.obj_target2,
        ) << 12) | (flag(self.backdrop_target2) << 13)
    }

    pub fn new() -> (r: Self)
        ensures
            r == Self::from_spec(0),
    {
        assert forall|n: u16| n < 16 implies #[trigger] ((0u16 >> n) & 1u16) != 1u16 by {
            crate::bits::lemma_u16_field(0, n, 1);
        }
        proof {
            crate::bits::lemma_u16_field(0, 6, 3);
        }
        Self::from_u16(0)
    }

    pub fn from_u16(value: u16) -> (r: Self)
        ensures
            r == Self::from_spec(value),
    {
        BlendControl {
            mode: BlendMode::from_u16(value),
            bg0_target1: (value >> 0) & 1 == 1,
            bg1_target1: (value >> 1) & 1 == 1,
            bg2_target1: (value >> 2) & 1 == 1,
            bg3_target1: (value >> 3) & 1 == 1,
            obj_target1: (value >> 4) & 1 == 1,
            backdrop_target1: (value >> 5) & 1 == 1,
            bg0_target2: (value >> 8) & 1 == 1,
            bg1_target2: (value >> 9) & 1 == 1,
            bg2_target2: (value >> 10) & 1 == 1,
            bg3_target2: (value >> 11) & 1 == 1,
            obj_target2: (value >> 12) & 1 == 1,
            backdrop_target2: (value >> 13) & 1 == 1,
        }
    }

    pub fn to_u16(&self) -> (r: u16)
        ensures
            r == self.to_spec(),
    {
        (mode_code(self.mode) << 6) | flag_u16(self.bg0_target1) | (flag_u16(self.bg1_target1) << 1)
            | (flag_u16(self.bg2_target1) << 2) | (flag_u16(self.bg3_target1) << 3) | (flag_u16(
            self.obj_target1,
        ) << 4) | (flag_u16(self.backdrop_target1) << 5) | (flag_u16(self.bg0_target2) << 8) | (
        flag_u16(self.bg1_target2) << 9) | (flag_u16(self.bg2_target2) << 10) | (flag_u16(
            self.bg3_target2,
        ) << 11) | (flag_u16(self.obj_target2) << 12) | (flag_u16(self.backdrop_target2) << 13)
    }
}

/// Encoding a decoded BLDCNT value keeps its fourteen used bits.
pub proof fn lemma_blend_control_round_trip(v: u16)
    ensures
        BlendControl::from_spec(v).to_spec() == v & 0x3FFF,
{
    let m = (v >> 6u16) & 0x3;
    crate::bits::lemma_u16_field(v, 6, 3);
    assert(blend_mode_code(blend_mode_of(v)) == m);
    assert(((((v >> 6u16) & 0x3) << 6u16) | (if (v >> 0u16) & 1u16 == 1u16 { 1u16 } else { 0u16 })
        | ((if (v >> 1u16) & 1u16 == 1u16 { 1u16 } else { 0u16 }) << 1u16) | ((if (v >> 2u16) & 1u16
        == 1u16 { 1u16 } else { 0u16 }) << 2u16) | ((if (v >> 3u16) & 1u16 == 1u16 { 1u16 } else {
        0u16 }) << 3u16) | ((if (v >> 4u16) & 1u16 == 1u16 { 1u16 } else { 0u16 }) << 4u16) | ((if (v
        >> 5u16) & 1u16 == 1u16 { 1u16 } else { 0u16 }) << 5u16) | ((if (v >> 8u16) & 1u16 == 1u16 {
        1u16 } else { 0u16 }) << 8u16) | ((if (v >> 9u16) & 1u16 == 1u16 { 1u16 } else { 0u16 })
        << 9u16) | ((if (v >> 10u16) & 1u16 == 1u16 { 1u16 } else { 0u16 }) << 10u16) | ((if (v
        >> 11u16) & 1u16 == 1u16 { 1u16 } else { 0u16 }) << 11u16) | ((if (v >> 12u16) & 1u16
        == 1u16 { 1u16 } else { 0u16 }) << 12u16) | ((if (v >> 13u16) & 1u16 == 1u16 { 1u16 } else {
        0u16 }) << 13u16)) == v & 0x3FFF) by (bit_vector);
}

/// Alpha blending coefficients (BLDALPHA), each at most 16.
#[derive(Debug, Clone, Copy, PartialEq, Eq, Structural)]
pub struct AlphaCoefficients {
    pub eva: u8,
    pub evb: u8,
}

pub open spec fn min16(x: int) -> int {
    if x > 16 {
        16
    } else {
        x
    }
}

impl AlphaCoefficients {
    pub fn from_u16(value: u16) -> (r: Self)
        ensures
            r.eva == min16((value & 0x1F) as int),
            r.evb == min16(((value >> 8) & 0x1F) as int),
    {
        proof {
            crate::bits::lemma_u16_field(value, 8, 0x1F);
        }
        let eva = (value & 0x1F) as u8;
        let evb = ((value >> 8) & 0x1F) as u8;
        AlphaCoefficients {
            eva: if eva > 16 {
                16
            } else {
                eva
            },
            evb: if evb > 16 {
                16
            } else {
                evb
            },
        }
    }

    pub fn to_u16(&self) -> (r: u16)
        ensures
            r == (self.eva as u16) | ((self.evb as u16) << 8),
    {
        (self.eva as u16) | ((self.evb as u16) << 8)
    }
}

/// Coefficients of at most 16 survive an encode and decode.
pub proof fn lemma_alpha_round_trip(eva: u8, evb: u8)
    requires
        eva <= 16,
        evb <= 16,
    ensures
        ({
            let v = (eva as u16) | ((evb as u16) << 8);
            min16((v & 0x1F) as int) == eva && min16(((v >> 8) & 0x1F) as int) == evb
        }),
{
    let a = eva as u16;
    let b = evb as u16;
    assert(((a | (b << 8u16)) & 0x1F) == a && (((a | (b << 8u16)) >> 8u16) & 0x1F) == b)
        by (bit_vector)
        requires
            a <= 16,
            b <= 16,
    ;
}

/// Colour channel `k` (0 red, 1 green, 2 blue) of an RGB555 colour.
pub open spec fn channel(c: u16, k: u16) -> int {
    ((c >> (5 * k)) & 0x1F) as int
}

/// An RGB555 colour from its three channels.
pub open spec fn rgb555(r: int, g: int, b: int) -> int {
    r + 32 * g + 1024 * b
}

/// One channel of an alpha blend: (x * EVA + y * EVB) / 16, at most 31.
pub open spec fn blend_channel(x: int, y: int, eva: int, evb: int) -> int {
    let v = (x * eva + y * evb) / 16;
    if v > 31 {
        31
    } else {
        v
    }
}

/// One channel brightened by EVY/16: x + (31 - x) * EVY / 16, at most 31.
pub open spec fn lighten_channel(x: int, evy: int) -> int {
    let v = x + (31 - x) * evy / 16;
    if v > 31 {
        31
    } else {
        v
    }
}

/// One channel darkened by EVY/16: x - x * EVY / 16, at least 0.
pub open spec fn darken_channel(x: int, evy: int) -> int {
    let v = x - x * evy / 16;
    if v < 0 {
        0
    } else {
        v
    }
}

/// The three channels of a colour, as numbers of at most 31.
fn channels(c: u16) -> (r: (u32, u32, u32))
    ensures
        r.0 == channel(c, 0) && r.1 == channel(c, 1) && r.2 == channel(c, 2),
        r.0 <= 31 && r.1 <= 31 && r.2 <= 31,
{
    assert(c & 0x1F <= 31 && (c >> 5u16) & 0x1F <= 31 && (c >> 10u16) & 0x1F <= 31 && (c >> 0u16)
        & 0x1F == c & 0x1F) by (bit_vector);
    ((c & 0x1F) as u32, ((c >> 5) & 0x1F) as u32, ((c >> 10) & 0x1F) as u32)
}

/// Packs three channels of at most 31 into an RGB555 colour.
fn pack(r: u32, g: u32, b: u32) -> (c: u16)
    requires
        r <= 31 && g <= 31 && b <= 31,
    ensures
        c == rgb555(r as int, g as int, b as int),
        channel(c, 0) == r && channel(c, 1) == g && channel(c, 2) == b,
{
    let rr = r as u16;
    let gg = g as u16;
    let bb = b as u16;
    assert(rr | (gg << 5u16) | (bb << 10u16) == rr + 32 * gg + 1024 * bb && ((rr | (gg << 5u16) | (bb
        << 10u16)) >> 0u16) & 0x1F == rr && ((rr | (gg << 5u16) | (bb << 10u16)) >> 5u16) & 0x1F == gg
        && ((rr | (gg << 5u16) | (bb << 10u16)) >> 10u16) & 0x1F == bb) by (bit_vector)
        requires
            rr <= 31 && gg <= 31 && bb <= 31,
    ;
    rr | (gg << 5) | (bb << 10)
}

fn blend_one(x: u32, y: u32, eva: u8, evb: u8) -> (r: u32)
    requires
        x <= 31,
        y <= 31,
    ensures
        r == blend_channel(x as int, y as int, eva as int, evb as int),
        r <= 31,
{
    assert(x * (eva as u32) <= 31 * 255 && y * (evb as u32) <= 31 * 255) by (nonlinear_arith)
        requires
            x <= 31,
            y <= 31,
            eva <= 255,
            evb <= 255,
    ;
    let v = (x * eva as u32 + y * evb as u32) / 16;
    if v > 31 {
        31
    } else {
        v
    }
}

/// Blends two RGB555 colours: each channel is (c1 * EVA + c2 * EVB) / 16,
/// at most 31.
pub fn alpha_blend(color1: u16, color2: u16, eva: u8, evb: u8) -> (r: u16)
    ensures
        r == rgb555(
            blend_channel(channel(color1, 0), channel(color2, 0), eva as int, evb as int),
            blend_channel(channel(color1, 1), channel(color2, 1), eva as int, evb as int),
            blend_channel(channel(color1, 2), channel(color2, 2), eva as int, evb as int),
        ),
{
    let (r1, g1, b1) = channels(color1);
    let (r2, g2, b2) = channels(color2);
    let r = blend_one(r1, r2, eva, evb);
    let g = blend_one(g1, g2, eva, evb);
    let b = blend_one(b1, b2, eva, evb);
    pack(r, g, b)
}

fn lighten_one(x: u32, evy: u8) -> (r: u32)
    requires
        x <= 31,
    ensures
        r == lighten_channel(x as int, evy as int),
        r <= 31,
{
    assert((31 - x) * (evy as u32) <= 31 * 255) by (nonlinear_arith)
        requires
            x <= 31,
            evy <= 255,
    ;
    let v = x + ((31 - x) * evy as u32) / 16;
    if v > 31 {
        31
    } else {
        v
    }
}

/// Brightens a colour towards white by EVY/16 per channel.
pub fn brightness_increase(color: u16, evy: u8) -> (r: u16)
    ensures
        r == rgb555(
            lighten_channel(channel(color, 0), evy as int),
            lighten_channel(channel(color, 1), evy as int),
            lighten_channel(channel(color, 2), evy as int),
        ),
{
    let (r, g, b) = channels(color);
    pack(lighten_one(r, evy), lighten_one(g, evy), lighten_one(b, evy))
}

fn darken_one(x: u32, evy: u8) -> (r: u32)
    requires
        x <= 31,
    ensures
        r == darken_channel(x as int, evy as int),
        r <= 31,
{
    assert(x * (evy as u32) <= 31 * 255) by (nonlinear_arith)
        requires
            x <= 31,
            evy <= 255,
    ;
    x.saturating_sub((x * evy as u32) / 16)
}

/// Darkens a colour towards black by EVY/16 per channel.
pub fn brightness_decrease(color: u16, evy: u8) -> (r: u16)
    ensures
        r == rgb555(
            darken_channel(channel(color, 0), evy as int),
            darken_channel(channel(color, 1), evy as int),
            darken_channel(channel(color, 2), evy as int),
        ),
{
    let (r, g, b) = channels(color);
    pack(darken_one(r, evy), darken_one(g, evy), darken_one(b, evy))
}

/// With EVY 0 both brightness effects keep a colour (without bit 15); with
/// EVY 16 they give white and black.
pub proof fn lemma_brightness_ends(x: int)
    requires
        0 <= x <= 31,
    ensures
        lighten_channel(x, 0) == x,
        darken_channel(x, 0) == x,
        lighten_channel(x, 16) == 31,
        darken_channel(x, 16) == 0,
{
    assert((31 - x) * 16 / 16 == 31 - x) by (nonlinear_arith)
        requires
            0 <= x <= 31,
    ;
    assert(x * 16 / 16 == x) by (nonlinear_arith);
}

/// A blended channel never exceeds 31.
pub proof fn lemma_blend_channel_bounded(x: int, y: int, eva: int, evb: int)
    requires
        0 <= x <= 31,
        0 <= y <= 31,
        0 <= eva,
        0 <= evb,
    ensures
        0 <= blend_channel(x, y, eva, evb) <= 31,
{
    assert(x * eva + y * evb >= 0) by (nonlinear_arith)
        requires
            0 <= x,
            0 <= y,
            0 <= eva,
            0 <= evb,
    ;
}

} // verus!
