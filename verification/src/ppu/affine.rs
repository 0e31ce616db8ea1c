use vstd::prelude::*;
use crate::ppu::constants::SCREEN_WIDTH;
use crate::ppu::mode3::{halfword_at, read_halfword_or_zero};
use crate::ppu::mode4::{byte_or_zero, read_byte_or_zero};

verus! {

/// Affine transformation matrix in 8.8 fixed point.
#[derive(Debug, Clone, Copy, PartialEq, Eq, Structural)]
pub struct AffineMatrix {
    pub pa: i16,
    pub pb: i16,
    pub pc: i16,
    pub pd: i16,
}

impl AffineMatrix {
    /// The identity matrix (1.0 on the diagonal).
    pub fn identity() -> (r: Self)
        ensures
            r.pa == 0x100 && r.pb == 0 && r.pc == 0 && r.pd == 0x100,
    {
        AffineMatrix { pa: 0x0100, pb: 0, pc: 0, pd: 0x0100 }
    }
}

/// Parameters of an affine background: the matrix and the reference point
/// (fixed point with 8 fraction bits).
#[derive(Debug, Clone, Copy, PartialEq, Eq, Structural)]
pub struct AffineParams {
    pub matrix: AffineMatrix,
    pub ref_x: i32,
    pub ref_y: i32,
}

impl AffineParams {
    pub fn new() -> (r: Self)
        ensures
            r.matrix == (AffineMatrix { pa: 0x100, pb: 0, pc: 0, pd: 0x100 }),
            r.ref_x == 0 && r.ref_y == 0,
    {
        AffineParams { matrix: AffineMatrix::identity(), ref_x: 0, ref_y: 0 }
    }
}

pub open spec fn fits_i32(v: int) -> bool {
    i32::MIN <= v <= i32::MAX
}

/// Background coordinates (fixed point, 8 fraction bits) of screen pixel
/// (sx, sy): the matrix applied to the offset from the reference point,
/// rounded down.
pub open spec fn transform_spec(sx: int, sy: int, p: AffineParams) -> (int, int) {
    let dx = sx * 256 - p.ref_x;
    let dy = sy * 256 - p.ref_y;
    ((p.matrix.pa * dx + p.matrix.pb * dy) / 256, (p.matrix.pc * dx + p.matrix.pd * dy) / 256)
}

/// Every intermediate value of the transform of (sx, sy) fits in 32 bits.
pub open spec fn transform_fits(sx: int, sy: int, p: AffineParams) -> bool {
    let dx = sx * 256 - p.ref_x;
    let dy = sy * 256 - p.ref_y;
    &&& fits_i32(sx * 256) && fits_i32(sy * 256) && fits_i32(dx) && fits_i32(dy)
    &&& fits_i32(p.matrix.pa * dx) && fits_i32(p.matrix.pb * dy) && fits_i32(
        p.matrix.pa * dx + p.matrix.pb * dy,
    )
    &&& fits_i32(p.matrix.pc * dx) && fits_i32(p.matrix.pd * dy) && fits_i32(
        p.matrix.pc * dx + p.matrix.pd * dy,
    )
}

/// `v / 256` rounded down (an arithmetic shift right by 8).
fn floor_div256(v: i64) -> (r: i64)
    requires
        fits_i32(v as int),
    ensures
        r == v / 256,
        fits_i32(r as int),
{
    if v >= 0 {
        v / 256
    } else {
        let q = (-v + 255) / 256;
        assert(-q == v / 256) by (nonlinear_arith)
            requires
                v < 0,
                q == (-v + 255) / 256,
        ;
        -q
    }
}

/// Euclidean remainder of `v` by a positive `m`.
fn rem_euclid_i64(v: i64, m: i64) -> (r: i64)
    requires
        m > 0,
    ensures
        r == v % m,
        0 <= r < m,
{
    if v >= 0 {
        v % m
    } else {
        let neg = -(v as i128);
        let q = (neg % (m as i128)) as i64;
        let ghost vi: int = v as int;
        let ghost mi: int = m as int;
        let ghost k: int = (-vi) / mi;
        proof {
            vstd::arithmetic::div_mod::lemma_fundamental_div_mod(-vi, mi);
            vstd::arithmetic::div_mod::lemma_mod_bound(-vi, mi);
            assert(q == (-vi) % mi);
        }
        if q == 0 {
            assert(vi % mi == 0) by {
                assert(-vi == mi * k + q);
                assert(vi == mi * (-k)) by (nonlinear_arith)
                    requires
                        -vi == mi * k + q,
                        q == 0,
                ;
                vstd::arithmetic::div_mod::lemma_mod_multiples_basic(-k, mi);
                assert((-k) * mi == mi * (-k)) by (nonlinear_arith);
            }
            0
        } else {
            assert(vi % mi == mi - q) by {
                assert(-vi == mi * k + q);
                assert(vi == mi * (-k - 1) + (mi - q)) by (nonlinear_arith)
                    requires
                        -vi == mi * k + q,
                ;
                vstd::arithmetic::div_mod::lemma_mod_multiples_vanish(-k - 1, mi - q, mi);
                vstd::arithmetic::div_mod::lemma_small_mod((mi - q) as nat, mi as nat);
                assert(mi * (-k - 1) == (-k - 1) * mi) by (nonlinear_arith);
            }
            m - q
        }
    }
}

/// Screen pixel (sx, sy) transformed to background coordinates in 8.8 fixed
/// point.
pub fn transform_point(screen_x: i32, screen_y: i32, params: &AffineParams) -> (r: (i32, i32))
    requires
        transform_fits(screen_x as int, screen_y as int, *params),
    ensures
        r.0 == transform_spec(screen_x as int, screen_y as int, *params).0,
        r.1 == transform_spec(screen_x as int, screen_y as int, *params).1,
{
    let dx = (screen_x as i64) * 256 - params.ref_x as i64;
    let dy = (screen_y as i64) * 256 - params.ref_y as i64;
    let bx = (params.matrix.pa as i64) * dx + (params.matrix.pb as i64) * dy;
    let by = (params.matrix.pc as i64) * dx + (params.matrix.pd as i64) * dy;
    let bg_x = floor_div256(bx);
    let bg_y = floor_div256(by);
    (bg_x as i32, bg_y as i32)
}

/// Colour at screen column x of line `line` of an affine background whose
/// size, taken as a 32-bit signed number, is `size` and whose map rows hold
/// `tiles_per_row` entries: 256-colour tiles, one byte per map entry,
/// wrapping (modulo the size's magnitude) or clipping (transparent, black)
/// outside the background.
pub open spec fn affine_pixel(
    vram: Seq<u8>,
    palette: Seq<u8>,
    size: int,
    tiles_per_row: int,
    wrap: bool,
    char_base: int,
    screen_base: int,
    p: AffineParams,
    line: int,
    x: int,
) -> u16 {
    let (fx, fy) = transform_spec(x, line, p);
    let bx = fx / 256;
    let by = fy / 256;
    let magnitude = if size < 0 {
        -size
    } else {
        size
    };
    if !wrap && (bx < 0 || by < 0 || bx >= size || by >= size) {
        0
    } else {
        let px = if wrap {
            bx % magnitude
        } else {
            bx
        };
        let py = if wrap {
            by % magnitude
        } else {
            by
        };
        let tile = byte_or_zero(vram, screen_base + (py / 8) * tiles_per_row + px / 8) as int;
        let index = byte_or_zero(vram, char_base + tile * 64 + (py % 8) * 8 + px % 8) as int;
        if index == 0 {
            0
        } else {
            halfword_at(palette, index * 2)
        }
    }
}

/// Byte `i` of `v`, or 0 past its end, for an index held in 128 bits.
fn byte_at_wide(v: &[u8], i: u128) -> (r: u8)
    ensures
        r == byte_or_zero(v@, i as int),
{
    if i < v.len() as u128 {
        v[i as usize]
    } else {
        0
    }
}

/// Renders `width` pixels of an affine background into line `scanline`.
pub fn render_affine_scanline(
    framebuffer: &mut [u16],
    scanline: usize,
    width: usize,
    bg_size: usize,
    wraparound: bool,
    vram: &[u8],
    palette_ram: &[u8],
    char_base: usize,
    screen_base: usize,
    params: &AffineParams,
)
    requires
        scanline * 240 + width <= old(framebuffer)@.len(),
        palette_ram@.len() >= 512,
        wraparound ==> bg_size as i32 != 0,
        forall|x: int| 0 <= x < width ==> #[trigger] transform_fits(x, scanline as int, *params),
    ensures
        final(framebuffer)@.len() == old(framebuffer)@.len(),
        forall|i: int|
            0 <= i < old(framebuffer)@.len() && !(scanline * 240 <= i < scanline * 240 + width)
                ==> #[trigger] final(framebuffer)@[i] == old(framebuffer)@[i],
        forall|x: int|
            0 <= x < width ==> #[trigger] final(framebuffer)@[scanline * 240 + x] == affine_pixel(
                vram@,
                palette_ram@,
                (bg_size as i32) as int,
                (bg_size / 8) as int,
                wraparound,
                char_base as int,
                screen_base as int,
                *params,
                scanline as int,
                x,
            ),
{
    let fb_len = framebuffer.len();
    assert(scanline * 240 <= fb_len);
    let line_offset = scanline * SCREEN_WIDTH;
    let size: i64 = (#[verifier::truncate] (bg_size as i32)) as i64;
    let magnitude: i64 = if size < 0 {
        -size
    } else {
        size
    };
    let tiles_per_row = bg_size / 8;
    for x in 0..width
        invariant
            line_offset == scanline * 240,
            scanline * 240 + width <= framebuffer@.len(),
            framebuffer@.len() == old(framebuffer)@.len(),
            palette_ram@.len() >= 512,
            size == (bg_size as i32) as int,
            magnitude == (if size < 0 { -size } else { size as int }),
            tiles_per_row == bg_size / 8,
            wraparound ==> size != 0,
            forall|x: int| 0 <= x < width ==> #[trigger] transform_fits(x, scanline as int, *params),
            forall|i: int|
                0 <= i < old(framebuffer)@.len() && !(scanline * 240 <= i < scanline * 240 + width)
                    ==> #[trigger] framebuffer@[i] == old(framebuffer)@[i],
            forall|k: int|
                0 <= k < x ==> #[trigger] framebuffer@[scanline * 240 + k] == affine_pixel(
                    vram@,
                    palette_ram@,
                    (bg_size as i32) as int,
                    (bg_size / 8) as int,
                    wraparound,
                    char_base as int,
                    screen_base as int,
                    *params,
                    scanline as int,
                    k,
                ),
    {
        assert(transform_fits(x as int, scanline as int, *params));
        assert(x as i32 == x && scanline as i32 == scanline);
        let (bg_x_fp, bg_y_fp) = transform_point(x as i32, scanline as i32, params);
        let bg_x = floor_div256(bg_x_fp as i64);
        let bg_y = floor_div256(bg_y_fp as i64);
        let color: u16 = if !wraparound && (bg_x < 0 || bg_y < 0 || bg_x >= size || bg_y >= size) {
            0
        } else {
            let fx: i64 = if wraparound {
                rem_euclid_i64(bg_x, magnitude)
            } else {
                bg_x
            };
            let fy: i64 = if wraparound {
                rem_euclid_i64(bg_y, magnitude)
            } else {
                bg_y
            };
            assert(0 <= fx < 0x8000_0000 && 0 <= fy < 0x8000_0000);
            assert(((fy / 8) as u128) * (tiles_per_row as u128) <= 0x1000_0000 * 0x1_0000_0000_0000_0000)
                by (nonlinear_arith)
                requires
                    (fy / 8) as u128 <= 0x1000_0000,
                    (tiles_per_row as u128) <= 0x1_0000_0000_0000_0000,
            ;
            let screen_addr: u128 = screen_base as u128 + ((fy / 8) as u128) * (tiles_per_row as u128) + (
            fx / 8) as u128;
            let tile_num = byte_at_wide(vram, screen_addr) as u128;
            let tile_addr: u128 = char_base as u128 + tile_num * 64 + ((fy % 8) as u128) * 8 + (fx
                % 8) as u128;
            let palette_index = byte_at_wide(vram, tile_addr) as usize;
            if palette_index == 0 {
                0
            } else {
                read_halfword_or_zero(palette_ram, palette_index * 2)
            }
        };
        framebuffer[line_offset + x] = color;
    }
}

} // verus!
