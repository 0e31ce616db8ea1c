use vstd::prelude::*;
use crate::ppu::mode3::{halfword_at, read_halfword_or_zero};
use crate::ppu::mode4::{byte_or_zero, read_byte_or_zero};
use crate::ppu::types::BgControl;

verus! {

/// A pixel of a layer: colour, priority, and whether the layer has one there.
pub type LayerPixel = (u16, u8, bool);

/// Colour `index` of the background palette (the first 512 bytes), black
/// past it.
pub open spec fn bg_palette_color(palette: Seq<u8>, index: int) -> u16 {
    if index * 2 + 1 < 512 {
        halfword_at(palette, index * 2)
    } else {
        0
    }
}

/// Tile-map size in tiles of a screen-size code.
pub open spec fn screen_tiles(size: u8) -> (int, int) {
    if size == 1 {
        (64, 32)
    } else if size == 2 {
        (32, 64)
    } else if size == 3 {
        (64, 64)
    } else {
        (32, 32)
    }
}

/// Colour index of a tile pixel: one byte per pixel in 256-colour tiles,
/// one nibble (low nibble first) in 16-colour tiles.
pub open spec fn tile_index(vram: Seq<u8>, tile_addr: int, px: int, py: int, p256: bool) -> int {
    if p256 {
        byte_or_zero(vram, tile_addr + py * 8 + px) as int
    } else {
        let b = byte_or_zero(vram, tile_addr + py * 4 + px / 2);
        if px % 2 == 0 {
            (b % 16) as int
        } else {
            (b / 16) as int
        }
    }
}

/// Pixel x of line `line` of a regular tiled background: (colour, priority,
/// true), or (0, 0, false) where the background is transparent or off its
/// tile map.
pub open spec fn bg_pixel(
    vram: Seq<u8>,
    palette: Seq<u8>,
    ctrl: BgControl,
    scroll_x: u16,
    scroll_y: u16,
    line: int,
    x: int,
) -> LayerPixel {
    let y = (line + scroll_y) % 512;
    let (wt, ht) = screen_tiles(ctrl.screen_size);
    let tile_y = y / 8;
    let pixel_x = (x + scroll_x) % 512;
    let tile_x = pixel_x / 8;
    let entry_addr = ctrl.screen_base * 2048 + (tile_y * wt + tile_x) * 2;
    if tile_y >= ht || tile_x >= wt || entry_addr + 1 >= vram.len() {
        (0, 0, false)
    } else {
        let entry = halfword_at(vram, entry_addr);
        let tile_num = (entry % 1024) as int;
        let h_flip = (entry / 1024) % 2 == 1;
        let v_flip = (entry / 2048) % 2 == 1;
        let bank = (entry / 4096) as int;
        let px = if h_flip {
            7 - pixel_x % 8
        } else {
            pixel_x % 8
        };
        let py = if v_flip {
            7 - y % 8
        } else {
            y % 8
        };
        let tile_addr = ctrl.char_base * 16384 + tile_num * (if ctrl.palette_256 {
            64int
        } else {
            32int
        });
        let index = tile_index(vram, tile_addr, px, py, ctrl.palette_256);
        if index == 0 {
            (0, 0, false)
        } else {
            let color = if ctrl.palette_256 {
                bg_palette_color(palette, index)
            } else {
                bg_palette_color(palette, bank * 16 + index)
            };
            (color, ctrl.priority, true)
        }
    }
}

/// The layer pixel texel (`tx`, `ty`) of the tile a tile-map entry `e`
/// names gives, by the GBA entry layout: tile number in bits 0-9, palette
/// bank in bits 12-15 (16-colour tiles); colour index 0 is transparent.
pub open spec fn entry_texel(vram: Seq<u8>, palette: Seq<u8>, ctrl: BgControl, e: u16, tx: int, ty: int) -> LayerPixel {
    let tile = (e & 0x3FF) as int;
    let bank = (e >> 12u16) as int;
    let tile_addr = ctrl.char_base * 16384 + tile * (if ctrl.palette_256 {
        64int
    } else {
        32int
    });
    let index = tile_index(vram, tile_addr, tx, ty, ctrl.palette_256);
    if index == 0 {
        (0, 0, false)
    } else if ctrl.palette_256 {
        (bg_palette_color(palette, index), ctrl.priority, true)
    } else {
        (bg_palette_color(palette, bank * 16 + index), ctrl.priority, true)
    }
}

proof fn lemma_entry_fields(e: u16)
    by (bit_vector)
    ensures
        e & 0x3FF == e % 1024,
        e >> 12u16 == e / 4096,
        ((e / 1024) % 2 == 1) == (e & 0x400 != 0),
        ((e / 2048) % 2 == 1) == (e & 0x800 != 0),
        e & 0xC00 == 0 ==> e & 0x400 == 0 && e & 0x800 == 0,
        e & 0xC00 == 0x400 ==> e & 0x400 != 0 && e & 0x800 == 0,
        e & 0xC00 == 0x800 ==> e & 0x400 == 0 && e & 0x800 != 0,
        e & 0xC00 == 0xC00 ==> e & 0x400 != 0 && e & 0x800 != 0,
{
}

/// Where a regular background's tile map covers the pixel, the pixel shows
/// a texel of the tile its map entry `e` names, at the pixel's column `c`
/// and row `r` within the tile, mirrored by the entry's flip bits: bit 10
/// mirrors horizontally (column 7 - c), bit 11 vertically (row 7 - r).
pub proof fn lemma_bg_tile_flips(
    vram: Seq<u8>,
    palette: Seq<u8>,
    ctrl: BgControl,
    scroll_x: u16,
    scroll_y: u16,
    line: int,
    x: int,
)
    requires
        ({
            let y = (line + scroll_y) % 512;
            let px = (x + scroll_x) % 512;
            let (wt, ht) = screen_tiles(ctrl.screen_size);
            let ea = ctrl.screen_base * 2048 + ((y / 8) * wt + px / 8) * 2;
            y / 8 < ht && px / 8 < wt && ea + 1 < vram.len()
        }),
    ensures
        ({
            let y = (line + scroll_y) % 512;
            let px = (x + scroll_x) % 512;
            let (wt, ht) = screen_tiles(ctrl.screen_size);
            let ea = ctrl.screen_base * 2048 + ((y / 8) * wt + px / 8) * 2;
            let e = (vram[ea] + 256 * vram[ea + 1]) as u16;
            let c = px % 8;
            let r = y % 8;
            let shown = bg_pixel(vram, palette, ctrl, scroll_x, scroll_y, line, x);
            &&& e & 0xC00 == 0 ==> shown == entry_texel(vram, palette, ctrl, e, c, r)
            &&& e & 0xC00 == 0x400 ==> shown == entry_texel(vram, palette, ctrl, e, 7 - c, r)
            &&& e & 0xC00 == 0x800 ==> shown == entry_texel(vram, palette, ctrl, e, c, 7 - r)
            &&& e & 0xC00 == 0xC00 ==> shown == entry_texel(vram, palette, ctrl, e, 7 - c, 7 - r)
        }),
{
    let y = (line + scroll_y) % 512;
    let px = (x + scroll_x) % 512;
    let (wt, ht) = screen_tiles(ctrl.screen_size);
    let ea = ctrl.screen_base * 2048 + ((y / 8) * wt + px / 8) * 2;
    let e = (vram[ea] + 256 * vram[ea + 1]) as u16;
    assert(ea >= 0) by (nonlinear_arith)
        requires
            ea == ctrl.screen_base * 2048 + ((y / 8) * wt + px / 8) * 2,
            ctrl.screen_base >= 0,
            y >= 0,
            px >= 0,
            wt >= 0,
    ;
    assert(halfword_at(vram, ea) == e);
    lemma_entry_fields(e);
}

proof fn lemma_nibbles(b: u8)
    by (bit_vector)
    ensures
        b & 0x0F == b % 16,
        b >> 4u8 == b / 16,
{
}

/// Colour index of texel (`tx`, `ty`) of the tile at `tile_addr`: in a
/// 256-colour tile the byte at `ty * 8 + tx`; in a 16-colour tile a nibble
/// of the byte at `ty * 4 + tx / 2`, the low one for an even column and the
/// high one for an odd column.
pub proof fn lemma_tile_texel_index(vram: Seq<u8>, tile_addr: int, tx: int, ty: int)
    requires
        0 <= tx < 8,
        0 <= ty < 8,
        0 <= tile_addr,
        tile_addr + 64 <= vram.len(),
    ensures
        tile_index(vram, tile_addr, tx, ty, true) == vram[tile_addr + ty * 8 + tx] as int,
        tile_index(vram, tile_addr, tx, ty, false) == (if tx % 2 == 0 {
            vram[tile_addr + ty * 4 + tx / 2] & 0x0F
        } else {
            vram[tile_addr + ty * 4 + tx / 2] >> 4u8
        }) as int,
{
    lemma_nibbles(vram[tile_addr + ty * 4 + tx / 2]);
}

/// Rank of a layer pixel in compositing: its priority, or 4 when absent.
pub open spec fn rank(p: LayerPixel) -> int {
    if p.2 && p.1 <= 3 {
        p.1 as int
    } else {
        4
    }
}

/// The colour shown over four layers: the pixel of lowest priority, the
/// lower background winning ties; black where no layer has a pixel.
pub open spec fn composite4(a: LayerPixel, b: LayerPixel, c: LayerPixel, d: LayerPixel) -> u16 {
    let m = vstd::math::min(vstd::math::min(rank(a), rank(b)), vstd::math::min(rank(c), rank(d)));
    if m == 4 {
        0
    } else if rank(a) == m {
        a.0
    } else if rank(b) == m {
        b.0
    } else if rank(c) == m {
        c.0
    } else {
        d.0
    }
}

/// Layer pixel of background `bg` at x: none when DISPCNT does not enable it.
pub open spec fn layer_pixel(
    vram: Seq<u8>,
    palette: Seq<u8>,
    dispcnt: u16,
    bg: int,
    ctrl: BgControl,
    hofs: u16,
    vofs: u16,
    line: int,
    x: int,
) -> LayerPixel {
    if (dispcnt >> ((8 + bg) as u16)) & 1u16 == 1u16 {
        bg_pixel(vram, palette, ctrl, hofs, vofs, line, x)
    } else {
        (0, 0, false)
    }
}

/// Colour of pixel x of line `line` in mode 0.
pub open spec fn mode0_pixel(
    vram: Seq<u8>,
    palette: Seq<u8>,
    dispcnt: u16,
    ctrl: Seq<BgControl>,
    hofs: Seq<u16>,
    vofs: Seq<u16>,
    line: int,
    x: int,
) -> u16 {
    composite4(
        layer_pixel(vram, palette, dispcnt, 0, ctrl[0], hofs[0], vofs[0], line, x),
        layer_pixel(vram, palette, dispcnt, 1, ctrl[1], hofs[1], vofs[1], line, x),
        layer_pixel(vram, palette, dispcnt, 2, ctrl[2], hofs[2], vofs[2], line, x),
        layer_pixel(vram, palette, dispcnt, 3, ctrl[3], hofs[3], vofs[3], line, x),
    )
}

/// `new` equals `old` outside row `line` of a frame `width` pixels wide.
pub open spec fn only_row_changed_w(old: Seq<u16>, new: Seq<u16>, line: int, width: int) -> bool {
    &&& new.len() == old.len()
    &&& forall|i: int|
        0 <= i < old.len() && !(line * width <= i < line * width + width) ==> #[trigger] new[i]
            == old[i]
}

/// Renders a scanline in mode 0: up to four tiled backgrounds, composited
/// by priority.
pub fn render_mode0_scanline(
    scanline: usize,
    screen_width: usize,
    dispcnt: u16,
    bg_control: &[BgControl; 4],
    bg_hofs: &[u16; 4],
    bg_vofs: &[u16; 4],
    vram: &[u8],
    palette_ram: &[u8],
    framebuffer: &mut [u16],
)
    requires
        (scanline + 1) * screen_width <= old(framebuffer)@.len(),
        palette_ram@.len() >= 512,
    ensures
        only_row_changed_w(old(framebuffer)@, final(framebuffer)@, scanline as int, screen_width as int),
        forall|x: int|
            0 <= x < screen_width ==> #[trigger] final(framebuffer)@[scanline * screen_width + x]
                == mode0_pixel(
                vram@,
                palette_ram@,
                dispcnt,
                bg_control@,
                bg_hofs@,
                bg_vofs@,
                scanline as int,
                x,
            ),
{
    let fb_len = framebuffer.len();
    let mut x: usize = 0;
    while x < screen_width
        invariant
            x <= screen_width,
            (scanline + 1) * screen_width <= framebuffer@.len(),
            fb_len == framebuffer@.len(),
            palette_ram@.len() >= 512,
            only_row_changed_w(
                old(framebuffer)@,
                framebuffer@,
                scanline as int,
                screen_width as int,
            ),
            forall|k: int|
                0 <= k < x ==> #[trigger] framebuffer@[scanline * screen_width + k] == mode0_pixel(
                    vram@,
                    palette_ram@,
                    dispcnt,
                    bg_control@,
                    bg_hofs@,
                    bg_vofs@,
                    scanline as int,
                    k,
                ),
        decreases screen_width - x,
    {
        let a = layer_at(vram, palette_ram, dispcnt, 0, bg_control, bg_hofs, bg_vofs, scanline, x);
        let b = layer_at(vram, palette_ram, dispcnt, 1, bg_control, bg_hofs, bg_vofs, scanline, x);
        let c = layer_at(vram, palette_ram, dispcnt, 2, bg_control, bg_hofs, bg_vofs, scanline, x);
        let d = layer_at(vram, palette_ram, dispcnt, 3, bg_control, bg_hofs, bg_vofs, scanline, x);
        let color = pick_pixel(a, b, c, d);
        assert(scanline * screen_width + x < fb_len) by (nonlinear_arith)
            requires
                x < screen_width,
                (scanline + 1) * screen_width <= fb_len,
        ;
        framebuffer[scanline * screen_width + x] = color;
        x = x + 1;
    }
}

/// Pixel x of background `bg`, or none when it is not enabled.
fn layer_at(
    vram: &[u8],
    palette_ram: &[u8],
    dispcnt: u16,
    bg: usize,
    bg_control: &[BgControl; 4],
    bg_hofs: &[u16; 4],
    bg_vofs: &[u16; 4],
    line: usize,
    x: usize,
) -> (r: LayerPixel)
    requires
        bg < 4,
        palette_ram@.len() >= 512,
    ensures
        r == layer_pixel(
            vram@,
            palette_ram@,
            dispcnt,
            bg as int,
            bg_control@[bg as int],
            bg_hofs@[bg as int],
            bg_vofs@[bg as int],
            line as int,
            x as int,
        ),
{
    let shift = (8 + bg) as u16;
    if (dispcnt >> shift) & 1 == 1 {
        render_bg_pixel(vram, palette_ram, &bg_control[bg], bg_hofs[bg], bg_vofs[bg], line, x)
    } else {
        (0, 0, false)
    }
}

/// The colour shown over four layer pixels, scanning priorities 0 to 3 and
/// the layers in order within each.
fn pick_pixel(a: LayerPixel, b: LayerPixel, c: LayerPixel, d: LayerPixel) -> (r: u16)
    ensures
        r == composite4(a, b, c, d),
{
    let mut priority: u8 = 0;
    while priority <= 3
        invariant
            priority <= 4,
            rank(a) >= priority && rank(b) >= priority && rank(c) >= priority && rank(d)
                >= priority,
        decreases 4 - priority,
    {
        if a.2 && a.1 == priority {
            return a.0;
        }
        if b.2 && b.1 == priority {
            return b.0;
        }
        if c.2 && c.1 == priority {
            return c.0;
        }
        if d.2 && d.1 == priority {
            return d.0;
        }
        priority = priority + 1;
    }
    0
}

/// Colour `index` of the background palette.
fn read_bg_palette(palette_ram: &[u8], index: usize) -> (r: u16)
    requires
        palette_ram@.len() >= 512,
        index < 0x1_0000,
    ensures
        r == bg_palette_color(palette_ram@, index as int),
{
    let addr = index * 2;
    if addr + 1 < 512 {
        read_halfword_or_zero(palette_ram, addr)
    } else {
        0
    }
}

/// Colour index of pixel (px, py) of the tile at `tile_addr`.
pub(crate) fn tile_pixel_index(vram: &[u8], tile_addr: usize, px: usize, py: usize, p256: bool) -> (r: usize)
    requires
        px < 8,
        py < 8,
        tile_addr < 0x100_0000,
    ensures
        r == tile_index(vram@, tile_addr as int, px as int, py as int, p256),
        r < 256,
{
    if p256 {
        read_byte_or_zero(vram, tile_addr + py * 8 + px) as usize
    } else {
        let byte = read_byte_or_zero(vram, tile_addr + py * 4 + px / 2);
        proof {
            crate::bits::lemma_u8_field(byte, 0, 0);
        }
        if px % 2 == 0 {
            (byte & 0xF) as usize
        } else {
            ((byte >> 4) & 0xF) as usize
        }
    }
}

/// Pixel x of line `line` of a tiled background.
#[verifier::rlimit(50)]
fn render_bg_pixel(
    vram: &[u8],
    palette_ram: &[u8],
    ctrl: &BgControl,
    scroll_x: u16,
    scroll_y: u16,
    line: usize,
    x: usize,
) -> (r: LayerPixel)
    requires
        palette_ram@.len() >= 512,
    ensures
        r == bg_pixel(vram@, palette_ram@, *ctrl, scroll_x, scroll_y, line as int, x as int),
{
    let y = (line % 512 + scroll_y as usize) % 512;
    assert(y == (line + scroll_y) % 512) by {
        vstd::arithmetic::div_mod::lemma_add_mod_noop(line as int, scroll_y as int, 512);
        vstd::arithmetic::div_mod::lemma_small_mod(scroll_y as nat % 512, 512);
    }
    let (wt, ht) = ctrl.get_screen_size();
    let tile_y = y / 8;
    let pixel_x = (x % 512 + scroll_x as usize) % 512;
    assert(pixel_x == (x + scroll_x) % 512) by {
        vstd::arithmetic::div_mod::lemma_add_mod_noop(x as int, scroll_x as int, 512);
        vstd::arithmetic::div_mod::lemma_small_mod(scroll_x as nat % 512, 512);
    }
    let tile_x = pixel_x / 8;
    if tile_y >= ht || tile_x >= wt {
        return (0, 0, false);
    }
    assert(tile_y * wt <= 64 * 64) by (nonlinear_arith)
        requires
            tile_y < 64,
            wt <= 64,
    ;
    let entry_addr = (ctrl.screen_base as usize) * 2048 + (tile_y * wt + tile_x) * 2;
    if entry_addr + 1 >= vram.len() {
        return (0, 0, false);
    }
    let entry = read_halfword_or_zero(vram, entry_addr);
    assert(entry & 0x3FF == entry % 1024 && ((entry & (1u16 << 10u16)) != 0) == ((entry / 1024) % 2
        == 1) && ((entry & (1u16 << 11u16)) != 0) == ((entry / 2048) % 2 == 1) && (entry >> 12u16)
        & 0xF == entry / 4096) by (bit_vector);
    let tile_num = (entry & 0x3FF) as usize;
    let h_flip = (entry & (1 << 10)) != 0;
    let v_flip = (entry & (1 << 11)) != 0;
    let palette_bank = ((entry >> 12) & 0xF) as usize;
    let mut tile_pixel_x = pixel_x % 8;
    let mut tile_pixel_y = y % 8;
    if h_flip {
        tile_pixel_x = 7 - tile_pixel_x;
    }
    if v_flip {
        tile_pixel_y = 7 - tile_pixel_y;
    }
    let tile_addr = (ctrl.char_base as usize) * 16384 + tile_num * (if ctrl.palette_256 {
        64
    } else {
        32
    });
    let palette_index = tile_pixel_index(vram, tile_addr, tile_pixel_x, tile_pixel_y, ctrl.palette_256);
    if palette_index == 0 {
        return (0, 0, false);
    }
    let color = if ctrl.palette_256 {
        read_bg_palette(palette_ram, palette_index)
    } else {
        read_bg_palette(palette_ram, palette_bank * 16 + palette_index)
    };
    (color, ctrl.priority, true)
}

} // verus!
