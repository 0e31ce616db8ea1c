use vstd::prelude::*;
use crate::ppu::constants::SCREEN_WIDTH;
use crate::ppu::mode3::{halfword_at, only_row_changed, read_halfword_or_zero};

verus! {

/// Byte `i` of `v`, or 0 past its end.
pub open spec fn byte_or_zero(v: Seq<u8>, i: int) -> u8 {
    if 0 <= i < v.len() {
        v[i]
    } else {
        0
    }
}

/// Byte `i` of `v`, or 0 past its end.
pub fn read_byte_or_zero(v: &[u8], i: usize) -> (r: u8)
    ensures
        r == byte_or_zero(v@, i as int),
{
    if i < v.len() {
        v[i]
    } else {
        0
    }
}

/// Mode 4 colour of pixel x of line y: the palette entry named by the VRAM
/// byte of the selected page (page 1 starts at 0xA000).
pub open spec fn mode4_pixel(vram: Seq<u8>, palette: Seq<u8>, y: int, x: int, page1: bool) -> u16 {
    let base: int = if page1 {
        0xA000
    } else {
        0
    };
    let index = byte_or_zero(vram, base + y * 240 + x);
    halfword_at(palette, index * 2)
}

/// Renders a scanline in mode 4 (240x160, 8-bit indices into the background
/// palette, two pages).
pub fn render_mode4_scanline(
    framebuffer: &mut [u16],
    vram: &[u8],
    palette_ram: &[u8],
    scanline: usize,
    frame_select: bool,
)
    requires
        (scanline + 1) * 240 <= old(framebuffer)@.len(),
        palette_ram@.len() >= 512,
    ensures
        only_row_changed(old(framebuffer)@, final(framebuffer)@, scanline as int),
        forall|x: int|
            0 <= x < 240 ==> #[trigger] final(framebuffer)@[scanline * 240 + x] == mode4_pixel(
                vram@,
                palette_ram@,
                scanline as int,
                x,
                frame_select,
            ),
{
    let frame_offset: usize = if frame_select {
        0xA000
    } else {
        0
    };
    let fb_len = framebuffer.len();
    let vram_len = vram.len();
    let line_offset = scanline * SCREEN_WIDTH;
    for x in 0..SCREEN_WIDTH
        invariant
            line_offset == scanline * 240,
            frame_offset == (if frame_select {
                0xA000usize
            } else {
                0usize
            }),
            (scanline + 1) * 240 <= framebuffer@.len(),
            fb_len == framebuffer@.len(),
            vram_len == vram@.len(),
            palette_ram@.len() >= 512,
            only_row_changed(old(framebuffer)@, framebuffer@, scanline as int),
            forall|k: int|
                0 <= k < x ==> #[trigger] framebuffer@[scanline * 240 + k] == mode4_pixel(
                    vram@,
                    palette_ram@,
                    scanline as int,
                    k,
                    frame_select,
                ),
    {
        let palette_index = match frame_offset.checked_add(scanline * SCREEN_WIDTH + x) {
            Some(vram_addr) => read_byte_or_zero(vram, vram_addr) as usize,
            None => 0,
        };
        let color = read_halfword_or_zero(palette_ram, palette_index * 2);
        framebuffer[line_offset + x] = color;
    }
}

} // verus!
