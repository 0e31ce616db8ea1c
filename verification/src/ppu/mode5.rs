use vstd::prelude::*;
use crate::ppu::constants::SCREEN_WIDTH;
use crate::ppu::mode3::{halfword_at, only_row_changed, read_halfword_or_zero};

verus! {

pub const MODE5_WIDTH: usize = 160;
pub const MODE5_HEIGHT: usize = 128;

/// Mode 5 colour of pixel x of line y on the 240x160 screen: the 160x128
/// picture of the selected page is centred horizontally (black borders of
/// 40 pixels) and lines from 128 on are black.
pub open spec fn mode5_pixel(vram: Seq<u8>, y: int, x: int, page1: bool) -> u16 {
    let base: int = if page1 {
        0xA000
    } else {
        0
    };
    if y >= 128 || x < 40 || x >= 200 {
        0
    } else {
        halfword_at(vram, base + (y * 160 + (x - 40)) * 2)
    }
}

/// Renders a scanline in mode 5 (160x128, 16-bit colour, two pages).
pub fn render_mode5_scanline(
    framebuffer: &mut [u16],
    vram: &[u8],
    scanline: usize,
    frame_select: bool,
)
    requires
        (scanline + 1) * 240 <= old(framebuffer)@.len(),
    ensures
        only_row_changed(old(framebuffer)@, final(framebuffer)@, scanline as int),
        forall|x: int|
            0 <= x < 240 ==> #[trigger] final(framebuffer)@[scanline * 240 + x] == mode5_pixel(
                vram@,
                scanline as int,
                x,
                frame_select,
            ),
{
    let fb_len = framebuffer.len();
    let line_offset = scanline * SCREEN_WIDTH;
    if scanline >= MODE5_HEIGHT {
        for x in 0..SCREEN_WIDTH
            invariant
                line_offset == scanline * 240,
                scanline >= 128,
                (scanline + 1) * 240 <= framebuffer@.len(),
                fb_len == framebuffer@.len(),
                only_row_changed(old(framebuffer)@, framebuffer@, scanline as int),
                forall|k: int| 0 <= k < x ==> #[trigger] framebuffer@[scanline * 240 + k] == 0,
        {
            framebuffer[line_offset + x] = 0;
        }
        return ;
    }
    let frame_offset: usize = if frame_select {
        0xA000
    } else {
        0
    };
    let x_offset = (SCREEN_WIDTH - MODE5_WIDTH) / 2;
    for x in 0..SCREEN_WIDTH
        invariant
            line_offset == scanline * 240,
            scanline < 128,
            x_offset == 40,
            frame_offset == (if frame_select {
                0xA000usize
            } else {
                0usize
            }),
            (scanline + 1) * 240 <= framebuffer@.len(),
            only_row_changed(old(framebuffer)@, framebuffer@, scanline as int),
            forall|k: int|
                0 <= k < x ==> #[trigger] framebuffer@[scanline * 240 + k] == mode5_pixel(
                    vram@,
                    scanline as int,
                    k,
                    frame_select,
                ),
    {
        if x < x_offset || x >= x_offset + MODE5_WIDTH {
            framebuffer[line_offset + x] = 0;
        } else {
            let vram_addr = frame_offset + (scanline * MODE5_WIDTH + (x - x_offset)) * 2;
            framebuffer[line_offset + x] = read_halfword_or_zero(vram, vram_addr);
        }
    }
}

} // verus!
