use vstd::prelude::*;
use crate::ppu::constants::SCREEN_WIDTH;

verus! {

/// Little-endian halfword of `v` at byte `i`, or 0 when it is not all inside.
pub open spec fn halfword_at(v: Seq<u8>, i: int) -> u16 {
    if 0 <= i && i + 1 < v.len() {
        (v[i] + 256 * v[i + 1]) as u16
    } else {
        0
    }
}

/// Little-endian halfword of `v` at byte `i`, or 0 when it is not all inside.
pub fn read_halfword_or_zero(v: &[u8], i: usize) -> (r: u16)
    ensures
        r == halfword_at(v@, i as int),
{
    if i < v.len() && i + 1 < v.len() {
        let lo = v[i] as u16;
        let hi = v[i + 1] as u16;
        proof {
            crate::bits::lemma_u16_combine(lo, hi);
        }
        lo | (hi << 8)
    } else {
        0
    }
}

/// `new` equals `old` outside row `line` of a 240-pixel-wide frame.
pub open spec fn only_row_changed(old: Seq<u16>, new: Seq<u16>, line: int) -> bool {
    &&& new.len() == old.len()
    &&& forall|i: int|
        0 <= i < old.len() && !(line * 240 <= i < line * 240 + 240) ==> #[trigger] new[i] == old[i]
}

/// Renders a scanline in mode 3 (240x160, 16-bit colour): the pixel x of
/// line y is the halfword at byte 2 * (240 y + x) of VRAM, black past its end.
pub fn render_mode3_scanline(scanline: u16, vram: &[u8], framebuffer: &mut [u16])
    requires
        (scanline as int + 1) * 240 <= old(framebuffer)@.len(),
    ensures
        only_row_changed(old(framebuffer)@, final(framebuffer)@, scanline as int),
        forall|x: int|
            0 <= x < 240 ==> #[trigger] final(framebuffer)@[scanline * 240 + x] == halfword_at(
                vram@,
                (scanline * 240 + x) * 2,
            ),
{
    let line = scanline as usize;
    let offset = line * SCREEN_WIDTH * 2;
    for x in 0..SCREEN_WIDTH
        invariant
            line == scanline,
            offset == line * 480,
            (line + 1) * 240 <= framebuffer@.len(),
            only_row_changed(old(framebuffer)@, framebuffer@, line as int),
            forall|k: int|
                0 <= k < x ==> #[trigger] framebuffer@[line * 240 + k] == halfword_at(
                    vram@,
                    (line * 240 + k) * 2,
                ),
    {
        let vram_idx = offset + x * 2;
        let pixel = read_halfword_or_zero(vram, vram_idx);
        framebuffer[line * SCREEN_WIDTH + x] = pixel;
    }
}

} // verus!
