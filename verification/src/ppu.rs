pub mod affine;
pub mod blending;
pub mod constants;
pub mod mode0;
pub mod mode3;
pub mod mode4;
pub mod mode5;
pub mod sprites;
pub mod types;
pub mod windows;

use vstd::prelude::*;
use crate::ppu::blending::{AlphaCoefficients, BlendControl, min16};
use crate::ppu::constants::{
    BG0CNT, BG0HOFS, BG0VOFS, BG1CNT, BG1HOFS, BG1VOFS, BG2CNT, BG2HOFS, BG2VOFS, BG3CNT, BG3HOFS, BG3VOFS, BLDALPHA, BLDCNT, BLDY, CYCLES_PER_SCANLINE, DISPCNT, DISPSTAT, OAM_SIZE, OAM_SPRITE_COUNT, PALETTE_RAM_SIZE, SCANLINES_TOTAL, SCREEN_HEIGHT, SCREEN_WIDTH, VCOUNT, VISIBLE_SCANLINES, WIN0H, WIN0V, WIN1H, WIN1V, WININ, WINOUT,
};
use crate::ppu::mode0::mode0_pixel;
use crate::ppu::mode3::{halfword_at, only_row_changed};
use crate::ppu::mode4::mode4_pixel;
use crate::ppu::mode5::mode5_pixel;
use crate::ppu::sprites::{SpriteAttribute, disabled_sprite, sprite_from_bytes, sprite_layer};
use crate::ppu::types::{BgControl, DisplayMode, display_mode_of};
use crate::ppu::windows::{WindowBounds, WindowControl, Windows};

verus! {

/// Picture processing unit: display registers, palette, OAM and the frame
/// buffer (240x160, RGB555).
pub struct PPU {
    pub framebuffer: Vec<u16>,
    pub dispcnt: u16,
    pub dispstat: u16,
    pub scanline: u16,
    pub cycles: u32,
    pub bg_control: [BgControl; 4],
    pub bg_hofs: [u16; 4],
    pub bg_vofs: [u16; 4],
    pub palette_ram: Vec<u8>,
    pub oam: Vec<u8>,
    pub windows: Windows,
    pub blend_control: BlendControl,
    pub alpha_coefficients: AlphaCoefficients,
    pub brightness_coeff: u8,
}

/// Whether scanline `s` is reached in the first `n` lines from `s0`.
pub open spec fn visited(s0: int, n: int, s: int) -> bool {
    exists|j: int| 0 <= j < n && #[trigger] ((s0 + j) % 228) == s
}

/// Line `s` is reached in the first `n + 1` lines exactly when it is reached
/// in the first `n` or is line `n` itself.
pub proof fn lemma_visited_step(s0: int, n: int, s: int)
    requires
        0 <= n,
    ensures
        visited(s0, n + 1, s) <==> (visited(s0, n, s) || (s0 + n) % 228 == s),
{
    if visited(s0, n + 1, s) && (s0 + n) % 228 != s {
        let w = choose|w: int| 0 <= w < n + 1 && #[trigger] ((s0 + w) % 228) == s;
        assert(0 <= w < n && (s0 + w) % 228 == s);
    }
    if visited(s0, n, s) {
        let w = choose|w: int| 0 <= w < n && #[trigger] ((s0 + w) % 228) == s;
        assert(0 <= w < n + 1 && (s0 + w) % 228 == s);
    }
    if (s0 + n) % 228 == s {
        assert(0 <= n < n + 1 && (s0 + n) % 228 == s);
    }
}

/// Two PPUs with the same registers, palette and OAM draw the same pixels.
pub proof fn lemma_line_pixel_same_inputs(a: PPU, b: PPU, vram: Seq<u8>, y: int, x: int, p: u16)
    requires
        a.dispcnt == b.dispcnt,
        a.bg_control == b.bg_control,
        a.bg_hofs == b.bg_hofs,
        a.bg_vofs == b.bg_vofs,
        a.palette_ram@ == b.palette_ram@,
        a.oam@ == b.oam@,
    ensures
        a.line_pixel(vram, y, x, p) == b.line_pixel(vram, y, x, p),
{
    reveal(PPU::line_pixel);
}

/// Setting the V-blank bit twice keeps only the second setting.
pub proof fn lemma_dispstat_for_twice(d: u16, t: u16, s: u16)
    ensures
        PPU::dispstat_for(PPU::dispstat_for(d, t), s) == PPU::dispstat_for(d, s),
{
    assert((d | 1) | 1 == d | 1 && (d | 1) & !1u16 == d & !1u16 && (d & !1u16) | 1 == d | 1 && (d & !1u16)
        & !1u16 == d & !1u16) by (bit_vector);
}

impl PPU {
    /// Buffers have their sizes, the scanline counter and the cycle counter
    /// are inside their ranges.
    pub open spec fn wf(self) -> bool {
        &&& self.framebuffer@.len() == 240 * 160
        &&& self.palette_ram@.len() == 0x400
        &&& self.oam@.len() == 0x400
        &&& self.scanline < 228
        &&& self.cycles < 1232
    }

    /// Background colour of pixel (x, y) in the current display mode over a
    /// pixel that had colour `old_px` (modes 1 and 2 draw no background).
    pub open spec fn background_pixel(self, vram: Seq<u8>, y: int, x: int, old_px: u16) -> u16 {
        match display_mode_of(self.dispcnt) {
            DisplayMode::Mode0 => mode0_pixel(
                vram,
                self.palette_ram@,
                self.dispcnt,
                self.bg_control@,
                self.bg_hofs@,
                self.bg_vofs@,
                y,
                x,
            ),
            DisplayMode::Mode3 => halfword_at(vram, (y * 240 + x) * 2),
            DisplayMode::Mode4 => mode4_pixel(vram, self.palette_ram@, y, x, (self.dispcnt >> 4) & 1 == 1),
            DisplayMode::Mode5 => mode5_pixel(vram, y, x, (self.dispcnt >> 4) & 1 == 1),
            _ => old_px,
        }
    }

    /// Colour of pixel (x, y) when line y is drawn over a pixel that had
    /// colour `old_px`: the background, then the sprites when DISPCNT
    /// enables them.
    #[verifier::opaque]
    pub open spec fn line_pixel(self, vram: Seq<u8>, y: int, x: int, old_px: u16) -> u16 {
        let base = self.background_pixel(vram, y, x, old_px);
        if (self.dispcnt >> 12) & 1 == 1 {
            let s = sprite_layer(self.oam@, vram, self.palette_ram@, y, x, 0);
            if s.2 {
                s.0
            } else {
                base
            }
        } else {
            base
        }
    }

    /// DISPSTAT with its V-blank bit (bit 0) following `scanline`.
    pub open spec fn dispstat_for(dispstat: u16, scanline: u16) -> u16 {
        if scanline >= 160 {
            dispstat | 1
        } else {
            dispstat & !1u16
        }
    }

    pub fn new() -> (r: Self)
        ensures
            r.wf(),
            r.dispcnt == 0 && r.dispstat == 0 && r.scanline == 0 && r.cycles == 0,
            r.brightness_coeff == 0,
    {
        PPU {
            framebuffer: vec![0u16; SCREEN_WIDTH * SCREEN_HEIGHT],
            dispcnt: 0,
            dispstat: 0,
            scanline: 0,
            cycles: 0,
            bg_control: [BgControl::default(), BgControl::default(), BgControl::default(), BgControl::default()],
            bg_hofs: [0u16; 4],
            bg_vofs: [0u16; 4],
            palette_ram: vec![0u8; PALETTE_RAM_SIZE],
            oam: vec![0u8; OAM_SIZE],
            windows: Windows::new(),
            blend_control: BlendControl::new(),
            alpha_coefficients: AlphaCoefficients { eva: 0, evb: 0 },
            brightness_coeff: 0,
        }
    }

    /// Reads a display register (unknown addresses read 0).
    pub fn read_register(&self, addr: u32) -> (r: u16)
        ensures
            r == self.read_register_spec(addr),
    {
        if addr == DISPCNT {
            self.dispcnt
        } else if addr == DISPSTAT {
            let v: u16 = if self.in_vblank() {
                1
            } else {
                0
            };
            self.dispstat | v
        } else if addr == VCOUNT {
            self.scanline
        } else if addr == BG0CNT {
            self.bg_control[0].to_u16()
        } else if addr == BG1CNT {
            self.bg_control[1].to_u16()
        } else if addr == BG2CNT {
            self.bg_control[2].to_u16()
        } else if addr == BG3CNT {
            self.bg_control[3].to_u16()
        } else if addr == BG0HOFS {
            self.bg_hofs[0]
        } else if addr == BG0VOFS {
            self.bg_vofs[0]
        } else if addr == BG1HOFS {
            self.bg_hofs[1]
        } else if addr == BG1VOFS {
            self.bg_vofs[1]
        } else if addr == BG2HOFS {
            self.bg_hofs[2]
        } else if addr == BG2VOFS {
            self.bg_vofs[2]
        } else if addr == BG3HOFS {
            self.bg_hofs[3]
        } else if addr == BG3VOFS {
            self.bg_vofs[3]
        } else if addr == BLDCNT {
            self.blend_control.to_u16()
        } else if addr == BLDALPHA {
            self.alpha_coefficients.to_u16()
        } else {
            0
        }
    }

    /// `new` is this PPU after the register write of `value` at `addr`.
    pub open spec fn register_written(self, addr: u32, value: u16, new: PPU) -> bool {
        if addr == DISPCNT {
            new == (PPU { dispcnt: value, ..self })
        } else if addr == DISPSTAT {
            new == (PPU { dispstat: (self.dispstat & 0x0007) | (value & 0xFFF8), ..self })
        } else if BG0CNT <= addr <= BG3VOFS {
            self.bg_register_written(addr, value, new)
        } else if WIN0H <= addr <= WINOUT {
            self.window_register_written(addr, value, new)
        } else {
            self.blend_register_written(addr, value, new)
        }
    }

    /// Register write in the background block (control words and scroll
    /// offsets); other addresses leave the PPU unchanged.
    pub open spec fn bg_register_written(self, addr: u32, value: u16, new: PPU) -> bool {
        if addr == BG0CNT || addr == BG1CNT || addr == BG2CNT || addr == BG3CNT {
            let i = (addr - BG0CNT) / 2;
            &&& new == (PPU { bg_control: new.bg_control, ..self })
            &&& new.bg_control@ == self.bg_control@.update(i, BgControl::from_spec(value))
        } else if addr == BG0HOFS || addr == BG1HOFS || addr == BG2HOFS || addr == BG3HOFS {
            let i = (addr - BG0HOFS) / 4;
            &&& new == (PPU { bg_hofs: new.bg_hofs, ..self })
            &&& new.bg_hofs@ == self.bg_hofs@.update(i, value & 0x1FF)
        } else if addr == BG0VOFS || addr == BG1VOFS || addr == BG2VOFS || addr == BG3VOFS {
            let i = (addr - BG0VOFS) / 4;
            &&& new == (PPU { bg_vofs: new.bg_vofs, ..self })
            &&& new.bg_vofs@ == self.bg_vofs@.update(i, value & 0x1FF)
        } else {
            new == self
        }
    }

    /// Register write in the window block: WINxH holds right (low byte) and
    /// left (high byte), WINxV bottom and top, WININ/WINOUT two control bytes.
    pub open spec fn window_register_written(self, addr: u32, value: u16, new: PPU) -> bool {
        if addr == WININ || addr == WINOUT {
            self.window_control_written(addr, value, new)
        } else {
            self.window_bounds_written(addr, value, new)
        }
    }

    /// Write of a window's edges (WIN0H, WIN1H, WIN0V, WIN1V).
    pub open spec fn window_bounds_written(self, addr: u32, value: u16, new: PPU) -> bool {
        let lo = (value % 256) as u8;
        let hi = (value / 256) as u8;
        if addr == WIN0H {
            new == (PPU {
                windows: Windows {
                    win0: WindowBounds { left: hi, right: lo, ..self.windows.win0 },
                    ..self.windows
                },
                ..self
            })
        } else if addr == WIN1H {
            new == (PPU {
                windows: Windows {
                    win1: WindowBounds { left: hi, right: lo, ..self.windows.win1 },
                    ..self.windows
                },
                ..self
            })
        } else if addr == WIN0V {
            new == (PPU {
                windows: Windows {
                    win0: WindowBounds { top: hi, bottom: lo, ..self.windows.win0 },
                    ..self.windows
                },
                ..self
            })
        } else if addr == WIN1V {
            new == (PPU {
                windows: Windows {
                    win1: WindowBounds { top: hi, bottom: lo, ..self.windows.win1 },
                    ..self.windows
                },
                ..self
            })
        } else {
            new == self
        }
    }

    /// Write of the window control bytes (WININ, WINOUT).
    pub open spec fn window_control_written(self, addr: u32, value: u16, new: PPU) -> bool {
        let lo = (value % 256) as u8;
        let hi = (value / 256) as u8;
        if addr == WININ {
            new == (PPU {
                windows: Windows {
                    win0_control: WindowControl::from_spec(lo),
                    win1_control: WindowControl::from_spec(hi),
                    ..self.windows
                },
                ..self
            })
        } else if addr == WINOUT {
            new == (PPU {
                windows: Windows {
                    winout_control: WindowControl::from_spec(lo),
                    winobj_control: WindowControl::from_spec(hi),
                    ..self.windows
                },
                ..self
            })
        } else {
            new == self
        }
    }

    /// Register write in the blending block; other addresses leave the PPU
    /// unchanged.
    pub open spec fn blend_register_written(self, addr: u32, value: u16, new: PPU) -> bool {
        if addr == BLDCNT {
            new == (PPU { blend_control: BlendControl::from_spec(value), ..self })
        } else if addr == BLDALPHA {
            new == (PPU {
                alpha_coefficients: AlphaCoefficients {
                    eva: min16((value & 0x1F) as int) as u8,
                    evb: min16(((value >> 8) & 0x1F) as int) as u8,
                },
                ..self
            })
        } else if addr == BLDY {
            new == (PPU { brightness_coeff: min16((value & 0x1F) as int) as u8, ..self })
        } else {
            new == self
        }
    }

    /// Writes a display register; unknown addresses are ignored.
    pub fn write_register(&mut self, addr: u32, value: u16)
        ensures
            old(self).register_written(addr, value, *final(self)),
    {
        if addr == DISPCNT {
            self.dispcnt = value;
        } else if addr == DISPSTAT {
            self.dispstat = (self.dispstat & 0x0007) | (value & 0xFFF8);
        } else if BG0CNT <= addr && addr <= BG3VOFS {
            self.write_bg_register(addr, value);
        } else if WIN0H <= addr && addr <= WINOUT {
            self.write_window_register(addr, value);
        } else {
            self.write_blend_register(addr, value);
        }
    }

    fn write_bg_register(&mut self, addr: u32, value: u16)
        ensures
            old(self).bg_register_written(addr, value, *final(self)),
    {
        let ghost old_self = *self;
        if addr == BG0CNT || addr == BG1CNT || addr == BG2CNT || addr == BG3CNT {
            let i = ((addr - BG0CNT) / 2) as usize;
            self.bg_control[i] = BgControl::from_u16(value);
            assert(self.bg_control@ =~= old_self.bg_control@.update(i as int, BgControl::from_spec(value)));
        } else if addr == BG0HOFS || addr == BG1HOFS || addr == BG2HOFS || addr == BG3HOFS {
            let i = ((addr - BG0HOFS) / 4) as usize;
            self.bg_hofs[i] = value & 0x1FF;
            assert(self.bg_hofs@ =~= old_self.bg_hofs@.update(i as int, value & 0x1FF));
        } else if addr == BG0VOFS || addr == BG1VOFS || addr == BG2VOFS || addr == BG3VOFS {
            let i = ((addr - BG0VOFS) / 4) as usize;
            self.bg_vofs[i] = value & 0x1FF;
            assert(self.bg_vofs@ =~= old_self.bg_vofs@.update(i as int, value & 0x1FF));
        }
    }

    fn write_window_register(&mut self, addr: u32, value: u16)
        ensures
            old(self).window_register_written(addr, value, *final(self)),
    {
        if addr == WININ || addr == WINOUT {
            self.write_window_control(addr, value);
        } else {
            self.write_window_bounds(addr, value);
        }
    }

    fn write_window_bounds(&mut self, addr: u32, value: u16)
        ensures
            old(self).window_bounds_written(addr, value, *final(self)),
    {
        let ghost lo = (value % 256) as u8;
        let ghost hi = (value / 256) as u8;
        if addr == WIN0H || addr == WIN1H {
            let (left, right) = WindowBounds::from_horizontal(value);
            assert(left == hi && right == lo);
            if addr == WIN0H {
                self.windows.win0 = WindowBounds { left, right, ..self.windows.win0 };
            } else {
                self.windows.win1 = WindowBounds { left, right, ..self.windows.win1 };
            }
        } else if addr == WIN0V || addr == WIN1V {
            let (top, bottom) = WindowBounds::from_vertical(value);
            assert(top == hi && bottom == lo);
            if addr == WIN0V {
                self.windows.win0 = WindowBounds { top, bottom, ..self.windows.win0 };
            } else {
                self.windows.win1 = WindowBounds { top, bottom, ..self.windows.win1 };
            }
        }
    }

    fn write_window_control(&mut self, addr: u32, value: u16)
        ensures
            old(self).window_control_written(addr, value, *final(self)),
    {
        proof {
            crate::bits::lemma_u16_bytes(value);
        }
        if addr == WININ {
            self.windows.win0_control = WindowControl::from_u8((value & 0xFF) as u8);
            self.windows.win1_control = WindowControl::from_u8(((value >> 8) & 0xFF) as u8);
        } else if addr == WINOUT {
            self.windows.winout_control = WindowControl::from_u8((value & 0xFF) as u8);
            self.windows.winobj_control = WindowControl::from_u8(((value >> 8) & 0xFF) as u8);
        }
    }

    fn write_blend_register(&mut self, addr: u32, value: u16)
        ensures
            old(self).blend_register_written(addr, value, *final(self)),
    {
        if addr == BLDCNT {
            self.blend_control = BlendControl::from_u16(value);
        } else if addr == BLDALPHA {
            self.alpha_coefficients = AlphaCoefficients::from_u16(value);
        } else if addr == BLDY {
            proof {
                crate::bits::lemma_u16_field(value, 0, 0x1F);
            }
            let y = value & 0x1F;
            self.brightness_coeff = if y > 16 {
                16
            } else {
                y as u8
            };
        }
    }

    /// Display mode selected by DISPCNT.
    pub fn display_mode(&self) -> (r: DisplayMode)
        ensures
            r == display_mode_of(self.dispcnt),
    {
        let m = self.dispcnt & 0x7;
        if m == 1 {
            DisplayMode::Mode1
        } else if m == 2 {
            DisplayMode::Mode2
        } else if m == 3 {
            DisplayMode::Mode3
        } else if m == 4 {
            DisplayMode::Mode4
        } else if m == 5 {
            DisplayMode::Mode5
        } else {
            DisplayMode::Mode0
        }
    }

    /// Runs the PPU for `cycles` cycles: every 1232 cycles the current line
    /// is drawn (when visible) and the next one begins; after line 227 the
    /// frame starts again at line 0.
    #[verifier::rlimit(60)]
    #[verifier::spinoff_prover]
    pub fn step(&mut self, cycles: u32, vram: &[u8])
        requires
            old(self).wf(),
            old(self).cycles + cycles <= u32::MAX,
        ensures
            final(self).wf(),
            ({
                let total = old(self).cycles + cycles;
                let n = total / 1232;
                &&& final(self).cycles == total % 1232
                &&& final(self).scanline == (old(self).scanline + n) % 228
                &&& final(self).dispstat == (if n == 0 {
                    old(self).dispstat
                } else {
                    PPU::dispstat_for(old(self).dispstat, final(self).scanline)
                })
                &&& forall|y: int, x: int|
                    0 <= y < 160 && 0 <= x < 240 ==> #[trigger] final(self).framebuffer@[y * 240 + x]
                        == if visited(old(self).scanline as int, n, y) {
                        old(self).line_pixel(vram@, y, x, old(self).framebuffer@[y * 240 + x])
                    } else {
                        old(self).framebuffer@[y * 240 + x]
                    }
                &&& *final(self) == (PPU {
                    framebuffer: final(self).framebuffer,
                    dispstat: final(self).dispstat,
                    scanline: final(self).scanline,
                    cycles: final(self).cycles,
                    ..*old(self)
                })
            }),
    {
        let ghost old_self = *self;
        let ghost total: int = self.cycles + cycles;
        self.cycles = self.cycles + cycles;
        let ghost mut j: int = 0;
        while self.cycles >= CYCLES_PER_SCANLINE
            invariant
                self.wf() || self.cycles >= 1232,
                self.framebuffer@.len() == 240 * 160,
                self.palette_ram@.len() == 0x400,
                self.oam@.len() == 0x400,
                self.scanline < 228,
                0 <= j,
                self.cycles == total - 1232 * j,
                self.scanline == (old_self.scanline + j) % 228,
                self.dispstat == (if j == 0 {
                    old_self.dispstat
                } else {
                    PPU::dispstat_for(old_self.dispstat, self.scanline)
                }),
                *self == (PPU {
                    framebuffer: self.framebuffer,
                    dispstat: self.dispstat,
                    scanline: self.scanline,
                    cycles: self.cycles,
                    ..old_self
                }),
                forall|y: int, x: int|
                    0 <= y < 160 && 0 <= x < 240 ==> #[trigger] self.framebuffer@[y * 240 + x] == if visited(
                        old_self.scanline as int,
                        j,
                        y,
                    ) {
                        old_self.line_pixel(vram@, y, x, old_self.framebuffer@[y * 240 + x])
                    } else {
                        old_self.framebuffer@[y * 240 + x]
                    },
            decreases self.cycles,
        {
            let ghost before = *self;
            let ghost prev_line = self.scanline;
            self.step_line(vram);
            proof {
                assert forall|y: int, x: int|
                    0 <= y < 160 && 0 <= x < 240 implies #[trigger] self.framebuffer@[y * 240 + x]
                        == if visited(old_self.scanline as int, j + 1, y) {
                        old_self.line_pixel(vram@, y, x, old_self.framebuffer@[y * 240 + x])
                    } else {
                        old_self.framebuffer@[y * 240 + x]
                    } by {
                    lemma_visited_step(old_self.scanline as int, j, y);
                    lemma_line_pixel_same_inputs(before, old_self, vram@, y, x, before.framebuffer@[y * 240 + x]);
                    if visited(old_self.scanline as int, j, y) {
                        old_self.lemma_line_pixel_idempotent(vram@, y, x, old_self.framebuffer@[y * 240 + x]);
                    }
                }
                if j > 0 {
                    lemma_dispstat_for_twice(old_self.dispstat, prev_line, self.scanline);
                }
                j = j + 1;
            }
        }
        proof {
            vstd::arithmetic::div_mod::lemma_fundamental_div_mod(total, 1232);
            assert(j == total / 1232) by {
                vstd::arithmetic::div_mod::lemma_div_multiples_vanish_fancy(j, total - 1232 * j, 1232);
            }
        }
    }

    /// One line's worth of cycles: draws the current line when it is
    /// visible, moves to the next line and updates the V-blank bit.
    #[verifier::spinoff_prover]
    fn step_line(&mut self, vram: &[u8])
        requires
            old(self).framebuffer@.len() == 240 * 160,
            old(self).palette_ram@.len() == 0x400,
            old(self).oam@.len() == 0x400,
            old(self).scanline < 228,
            old(self).cycles >= 1232,
        ensures
            final(self).cycles == old(self).cycles - 1232,
            final(self).scanline == (old(self).scanline + 1) % 228,
            final(self).dispstat == PPU::dispstat_for(old(self).dispstat, final(self).scanline),
            final(self).framebuffer@.len() == 240 * 160,
            *final(self) == (PPU {
                framebuffer: final(self).framebuffer,
                dispstat: final(self).dispstat,
                scanline: final(self).scanline,
                cycles: final(self).cycles,
                ..*old(self)
            }),
            forall|y: int, x: int|
                0 <= y < 160 && 0 <= x < 240 ==> #[trigger] final(self).framebuffer@[y * 240 + x] == if y
                    == old(self).scanline {
                    old(self).line_pixel(vram@, y, x, old(self).framebuffer@[y * 240 + x])
                } else {
                    old(self).framebuffer@[y * 240 + x]
                },
    {
        let ghost old_self = *self;
        self.cycles = self.cycles - CYCLES_PER_SCANLINE;
        if self.scanline < VISIBLE_SCANLINES {
            let mut fb: Vec<u16> = Vec::new();
            std::mem::swap(&mut fb, &mut self.framebuffer);
            let ghost at_call = *self;
            self.render_scanline(vram, &mut fb);
            assert forall|y: int, x: int|
                0 <= y < 160 && 0 <= x < 240 implies #[trigger] fb@[y * 240 + x] == if y == old_self.scanline {
                    old_self.line_pixel(vram@, y, x, old_self.framebuffer@[y * 240 + x])
                } else {
                    old_self.framebuffer@[y * 240 + x]
                } by {
                lemma_line_pixel_same_inputs(at_call, old_self, vram@, y, x, old_self.framebuffer@[y * 240 + x]);
            }
            self.framebuffer = fb;
        }
        self.scanline = self.scanline + 1;
        if self.scanline >= SCANLINES_TOTAL {
            self.scanline = 0;
        }
        self.update_dispstat();
    }

    /// Drawing a line twice gives the same pixels as drawing it once.
    pub proof fn lemma_line_pixel_idempotent(self, vram: Seq<u8>, y: int, x: int, p: u16)
        ensures
            self.line_pixel(vram, y, x, self.line_pixel(vram, y, x, p)) == self.line_pixel(
                vram,
                y,
                x,
                p,
            ),
    {
        reveal(PPU::line_pixel);
    }

    /// Sets the V-blank bit of DISPSTAT from the current line.
    fn update_dispstat(&mut self)
        ensures
            *final(self) == (PPU {
                dispstat: PPU::dispstat_for(old(self).dispstat, old(self).scanline),
                ..*old(self)
            }),
    {
        if self.in_vblank() {
            self.dispstat = self.dispstat | 0x0001;
        } else {
            self.dispstat = self.dispstat & !0x0001u16;
        }
    }

    /// Whether the current line is in V-blank (lines 160 to 227).
    pub fn in_vblank(&self) -> (r: bool)
        ensures
            r == (self.scanline >= 160),
    {
        self.scanline >= VISIBLE_SCANLINES
    }

    /// Draws the background of the current line (lines below 160) into
    /// `framebuffer`.
    #[verifier::spinoff_prover]
    fn render_background(&self, vram: &[u8], framebuffer: &mut Vec<u16>)
        requires
            old(framebuffer)@.len() == 240 * 160,
            self.palette_ram@.len() == 0x400,
            self.scanline < 160,
        ensures
            only_row_changed(old(framebuffer)@, final(framebuffer)@, self.scanline as int),
            forall|x: int|
                0 <= x < 240 ==> #[trigger] final(framebuffer)@[self.scanline * 240 + x]
                    == self.background_pixel(
                    vram@,
                    self.scanline as int,
                    x,
                    old(framebuffer)@[self.scanline * 240 + x],
                ),
    {
        let line = self.scanline as usize;
        let frame_select = (self.dispcnt >> 4) & 1 == 1;
        match self.display_mode() {
            DisplayMode::Mode0 => {
                mode0::render_mode0_scanline(
                    line,
                    SCREEN_WIDTH,
                    self.dispcnt,
                    &self.bg_control,
                    &self.bg_hofs,
                    &self.bg_vofs,
                    vram,
                    self.palette_ram.as_slice(),
                    framebuffer.as_mut_slice(),
                );
            },
            DisplayMode::Mode3 => {
                mode3::render_mode3_scanline(self.scanline, vram, framebuffer.as_mut_slice());
            },
            DisplayMode::Mode4 => {
                mode4::render_mode4_scanline(
                    framebuffer.as_mut_slice(),
                    vram,
                    self.palette_ram.as_slice(),
                    line,
                    frame_select,
                );
            },
            DisplayMode::Mode5 => {
                mode5::render_mode5_scanline(framebuffer.as_mut_slice(), vram, line, frame_select);
            },
            _ => {},
        }
    }

    /// Draws the current line (lines below 160) into `framebuffer`: the
    /// background, then the sprites when DISPCNT enables them.
    #[verifier::spinoff_prover]
    fn render_scanline(&self, vram: &[u8], framebuffer: &mut Vec<u16>)
        requires
            old(framebuffer)@.len() == 240 * 160,
            self.palette_ram@.len() == 0x400,
            self.oam@.len() == 0x400,
            self.scanline < 160,
        ensures
            final(framebuffer)@.len() == 240 * 160,
            forall|y: int, x: int|
                0 <= y < 160 && 0 <= x < 240 ==> #[trigger] final(framebuffer)@[y * 240 + x] == if y
                    == self.scanline {
                    self.line_pixel(vram@, y, x, old(framebuffer)@[y * 240 + x])
                } else {
                    old(framebuffer)@[y * 240 + x]
                },
    {
        let ghost before = framebuffer@;
        let line = self.scanline as usize;
        self.render_background(vram, framebuffer);
        let ghost after_bg = framebuffer@;
        if (self.dispcnt >> 12) & 1 == 1 {
            sprites::render_sprites_scanline(
                line,
                SCREEN_WIDTH,
                self.oam.as_slice(),
                vram,
                self.palette_ram.as_slice(),
                framebuffer.as_mut_slice(),
            );
        }
        assert forall|y: int, x: int| 0 <= y < 160 && 0 <= x < 240 implies #[trigger] framebuffer@[y
            * 240 + x] == if y == self.scanline {
            self.line_pixel(vram@, y, x, before[y * 240 + x])
        } else {
            before[y * 240 + x]
        } by {
            reveal(PPU::line_pixel);
            assert(0 <= y * 240 + x < 240 * 160) by (nonlinear_arith)
                requires
                    0 <= y < 160,
                    0 <= x < 240,
            ;
            if y != self.scanline {
                assert(!(line * 240 <= y * 240 + x < line * 240 + 240)) by (nonlinear_arith)
                    requires
                        0 <= x < 240,
                        y != line,
                ;
                assert(after_bg[y * 240 + x] == before[y * 240 + x]);
            } else {
                assert(after_bg[y * 240 + x] == self.background_pixel(vram@, y, x, before[y * 240 + x]));
            }
        }
    }

    /// Byte of palette RAM (0 past its end).
    pub fn read_palette_byte(&self, offset: usize) -> (r: u8)
        ensures
            r == crate::ppu::mode4::byte_or_zero(self.palette_ram@, offset as int),
    {
        mode4::read_byte_or_zero(self.palette_ram.as_slice(), offset)
    }

    /// Writes a byte of palette RAM (ignored past its end).
    pub fn write_palette_byte(&mut self, offset: usize, value: u8)
        ensures
            *final(self) == (PPU { palette_ram: final(self).palette_ram, ..*old(self) }),
            final(self).palette_ram@ == crate::memory::updated(
                old(self).palette_ram@,
                offset as int,
                value,
            ),
    {
        crate::memory::set_if_in(&mut self.palette_ram, offset, value);
    }

    /// Little-endian halfword of palette RAM (0 unless both bytes are inside).
    pub fn read_palette_halfword(&self, offset: usize) -> (r: u16)
        ensures
            r == halfword_at(self.palette_ram@, offset as int),
    {
        mode3::read_halfword_or_zero(self.palette_ram.as_slice(), offset)
    }

    /// Writes a little-endian halfword of palette RAM when both bytes are
    /// inside it.
    pub fn write_palette_halfword(&mut self, offset: usize, value: u16)
        ensures
            *final(self) == (PPU { palette_ram: final(self).palette_ram, ..*old(self) }),
            final(self).palette_ram@ == halfword_written(old(self).palette_ram@, offset as int, value),
    {
        write_halfword_in(&mut self.palette_ram, offset, value);
    }

    /// Byte of OAM (0 past its end).
    pub fn read_oam_byte(&self, offset: usize) -> (r: u8)
        ensures
            r == crate::ppu::mode4::byte_or_zero(self.oam@, offset as int),
    {
        mode4::read_byte_or_zero(self.oam.as_slice(), offset)
    }

    /// Writes a byte of OAM (ignored past its end).
    pub fn write_oam_byte(&mut self, offset: usize, value: u8)
        ensures
            *final(self) == (PPU { oam: final(self).oam, ..*old(self) }),
            final(self).oam@ == crate::memory::updated(old(self).oam@, offset as int, value),
    {
        crate::memory::set_if_in(&mut self.oam, offset, value);
    }

    /// Little-endian halfword of OAM (0 unless both bytes are inside).
    pub fn read_oam_halfword(&self, offset: usize) -> (r: u16)
        ensures
            r == halfword_at(self.oam@, offset as int),
    {
        mode3::read_halfword_or_zero(self.oam.as_slice(), offset)
    }

    /// Writes a little-endian halfword of OAM when both bytes are inside it.
    pub fn write_oam_halfword(&mut self, offset: usize, value: u16)
        ensures
            *final(self) == (PPU { oam: final(self).oam, ..*old(self) }),
            final(self).oam@ == halfword_written(old(self).oam@, offset as int, value),
    {
        write_halfword_in(&mut self.oam, offset, value);
    }

    /// Attributes of sprite `index` (a disabled sprite past 127).
    pub fn read_sprite(&self, index: usize) -> (r: SpriteAttribute)
        requires
            self.oam@.len() == 0x400,
        ensures
            r == (if index < 128 {
                sprite_from_bytes(self.oam@.subrange(index * 8, index * 8 + 6))
            } else {
                disabled_sprite()
            }),
    {
        if index < OAM_SPRITE_COUNT {
            let offset = index * 8;
            SpriteAttribute::from_oam_bytes(vstd::slice::slice_subrange(self.oam.as_slice(), offset, offset + 6))
        } else {
            SpriteAttribute::default()
        }
    }

    /// The frame buffer, row by row.
    pub fn framebuffer(&self) -> (r: &[u16])
        ensures
            r@ == self.framebuffer@,
    {
        self.framebuffer.as_slice()
    }
}

/// `v` after a little-endian halfword write at `off`, which only happens when
/// both bytes are inside it.
pub open spec fn halfword_written(v: Seq<u8>, off: int, value: u16) -> Seq<u8> {
    if 0 <= off && off + 1 < v.len() {
        v.update(off, (value % 256) as u8).update(off + 1, (value / 256) as u8)
    } else {
        v
    }
}

/// Writes a little-endian halfword at `off` when both bytes are inside `v`.
fn write_halfword_in(v: &mut Vec<u8>, off: usize, value: u16)
    ensures
        final(v)@ == halfword_written(old(v)@, off as int, value),
{
    if off < v.len() && off + 1 < v.len() {
        proof {
            crate::bits::lemma_u16_bytes(value);
        }
        v.set(off, (value & 0xFF) as u8);
        v.set(off + 1, ((value >> 8) & 0xFF) as u8);
    }
}

/// A halfword written to palette RAM or OAM reads back when both of its
/// bytes are inside the buffer.
pub proof fn lemma_halfword_write_read(v: Seq<u8>, off: int, value: u16)
    requires
        0 <= off,
        off + 1 < v.len(),
    ensures
        halfword_at(halfword_written(v, off, value), off) == value,
{
}

/// A register write reads back: DISPCNT whole, the background controls
/// without their unused bits, the scroll offsets as 9-bit values, BLDCNT
/// as its fourteen used bits.
pub proof fn lemma_register_write_read(p: PPU, addr: u32, value: u16, q: PPU)
    requires
        p.register_written(addr, value, q),
    ensures
        addr == DISPCNT ==> q.read_register_spec(addr) == value,
        (addr == BG0CNT || addr == BG1CNT || addr == BG2CNT || addr == BG3CNT) ==> q.read_register_spec(addr)
            == value & 0xFFCF,
        (addr == BG0HOFS || addr == BG1HOFS || addr == BG2HOFS || addr == BG3HOFS || addr == BG0VOFS
            || addr == BG1VOFS || addr == BG2VOFS || addr == BG3VOFS) ==> q.read_register_spec(addr)
            == value & 0x1FF,
        addr == BLDCNT ==> q.read_register_spec(addr) == value & 0x3FFF,
{
    crate::ppu::types::lemma_bg_control_round_trip(value, BgControl::from_spec(value));
    crate::ppu::blending::lemma_blend_control_round_trip(value);
}

impl PPU {
    /// The value `read_register` gives for `addr`.
    pub open spec fn read_register_spec(self, addr: u32) -> u16 {
        if addr == DISPCNT {
            self.dispcnt
        } else if addr == DISPSTAT {
            self.dispstat | (if self.scanline >= 160 {
                1u16
            } else {
                0u16
            })
        } else if addr == VCOUNT {
            self.scanline
        } else if addr == BG0CNT {
            self.bg_control@[0].to_spec()
        } else if addr == BG1CNT {
            self.bg_control@[1].to_spec()
        } else if addr == BG2CNT {
            self.bg_control@[2].to_spec()
        } else if addr == BG3CNT {
            self.bg_control@[3].to_spec()
        } else if addr == BG0HOFS {
            self.bg_hofs@[0]
        } else if addr == BG0VOFS {
            self.bg_vofs@[0]
        } else if addr == BG1HOFS {
            self.bg_hofs@[1]
        } else if addr == BG1VOFS {
            self.bg_vofs@[1]
        } else if addr == BG2HOFS {
            self.bg_hofs@[2]
        } else if addr == BG2VOFS {
            self.bg_vofs@[2]
        } else if addr == BG3HOFS {
            self.bg_hofs@[3]
        } else if addr == BG3VOFS {
            self.bg_vofs@[3]
        } else if addr == BLDCNT {
            self.blend_control.to_spec()
        } else if addr == BLDALPHA {
            (self.alpha_coefficients.eva as u16) | ((self.alpha_coefficients.evb as u16) << 8)
        } else {
            0
        }
    }
}

impl Default for PPU {
    fn default() -> (r: Self)
        ensures
            r.wf(),
    {
        Self::new()
    }
}

} // verus!
