use vstd::prelude::*;
use crate::ppu::constants::{OAM_SPRITE_COUNT, OBJ_PALETTE_OFFSET, OBJ_TILE_BASE, PALETTE_RAM_SIZE};
use crate::ppu::mode0::{only_row_changed_w, tile_index};
use crate::ppu::mode3::{halfword_at, read_halfword_or_zero};
use crate::ppu::mode4::read_byte_or_zero;
use crate::ppu::types::bit16;

verus! {

/// Attributes of one sprite (the first six bytes of an OAM entry).
#[derive(Debug, Clone, Copy, PartialEq, Eq, Structural)]
pub struct SpriteAttribute {
    pub y: u8,
    pub obj_mode: u8,
    pub gfx_mode: u8,
    pub mosaic: bool,
    pub palette_256: bool,
    pub shape: u8,
    pub x: u16,
    pub h_flip: bool,
    pub v_flip: bool,
    pub size: u8,
    pub tile_index: u16,
    pub priority: u8,
    pub palette_bank: u8,
}

/// The sprite described by attribute halfwords `a0`, `a1`, `a2`.
pub open spec fn sprite_from_attrs(a0: u16, a1: u16, a2: u16) -> SpriteAttribute {
    SpriteAttribute {
        y: (a0 & 0xFF) as u8,
        obj_mode: ((a0 >> 8) & 0x3) as u8,
        gfx_mode: ((a0 >> 10) & 0x3) as u8,
        mosaic: bit16(a0, 12),
        palette_256: bit16(a0, 13),
        shape: ((a0 >> 14) & 0x3) as u8,
        x: a1 & 0x1FF,
        h_flip: bit16(a1, 12),
        v_flip: bit16(a1, 13),
        size: ((a1 >> 14) & 0x3) as u8,
        tile_index: a2 & 0x3FF,
        priority: ((a2 >> 10) & 0x3) as u8,
        palette_bank: ((a2 >> 12) & 0xF) as u8,
    }
}

/// The sprite that a disabled OAM entry reads as.
pub open spec fn disabled_sprite() -> SpriteAttribute {
    SpriteAttribute {
        y: 0,
        obj_mode: 2,
        gfx_mode: 0,
        mosaic: false,
        palette_256: false,
        shape: 0,
        x: 0,
        h_flip: false,
        v_flip: false,
        size: 0,
        tile_index: 0,
        priority: 0,
        palette_bank: 0,
    }
}

/// The sprite described by the first six bytes of `b` (disabled when `b` is
/// shorter).
pub open spec fn sprite_from_bytes(b: Seq<u8>) -> SpriteAttribute {
    if b.len() < 6 {
        disabled_sprite()
    } else {
        sprite_from_attrs(
            halfword_at(b, 0),
            halfword_at(b, 2),
            halfword_at(b, 4),
        )
    }
}

/// Sprite dimensions in pixels for a shape and size code.
pub open spec fn sprite_size(shape: u8, size: u8) -> (int, int) {
    if shape == 0 {
        if size == 0 {
            (8, 8)
        } else if size == 1 {
            (16, 16)
        } else if size == 2 {
            (32, 32)
        } else if size == 3 {
            (64, 64)
        } else {
            (8, 8)
        }
    } else if shape == 1 {
        if size == 0 {
            (16, 8)
        } else if size == 1 {
            (32, 8)
        } else if size == 2 {
            (32, 16)
        } else if size == 3 {
            (64, 32)
        } else {
            (8, 8)
        }
    } else if shape == 2 {
        if size == 0 {
            (8, 16)
        } else if size == 1 {
            (8, 32)
        } else if size == 2 {
            (16, 32)
        } else if size == 3 {
            (32, 64)
        } else {
            (8, 8)
        }
    } else {
        (8, 8)
    }
}

/// The GBA OBJ size table: square sprites (shape 0) are 8, 16, 32 or 64
/// pixels a side for size codes 0-3; horizontal sprites (shape 1) are
/// wider than tall, 16x8, 32x8, 32x16 and 64x32; vertical sprites (shape 2)
/// are the horizontal ones turned on their side; a larger size code always
/// covers more pixels.
pub proof fn lemma_sprite_size_table(size: u8)
    requires
        size < 4,
    ensures
        sprite_size(0, size).0 == sprite_size(0, size).1,
        sprite_size(1, size).0 > sprite_size(1, size).1,
        sprite_size(2, size).0 < sprite_size(2, size).1,
        sprite_size(2, size) == (sprite_size(1, size).1, sprite_size(1, size).0),
        size < 3 ==> forall|shape: u8|
            shape < 3 ==> sprite_size(shape, size).0 * sprite_size(shape, size).1 < #[trigger] sprite_size(
                shape,
                (size + 1) as u8,
            ).0 * sprite_size(shape, (size + 1) as u8).1,
        sprite_size(0, size).0 == (if size == 0 {
            8int
        } else if size == 1 {
            16int
        } else if size == 2 {
            32int
        } else {
            64int
        }),
        sprite_size(1, size) == (if size == 0 {
            (16int, 8int)
        } else if size == 1 {
            (32int, 8int)
        } else if size == 2 {
            (32int, 16int)
        } else {
            (64int, 32int)
        }),
{
    if size < 3 {
        assert forall|shape: u8|
            shape < 3 implies sprite_size(shape, size).0 * sprite_size(shape, size).1 < #[trigger] sprite_size(
            shape,
            (size + 1) as u8,
        ).0 * sprite_size(shape, (size + 1) as u8).1 by {
            if size == 0 {
                assert((size + 1) as u8 == 1);
            } else if size == 1 {
                assert((size + 1) as u8 == 2);
            } else {
                assert((size + 1) as u8 == 3);
            }
        }
    }
}

impl SpriteAttribute {
    /// Reads a sprite from OAM bytes; fewer than six bytes give a disabled
    /// sprite.
    pub fn from_oam_bytes(bytes: &[u8]) -> (r: Self)
        ensures
            r == sprite_from_bytes(bytes@),
    {
        if bytes.len() < 6 {
            return Self::default();
        }
        let attr0 = read_halfword_or_zero(bytes, 0);
        let attr1 = read_halfword_or_zero(bytes, 2);
        let attr2 = read_halfword_or_zero(bytes, 4);
        assert(attr0 & 0xFF <= 0xFF && (attr0 >> 8u16) & 0x3 <= 3 && (attr0 >> 10u16) & 0x3 <= 3 && (
        attr0 >> 14u16) & 0x3 <= 3 && (attr1 >> 14u16) & 0x3 <= 3 && (attr2 >> 10u16) & 0x3 <= 3 && (
        attr2 >> 12u16) & 0xF <= 0xF) by (bit_vector);
        SpriteAttribute {
            y: (attr0 & 0xFF) as u8,
            obj_mode: ((attr0 >> 8) & 0x3) as u8,
            gfx_mode: ((attr0 >> 10) & 0x3) as u8,
            mosaic: (attr0 >> 12) & 1 == 1,
            palette_256: (attr0 >> 13) & 1 == 1,
            shape: ((attr0 >> 14) & 0x3) as u8,
            x: attr1 & 0x1FF,
            h_flip: (attr1 >> 12) & 1 == 1,
            v_flip: (attr1 >> 13) & 1 == 1,
            size: ((attr1 >> 14) & 0x3) as u8,
            tile_index: attr2 & 0x3FF,
            priority: ((attr2 >> 10) & 0x3) as u8,
            palette_bank: ((attr2 >> 12) & 0xF) as u8,
        }
    }

    /// Sprite dimensions in pixels (width, height).
    pub fn get_size(&self) -> (r: (usize, usize))
        ensures
            r.0 == sprite_size(self.shape, self.size).0,
            r.1 == sprite_size(self.shape, self.size).1,
            8 <= r.0 <= 64 && 8 <= r.1 <= 64,
    {
        if self.shape == 0 {
            if self.size == 0 {
                (8, 8)
            } else if self.size == 1 {
                (16, 16)
            } else if self.size == 2 {
                (32, 32)
            } else if self.size == 3 {
                (64, 64)
            } else {
                (8, 8)
            }
        } else if self.shape == 1 {
            if self.size == 0 {
                (16, 8)
            } else if self.size == 1 {
                (32, 8)
            } else if self.size == 2 {
                (32, 16)
            } else if self.size == 3 {
                (64, 32)
            } else {
                (8, 8)
            }
        } else if self.shape == 2 {
            if self.size == 0 {
                (8, 16)
            } else if self.size == 1 {
                (8, 32)
            } else if self.size == 2 {
                (16, 32)
            } else if self.size == 3 {
                (32, 64)
            } else {
                (8, 8)
            }
        } else {
            (8, 8)
        }
    }

    /// Whether the sprite is shown (object mode 2 disables it).
    pub fn is_visible(&self) -> (r: bool)
        ensures
            r == (self.obj_mode != 2),
    {
        self.obj_mode != 2
    }
}

impl Default for SpriteAttribute {
    fn default() -> (r: Self)
        ensures
            r == disabled_sprite(),
    {
        SpriteAttribute {
            y: 0,
            obj_mode: 2,
            gfx_mode: 0,
            mosaic: false,
            palette_256: false,
            shape: 0,
            x: 0,
            h_flip: false,
            v_flip: false,
            size: 0,
            tile_index: 0,
            priority: 0,
            palette_bank: 0,
        }
    }
}

/// Colour `index` of the object palette (the second 512 bytes of palette
/// RAM), black past it.
pub open spec fn obj_palette_color(palette: Seq<u8>, index: int) -> u16 {
    if 0x200 + index * 2 + 1 < 0x400 {
        halfword_at(palette, 0x200 + index * 2)
    } else {
        0
    }
}

/// Pixel at screen column x of line `line` drawn by sprite `s`, as
/// (colour, priority), or none where the sprite is hidden, does not cover
/// the pixel (sprites reach columns 0 to 511 only), or is transparent there.
pub open spec fn sprite_pixel(
    s: SpriteAttribute,
    vram: Seq<u8>,
    palette: Seq<u8>,
    line: int,
    x: int,
) -> Option<(u16, u8)> {
    let (w, h) = sprite_size(s.shape, s.size);
    let sy = s.y as int;
    let y_in = if line >= sy {
        line - sy
    } else {
        line + 256 - sy
    };
    let sprite_x = (x - s.x) % 512;
    if s.obj_mode == 2 || x >= 512 || y_in >= h || sprite_x >= w {
        None
    } else {
        let ay = if s.v_flip {
            h - 1 - y_in
        } else {
            y_in
        };
        let ax = if s.h_flip {
            w - 1 - sprite_x
        } else {
            sprite_x
        };
        let tile_offset = if s.palette_256 {
            (ay / 8) * (w / 8) + ax / 8
        } else {
            (ay / 8) * 32 + ax / 8
        };
        let tile_num = s.tile_index + tile_offset;
        let tile_addr = 0x10000 + tile_num * (if s.palette_256 {
            64int
        } else {
            32int
        });
        let index = tile_index(vram, tile_addr, ax % 8, ay % 8, s.palette_256);
        if index == 0 {
            None
        } else {
            Some(
                (
                    if s.palette_256 {
                        obj_palette_color(palette, index)
                    } else {
                        obj_palette_color(palette, s.palette_bank * 16 + index)
                    },
                    s.priority,
                ),
            )
        }
    }
}

/// Sprite `k` of OAM, or a disabled sprite where OAM ends before its six
/// attribute bytes.
pub open spec fn oam_sprite(oam: Seq<u8>, k: int) -> SpriteAttribute {
    if k * 8 + 6 > oam.len() {
        disabled_sprite()
    } else {
        sprite_from_bytes(oam.subrange(k * 8, k * 8 + 6))
    }
}

/// Winning sprite pixel at column x after the sprites k..127 are drawn from
/// the back (127) to the front: a pixel replaces the one before it unless
/// that one has a strictly lower priority number.
pub open spec fn sprite_layer(
    oam: Seq<u8>,
    vram: Seq<u8>,
    palette: Seq<u8>,
    line: int,
    x: int,
    k: int,
) -> (u16, u8, bool)
    decreases 128 - k,
{
    if k >= 128 || k < 0 {
        (0, 4, false)
    } else {
        let prev = sprite_layer(oam, vram, palette, line, x, k + 1);
        match sprite_pixel(oam_sprite(oam, k), vram, palette, line, x) {
            Some((c, p)) => if !prev.2 || p <= prev.1 {
                (c, p, true)
            } else {
                prev
            },
            None => prev,
        }
    }
}

/// Colour `index` of the object palette.
fn read_obj_palette(palette_ram: &[u8], index: usize) -> (r: u16)
    requires
        palette_ram@.len() >= 0x400,
        index < 0x1_0000,
    ensures
        r == obj_palette_color(palette_ram@, index as int),
{
    let addr = OBJ_PALETTE_OFFSET + index * 2;
    if addr + 1 < PALETTE_RAM_SIZE {
        read_halfword_or_zero(palette_ram, addr)
    } else {
        0
    }
}

/// Pixel of sprite `s` at column x of line `line`.
#[verifier::rlimit(50)]
fn sprite_pixel_at(
    s: &SpriteAttribute,
    vram: &[u8],
    palette_ram: &[u8],
    line: usize,
    x: usize,
) -> (r: Option<(u16, u8)>)
    requires
        palette_ram@.len() >= 0x400,
    ensures
        r == sprite_pixel(*s, vram@, palette_ram@, line as int, x as int),
{
    if !s.is_visible() || x >= 512 {
        return None;
    }
    let (w, h) = s.get_size();
    let sy = s.y as usize;
    let y_in = if line >= sy {
        line - sy
    } else {
        line + 256 - sy
    };
    let xm = x % 512;
    let sm = s.x as usize % 512;
    let sprite_x = (xm + 512 - sm) % 512;
    assert(sprite_x == (x - s.x) % 512) by {
        vstd::arithmetic::div_mod::lemma_sub_mod_noop(x as int, s.x as int, 512);
        vstd::arithmetic::div_mod::lemma_mod_add_multiples_vanish(xm - sm, 512);
    }
    if y_in >= h || sprite_x >= w {
        return None;
    }
    let ay = if s.v_flip {
        h - 1 - y_in
    } else {
        y_in
    };
    let ax = if s.h_flip {
        w - 1 - sprite_x
    } else {
        sprite_x
    };
    assert((ay / 8) * (w / 8) <= 64 * 64) by (nonlinear_arith)
        requires
            ay < 64,
            w <= 64,
    ;
    let tile_offset = if s.palette_256 {
        (ay / 8) * (w / 8) + ax / 8
    } else {
        (ay / 8) * 32 + ax / 8
    };
    let tile_num = s.tile_index as usize + tile_offset;
    let tile_addr = OBJ_TILE_BASE + tile_num * (if s.palette_256 {
        64
    } else {
        32
    });
    let index = crate::ppu::mode0::tile_pixel_index(vram, tile_addr, ax % 8, ay % 8, s.palette_256);
    if index == 0 {
        return None;
    }
    let color = if s.palette_256 {
        read_obj_palette(palette_ram, index)
    } else {
        read_obj_palette(palette_ram, s.palette_bank as usize * 16 + index)
    };
    Some((color, s.priority))
}

/// Draws the sprites of OAM onto scanline `line`: each column shows the
/// sprite pixel of lowest priority number (the lower OAM index winning
/// ties), and columns without one keep their colour.
pub fn render_sprites_scanline(
    scanline: usize,
    screen_width: usize,
    oam: &[u8],
    vram: &[u8],
    palette_ram: &[u8],
    framebuffer: &mut [u16],
)
    requires
        (scanline + 1) * screen_width <= old(framebuffer)@.len(),
        palette_ram@.len() >= 0x400,
    ensures
        only_row_changed_w(old(framebuffer)@, final(framebuffer)@, scanline as int, screen_width as int),
        forall|x: int|
            0 <= x < screen_width ==> {
                let px = sprite_layer(oam@, vram@, palette_ram@, scanline as int, x, 0);
                #[trigger] final(framebuffer)@[scanline * screen_width + x] == if px.2 {
                    px.0
                } else {
                    old(framebuffer)@[scanline * screen_width + x]
                }
            },
{
    let mut sprites: Vec<SpriteAttribute> = Vec::new();
    let mut k: usize = 0;
    while k < OAM_SPRITE_COUNT
        invariant
            k <= 128,
            sprites@.len() == k,
            forall|j: int| 0 <= j < k ==> #[trigger] sprites@[j] == oam_sprite(oam@, j),
        decreases 128 - k,
    {
        let offset = k * 8;
        let s = if offset + 6 > oam.len() {
            SpriteAttribute::default()
        } else {
            let bytes = vstd::slice::slice_subrange(oam, offset, offset + 6);
            SpriteAttribute::from_oam_bytes(bytes)
        };
        sprites.push(s);
        k = k + 1;
    }
    let fb_len = framebuffer.len();
    let mut x: usize = 0;
    while x < screen_width
        invariant
            x <= screen_width,
            (scanline + 1) * screen_width <= framebuffer@.len(),
            fb_len == framebuffer@.len(),
            palette_ram@.len() >= 0x400,
            sprites@.len() == 128,
            forall|j: int| 0 <= j < 128 ==> #[trigger] sprites@[j] == oam_sprite(oam@, j),
            only_row_changed_w(
                old(framebuffer)@,
                framebuffer@,
                scanline as int,
                screen_width as int,
            ),
            forall|k: int|
                0 <= k < screen_width ==> {
                    let px = sprite_layer(oam@, vram@, palette_ram@, scanline as int, k, 0);
                    #[trigger] framebuffer@[scanline * screen_width + k] == if k < x && px.2 {
                        px.0
                    } else {
                        old(framebuffer)@[scanline * screen_width + k]
                    }
                },
        decreases screen_width - x,
    {
        let mut acc: (u16, u8, bool) = (0, 4, false);
        let mut i: usize = OAM_SPRITE_COUNT;
        while i > 0
            invariant
                i <= 128,
                palette_ram@.len() >= 0x400,
                sprites@.len() == 128,
                forall|j: int| 0 <= j < 128 ==> #[trigger] sprites@[j] == oam_sprite(oam@, j),
                acc == sprite_layer(oam@, vram@, palette_ram@, scanline as int, x as int, i as int),
            decreases i,
        {
            i = i - 1;
            let s = &sprites[i];
            match sprite_pixel_at(s, vram, palette_ram, scanline, x) {
                Some((color, priority)) => {
                    if !acc.2 || priority <= acc.1 {
                        acc = (color, priority, true);
                    }
                },
                None => {},
            }
        }
        assert(scanline * screen_width + x < fb_len) by (nonlinear_arith)
            requires
                x < screen_width,
                (scanline + 1) * screen_width <= fb_len,
        ;
        let ghost before = framebuffer@;
        let pos = scanline * screen_width + x;
        if acc.2 {
            framebuffer[pos] = acc.0;
        }
        assert forall|k: int| 0 <= k < screen_width && k != x implies #[trigger] framebuffer@[scanline
            * screen_width + k] == before[scanline * screen_width + k] by {
            assert(scanline * screen_width + k != pos);
            assert(0 <= scanline * screen_width + k < fb_len) by (nonlinear_arith)
                requires
                    0 <= k < screen_width,
                    (scanline + 1) * screen_width <= fb_len,
            ;
        }
        x = x + 1;
    }
}

} // verus!
