use vstd::prelude::*;

verus! {

pub const SCREEN_WIDTH: usize = 240;
pub const SCREEN_HEIGHT: usize = 160;

/// LCD I/O registers.
pub const DISPCNT: u32 = 0x04000000;
pub const DISPSTAT: u32 = 0x04000004;
pub const VCOUNT: u32 = 0x04000006;

/// Background control registers.
pub const BG0CNT: u32 = 0x04000008;
pub const BG1CNT: u32 = 0x0400000A;
pub const BG2CNT: u32 = 0x0400000C;
pub const BG3CNT: u32 = 0x0400000E;

/// Background scroll registers.
pub const BG0HOFS: u32 = 0x04000010;
pub const BG0VOFS: u32 = 0x04000012;
pub const BG1HOFS: u32 = 0x04000014;
pub const BG1VOFS: u32 = 0x04000016;
pub const BG2HOFS: u32 = 0x04000018;
pub const BG2VOFS: u32 = 0x0400001A;
pub const BG3HOFS: u32 = 0x0400001C;
pub const BG3VOFS: u32 = 0x0400001E;

/// Window registers.
pub const WIN0H: u32 = 0x04000040;
pub const WIN1H: u32 = 0x04000042;
pub const WIN0V: u32 = 0x04000044;
pub const WIN1V: u32 = 0x04000046;
pub const WININ: u32 = 0x04000048;
pub const WINOUT: u32 = 0x0400004A;

/// Blending registers.
pub const BLDCNT: u32 = 0x04000050;
pub const BLDALPHA: u32 = 0x04000052;
pub const BLDY: u32 = 0x04000054;

/// Palette RAM: 512 bytes of background colours, then 512 of object colours.
pub const PALETTE_RAM_SIZE: usize = 0x400;
pub const BG_PALETTE_SIZE: usize = 0x200;
pub const OBJ_PALETTE_OFFSET: usize = 0x200;

/// Object attribute memory: 128 entries of 8 bytes.
pub const OAM_SIZE: usize = 0x400;
pub const OAM_SPRITE_COUNT: usize = 128;

/// Object tiles in VRAM start at 0x06010000.
pub const OBJ_TILE_BASE: usize = 0x10000;

/// Timing.
pub const CYCLES_PER_SCANLINE: u32 = 1232;
pub const SCANLINES_TOTAL: u16 = 228;
pub const VISIBLE_SCANLINES: u16 = 160;

} // verus!
