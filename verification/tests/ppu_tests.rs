use gba::ppu::affine::{render_affine_scanline, transform_point, AffineMatrix, AffineParams};
use gba::ppu::blending::{
    alpha_blend, brightness_decrease, brightness_increase, AlphaCoefficients, BlendControl, BlendMode,
};
use gba::ppu::constants::{PALETTE_RAM_SIZE, SCREEN_HEIGHT, SCREEN_WIDTH};
use gba::ppu::mode4::render_mode4_scanline;
use gba::ppu::mode5::{render_mode5_scanline, MODE5_HEIGHT, MODE5_WIDTH};
use gba::ppu::windows::{WindowBounds, WindowControl, Windows};

#[test]
fn test_identity_matrix() {
    let matrix = AffineMatrix::identity();
    assert_eq!(matrix.pa, 0x0100); // 1.0
    assert_eq!(matrix.pb, 0);
    assert_eq!(matrix.pc, 0);
    assert_eq!(matrix.pd, 0x0100); // 1.0
}

#[test]
fn test_transform_identity() {
    let params = AffineParams {
        matrix: AffineMatrix::identity(),
        ref_x: 0,
        ref_y: 0,
    };

    let (bg_x, bg_y) = transform_point(10, 20, &params);
    // Identity: output = input (in 8.8 fixed-point)
    assert_eq!(bg_x, 10 << 8);
    assert_eq!(bg_y, 20 << 8);
}

#[test]
fn test_wraparound() {
    let mut framebuffer = vec![0u16; 240 * 160];
    let vram = vec![0u8; 0x18000];
    let palette_ram = vec![0u8; 512];

    let params = AffineParams::new();

    // Render with wraparound enabled
    render_affine_scanline(
        &mut framebuffer,
        0,
        240,
        256,  // BG size
        true, // wraparound
        &vram,
        &palette_ram,
        0,
        0,
        &params,
    );

    // Should complete without panic (out-of-bounds wraps)
}

#[test]
fn test_bg_sizes() {
    let sizes = [128, 256, 512, 1024];

    for &size in &sizes {
        let tiles_per_row = size / 8;
        assert_eq!(tiles_per_row * 8, size);
    }
}

#[test]
fn test_reference_point() {
    // Reference point shifts the transformation center
    let params1 = AffineParams {
        matrix: AffineMatrix::identity(),
        ref_x: 100 << 8,
        ref_y: 50 << 8,
    };

    let (bg_x, bg_y) = transform_point(100, 50, &params1);
    // At reference point, output should be 0
    assert_eq!(bg_x, 0);
    assert_eq!(bg_y, 0);

    let (bg_x2, bg_y2) = transform_point(110, 60, &params1);
    // Offset from reference
    assert_eq!(bg_x2 >> 8, 10);
    assert_eq!(bg_y2 >> 8, 10);
}

#[test]
fn test_tile_addressing() {
    // Verify tile coordinate calculation
    let bg_size = 256;
    let final_x = 100;
    let final_y = 80;

    let tile_x = final_x / 8;
    let tile_y = final_y / 8;
    let tiles_per_row = bg_size / 8;

    assert_eq!(tile_x, 12);
    assert_eq!(tile_y, 10);
    assert_eq!(tiles_per_row, 32);

    let screen_addr = tile_y * tiles_per_row + tile_x;
    assert_eq!(screen_addr, 10 * 32 + 12);
}

#[test]
fn test_pixel_within_tile() {
    let final_x = 77; // Tile 9, pixel 5
    let final_y = 66; // Tile 8, pixel 2

    let pixel_x = final_x % 8;
    let pixel_y = final_y % 8;

    assert_eq!(pixel_x, 5);
    assert_eq!(pixel_y, 2);
}

#[test]
fn test_negative_coordinates_wraparound() {
    let bg_size = 256i32;
    let bg_x: i32 = -10;
    let bg_y: i32 = -20;

    let wrapped_x = bg_x.rem_euclid(bg_size) as usize;
    let wrapped_y = bg_y.rem_euclid(bg_size) as usize;

    assert_eq!(wrapped_x, 246);
    assert_eq!(wrapped_y, 236);
}

#[test]
fn test_blend_mode_parsing() {
    assert_eq!(BlendMode::from_u16(0b00000000), BlendMode::Disabled);
    assert_eq!(BlendMode::from_u16(0b01000000), BlendMode::AlphaBlend);
    assert_eq!(
        BlendMode::from_u16(0b10000000),
        BlendMode::BrightnessIncrease
    );
    assert_eq!(
        BlendMode::from_u16(0b11000000),
        BlendMode::BrightnessDecrease
    );
}

#[test]
fn test_blend_control_parsing() {
    // Binary: 0b0010001101000011
    // Mode (bits 6-7): 01 = Alpha blend
    // Target1 (bits 0-5): 0b000011 = BG0, BG1
    // Target2 (bits 8-13): 0b001001 = BG0, BG3
    let ctrl = BlendControl::from_u16(0b0010010101000011);
    assert_eq!(ctrl.mode, BlendMode::AlphaBlend);
    // Target 1: BG0, BG1
    assert!(ctrl.bg0_target1);
    assert!(ctrl.bg1_target1);
    assert!(!ctrl.bg2_target1);
    // Target 2: BG0, BG2
    assert!(ctrl.bg0_target2);
    assert!(!ctrl.bg1_target2);
    assert!(ctrl.bg2_target2);

    assert_eq!(ctrl.to_u16(), 0b0010010101000011);
}

#[test]
fn test_alpha_coefficients() {
    let coeff = AlphaCoefficients::from_u16(0x0A08);
    assert_eq!(coeff.eva, 8);
    assert_eq!(coeff.evb, 10);
    assert_eq!(coeff.to_u16(), 0x0A08);

    // Clamping to 16
    let coeff = AlphaCoefficients::from_u16(0x1F1F);
    assert_eq!(coeff.eva, 16);
    assert_eq!(coeff.evb, 16);
}

#[test]
fn test_alpha_blend_50_50() {
    // Red (0x001F) + Blue (0x7C00) with EVA=8, EVB=8 (50%/50%)
    let red = 0x001F;
    let blue = 0x7C00;
    let result = alpha_blend(red, blue, 8, 8);

    // Expected: (31*8 + 0*8)/16 = 15 for red
    //           (0*8 + 31*8)/16 = 15 for blue
    let expected_r = 15;
    let expected_b = 15;
    assert_eq!(result & 0x1F, expected_r);
    assert_eq!((result >> 10) & 0x1F, expected_b);
}

#[test]
fn test_alpha_blend_75_25() {
    // Green (0x03E0) + Red (0x001F) with EVA=12, EVB=4 (75%/25%)
    let green = 0x03E0;
    let red = 0x001F;
    let result = alpha_blend(green, red, 12, 4);

    // Red: (0*12 + 31*4)/16 = 7
    // Green: (31*12 + 0*4)/16 = 23
    assert_eq!(result & 0x1F, 7);
    assert_eq!((result >> 5) & 0x1F, 23);
}

#[test]
fn test_brightness_increase() {
    // Black to white
    let black = 0x0000;
    let result = brightness_increase(black, 16); // Max brightness
    assert_eq!(result, 0x7FFF); // White

    // Half brightness
    let result = brightness_increase(black, 8);
    // (0 + (31 - 0) * 8 / 16) = 15
    assert_eq!(result & 0x1F, 15);
    assert_eq!((result >> 5) & 0x1F, 15);
    assert_eq!((result >> 10) & 0x1F, 15);

    // Already white - no change
    let white = 0x7FFF;
    let result = brightness_increase(white, 16);
    assert_eq!(result, white);
}

#[test]
fn test_brightness_decrease() {
    // White to black
    let white = 0x7FFF;
    let result = brightness_decrease(white, 16); // Max darkness
    assert_eq!(result, 0x0000); // Black

    // Half darkness
    let result = brightness_decrease(white, 8);
    // (31 - 31 * 8 / 16) = 16 (integer rounding)
    assert_eq!(result & 0x1F, 16);
    assert_eq!((result >> 5) & 0x1F, 16);
    assert_eq!((result >> 10) & 0x1F, 16);

    // Already black - no change
    let black = 0x0000;
    let result = brightness_decrease(black, 16);
    assert_eq!(result, black);
}

#[test]
fn test_brightness_gradient() {
    let color = 0x03E0; // Green

    // EVY=0 should not change color
    assert_eq!(brightness_increase(color, 0), color);
    assert_eq!(brightness_decrease(color, 0), color);

    // EVY=16 should go to white/black
    assert_eq!(brightness_increase(color, 16), 0x7FFF);
    assert_eq!(brightness_decrease(color, 16), 0x0000);
}

#[test]
fn test_alpha_blend_no_overflow() {
    // Max values should not overflow
    let white = 0x7FFF;
    let result = alpha_blend(white, white, 16, 16);
    assert_eq!(result, white); // Should clamp to white

    // Test individual channels don't exceed 31
    let result = alpha_blend(0x7FFF, 0x7FFF, 16, 16);
    assert!((result & 0x1F) <= 31);
    assert!(((result >> 5) & 0x1F) <= 31);
    assert!(((result >> 10) & 0x1F) <= 31);
}

#[test]
fn test_mode4_basic_render() {
    let mut framebuffer = vec![0u16; SCREEN_WIDTH * SCREEN_HEIGHT];
    let mut vram = vec![0u8; 0x18000]; // 96KB VRAM
    let mut palette_ram = vec![0u8; PALETTE_RAM_SIZE];

    // Setup palette: index 1 = red (0x001F), index 2 = green (0x03E0)
    palette_ram[2] = 0x1F; // Red low byte
    palette_ram[3] = 0x00; // Red high byte
    palette_ram[4] = 0xE0; // Green low byte
    palette_ram[5] = 0x03; // Green high byte

    // Draw some pixels on scanline 0 (frame 0)
    vram[0] = 1; // Pixel 0 = red
    vram[1] = 2; // Pixel 1 = green
    vram[100] = 1; // Pixel 100 = red

    render_mode4_scanline(&mut framebuffer, &vram, &palette_ram, 0, false);

    assert_eq!(framebuffer[0], 0x001F); // Red
    assert_eq!(framebuffer[1], 0x03E0); // Green
    assert_eq!(framebuffer[100], 0x001F); // Red
    assert_eq!(framebuffer[2], 0); // Black (index 0)
}

#[test]
fn test_mode4_page_flip() {
    let mut framebuffer = vec![0u16; SCREEN_WIDTH * SCREEN_HEIGHT];
    let mut vram = vec![0u8; 0x18000];
    let mut palette_ram = vec![0u8; PALETTE_RAM_SIZE];

    // Setup blue color (index 1)
    palette_ram[2] = 0x00;
    palette_ram[3] = 0x7C; // 0x7C00 = blue

    // Frame 0: pixel at (0,0)
    vram[0] = 1;

    // Frame 1: pixel at (0,0) - offset 0xA000
    vram[0xA000] = 1;

    // Render frame 0
    render_mode4_scanline(&mut framebuffer, &vram, &palette_ram, 0, false);
    assert_eq!(framebuffer[0], 0x7C00); // Blue from frame 0

    // Clear and render frame 1
    framebuffer.fill(0);
    render_mode4_scanline(&mut framebuffer, &vram, &palette_ram, 0, true);
    assert_eq!(framebuffer[0], 0x7C00); // Blue from frame 1
}

#[test]
fn test_mode4_256_colors() {
    let mut framebuffer = vec![0u16; SCREEN_WIDTH * SCREEN_HEIGHT];
    let mut vram = vec![0u8; 0x18000];
    let mut palette_ram = vec![0u8; PALETTE_RAM_SIZE];

    // Setup 256-color palette (gradient)
    for i in 0..256 {
        let color = (i as u16) | ((i as u16) << 5) | ((i as u16) << 10);
        palette_ram[i * 2] = (color & 0xFF) as u8;
        palette_ram[i * 2 + 1] = ((color >> 8) & 0xFF) as u8;
    }

    // Draw gradient on scanline 0
    for x in 0..SCREEN_WIDTH {
        vram[x] = (x % 256) as u8;
    }

    render_mode4_scanline(&mut framebuffer, &vram, &palette_ram, 0, false);

    // Verify gradient
    for x in 0..SCREEN_WIDTH {
        let expected_index = (x % 256) as u16;
        let expected_color = expected_index | (expected_index << 5) | (expected_index << 10);
        assert_eq!(framebuffer[x], expected_color);
    }
}

#[test]
fn test_mode4_scanline_offset() {
    let mut framebuffer = vec![0u16; SCREEN_WIDTH * SCREEN_HEIGHT];
    let mut vram = vec![0u8; 0x18000];
    let mut palette_ram = vec![0u8; PALETTE_RAM_SIZE];

    // White color (index 255)
    palette_ram[510] = 0xFF;
    palette_ram[511] = 0x7F; // 0x7FFF = white

    // Pixel at scanline 50, x=100
    vram[50 * SCREEN_WIDTH + 100] = 255;

    render_mode4_scanline(&mut framebuffer, &vram, &palette_ram, 50, false);

    assert_eq!(framebuffer[50 * SCREEN_WIDTH + 100], 0x7FFF); // White
}

#[test]
fn test_mode5_basic_render() {
    let mut framebuffer = vec![0u16; SCREEN_WIDTH * SCREEN_HEIGHT];
    let mut vram = vec![0u8; 0x18000];

    // Red pixel at (0,0) - offset by 40 pixels due to centering
    vram[0] = 0x1F; // Red low byte
    vram[1] = 0x00; // Red high byte

    // Green pixel at (1,0)
    vram[2] = 0xE0; // Green low byte
    vram[3] = 0x03; // Green high byte

    render_mode5_scanline(&mut framebuffer, &vram, 0, false);

    let x_offset = (SCREEN_WIDTH - MODE5_WIDTH) / 2;
    assert_eq!(framebuffer[x_offset], 0x001F); // Red
    assert_eq!(framebuffer[x_offset + 1], 0x03E0); // Green
    assert_eq!(framebuffer[0], 0); // Left border black
    assert_eq!(framebuffer[SCREEN_WIDTH - 1], 0); // Right border black
}

#[test]
fn test_mode5_page_flip() {
    let mut framebuffer = vec![0u16; SCREEN_WIDTH * SCREEN_HEIGHT];
    let mut vram = vec![0u8; 0x18000];

    // Frame 0: blue at (0,0)
    vram[0] = 0x00;
    vram[1] = 0x7C; // 0x7C00 = blue

    // Frame 1: white at (0,0) - offset 0xA000
    vram[0xA000] = 0xFF;
    vram[0xA001] = 0x7F; // 0x7FFF = white

    let x_offset = (SCREEN_WIDTH - MODE5_WIDTH) / 2;

    // Render frame 0
    render_mode5_scanline(&mut framebuffer, &vram, 0, false);
    assert_eq!(framebuffer[x_offset], 0x7C00); // Blue

    // Clear and render frame 1
    framebuffer.fill(0);
    render_mode5_scanline(&mut framebuffer, &vram, 0, true);
    assert_eq!(framebuffer[x_offset], 0x7FFF); // White
}

#[test]
fn test_mode5_dimensions() {
    let mut framebuffer = vec![0u16; SCREEN_WIDTH * SCREEN_HEIGHT];
    let mut vram = vec![0u8; 0x18000];

    // Fill entire Mode 5 screen with white
    for y in 0..MODE5_HEIGHT {
        for x in 0..MODE5_WIDTH {
            let addr = (y * MODE5_WIDTH + x) * 2;
            vram[addr] = 0xFF;
            vram[addr + 1] = 0x7F; // White
        }
    }

    // Render first scanline
    render_mode5_scanline(&mut framebuffer, &vram, 0, false);

    let x_offset = (SCREEN_WIDTH - MODE5_WIDTH) / 2;

    // Check borders are black
    assert_eq!(framebuffer[0], 0);
    assert_eq!(framebuffer[x_offset - 1], 0);
    assert_eq!(framebuffer[x_offset + MODE5_WIDTH], 0);
    assert_eq!(framebuffer[SCREEN_WIDTH - 1], 0);

    // Check content is white
    for x in 0..MODE5_WIDTH {
        assert_eq!(framebuffer[x_offset + x], 0x7FFF);
    }
}

#[test]
fn test_mode5_out_of_bounds() {
    let mut framebuffer = vec![0u16; SCREEN_WIDTH * SCREEN_HEIGHT];
    let vram = vec![0u8; 0x18000];

    // Render scanline beyond Mode 5 height (128)
    render_mode5_scanline(&mut framebuffer, &vram, 150, false);

    // Entire line should be black
    for x in 0..SCREEN_WIDTH {
        assert_eq!(framebuffer[150 * SCREEN_WIDTH + x], 0);
    }
}

#[test]
fn test_mode5_centering() {
    // Verify centering calculation
    let x_offset = (SCREEN_WIDTH - MODE5_WIDTH) / 2;
    assert_eq!(x_offset, 40); // (240 - 160) / 2 = 40

    // 40 pixels black border on left
    // 160 pixels content
    // 40 pixels black border on right
    // Total: 240 pixels
    assert_eq!(x_offset + MODE5_WIDTH + x_offset, SCREEN_WIDTH);
}

#[test]
fn test_mode5_gradient() {
    let mut framebuffer = vec![0u16; SCREEN_WIDTH * SCREEN_HEIGHT];
    let mut vram = vec![0u8; 0x18000];

    // Create horizontal gradient on scanline 0
    for x in 0..MODE5_WIDTH {
        let intensity = (x * 31 / MODE5_WIDTH) as u16;
        let color = intensity | (intensity << 5) | (intensity << 10);
        let addr = x * 2;
        vram[addr] = (color & 0xFF) as u8;
        vram[addr + 1] = ((color >> 8) & 0xFF) as u8;
    }

    render_mode5_scanline(&mut framebuffer, &vram, 0, false);

    let x_offset = (SCREEN_WIDTH - MODE5_WIDTH) / 2;

    // Verify gradient (first pixel dark, last pixel bright)
    assert!(framebuffer[x_offset] < framebuffer[x_offset + MODE5_WIDTH - 1]);
}

#[test]
fn test_window_control_parsing() {
    let ctrl = WindowControl::from_u8(0b00101011);
    assert!(ctrl.bg0_enable);
    assert!(ctrl.bg1_enable);
    assert!(!ctrl.bg2_enable);
    assert!(ctrl.bg3_enable);
    assert!(!ctrl.obj_enable);
    assert!(ctrl.blend_enable);

    assert_eq!(ctrl.to_u8(), 0b00101011);
}

#[test]
fn test_window_bounds_normal() {
    let mut bounds = WindowBounds::new();
    bounds.left = 30;
    bounds.right = 100;
    bounds.top = 20;
    bounds.bottom = 80;

    assert!(bounds.contains(50, 50)); // Inside
    assert!(bounds.contains(30, 20)); // Top-left corner
    assert!(!bounds.contains(100, 50)); // Right edge (exclusive)
    assert!(!bounds.contains(50, 80)); // Bottom edge (exclusive)
    assert!(!bounds.contains(10, 50)); // Left of window
    assert!(!bounds.contains(150, 50)); // Right of window
}

#[test]
fn test_window_bounds_wrapped_horizontal() {
    let mut bounds = WindowBounds::new();
    bounds.left = 200;
    bounds.right = 50; // Wrapped
    bounds.top = 20;
    bounds.bottom = 80;

    assert!(bounds.contains(220, 50)); // Right side of wrap
    assert!(bounds.contains(10, 50)); // Left side of wrap
    assert!(!bounds.contains(100, 50)); // Middle (excluded)
}

#[test]
fn test_window_bounds_wrapped_vertical() {
    let mut bounds = WindowBounds::new();
    bounds.left = 30;
    bounds.right = 100;
    bounds.top = 140;
    bounds.bottom = 20; // Wrapped

    assert!(bounds.contains(50, 150)); // Bottom side of wrap
    assert!(bounds.contains(50, 10)); // Top side of wrap
    assert!(!bounds.contains(50, 80)); // Middle (excluded)
}

#[test]
fn test_window_priority() {
    let mut windows = Windows::new();

    // Setup overlapping windows
    windows.win0_enabled = true;
    windows.win0.left = 0;
    windows.win0.right = 100;
    windows.win0.top = 0;
    windows.win0.bottom = 100;
    windows.win0_control.bg0_enable = true;

    windows.win1_enabled = true;
    windows.win1.left = 50;
    windows.win1.right = 150;
    windows.win1.top = 50;
    windows.win1.bottom = 150;
    windows.win1_control.bg1_enable = true;

    windows.winout_control.bg2_enable = true;

    // Inside WIN0 only
    let ctrl = windows.get_control(25, 25, false);
    assert!(ctrl.bg0_enable);
    assert!(!ctrl.bg1_enable);

    // Inside WIN0 and WIN1 overlap - WIN0 wins
    let ctrl = windows.get_control(75, 75, false);
    assert!(ctrl.bg0_enable);
    assert!(!ctrl.bg1_enable);

    // Inside WIN1 only
    let ctrl = windows.get_control(125, 125, false);
    assert!(!ctrl.bg0_enable);
    assert!(ctrl.bg1_enable);

    // Outside all windows - WINOUT
    let ctrl = windows.get_control(200, 200, false);
    assert!(!ctrl.bg0_enable);
    assert!(!ctrl.bg1_enable);
    assert!(ctrl.bg2_enable);
}

#[test]
fn test_horizontal_vertical_parsing() {
    // WIN0H = 0x5020 means right=0x20, left=0x50
    let (left, right) = WindowBounds::from_horizontal(0x5020);
    assert_eq!(left, 0x50);
    assert_eq!(right, 0x20);

    // WIN0V = 0xA040 means bottom=0x40, top=0xA0
    let (top, bottom) = WindowBounds::from_vertical(0xA040);
    assert_eq!(top, 0xA0);
    assert_eq!(bottom, 0x40);
}

/// Scale matrix in 8.8 fixed point, built from floating-point factors.
fn scale_matrix(sx: f32, sy: f32) -> AffineMatrix {
    AffineMatrix { pa: (sx * 256.0) as i16, pb: 0, pc: 0, pd: (sy * 256.0) as i16 }
}

/// Rotation matrix in 8.8 fixed point for an angle in degrees.
fn rotation_matrix(angle: f32) -> AffineMatrix {
    let rad = angle.to_radians();
    let cos = rad.cos();
    let sin = rad.sin();
    AffineMatrix {
        pa: (cos * 256.0) as i16,
        pb: (-sin * 256.0) as i16,
        pc: (sin * 256.0) as i16,
        pd: (cos * 256.0) as i16,
    }
}

#[test]
fn test_transform_scale_2x() {
    let params = AffineParams { matrix: scale_matrix(2.0, 2.0), ref_x: 0, ref_y: 0 };

    let (bg_x, bg_y) = transform_point(10, 20, &params);
    assert_eq!(bg_x >> 8, 20);
    assert_eq!(bg_y >> 8, 40);
}

#[test]
fn test_transform_scale_half() {
    let params = AffineParams { matrix: scale_matrix(0.5, 0.5), ref_x: 0, ref_y: 0 };

    let (bg_x, bg_y) = transform_point(100, 200, &params);
    assert_eq!(bg_x >> 8, 50);
    assert_eq!(bg_y >> 8, 100);
}

#[test]
fn test_transform_rotation_90() {
    let params = AffineParams { matrix: rotation_matrix(90.0), ref_x: 0, ref_y: 0 };

    let (bg_x, bg_y) = transform_point(10, 0, &params);
    assert!((bg_x >> 8).abs() < 2);
    assert!(((bg_y >> 8) - 10).abs() < 2);
}

#[test]
fn test_clipping() {
    let mut framebuffer = vec![0u16; 240 * 160];
    let vram = vec![0u8; 0x18000];
    let palette_ram = vec![0u8; 512];

    let params = AffineParams { matrix: scale_matrix(10.0, 10.0), ref_x: 0, ref_y: 0 };

    render_affine_scanline(
        &mut framebuffer,
        0,
        240,
        256,
        false,
        &vram,
        &palette_ram,
        0,
        0,
        &params,
    );
}

#[test]
fn test_rotation_matrices() {
    let rot_0 = rotation_matrix(0.0);
    assert_eq!(rot_0.pa, 0x0100);
    assert_eq!(rot_0.pd, 0x0100);

    let rot_180 = rotation_matrix(180.0);
    assert!(rot_180.pa < -240);
    assert!(rot_180.pd < -240);

    let rot_270 = rotation_matrix(270.0);
    assert!(rot_270.pa.abs() < 10);
    assert!(rot_270.pc < -240);
}

#[test]
fn affine_reference_point_shifts_origin() {
    let params = AffineParams { matrix: AffineMatrix::identity(), ref_x: 5 << 8, ref_y: -(3 << 8) };
    let (bg_x, bg_y) = transform_point(10, 20, &params);
    assert_eq!(bg_x, 5 << 8);
    assert_eq!(bg_y, 23 << 8);
}

#[test]
fn affine_far_bases_read_as_transparent() {
    let mut framebuffer = vec![0x1234u16; 240 * 160];
    let vram = vec![1u8; 0x18000];
    let mut palette_ram = vec![0u8; 512];
    palette_ram[2] = 0x1F;
    let params = AffineParams::new();
    render_affine_scanline(&mut framebuffer, 3, 240, 256, true, &vram, &palette_ram, usize::MAX - 10, usize::MAX - 10, &params);
    assert!(framebuffer[3 * 240..4 * 240].iter().all(|&c| c == 0));
    render_affine_scanline(&mut framebuffer, 4, 240, 256, false, &vram, &palette_ram, 0, 0, &params);
    assert_eq!(framebuffer[4 * 240], 0x001F);
    assert_eq!(framebuffer[5 * 240], 0x1234);
}
