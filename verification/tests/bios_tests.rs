use gba::bios::{
    cpu_set, div, lz77_uncomp, rl_uncomp, soft_reset, sqrt, Bios, CPUSET_32BIT, CPUSET_FILL, SWI_ARCTAN,
    SWI_ARCTAN2, SWI_CPU_SET, SWI_DIV, SWI_HALT, SWI_INTR_WAIT, SWI_LZ77_UNCOMP_WRAM,
    SWI_RL_UNCOMP_WRAM, SWI_SOFT_RESET, SWI_SQRT, SWI_STOP, SWI_VBLANK_INTR_WAIT,
};
use std::cell::RefCell;

#[test]
fn test_bios_creation() {
    let bios = Bios::new();
    assert!(!bios.is_halted());
    assert!(!bios.is_waiting());
}

#[test]
fn test_bios_reset() {
    let mut bios = Bios::new();
    bios.halted = true;
    bios.waiting_for_interrupt = true;
    bios.reset();
    assert!(!bios.is_halted());
    assert!(!bios.is_waiting());
}

#[test]
fn test_bios_halt() {
    let mut bios = Bios::new();
    let (should_halt, should_wait) = bios.handle_swi(SWI_HALT);
    assert!(should_halt);
    assert!(!should_wait);
    assert!(bios.is_halted());
}

#[test]
fn test_bios_stop() {
    let mut bios = Bios::new();
    let (should_halt, should_wait) = bios.handle_swi(SWI_STOP);
    assert!(should_halt);
    assert!(!should_wait);
    assert!(bios.is_halted());
}

#[test]
fn test_bios_vblank_wait() {
    let mut bios = Bios::new();
    let (should_halt, should_wait) = bios.handle_swi(SWI_VBLANK_INTR_WAIT);
    assert!(!should_halt);
    assert!(should_wait);
    assert!(bios.is_waiting());
}

#[test]
fn test_bios_intr_wait() {
    let mut bios = Bios::new();
    let (should_halt, should_wait) = bios.handle_swi(SWI_INTR_WAIT);
    assert!(!should_halt);
    assert!(should_wait);
    assert!(bios.is_waiting());
}

#[test]
fn test_bios_clear_halt() {
    let mut bios = Bios::new();
    bios.halted = true;
    bios.clear_halt();
    assert!(!bios.is_halted());
}

#[test]
fn test_bios_clear_wait() {
    let mut bios = Bios::new();
    bios.waiting_for_interrupt = true;
    bios.clear_wait();
    assert!(!bios.is_waiting());
}

#[test]
fn test_div_normal() {
    let result = div(10, 3);
    assert_eq!(result.quotient, 3);
    assert_eq!(result.remainder, 1);
    assert_eq!(result.abs_quotient, 3);
}

#[test]
fn test_div_negative() {
    let result = div(-10, 3);
    assert_eq!(result.quotient, -3);
    assert_eq!(result.remainder, -1);
    assert_eq!(result.abs_quotient, 3);
}

#[test]
fn test_div_by_zero() {
    let result = div(10, 0);
    assert_eq!(result.quotient, i32::MAX);
    assert_eq!(result.remainder, 10);
    let result_neg = div(-10, 0);
    assert_eq!(result_neg.quotient, i32::MIN);
    assert_eq!(result_neg.remainder, -10);
}

#[test]
fn test_sqrt_perfect() {
    let result = sqrt(16);
    assert_eq!(result.result, 4);
    let result = sqrt(64);
    assert_eq!(result.result, 8);
}

#[test]
fn test_sqrt_imperfect() {
    let result = sqrt(10);
    assert_eq!(result.result, 3);
    let result = sqrt(50);
    assert_eq!(result.result, 7);
}

#[test]
fn test_swi_constants() {
    assert_eq!(SWI_SOFT_RESET, 0x00);
    assert_eq!(SWI_HALT, 0x02);
    assert_eq!(SWI_VBLANK_INTR_WAIT, 0x05);
    assert_eq!(SWI_DIV, 0x06);
    assert_eq!(SWI_SQRT, 0x08);
    assert_eq!(SWI_ARCTAN, 0x09);
    assert_eq!(SWI_ARCTAN2, 0x0A);
    assert_eq!(SWI_CPU_SET, 0x0B);
    assert_eq!(SWI_LZ77_UNCOMP_WRAM, 0x11);
    assert_eq!(SWI_RL_UNCOMP_WRAM, 0x14);
}

#[test]
fn test_cpuset_flags() {
    assert_eq!(CPUSET_FILL, 1 << 24);
    assert_eq!(CPUSET_32BIT, 1 << 26);
}

#[test]
fn test_soft_reset_no_panic() {
    soft_reset();
}

#[test]
fn test_bios_unknown_swi() {
    let mut bios = Bios::new();
    let (should_halt, should_wait) = bios.handle_swi(0xFF);
    assert!(!should_halt);
    assert!(!should_wait);
}

#[test]
fn bios_div_identity_on_mixed_signs() {
    for (n, d) in [(7, -2), (-7, -2), (-7, 2), (i32::MAX, 7), (i32::MIN, 3)] {
        let r = div(n, d);
        assert_eq!(r.quotient as i64 * d as i64 + r.remainder as i64, n as i64);
        assert!(r.remainder.abs() < d.abs());
    }
    let r = div(7, -2);
    assert_eq!((r.quotient, r.remainder, r.abs_quotient), (-3, 1, 3));
}

#[test]
fn bios_sqrt_bounds() {
    assert_eq!(sqrt(0).result, 0);
    assert_eq!(sqrt(u32::MAX).result, 65535);
    assert_eq!(sqrt(65535 * 65535).result, 65535);
    assert_eq!(sqrt(65535 * 65535 - 1).result, 65534);
}

#[test]
fn bios_cpu_set_copy_addresses() {
    let log = RefCell::new(Vec::new());
    let access = |a: u32| {
        log.borrow_mut().push(a);
        0u32
    };
    cpu_set(0x0200_0000, 0x0300_0000, 3 | CPUSET_32BIT, access, access);
    assert_eq!(
        log.into_inner(),
        vec![0x0200_0000, 0x0300_0000, 0x0200_0004, 0x0300_0004, 0x0200_0008, 0x0300_0008]
    );
}

#[test]
fn bios_rl_uncomp_writes_every_output_byte() {
    // header: size 5; a literal run of 2 bytes, then a run of 3 copies
    let data: Vec<u8> = vec![0x30, 5, 0, 0, 0x01, 0xAA, 0xBB, 0x80, 0xCC];
    let log = RefCell::new(Vec::new());
    let access = |a: u32| {
        log.borrow_mut().push(a);
        data.get(a as usize).copied().unwrap_or(0)
    };
    rl_uncomp(0, 0x100, access, access);
    assert_eq!(log.into_inner(), vec![0, 1, 2, 3, 4, 0x100, 0x101, 7, 8, 0x102, 0x103, 0x104]);
}

#[test]
fn bios_lz77_uncomp_writes_every_output_byte() {
    // header: size 4; flags: a literal, then a back-reference of length 3
    let data: Vec<u8> = vec![0x10, 4, 0, 0, 0x40, 0x41, 0x00, 0x00];
    let log = RefCell::new(Vec::new());
    let access = |a: u32| {
        log.borrow_mut().push(a);
        data.get(a as usize).copied().unwrap_or(0)
    };
    lz77_uncomp(0, 0x200, access, access);
    assert_eq!(log.into_inner(), vec![0, 1, 2, 3, 4, 0x200, 6, 7, 0x201, 0x202, 0x203]);
}

#[test]
fn bios_rl_uncomp_output_wraps_at_address_end() {
    // header: size 2; a run of copies cut to the 2 bytes asked for
    let data: Vec<u8> = vec![0x30, 2, 0, 0, 0x81, 0x55];
    let log = RefCell::new(Vec::new());
    let access = |a: u32| {
        log.borrow_mut().push(a);
        data.get(a as usize).copied().unwrap_or(0)
    };
    rl_uncomp(0, 0xFFFF_FFFF, access, access);
    assert_eq!(log.into_inner(), vec![0, 1, 2, 3, 4, 5, 0xFFFF_FFFF, 0]);
}
