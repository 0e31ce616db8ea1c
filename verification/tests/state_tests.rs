use gba::bus::Bus;
use gba::cartridge::{Cartridge, CartridgeError};
use gba::cpu::{MemoryBus, ARM7TDMI};
use gba::dma::types::DmaControl;
use gba::dma::DMA;
use gba::input::InputController;
use gba::interrupt::{InterruptController, InterruptFlags, DMA0, HBLANK, TIMER0, VBLANK};
use gba::memory::Memory;
use gba::ppu::blending::{AlphaCoefficients, BlendControl};
use gba::ppu::types::BgControl;
use gba::ppu::windows::WindowControl;
use gba::registers::{Mode, Registers};
use gba::save::types::SaveType;
use gba::save::SaveController;
use gba::timer::registers::TimerControl;

#[test]
fn interrupt_request_then_acknowledge_restores_requests() {
    let mut ic = InterruptController::new();
    ic.request(InterruptFlags::from_bits_truncate(HBLANK));
    let before = ic.if_;
    ic.request(InterruptFlags::from_bits_truncate(VBLANK | TIMER0));
    assert_eq!(ic.if_, HBLANK | VBLANK | TIMER0);
    ic.acknowledge(InterruptFlags::from_bits_truncate(VBLANK | TIMER0));
    assert_eq!(ic.if_, before);
}

#[test]
fn interrupt_pending_needs_master_enable_and_mask() {
    let mut ic = InterruptController::new();
    ic.request(InterruptFlags::from_bits_truncate(DMA0));
    assert!(!ic.pending());
    ic.ie = DMA0;
    assert!(!ic.pending());
    ic.ime = true;
    assert!(ic.pending());
    ic.acknowledge(InterruptFlags::from_bits_truncate(DMA0));
    assert!(!ic.pending());
}

#[test]
fn interrupt_flags_drop_undefined_bits() {
    assert_eq!(InterruptFlags::from_bits_truncate(0xFFFF).bits(), 0x3FFF);
    assert_eq!(InterruptFlags::empty().bits(), 0);
}

#[test]
fn input_press_and_release() {
    let mut input = InputController::new();
    assert_eq!(input.read_keyinput(), 0x03FF);
    input.set_button_a(true);
    input.set_dpad_up(true);
    assert_eq!(input.read_keyinput(), 0x03FF & !0x0001 & !0x0040);
    input.set_button_a(false);
    assert_eq!(input.read_keyinput(), 0x03FF & !0x0040);
    input.set_button_l(true);
    assert_eq!(input.read_keyinput(), 0x03FF & !0x0040 & !0x0200);
}

#[test]
fn memory_write_then_read_in_each_writable_region() {
    let mut mem = Memory::new();
    for &addr in &[0x0200_0010u32, 0x0300_7FFF, 0x0400_0100, 0x0500_0002, 0x0601_7FFF, 0x0700_0000, 0x0E00_1234] {
        mem.write_byte(addr, 0x5A);
        assert_eq!(mem.read_byte(addr), 0x5A);
    }
    mem.write_word(0x0200_0100, 0x1234_5678);
    assert_eq!(mem.read_word(0x0200_0100), 0x1234_5678);
    assert_eq!(mem.read_halfword(0x0200_0102), 0x1234);
    assert_eq!(mem.read_byte(0x0200_0100), 0x78);
}

#[test]
fn memory_rom_is_read_only_and_unmapped_reads_zero() {
    let mut mem = Memory::new();
    mem.load_rom(vec![1, 2, 3, 4]);
    mem.write_byte(0x0800_0000, 0x99);
    assert_eq!(mem.read_byte(0x0800_0000), 1);
    assert_eq!(mem.read_byte(0x0800_0010), 0xFF);
    assert_eq!(mem.read_byte(0x1000_0000), 0);
    mem.write_byte(0x1000_0000, 7);
    assert_eq!(mem.read_byte(0x1000_0000), 0);
}

#[test]
fn bus_display_registers_reach_the_ppu() {
    let mut bus = Bus::new();
    bus.write_halfword(0x0400_0000, 0x0403);
    assert_eq!(bus.ppu.dispcnt, 0x0403);
    assert_eq!(bus.read_halfword(0x0400_0000), 0x0403);
    bus.write_byte(0x0400_0001, 0x01);
    assert_eq!(bus.read_halfword(0x0400_0000), 0x0103);
}

#[test]
fn bus_write_then_read_work_ram() {
    let mut bus = Bus::new();
    bus.write_word(0x0300_0000, 0xDEAD_BEEF);
    assert_eq!(bus.read_word(0x0300_0000), 0xDEAD_BEEF);
    bus.poke_byte(0x0200_0000, 0x42);
    assert_eq!(bus.peek_byte(0x0200_0000), 0x42);
}

#[test]
fn registers_mode_round_trip_restores_visible_registers() {
    let mut regs = Registers::new();
    regs.change_mode(Mode::Supervisor);
    regs.r[13] = 0x0300_7FE0;
    regs.r[14] = 0x0800_0100;
    regs.r[0] = 5;
    let saved = regs.r;
    let cpsr = regs.cpsr;
    regs.change_mode(Mode::IRQ);
    regs.r[13] = 0x0300_7FA0;
    regs.r[14] = 0x1234;
    regs.change_mode(Mode::Supervisor);
    assert_eq!(regs.r, saved);
    assert_eq!(regs.cpsr, cpsr);
    assert_eq!(regs.r13_irq, 0x0300_7FA0);
}

#[test]
fn registers_spsr_reads_back_in_banked_modes() {
    let mut regs = Registers::new();
    regs.set_spsr(0x1234);
    assert_eq!(regs.spsr(), regs.cpsr);
    regs.change_mode(Mode::FIQ);
    regs.set_spsr(0x6000_0010);
    assert_eq!(regs.spsr(), 0x6000_0010);
    assert_eq!(regs.cpsr & 0x1F, 0x11);
}

#[test]
fn cpu_irq_masks_a_second_request() {
    let mut cpu = ARM7TDMI::new();
    cpu.regs.set_pc(0x0800_0000);
    let cpsr = cpu.regs.cpsr;
    cpu.request_interrupt();
    assert_eq!(cpu.regs.mode, Mode::IRQ);
    assert_eq!(cpu.regs.pc(), 0x18);
    assert_eq!(cpu.regs.lr(), 0x0800_0004);
    assert_eq!(cpu.regs.spsr(), cpsr);
    assert!(cpu.regs.cpsr & 0x80 != 0);
    let regs = cpu.regs;
    cpu.request_interrupt();
    assert_eq!(cpu.regs.r, regs.r);
    assert_eq!(cpu.regs.cpsr, regs.cpsr);
}

fn rom_with_header() -> Vec<u8> {
    let mut rom = vec![0u8; 0xC0];
    rom[0xA0..0xA5].copy_from_slice(b"HELLO");
    rom[0xAC..0xB0].copy_from_slice(b"AXYE");
    rom[0xB0] = 0xFF;
    rom[0xB1] = b'1';
    rom[0xBC] = 3;
    rom
}

#[test]
fn cartridge_header_is_decoded() {
    let cart = match Cartridge::from_image(rom_with_header(), None) {
        Ok(c) => c,
        Err(_) => panic!("a full header is accepted"),
    };
    assert_eq!(cart.header.title, "HELLO");
    assert_eq!(cart.header.game_code, "AXYE");
    assert_eq!(cart.header.maker_code, "\u{FFFD}1");
    assert_eq!(cart.header.version, 3);
    assert_eq!(cart.rom.len(), 0xC0);
}

#[test]
fn cartridge_short_image_is_refused() {
    let r = Cartridge::from_image(vec![0u8; 0xBF], None);
    assert!(matches!(r, Err(CartridgeError::InvalidSize)));
}

#[test]
fn save_path_sits_next_to_the_rom() {
    let mut rom = vec![0u8; 64];
    rom[10..16].copy_from_slice(b"SRAM_V");
    let mut save = SaveController::new();
    save.init_from_rom(&rom, Some(String::from("games/quest.gba")));
    assert_eq!(save.save_type(), SaveType::Sram);
    assert_eq!(save.save_path(), Some(&String::from("games/quest.sav")));
    assert!(!save.is_modified());
    save.write_byte(0x0E00_0010, 0x77);
    assert_eq!(save.read_byte(0x0E00_0010), 0x77);
    assert!(save.is_modified());
}

#[test]
fn register_fields_round_trip() {
    assert_eq!(BgControl::from_u16(0xFFFF).to_u16(), 0xFFCF);
    assert_eq!(BlendControl::from_u16(0xFFFF).to_u16(), 0x3FFF);
    assert_eq!(DmaControl::from_u16(0xFFFF).to_u16(), 0xFFE0);
    assert_eq!(TimerControl::from_u16(0xFFFF).to_u16(), 0xC7);
    assert_eq!(WindowControl::from_u8(0xFF).to_u8(), 0x3F);
    let alpha = AlphaCoefficients::from_u16(0x0C04);
    assert_eq!((alpha.eva, alpha.evb), (4, 12));
    assert_eq!(AlphaCoefficients::from_u16(alpha.to_u16()).eva, 4);
    assert_eq!(AlphaCoefficients::from_u16(0x1F1F).eva, 16);
}

#[test]
fn registers_system_stack_survives_an_irq() {
    let mut regs = Registers::new();
    regs.r[13] = 0x0300_7F00;
    regs.r[14] = 0x0800_0123;
    regs.r[8] = 88;
    regs.change_mode(Mode::IRQ);
    regs.r[13] = 0x0300_7FA0;
    regs.r[14] = 0x55;
    regs.change_mode(Mode::FIQ);
    regs.r[8] = 1;
    regs.change_mode(Mode::System);
    assert_eq!(regs.r[13], 0x0300_7F00);
    assert_eq!(regs.r[14], 0x0800_0123);
    assert_eq!(regs.r[8], 88);
    assert_eq!(regs.r13_irq, 0x0300_7FA0);
}

#[test]
fn dma3_zero_count_moves_65536_units() {
    let mut dma = DMA::new();
    dma.write_register(0x040000D4, 0x0200_0000, false);
    dma.write_register(0x040000D8, 0x0300_0000, false);
    dma.write_register(0x040000DC, 0, true);
    dma.write_register(0x040000DE, 0x8000, true);
    let mut calls = 0u32;
    let mut last = (0u32, 0u32);
    let irq = dma.step(|s, d, _| {
        calls += 1;
        last = (s, d);
    });
    assert_eq!(calls, 65536);
    assert_eq!(last, (0x0200_0000 + 2 * 65535, 0x0300_0000 + 2 * 65535));
    assert_eq!(irq, 0);
    assert!(!dma.is_active());
}

#[test]
fn dma_count_write_keeps_the_addresses() {
    let mut dma = DMA::new();
    dma.write_register(0x040000B0, 0x0200_0000, false);
    dma.write_register(0x040000B4, 0x0600_0000, false);
    dma.write_register(0x040000B8, 3, true);
    assert_eq!(dma.read_register(0x040000B0), 0x0200_0000);
    assert_eq!(dma.read_register(0x040000B4), 0x0600_0000);
    assert_eq!(dma.read_register(0x040000B8), 3);
}

fn send(eeprom: &mut gba::save::eeprom::Eeprom, value: u64, bits: u32) {
    for i in (0..bits).rev() {
        eeprom.process_bit((value >> i) & 1 == 1);
    }
}

#[test]
fn eeprom_write_then_read_command_loads_the_block() {
    let mut eeprom = gba::save::eeprom::Eeprom::new(SaveType::Eeprom512B);
    let block: u64 = 0x0123_4567_89AB_CDEF;
    send(&mut eeprom, 0b10_000010, 8);
    assert!(eeprom.writing);
    assert_eq!(eeprom.write_address, 2);
    send(&mut eeprom, block, 64);
    assert!(!eeprom.writing);
    assert_eq!(&eeprom.data()[16..24], &[0x01, 0x23, 0x45, 0x67, 0x89, 0xAB, 0xCD, 0xEF]);
    assert_eq!(eeprom.data()[0], 0xFF);
    send(&mut eeprom, 0b11_000010, 8);
    assert!(eeprom.reading);
    assert_eq!(eeprom.buffer, block);
}

#[test]
fn run_frame_raises_vblank_and_comes_round_to_the_same_line() {
    let mut emu = gba::emulator::GbaEmulator::new();
    emu.run_frame();
    assert!(emu.bus.interrupt.if_ & gba::interrupt::VBLANK != 0);
    assert_eq!(emu.cpu.cycles, 280896);
    assert_eq!((emu.bus.ppu.scanline, emu.bus.ppu.cycles), (0, 0));
}
