use gba::cpu::{MemoryBus, ARM7TDMI};
use gba::instructions::load_store::execute_block_data_transfer;
use gba::registers::Registers;
use std::collections::HashMap;

/// Word memory that records every word write.
struct RecordingBus {
    program: Vec<u32>,
    words: HashMap<u32, u32>,
    writes: Vec<(u32, u32)>,
}

impl RecordingBus {
    fn new(program: Vec<u32>) -> Self {
        RecordingBus { program, words: HashMap::new(), writes: Vec::new() }
    }
}

impl MemoryBus for RecordingBus {
    fn read_word(&mut self, addr: u32) -> u32 {
        let idx = (addr / 4) as usize;
        if addr < 0x100 && idx < self.program.len() {
            self.program[idx]
        } else {
            *self.words.get(&addr).unwrap_or(&0)
        }
    }
    fn read_byte(&mut self, _: u32) -> u8 {
        0
    }
    fn read_halfword(&mut self, _: u32) -> u16 {
        0
    }
    fn write_byte(&mut self, _: u32, _: u8) {}
    fn write_halfword(&mut self, _: u32, _: u16) {}
    fn write_word(&mut self, addr: u32, value: u32) {
        self.writes.push((addr, value));
        self.words.insert(addr, value);
    }
}

#[test]
fn str_then_ldr_moves_the_word() {
    let mut cpu = ARM7TDMI::new();
    cpu.regs.r[0] = 0x1234_5678;
    cpu.regs.r[1] = 0x0300_0000;
    let mut bus = RecordingBus::new(vec![0xE581_0000, 0xE591_2000]);
    cpu.step(&mut bus);
    assert_eq!(bus.writes, vec![(0x0300_0000, 0x1234_5678)]);
    cpu.step(&mut bus);
    assert_eq!(cpu.regs.r[2], 0x1234_5678);
}

#[test]
fn stm_stores_lowest_register_at_lowest_address() {
    for &(pre, add, first) in &[
        (false, true, 0x0300_0100u32),
        (true, true, 0x0300_0104),
        (true, false, 0x0300_0100 - 12),
        (false, false, 0x0300_0100 - 8),
    ] {
        let mut regs = Registers::new();
        regs.r[13] = 0x0300_0100;
        regs.r[1] = 11;
        regs.r[4] = 44;
        regs.r[7] = 77;
        let mut bus = RecordingBus::new(Vec::new());
        let cycles = execute_block_data_transfer(&mut regs, &mut bus, false, pre, add, true, 13, 0b1001_0010);
        assert_eq!(cycles, 4);
        assert_eq!(bus.writes, vec![(first, 11), (first + 4, 44), (first + 8, 77)]);
        let expected_base = if add { 0x0300_010C } else { 0x0300_0100 - 12 };
        assert_eq!(regs.r[13], expected_base);
    }
}

#[test]
fn ldm_loads_what_stm_stored() {
    let mut regs = Registers::new();
    regs.r[13] = 0x0300_0100;
    regs.r[2] = 22;
    regs.r[3] = 33;
    let mut bus = RecordingBus::new(Vec::new());
    execute_block_data_transfer(&mut regs, &mut bus, false, true, false, true, 13, 0b1100);
    regs.r[2] = 0;
    regs.r[3] = 0;
    execute_block_data_transfer(&mut regs, &mut bus, true, false, true, true, 13, 0b1100);
    assert_eq!((regs.r[2], regs.r[3]), (22, 33));
    assert_eq!(regs.r[13], 0x0300_0100);
}
