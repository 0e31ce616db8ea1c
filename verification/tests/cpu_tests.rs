use gba::cpu::{MemoryBus, ARM7TDMI};
use std::collections::HashMap;

struct WordBus {
    instructions: Vec<u32>,
}

impl MemoryBus for WordBus {
    fn read_word(&mut self, addr: u32) -> u32 {
        let idx = (addr / 4) as usize;
        if idx < self.instructions.len() {
            self.instructions[idx]
        } else {
            0
        }
    }
    fn read_byte(&mut self, _: u32) -> u8 {
        0
    }
    fn read_halfword(&mut self, _: u32) -> u16 {
        0
    }
    fn write_byte(&mut self, _: u32, _: u8) {}
    fn write_halfword(&mut self, _: u32, _: u16) {}
    fn write_word(&mut self, _: u32, _: u32) {}
}

struct BranchBus;

impl MemoryBus for BranchBus {
    fn read_word(&mut self, _: u32) -> u32 {
        0xEA00_0001
    }
    fn read_byte(&mut self, _: u32) -> u8 {
        0
    }
    fn read_halfword(&mut self, _: u32) -> u16 {
        0
    }
    fn write_byte(&mut self, _: u32, _: u8) {}
    fn write_halfword(&mut self, _: u32, _: u16) {}
    fn write_word(&mut self, _: u32, _: u32) {}
}

struct MemBus {
    memory: HashMap<u32, u32>,
    instructions: Vec<u32>,
}

impl MemoryBus for MemBus {
    fn read_word(&mut self, addr: u32) -> u32 {
        if addr < (self.instructions.len() * 4) as u32 {
            self.instructions[(addr / 4) as usize]
        } else {
            *self.memory.get(&(addr & !3)).unwrap_or(&0)
        }
    }
    fn write_word(&mut self, addr: u32, value: u32) {
        self.memory.insert(addr & !3, value);
    }
    fn read_byte(&mut self, _: u32) -> u8 {
        0
    }
    fn read_halfword(&mut self, _: u32) -> u16 {
        0
    }
    fn write_byte(&mut self, _: u32, _: u8) {}
    fn write_halfword(&mut self, _: u32, _: u16) {}
}

struct HalfBus {
    instructions: Vec<u16>,
}

impl MemoryBus for HalfBus {
    fn read_halfword(&mut self, addr: u32) -> u16 {
        let idx = (addr / 2) as usize;
        if idx < self.instructions.len() {
            self.instructions[idx]
        } else {
            0
        }
    }
    fn read_byte(&mut self, _: u32) -> u8 {
        0
    }
    fn read_word(&mut self, _: u32) -> u32 {
        0
    }
    fn write_byte(&mut self, _: u32, _: u8) {}
    fn write_halfword(&mut self, _: u32, _: u16) {}
    fn write_word(&mut self, _: u32, _: u32) {}
}

struct ThumbMemBus {
    memory: HashMap<u32, u32>,
    instructions: Vec<u16>,
}

impl MemoryBus for ThumbMemBus {
    fn read_halfword(&mut self, addr: u32) -> u16 {
        if addr < (self.instructions.len() * 2) as u32 {
            self.instructions[(addr / 2) as usize]
        } else {
            0
        }
    }
    fn read_word(&mut self, addr: u32) -> u32 {
        *self.memory.get(&(addr & !3)).unwrap_or(&0)
    }
    fn write_word(&mut self, addr: u32, value: u32) {
        self.memory.insert(addr & !3, value);
    }
    fn read_byte(&mut self, _: u32) -> u8 {
        0
    }
    fn write_byte(&mut self, _: u32, _: u8) {}
    fn write_halfword(&mut self, _: u32, _: u16) {}
}

struct ThumbBranchBus;

impl MemoryBus for ThumbBranchBus {
    fn read_halfword(&mut self, _: u32) -> u16 {
        0xE002
    }
    fn read_byte(&mut self, _: u32) -> u8 {
        0
    }
    fn read_word(&mut self, _: u32) -> u32 {
        0
    }
    fn write_byte(&mut self, _: u32, _: u8) {}
    fn write_halfword(&mut self, _: u32, _: u16) {}
    fn write_word(&mut self, _: u32, _: u32) {}
}

fn check_creation() {
    let cpu = ARM7TDMI::new();
    assert_eq!(cpu.cycles, 0);
    assert!(!cpu.halted);
}

fn check_reset() {
    let mut cpu = ARM7TDMI::new();
    cpu.cycles = 1000;
    cpu.reset();
    assert_eq!(cpu.cycles, 0);
    assert_eq!(cpu.regs.pc(), 0);
}

fn check_mov() {
    let mut cpu = ARM7TDMI::new();
    let mut bus = WordBus { instructions: vec![0xE3A0_002A] };
    cpu.step(&mut bus);
    assert_eq!(cpu.regs.r[0], 42);
    assert_eq!(cpu.regs.pc(), 4);
}

fn check_add() {
    let mut cpu = ARM7TDMI::new();
    cpu.regs.r[0] = 10;
    cpu.regs.r[1] = 20;
    let mut bus = WordBus { instructions: vec![0xE080_2001] };
    cpu.step(&mut bus);
    assert_eq!(cpu.regs.r[2], 30);
}

fn check_branch() {
    let mut cpu = ARM7TDMI::new();
    let mut bus = BranchBus;
    cpu.step(&mut bus);
    assert_eq!(cpu.regs.pc(), 8);
}

fn check_ldr_str() {
    let mut cpu = ARM7TDMI::new();
    cpu.regs.r[0] = 0x1234_5678;
    cpu.regs.r[1] = 0x0300_0000;
    let mut bus = MemBus { memory: HashMap::new(), instructions: vec![0xE581_0000, 0xE591_2000] };
    cpu.step(&mut bus);
    assert_eq!(bus.memory.get(&0x0300_0000), Some(&0x1234_5678));
    cpu.step(&mut bus);
    assert_eq!(cpu.regs.r[2], 0x1234_5678);
}

#[test]
fn cpu_test_cpu_creation() {
    check_creation();
}

#[test]
fn cpu_test_cpu_reset() {
    check_reset();
}

#[test]
fn cpu_test_mov_instruction() {
    check_mov();
}

#[test]
fn cpu_test_add_instruction() {
    check_add();
}

#[test]
fn cpu_test_branch_instruction() {
    check_branch();
}

#[test]
fn cpu_test_ldr_str_instructions() {
    check_ldr_str();
}

#[test]
fn cpu_tests_test_cpu_creation() {
    check_creation();
}

#[test]
fn cpu_tests_test_cpu_reset() {
    check_reset();
}

#[test]
fn cpu_tests_test_mov_instruction() {
    check_mov();
}

#[test]
fn cpu_tests_test_add_instruction() {
    check_add();
}

#[test]
fn cpu_tests_test_branch_instruction() {
    check_branch();
}

#[test]
fn cpu_tests_test_ldr_str_instructions() {
    check_ldr_str();
}

#[test]
fn test_thumb_mov_immediate() {
    let mut cpu = ARM7TDMI::new();
    cpu.regs.set_thumb(true);
    let mut bus = HalfBus { instructions: vec![0x202A] };
    cpu.step(&mut bus);
    assert_eq!(cpu.regs.r[0], 42);
    assert!(!cpu.regs.flag_z());
    assert_eq!(cpu.regs.pc(), 2);
}

#[test]
fn test_thumb_add_subtract() {
    let mut cpu = ARM7TDMI::new();
    cpu.regs.set_thumb(true);
    cpu.regs.r[0] = 10;
    cpu.regs.r[1] = 20;
    let mut bus = HalfBus { instructions: vec![0x1842] };
    cpu.step(&mut bus);
    assert_eq!(cpu.regs.r[2], 30);
    assert!(!cpu.regs.flag_z());
    assert!(!cpu.regs.flag_n());
}

#[test]
fn test_thumb_ldr_str() {
    let mut cpu = ARM7TDMI::new();
    cpu.regs.set_thumb(true);
    cpu.regs.r[0] = 0xABCD_1234;
    cpu.regs.r[1] = 0x0300_0000;
    let mut bus = ThumbMemBus { memory: HashMap::new(), instructions: vec![0x6048, 0x684A] };
    cpu.step(&mut bus);
    assert_eq!(bus.memory.get(&0x0300_0004), Some(&0xABCD_1234));
    cpu.step(&mut bus);
    assert_eq!(cpu.regs.r[2], 0xABCD_1234);
}

#[test]
fn test_thumb_branch() {
    let mut cpu = ARM7TDMI::new();
    cpu.regs.set_thumb(true);
    let mut bus = ThumbBranchBus;
    cpu.step(&mut bus);
    assert_eq!(cpu.regs.pc(), 6);
}
