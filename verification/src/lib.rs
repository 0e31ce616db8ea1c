pub mod apu;
pub mod arm;
pub mod bios;
pub mod bits;
pub mod bus;
pub mod cartridge;
pub mod cpu;
pub mod dma;
pub mod emulator;
pub mod input;
pub mod instructions;
pub mod interrupt;
pub mod memory;
pub mod ppu;
pub mod registers;
pub mod save;
pub mod thumb;
pub mod timer;
