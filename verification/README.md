# gba

A Game Boy Advance emulator core written in Verus: the ARM7TDMI processor
(ARM and THUMB instruction sets, banked registers, exceptions), the memory
map and system bus, the PPU (bitmap, tiled and affine modes, sprites,
windows, blending), the APU, DMA, timers, interrupts, keypad input, the
BIOS calls that can be computed, cartridge headers and save memory (SRAM,
Flash, EEPROM).

Layout:

- `src/` is the verified library. Its functions carry contracts over spec
  models of their types (register files, memory regions as sequences,
  register fields, FIFOs as queues). The BIOS calls and the DMA unit, which
  work through caller-supplied callbacks, return (or keep) a record of the
  calls they make and state which calls those are; a frame of the whole
  machine is stated as a run of processor steps. The laws that relate several operations (a write reads back, a
  mode switch and its return restore the visible registers, a request and
  its acknowledgement cancel, ...) are public proof functions next to the
  code they speak of.
- `tests/` runs the library on concrete values.
- `app/` holds what stays outside verification: reading ROM and save files,
  logging, serde and `std::error::Error` companions of library types, and
  the helpers computed in floating point (BIOS ArcTan, affine rotation and
  scaling matrices).
