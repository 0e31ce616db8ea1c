use vstd::prelude::*;
use crate::memory::{byte_at, updated};
use crate::save::sram::{fill_range, fit_data, fitted};
use crate::save::types::{FlashState, SaveType, save_size};

verus! {

/// Flash memory of 64 or 128 KB, programmed through a command protocol;
/// 128 KB chips show one 64 KB bank at a time.
pub struct Flash {
    pub data: Vec<u8>,
    pub size: usize,
    pub state: FlashState,
    pub bank: u8,
    pub chip_id: u16,
    pub write_enable: bool,
}

/// Chip identifier reported for each kind of save memory.
pub open spec fn chip_id_of(t: SaveType) -> u16 {
    match t {
        SaveType::Flash64K => 0x1CC2,
        SaveType::Flash128K => 0x09C2,
        _ => 0,
    }
}

impl Flash {
    /// The buffer holds `size` bytes.
    pub open spec fn wf(self) -> bool {
        self.data@.len() == self.size
    }

    /// Start of the current bank in the buffer.
    pub open spec fn bank_offset(self) -> int {
        if self.size > 0x10000 {
            self.bank * 0x10000
        } else {
            0
        }
    }

    /// Buffer index that an access at `offset` reaches.
    pub open spec fn index_of(self, offset: int) -> int {
        ((offset + self.bank_offset()) as u64 & (self.size - 1) as u64) as int
    }

    /// The byte a read at `offset` gives: a byte of the chip identifier in
    /// identification mode, else the byte of the current bank.
    pub open spec fn read_spec(self, offset: u32) -> u8 {
        if self.state == FlashState::ChipId {
            if offset & 1 == 0 {
                (self.chip_id % 256) as u8
            } else {
                (self.chip_id / 256) as u8
            }
        } else {
            byte_at(self.data@, self.index_of(offset as int), 0xFF)
        }
    }

    /// `new` is this chip after the protocol write of `value` at `offset`.
    pub open spec fn written(self, offset: u32, value: u8, new: Flash) -> bool {
        let keep = new.data@ == self.data@ && new.bank == self.bank && new.write_enable
            == self.write_enable;
        &&& new.size == self.size
        &&& new.chip_id == self.chip_id
        &&& match self.state {
            FlashState::Ready => keep && new.state == (if offset == 0x5555 && value == 0xAA {
                FlashState::Command1
            } else {
                FlashState::Ready
            }),
            FlashState::Command1 => keep && new.state == (if offset == 0x2AAA && value == 0x55 {
                FlashState::Command2
            } else {
                FlashState::Ready
            }),
            FlashState::Command2 => if value == 0x90 {
                keep && new.state == FlashState::ChipId
            } else if value == 0xF0 {
                keep && new.state == FlashState::Ready
            } else if value == 0x30 {
                keep && new.state == FlashState::Erase
            } else if value == 0x10 {
                &&& new.data@ == Seq::new(self.data@.len(), |i: int| 0xFFu8)
                &&& new.bank == self.bank
                &&& new.write_enable == self.write_enable
                &&& new.state == FlashState::Ready
            } else if value == 0xA0 {
                &&& new.data@ == self.data@
                &&& new.bank == self.bank
                &&& new.write_enable
                &&& new.state == FlashState::Write
            } else if value == 0xB0 && self.size > 0x10000 {
                keep && new.state == FlashState::BankSwitch
            } else {
                keep && new.state == FlashState::Ready
            },
            FlashState::Erase => {
                let start = self.index_of((offset / 0x1000) * 0x1000);
                let end = if start + 0x1000 < self.data@.len() {
                    start + 0x1000
                } else {
                    self.data@.len() as int
                };
                &&& new.data@ == Seq::new(
                    self.data@.len(),
                    |i: int|
                        if start <= i < end {
                            0xFFu8
                        } else {
                            self.data@[i]
                        },
                )
                &&& new.bank == self.bank
                &&& new.write_enable == self.write_enable
                &&& new.state == FlashState::Ready
            },
            FlashState::Write => {
                &&& new.data@ == (if self.write_enable {
                    updated(self.data@, self.index_of(offset as int), value)
                } else {
                    self.data@
                })
                &&& new.bank == self.bank
                &&& !new.write_enable
                &&& new.state == FlashState::Ready
            },
            FlashState::BankSwitch => {
                &&& new.data@ == self.data@
                &&& new.bank == value & 1
                &&& new.write_enable == self.write_enable
                &&& new.state == FlashState::Ready
            },
            FlashState::ChipId => keep && new.state == (if value == 0xF0 {
                FlashState::Ready
            } else {
                FlashState::ChipId
            }),
        }
    }

    /// Erased chip (all 0xFF) of the size of `save_type`, ready for commands.
    pub fn new(save_type: SaveType) -> (r: Self)
        ensures
            r.wf(),
            r.size == save_size(save_type),
            r.chip_id == chip_id_of(save_type),
            r.state == FlashState::Ready,
            r.bank == 0,
            !r.write_enable,
            forall|i: int| 0 <= i < r.size ==> r.data@[i] == 0xFF,
    {
        let size = save_type.size();
        let chip_id = match save_type {
            SaveType::Flash64K => 0x1CC2u16,
            SaveType::Flash128K => 0x09C2u16,
            _ => 0u16,
        };
        Flash {
            data: vec![0xFFu8; size],
            size,
            state: FlashState::Ready,
            bank: 0,
            chip_id,
            write_enable: false,
        }
    }

    /// Buffer index that an access at `offset` reaches.
    fn index(&self, offset: usize) -> (r: usize)
        requires
            self.size > 0,
            self.bank <= 1,
            offset <= 0xFFFF_FFFF,
        ensures
            r == self.index_of(offset as int),
            r < self.size,
    {
        let bank_offset: usize = if self.size > 0x10000 {
            (self.bank as usize) * 0x10000
        } else {
            0
        };
        let m = (self.size - 1) as u64;
        let a = offset as u64 + bank_offset as u64;
        proof {
            crate::bits::lemma_u64_field(a, 0, m);
        }
        (a & m) as usize
    }

    /// Reads a byte: the chip identifier in identification mode, otherwise
    /// the data of the current bank.
    pub fn read_byte(&self, offset: u32) -> (r: u8)
        requires
            self.state == FlashState::ChipId || (self.size > 0 && self.bank <= 1),
        ensures
            r == self.read_spec(offset),
    {
        if self.state == FlashState::ChipId {
            let id = self.chip_id;
            proof {
                crate::bits::lemma_u16_bytes(id);
            }
            if offset & 1 == 0 {
                (id & 0xFF) as u8
            } else {
                (id >> 8) as u8
            }
        } else {
            let i = self.index(offset as usize);
            if i < self.data.len() {
                self.data[i]
            } else {
                0xFF
            }
        }
    }

    /// Takes one write of the command protocol: unlock writes (0xAA at
    /// 0x5555, 0x55 at 0x2AAA), then a command (identify, erase a sector or
    /// the chip, program a byte, switch banks), then its argument.
    #[verifier::rlimit(30)]
    pub fn write_byte(&mut self, offset: u32, value: u8)
        requires
            old(self).wf(),
            old(self).bank <= 1,
            old(self).size > 0 || (old(self).state != FlashState::Erase && old(self).state
                != FlashState::Write),
        ensures
            old(self).written(offset, value, *final(self)),
            final(self).wf(),
            final(self).bank <= 1,
    {
        match self.state {
            FlashState::Ready => {
                if offset == 0x5555 && value == 0xAA {
                    self.state = FlashState::Command1;
                }
            },
            FlashState::Command1 => {
                if offset == 0x2AAA && value == 0x55 {
                    self.state = FlashState::Command2;
                } else {
                    self.state = FlashState::Ready;
                }
            },
            FlashState::Command2 => {
                if value == 0x90 {
                    self.state = FlashState::ChipId;
                } else if value == 0xF0 {
                    self.state = FlashState::Ready;
                } else if value == 0x30 {
                    self.state = FlashState::Erase;
                } else if value == 0x10 {
                    let n = self.data.len();
                    fill_range(&mut self.data, 0, n, 0xFF);
                    assert(self.data@ =~= Seq::new(old(self).data@.len(), |i: int| 0xFFu8));
                    self.state = FlashState::Ready;
                } else if value == 0xA0 {
                    self.state = FlashState::Write;
                    self.write_enable = true;
                } else if value == 0xB0 && self.size > 0x10000 {
                    self.state = FlashState::BankSwitch;
                } else {
                    self.state = FlashState::Ready;
                }
            },
            FlashState::Erase => {
                let sector = ((offset as usize) / 0x1000) * 0x1000;
                let start = self.index(sector);
                let end = if self.data.len() - start > 0x1000 {
                    start + 0x1000
                } else {
                    self.data.len()
                };
                fill_range(&mut self.data, start, end, 0xFF);
                assert(self.data@ =~= Seq::new(
                    old(self).data@.len(),
                    |i: int|
                        if start <= i < end {
                            0xFFu8
                        } else {
                            old(self).data@[i]
                        },
                ));
                self.state = FlashState::Ready;
            },
            FlashState::Write => {
                if self.write_enable {
                    let a = self.index(offset as usize);
                    if a < self.data.len() {
                        self.data.set(a, value);
                    }
                    self.write_enable = false;
                }
                self.state = FlashState::Ready;
            },
            FlashState::BankSwitch => {
                self.bank = value & 1;
                proof {
                    crate::bits::lemma_u8_field(value, 0, 1);
                }
                self.state = FlashState::Ready;
            },
            FlashState::ChipId => {
                if value == 0xF0 {
                    self.state = FlashState::Ready;
                }
            },
        }
    }

    /// The whole chip contents.
    pub fn data(&self) -> (r: &[u8])
        ensures
            r@ == self.data@,
    {
        self.data.as_slice()
    }

    /// Replaces the contents by `data`, cut or padded with 0xFF to the size.
    pub fn load_data(&mut self, data: Vec<u8>)
        ensures
            final(self).data@ == fitted(data@, old(self).size as int),
            final(self).size == old(self).size,
            final(self).state == old(self).state,
            final(self).bank == old(self).bank,
            final(self).chip_id == old(self).chip_id,
            final(self).write_enable == old(self).write_enable,
    {
        self.data = fit_data(data, self.size);
    }

    /// Back to the ready state, bank 0, programming disabled.
    pub fn reset(&mut self)
        ensures
            final(self).data@ == old(self).data@,
            final(self).size == old(self).size,
            final(self).chip_id == old(self).chip_id,
            final(self).state == FlashState::Ready,
            final(self).bank == 0,
            !final(self).write_enable,
    {
        self.state = FlashState::Ready;
        self.bank = 0;
        self.write_enable = false;
    }
}

/// Every access lands inside the chip.
pub proof fn lemma_index_inside(f: Flash, offset: int)
    requires
        f.size > 0,
    ensures
        0 <= f.index_of(offset) < f.size,
{
    let a = (offset + f.bank_offset()) as u64;
    let m = (f.size - 1) as u64;
    crate::bits::lemma_u64_field(a, 0, m);
}

/// A programmed byte reads back at its offset once the chip is ready again.
pub proof fn lemma_flash_program_read(f: Flash, offset: u32, value: u8, g: Flash)
    requires
        f.wf(),
        f.size > 0,
        f.state == FlashState::Write,
        f.write_enable,
        f.written(offset, value, g),
    ensures
        g.state == FlashState::Ready,
        g.read_spec(offset) == value,
{
    lemma_index_inside(f, offset as int);
}

/// After a sector erase, every offset of that sector reads 0xFF.
pub proof fn lemma_flash_erase_read(f: Flash, offset: u32, value: u8, g: Flash, other: u32)
    requires
        f.wf(),
        f.size > 0,
        f.state == FlashState::Erase,
        f.written(offset, value, g),
        f.index_of((offset / 0x1000) * 0x1000) <= f.index_of(other as int) < f.index_of((offset / 0x1000)
            * 0x1000) + 0x1000,
    ensures
        g.read_spec(other) == 0xFF,
{
    lemma_index_inside(f, other as int);
}

} // verus!
