use vstd::prelude::*;
use crate::memory::byte_at;
use crate::save::sram::{fit_data, fitted};
use crate::save::types::{SaveType, save_size};

verus! {

/// Serial EEPROM of 512 bytes or 8 KB, driven one bit at a time.
pub struct Eeprom {
    pub data: Vec<u8>,
    pub size: usize,
    pub address_bits: u32,
    pub buffer: u64,
    pub bit_count: u32,
    pub reading: bool,
    pub writing: bool,
    pub write_address: u32,
}

/// Address bits of each kind of EEPROM (6 unless it is the 8 KB one).
pub open spec fn address_bits_of(t: SaveType) -> u32 {
    if t == SaveType::Eeprom8K {
        14
    } else {
        6
    }
}

/// The first `k` bytes of the 8-byte block at `base`, most significant
/// first, as a number (0xFF past the end of `d`).
pub open spec fn block_prefix(d: Seq<u8>, base: int, k: nat) -> int
    decreases k,
{
    if k == 0 {
        0
    } else {
        block_prefix(d, base, (k - 1) as nat) * 256 + byte_at(d, base + k - 1, 0xFF)
    }
}

/// `d` with the 8 bytes at `base` (those inside it) set to `value`, most
/// significant byte first.
pub open spec fn block_written(d: Seq<u8>, base: int, value: u64) -> Seq<u8> {
    Seq::new(
        d.len(),
        |j: int|
            if base <= j < base + 8 {
                ((value >> ((56 - 8 * (j - base)) as u64)) & 0xFF) as u8
            } else {
                d[j]
            },
    )
}

impl Eeprom {
    /// The buffer holds `size` bytes and the counters stay in range.
    pub open spec fn wf(self) -> bool {
        &&& self.data@.len() == self.size
        &&& self.address_bits <= 14
        &&& self.write_address < 0x4000
        &&& self.bit_count <= 200
        &&& (!self.reading && !self.writing ==> self.bit_count < 2 + self.address_bits)
    }

    /// The low `address_bits` bits of `buf`: the block address of a command.
    pub open spec fn address_of(self, buf: u64) -> u64 {
        buf & (((1u64 << self.address_bits as u64) - 1) as u64)
    }

    /// `new` and the returned `out` are this EEPROM and its answer after the
    /// bit `bit` is shifted in.
    pub open spec fn processed(self, bit: bool, new: Eeprom, out: bool) -> bool {
        let buf = ((self.buffer << 1u64) | (if bit {
            1u64
        } else {
            0u64
        })) as u64;
        let count = self.bit_count + 1;
        &&& new.size == self.size
        &&& new.address_bits == self.address_bits
        &&& (self.reading || self.writing ==> new.write_address == self.write_address)
        &&& if self.reading {
            &&& out == (buf >> 63u64 != 0)
            &&& new.data@ == self.data@
            &&& new.writing == self.writing
            &&& if count >= 68 {
                !new.reading && new.bit_count == 0 && new.buffer == 0
            } else {
                new.reading && new.bit_count == count && new.buffer == (buf << 1u64) as u64
            }
        } else if self.writing {
            &&& out
            &&& !new.reading
            &&& if count >= 2 + self.address_bits + 64 {
                &&& new.data@ == block_written(self.data@, self.write_address * 8, buf)
                &&& !new.writing && new.bit_count == 0 && new.buffer == 0
            } else {
                new.data@ == self.data@ && new.writing && new.bit_count == count && new.buffer == buf
            }
        } else {
            &&& out
            &&& new.data@ == self.data@
            &&& if count >= 2 + self.address_bits {
                let command = (buf >> (self.address_bits as u64)) & 3;
                if command == 3 {
                    &&& new.reading && !new.writing && new.bit_count == 0
                    &&& new.write_address == self.write_address
                    &&& new.buffer == block_prefix(self.data@, self.address_of(buf) * 8, 8)
                } else if command == 2 {
                    &&& !new.reading && new.writing && new.bit_count == count && new.buffer == buf
                    &&& new.write_address == self.address_of(buf)
                } else {
                    &&& !new.reading && !new.writing && new.bit_count == 0 && new.buffer == 0
                    &&& new.write_address == self.write_address
                }
            } else {
                &&& !new.reading && !new.writing && new.bit_count == count && new.buffer == buf
                &&& new.write_address == self.write_address
            }
        }
    }

    /// Erased EEPROM (all 0xFF) of the size of `save_type`, idle.
    pub fn new(save_type: SaveType) -> (r: Self)
        ensures
            r.wf(),
            r.size == save_size(save_type),
            r.address_bits == address_bits_of(save_type),
            r.buffer == 0 && r.bit_count == 0 && !r.reading && !r.writing,
            r.write_address == 0,
            forall|i: int| 0 <= i < r.size ==> r.data@[i] == 0xFF,
    {
        let size = save_type.size();
        let address_bits: u32 = match save_type {
            SaveType::Eeprom8K => 14,
            _ => 6,
        };
        Eeprom {
            data: vec![0xFFu8; size],
            size,
            address_bits,
            buffer: 0,
            bit_count: 0,
            reading: false,
            writing: false,
            write_address: 0,
        }
    }

    /// Shifts one bit in and returns the bit the EEPROM drives: the next
    /// data bit while a read is answered, else 1. Once the two command bits
    /// and the block address are in, the lowest bits of the shift register,
    /// a read command (11) loads the block to be shifted out and a write
    /// command (10) takes the next 64 bits as the block's new contents.
    pub fn process_bit(&mut self, bit: bool) -> (out: bool)
        requires
            old(self).wf(),
        ensures
            old(self).processed(bit, *final(self), out),
            final(self).wf(),
    {
        let b: u64 = if bit {
            1
        } else {
            0
        };
        let ghost bb: u64 = ((old(self).buffer << 1u64) | (if bit {
            1u64
        } else {
            0u64
        })) as u64;
        self.buffer = (self.buffer << 1) | b;
        assert(self.buffer == bb);
        self.bit_count = self.bit_count + 1;
        if self.reading {
            let out_bit = (self.buffer >> 63) != 0;
            self.buffer = self.buffer << 1;
            if self.bit_count >= 68 {
                self.reading = false;
                self.bit_count = 0;
                self.buffer = 0;
            }
            out_bit
        } else if self.writing {
            if self.bit_count >= 2 + self.address_bits + 64 {
                self.perform_write();
                self.writing = false;
                self.bit_count = 0;
                self.buffer = 0;
            }
            true
        } else {
            if self.bit_count >= 2 + self.address_bits {
                let command = (self.buffer >> self.address_bits) & 0x3;
                if command == 3 {
                    self.perform_read();
                    self.reading = true;
                    self.bit_count = 0;
                } else if command == 2 {
                    self.write_address = self.block_address();
                    self.writing = true;
                } else {
                    self.bit_count = 0;
                    self.buffer = 0;
                }
            }
            true
        }
    }

    /// The block address in the low bits of the shift register.
    fn block_address(&self) -> (r: u32)
        requires
            self.address_bits <= 14,
        ensures
            r == self.address_of(self.buffer),
            r < 0x4000,
    {
        let ab = self.address_bits;
        let one: u64 = 1;
        let buf = self.buffer;
        let sh = ab as u64;
        assert(one << sh >= 1 && one << sh <= 0x4000) by (bit_vector)
            requires
                one == 1,
                sh <= 14,
        ;
        let mask: u64 = (one << sh) - 1;
        assert(buf & mask <= mask) by (bit_vector);
        (buf & mask) as u32
    }

    /// Loads the 8-byte block named by the address bits into the buffer.
    fn perform_read(&mut self)
        requires
            old(self).address_bits <= 14,
        ensures
            final(self).buffer == block_prefix(old(self).data@, old(self).address_of(old(self).buffer) * 8, 8),
            final(self).write_address == old(self).write_address,
            final(self).data@ == old(self).data@,
            final(self).size == old(self).size,
            final(self).address_bits == old(self).address_bits,
            final(self).bit_count == old(self).bit_count,
            final(self).reading == old(self).reading,
            final(self).writing == old(self).writing,
    {
        let address = self.block_address() as usize;
        let byte_addr = address * 8;
        let mut data: u64 = 0;
        let mut i: usize = 0;
        while i < 8
            invariant
                i <= 8,
                byte_addr < 0x20000,
                data == block_prefix(self.data@, byte_addr as int, i as nat),
                0 <= block_prefix(self.data@, byte_addr as int, i as nat) < block_cap(i as nat),
            decreases 8 - i,
        {
            let idx = byte_addr + i;
            let b: u64 = if idx < self.data.len() {
                self.data[idx] as u64
            } else {
                0xFF
            };
            proof {
                lemma_block_cap_bound(i as nat);
            }
            assert((data << 8u64) | b == data * 256 + b) by (bit_vector)
                requires
                    data < 0x100_0000_0000_0000,
                    b < 256,
            ;
            data = (data << 8) | b;
            i = i + 1;
        }
        self.buffer = data;
    }

    /// Stores the buffer as the 8 bytes of the block the write command named,
    /// most significant first (bytes past the end are dropped).
    fn perform_write(&mut self)
        requires
            old(self).write_address < 0x4000,
        ensures
            final(self).data@ == block_written(old(self).data@, old(self).write_address * 8, old(self).buffer),
            final(self).write_address == old(self).write_address,
            final(self).size == old(self).size,
            final(self).address_bits == old(self).address_bits,
            final(self).buffer == old(self).buffer,
            final(self).bit_count == old(self).bit_count,
            final(self).reading == old(self).reading,
            final(self).writing == old(self).writing,
    {
        let data = self.buffer;
        let base = (self.write_address as usize) * 8;
        let mut i: usize = 0;
        while i < 8
            invariant
                i <= 8,
                base == old(self).write_address * 8,
                base < 0x20000,
                self.write_address == old(self).write_address,
                self.data@.len() == old(self).data@.len(),
                self.size == old(self).size,
                self.address_bits == old(self).address_bits,
                self.buffer == old(self).buffer,
                self.bit_count == old(self).bit_count,
                self.reading == old(self).reading,
                self.writing == old(self).writing,
                data == old(self).buffer,
                forall|j: int|
                    0 <= j < self.data@.len() ==> #[trigger] self.data@[j] == if base <= j < base + i {
                        ((data >> ((56 - 8 * (j - base)) as u64)) & 0xFF) as u8
                    } else {
                        old(self).data@[j]
                    },
            decreases 8 - i,
        {
            if base + i < self.data.len() {
                self.data.set(base + i, ((data >> (56 - i * 8) as u64) & 0xFF) as u8);
            }
            i = i + 1;
        }
        assert(self.data@ =~= block_written(old(self).data@, old(self).write_address * 8, old(self).buffer));
    }

    /// The whole EEPROM contents.
    pub fn data(&self) -> (r: &[u8])
        ensures
            r@ == self.data@,
    {
        self.data.as_slice()
    }

    /// Replaces the contents by `data`, cut or padded with 0xFF to the size.
    pub fn load_data(&mut self, data: Vec<u8>)
        ensures
            final(self).data@ == fitted(data@, old(self).size as int),
            final(self).size == old(self).size,
            final(self).address_bits == old(self).address_bits,
            final(self).buffer == old(self).buffer,
            final(self).bit_count == old(self).bit_count,
            final(self).reading == old(self).reading,
            final(self).writing == old(self).writing,
            final(self).write_address == old(self).write_address,
    {
        self.data = fit_data(data, self.size);
    }

    /// Back to idle: empty shift register, no transfer in progress.
    pub fn reset(&mut self)
        ensures
            final(self).data@ == old(self).data@,
            final(self).size == old(self).size,
            final(self).address_bits == old(self).address_bits,
            final(self).buffer == 0 && final(self).bit_count == 0,
            !final(self).reading && !final(self).writing,
            final(self).write_address == old(self).write_address,
    {
        self.buffer = 0;
        self.bit_count = 0;
        self.reading = false;
        self.writing = false;
    }
}

/// 256 to the power `k`.
pub open spec fn block_cap(k: nat) -> int
    decreases k,
{
    if k == 0 {
        1
    } else {
        256 * block_cap((k - 1) as nat)
    }
}

/// A block prefix of `k` bytes is below 256^k, and 256^7 is 2^56.
pub proof fn lemma_block_cap_bound(k: nat)
    requires
        k < 8,
    ensures
        block_cap(k) <= 0x100_0000_0000_0000,
        block_cap(7) == 0x100_0000_0000_0000,
    decreases k,
{
    reveal_with_fuel(block_cap, 8);
}

} // verus!
