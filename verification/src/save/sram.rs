use vstd::prelude::*;
use crate::memory::{byte_at, updated};
use crate::save::types::{SaveType, save_size};

verus! {

/// Offset inside a memory of `size` bytes (a power of two) that `offset`
/// wraps to.
pub open spec fn wrapped(offset: u32, size: usize) -> int {
    ((offset as usize) & ((size - 1) as usize)) as int
}

/// `v` resized to `n` bytes: cut, or padded with 0xFF.
pub open spec fn fitted(v: Seq<u8>, n: int) -> Seq<u8> {
    if v.len() >= n {
        v.subrange(0, n)
    } else {
        v + Seq::new((n - v.len()) as nat, |i: int| 0xFFu8)
    }
}

/// `v` with `data` stored in it: taken as it is when it has `size` bytes,
/// else cut or padded with 0xFF to `size` bytes.
pub fn fit_data(data: Vec<u8>, size: usize) -> (r: Vec<u8>)
    ensures
        r@ == fitted(data@, size as int),
{
    let mut d = data;
    if d.len() != size {
        d.resize(size, 0xFF);
    }
    proof {
        if data@.len() == size {
            assert(data@.subrange(0, size as int) =~= data@);
        } else {
            assert(d@ =~= fitted(data@, size as int));
        }
    }
    d
}

/// Battery-backed SRAM.
pub struct Sram {
    pub data: Vec<u8>,
    pub size: usize,
}

impl Sram {
    /// The buffer holds `size` bytes.
    pub open spec fn wf(self) -> bool {
        self.data@.len() == self.size
    }

    /// Empty SRAM (all 0xFF) of the size of `save_type`.
    pub fn new(save_type: SaveType) -> (r: Self)
        ensures
            r.wf(),
            r.size == save_size(save_type),
            forall|i: int| 0 <= i < r.size ==> r.data@[i] == 0xFF,
    {
        let size = save_type.size();
        Sram { data: vec![0xFFu8; size], size }
    }

    /// Byte at `offset`, wrapped into the SRAM.
    pub fn read_byte(&self, offset: u32) -> (r: u8)
        requires
            self.size > 0,
        ensures
            r == byte_at(self.data@, wrapped(offset, self.size), 0xFF),
    {
        let off = (offset as usize) & (self.size - 1);
        if off < self.data.len() {
            self.data[off]
        } else {
            0xFF
        }
    }

    /// Writes `value` at `offset`, wrapped into the SRAM.
    pub fn write_byte(&mut self, offset: u32, value: u8)
        requires
            old(self).size > 0,
        ensures
            final(self).size == old(self).size,
            final(self).data@ == updated(old(self).data@, wrapped(offset, old(self).size), value),
    {
        let off = (offset as usize) & (self.size - 1);
        if off < self.data.len() {
            self.data.set(off, value);
        }
    }

    /// The SRAM contents.
    pub fn data(&self) -> (r: &[u8])
        ensures
            r@ == self.data@,
    {
        self.data.as_slice()
    }

    /// Replaces the contents by `data`, cut or padded with 0xFF to the size.
    pub fn load_data(&mut self, data: Vec<u8>)
        ensures
            final(self).size == old(self).size,
            final(self).data@ == fitted(data@, old(self).size as int),
    {
        self.data = fit_data(data, self.size);
    }

    /// Sets every byte to 0xFF.
    pub fn clear(&mut self)
        ensures
            final(self).size == old(self).size,
            final(self).data@.len() == old(self).data@.len(),
            forall|i: int| 0 <= i < final(self).data@.len() ==> final(self).data@[i] == 0xFF,
    {
        let n = self.data.len();
        fill_range(&mut self.data, 0, n, 0xFF);
    }
}

/// Sets the bytes `start .. end` of `v` to `value`.
pub fn fill_range(v: &mut Vec<u8>, start: usize, end: usize, value: u8)
    requires
        start <= end <= old(v)@.len(),
    ensures
        final(v)@.len() == old(v)@.len(),
        forall|i: int|
            0 <= i < old(v)@.len() ==> #[trigger] final(v)@[i] == if start <= i < end {
                value
            } else {
                old(v)@[i]
            },
{
    let mut i = start;
    while i < end
        invariant
            start <= i <= end,
            end <= v@.len(),
            v@.len() == old(v)@.len(),
            forall|k: int|
                0 <= k < v@.len() ==> #[trigger] v@[k] == if start <= k < i {
                    value
                } else {
                    old(v)@[k]
                },
        decreases end - i,
    {
        v.set(i, value);
        i = i + 1;
    }
}

/// A written byte reads back at every offset that wraps to the same place;
/// the others keep their bytes.
pub proof fn lemma_sram_write_read(s: Sram, offset: u32, value: u8, t: Sram, other: u32)
    requires
        s.wf(),
        s.size > 0,
        t.size == s.size,
        t.data@ == updated(s.data@, wrapped(offset, s.size), value),
    ensures
        byte_at(t.data@, wrapped(other, t.size), 0xFF) == if wrapped(other, s.size) == wrapped(offset, s.size)
            && 0 <= wrapped(offset, s.size) < s.size {
            value
        } else {
            byte_at(s.data@, wrapped(other, s.size), 0xFF)
        },
{
}

} // verus!
