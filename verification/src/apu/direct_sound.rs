use vstd::prelude::*;

verus! {

/// Direct Sound channel (A or B): a 32-byte ring of signed samples.
#[derive(Debug)]
pub struct DirectSound {
    pub fifo: [i8; 32],
    pub read_pos: usize,
    pub write_pos: usize,
}

impl DirectSound {
    /// Both positions are inside the ring.
    pub open spec fn wf(self) -> bool {
        self.read_pos < 32 && self.write_pos < 32
    }

    /// Number of samples waiting.
    pub open spec fn len_spec(self) -> int {
        (self.write_pos - self.read_pos + 32) % 32
    }

    /// The waiting samples, oldest first.
    pub open spec fn queue(self) -> Seq<i8> {
        Seq::new(self.len_spec() as nat, |k: int| self.fifo@[(self.read_pos + k) % 32])
    }

    /// Empty ring.
    pub fn new() -> (r: Self)
        ensures
            r.wf(),
            r.queue() == Seq::<i8>::empty(),
            r.read_pos == 0 && r.write_pos == 0,
            forall|i: int| 0 <= i < 32 ==> r.fifo@[i] == 0,
    {
        let r = DirectSound { fifo: [0i8; 32], read_pos: 0, write_pos: 0 };
        assert(r.queue() =~= Seq::<i8>::empty());
        r
    }

    /// Appends a sample. With 31 samples waiting the ring overflows: the
    /// write position catches up with the read position and the ring reads
    /// as empty.
    pub fn write_sample(&mut self, value: i8)
        requires
            old(self).wf(),
        ensures
            final(self).wf(),
            final(self).read_pos == old(self).read_pos,
            old(self).len_spec() < 31 ==> final(self).queue() == old(self).queue().push(value),
            old(self).len_spec() == 31 ==> final(self).queue() == Seq::<i8>::empty(),
    {
        let ghost q = self.queue();
        self.fifo[self.write_pos] = value;
        self.write_pos = (self.write_pos + 1) % 32;
        proof {
            if old(self).len_spec() < 31 {
                assert forall|k: int| 0 <= k < self.len_spec() implies #[trigger] self.queue()[k]
                    == q.push(value)[k] by {
                    if k < q.len() {
                        assert((self.read_pos + k) % 32 != old(self).write_pos);
                    } else {
                        assert((self.read_pos + k) % 32 == old(self).write_pos);
                    }
                }
                assert(self.queue() =~= q.push(value));
            } else {
                assert(self.queue() =~= Seq::<i8>::empty());
            }
        }
    }

    /// Takes the oldest sample, or 0 when the ring is empty.
    pub fn read_sample(&mut self) -> (r: i8)
        requires
            old(self).wf(),
        ensures
            final(self).wf(),
            final(self).fifo == old(self).fifo,
            final(self).write_pos == old(self).write_pos,
            old(self).queue().len() == 0 ==> r == 0 && *final(self) == *old(self),
            old(self).queue().len() > 0 ==> r == old(self).queue()[0] && final(self).queue() == old(
                self,
            ).queue().drop_first(),
    {
        if self.read_pos == self.write_pos {
            0
        } else {
            let ghost q = self.queue();
            let sample = self.fifo[self.read_pos];
            self.read_pos = (self.read_pos + 1) % 32;
            proof {
                assert(self.queue() =~= q.drop_first());
            }
            sample
        }
    }

    /// Empties the ring.
    pub fn reset_fifo(&mut self)
        ensures
            final(self).wf(),
            final(self).queue() == Seq::<i8>::empty(),
            final(self).fifo == old(self).fifo,
    {
        self.read_pos = 0;
        self.write_pos = 0;
        assert(self.queue() =~= Seq::<i8>::empty());
    }

    /// Whether the ring has room: the count of waiting samples, taken
    /// modulo 32, is always below 32.
    pub fn has_space(&self) -> (r: bool)
        requires
            self.wf(),
        ensures
            r,
    {
        let used = if self.write_pos >= self.read_pos {
            self.write_pos - self.read_pos
        } else {
            32 - (self.read_pos - self.write_pos)
        };
        used < 32
    }
}

impl Default for DirectSound {
    fn default() -> (r: Self)
        ensures
            r.wf(),
            r.queue() == Seq::<i8>::empty(),
    {
        Self::new()
    }
}

/// Samples come out in the order they went in: a read after a write gives
/// the oldest waiting sample (the written one when the ring was empty),
/// and reading then writing leaves the same ring as writing then reading.
pub proof fn lemma_fifo_order(q: Seq<i8>, v: i8)
    ensures
        q.push(v)[0] == (if q.len() == 0 {
            v
        } else {
            q[0]
        }),
        q.len() > 0 ==> q.push(v).drop_first() == q.drop_first().push(v),
        q.len() == 0 ==> q.push(v).drop_first() == q,
{
    if q.len() > 0 {
        assert(q.push(v).drop_first() =~= q.drop_first().push(v));
    } else {
        assert(q.push(v).drop_first() =~= q);
    }
}


/// The waiting samples after writing the samples of `s` one by one into a
/// ring holding `q`, as `write_sample` states each write (a write with 31
/// samples waiting empties the ring).
pub open spec fn queue_after_writes(q: Seq<i8>, s: Seq<i8>) -> Seq<i8>
    decreases s.len(),
{
    if s.len() == 0 {
        q
    } else {
        let q1 = queue_after_writes(q, s.drop_last());
        if q1.len() < 31 {
            q1.push(s.last())
        } else {
            Seq::empty()
        }
    }
}

/// The samples that `k` reads give from a ring holding `q`, and the samples
/// left, as `read_sample` states each read (0 from an empty ring).
pub open spec fn reads_out(q: Seq<i8>, k: nat) -> (Seq<i8>, Seq<i8>)
    decreases k,
{
    if k == 0 {
        (Seq::empty(), q)
    } else {
        let (out, rest) = reads_out(q, (k - 1) as nat);
        if rest.len() == 0 {
            (out.push(0), rest)
        } else {
            (out.push(rest[0]), rest.drop_first())
        }
    }
}

/// Writes append to the waiting samples while the ring has room.
pub proof fn lemma_writes_append(q: Seq<i8>, s: Seq<i8>)
    requires
        q.len() + s.len() <= 31,
    ensures
        queue_after_writes(q, s) == q + s,
    decreases s.len(),
{
    if s.len() > 0 {
        lemma_writes_append(q, s.drop_last());
        assert(q + s.drop_last() + seq![s.last()] =~= q + s);
        assert((q + s.drop_last()).push(s.last()) =~= q + s);
    } else {
        assert(q + s =~= q);
    }
}

/// `k` reads from a ring holding at least `k` samples give its first `k`
/// samples, oldest first, and leave the rest.
pub proof fn lemma_reads_in_order(q: Seq<i8>, k: nat)
    requires
        k <= q.len(),
    ensures
        reads_out(q, k).0 == q.take(k as int),
        reads_out(q, k).1 == q.skip(k as int),
    decreases k,
{
    if k > 0 {
        lemma_reads_in_order(q, (k - 1) as nat);
        assert(q.take(k - 1).push(q[k - 1]) =~= q.take(k as int));
        assert(q.skip(k - 1).drop_first() =~= q.skip(k as int));
    } else {
        assert(q.take(0) =~= Seq::<i8>::empty());
        assert(q.skip(0) =~= q);
    }
}

/// The FIFO gives samples back in the order they were written: up to 31
/// samples written into an empty ring read back one by one in order, and
/// the read after them gives 0. (A 32nd write empties the ring.)
pub proof fn lemma_fifo_run(s: Seq<i8>)
    requires
        s.len() <= 31,
    ensures
        queue_after_writes(Seq::empty(), s) == s,
        reads_out(s, (s.len() + 1) as nat).0 == s.push(0),
        reads_out(s, (s.len() + 1) as nat).1 == Seq::<i8>::empty(),
{
    lemma_writes_append(Seq::empty(), s);
    assert(Seq::<i8>::empty() + s =~= s);
    lemma_reads_in_order(s, s.len());
    assert(s.take(s.len() as int) =~= s);
    assert(s.skip(s.len() as int) =~= Seq::<i8>::empty());
}

} // verus!
