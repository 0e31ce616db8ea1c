use vstd::prelude::*;
use crate::instructions::alu::wrap32;

verus! {

/// Result of the Div call.
#[derive(Debug, Clone, Copy)]
pub struct DivResult {
    pub quotient: i32,
    pub remainder: i32,
    pub abs_quotient: i32,
}

/// Result of the Sqrt call.
#[derive(Debug, Clone, Copy)]
pub struct SqrtResult {
    pub result: u16,
}

/// Quotient of `a` by `b` rounded toward zero.
pub open spec fn trunc_div(a: int, b: int) -> int {
    if a >= 0 {
        a / b
    } else {
        -((-a) / b)
    }
}

/// Remainder of `a` by `b` with the sign of `a`.
pub open spec fn trunc_rem(a: int, b: int) -> int {
    if a >= 0 {
        a % b
    } else {
        -((-a) % b)
    }
}

/// SoftReset: the reset itself is the emulator's; the call does nothing
/// here.
pub fn soft_reset() {
}

/// Signed division: quotient rounded toward zero, remainder with the sign
/// of the numerator, and the quotient's absolute value. Dividing by zero
/// gives i32::MAX (numerator at least 0) or i32::MIN, the numerator as
/// remainder and i32::MAX as absolute quotient.
pub fn div(numerator: i32, denominator: i32) -> (r: DivResult)
    requires
        !(numerator == i32::MIN && (denominator == -1 || denominator == 1)),
    ensures
        denominator == 0 ==> r.quotient == (if numerator >= 0 {
            i32::MAX
        } else {
            i32::MIN
        }) && r.remainder == numerator && r.abs_quotient == i32::MAX,
        denominator != 0 ==> r.quotient == trunc_div(numerator as int, denominator as int) && r.remainder
            == trunc_rem(numerator as int, denominator as int) && r.abs_quotient == (if r.quotient < 0 {
            -r.quotient
        } else {
            r.quotient as int
        }),
{
    if denominator == 0 {
        DivResult {
            quotient: if numerator >= 0 {
                i32::MAX
            } else {
                i32::MIN
            },
            remainder: numerator,
            abs_quotient: i32::MAX,
        }
    } else {
        let quotient = numerator / denominator;
        let remainder = numerator % denominator;
        proof {
            lemma_trunc_div_bounded(numerator as int, denominator as int);
        }
        let abs_quotient = if quotient < 0 {
            -quotient
        } else {
            quotient
        };
        DivResult { quotient, remainder, abs_quotient }
    }
}

/// Euclidean division by a non-zero `b`: `x == b * (x / b) + x % b` with
/// the remainder between 0 and |b|.
proof fn lemma_euclid(x: int, b: int)
    requires
        b != 0,
    ensures
        x == b * (x / b) + x % b,
        0 <= x % b < (if b < 0 {
            -b
        } else {
            b
        }),
{
    vstd::arithmetic::div_mod::lemma_fundamental_div_mod(x, b);
    if b > 0 {
        vstd::arithmetic::div_mod::lemma_mod_bound(x, b);
    } else {
        assert(0 <= x % b < -b) by (nonlinear_arith)
            requires
                b < 0,
        ;
    }
}

/// A quotient of a non-negative `x` is no larger than `x`, and at most half
/// of it when the divisor has size 2 or more.
proof fn lemma_quotient_size(x: int, b: int)
    requires
        x >= 0,
        b != 0,
    ensures
        (if x / b < 0 {
            -(x / b)
        } else {
            x / b
        }) <= x,
        (b >= 2 || b <= -2) ==> 2 * (if x / b < 0 {
            -(x / b)
        } else {
            x / b
        }) <= x,
{
    lemma_euclid(x, b);
    let q = x / b;
    let r = x % b;
    if b > 0 {
        assert(0 <= q <= x && (b >= 2 ==> 2 * q <= x)) by (nonlinear_arith)
            requires
                x >= 0,
                b > 0,
                x == b * q + r,
                0 <= r < b,
        ;
    } else {
        assert(-x <= q <= 0 && (b <= -2 ==> -2 * q <= x)) by (nonlinear_arith)
            requires
                x >= 0,
                b < 0,
                x == b * q + r,
                0 <= r < -b,
        ;
    }
}

/// Away from i32::MIN divided by -1 or 1, the quotient is above i32::MIN.
proof fn lemma_trunc_div_bounded(a: int, b: int)
    requires
        b != 0,
        -0x8000_0000 <= a < 0x8000_0000,
        -0x8000_0000 <= b < 0x8000_0000,
        !(a == -0x8000_0000 && (b == -1 || b == 1)),
    ensures
        -0x8000_0000 < trunc_div(a, b) < 0x8000_0000,
{
    let x = if a >= 0 {
        a
    } else {
        -a
    };
    lemma_quotient_size(x, b);
}

/// Quotient times denominator plus remainder gives the numerator back, and
/// the remainder is smaller than the denominator in size.
pub proof fn lemma_div_identity(a: int, b: int)
    requires
        b != 0,
    ensures
        trunc_div(a, b) * b + trunc_rem(a, b) == a,
        (if trunc_rem(a, b) < 0 {
            -trunc_rem(a, b)
        } else {
            trunc_rem(a, b)
        }) < (if b < 0 {
            -b
        } else {
            b
        }),
{
    if a >= 0 {
        lemma_euclid(a, b);
        assert(b * (a / b) == (a / b) * b) by (nonlinear_arith);
    } else {
        lemma_euclid(-a, b);
        assert(-((-a) / b) * b == -(b * ((-a) / b))) by (nonlinear_arith);
    }
}

/// Integer square root: the largest r with r * r <= value.
pub fn sqrt(value: u32) -> (r: SqrtResult)
    ensures
        r.result * r.result <= value < (r.result + 1) * (r.result + 1),
{
    let v = value as u64;
    let mut lo: u64 = 0;
    let mut hi: u64 = 0x1_0000;
    assert(hi * hi > v) by (nonlinear_arith)
        requires
            hi == 0x1_0000,
            v <= 0xFFFF_FFFF,
    ;
    while hi - lo > 1
        invariant
            lo < hi <= 0x1_0000,
            lo * lo <= v,
            v < hi * hi,
            v <= 0xFFFF_FFFF,
        decreases hi - lo,
    {
        let mid = lo + (hi - lo) / 2;
        assert(mid * mid <= 0x1_0000 * 0x1_0000) by (nonlinear_arith)
            requires
                mid <= 0x1_0000,
        ;
        if mid * mid <= v {
            lo = mid;
        } else {
            hi = mid;
        }
    }
    assert(hi == lo + 1);
    SqrtResult { result: lo as u16 }
}

/// Number of units a CpuSet control word asks for (bits 0-20).
pub open spec fn set_count(control: u32) -> u32 {
    control & 0x1F_FFFF
}

/// Whether `start` plus `count - 1` units of `size` stays a 32-bit address.
pub open spec fn span_fits(start: u32, count: u32, size: u32) -> bool {
    count == 0 || start + (count - 1) * size <= u32::MAX
}

/// Address of unit `i` of a span of `size`-byte units at `base`.
pub open spec fn unit_addr(base: u32, i: int, size: u32) -> u32 {
    (base + i * size) as u32
}

/// A call a BIOS routine makes through its memory callbacks: a read at an
/// address, with the value the callback gave, or a write at an address,
/// with the value the callback returned (which the routines ignore).
#[derive(Debug, Clone, Copy, PartialEq, Eq, Structural)]
pub enum MemCall {
    Read(u32, u32),
    Write(u32, u32),
}

/// Kind and address of a call: (whether it writes, address).
pub open spec fn call_shape(c: MemCall) -> (bool, u32) {
    match c {
        MemCall::Read(a, _) => (false, a),
        MemCall::Write(a, _) => (true, a),
    }
}

/// Kinds and addresses of the calls of `calls`, in order.
pub open spec fn shapes(calls: Seq<MemCall>) -> Seq<(bool, u32)> {
    calls.map_values(|c: MemCall| call_shape(c))
}

/// Addresses of the writes among `calls`, in order.
pub open spec fn writes_of(calls: Seq<MemCall>) -> Seq<u32>
    decreases calls.len(),
{
    if calls.len() == 0 {
        Seq::empty()
    } else {
        let w = writes_of(calls.drop_last());
        match calls.last() {
            MemCall::Write(a, _) => w.push(a),
            _ => w,
        }
    }
}

/// The value a read call gave (0 for a write).
pub open spec fn read_value(c: MemCall) -> u32 {
    match c {
        MemCall::Read(_, v) => v,
        MemCall::Write(_, _) => 0,
    }
}

/// `c` is a call the word callbacks completed: a read of `read_mem` that
/// gave the recorded value, or a write of `write_mem` that returned the
/// recorded value.
pub open spec fn word_call_done<F: FnMut(u32) -> u32>(c: MemCall, read_mem: F, write_mem: F) -> bool {
    match c {
        MemCall::Read(a, v) => call_ensures(read_mem, (a,), v),
        MemCall::Write(a, r) => call_ensures(write_mem, (a,), r),
    }
}

/// Every call of `calls` is one the word callbacks completed.
pub open spec fn word_calls_done<F: FnMut(u32) -> u32>(calls: Seq<MemCall>, read_mem: F, write_mem: F) -> bool {
    forall|i: int| 0 <= i < calls.len() ==> #[trigger] word_call_done(calls[i], read_mem, write_mem)
}

/// `c` is a call the byte callbacks completed: a read of `read_byte` that
/// gave the recorded byte, or a write of `write_byte` that returned the
/// recorded byte.
pub open spec fn byte_call_done<F: FnMut(u32) -> u8>(c: MemCall, read_byte: F, write_byte: F) -> bool {
    match c {
        MemCall::Read(a, v) => v < 256 && call_ensures(read_byte, (a,), v as u8),
        MemCall::Write(a, r) => r < 256 && call_ensures(write_byte, (a,), r as u8),
    }
}

/// Every call of `calls` is one the byte callbacks completed.
pub open spec fn byte_calls_done<F: FnMut(u32) -> u8>(calls: Seq<MemCall>, read_byte: F, write_byte: F) -> bool {
    forall|i: int| 0 <= i < calls.len() ==> #[trigger] byte_call_done(calls[i], read_byte, write_byte)
}

/// A completed call added to completed calls.
proof fn lemma_word_done_push<F: FnMut(u32) -> u32>(calls: Seq<MemCall>, c: MemCall, read_mem: F, write_mem: F)
    requires
        word_calls_done(calls, read_mem, write_mem),
        word_call_done(c, read_mem, write_mem),
    ensures
        word_calls_done(calls.push(c), read_mem, write_mem),
{
    assert forall|i: int| 0 <= i < calls.push(c).len() implies #[trigger] word_call_done(
        calls.push(c)[i],
        read_mem,
        write_mem,
    ) by {
        if i < calls.len() {
            assert(calls.push(c)[i] == calls[i]);
        }
    }
}

/// A completed call added to completed calls.
proof fn lemma_byte_done_push<F: FnMut(u32) -> u8>(calls: Seq<MemCall>, c: MemCall, read_byte: F, write_byte: F)
    requires
        byte_calls_done(calls, read_byte, write_byte),
        byte_call_done(c, read_byte, write_byte),
    ensures
        byte_calls_done(calls.push(c), read_byte, write_byte),
{
    assert forall|i: int| 0 <= i < calls.push(c).len() implies #[trigger] byte_call_done(
        calls.push(c)[i],
        read_byte,
        write_byte,
    ) by {
        if i < calls.len() {
            assert(calls.push(c)[i] == calls[i]);
        }
    }
}

/// Recording one more call: its shape joins the shapes, and a write joins
/// the writes.
proof fn lemma_record(calls: Seq<MemCall>, c: MemCall)
    ensures
        shapes(calls.push(c)) == shapes(calls).push(call_shape(c)),
        writes_of(calls.push(c)) == (match c {
            MemCall::Write(a, _) => writes_of(calls).push(a),
            _ => writes_of(calls),
        }),
        calls.push(c).subrange(0, calls.len() as int) == calls,
{
    assert(shapes(calls.push(c)) =~= shapes(calls).push(call_shape(c)));
    assert(calls.push(c).drop_last() =~= calls);
    assert(calls.push(c).subrange(0, calls.len() as int) =~= calls);
}

/// The calls CpuSet makes: a fill reads `source` once and writes the
/// `count` units from `dest`; a copy reads unit i from `source` and then
/// writes unit i from `dest`, for each i in order.
pub open spec fn set_calls(source: u32, dest: u32, count: int, size: u32, fill: bool) -> Seq<(bool, u32)> {
    if fill {
        Seq::new(
            (count + 1) as nat,
            |k: int|
                if k == 0 {
                    (false, source)
                } else {
                    (true, unit_addr(dest, k - 1, size))
                },
        )
    } else {
        Seq::new(
            (2 * count) as nat,
            |k: int|
                if k % 2 == 0 {
                    (false, unit_addr(source, k / 2, size))
                } else {
                    (true, unit_addr(dest, k / 2, size))
                },
        )
    }
}

/// Unit size of a CpuSet control word: 4 bytes with bit 26, else 2.
pub open spec fn set_unit(control: u32) -> u32 {
    if control & 0x0400_0000 != 0 {
        4
    } else {
        2
    }
}

/// CpuSet: copies `count` units (16 or 32 bits, bit 26 of `control`) from
/// `source` to `dest`, or fills `dest` with the unit at `source` (bit 24),
/// through the memory callbacks. The callbacks are asked only for what the
/// `requires` names, and the calls made, recorded in the returned log as
/// each is made, are `set_calls`: for a fill one read at `source` then
/// the `count` writes from `dest`; for a copy a read of each unit from
/// `source` followed by the write of that unit from `dest`. Each call in
/// the log is one the callbacks completed, with the value it gave.
pub fn cpu_set<F: FnMut(u32) -> u32 + Clone>(
    source: u32,
    dest: u32,
    control: u32,
    mut read_mem: F,
    mut write_mem: F,
) -> (calls: Ghost<Seq<MemCall>>)
    requires
        forall|i: int|
            0 <= i < set_count(control) ==> call_requires(
                write_mem,
                (#[trigger] unit_addr(dest, i, set_unit(control)),),
            ),
        control & 0x0100_0000 != 0 ==> call_requires(read_mem, (source,)),
        control & 0x0100_0000 == 0 ==> forall|i: int|
            0 <= i < set_count(control) ==> call_requires(
                read_mem,
                (#[trigger] unit_addr(source, i, set_unit(control)),),
            ),
        span_fits(dest, set_count(control), set_unit(control)),
        control & 0x0100_0000 == 0 ==> span_fits(source, set_count(control), set_unit(control)),
    ensures
        shapes(calls@) == set_calls(
            source,
            dest,
            set_count(control) as int,
            set_unit(control),
            control & 0x0100_0000 != 0,
        ),
        word_calls_done(calls@, read_mem, write_mem),
{
    let count = control & 0x1F_FFFF;
    proof {
        crate::bits::lemma_u32_field(control, 0, 0x1F_FFFF);
    }
    let is_32bit = (control & 0x0400_0000) != 0;
    let is_fill = (control & 0x0100_0000) != 0;
    let word_size: u32 = if is_32bit {
        4
    } else {
        2
    };
    assert(word_size == set_unit(control) && count == set_count(control));
    transfer_units(source, dest, count, word_size, is_fill, read_mem, write_mem)
}

/// The calls of CpuSet and CpuFastSet for `count` units of `size` bytes.
fn transfer_units<F: FnMut(u32) -> u32 + Clone>(
    source: u32,
    dest: u32,
    count: u32,
    size: u32,
    fill: bool,
    mut read_mem: F,
    mut write_mem: F,
) -> (calls: Ghost<Seq<MemCall>>)
    requires
        size <= 4,
        count <= 0x1F_FFFF,
        forall|i: int| 0 <= i < count ==> call_requires(write_mem, (#[trigger] unit_addr(dest, i, size),)),
        fill ==> call_requires(read_mem, (source,)),
        !fill ==> forall|i: int| 0 <= i < count ==> call_requires(read_mem, (#[trigger] unit_addr(source, i, size),)),
        span_fits(dest, count, size),
        !fill ==> span_fits(source, count, size),
    ensures
        shapes(calls@) == set_calls(source, dest, count as int, size, fill),
        word_calls_done(calls@, read_mem, write_mem),
{
    let ghost mut log: Seq<MemCall> = Seq::empty();
    let ghost rd = read_mem;
    let ghost wr = write_mem;
    if fill {
        let value = read_mem(source);
        proof {
            lemma_word_done_push(log, MemCall::Read(source, value), rd, wr);
            lemma_record(log, MemCall::Read(source, value));
            log = log.push(MemCall::Read(source, value));
            assert(shapes(log) =~= set_calls(source, dest, 0, size, true));
        }
        let mut i: u32 = 0;
        while i < count
            invariant
                i <= count,
                forall|k: int| 0 <= k < count ==> call_requires(write_mem, (#[trigger] unit_addr(dest, k, size),)),
                span_fits(dest, count, size),
                size <= 4,
                count <= 0x1F_FFFF,
                shapes(log) == set_calls(source, dest, i as int, size, true),
                read_mem == rd,
                write_mem == wr,
                word_calls_done(log, rd, wr),
            decreases count - i,
        {
            assert(i * size <= (count - 1) * size) by (nonlinear_arith)
                requires
                    i < count,
            ;
            let dst_addr = dest + (i * size);
            assert(dst_addr == unit_addr(dest, i as int, size));
            let r = write_mem(dst_addr);
            proof {
                lemma_word_done_push(log, MemCall::Write(dst_addr, r), rd, wr);
                lemma_record(log, MemCall::Write(dst_addr, r));
                log = log.push(MemCall::Write(dst_addr, r));
                assert(shapes(log) =~= set_calls(source, dest, i + 1, size, true));
            }
            i = i + 1;
        }
    } else {
        proof {
            assert(shapes(log) =~= set_calls(source, dest, 0, size, false));
        }
        let mut i: u32 = 0;
        while i < count
            invariant
                i <= count,
                forall|k: int| 0 <= k < count ==> call_requires(read_mem, (#[trigger] unit_addr(source, k, size),)),
                forall|k: int| 0 <= k < count ==> call_requires(write_mem, (#[trigger] unit_addr(dest, k, size),)),
                span_fits(dest, count, size),
                span_fits(source, count, size),
                size <= 4,
                count <= 0x1F_FFFF,
                shapes(log) == set_calls(source, dest, i as int, size, false),
                read_mem == rd,
                write_mem == wr,
                word_calls_done(log, rd, wr),
            decreases count - i,
        {
            assert(i * size <= (count - 1) * size) by (nonlinear_arith)
                requires
                    i < count,
            ;
            let src_addr = source + (i * size);
            let dst_addr = dest + (i * size);
            assert(src_addr == unit_addr(source, i as int, size));
            assert(dst_addr == unit_addr(dest, i as int, size));
            let value = read_mem(src_addr);
            let r = write_mem(dst_addr);
            proof {
                lemma_word_done_push(log, MemCall::Read(src_addr, value), rd, wr);
                lemma_record(log, MemCall::Read(src_addr, value));
                log = log.push(MemCall::Read(src_addr, value));
                lemma_word_done_push(log, MemCall::Write(dst_addr, r), rd, wr);
                lemma_record(log, MemCall::Write(dst_addr, r));
                log = log.push(MemCall::Write(dst_addr, r));
                assert(shapes(log) =~= set_calls(source, dest, i + 1, size, false));
            }
            i = i + 1;
        }
    }
    Ghost(log)
}

/// CpuFastSet: like CpuSet with 32-bit units only; the callbacks are asked
/// only for the addresses the `requires` names, and the calls made, each
/// completed by the callbacks, are `set_calls` with 4-byte units.
pub fn cpu_fast_set<F: FnMut(u32) -> u32 + Clone>(
    source: u32,
    dest: u32,
    control: u32,
    mut read_mem: F,
    mut write_mem: F,
) -> (calls: Ghost<Seq<MemCall>>)
    requires
        forall|i: int|
            0 <= i < set_count(control) ==> call_requires(write_mem, (#[trigger] unit_addr(dest, i, 4),)),
        control & 0x0100_0000 != 0 ==> call_requires(read_mem, (source,)),
        control & 0x0100_0000 == 0 ==> forall|i: int|
            0 <= i < set_count(control) ==> call_requires(read_mem, (#[trigger] unit_addr(source, i, 4),)),
        span_fits(dest, set_count(control), 4),
        control & 0x0100_0000 == 0 ==> span_fits(source, set_count(control), 4),
    ensures
        shapes(calls@) == set_calls(source, dest, set_count(control) as int, 4, control & 0x0100_0000 != 0),
        word_calls_done(calls@, read_mem, write_mem),
{
    let count = control & 0x1F_FFFF;
    proof {
        crate::bits::lemma_u32_field(control, 0, 0x1F_FFFF);
    }
    let is_fill = (control & 0x0100_0000) != 0;
    transfer_units(source, dest, count, 4, is_fill, read_mem, write_mem)
}

/// BitUnPack: reads the unpack description at `info_addr` (source length,
/// source and destination widths); the unpacking itself is not done, and
/// the calls made are three completed reads at `info_addr`.
pub fn bit_unpack<F: FnMut(u32) -> u32>(source: u32, dest: u32, info_addr: u32, mut read_mem: F) -> (calls: Ghost<
    Seq<MemCall>,
>)
    requires
        call_requires(read_mem, (info_addr,)),
    ensures
        shapes(calls@) == seq![(false, info_addr), (false, info_addr), (false, info_addr)],
        word_calls_done(calls@, read_mem, read_mem),
{
    let v0 = read_mem(info_addr);
    let _source_len = (v0 & 0xFFFF) as u16;
    let v1 = read_mem(info_addr);
    let _source_width = ((v1 >> 16) & 0xFF) as u8;
    let v2 = read_mem(info_addr);
    let _dest_width = ((v2 >> 24) & 0xFF) as u8;
    let ghost log = seq![MemCall::Read(info_addr, v0), MemCall::Read(info_addr, v1), MemCall::Read(info_addr, v2)];
    assert(shapes(log) =~= seq![(false, info_addr), (false, info_addr), (false, info_addr)]);
    assert(word_calls_done(log, read_mem, read_mem)) by {
        assert forall|i: int| 0 <= i < log.len() implies #[trigger] word_call_done(log[i], read_mem, read_mem) by {
            if i == 0 {
            } else if i == 1 {
            } else {
            }
        }
    }
    Ghost(log)
}

/// The `n` consecutive output addresses from `dest`.
pub open spec fn out_positions(dest: u32, n: int) -> Seq<u32> {
    Seq::new(n as nat, |i: int| wrap32(dest + i))
}

/// The log opens with the four header reads, at `source` and the three
/// bytes after it, each giving a byte.
pub open spec fn header_reads(calls: Seq<MemCall>, source: u32) -> bool {
    &&& calls.len() >= 4
    &&& forall|i: int|
        0 <= i < 4 ==> call_shape(#[trigger] calls[i]) == (false, wrap32(source + i)) && read_value(calls[i])
            < 256
}

/// Output size a stream header announces: its upper 24 bits, from the
/// bytes the header reads gave (least significant first).
pub open spec fn stream_size(calls: Seq<MemCall>) -> int {
    read_value(calls[1]) + 0x100 * read_value(calls[2]) + 0x1_0000 * read_value(calls[3])
}

/// `p + k`, wrapping at the end of the address space.
fn advance(p: u32, k: u32) -> (r: u32)
    ensures
        r == wrap32(p + k),
{
    proof {
        if p + k > u32::MAX {
            assert((p + k) % 0x1_0000_0000 == p + k - 0x1_0000_0000);
        } else {
            assert((p + k) % 0x1_0000_0000 == p + k);
        }
    }
    p.wrapping_add(k)
}

/// Stepping a wrapped address is stepping the unwrapped one.
proof fn lemma_wrap_step(x: int, k: int)
    requires
        0 <= k <= u32::MAX,
    ensures
        wrap32(wrap32(x) + k) == wrap32(x + k),
{
    vstd::arithmetic::div_mod::lemma_add_mod_noop(x, k, 0x1_0000_0000);
    vstd::arithmetic::div_mod::lemma_small_mod(k as nat, 0x1_0000_0000);
    vstd::arithmetic::div_mod::lemma_mod_bound(x, 0x1_0000_0000);
}

/// One more write at the next output address extends the written run.
proof fn lemma_write_step(calls: Seq<MemCall>, dest: u32, n: int, r: u32)
    requires
        0 <= n,
        writes_of(calls) == out_positions(dest, n),
    ensures
        writes_of(calls.push(MemCall::Write(wrap32(dest + n), r))) == out_positions(dest, n + 1),
{
    lemma_record(calls, MemCall::Write(wrap32(dest + n), r));
    assert(out_positions(dest, n).push(wrap32(dest + n)) =~= out_positions(dest, n + 1));
}

/// A read leaves the writes as they were.
proof fn lemma_read_step(calls: Seq<MemCall>, a: u32, v: u32)
    ensures
        writes_of(calls.push(MemCall::Read(a, v))) == writes_of(calls),
{
    lemma_record(calls, MemCall::Read(a, v));
}

/// The header word put together from its four bytes, shifted down by 8,
/// is the size `stream_size` reads off them.
proof fn lemma_header_size(b0: u8, b1: u8, b2: u8, b3: u8)
    by (bit_vector)
    ensures
        ((((b3 as u32) << 24u32) | ((b2 as u32) << 16u32) | ((b1 as u32) << 8u32) | (b0 as u32)) >> 8u32)
            == (b1 as u32) + 0x100 * (b2 as u32) + 0x1_0000 * (b3 as u32),
{
}

/// Whether item `bit` (0 = first) of LZ77 flag byte `flags` is a
/// back-reference (its flag bit set, most significant first) rather than a
/// literal byte.
pub open spec fn lz_is_ref(flags: u8, bit: int) -> bool {
    flags & (0x80u8 >> (bit as u8)) != 0
}

/// Length of an LZ77UnComp back-reference whose first byte is `b1` (its
/// upper nibble plus 3), cut to the `left` bytes still missing.
pub open spec fn lz_ref_length(b1: u8, left: int) -> int {
    let len: int = ((b1 >> 4u8) & 0xF) + 3;
    if len < left {
        len
    } else {
        left
    }
}

/// The next step of LZ77UnComp at log index `i`, with the stream at offset
/// `src` from `source`, `done` of `size` output bytes written and item
/// `bit` of flag byte `flags` next (8: a new flag byte is due): a flag
/// byte read at the stream position; a literal, skipped in the stream and
/// written at the next output position; or a back-reference, its two bytes
/// read from the stream and its bytes written at the next output
/// positions.
pub open spec fn lz_step_at(
    calls: Seq<MemCall>,
    i: int,
    src: int,
    done: int,
    flags: u8,
    bit: int,
    size: int,
    source: u32,
    dest: u32,
) -> bool {
    if bit >= 8 {
        0 <= i < calls.len() && call_shape(calls[i]) == (false, wrap32(source + src))
    } else if !lz_is_ref(flags, bit) {
        0 <= i < calls.len() && call_shape(calls[i]) == (true, wrap32(dest + done))
    } else {
        let n = lz_ref_length(read_value(calls[i]) as u8, size - done);
        &&& 0 <= i
        &&& i + 2 + n <= calls.len()
        &&& call_shape(calls[i]) == (false, wrap32(source + src))
        &&& call_shape(calls[i + 1]) == (false, wrap32(source + src + 1))
        &&& forall|j: int|
            i + 2 <= j < i + 2 + n ==> call_shape(#[trigger] calls[j]) == (true, wrap32(dest + done + (j - i - 2)))
    }
}

/// The state after the step `lz_step_at` describes: log index, stream
/// offset, bytes written, flag byte and next item.
pub open spec fn lz_next(
    calls: Seq<MemCall>,
    i: int,
    src: int,
    done: int,
    flags: u8,
    bit: int,
    size: int,
) -> (int, int, int, u8, int) {
    if bit >= 8 {
        (i + 1, src + 1, done, read_value(calls[i]) as u8, 0)
    } else if !lz_is_ref(flags, bit) {
        (i + 1, src + 1, done + 1, flags, bit + 1)
    } else {
        let n = lz_ref_length(read_value(calls[i]) as u8, size - done);
        (i + 2 + n, src + 2, done + n, flags, bit + 1)
    }
}

/// The calls LZ77UnComp makes from log index `i` on, from the state
/// (`src`, `done`, `flags`, `bit`): none once all `size` bytes are
/// written, else one step (`lz_step_at`) and the calls after it.
pub open spec fn lz_calls_from(
    calls: Seq<MemCall>,
    i: int,
    src: int,
    done: int,
    flags: u8,
    bit: int,
    size: int,
    source: u32,
    dest: u32,
) -> bool
    decreases size - done, if bit >= 8 {
        1int
    } else {
        0int
    },
{
    if done >= size {
        i == calls.len()
    } else {
        let nx = lz_next(calls, i, src, done, flags, bit, size);
        &&& lz_step_at(calls, i, src, done, flags, bit, size, source, dest)
        &&& lz_calls_from(calls, nx.0, nx.1, nx.2, nx.3, nx.4, size, source, dest)
    }
}

/// Every log that starts with `log` and goes on as LZ77UnComp does from
/// the given state is, from the header on, as LZ77UnComp does from the
/// start.
spec fn lz_continues(
    log: Seq<MemCall>,
    src: int,
    done: int,
    flags: u8,
    bit: int,
    size: int,
    source: u32,
    dest: u32,
) -> bool {
    forall|l: Seq<MemCall>|
        #[trigger] lz_calls_from(l, log.len() as int, src, done, flags, bit, size, source, dest) && log.len()
            <= l.len() && l.subrange(0, log.len() as int) == log ==> lz_calls_from(
            l,
            4,
            4,
            0,
            0,
            8,
            size,
            source,
            dest,
        )
}

/// A step recorded at the end of the log carries the continuation from the
/// state before it to the state after it.
proof fn lemma_lz_step(
    before: Seq<MemCall>,
    log: Seq<MemCall>,
    src: int,
    done: int,
    flags: u8,
    bit: int,
    size: int,
    source: u32,
    dest: u32,
)
    requires
        done < size,
        before.len() <= log.len(),
        log.subrange(0, before.len() as int) == before,
        lz_continues(before, src, done, flags, bit, size, source, dest),
        lz_step_at(log, before.len() as int, src, done, flags, bit, size, source, dest),
        lz_next(log, before.len() as int, src, done, flags, bit, size).0 == log.len(),
    ensures
        ({
            let nx = lz_next(log, before.len() as int, src, done, flags, bit, size);
            lz_continues(log, nx.1, nx.2, nx.3, nx.4, size, source, dest)
        }),
{
    let i = before.len() as int;
    let nx = lz_next(log, i, src, done, flags, bit, size);
    assert forall|l: Seq<MemCall>|
        #[trigger] lz_calls_from(l, log.len() as int, nx.1, nx.2, nx.3, nx.4, size, source, dest) && log.len()
            <= l.len() && l.subrange(0, log.len() as int) == log implies lz_calls_from(
        l,
        4,
        4,
        0,
        0,
        8,
        size,
        source,
        dest,
    ) by {
        assert forall|j: int| 0 <= j < log.len() implies l[j] == log[j] by {
            assert(l.subrange(0, log.len() as int)[j] == l[j]);
        }
        assert(l.subrange(0, i) =~= before) by {
            assert forall|j: int| 0 <= j < i implies l.subrange(0, i)[j] == before[j] by {
                assert(log.subrange(0, i)[j] == log[j]);
            }
        }
        assert(lz_next(l, i, src, done, flags, bit, size) == nx);
        assert(lz_step_at(l, i, src, done, flags, bit, size, source, dest));
        assert(lz_calls_from(l, i, src, done, flags, bit, size, source, dest));
    }
}

/// LZ77UnComp: walks an LZ77 stream at `source` (a 32-bit header whose
/// upper 24 bits give the output size, then flag bytes, each announcing 8
/// literal bytes or back-references) and writes the output positions from
/// `dest` on through the callbacks; positions wrap at the end of the
/// address space. The log of the calls, recorded as each is made, opens
/// with the four header reads, goes on step by step as `lz_calls_from`
/// states (flag bytes and back-reference bytes read, output positions
/// written), and its writes are exactly the `stream_size` output positions
/// from `dest`, in order; each call in it is one the callbacks completed,
/// with the byte it gave.
pub fn lz77_uncomp<F: FnMut(u32) -> u8 + Clone>(
    source: u32,
    dest: u32,
    mut read_byte: F,
    mut write_byte: F,
) -> (calls: Ghost<Seq<MemCall>>)
    requires
        forall|a: u32| call_requires(read_byte, (a,)),
        forall|a: u32| call_requires(write_byte, (a,)),
    ensures
        header_reads(calls@, source),
        lz_calls_from(calls@, 4, 4, 0, 0, 8, stream_size(calls@), source, dest),
        writes_of(calls@) == out_positions(dest, stream_size(calls@)),
        byte_calls_done(calls@, read_byte, write_byte),
{
    let ghost rd = read_byte;
    let ghost wr = write_byte;
    let h0 = read_byte(source);
    let a1 = advance(source, 1);
    let h1 = read_byte(a1);
    let a2 = advance(source, 2);
    let h2 = read_byte(a2);
    let a3 = advance(source, 3);
    let h3 = read_byte(a3);
    let ghost hdr = seq![
        MemCall::Read(source, h0 as u32),
        MemCall::Read(a1, h1 as u32),
        MemCall::Read(a2, h2 as u32),
        MemCall::Read(a3, h3 as u32),
    ];
    let header = ((h3 as u32) << 24) | ((h2 as u32) << 16) | ((h1 as u32) << 8) | (h0 as u32);
    let decompressed_size = header >> 8;
    let ghost size = decompressed_size as int;
    proof {
        lemma_header_size(h0, h1, h2, h3);
        assert(wrap32(source + 0) == source);
        assert(header_reads(hdr, source));
        assert(byte_calls_done(hdr, rd, wr)) by {
            assert forall|i: int| 0 <= i < hdr.len() implies #[trigger] byte_call_done(hdr[i], rd, wr) by {
                if i == 0 {
                } else if i == 1 {
                } else if i == 2 {
                } else {
                }
            }
        }
        assert(writes_of(hdr) =~= out_positions(dest, 0)) by {
            reveal_with_fuel(writes_of, 5);
        }
        assert(dest == wrap32(dest + 0));
        assert forall|l: Seq<MemCall>|
            #[trigger] lz_calls_from(l, hdr.len() as int, 4, 0, 0, 8, size, source, dest) && hdr.len() <= l.len()
                && l.subrange(0, hdr.len() as int) == hdr implies lz_calls_from(l, 4, 4, 0, 0, 8, size, source, dest) by {}
    }
    let ghost mut log = hdr;
    let ghost mut src: int = 4;
    let ghost mut gflags: u8 = 0;
    let ghost mut gbit: int = 8;
    let mut src_pos = advance(source, 4);
    let mut dst_pos = dest;
    let mut remaining = decompressed_size;
    while remaining > 0
        invariant
            forall|a: u32| call_requires(read_byte, (a,)),
            forall|a: u32| call_requires(write_byte, (a,)),
            remaining <= decompressed_size,
            size == decompressed_size,
            decompressed_size == stream_size(hdr),
            log.len() >= 4,
            forall|j: int| 0 <= j < 4 ==> log[j] == hdr[j],
            read_byte == rd,
            write_byte == wr,
            byte_calls_done(log, rd, wr),
            writes_of(log) == out_positions(dest, decompressed_size - remaining),
            dst_pos == wrap32(dest + (decompressed_size - remaining)),
            src_pos == wrap32(source + src),
            remaining > 0 ==> gbit == 8,
            lz_continues(log, src, decompressed_size - remaining, gflags, gbit, size, source, dest),
        decreases remaining,
    {
        let ghost before = log;
        let flags = read_byte(src_pos);
        proof {
            lemma_byte_done_push(log, MemCall::Read(src_pos, flags as u32), rd, wr);
            lemma_read_step(log, src_pos, flags as u32);
            log = log.push(MemCall::Read(src_pos, flags as u32));
            assert(log.subrange(0, before.len() as int) =~= before);
            assert(read_value(log[before.len() as int]) as u8 == flags);
            lemma_lz_step(before, log, src, decompressed_size - remaining, gflags, gbit, size, source, dest);
            lemma_wrap_step(source + src, 1);
            src = src + 1;
            gflags = flags;
            gbit = 0;
        }
        src_pos = advance(src_pos, 1);
        let ghost outer_rem = remaining;
        let mut i: u32 = 0;
        while i < 8
            invariant
                forall|a: u32| call_requires(read_byte, (a,)),
                forall|a: u32| call_requires(write_byte, (a,)),
                0 < outer_rem <= decompressed_size,
                size == decompressed_size,
                remaining <= outer_rem,
                i > 0 ==> remaining < outer_rem,
                i <= 8,
                log.len() >= 4,
                forall|j: int| 0 <= j < 4 ==> log[j] == hdr[j],
                read_byte == rd,
                write_byte == wr,
                byte_calls_done(log, rd, wr),
                writes_of(log) == out_positions(dest, decompressed_size - remaining),
                dst_pos == wrap32(dest + (decompressed_size - remaining)),
                src_pos == wrap32(source + src),
                gflags == flags,
                gbit == i,
                lz_continues(log, src, decompressed_size - remaining, gflags, gbit, size, source, dest),
            ensures
                remaining < outer_rem,
                log.len() >= 4,
                forall|j: int| 0 <= j < 4 ==> log[j] == hdr[j],
                read_byte == rd,
                write_byte == wr,
                byte_calls_done(log, rd, wr),
                writes_of(log) == out_positions(dest, decompressed_size - remaining),
                dst_pos == wrap32(dest + (decompressed_size - remaining)),
                src_pos == wrap32(source + src),
                remaining > 0 ==> gbit == 8,
                lz_continues(log, src, decompressed_size - remaining, gflags, gbit, size, source, dest),
            decreases 8 - i,
        {
            if remaining == 0 {
                break;
            }
            let ghost item_start = log;
            let ghost done = decompressed_size - remaining;
            if (flags & (0x80u8 >> (i as u8))) == 0 {
                let written = write_byte(dst_pos);
                proof {
                    lemma_byte_done_push(log, MemCall::Write(dst_pos, written as u32), rd, wr);
                    lemma_write_step(log, dest, done, written as u32);
                    log = log.push(MemCall::Write(dst_pos, written as u32));
                    lemma_wrap_step(dest + done, 1);
                    assert(log.subrange(0, item_start.len() as int) =~= item_start);
                    assert(!lz_is_ref(gflags, gbit));
                    lemma_lz_step(item_start, log, src, done, gflags, gbit, size, source, dest);
                    lemma_wrap_step(source + src, 1);
                    src = src + 1;
                }
                dst_pos = advance(dst_pos, 1);
                src_pos = advance(src_pos, 1);
                remaining = remaining - 1;
            } else {
                let b1u = read_byte(src_pos);
                proof {
                    lemma_byte_done_push(log, MemCall::Read(src_pos, b1u as u32), rd, wr);
                    lemma_read_step(log, src_pos, b1u as u32);
                    log = log.push(MemCall::Read(src_pos, b1u as u32));
                    crate::bits::lemma_u8_field(b1u, 4, 0xF);
                    lemma_wrap_step(source + src, 1);
                }
                let second = advance(src_pos, 1);
                let b2u = read_byte(second);
                proof {
                    lemma_byte_done_push(log, MemCall::Read(second, b2u as u32), rd, wr);
                    lemma_read_step(log, second, b2u as u32);
                    log = log.push(MemCall::Read(second, b2u as u32));
                    lemma_wrap_step(source + src, 2);
                }
                src_pos = advance(src_pos, 2);
                let b1 = b1u as u16;
                let b2 = b2u as u16;
                let high = ((b1u >> 4) & 0xF) as u16;
                let length = (high + 3) as u32;
                let _disp = (((b1 & 0xF) << 8) | b2) as u32;
                let ghost reads_end = log;
                let mut k: u32 = 0;
                let ghost block_rem = remaining;
                while k < length
                    invariant
                        forall|a: u32| call_requires(write_byte, (a,)),
                        remaining <= block_rem,
                        k > 0 ==> remaining < block_rem,
                        block_rem - remaining == k,
                        k <= length,
                        0 < block_rem <= decompressed_size,
                        block_rem == decompressed_size - done,
                        length >= 3,
                        log.len() >= 4,
                        forall|j: int| 0 <= j < 4 ==> log[j] == hdr[j],
                        read_byte == rd,
                        write_byte == wr,
                        byte_calls_done(log, rd, wr),
                        writes_of(log) == out_positions(dest, decompressed_size - remaining),
                        dst_pos == wrap32(dest + (decompressed_size - remaining)),
                        log.len() == reads_end.len() + k,
                        forall|j: int| 0 <= j < reads_end.len() ==> log[j] == reads_end[j],
                        forall|j: int|
                            reads_end.len() <= j < log.len() ==> call_shape(#[trigger] log[j]) == (
                                true,
                                wrap32(dest + done + (j - reads_end.len())),
                            ),
                    ensures
                        remaining < block_rem,
                        block_rem - remaining == (if length < block_rem {
                            length as int
                        } else {
                            block_rem as int
                        }),
                        log.len() >= 4,
                        forall|j: int| 0 <= j < 4 ==> log[j] == hdr[j],
                        read_byte == rd,
                        write_byte == wr,
                        byte_calls_done(log, rd, wr),
                        writes_of(log) == out_positions(dest, decompressed_size - remaining),
                        dst_pos == wrap32(dest + (decompressed_size - remaining)),
                        log.len() == reads_end.len() + (block_rem - remaining),
                        forall|j: int| 0 <= j < reads_end.len() ==> log[j] == reads_end[j],
                        forall|j: int|
                            reads_end.len() <= j < log.len() ==> call_shape(#[trigger] log[j]) == (
                                true,
                                wrap32(dest + done + (j - reads_end.len())),
                            ),
                    decreases length - k,
                {
                    if remaining == 0 {
                        break;
                    }
                    let written = write_byte(dst_pos);
                    proof {
                        lemma_byte_done_push(log, MemCall::Write(dst_pos, written as u32), rd, wr);
                        lemma_write_step(log, dest, decompressed_size - remaining, written as u32);
                        log = log.push(MemCall::Write(dst_pos, written as u32));
                        lemma_wrap_step(dest + (decompressed_size - remaining), 1);
                    }
                    dst_pos = advance(dst_pos, 1);
                    remaining = remaining - 1;
                    k = k + 1;
                }
                proof {
                    assert(read_value(log[item_start.len() as int]) as u8 == b1u);
                    assert(lz_ref_length(b1u, size - done) == block_rem - remaining);
                    assert(log.subrange(0, item_start.len() as int) =~= item_start);
                    assert(lz_is_ref(gflags, gbit));
                    assert(lz_step_at(log, item_start.len() as int, src, done, gflags, gbit, size, source, dest));
                    lemma_lz_step(item_start, log, src, done, gflags, gbit, size, source, dest);
                    src = src + 2;
                }
            }
            i = i + 1;
            proof {
                gbit = gbit + 1;
            }
        }
    }
    proof {
        assert(log.subrange(0, 4) =~= hdr);
        assert(log.subrange(0, log.len() as int) =~= log);
        assert(lz_calls_from(log, log.len() as int, src, size, gflags, gbit, size, source, dest));
    }
    Ghost(log)
}

/// Length of the RLUnComp run announced by flag byte `flag`, cut to the
/// `left` bytes still missing: `flag + 1` literal bytes (bit 7 clear) or
/// `(flag & 0x7F) + 3` copies of one byte (bit 7 set).
pub open spec fn rl_run_length(flag: u8, left: int) -> int {
    let run: int = if flag & 0x80 == 0 {
        flag + 1
    } else {
        (flag & 0x7F) + 3
    };
    if run < left {
        run
    } else {
        left
    }
}

/// Index in the log of the first write of the run whose flag byte was read
/// at index `i`: after the flag, and for a repeated run after the byte to
/// repeat.
pub open spec fn rl_first_write(calls: Seq<MemCall>, i: int) -> int {
    if read_value(calls[i]) as u8 & 0x80 == 0 {
        i + 1
    } else {
        i + 2
    }
}

/// The run whose flag byte is read at log index `i`, with the stream at
/// offset `src` from `source` and `done` of `size` output bytes written:
/// the flag read at the stream position, for a repeated run the byte to
/// repeat read after it, then the run's writes at the next output
/// positions.
pub open spec fn rl_run_at(calls: Seq<MemCall>, i: int, src: int, done: int, size: int, source: u32, dest: u32) -> bool {
    let flag = read_value(calls[i]) as u8;
    let n = rl_run_length(flag, size - done);
    let first = rl_first_write(calls, i);
    &&& 0 <= i
    &&& first + n <= calls.len()
    &&& call_shape(calls[i]) == (false, wrap32(source + src))
    &&& flag & 0x80 != 0 ==> call_shape(calls[i + 1]) == (false, wrap32(source + src + 1))
    &&& forall|j: int|
        first <= j < first + n ==> call_shape(#[trigger] calls[j]) == (true, wrap32(dest + done + (j - first)))
}

/// The calls RLUnComp makes from log index `i` on, with the stream at
/// offset `src` and `done` of `size` output bytes written: none once all
/// are written, else a run (`rl_run_at`) and the calls after it; a literal
/// run's bytes are skipped in the stream, not read.
pub open spec fn rl_calls_from(calls: Seq<MemCall>, i: int, src: int, done: int, size: int, source: u32, dest: u32) -> bool
    decreases size - done,
{
    if done >= size {
        i == calls.len()
    } else {
        let flag = read_value(calls[i]) as u8;
        let n = rl_run_length(flag, size - done);
        &&& rl_run_at(calls, i, src, done, size, source, dest)
        &&& rl_calls_from(
            calls,
            rl_first_write(calls, i) + n,
            if flag & 0x80 == 0 {
                src + 1 + n
            } else {
                src + 2
            },
            done + n,
            size,
            source,
            dest,
        )
    }
}

/// Every log that starts with `log` and goes on as RLUnComp does from
/// (`src`, `done`) is, from the header on, as RLUnComp does from the start.
spec fn rl_continues(log: Seq<MemCall>, src: int, done: int, size: int, source: u32, dest: u32) -> bool {
    forall|l: Seq<MemCall>|
        #[trigger] rl_calls_from(l, log.len() as int, src, done, size, source, dest) && log.len() <= l.len()
            && l.subrange(0, log.len() as int) == log ==> rl_calls_from(l, 4, 4, 0, size, source, dest)
}

/// A run recorded at the end of the log carries the continuation from the
/// state before it to the state after it.
proof fn lemma_rl_run(
    before: Seq<MemCall>,
    log: Seq<MemCall>,
    src: int,
    done: int,
    size: int,
    source: u32,
    dest: u32,
)
    requires
        done < size,
        before.len() < log.len(),
        log.subrange(0, before.len() as int) == before,
        rl_continues(before, src, done, size, source, dest),
        rl_run_at(log, before.len() as int, src, done, size, source, dest),
        rl_first_write(log, before.len() as int) + rl_run_length(read_value(log[before.len() as int]) as u8, size - done)
            == log.len(),
    ensures
        ({
            let flag = read_value(log[before.len() as int]) as u8;
            let n = rl_run_length(flag, size - done);
            rl_continues(
                log,
                if flag & 0x80 == 0 {
                    src + 1 + n
                } else {
                    src + 2
                },
                done + n,
                size,
                source,
                dest,
            )
        }),
{
    let i = before.len() as int;
    let flag = read_value(log[i]) as u8;
    let n = rl_run_length(flag, size - done);
    let src2 = if flag & 0x80 == 0 {
        src + 1 + n
    } else {
        src + 2
    };
    assert forall|l: Seq<MemCall>|
        #[trigger] rl_calls_from(l, log.len() as int, src2, done + n, size, source, dest) && log.len() <= l.len()
            && l.subrange(0, log.len() as int) == log implies rl_calls_from(l, 4, 4, 0, size, source, dest) by {
        assert forall|j: int| 0 <= j < log.len() implies l[j] == log[j] by {
            assert(l.subrange(0, log.len() as int)[j] == l[j]);
        }
        assert(l.subrange(0, i) =~= before) by {
            assert forall|j: int| 0 <= j < i implies l.subrange(0, i)[j] == before[j] by {
                assert(log.subrange(0, i)[j] == log[j]);
            }
        }
        assert(rl_run_at(l, i, src, done, size, source, dest));
        assert(rl_calls_from(l, i, src, done, size, source, dest));
    }
}

/// RLUnComp: walks a run-length stream at `source` (a 32-bit header whose
/// upper 24 bits give the output size, then runs: flag bit 7 clear for
/// `flag + 1` literal bytes, set for `(flag & 0x7F) + 3` copies of one
/// byte, the last run cut to the bytes still missing) and writes the output
/// positions from `dest` on through the callbacks; positions wrap at the
/// end of the address space. The log of the calls, recorded as each is
/// made, opens with the four header reads, goes on run by run as
/// `rl_calls_from` states (the flag read, the repeated byte read, the run's
/// writes), and its writes are exactly the `stream_size` output positions
/// from `dest`, in order; each call in it is one the callbacks completed,
/// with the byte it gave.
pub fn rl_uncomp<F: FnMut(u32) -> u8 + Clone>(
    source: u32,
    dest: u32,
    mut read_byte: F,
    mut write_byte: F,
) -> (calls: Ghost<Seq<MemCall>>)
    requires
        forall|a: u32| call_requires(read_byte, (a,)),
        forall|a: u32| call_requires(write_byte, (a,)),
    ensures
        header_reads(calls@, source),
        rl_calls_from(calls@, 4, 4, 0, stream_size(calls@), source, dest),
        writes_of(calls@) == out_positions(dest, stream_size(calls@)),
        byte_calls_done(calls@, read_byte, write_byte),
{
    let ghost rd = read_byte;
    let ghost wr = write_byte;
    let h0 = read_byte(source);
    let a1 = advance(source, 1);
    let h1 = read_byte(a1);
    let a2 = advance(source, 2);
    let h2 = read_byte(a2);
    let a3 = advance(source, 3);
    let h3 = read_byte(a3);
    let ghost hdr = seq![
        MemCall::Read(source, h0 as u32),
        MemCall::Read(a1, h1 as u32),
        MemCall::Read(a2, h2 as u32),
        MemCall::Read(a3, h3 as u32),
    ];
    let header = ((h3 as u32) << 24) | ((h2 as u32) << 16) | ((h1 as u32) << 8) | (h0 as u32);
    let decompressed_size = header >> 8;
    proof {
        lemma_header_size(h0, h1, h2, h3);
        assert(wrap32(source + 0) == source);
        assert(header_reads(hdr, source));
        assert(byte_calls_done(hdr, rd, wr)) by {
            assert forall|i: int| 0 <= i < hdr.len() implies #[trigger] byte_call_done(hdr[i], rd, wr) by {
                if i == 0 {
                } else if i == 1 {
                } else if i == 2 {
                } else {
                }
            }
        }
        assert(writes_of(hdr) =~= out_positions(dest, 0)) by {
            reveal_with_fuel(writes_of, 5);
        }
        assert(dest == wrap32(dest + 0));
        assert forall|l: Seq<MemCall>|
            #[trigger] rl_calls_from(l, hdr.len() as int, 4, 0, decompressed_size as int, source, dest) && hdr.len()
                <= l.len() && l.subrange(0, hdr.len() as int) == hdr implies rl_calls_from(
            l,
            4,
            4,
            0,
            decompressed_size as int,
            source,
            dest,
        ) by {}
    }
    let ghost mut log = hdr;
    let ghost mut src: int = 4;
    let mut src_pos = advance(source, 4);
    let mut dst_pos = dest;
    let mut remaining = decompressed_size;
    while remaining > 0
        invariant
            forall|a: u32| call_requires(read_byte, (a,)),
            forall|a: u32| call_requires(write_byte, (a,)),
            remaining <= decompressed_size,
            decompressed_size == stream_size(hdr),
            log.len() >= 4,
            forall|j: int| 0 <= j < 4 ==> log[j] == hdr[j],
            read_byte == rd,
            write_byte == wr,
            byte_calls_done(log, rd, wr),
            writes_of(log) == out_positions(dest, decompressed_size - remaining),
            dst_pos == wrap32(dest + (decompressed_size - remaining)),
            src_pos == wrap32(source + src),
            rl_continues(log, src, decompressed_size - remaining, decompressed_size as int, source, dest),
        decreases remaining,
    {
        let ghost before = log;
        let ghost done = decompressed_size - remaining;
        let flag = read_byte(src_pos);
        proof {
            lemma_byte_done_push(log, MemCall::Read(src_pos, flag as u32), rd, wr);
            lemma_read_step(log, src_pos, flag as u32);
            log = log.push(MemCall::Read(src_pos, flag as u32));
            lemma_wrap_step(source + src, 1);
        }
        src_pos = advance(src_pos, 1);
        let literal = (flag & 0x80) == 0;
        let run = if literal {
            flag as u32 + 1
        } else {
            (flag & 0x7F) as u32 + 3
        };
        let length = if run < remaining {
            run
        } else {
            remaining
        };
        if !literal {
            let value = read_byte(src_pos);
            proof {
                lemma_byte_done_push(log, MemCall::Read(src_pos, value as u32), rd, wr);
                lemma_read_step(log, src_pos, value as u32);
                log = log.push(MemCall::Read(src_pos, value as u32));
                lemma_wrap_step(source + src + 1, 1);
            }
            src_pos = advance(src_pos, 1);
        }
        let ghost reads_end = log;
        proof {
            assert(read_value(log[before.len() as int]) as u8 == flag);
            assert(length == rl_run_length(flag, remaining as int));
            assert(rl_first_write(log, before.len() as int) == reads_end.len());
        }
        let mut k: u32 = 0;
        while k < length
            invariant
                forall|a: u32| call_requires(write_byte, (a,)),
                k <= length <= remaining <= decompressed_size,
                log.len() >= 4,
                forall|j: int| 0 <= j < 4 ==> log[j] == hdr[j],
                read_byte == rd,
                write_byte == wr,
                byte_calls_done(log, rd, wr),
                writes_of(log) == out_positions(dest, decompressed_size - remaining + k),
                dst_pos == wrap32(dest + (decompressed_size - remaining + k)),
                log.len() == reads_end.len() + k,
                literal ==> src_pos == wrap32(source + src + 1 + k),
                !literal ==> src_pos == wrap32(source + src + 2),
                forall|j: int| 0 <= j < reads_end.len() ==> log[j] == reads_end[j],
                forall|j: int|
                    reads_end.len() <= j < log.len() ==> call_shape(#[trigger] log[j]) == (
                        true,
                        wrap32(dest + (decompressed_size - remaining) + (j - reads_end.len())),
                    ),
            decreases length - k,
        {
            let written = write_byte(dst_pos);
            proof {
                lemma_byte_done_push(log, MemCall::Write(dst_pos, written as u32), rd, wr);
                lemma_write_step(log, dest, decompressed_size - remaining + k, written as u32);
                log = log.push(MemCall::Write(dst_pos, written as u32));
                lemma_wrap_step(dest + (decompressed_size - remaining + k), 1);
            }
            dst_pos = advance(dst_pos, 1);
            if literal {
                proof {
                    lemma_wrap_step(source + src + 1 + k, 1);
                }
                src_pos = advance(src_pos, 1);
            }
            k = k + 1;
        }
        proof {
            assert(read_value(log[before.len() as int]) as u8 == flag);
            assert(log.subrange(0, before.len() as int) =~= before);
            assert(rl_run_at(log, before.len() as int, src, done, decompressed_size as int, source, dest));
            lemma_rl_run(before, log, src, done, decompressed_size as int, source, dest);
            src = if literal {
                src + 1 + length
            } else {
                src + 2
            };
        }
        remaining = remaining - length;
    }
    proof {
        assert(log.subrange(0, 4) =~= hdr);
        assert(log.subrange(0, log.len() as int) =~= log);
        assert(rl_calls_from(log, log.len() as int, src, decompressed_size as int, decompressed_size as int, source, dest));
    }
    Ghost(log)
}

} // verus!
