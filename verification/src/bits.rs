use vstd::prelude::*;

verus! {

/// The two bytes of a halfword.
pub proof fn lemma_u16_bytes(v: u16)
    by (bit_vector)
    ensures
        v & 0xFF == v % 256,
        (v >> 8u16) & 0xFF == v / 256,
        v >> 8u16 == v / 256,
{
}

/// A halfword put together from two bytes.
pub proof fn lemma_u16_combine(lo: u16, hi: u16)
    by (bit_vector)
    requires
        lo < 256,
        hi < 256,
    ensures
        (hi << 8u16) | lo == lo + 256 * hi,
        lo | (hi << 8u16) == lo + 256 * hi,
{
}

/// The four bytes of a word.
pub proof fn lemma_u32_bytes(v: u32)
    by (bit_vector)
    ensures
        v & 0xFF == v % 256,
        (v >> 8u32) & 0xFF == (v / 0x100) % 256,
        (v >> 16u32) & 0xFF == (v / 0x1_0000) % 256,
        (v >> 24u32) & 0xFF == v / 0x100_0000,
        v >> 8u32 <= 0xFF_FFFF,
{
}

/// A word put together from four bytes.
pub proof fn lemma_u32_combine(b0: u32, b1: u32, b2: u32, b3: u32)
    by (bit_vector)
    requires
        b0 < 256,
        b1 < 256,
        b2 < 256,
        b3 < 256,
    ensures
        (b3 << 24u32) | (b2 << 16u32) | (b1 << 8u32) | b0 == b0 + 0x100 * b1 + 0x1_0000 * b2 + 0x100_0000
            * b3,
{
}

/// A field cut out of a byte by a shift and a mask is at most the mask;
/// cut out of zero it is zero; the two nibbles of a byte.
pub proof fn lemma_u8_field(v: u8, s: u8, m: u8)
    by (bit_vector)
    ensures
        (v >> s) & m <= m,
        v & m <= m,
        (0u8 >> s) & m == 0,
        0u8 & m == 0,
        v & 0xF == v % 16,
        (v >> 4u8) & 0xF == v / 16,
{
}

/// A field cut out of a halfword by a shift and a mask is at most the mask;
/// cut out of zero it is zero; masking twice is masking once.
pub proof fn lemma_u16_field(v: u16, s: u16, m: u16)
    by (bit_vector)
    ensures
        (v >> s) & m <= m,
        v & m <= m,
        (0u16 >> s) & m == 0,
        0u16 & m == 0,
        (v & m) & m == v & m,
        v >> 0u16 == v,
{
}

/// The same for words, with `m & m == m`.
pub proof fn lemma_u32_field(v: u32, s: u32, m: u32)
    by (bit_vector)
    ensures
        (v >> s) & m <= m,
        v & m <= m,
        (0u32 >> s) & m == 0,
        0u32 & m == 0,
        m & m == m,
        (v & !3u32) & 3u32 == 0,
        v & !3u32 <= v,
{
}

/// The same for 64-bit values, with the top two bits of a shift by 62.
pub proof fn lemma_u64_field(v: u64, s: u64, m: u64)
    by (bit_vector)
    ensures
        (v >> s) & m <= m,
        v & m <= m,
        v & m <= v,
        v >> 62u64 <= 3,
{
}

/// An unsigned byte other than 128 reads as a signed byte other than -128.
pub proof fn lemma_u8_as_i8(v: u8)
    by (bit_vector)
    requires
        v != 128,
    ensures
        (v as i8) != -128i8,
{
}

} // verus!
