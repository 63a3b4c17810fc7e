//! Facts about the bit masks and shifts the decoder uses, stated as arithmetic on the
//! word's value so that contracts can speak of bit fields as quotients and remainders.
use vstd::prelude::*;

verus! {

/// Combining two bytes with a shift and an or gives their little-endian value.
pub proof fn lemma_le_word(lo: u8, hi: u8)
    ensures
        (lo as u16) | ((hi as u16) << 8u16) == lo as int + 256 * hi as int,
{
    assert((lo as u16) | ((hi as u16) << 8u16) == lo as u16 + 256 * (hi as u16)) by (bit_vector);
}

/// Masking with `0xF800` selects the top five bits of a word.
pub proof fn lemma_top_five_bits(w: u16)
    ensures
        ((w & 0xF800u16) == 0x1800u16) == (w as int / 2048 == 3),
{
    assert(((w & 0xF800u16) == 0x1800u16) == (w / 2048 == 3)) by (bit_vector);
}

/// The extension-word fields, as masks and shifts and as quotients and remainders.
pub proof fn lemma_extension_fields(w: u16)
    ensures
        (w & 0x0780u16) >> 7u16 == (w as int / 128) % 16,
        w & 0x000Fu16 == w as int % 16,
        ((w & 0x0040u16) != 0) == ((w as int / 64) % 2 == 1),
        ((w & 0x0100u16) != 0) == ((w as int / 256) % 2 == 1),
{
    assert((w & 0x0780u16) >> 7u16 == (w / 128) % 16) by (bit_vector);
    assert(w & 0x000Fu16 == w % 16) by (bit_vector);
    assert(((w & 0x0040u16) != 0) == ((w / 64) % 2 == 1)) by (bit_vector);
    assert(((w & 0x0100u16) != 0) == ((w / 256) % 2 == 1)) by (bit_vector);
}

/// Or-ing a value below 16 shifted by 16 with a 16-bit value is their sum `hi * 65536 + lo`.
pub proof fn lemma_join20(hi: u32, lo: u32)
    requires
        hi < 16,
        lo < 65536,
    ensures
        (hi << 16u32) | lo == hi * 65536 + lo,
{
    assert((hi << 16u32) | lo == hi * 65536 + lo) by (bit_vector)
        requires
            hi < 16,
            lo < 65536,
    ;
}

/// The fields of an instruction word that the decoder reads, as masks and shifts and as
/// quotients and remainders.
pub proof fn lemma_word_fields(w: u16)
    ensures
        ((w & 0xFE00u16) == 0x1400u16) == (w as int / 512 == 10),
        ((w & 0xFE00u16) == 0x1600u16) == (w as int / 512 == 11),
        ((w & 0xFC00u16) == 0x0400u16) == (w as int / 1024 == 1),
        (w >> 4u16) & 0xFu16 == (w as int / 16) % 16,
        (w >> 8u16) & 0x3u16 == (w as int / 256) % 4,
        (w >> 6u16) & 0x3u16 == (w as int / 64) % 4,
        w & 0xFu16 == w as int % 16,
        ((w & 0x0100u16) != 0) == ((w as int / 256) % 2 == 1),
        ((w & 0x0010u16) != 0) == ((w as int / 16) % 2 == 1),
        (w >> 8u16) & 0xFFu16 == w as int / 256,
        ((w & 0xE000u16) == 0) == (w as int / 8192 == 0),
        ((w & 0xE000u16) == 0x2000u16) == (w as int / 8192 == 1),
        (0x0380u16 & w) >> 7u16 == (w as int / 128) % 8,
        (0x0030u16 & w) >> 4u16 == (w as int / 16) % 4,
        (0x0040u16 & w) >> 6u16 == (w as int / 64) % 2,
        (w & 0x1C00u16) >> 10u16 == (w as int / 1024) % 8,
        w & 0x03FFu16 == w as int % 1024,
        (w & 0xF000u16) >> 12u16 == w as int / 4096,
        (w & 0x0F00u16) >> 8u16 == (w as int / 256) % 16,
        (w & 0x0080u16) >> 7u16 == (w as int / 128) % 2,
        (w & 0x0040u16) >> 6u16 == (w as int / 64) % 2,
        (w & 0x0030u16) >> 4u16 == (w as int / 16) % 4,
        0xFu16 & w == w as int % 16,
{
    assert({
        &&& ((w & 0xFE00u16) == 0x1400u16) == (w / 512 == 10)
        &&& ((w & 0xFE00u16) == 0x1600u16) == (w / 512 == 11)
        &&& ((w & 0xFC00u16) == 0x0400u16) == (w / 1024 == 1)
        &&& (w >> 4u16) & 0xFu16 == (w / 16) % 16
        &&& (w >> 8u16) & 0x3u16 == (w / 256) % 4
        &&& (w >> 6u16) & 0x3u16 == (w / 64) % 4
        &&& w & 0xFu16 == w % 16
        &&& ((w & 0x0100u16) != 0) == ((w / 256) % 2 == 1)
        &&& ((w & 0x0010u16) != 0) == ((w / 16) % 2 == 1)
        &&& (w >> 8u16) & 0xFFu16 == w / 256
    }) by (bit_vector);
    assert({
        &&& ((w & 0xE000u16) == 0) == (w / 8192 == 0)
        &&& ((w & 0xE000u16) == 0x2000u16) == (w / 8192 == 1)
        &&& (0x0380u16 & w) >> 7u16 == (w / 128) % 8
        &&& (0x0030u16 & w) >> 4u16 == (w / 16) % 4
        &&& (0x0040u16 & w) >> 6u16 == (w / 64) % 2
        &&& (w & 0x1C00u16) >> 10u16 == (w / 1024) % 8
        &&& w & 0x03FFu16 == w % 1024
        &&& (w & 0xF000u16) >> 12u16 == w / 4096
        &&& (w & 0x0F00u16) >> 8u16 == (w / 256) % 16
        &&& (w & 0x0080u16) >> 7u16 == (w / 128) % 2
        &&& (w & 0x0040u16) >> 6u16 == (w / 64) % 2
        &&& (w & 0x0030u16) >> 4u16 == (w / 16) % 4
        &&& 0xFu16 & w == w % 16
    }) by (bit_vector);
}

/// The signed form of `lemma_join20`: a value below 16 shifted by 16, or-ed with a 16-bit
/// value, is `hi * 65536 + lo`.
pub proof fn lemma_join20_signed(hi: i32, lo: i32)
    requires
        0 <= hi < 16,
        0 <= lo < 65536,
    ensures
        (hi << 16i32) | lo == hi * 65536 + lo,
{
    assert((hi << 16i32) | lo == hi * 65536 + lo) by (bit_vector)
        requires
            0 <= hi < 16,
            0 <= lo < 65536,
    ;
}

} // verus!
