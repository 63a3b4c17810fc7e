use crate::bits::{lemma_extension_fields, lemma_join20, lemma_le_word, lemma_top_five_bits};
use crate::decode_error::DecodeError;
use vstd::prelude::*;

verus! {

/// The little-endian 16-bit value of two bytes.
pub open spec fn le_word(lo: u8, hi: u8) -> u16 {
    (lo as int + 256 * hi as int) as u16
}

/// True when `w` has the MSP430X extension-word prefix: its top five bits are `00011`,
/// so it lies in `0x1800..=0x1FFF`.
pub open spec fn is_extension_prefix(w: u16) -> bool {
    w as int / 2048 == 3
}

/// Reads the little-endian word made of `lo` and `hi`.
pub fn read_le_word(lo: u8, hi: u8) -> (w: u16)
    ensures
        w == le_word(lo, hi),
{
    proof {
        lemma_le_word(lo, hi);
    }
    (lo as u16) | ((hi as u16) << 8)
}

/// Extension word of an MSP430X instruction.
#[derive(Debug, Clone, Copy, PartialEq, Eq, Structural)]
pub struct ExtensionWord {
    raw: u16,
}

impl View for ExtensionWord {
    type V = u16;

    open spec fn view(&self) -> u16 {
        self.spec_raw()
    }
}

impl ExtensionWord {
    pub closed spec fn spec_raw(&self) -> u16 {
        self.raw
    }

    /// Parse an extension word from raw bytes.
    pub fn parse(data: &[u8]) -> (r: Result<(Self, &[u8]), DecodeError>)
        ensures
            data@.len() < 2 ==> r == Err::<(Self, &[u8]), DecodeError>(DecodeError::MissingOperand),
            data@.len() >= 2 ==> match r {
                Ok((ext, rest)) => is_extension_prefix(le_word(data@[0], data@[1]))
                    && ext@ == le_word(data@[0], data@[1])
                    && rest@ == data@.subrange(2, data@.len() as int),
                Err(e) => !is_extension_prefix(le_word(data@[0], data@[1]))
                    && e == DecodeError::InvalidExtensionWord,
            },
    {
        if data.len() < 2 {
            return Err(DecodeError::MissingOperand);
        }
        let (word_bytes, remaining) = data.split_at(2);
        let word = read_le_word(word_bytes[0], word_bytes[1]);
        proof {
            lemma_top_five_bits(word);
        }
        if (word & 0xF800) != 0x1800 {
            return Err(DecodeError::InvalidExtensionWord);
        }
        Ok((ExtensionWord { raw: word }, remaining))
    }

    /// The source extension: bits 7 to 10, which give bits 16 to 19 of a 20-bit source operand.
    pub open spec fn spec_source_extension(&self) -> u8 {
        ((self@ as int / 128) % 16) as u8
    }

    /// The destination extension: bits 0 to 3, which give bits 16 to 19 of a 20-bit destination
    /// operand.
    pub open spec fn spec_dest_extension(&self) -> u8 {
        (self@ as int % 16) as u8
    }

    /// `value` widened to 20 bits with the source extension as its top four bits.
    pub open spec fn spec_extend_source(&self, value: u16) -> u32 {
        (self.spec_source_extension() as int * 65536 + value as int) as u32
    }

    /// `value` widened to 20 bits with the destination extension as its top four bits.
    pub open spec fn spec_extend_dest(&self, value: u16) -> u32 {
        (self.spec_dest_extension() as int * 65536 + value as int) as u32
    }

    /// Get the source extension bits (bits 7 to 10).
    /// These extend the source operand to 20 bits.
    pub fn source_extension(&self) -> (r: u8)
        ensures
            r == self.spec_source_extension(),
            r < 16,
    {
        proof {
            lemma_extension_fields(self.raw);
        }
        ((self.raw & 0x0780) >> 7) as u8
    }

    /// Get the destination extension bits (bits 0 to 3).
    /// These extend the destination operand to 20 bits.
    pub fn dest_extension(&self) -> (r: u8)
        ensures
            r == self.spec_dest_extension(),
            r < 16,
    {
        proof {
            lemma_extension_fields(self.raw);
        }
        (self.raw & 0x000F) as u8
    }

    /// Get the A/L bit (bit 6): false = Word (.W), true = Address (.A).
    pub fn source_is_address(&self) -> (r: bool)
        ensures
            r == ((self@ as int / 64) % 2 == 1),
    {
        proof {
            lemma_extension_fields(self.raw);
        }
        (self.raw & 0x0040) != 0
    }

    /// Get the ZC bit (bit 8), zero carry.
    pub fn zero_carry(&self) -> (r: bool)
        ensures
            r == ((self@ as int / 256) % 2 == 1),
    {
        proof {
            lemma_extension_fields(self.raw);
        }
        (self.raw & 0x0100) != 0
    }

    /// Get the repetition count for repeat instructions: bits 0 to 3, plus one.
    pub fn repeat_count(&self) -> (r: u8)
        ensures
            r == self@ as int % 16 + 1,
            1 <= r <= 16,
    {
        proof {
            lemma_extension_fields(self.raw);
        }
        ((self.raw & 0x000F) + 1) as u8
    }

    /// Extend a 16-bit source value to 20 bits using the source extension bits.
    pub fn extend_source(&self, value: u16) -> (r: u32)
        ensures
            r == self.spec_extend_source(value),
            r < 0x100000,
            r % 65536 == value,
            r / 65536 == self.spec_source_extension(),
    {
        let ext = self.source_extension() as u32;
        proof {
            lemma_join20(ext, value as u32);
        }
        (ext << 16) | (value as u32)
    }

    /// Extend a 16-bit destination value to 20 bits using the destination extension bits.
    pub fn extend_dest(&self, value: u16) -> (r: u32)
        ensures
            r == self.spec_extend_dest(value),
            r < 0x100000,
            r % 65536 == value,
            r / 65536 == self.spec_dest_extension(),
    {
        let ext = self.dest_extension() as u32;
        proof {
            lemma_join20(ext, value as u32);
        }
        (ext << 16) | (value as u32)
    }

    /// Get the raw extension word value.
    pub fn raw(&self) -> (r: u16)
        ensures
            r == self@,
    {
        self.raw
    }
}

} // verus!
