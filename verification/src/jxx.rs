use crate::text::{push_char, push_signed, signed_text};
use vstd::prelude::*;

verus! {

/// The signed value of a 10-bit jump offset field (two's complement), in words.
pub open spec fn spec_jxx_offset(offset: u16) -> int {
    if offset >= 512 {
        offset - 1024
    } else {
        offset as int
    }
}

/// Sign-extends the 10-bit offset field of a jump instruction.
pub fn jxx_fix_offset(offset: u16) -> (r: i16)
    requires
        offset < 1024,
    ensures
        r == spec_jxx_offset(offset),
        -512 <= r < 512,
{
    if offset >= 512 {
        (offset as i16) - 1024
    } else {
        offset as i16
    }
}

/// A conditional or unconditional jump (JNZ, JZ, JLO, JC, JN, JGE, JL, JMP) with its
/// signed offset in words.
#[derive(Debug, Clone, Copy, PartialEq, Eq)]
pub struct Jxx {
    mnemonic: &'static str,
    offset: i16,
}

impl Jxx {
    pub closed spec fn spec_new(mnemonic: &'static str, offset: i16) -> Self {
        Jxx { mnemonic, offset }
    }

    pub closed spec fn spec_mnemonic(&self) -> &'static str {
        self.mnemonic
    }

    pub closed spec fn spec_offset(&self) -> i16 {
        self.offset
    }

    pub broadcast proof fn lemma_fields(mnemonic: &'static str, offset: i16)
        ensures
            #![trigger Self::spec_new(mnemonic, offset)]
            Self::spec_new(mnemonic, offset).spec_mnemonic() == mnemonic,
            Self::spec_new(mnemonic, offset).spec_offset() == offset,
    {
    }

    pub fn new(mnemonic: &'static str, offset: i16) -> (r: Self)
        ensures
            r == Self::spec_new(mnemonic, offset),
            r.spec_mnemonic() == mnemonic,
            r.spec_offset() == offset,
    {
        Jxx { mnemonic, offset }
    }

    pub fn mnemonic(&self) -> (r: &'static str)
        ensures
            r == self.spec_mnemonic(),
    {
        self.mnemonic
    }

    pub fn offset(&self) -> (r: i16)
        ensures
            r == self.spec_offset(),
    {
        self.offset
    }

    /// Always one instruction word.
    pub fn size(&self) -> (r: usize)
        ensures
            r == 2,
    {
        2
    }

    /// How the jump is written: the mnemonic, then the signed offset in words, as in `jnz -3`.
    pub open spec fn spec_text(&self) -> Seq<char> {
        self.spec_mnemonic()@ + seq![' '] + signed_text(self.spec_offset() as int)
    }

    pub fn push_text(&self, s: &mut String)
        ensures
            final(s)@ == old(s)@ + self.spec_text(),
    {
        s.append(self.mnemonic);
        push_char(s, ' ');
        push_signed(s, self.offset as i32);
        proof {
            assert(final(s)@ =~= old(s)@ + self.spec_text());
        }
    }
}

} // verus!
