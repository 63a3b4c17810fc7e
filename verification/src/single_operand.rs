use crate::operand::{operand_text, optional_width_text, push_optional_width, Operand, OperandWidth};
use crate::text::push_char;
use vstd::prelude::*;

verus! {

/// A single-operand instruction (RRC, SWPB, RRA, SXT, PUSH, CALL): its mnemonic, its
/// operand and, for the instructions that have a .B/.W form, the operand width.
#[derive(Debug, Clone, Copy, PartialEq, Eq)]
pub struct SingleOperand {
    mnemonic: &'static str,
    source: Operand,
    operand_width: Option<OperandWidth>,
}

impl SingleOperand {
    pub closed spec fn spec_new(
        mnemonic: &'static str,
        source: Operand,
        operand_width: Option<OperandWidth>,
    ) -> Self {
        SingleOperand { mnemonic, source, operand_width }
    }

    pub closed spec fn spec_mnemonic(&self) -> &'static str {
        self.mnemonic
    }

    pub closed spec fn spec_source(&self) -> Operand {
        self.source
    }

    pub closed spec fn spec_operand_width(&self) -> Option<OperandWidth> {
        self.operand_width
    }

    /// The instruction word, plus the data word of an operand that has one.
    pub open spec fn spec_size(&self) -> nat {
        2 + self.spec_source().spec_size()
    }

    pub broadcast proof fn lemma_fields(
        mnemonic: &'static str,
        source: Operand,
        operand_width: Option<OperandWidth>,
    )
        ensures
            #![trigger Self::spec_new(mnemonic, source, operand_width)]
            Self::spec_new(mnemonic, source, operand_width).spec_mnemonic() == mnemonic,
            Self::spec_new(mnemonic, source, operand_width).spec_source() == source,
            Self::spec_new(mnemonic, source, operand_width).spec_operand_width() == operand_width,
    {
    }

    pub fn new(mnemonic: &'static str, source: Operand, operand_width: Option<OperandWidth>) -> (r: Self)
        ensures
            r == Self::spec_new(mnemonic, source, operand_width),
            r.spec_mnemonic() == mnemonic,
            r.spec_source() == source,
            r.spec_operand_width() == operand_width,
    {
        SingleOperand { mnemonic, source, operand_width }
    }

    pub fn mnemonic(&self) -> (r: &'static str)
        ensures
            r == self.spec_mnemonic(),
    {
        self.mnemonic
    }

    pub fn source(&self) -> (r: &Operand)
        ensures
            *r == self.spec_source(),
    {
        &self.source
    }

    pub fn operand_width(&self) -> (r: Option<OperandWidth>)
        ensures
            r == self.spec_operand_width(),
    {
        self.operand_width
    }

    pub fn size(&self) -> (r: usize)
        ensures
            r == self.spec_size(),
    {
        2 + self.source.size()
    }

    /// How the instruction is written: the mnemonic, the width suffix if any, then the
    /// operand, as in `rrc.w r5`.
    pub open spec fn spec_text(&self) -> Seq<char> {
        self.spec_mnemonic()@ + optional_width_text(self.spec_operand_width()) + seq![' ']
            + operand_text(self.spec_source())
    }

    pub fn push_text(&self, s: &mut String)
        ensures
            final(s)@ == old(s)@ + self.spec_text(),
    {
        s.append(self.mnemonic);
        push_optional_width(s, self.operand_width);
        push_char(s, ' ');
        self.source.push_text(s);
        proof {
            assert(final(s)@ =~= old(s)@ + self.spec_text());
        }
    }
}

/// RETI: return from interrupt.
#[derive(Debug, Clone, Copy, PartialEq, Eq, Structural)]
pub struct Reti;

impl Reti {
    pub fn new() -> (r: Self)
        ensures
            r == Reti,
    {
        Reti
    }

    /// Always one instruction word.
    pub fn size(&self) -> (r: usize)
        ensures
            r == 2,
    {
        2
    }

    pub fn push_text(&self, s: &mut String)
        ensures
            final(s)@ == old(s)@ + seq!['r', 'e', 't', 'i'],
    {
        push_char(s, 'r');
        push_char(s, 'e');
        push_char(s, 't');
        push_char(s, 'i');
        proof {
            assert(final(s)@ =~= old(s)@ + seq!['r', 'e', 't', 'i']);
        }
    }
}

} // verus!
