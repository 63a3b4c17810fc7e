use crate::operand::{operand_text, width_text, Operand, OperandWidth};
use crate::text::push_char;
use vstd::prelude::*;

verus! {

/// A two-operand instruction (MOV, ADD, ADDC, SUBC, SUB, CMP, DADD, BIT, BIC, BIS, XOR,
/// AND): its mnemonic, source, width and destination.
#[derive(Debug, Clone, Copy, PartialEq, Eq)]
pub struct TwoOperand {
    mnemonic: &'static str,
    source: Operand,
    operand_width: OperandWidth,
    destination: Operand,
}

impl TwoOperand {
    pub closed spec fn spec_new(
        mnemonic: &'static str,
        source: Operand,
        operand_width: OperandWidth,
        destination: Operand,
    ) -> Self {
        TwoOperand { mnemonic, source, operand_width, destination }
    }

    pub closed spec fn spec_mnemonic(&self) -> &'static str {
        self.mnemonic
    }

    pub closed spec fn spec_source(&self) -> Operand {
        self.source
    }

    pub closed spec fn spec_operand_width(&self) -> OperandWidth {
        self.operand_width
    }

    pub closed spec fn spec_destination(&self) -> Operand {
        self.destination
    }

    /// The instruction word, plus the data words of both operands.
    pub open spec fn spec_size(&self) -> nat {
        2 + self.spec_source().spec_size() + self.spec_destination().spec_size()
    }

    pub broadcast proof fn lemma_fields(
        mnemonic: &'static str,
        source: Operand,
        operand_width: OperandWidth,
        destination: Operand,
    )
        ensures
            #![trigger Self::spec_new(mnemonic, source, operand_width, destination)]
            Self::spec_new(mnemonic, source, operand_width, destination).spec_mnemonic() == mnemonic,
            Self::spec_new(mnemonic, source, operand_width, destination).spec_source() == source,
            Self::spec_new(mnemonic, source, operand_width, destination).spec_operand_width()
                == operand_width,
            Self::spec_new(mnemonic, source, operand_width, destination).spec_destination()
                == destination,
    {
    }

    pub fn new(
        mnemonic: &'static str,
        source: Operand,
        operand_width: OperandWidth,
        destination: Operand,
    ) -> (r: Self)
        ensures
            r == Self::spec_new(mnemonic, source, operand_width, destination),
            r.spec_mnemonic() == mnemonic,
            r.spec_source() == source,
            r.spec_operand_width() == operand_width,
            r.spec_destination() == destination,
    {
        TwoOperand { mnemonic, source, operand_width, destination }
    }

    pub fn mnemonic(&self) -> (r: &'static str)
        ensures
            r == self.spec_mnemonic(),
    {
        self.mnemonic
    }

    pub fn source(&self) -> (r: &Operand)
        ensures
            *r == self.spec_source(),
    {
        &self.source
    }

    pub fn operand_width(&self) -> (r: OperandWidth)
        ensures
            r == self.spec_operand_width(),
    {
        self.operand_width
    }

    pub fn destination(&self) -> (r: &Operand)
        ensures
            *r == self.spec_destination(),
    {
        &self.destination
    }

    pub fn size(&self) -> (r: usize)
        ensures
            r == self.spec_size(),
    {
        2 + self.source.size() + self.destination.size()
    }

    /// How the instruction is written: mnemonic, width suffix, source and destination, as in
    /// `mov.w r15, r14`.
    pub open spec fn spec_text(&self) -> Seq<char> {
        self.spec_mnemonic()@ + width_text(self.spec_operand_width()) + seq![' '] + operand_text(
            self.spec_source(),
        ) + seq![',', ' '] + operand_text(self.spec_destination())
    }

    pub fn push_text(&self, s: &mut String)
        ensures
            final(s)@ == old(s)@ + self.spec_text(),
    {
        s.append(self.mnemonic);
        self.operand_width.push_text(s);
        push_char(s, ' ');
        self.source.push_text(s);
        push_char(s, ',');
        push_char(s, ' ');
        self.destination.push_text(s);
        proof {
            assert(final(s)@ =~= old(s)@ + self.spec_text());
        }
    }
}

} // verus!
