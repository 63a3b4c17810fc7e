use crate::operand::{operand_text, Operand};
use crate::text::{dec_digits, push_char, push_decimal};
use vstd::prelude::*;

verus! {

/// Whether a destination operand is a memory location addressed with a data word after the
/// instruction word: an indexed, symbolic or absolute operand of either width.
pub open spec fn is_memory_operand(op: Operand) -> bool {
    match op {
        Operand::Indexed(_) | Operand::Indexed20(_) | Operand::Symbolic(_)
        | Operand::Symbolic20(_) | Operand::Absolute(_) | Operand::Absolute20(_) => true,
        _ => false,
    }
}

/// MSP430X address instructions (MOVA, CMPA, ADDA, SUBA), which operate on 20-bit addresses.
#[derive(Debug, Clone, Copy, PartialEq, Eq)]
pub struct AddressInstruction {
    mnemonic: &'static str,
    source: Operand,
    destination: Operand,
}

impl AddressInstruction {
    pub closed spec fn spec_new(mnemonic: &'static str, source: Operand, destination: Operand) -> Self {
        AddressInstruction { mnemonic, source, destination }
    }

    pub closed spec fn spec_mnemonic(&self) -> &'static str {
        self.mnemonic
    }

    pub closed spec fn spec_source(&self) -> Operand {
        self.source
    }

    pub closed spec fn spec_destination(&self) -> Operand {
        self.destination
    }

    /// Instruction word, plus a data word for a source operand that has one, plus a data
    /// word for a memory destination (the extension word is not counted).
    pub open spec fn spec_size(&self) -> nat {
        2 + self.spec_source().spec_size() + if is_memory_operand(self.spec_destination()) {
            2nat
        } else {
            0nat
        }
    }

    /// An address instruction is the values it was made from.
    pub broadcast proof fn lemma_fields(mnemonic: &'static str, source: Operand, destination: Operand)
        ensures
            #![trigger Self::spec_new(mnemonic, source, destination)]
            Self::spec_new(mnemonic, source, destination).spec_mnemonic() == mnemonic,
            Self::spec_new(mnemonic, source, destination).spec_source() == source,
            Self::spec_new(mnemonic, source, destination).spec_destination() == destination,
    {
    }

    pub fn new(mnemonic: &'static str, source: Operand, destination: Operand) -> (r: Self)
        ensures
            r == Self::spec_new(mnemonic, source, destination),
            r.spec_mnemonic() == mnemonic,
            r.spec_source() == source,
            r.spec_destination() == destination,
    {
        AddressInstruction { mnemonic, source, destination }
    }

    pub fn mnemonic(&self) -> (r: &'static str)
        ensures
            r == self.spec_mnemonic(),
    {
        self.mnemonic
    }

    pub fn source(&self) -> (r: &Operand)
        ensures
            *r == self.spec_source(),
    {
        &self.source
    }

    pub fn destination(&self) -> (r: &Operand)
        ensures
            *r == self.spec_destination(),
    {
        &self.destination
    }

    /// How the instruction is written: `mova #0x12345, r15`.
    pub open spec fn spec_text(&self) -> Seq<char> {
        self.spec_mnemonic()@ + seq![' '] + operand_text(self.spec_source()) + seq![',', ' ']
            + operand_text(self.spec_destination())
    }

    pub fn to_string(&self) -> (r: String)
        ensures
            r@ == self.spec_text(),
    {
        let mut s = String::new();
        s.append(self.mnemonic);
        push_char(&mut s, ' ');
        self.source.push_text(&mut s);
        push_char(&mut s, ',');
        push_char(&mut s, ' ');
        self.destination.push_text(&mut s);
        proof {
            assert(s@ =~= self.spec_text());
        }
        s
    }

    pub fn size(&self) -> (r: usize)
        ensures
            r == self.spec_size(),
    {
        let mut size: usize = 2;
        match self.source {
            Operand::Indexed(_) | Operand::Indexed20(_) | Operand::Symbolic(_)
            | Operand::Symbolic20(_) | Operand::Immediate(_) | Operand::Immediate20(_)
            | Operand::Absolute(_) | Operand::Absolute20(_) => size += 2,
            _ => {},
        }
        match self.destination {
            Operand::Indexed(_) | Operand::Indexed20(_) | Operand::Symbolic(_)
            | Operand::Symbolic20(_) | Operand::Absolute(_) | Operand::Absolute20(_) => {
                size += 2
            },
            _ => {},
        }
        size
    }
}

/// CALLA: call a subroutine at a 20-bit address.
#[derive(Debug, Clone, Copy, PartialEq, Eq)]
pub struct Calla {
    destination: Operand,
}

impl Calla {
    pub closed spec fn spec_new(destination: Operand) -> Self {
        Calla { destination }
    }

    pub closed spec fn spec_destination(&self) -> Operand {
        self.destination
    }

    /// The instruction word, plus the data word of a destination that has one.
    pub open spec fn spec_size(&self) -> nat {
        2 + self.spec_destination().spec_size()
    }

    pub broadcast proof fn lemma_fields(destination: Operand)
        ensures
            #[trigger] Self::spec_new(destination).spec_destination() == destination,
    {
    }

    pub fn new(destination: Operand) -> (r: Self)
        ensures
            r == Self::spec_new(destination),
            r.spec_destination() == destination,
    {
        Calla { destination }
    }

    pub fn destination(&self) -> (r: &Operand)
        ensures
            *r == self.spec_destination(),
    {
        &self.destination
    }

    /// How the instruction is written: `calla #0x10000`.
    pub open spec fn spec_text(&self) -> Seq<char> {
        seq!['c', 'a', 'l', 'l', 'a', ' '] + operand_text(self.spec_destination())
    }

    pub fn to_string(&self) -> (r: String)
        ensures
            r@ == self.spec_text(),
    {
        let mut s = String::new();
        push_char(&mut s, 'c');
        push_char(&mut s, 'a');
        push_char(&mut s, 'l');
        push_char(&mut s, 'l');
        push_char(&mut s, 'a');
        push_char(&mut s, ' ');
        self.destination.push_text(&mut s);
        proof {
            assert(s@ =~= self.spec_text());
        }
        s
    }

    pub fn size(&self) -> (r: usize)
        ensures
            r == self.spec_size(),
    {
        match self.destination {
            Operand::RegisterDirect(_) => 2,
            Operand::Indexed(_) | Operand::Indexed20(_) | Operand::Immediate(_)
            | Operand::Immediate20(_) | Operand::Symbolic(_) | Operand::Symbolic20(_)
            | Operand::Absolute(_) | Operand::Absolute20(_) => 4,
            _ => 2,
        }
    }
}

/// Rotate/shift multiple: RRCM, RRAM, RLAM, RRUM.
#[derive(Debug, Clone, Copy, PartialEq, Eq)]
pub struct RotateMultiple {
    mnemonic: &'static str,
    count: u8,
    register: u8,
    is_address: bool,
}

impl RotateMultiple {
    pub closed spec fn spec_new(mnemonic: &'static str, count: u8, register: u8, is_address: bool) -> Self {
        RotateMultiple { mnemonic, count, register, is_address }
    }

    pub closed spec fn spec_mnemonic(&self) -> &'static str {
        self.mnemonic
    }

    pub closed spec fn spec_count(&self) -> u8 {
        self.count
    }

    pub closed spec fn spec_register(&self) -> u8 {
        self.register
    }

    pub closed spec fn spec_is_address(&self) -> bool {
        self.is_address
    }

    pub broadcast proof fn lemma_fields(mnemonic: &'static str, count: u8, register: u8, is_address: bool)
        ensures
            #![trigger Self::spec_new(mnemonic, count, register, is_address)]
            Self::spec_new(mnemonic, count, register, is_address).spec_mnemonic() == mnemonic,
            Self::spec_new(mnemonic, count, register, is_address).spec_count() == count,
            Self::spec_new(mnemonic, count, register, is_address).spec_register() == register,
            Self::spec_new(mnemonic, count, register, is_address).spec_is_address() == is_address,
    {
    }

    pub fn new(mnemonic: &'static str, count: u8, register: u8, is_address: bool) -> (r: Self)
        ensures
            r == Self::spec_new(mnemonic, count, register, is_address),
            r.spec_mnemonic() == mnemonic,
            r.spec_count() == count,
            r.spec_register() == register,
            r.spec_is_address() == is_address,
    {
        RotateMultiple { mnemonic, count, register, is_address }
    }

    pub fn mnemonic(&self) -> (r: &'static str)
        ensures
            r == self.spec_mnemonic(),
    {
        self.mnemonic
    }

    pub fn count(&self) -> (r: u8)
        ensures
            r == self.spec_count(),
    {
        self.count
    }

    pub fn register(&self) -> (r: u8)
        ensures
            r == self.spec_register(),
    {
        self.register
    }

    pub fn is_address(&self) -> (r: bool)
        ensures
            r == self.spec_is_address(),
    {
        self.is_address
    }

    /// How the instruction is written, as in `rlam.a #2, r15`.
    pub open spec fn spec_text(&self) -> Seq<char> {
        multiple_text(self.spec_mnemonic(), self.spec_count(), self.spec_register(), self.spec_is_address())
    }

    pub fn to_string(&self) -> (r: String)
        ensures
            r@ == self.spec_text(),
    {
        multiple_to_string(self.mnemonic, self.count, self.register, self.is_address)
    }

    /// Always one instruction word.
    pub fn size(&self) -> (r: usize)
        ensures
            r == 2,
    {
        2
    }
}

/// PUSHM/POPM: push or pop several registers.
#[derive(Debug, Clone, Copy, PartialEq, Eq)]
pub struct PushPopMultiple {
    mnemonic: &'static str,
    count: u8,
    register: u8,
    is_address: bool,
}

impl PushPopMultiple {
    pub closed spec fn spec_new(mnemonic: &'static str, count: u8, register: u8, is_address: bool) -> Self {
        PushPopMultiple { mnemonic, count, register, is_address }
    }

    pub closed spec fn spec_mnemonic(&self) -> &'static str {
        self.mnemonic
    }

    pub closed spec fn spec_count(&self) -> u8 {
        self.count
    }

    pub closed spec fn spec_register(&self) -> u8 {
        self.register
    }

    pub closed spec fn spec_is_address(&self) -> bool {
        self.is_address
    }

    pub broadcast proof fn lemma_fields(mnemonic: &'static str, count: u8, register: u8, is_address: bool)
        ensures
            #![trigger Self::spec_new(mnemonic, count, register, is_address)]
            Self::spec_new(mnemonic, count, register, is_address).spec_mnemonic() == mnemonic,
            Self::spec_new(mnemonic, count, register, is_address).spec_count() == count,
            Self::spec_new(mnemonic, count, register, is_address).spec_register() == register,
            Self::spec_new(mnemonic, count, register, is_address).spec_is_address() == is_address,
    {
    }

    pub fn new(mnemonic: &'static str, count: u8, register: u8, is_address: bool) -> (r: Self)
        ensures
            r == Self::spec_new(mnemonic, count, register, is_address),
            r.spec_mnemonic() == mnemonic,
            r.spec_count() == count,
            r.spec_register() == register,
            r.spec_is_address() == is_address,
    {
        PushPopMultiple { mnemonic, count, register, is_address }
    }

    pub fn mnemonic(&self) -> (r: &'static str)
        ensures
            r == self.spec_mnemonic(),
    {
        self.mnemonic
    }

    pub fn count(&self) -> (r: u8)
        ensures
            r == self.spec_count(),
    {
        self.count
    }

    pub fn register(&self) -> (r: u8)
        ensures
            r == self.spec_register(),
    {
        self.register
    }

    pub fn is_address(&self) -> (r: bool)
        ensures
            r == self.spec_is_address(),
    {
        self.is_address
    }

    /// How the instruction is written, as in `rlam.a #2, r15`.
    pub open spec fn spec_text(&self) -> Seq<char> {
        multiple_text(self.spec_mnemonic(), self.spec_count(), self.spec_register(), self.spec_is_address())
    }

    pub fn to_string(&self) -> (r: String)
        ensures
            r@ == self.spec_text(),
    {
        multiple_to_string(self.mnemonic, self.count, self.register, self.is_address)
    }

    /// Always one instruction word.
    pub fn size(&self) -> (r: usize)
        ensures
            r == 2,
    {
        2
    }
}

/// BRA: branch to a 20-bit address.
#[derive(Debug, Clone, Copy, PartialEq, Eq)]
pub struct Bra {
    destination: Operand,
}

impl Bra {
    pub closed spec fn spec_new(destination: Operand) -> Self {
        Bra { destination }
    }

    pub closed spec fn spec_destination(&self) -> Operand {
        self.destination
    }

    /// The instruction word, plus the data word of a destination that has one.
    pub open spec fn spec_size(&self) -> nat {
        2 + self.spec_destination().spec_size()
    }

    pub broadcast proof fn lemma_fields(destination: Operand)
        ensures
            #[trigger] Self::spec_new(destination).spec_destination() == destination,
    {
    }

    pub fn new(destination: Operand) -> (r: Self)
        ensures
            r == Self::spec_new(destination),
            r.spec_destination() == destination,
    {
        Bra { destination }
    }

    pub fn destination(&self) -> (r: &Operand)
        ensures
            *r == self.spec_destination(),
    {
        &self.destination
    }

    /// How the instruction is written: `bra &0x10000`.
    pub open spec fn spec_text(&self) -> Seq<char> {
        seq!['b', 'r', 'a', ' '] + operand_text(self.spec_destination())
    }

    pub fn to_string(&self) -> (r: String)
        ensures
            r@ == self.spec_text(),
    {
        let mut s = String::new();
        push_char(&mut s, 'b');
        push_char(&mut s, 'r');
        push_char(&mut s, 'a');
        push_char(&mut s, ' ');
        self.destination.push_text(&mut s);
        proof {
            assert(s@ =~= self.spec_text());
        }
        s
    }

    pub fn size(&self) -> (r: usize)
        ensures
            r == self.spec_size(),
    {
        match self.destination {
            Operand::RegisterDirect(_) => 2,
            Operand::Indexed(_) | Operand::Indexed20(_) | Operand::Symbolic(_)
            | Operand::Symbolic20(_) | Operand::Absolute(_) | Operand::Absolute20(_) => 4,
            Operand::Immediate(_) | Operand::Immediate20(_) => 4,
            _ => 2,
        }
    }
}

/// RETA: return from a subroutine called with a 20-bit address.
#[derive(Debug, Clone, Copy, PartialEq, Eq, Structural)]
pub struct Reta;

impl Reta {
    pub fn new() -> (r: Self)
        ensures
            r == Reta,
    {
        Reta
    }

    /// Always one instruction word.
    pub fn size(&self) -> (r: usize)
        ensures
            r == 2,
    {
        2
    }

    /// How the instruction is written: `reta`.
    pub fn to_string(&self) -> (r: String)
        ensures
            r@ == seq!['r', 'e', 't', 'a'],
    {
        let mut s = String::new();
        push_char(&mut s, 'r');
        push_char(&mut s, 'e');
        push_char(&mut s, 't');
        push_char(&mut s, 'a');
        proof {
            assert(s@ =~= seq!['r', 'e', 't', 'a']);
        }
        s
    }
}

/// How a register-count instruction is written: the mnemonic, `.a` or `.w`, then
/// `#count, rN`, as in `pushm.a #4, r15`.
pub open spec fn multiple_text(mnemonic: &'static str, count: u8, register: u8, is_address: bool) -> Seq<char> {
    mnemonic@ + seq!['.', if is_address { 'a' } else { 'w' }, ' ', '#'] + dec_digits(count as nat)
        + seq![',', ' ', 'r'] + dec_digits(register as nat)
}

/// Writes a register-count instruction.
fn multiple_to_string(mnemonic: &'static str, count: u8, register: u8, is_address: bool) -> (r: String)
    ensures
        r@ == multiple_text(mnemonic, count, register, is_address),
{
    let mut s = String::new();
    s.append(mnemonic);
    push_char(&mut s, '.');
    push_char(&mut s, if is_address { 'a' } else { 'w' });
    push_char(&mut s, ' ');
    push_char(&mut s, '#');
    push_decimal(&mut s, count as u32);
    push_char(&mut s, ',');
    push_char(&mut s, ' ');
    push_char(&mut s, 'r');
    push_decimal(&mut s, register as u32);
    proof {
        assert(s@ =~= multiple_text(mnemonic, count, register, is_address));
    }
    s
}

pub broadcast group group_msp430x_fields {
    AddressInstruction::lemma_fields,
    Calla::lemma_fields,
    RotateMultiple::lemma_fields,
    PushPopMultiple::lemma_fields,
    Bra::lemma_fields,
}

} // verus!
