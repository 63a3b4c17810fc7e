use crate::emulate::Emulated;
use crate::jxx::Jxx;
use crate::msp430x_instructions::{
    AddressInstruction, Bra, Calla, PushPopMultiple, Reta, RotateMultiple,
};
use crate::single_operand::{Reti, SingleOperand};
use crate::two_operand::TwoOperand;
use vstd::prelude::*;

verus! {

/// A decoded MSP430 or MSP430X instruction.
#[derive(Debug, Clone, Copy, PartialEq, Eq)]
pub enum Instruction {
    // single operand
    Rrc(SingleOperand),
    Swpb(SingleOperand),
    Rra(SingleOperand),
    Sxt(SingleOperand),
    Push(SingleOperand),
    Call(SingleOperand),
    Reti(Reti),
    // jumps
    Jnz(Jxx),
    Jz(Jxx),
    Jlo(Jxx),
    Jc(Jxx),
    Jn(Jxx),
    Jge(Jxx),
    Jl(Jxx),
    Jmp(Jxx),
    // two operand
    Mov(TwoOperand),
    Add(TwoOperand),
    Addc(TwoOperand),
    Subc(TwoOperand),
    Sub(TwoOperand),
    Cmp(TwoOperand),
    Dadd(TwoOperand),
    Bit(TwoOperand),
    Bic(TwoOperand),
    Bis(TwoOperand),
    Xor(TwoOperand),
    And(TwoOperand),
    // emulated
    Adc(Emulated),
    Br(Emulated),
    Clr(Emulated),
    Clrc(Emulated),
    Clrn(Emulated),
    Clrz(Emulated),
    Dadc(Emulated),
    Dec(Emulated),
    Decd(Emulated),
    Dint(Emulated),
    Eint(Emulated),
    Inc(Emulated),
    Incd(Emulated),
    Inv(Emulated),
    Nop(Emulated),
    Pop(Emulated),
    Ret(Emulated),
    Rla(Emulated),
    Rlc(Emulated),
    Sbc(Emulated),
    Setc(Emulated),
    Setn(Emulated),
    Setz(Emulated),
    Tst(Emulated),
    // MSP430X
    Reta(Reta),
    Pushm(PushPopMultiple),
    Popm(PushPopMultiple),
    Rrcm(RotateMultiple),
    Rram(RotateMultiple),
    Rlam(RotateMultiple),
    Rrum(RotateMultiple),
    Mova(AddressInstruction),
    Cmpa(AddressInstruction),
    Adda(AddressInstruction),
    Suba(AddressInstruction),
    Calla(Calla),
    Bra(Bra),
}

impl Instruction {
    /// The size in bytes of the instruction and its operand data (an MSP430X extension
    /// word is not counted).
    pub open spec fn spec_size(&self) -> nat {
        match *self {
            Instruction::Rrc(i) | Instruction::Swpb(i) | Instruction::Rra(i) | Instruction::Sxt(i)
            | Instruction::Push(i) | Instruction::Call(i) => i.spec_size(),
            Instruction::Mov(i) | Instruction::Add(i) | Instruction::Addc(i) | Instruction::Subc(i)
            | Instruction::Sub(i) | Instruction::Cmp(i) | Instruction::Dadd(i) | Instruction::Bit(i)
            | Instruction::Bic(i) | Instruction::Bis(i) | Instruction::Xor(i) | Instruction::And(
                i,
            ) => i.spec_size(),
            Instruction::Adc(i) | Instruction::Br(i) | Instruction::Clr(i) | Instruction::Clrc(i)
            | Instruction::Clrn(i) | Instruction::Clrz(i) | Instruction::Dadc(i) | Instruction::Dec(
                i,
            ) | Instruction::Decd(i) | Instruction::Dint(i) | Instruction::Eint(i)
            | Instruction::Inc(i) | Instruction::Incd(i) | Instruction::Inv(i) | Instruction::Nop(i)
            | Instruction::Pop(i) | Instruction::Ret(i) | Instruction::Rla(i) | Instruction::Rlc(i)
            | Instruction::Sbc(i) | Instruction::Setc(i) | Instruction::Setn(i)
            | Instruction::Setz(i) | Instruction::Tst(i) => i.spec_size(),
            Instruction::Mova(i) | Instruction::Cmpa(i) | Instruction::Adda(i)
            | Instruction::Suba(i) => i.spec_size(),
            Instruction::Calla(i) => i.spec_size(),
            Instruction::Bra(i) => i.spec_size(),
            _ => 2,
        }
    }

    /// How the instruction is written, as each kind of instruction writes itself.
    pub open spec fn spec_text(&self) -> Seq<char> {
        match *self {
            Instruction::Rrc(i) | Instruction::Swpb(i) | Instruction::Rra(i) | Instruction::Sxt(i)
            | Instruction::Push(i) | Instruction::Call(i) => i.spec_text(),
            Instruction::Reti(_) => seq!['r', 'e', 't', 'i'],
            Instruction::Jnz(i) | Instruction::Jz(i) | Instruction::Jlo(i) | Instruction::Jc(i)
            | Instruction::Jn(i) | Instruction::Jge(i) | Instruction::Jl(i) | Instruction::Jmp(
                i,
            ) => i.spec_text(),
            Instruction::Mov(i) | Instruction::Add(i) | Instruction::Addc(i) | Instruction::Subc(i)
            | Instruction::Sub(i) | Instruction::Cmp(i) | Instruction::Dadd(i) | Instruction::Bit(i)
            | Instruction::Bic(i) | Instruction::Bis(i) | Instruction::Xor(i) | Instruction::And(
                i,
            ) => i.spec_text(),
            Instruction::Adc(i) | Instruction::Br(i) | Instruction::Clr(i) | Instruction::Clrc(i)
            | Instruction::Clrn(i) | Instruction::Clrz(i) | Instruction::Dadc(i) | Instruction::Dec(
                i,
            ) | Instruction::Decd(i) | Instruction::Dint(i) | Instruction::Eint(i)
            | Instruction::Inc(i) | Instruction::Incd(i) | Instruction::Inv(i) | Instruction::Nop(i)
            | Instruction::Pop(i) | Instruction::Ret(i) | Instruction::Rla(i) | Instruction::Rlc(i)
            | Instruction::Sbc(i) | Instruction::Setc(i) | Instruction::Setn(i)
            | Instruction::Setz(i) | Instruction::Tst(i) => i.spec_text(),
            Instruction::Reta(_) => seq!['r', 'e', 't', 'a'],
            Instruction::Pushm(i) | Instruction::Popm(i) => i.spec_text(),
            Instruction::Rrcm(i) | Instruction::Rram(i) | Instruction::Rlam(i)
            | Instruction::Rrum(i) => i.spec_text(),
            Instruction::Mova(i) | Instruction::Cmpa(i) | Instruction::Adda(i)
            | Instruction::Suba(i) => i.spec_text(),
            Instruction::Calla(i) => i.spec_text(),
            Instruction::Bra(i) => i.spec_text(),
        }
    }

    /// How the instruction is written.
    pub fn to_string(&self) -> (r: String)
        ensures
            r@ == self.spec_text(),
    {
        let mut s = String::new();
        match self {
            Instruction::Rrc(i) | Instruction::Swpb(i) | Instruction::Rra(i) | Instruction::Sxt(i)
            | Instruction::Push(i) | Instruction::Call(i) => i.push_text(&mut s),
            Instruction::Reti(i) => i.push_text(&mut s),
            Instruction::Jnz(i) | Instruction::Jz(i) | Instruction::Jlo(i) | Instruction::Jc(i)
            | Instruction::Jn(i) | Instruction::Jge(i) | Instruction::Jl(i) | Instruction::Jmp(
                i,
            ) => i.push_text(&mut s),
            Instruction::Mov(i) | Instruction::Add(i) | Instruction::Addc(i) | Instruction::Subc(i)
            | Instruction::Sub(i) | Instruction::Cmp(i) | Instruction::Dadd(i) | Instruction::Bit(i)
            | Instruction::Bic(i) | Instruction::Bis(i) | Instruction::Xor(i) | Instruction::And(
                i,
            ) => i.push_text(&mut s),
            Instruction::Adc(i) | Instruction::Br(i) | Instruction::Clr(i) | Instruction::Clrc(i)
            | Instruction::Clrn(i) | Instruction::Clrz(i) | Instruction::Dadc(i) | Instruction::Dec(
                i,
            ) | Instruction::Decd(i) | Instruction::Dint(i) | Instruction::Eint(i)
            | Instruction::Inc(i) | Instruction::Incd(i) | Instruction::Inv(i) | Instruction::Nop(i)
            | Instruction::Pop(i) | Instruction::Ret(i) | Instruction::Rla(i) | Instruction::Rlc(i)
            | Instruction::Sbc(i) | Instruction::Setc(i) | Instruction::Setn(i)
            | Instruction::Setz(i) | Instruction::Tst(i) => i.push_text(&mut s),
            Instruction::Reta(i) => {
                let t = i.to_string();
                s.append(t.as_str());
            },
            Instruction::Pushm(i) | Instruction::Popm(i) => {
                let t = i.to_string();
                s.append(t.as_str());
            },
            Instruction::Rrcm(i) | Instruction::Rram(i) | Instruction::Rlam(i)
            | Instruction::Rrum(i) => {
                let t = i.to_string();
                s.append(t.as_str());
            },
            Instruction::Mova(i) | Instruction::Cmpa(i) | Instruction::Adda(i)
            | Instruction::Suba(i) => {
                let t = i.to_string();
                s.append(t.as_str());
            },
            Instruction::Calla(i) => {
                let t = i.to_string();
                s.append(t.as_str());
            },
            Instruction::Bra(i) => {
                let t = i.to_string();
                s.append(t.as_str());
            },
        }
        proof {
            assert(s@ =~= self.spec_text());
        }
        s
    }

    /// Size in bytes of the instruction and its operand data.
    pub fn size(&self) -> (r: usize)
        ensures
            r == self.spec_size(),
    {
        match self {
            Instruction::Rrc(i) | Instruction::Swpb(i) | Instruction::Rra(i) | Instruction::Sxt(i)
            | Instruction::Push(i) | Instruction::Call(i) => i.size(),
            Instruction::Reti(i) => i.size(),
            Instruction::Jnz(i) | Instruction::Jz(i) | Instruction::Jlo(i) | Instruction::Jc(i)
            | Instruction::Jn(i) | Instruction::Jge(i) | Instruction::Jl(i) | Instruction::Jmp(i) => i.size(),
            Instruction::Mov(i) | Instruction::Add(i) | Instruction::Addc(i) | Instruction::Subc(i)
            | Instruction::Sub(i) | Instruction::Cmp(i) | Instruction::Dadd(i) | Instruction::Bit(i)
            | Instruction::Bic(i) | Instruction::Bis(i) | Instruction::Xor(i) | Instruction::And(
                i,
            ) => i.size(),
            Instruction::Adc(i) | Instruction::Br(i) | Instruction::Clr(i) | Instruction::Clrc(i)
            | Instruction::Clrn(i) | Instruction::Clrz(i) | Instruction::Dadc(i) | Instruction::Dec(
                i,
            ) | Instruction::Decd(i) | Instruction::Dint(i) | Instruction::Eint(i)
            | Instruction::Inc(i) | Instruction::Incd(i) | Instruction::Inv(i) | Instruction::Nop(i)
            | Instruction::Pop(i) | Instruction::Ret(i) | Instruction::Rla(i) | Instruction::Rlc(i)
            | Instruction::Sbc(i) | Instruction::Setc(i) | Instruction::Setn(i)
            | Instruction::Setz(i) | Instruction::Tst(i) => i.size(),
            Instruction::Reta(i) => i.size(),
            Instruction::Pushm(i) | Instruction::Popm(i) => i.size(),
            Instruction::Rrcm(i) | Instruction::Rram(i) | Instruction::Rlam(i)
            | Instruction::Rrum(i) => i.size(),
            Instruction::Mova(i) | Instruction::Cmpa(i) | Instruction::Adda(i)
            | Instruction::Suba(i) => i.size(),
            Instruction::Calla(i) => i.size(),
            Instruction::Bra(i) => i.size(),
        }
    }
}

} // verus!
