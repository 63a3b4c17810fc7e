use crate::instruction::Instruction;
use crate::operand::{operand_text, optional_width_text, push_optional_width, Operand, OperandWidth};
use crate::text::push_char;
use crate::two_operand::TwoOperand;
use vstd::prelude::*;

verus! {

/// An emulated instruction: a two-operand instruction that reads as a simpler one
/// (for instance `ADD #1, dst` reads as `INC dst`). It keeps the instruction it stands for,
/// which gives its encoding and size.
#[derive(Debug, Clone, Copy, PartialEq, Eq)]
pub struct Emulated {
    mnemonic: &'static str,
    destination: Option<Operand>,
    operand_width: Option<OperandWidth>,
    origin: TwoOperand,
}

impl Emulated {
    pub closed spec fn spec_new(
        mnemonic: &'static str,
        destination: Option<Operand>,
        operand_width: Option<OperandWidth>,
        origin: TwoOperand,
    ) -> Self {
        Emulated { mnemonic, destination, operand_width, origin }
    }

    pub closed spec fn spec_mnemonic(&self) -> &'static str {
        self.mnemonic
    }

    pub closed spec fn spec_destination(&self) -> Option<Operand> {
        self.destination
    }

    pub closed spec fn spec_operand_width(&self) -> Option<OperandWidth> {
        self.operand_width
    }

    pub closed spec fn spec_origin(&self) -> TwoOperand {
        self.origin
    }

    /// The size of the instruction it stands for.
    pub open spec fn spec_size(&self) -> nat {
        self.spec_origin().spec_size()
    }

    pub broadcast proof fn lemma_fields(
        mnemonic: &'static str,
        destination: Option<Operand>,
        operand_width: Option<OperandWidth>,
        origin: TwoOperand,
    )
        ensures
            #![trigger Self::spec_new(mnemonic, destination, operand_width, origin)]
            Self::spec_new(mnemonic, destination, operand_width, origin).spec_mnemonic() == mnemonic,
            Self::spec_new(mnemonic, destination, operand_width, origin).spec_destination()
                == destination,
            Self::spec_new(mnemonic, destination, operand_width, origin).spec_operand_width()
                == operand_width,
            Self::spec_new(mnemonic, destination, operand_width, origin).spec_origin() == origin,
    {
    }

    pub fn new(
        mnemonic: &'static str,
        destination: Option<Operand>,
        operand_width: Option<OperandWidth>,
        origin: TwoOperand,
    ) -> (r: Self)
        ensures
            r == Self::spec_new(mnemonic, destination, operand_width, origin),
            r.spec_mnemonic() == mnemonic,
            r.spec_destination() == destination,
            r.spec_operand_width() == operand_width,
            r.spec_origin() == origin,
    {
        Emulated { mnemonic, destination, operand_width, origin }
    }

    pub fn mnemonic(&self) -> (r: &'static str)
        ensures
            r == self.spec_mnemonic(),
    {
        self.mnemonic
    }

    pub fn destination(&self) -> (r: Option<Operand>)
        ensures
            r == self.spec_destination(),
    {
        self.destination
    }

    pub fn operand_width(&self) -> (r: Option<OperandWidth>)
        ensures
            r == self.spec_operand_width(),
    {
        self.operand_width
    }

    pub fn origin(&self) -> (r: &TwoOperand)
        ensures
            *r == self.spec_origin(),
    {
        &self.origin
    }

    pub fn size(&self) -> (r: usize)
        ensures
            r == self.spec_size(),
    {
        self.origin.size()
    }

    /// How the instruction is written: the mnemonic, the width suffix if any, then the
    /// operand if any, as in `inc.w r5` or `ret`.
    pub open spec fn spec_text(&self) -> Seq<char> {
        self.spec_mnemonic()@ + optional_width_text(self.spec_operand_width()) + match self.spec_destination() {
            Some(op) => seq![' '] + operand_text(op),
            None => Seq::empty(),
        }
    }

    pub fn push_text(&self, s: &mut String)
        ensures
            final(s)@ == old(s)@ + self.spec_text(),
    {
        s.append(self.mnemonic);
        push_optional_width(s, self.operand_width);
        match self.destination {
            Some(op) => {
                push_char(s, ' ');
                op.push_text(s);
            },
            None => {},
        }
        proof {
            assert(final(s)@ =~= old(s)@ + self.spec_text());
        }
    }
}

/// The value of an operand that is a constant: a constant-generator value, or an immediate
/// read as a signed 16-bit number (so `#0xFFFF` is -1).
pub open spec fn constant_value(op: Operand) -> Option<int> {
    match op {
        Operand::Constant(c) => Some(c as int),
        Operand::Immediate(v) => Some((v as i16) as int),
        _ => None,
    }
}

/// The value of a constant operand, if the operand is one.
pub fn operand_constant(op: &Operand) -> (r: Option<i16>)
    ensures
        match r {
            Some(v) => constant_value(*op) == Some(v as int),
            None => constant_value(*op) is None,
        },
{
    match op {
        Operand::Constant(c) => Some(*c as i16),
        Operand::Immediate(v) => Some(*v as i16),
        _ => None,
    }
}

/// Whether two operands are the same.
pub fn same_operand(a: &Operand, b: &Operand) -> (r: bool)
    ensures
        r == (*a == *b),
{
    match (a, b) {
        (Operand::RegisterDirect(x), Operand::RegisterDirect(y)) => *x == *y,
        (Operand::Indexed((x, o)), Operand::Indexed((y, p))) => *x == *y && *o == *p,
        (Operand::Indexed20((x, o)), Operand::Indexed20((y, p))) => *x == *y && *o == *p,
        (Operand::RegisterIndirect(x), Operand::RegisterIndirect(y)) => *x == *y,
        (
            Operand::RegisterIndirectAutoIncrement(x),
            Operand::RegisterIndirectAutoIncrement(y),
        ) => *x == *y,
        (Operand::Symbolic(x), Operand::Symbolic(y)) => *x == *y,
        (Operand::Symbolic20(x), Operand::Symbolic20(y)) => *x == *y,
        (Operand::Immediate(x), Operand::Immediate(y)) => *x == *y,
        (Operand::Immediate20(x), Operand::Immediate20(y)) => *x == *y,
        (Operand::Absolute(x), Operand::Absolute(y)) => *x == *y,
        (Operand::Absolute20(x), Operand::Absolute20(y)) => *x == *y,
        (Operand::Constant(x), Operand::Constant(y)) => *x == *y,
        _ => false,
    }
}

/// Whether an operand is register `r` addressed directly.
pub open spec fn is_register(op: Operand, r: u8) -> bool {
    op matches Operand::RegisterDirect(x) && x == r
}

/// The emulated form of a two-operand instruction with the given opcode, if it has one,
/// after the MSP430 table of emulated instructions. With `src`, `dst` and width `w` of `inst`:
/// - MOV: `@SP+, PC` is RET; `@SP+, dst` is POP dst; `src, PC` is BR src; `#0, R3` is NOP;
///   `#0, dst` is CLR dst.
/// - ADD: `#1` is INC, `#2` is INCD, `dst, dst` is RLA.
/// - ADDC: `#0` is ADC, `dst, dst` is RLC.   - SUBC: `#0` is SBC.
/// - SUB: `#1` is DEC, `#2` is DECD.   - CMP: `#0` is TST.   - DADD: `#0` is DADC.
/// - BIC on SR: `#1` CLRC, `#2` CLRZ, `#4` CLRN, `#8` DINT.
/// - BIS on SR: `#1` SETC, `#2` SETZ, `#4` SETN, `#8` EINT.
/// - XOR: `#-1` is INV.
/// The forms that name an operand keep the width; RET, BR, NOP and the status-bit forms
/// have none.
pub open spec fn spec_emulate(opcode: u16, inst: TwoOperand) -> Option<Instruction> {
    let src = inst.spec_source();
    let dst = inst.spec_destination();
    let w = Some(inst.spec_operand_width());
    let cv = constant_value(src);
    let on_dst = |m: &'static str| Emulated::spec_new(m, Some(dst), w, inst);
    let bare = |m: &'static str| Emulated::spec_new(m, None, None, inst);
    if opcode == 4 {
        if src == Operand::RegisterIndirectAutoIncrement(1) && is_register(dst, 0) {
            Some(Instruction::Ret(bare("ret")))
        } else if src == Operand::RegisterIndirectAutoIncrement(1) {
            Some(Instruction::Pop(on_dst("pop")))
        } else if is_register(dst, 0) {
            Some(Instruction::Br(Emulated::spec_new("br", Some(src), None, inst)))
        } else if cv == Some(0int) && is_register(dst, 3) {
            Some(Instruction::Nop(bare("nop")))
        } else if cv == Some(0int) {
            Some(Instruction::Clr(on_dst("clr")))
        } else {
            None
        }
    } else if opcode == 5 {
        if cv == Some(1int) {
            Some(Instruction::Inc(on_dst("inc")))
        } else if cv == Some(2int) {
            Some(Instruction::Incd(on_dst("incd")))
        } else if src == dst {
            Some(Instruction::Rla(on_dst("rla")))
        } else {
            None
        }
    } else if opcode == 6 {
        if cv == Some(0int) {
            Some(Instruction::Adc(on_dst("adc")))
        } else if src == dst {
            Some(Instruction::Rlc(on_dst("rlc")))
        } else {
            None
        }
    } else if opcode == 7 {
        if cv == Some(0int) {
            Some(Instruction::Sbc(on_dst("sbc")))
        } else {
            None
        }
    } else if opcode == 8 {
        if cv == Some(1int) {
            Some(Instruction::Dec(on_dst("dec")))
        } else if cv == Some(2int) {
            Some(Instruction::Decd(on_dst("decd")))
        } else {
            None
        }
    } else if opcode == 9 {
        if cv == Some(0int) {
            Some(Instruction::Tst(on_dst("tst")))
        } else {
            None
        }
    } else if opcode == 10 {
        if cv == Some(0int) {
            Some(Instruction::Dadc(on_dst("dadc")))
        } else {
            None
        }
    } else if opcode == 12 && is_register(dst, 2) {
        if cv == Some(1int) {
            Some(Instruction::Clrc(bare("clrc")))
        } else if cv == Some(2int) {
            Some(Instruction::Clrz(bare("clrz")))
        } else if cv == Some(4int) {
            Some(Instruction::Clrn(bare("clrn")))
        } else if cv == Some(8int) {
            Some(Instruction::Dint(bare("dint")))
        } else {
            None
        }
    } else if opcode == 13 && is_register(dst, 2) {
        if cv == Some(1int) {
            Some(Instruction::Setc(bare("setc")))
        } else if cv == Some(2int) {
            Some(Instruction::Setz(bare("setz")))
        } else if cv == Some(4int) {
            Some(Instruction::Setn(bare("setn")))
        } else if cv == Some(8int) {
            Some(Instruction::Eint(bare("eint")))
        } else {
            None
        }
    } else if opcode == 14 {
        if cv == Some(-1int) {
            Some(Instruction::Inv(on_dst("inv")))
        } else {
            None
        }
    } else {
        None
    }
}

/// The emulated form of `inst`, a two-operand instruction with the given opcode, if it has
/// one.
pub fn emulate(opcode: u16, inst: &TwoOperand) -> (r: Option<Instruction>)
    ensures
        r == spec_emulate(opcode, *inst),
{
    let src = *inst.source();
    let dst = *inst.destination();
    let w = Some(inst.operand_width());
    let cv = operand_constant(&src);
    let is_zero = match cv { Some(v) => v == 0, None => false };
    let is_one = match cv { Some(v) => v == 1, None => false };
    let is_two = match cv { Some(v) => v == 2, None => false };
    let is_four = match cv { Some(v) => v == 4, None => false };
    let is_eight = match cv { Some(v) => v == 8, None => false };
    let is_minus_one = match cv { Some(v) => v == -1, None => false };
    let pops = match src { Operand::RegisterIndirectAutoIncrement(r) => r == 1, _ => false };
    let dst_pc = match dst { Operand::RegisterDirect(r) => r == 0, _ => false };
    let dst_sr = match dst { Operand::RegisterDirect(r) => r == 2, _ => false };
    let dst_cg = match dst { Operand::RegisterDirect(r) => r == 3, _ => false };
    let doubled = same_operand(&src, &dst);
    let origin = *inst;
    match opcode {
        4 => {
            if pops && dst_pc {
                Some(Instruction::Ret(Emulated::new("ret", None, None, origin)))
            } else if pops {
                Some(Instruction::Pop(Emulated::new("pop", Some(dst), w, origin)))
            } else if dst_pc {
                Some(Instruction::Br(Emulated::new("br", Some(src), None, origin)))
            } else if is_zero && dst_cg {
                Some(Instruction::Nop(Emulated::new("nop", None, None, origin)))
            } else if is_zero {
                Some(Instruction::Clr(Emulated::new("clr", Some(dst), w, origin)))
            } else {
                None
            }
        },
        5 => {
            if is_one {
                Some(Instruction::Inc(Emulated::new("inc", Some(dst), w, origin)))
            } else if is_two {
                Some(Instruction::Incd(Emulated::new("incd", Some(dst), w, origin)))
            } else if doubled {
                Some(Instruction::Rla(Emulated::new("rla", Some(dst), w, origin)))
            } else {
                None
            }
        },
        6 => {
            if is_zero {
                Some(Instruction::Adc(Emulated::new("adc", Some(dst), w, origin)))
            } else if doubled {
                Some(Instruction::Rlc(Emulated::new("rlc", Some(dst), w, origin)))
            } else {
                None
            }
        },
        7 => {
            if is_zero {
                Some(Instruction::Sbc(Emulated::new("sbc", Some(dst), w, origin)))
            } else {
                None
            }
        },
        8 => {
            if is_one {
                Some(Instruction::Dec(Emulated::new("dec", Some(dst), w, origin)))
            } else if is_two {
                Some(Instruction::Decd(Emulated::new("decd", Some(dst), w, origin)))
            } else {
                None
            }
        },
        9 => {
            if is_zero {
                Some(Instruction::Tst(Emulated::new("tst", Some(dst), w, origin)))
            } else {
                None
            }
        },
        10 => {
            if is_zero {
                Some(Instruction::Dadc(Emulated::new("dadc", Some(dst), w, origin)))
            } else {
                None
            }
        },
        12 => {
            if !dst_sr {
                None
            } else if is_one {
                Some(Instruction::Clrc(Emulated::new("clrc", None, None, origin)))
            } else if is_two {
                Some(Instruction::Clrz(Emulated::new("clrz", None, None, origin)))
            } else if is_four {
                Some(Instruction::Clrn(Emulated::new("clrn", None, None, origin)))
            } else if is_eight {
                Some(Instruction::Dint(Emulated::new("dint", None, None, origin)))
            } else {
                None
            }
        },
        13 => {
            if !dst_sr {
                None
            } else if is_one {
                Some(Instruction::Setc(Emulated::new("setc", None, None, origin)))
            } else if is_two {
                Some(Instruction::Setz(Emulated::new("setz", None, None, origin)))
            } else if is_four {
                Some(Instruction::Setn(Emulated::new("setn", None, None, origin)))
            } else if is_eight {
                Some(Instruction::Eint(Emulated::new("eint", None, None, origin)))
            } else {
                None
            }
        },
        14 => {
            if is_minus_one {
                Some(Instruction::Inv(Emulated::new("inv", Some(dst), w, origin)))
            } else {
                None
            }
        },
        _ => None,
    }
}

} // verus!
