//! Lifting decoded instructions to IL statements.
use crate::emulate::Emulated;
use crate::instruction::Instruction;
use crate::jxx::Jxx;
use crate::llil::{
    auto_increment, lift_source_operand, msp430x_address_write, operand_registers_valid,
    optional_width_to_size, size_or_word, spec_address_write, spec_auto_increment,
    spec_source_expr, spec_width_to_size, spec_write_back, width_to_size, write_back, BinaryOp,
    CarryOp, Condition, Expr, Flag, FlagWrite, Label, Stmt, UnaryOp, is_writable, SR,
};
use crate::msp430x_instructions::{AddressInstruction, PushPopMultiple, RotateMultiple};
use crate::operand::{Operand, OperandWidth};
use crate::single_operand::SingleOperand;
use crate::two_operand::TwoOperand;
use vstd::prelude::*;

verus! {

/// The address a jump at `addr` with a word offset goes to: `addr + 2 + 2 * offset`,
/// wrapping at 64 bits.
pub open spec fn jump_target(addr: u64, offset: i16) -> u64 {
    ((addr as int + 2 + 2 * offset as int) % 0x1_0000_0000_0000_0000) as u64
}

/// The address a jump at `addr` with a word offset goes to.
pub fn offset_to_absolute(addr: u64, offset: i16) -> (r: u64)
    ensures
        r == jump_target(addr, offset),
{
    addr.wrapping_add_signed(2 + 2 * (offset as i64))
}

/// Whether `labels` holds a label at `addr`.
pub fn has_label(labels: &[u64], addr: u64) -> (r: bool)
    ensures
        r == labels@.contains(addr),
{
    let mut i: usize = 0;
    while i < labels.len()
        invariant
            i <= labels@.len(),
            forall|j: int| 0 <= j < i ==> labels@[j] != addr,
        decreases labels@.len() - i,
    {
        if labels[i] == addr {
            return true;
        }
        i += 1;
    }
    false
}

/// `op(size, a, b)` writing the given flags.
pub open spec fn binary(op: BinaryOp, size: usize, a: Expr, b: Expr, flags: FlagWrite) -> Expr {
    Expr::Binary(op, size, Box::new(a), Box::new(b), flags)
}

/// `value`, sign-extended from a byte to a word when the width is a byte.
pub open spec fn byte_extend(width: Option<OperandWidth>, value: Expr) -> Expr {
    if width == Some(OperandWidth::Byte) {
        Expr::Unary(UnaryOp::SignExtend, 2, Box::new(value), FlagWrite::NoFlags)
    } else {
        value
    }
}

fn make_byte_extend(width: Option<OperandWidth>, value: Expr) -> (r: Expr)
    ensures
        r == byte_extend(width, value),
{
    match width {
        Some(OperandWidth::Byte) => Expr::Unary(
            UnaryOp::SignExtend,
            2,
            Box::new(value),
            FlagWrite::NoFlags,
        ),
        _ => value,
    }
}

/// `flag = value`, for a constant value.
pub open spec fn set_flag(flag: Flag, value: u64) -> Stmt {
    Stmt::SetFlag(flag, Expr::Const(0, value))
}

/// `C = !Z`.
pub open spec fn carry_from_not_zero() -> Stmt {
    Stmt::SetFlag(Flag::C, Expr::Unary(UnaryOp::Not, 0, Box::new(Expr::Flag(Flag::Z)), FlagWrite::NoFlags))
}

fn make_set_flag(flag: Flag, value: u64) -> (s: Stmt)
    ensures
        s == set_flag(flag, value),
{
    Stmt::SetFlag(flag, Expr::Const(0, value))
}

fn make_carry_from_not_zero() -> (s: Stmt)
    ensures
        s == carry_from_not_zero(),
{
    Stmt::SetFlag(
        Flag::C,
        Expr::Unary(UnaryOp::Not, 0, Box::new(Expr::Flag(Flag::Z)), FlagWrite::NoFlags),
    )
}

/// The register `end - i` (wrapping in a byte).
pub open spec fn register_below(end: u8, i: int) -> u8 {
    (if end >= i {
        end - i
    } else {
        end - i + 256
    }) as u8
}

/// The registers that PUSHM with `n` registers ending at `end` pushes, in push order:
/// `end`, `end - 1`, ..., `end - n + 1`, leaving out any that is not one of the sixteen.
pub open spec fn pushm_registers(end: u8, n: nat) -> Seq<u8>
    decreases n,
{
    if n == 0 {
        Seq::empty()
    } else {
        let r = register_below(end, n - 1);
        let before = pushm_registers(end, (n - 1) as nat);
        if r < 16 {
            before.push(r)
        } else {
            before
        }
    }
}

/// The registers that POPM with `n` registers ending at `end` pops, in pop order:
/// `end - n + 1`, ..., `end`, leaving out any that is not one of the sixteen.
pub open spec fn popm_registers(end: u8, n: nat) -> Seq<u8>
    decreases n,
{
    if n == 0 {
        Seq::empty()
    } else {
        let r = register_below(end, n - 1);
        let after = popm_registers(end, (n - 1) as nat);
        if r < 16 {
            seq![r] + after
        } else {
            after
        }
    }
}

/// The IL size of an address (`.A`) or word (`.W`) operation.
pub open spec fn address_or_word(is_address: bool) -> usize {
    if is_address {
        3
    } else {
        2
    }
}

/// A conditional jump at `addr`: branch on the condition to the jump target or fall through
/// to `addr + 2`, using the labels that already mark those addresses and fresh labels
/// (with an explicit jump to the target) for the others.
pub open spec fn spec_conditional_jump(addr: u64, inst: Jxx, cond: Condition, labels: Seq<u64>) -> Seq<Stmt> {
    let t = jump_target(addr, inst.spec_offset());
    let f = (addr + 2) as u64;
    let c = Expr::FlagCond(cond);
    if labels.contains(t) && labels.contains(f) {
        seq![Stmt::If(c, Label::At(t), Label::At(f))]
    } else if labels.contains(t) {
        seq![Stmt::If(c, Label::At(t), Label::Fresh(0)), Stmt::MarkLabel(Label::Fresh(0))]
    } else if labels.contains(f) {
        seq![
            Stmt::If(c, Label::Fresh(0), Label::At(f)),
            Stmt::MarkLabel(Label::Fresh(0)),
            Stmt::Jump(Expr::ConstPtr(t)),
        ]
    } else {
        seq![
            Stmt::If(c, Label::Fresh(0), Label::Fresh(1)),
            Stmt::MarkLabel(Label::Fresh(0)),
            Stmt::Jump(Expr::ConstPtr(t)),
            Stmt::MarkLabel(Label::Fresh(1)),
        ]
    }
}

/// A single-operand instruction that computes `value` from its operand and writes it back.
pub open spec fn spec_one_operand(inst: SingleOperand, value: Expr) -> Seq<Stmt> {
    spec_write_back(inst.spec_source(), value)
}

/// The value that a rotate or shift by one of a single operand computes.
pub open spec fn shift_one(inst: SingleOperand, op: BinaryOp, flags: FlagWrite) -> Expr {
    let size = size_or_word(inst.spec_operand_width());
    byte_extend(
        inst.spec_operand_width(),
        binary(op, size, spec_source_expr(inst.spec_source(), size), Expr::Const(size, 1), flags),
    )
}

/// A two-operand instruction: the value written back to the destination, the statements
/// after the write, then the source's auto-increment.
pub open spec fn spec_two_operand(inst: TwoOperand, value: Expr, after: Seq<Stmt>) -> Seq<Stmt> {
    spec_write_back(inst.spec_destination(), byte_extend(Some(inst.spec_operand_width()), value))
        + after + spec_auto_increment(inst.spec_source())
}

/// Source and destination of a two-operand instruction, read at its width.
pub open spec fn two_operand_src(inst: TwoOperand) -> Expr {
    spec_source_expr(inst.spec_source(), spec_width_to_size(inst.spec_operand_width()))
}

pub open spec fn two_operand_dst(inst: TwoOperand) -> Expr {
    spec_source_expr(inst.spec_destination(), spec_width_to_size(inst.spec_operand_width()))
}

/// An emulated instruction's destination, read at its width.
pub open spec fn emulated_dst(inst: Emulated) -> Expr {
    spec_source_expr(inst.spec_destination()->0, size_or_word(inst.spec_operand_width()))
}

/// An emulated instruction that writes `value` back to its destination.
pub open spec fn spec_emulated(inst: Emulated, value: Expr) -> Seq<Stmt> {
    spec_write_back(inst.spec_destination()->0, byte_extend(inst.spec_operand_width(), value))
}

/// An address instruction's operands, read as 20-bit values.
pub open spec fn address_src(inst: AddressInstruction) -> Expr {
    spec_source_expr(inst.spec_source(), 3)
}

pub open spec fn address_dst(inst: AddressInstruction) -> Expr {
    spec_source_expr(inst.spec_destination(), 3)
}

/// A rotate or shift of a register by a count: `r = op(r, count)` at the instruction's size.
pub open spec fn spec_rotate(inst: RotateMultiple, op: BinaryOp, flags: FlagWrite) -> Stmt {
    let size = address_or_word(inst.spec_is_address());
    let r = inst.spec_register();
    Stmt::SetReg(
        size,
        r,
        binary(op, size, Expr::Reg(size, r), Expr::Const(size, inst.spec_count() as u64), flags),
        FlagWrite::NoFlags,
    )
}

/// What lifting needs of an instruction so that every register it names exists and every
/// destination it writes can be written (the lifter stops the program otherwise), and, for a
/// conditional jump, that the fall-through address `addr + 2` exists.
pub open spec fn can_lift(inst: Instruction, addr: u64) -> bool {
    match inst {
        Instruction::Rrc(i) | Instruction::Swpb(i) | Instruction::Rra(i) | Instruction::Sxt(i)
        | Instruction::Push(i) | Instruction::Call(i) => operand_registers_valid(i.spec_source()),
        Instruction::Jnz(_) | Instruction::Jz(_) | Instruction::Jlo(_) | Instruction::Jc(_)
        | Instruction::Jn(_) | Instruction::Jge(_) | Instruction::Jl(_) => addr + 2 <= u64::MAX,
        Instruction::Cmp(i) | Instruction::Bit(i) => operand_registers_valid(i.spec_source())
            && operand_registers_valid(i.spec_destination()),
        Instruction::Mov(i) | Instruction::Add(i) | Instruction::Addc(i) | Instruction::Subc(i)
        | Instruction::Sub(i) | Instruction::Dadd(i) | Instruction::Bic(i) | Instruction::Bis(i)
        | Instruction::Xor(i) | Instruction::And(i) => operand_registers_valid(i.spec_source())
            && operand_registers_valid(i.spec_destination()) && is_writable(i.spec_destination()),
        Instruction::Adc(i) | Instruction::Clr(i) | Instruction::Dadc(i) | Instruction::Dec(i)
        | Instruction::Decd(i) | Instruction::Inc(i) | Instruction::Incd(i) | Instruction::Inv(i)
        | Instruction::Rla(i) | Instruction::Rlc(i) | Instruction::Sbc(i) => match i.spec_destination() {
            Some(d) => operand_registers_valid(d) && is_writable(d),
            None => false,
        },
        Instruction::Tst(i) => match i.spec_destination() {
            Some(d) => operand_registers_valid(d),
            None => false,
        },
        Instruction::Br(i) => match i.spec_destination() {
            Some(Operand::Immediate(_)) => true,
            Some(d) => operand_registers_valid(d),
            None => false,
        },
        Instruction::Pop(i) => match i.spec_destination() {
            Some(Operand::RegisterDirect(r)) => r < 16,
            _ => true,
        },
        Instruction::Mova(i) | Instruction::Adda(i) | Instruction::Suba(i) => operand_registers_valid(
            i.spec_source(),
        ) && operand_registers_valid(i.spec_destination()) && is_writable(i.spec_destination()),
        Instruction::Cmpa(i) => operand_registers_valid(i.spec_source()) && operand_registers_valid(
            i.spec_destination(),
        ),
        Instruction::Bra(i) => match i.spec_destination() {
            Operand::Immediate(_) | Operand::Immediate20(_) | Operand::Absolute(_)
            | Operand::Absolute20(_) => true,
            d => operand_registers_valid(d),
        },
        Instruction::Calla(i) => match i.spec_destination() {
            Operand::Immediate(_) | Operand::Immediate20(_) => true,
            d => operand_registers_valid(d),
        },
        Instruction::Rrcm(i) | Instruction::Rram(i) | Instruction::Rlam(i) | Instruction::Rrum(i) => i.spec_register() < 16,
        _ => true,
    }
}

/// The IL statements for `inst` at address `addr`, where `labels` are the addresses that
/// already have labels in the function being lifted.
pub open spec fn spec_lift(inst: Instruction, addr: u64, labels: Seq<u64>) -> Seq<Stmt> {
    match inst {
        Instruction::Rrc(i) => if i.spec_source() == Operand::RegisterDirect(0) {
            seq![Stmt::Unimplemented]
        } else {
            spec_one_operand(i, shift_one(i, BinaryOp::RotateRightCarry, FlagWrite::All))
        },
        Instruction::Swpb(i) => spec_one_operand(
            i,
            binary(BinaryOp::RotateLeft, 2, spec_source_expr(i.spec_source(), 2), Expr::Const(2, 8), FlagWrite::NoFlags),
        ),
        Instruction::Rra(i) => spec_one_operand(
            i,
            shift_one(i, BinaryOp::RotateRight, FlagWrite::Cnz),
        ).push(set_flag(Flag::V, 0)),
        Instruction::Sxt(i) => spec_one_operand(
            i,
            Expr::Unary(UnaryOp::SignExtend, 2, Box::new(spec_source_expr(i.spec_source(), 1)), FlagWrite::Nz),
        ).push(set_flag(Flag::V, 0)).push(carry_from_not_zero()),
        Instruction::Push(i) => {
            let size = size_or_word(i.spec_operand_width());
            seq![Stmt::Push(size, spec_source_expr(i.spec_source(), size))] + spec_auto_increment(i.spec_source())
        },
        Instruction::Call(i) => {
            let target = match i.spec_source() {
                Operand::Immediate(v) => Expr::ConstPtr(v as u64),
                src => spec_source_expr(src, size_or_word(i.spec_operand_width())),
            };
            seq![Stmt::Call(target)] + spec_auto_increment(i.spec_source())
        },
        Instruction::Reti(_) => seq![
            Stmt::SetReg(2, SR, Expr::Pop(2), FlagWrite::All),
            Stmt::Ret(Expr::Pop(2)),
        ],
        Instruction::Jnz(i) => spec_conditional_jump(addr, i, Condition::NotEqual, labels),
        Instruction::Jz(i) => spec_conditional_jump(addr, i, Condition::Equal, labels),
        Instruction::Jlo(i) => spec_conditional_jump(addr, i, Condition::UnsignedLessThan, labels),
        Instruction::Jc(i) => spec_conditional_jump(addr, i, Condition::UnsignedGreaterOrEqual, labels),
        Instruction::Jn(i) => spec_conditional_jump(addr, i, Condition::Negative, labels),
        Instruction::Jge(i) => spec_conditional_jump(addr, i, Condition::SignedGreaterOrEqual, labels),
        Instruction::Jl(i) => spec_conditional_jump(addr, i, Condition::SignedLessThan, labels),
        Instruction::Jmp(i) => {
            let t = jump_target(addr, i.spec_offset());
            if labels.contains(t) {
                seq![Stmt::Goto(Label::At(t))]
            } else {
                seq![Stmt::Jump(Expr::ConstPtr(t))]
            }
        },
        Instruction::Mov(i) => spec_two_operand(i, two_operand_src(i), Seq::empty()),
        Instruction::Add(i) | Instruction::Dadd(i) => spec_two_operand(
            i,
            binary(BinaryOp::Add, spec_width_to_size(i.spec_operand_width()), two_operand_src(i), two_operand_dst(i), FlagWrite::All),
            Seq::empty(),
        ),
        Instruction::Addc(i) => spec_two_operand(
            i,
            Expr::Carry(
                CarryOp::AddWithCarry,
                spec_width_to_size(i.spec_operand_width()),
                Box::new(two_operand_src(i)),
                Box::new(two_operand_dst(i)),
                Box::new(Expr::Flag(Flag::C)),
                FlagWrite::All,
            ),
            Seq::empty(),
        ),
        Instruction::Subc(i) => spec_two_operand(
            i,
            Expr::Carry(
                CarryOp::SubWithBorrow,
                spec_width_to_size(i.spec_operand_width()),
                Box::new(two_operand_dst(i)),
                Box::new(two_operand_src(i)),
                Box::new(Expr::Flag(Flag::C)),
                FlagWrite::All,
            ),
            Seq::empty(),
        ),
        Instruction::Sub(i) => spec_two_operand(
            i,
            binary(BinaryOp::Sub, spec_width_to_size(i.spec_operand_width()), two_operand_src(i), two_operand_dst(i), FlagWrite::All),
            Seq::empty(),
        ),
        Instruction::Cmp(i) => seq![
            Stmt::Eval(binary(BinaryOp::Sub, spec_width_to_size(i.spec_operand_width()), two_operand_dst(i), two_operand_src(i), FlagWrite::All)),
        ] + spec_auto_increment(i.spec_source()),
        Instruction::Bit(i) => seq![
            Stmt::Eval(binary(BinaryOp::And, spec_width_to_size(i.spec_operand_width()), two_operand_src(i), two_operand_dst(i), FlagWrite::Nz)),
            set_flag(Flag::V, 0),
            carry_from_not_zero(),
        ] + spec_auto_increment(i.spec_source()),
        Instruction::Bic(i) => {
            let size = spec_width_to_size(i.spec_operand_width());
            spec_two_operand(
                i,
                binary(BinaryOp::And, size, Expr::Unary(UnaryOp::Not, size, Box::new(two_operand_src(i)), FlagWrite::NoFlags), two_operand_dst(i), FlagWrite::NoFlags),
                Seq::empty(),
            )
        },
        Instruction::Bis(i) => spec_two_operand(
            i,
            binary(BinaryOp::Or, spec_width_to_size(i.spec_operand_width()), two_operand_src(i), two_operand_dst(i), FlagWrite::NoFlags),
            Seq::empty(),
        ),
        Instruction::Xor(i) => spec_two_operand(
            i,
            binary(BinaryOp::Xor, spec_width_to_size(i.spec_operand_width()), two_operand_src(i), two_operand_dst(i), FlagWrite::Nvz),
            seq![carry_from_not_zero()],
        ),
        Instruction::And(i) => spec_two_operand(
            i,
            binary(BinaryOp::And, spec_width_to_size(i.spec_operand_width()), two_operand_src(i), two_operand_dst(i), FlagWrite::Nz),
            seq![set_flag(Flag::V, 0), carry_from_not_zero()],
        ),
        Instruction::Adc(i) | Instruction::Dadc(i) => {
            let size = size_or_word(i.spec_operand_width());
            spec_emulated(
                i,
                Expr::Carry(
                    CarryOp::AddWithCarry,
                    size,
                    Box::new(Expr::Const(size, 0)),
                    Box::new(emulated_dst(i)),
                    Box::new(Expr::Flag(Flag::C)),
                    FlagWrite::All,
                ),
            )
        },
        Instruction::Sbc(i) => {
            let size = size_or_word(i.spec_operand_width());
            spec_emulated(
                i,
                Expr::Carry(
                    CarryOp::SubWithBorrow,
                    size,
                    Box::new(emulated_dst(i)),
                    Box::new(Expr::Const(size, 0)),
                    Box::new(Expr::Flag(Flag::C)),
                    FlagWrite::All,
                ),
            )
        },
        Instruction::Br(i) => match i.spec_destination() {
            Some(Operand::Immediate(v)) => if labels.contains(v as u64) {
                seq![Stmt::Goto(Label::At(v as u64))]
            } else {
                seq![Stmt::Jump(Expr::ConstPtr(v as u64))]
            },
            _ => seq![Stmt::Jump(spec_source_expr(i.spec_destination()->0, 2))],
        },
        Instruction::Clr(i) => spec_write_back(i.spec_destination()->0, Expr::Const(2, 0)),
        Instruction::Clrc(_) => seq![set_flag(Flag::C, 0)],
        Instruction::Clrn(_) => seq![set_flag(Flag::N, 0)],
        Instruction::Clrz(_) => seq![set_flag(Flag::Z, 0)],
        Instruction::Dec(i) | Instruction::Decd(i) => {
            let size = size_or_word(i.spec_operand_width());
            let amount: u64 = if inst is Dec { 1 } else { 2 };
            spec_emulated(i, binary(BinaryOp::Sub, size, emulated_dst(i), Expr::Const(size, amount), FlagWrite::All))
        },
        Instruction::Inc(i) | Instruction::Incd(i) => {
            let size = size_or_word(i.spec_operand_width());
            let amount: u64 = if inst is Inc { 1 } else { 2 };
            spec_emulated(i, binary(BinaryOp::Add, size, emulated_dst(i), Expr::Const(size, amount), FlagWrite::All))
        },
        Instruction::Dint(_) | Instruction::Eint(_) => Seq::empty(),
        Instruction::Inv(i) => {
            let size = size_or_word(i.spec_operand_width());
            spec_emulated(i, Expr::Unary(UnaryOp::Not, size, Box::new(emulated_dst(i)), FlagWrite::Nvz)).push(
                carry_from_not_zero(),
            )
        },
        Instruction::Nop(_) => seq![Stmt::Nop],
        Instruction::Pop(i) => match i.spec_destination() {
            Some(Operand::RegisterDirect(r)) => seq![
                Stmt::SetReg(size_or_word(i.spec_operand_width()), r, Expr::Pop(2), FlagWrite::NoFlags),
            ],
            _ => Seq::empty(),
        },
        Instruction::Ret(_) => seq![Stmt::Ret(Expr::Pop(2))],
        Instruction::Rla(i) | Instruction::Rlc(i) => {
            let size = size_or_word(i.spec_operand_width());
            let op = if inst is Rla { BinaryOp::RotateLeft } else { BinaryOp::RotateLeftCarry };
            spec_emulated(i, binary(op, size, emulated_dst(i), Expr::Const(size, 1), FlagWrite::All))
        },
        Instruction::Setc(_) => seq![set_flag(Flag::C, 1)],
        Instruction::Setn(_) => seq![set_flag(Flag::N, 1)],
        Instruction::Setz(_) => seq![set_flag(Flag::Z, 1)],
        Instruction::Tst(i) => {
            let size = size_or_word(i.spec_operand_width());
            seq![
                Stmt::Eval(binary(BinaryOp::Sub, size, emulated_dst(i), Expr::Const(size, 0), FlagWrite::Nz)),
                set_flag(Flag::V, 0),
                set_flag(Flag::C, 1),
            ]
        },
        Instruction::Mova(i) => spec_address_write(i.spec_destination(), address_src(i)),
        Instruction::Cmpa(i) => seq![
            Stmt::Eval(binary(BinaryOp::Sub, 3, address_dst(i), address_src(i), FlagWrite::All)),
        ],
        Instruction::Adda(i) => spec_address_write(
            i.spec_destination(),
            binary(BinaryOp::Add, 3, address_src(i), address_dst(i), FlagWrite::All),
        ),
        Instruction::Suba(i) => spec_address_write(
            i.spec_destination(),
            binary(BinaryOp::Sub, 3, address_dst(i), address_src(i), FlagWrite::All),
        ),
        Instruction::Bra(i) => seq![
            Stmt::Jump(
                match i.spec_destination() {
                    Operand::Immediate20(v) | Operand::Absolute20(v) => Expr::ConstPtr(v as u64),
                    Operand::Immediate(v) | Operand::Absolute(v) => Expr::ConstPtr(v as u64),
                    d => spec_source_expr(d, 3),
                },
            ),
        ],
        Instruction::Calla(i) => seq![
            Stmt::Call(
                match i.spec_destination() {
                    Operand::Immediate20(v) => Expr::ConstPtr(v as u64),
                    Operand::Immediate(v) => Expr::ConstPtr(v as u64),
                    d => spec_source_expr(d, 3),
                },
            ),
        ],
        Instruction::Reta(_) => seq![Stmt::Ret(Expr::Pop(3))],
        Instruction::Rrcm(i) => seq![spec_rotate(i, BinaryOp::RotateRightCarry, FlagWrite::All)],
        Instruction::Rram(i) => seq![
            spec_rotate(i, BinaryOp::ShiftRightArithmetic, FlagWrite::Cnz),
            set_flag(Flag::V, 0),
        ],
        Instruction::Rlam(i) => seq![spec_rotate(i, BinaryOp::ShiftLeft, FlagWrite::All)],
        Instruction::Rrum(i) => seq![
            spec_rotate(i, BinaryOp::ShiftRightLogical, FlagWrite::Cnz),
            set_flag(Flag::V, 0),
        ],
        Instruction::Pushm(i) => {
            let size = address_or_word(i.spec_is_address());
            pushm_registers(i.spec_register(), i.spec_count() as nat).map_values(
                |r: u8| Stmt::Push(size, Expr::Reg(size, r)),
            )
        },
        Instruction::Popm(i) => {
            let size = address_or_word(i.spec_is_address());
            popm_registers(i.spec_register(), i.spec_count() as nat).map_values(
                |r: u8| Stmt::SetReg(size, r, Expr::Pop(size), FlagWrite::NoFlags),
            )
        },
    }
}

/// Builds `op(size, a, b)` writing the given flags.
fn make_binary(op: BinaryOp, size: usize, a: Expr, b: Expr, flags: FlagWrite) -> (r: Expr)
    ensures
        r == binary(op, size, a, b, flags),
{
    Expr::Binary(op, size, Box::new(a), Box::new(b), flags)
}

/// Appends the statements of a conditional jump.
fn conditional_jump(out: &mut Vec<Stmt>, addr: u64, inst: &Jxx, cond: Condition, labels: &[u64])
    requires
        addr + 2 <= u64::MAX,
    ensures
        final(out)@ == old(out)@ + spec_conditional_jump(addr, *inst, cond, labels@),
{
    let true_addr = offset_to_absolute(addr, inst.offset());
    let false_addr = addr + inst.size() as u64;
    let true_label = has_label(labels, true_addr);
    let false_label = has_label(labels, false_addr);
    if true_label {
        if false_label {
            out.push(Stmt::If(Expr::FlagCond(cond), Label::At(true_addr), Label::At(false_addr)));
        } else {
            out.push(Stmt::If(Expr::FlagCond(cond), Label::At(true_addr), Label::Fresh(0)));
            out.push(Stmt::MarkLabel(Label::Fresh(0)));
        }
    } else if false_label {
        out.push(Stmt::If(Expr::FlagCond(cond), Label::Fresh(0), Label::At(false_addr)));
        out.push(Stmt::MarkLabel(Label::Fresh(0)));
        out.push(Stmt::Jump(Expr::ConstPtr(true_addr)));
    } else {
        out.push(Stmt::If(Expr::FlagCond(cond), Label::Fresh(0), Label::Fresh(1)));
        out.push(Stmt::MarkLabel(Label::Fresh(0)));
        out.push(Stmt::Jump(Expr::ConstPtr(true_addr)));
        out.push(Stmt::MarkLabel(Label::Fresh(1)));
    }
    proof {
        assert(final(out)@ =~= old(out)@ + spec_conditional_jump(addr, *inst, cond, labels@));
    }
}

/// The rotate or shift by one of a single operand.
fn make_shift_one(inst: &SingleOperand, op: BinaryOp, flags: FlagWrite) -> (r: Expr)
    requires
        operand_registers_valid(inst.spec_source()),
    ensures
        r == shift_one(*inst, op, flags),
{
    let size = optional_width_to_size(inst.operand_width());
    let dest = lift_source_operand(inst.source(), size);
    make_byte_extend(inst.operand_width(), make_binary(op, size, dest, Expr::Const(size, 1), flags))
}

/// Appends the statements of a two-operand instruction whose result is `value`.
fn two_operand(out: &mut Vec<Stmt>, inst: &TwoOperand, value: Expr)
    requires
        operand_registers_valid(inst.spec_destination()),
    ensures
        final(out)@ == old(out)@ + spec_write_back(
            inst.spec_destination(),
            byte_extend(Some(inst.spec_operand_width()), value),
        ),
{
    let v = make_byte_extend(Some(inst.operand_width()), value);
    write_back(out, inst.destination(), v);
}

/// Source and destination of a two-operand instruction, read at its width.
fn two_operand_operands(inst: &TwoOperand) -> (r: (Expr, Expr))
    requires
        operand_registers_valid(inst.spec_source()),
        operand_registers_valid(inst.spec_destination()),
    ensures
        r.0 == two_operand_src(*inst),
        r.1 == two_operand_dst(*inst),
{
    let size = width_to_size(&inst.operand_width());
    (lift_source_operand(inst.source(), size), lift_source_operand(inst.destination(), size))
}

/// The destination of an emulated instruction.
fn emulated_destination(inst: &Emulated) -> (r: Operand)
    requires
        inst.spec_destination() is Some,
    ensures
        r == inst.spec_destination()->0,
{
    match inst.destination() {
        Some(d) => d,
        None => Operand::Constant(0),
    }
}

/// Appends the statements of an emulated instruction whose result is `value`.
fn emulated(out: &mut Vec<Stmt>, inst: &Emulated, value: Expr)
    requires
        inst.spec_destination() is Some,
        operand_registers_valid(inst.spec_destination()->0),
    ensures
        final(out)@ == old(out)@ + spec_emulated(*inst, value),
{
    let d = emulated_destination(inst);
    let v = make_byte_extend(inst.operand_width(), value);
    write_back(out, &d, v);
}

/// A rotate or shift of a register by a count.
fn rotate(inst: &RotateMultiple, op: BinaryOp, flags: FlagWrite) -> (r: Stmt)
    ensures
        r == spec_rotate(*inst, op, flags),
{
    let size: usize = if inst.is_address() { 3 } else { 2 };
    let reg = inst.register();
    Stmt::SetReg(
        size,
        reg,
        make_binary(op, size, Expr::Reg(size, reg), Expr::Const(size, inst.count() as u64), flags),
        FlagWrite::NoFlags,
    )
}

/// Appends a push of each register PUSHM saves.
fn pushm(out: &mut Vec<Stmt>, inst: &PushPopMultiple)
    ensures
        final(out)@ == old(out)@ + pushm_registers(inst.spec_register(), inst.spec_count() as nat).map_values(
            |r: u8| Stmt::Push(address_or_word(inst.spec_is_address()), Expr::Reg(address_or_word(inst.spec_is_address()), r)),
        ),
{
    let count = inst.count();
    let end_reg = inst.register();
    let size: usize = if inst.is_address() { 3 } else { 2 };
    let ghost start = old(out)@;
    let ghost f = |r: u8| Stmt::Push(size, Expr::Reg(size, r));
    let mut i: u8 = 0;
    while i < count
        invariant
            i <= count,
            count == inst.spec_count(),
            end_reg == inst.spec_register(),
            size == address_or_word(inst.spec_is_address()),
            f == (|r: u8| Stmt::Push(size, Expr::Reg(size, r))),
            out@ == start + pushm_registers(end_reg, i as nat).map_values(f),
        decreases count - i,
    {
        let reg_num = end_reg.wrapping_sub(i);
        proof {
            assert(reg_num == register_below(end_reg, i as int));
        }
        if reg_num < 16 {
            out.push(Stmt::Push(size, Expr::Reg(size, reg_num)));
        }
        proof {
            let next = pushm_registers(end_reg, (i + 1) as nat);
            assert(out@ =~= start + next.map_values(f));
        }
        i += 1;
    }
}

/// Appends a pop into each register POPM restores.
fn popm(out: &mut Vec<Stmt>, inst: &PushPopMultiple)
    ensures
        final(out)@ == old(out)@ + popm_registers(inst.spec_register(), inst.spec_count() as nat).map_values(
            |r: u8| Stmt::SetReg(address_or_word(inst.spec_is_address()), r, Expr::Pop(address_or_word(inst.spec_is_address())), FlagWrite::NoFlags),
        ),
{
    let count = inst.count();
    let end_reg = inst.register();
    let size: usize = if inst.is_address() { 3 } else { 2 };
    let ghost start = old(out)@;
    let ghost f = |r: u8| Stmt::SetReg(size, r, Expr::Pop(size), FlagWrite::NoFlags);
    let ghost all = popm_registers(end_reg, count as nat).map_values(f);
    let mut i: u8 = count;
    while i > 0
        invariant
            i <= count,
            count == inst.spec_count(),
            end_reg == inst.spec_register(),
            size == address_or_word(inst.spec_is_address()),
            f == (|r: u8| Stmt::SetReg(size, r, Expr::Pop(size), FlagWrite::NoFlags)),
            all == popm_registers(end_reg, count as nat).map_values(f),
            out@.len() >= start.len(),
            out@.subrange(0, start.len() as int) == start,
            out@.subrange(start.len() as int, out@.len() as int) + popm_registers(end_reg, i as nat).map_values(f) == all,
        decreases i,
    {
        i -= 1;
        let reg_num = end_reg.wrapping_sub(i);
        proof {
            assert(reg_num == register_below(end_reg, i as int));
        }
        let ghost before = out@;
        if reg_num < 16 {
            out.push(Stmt::SetReg(size, reg_num, Expr::Pop(size), FlagWrite::NoFlags));
        }
        proof {
            let rest = popm_registers(end_reg, i as nat).map_values(f);
            let done = before.subrange(start.len() as int, before.len() as int);
            if reg_num < 16 {
                assert(popm_registers(end_reg, (i + 1) as nat).map_values(f) =~= seq![f(reg_num)] + rest);
                assert(out@.subrange(start.len() as int, out@.len() as int) =~= done.push(f(reg_num)));
                assert(done.push(f(reg_num)) + rest =~= done + (seq![f(reg_num)] + rest));
            } else {
                assert(popm_registers(end_reg, (i + 1) as nat).map_values(f) =~= rest);
            }
            assert(out@.subrange(0, start.len() as int) =~= start);
        }
    }
    proof {
        assert(out@ =~= start + all);
    }
}

/// Lifts a single-operand instruction.
fn lift_single_operand(inst: &Instruction, addr: u64, labels: &[u64]) -> (r: Vec<Stmt>)
    requires
        can_lift(*inst, addr),
        *inst is Rrc || *inst is Swpb || *inst is Rra || *inst is Sxt || *inst is Push || *inst is Call || *inst is Reti,
    ensures
        r@ == spec_lift(*inst, addr, labels@),
{
    let mut out: Vec<Stmt> = Vec::new();
    match inst {
        Instruction::Rrc(i) => {
            match i.source() {
                Operand::RegisterDirect(0) => out.push(Stmt::Unimplemented),
                _ => {
                    let op = make_shift_one(i, BinaryOp::RotateRightCarry, FlagWrite::All);
                    write_back(&mut out, i.source(), op);
                },
            }
        },
        Instruction::Swpb(i) => {
            let src = lift_source_operand(i.source(), 2);
            let op = make_binary(BinaryOp::RotateLeft, 2, src, Expr::Const(2, 8), FlagWrite::NoFlags);
            write_back(&mut out, i.source(), op);
        },
        Instruction::Rra(i) => {
            let op = make_shift_one(i, BinaryOp::RotateRight, FlagWrite::Cnz);
            write_back(&mut out, i.source(), op);
            out.push(make_set_flag(Flag::V, 0));
        },
        Instruction::Sxt(i) => {
            let src = lift_source_operand(i.source(), 1);
            let op = Expr::Unary(UnaryOp::SignExtend, 2, Box::new(src), FlagWrite::Nz);
            write_back(&mut out, i.source(), op);
            out.push(make_set_flag(Flag::V, 0));
            out.push(make_carry_from_not_zero());
        },
        Instruction::Push(i) => {
            let size = optional_width_to_size(i.operand_width());
            let src = lift_source_operand(i.source(), size);
            out.push(Stmt::Push(size, src));
            auto_increment(&mut out, i.source());
        },
        Instruction::Call(i) => {
            let src = match i.source() {
                Operand::Immediate(v) => Expr::ConstPtr(*v as u64),
                _ => {
                    let size = optional_width_to_size(i.operand_width());
                    lift_source_operand(i.source(), size)
                },
            };
            out.push(Stmt::Call(src));
            auto_increment(&mut out, i.source());
        },
        Instruction::Reti(_) => {
            out.push(Stmt::SetReg(2, SR, Expr::Pop(2), FlagWrite::All));
            out.push(Stmt::Ret(Expr::Pop(2)));
        },
        _ => {},
    }
    proof {
        assert(out@ =~= spec_lift(*inst, addr, labels@));
    }
    out
}

/// Lifts a jump.
fn lift_jump(inst: &Instruction, addr: u64, labels: &[u64]) -> (r: Vec<Stmt>)
    requires
        can_lift(*inst, addr),
        *inst is Jnz || *inst is Jz || *inst is Jlo || *inst is Jc || *inst is Jn || *inst is Jge || *inst is Jl || *inst is Jmp,
    ensures
        r@ == spec_lift(*inst, addr, labels@),
{
    let mut out: Vec<Stmt> = Vec::new();
    match inst {
        Instruction::Jnz(i) => conditional_jump(&mut out, addr, i, Condition::NotEqual, labels),
        Instruction::Jz(i) => conditional_jump(&mut out, addr, i, Condition::Equal, labels),
        Instruction::Jlo(i) => conditional_jump(&mut out, addr, i, Condition::UnsignedLessThan, labels),
        Instruction::Jc(i) => conditional_jump(&mut out, addr, i, Condition::UnsignedGreaterOrEqual, labels),
        Instruction::Jn(i) => conditional_jump(&mut out, addr, i, Condition::Negative, labels),
        Instruction::Jge(i) => conditional_jump(&mut out, addr, i, Condition::SignedGreaterOrEqual, labels),
        Instruction::Jl(i) => conditional_jump(&mut out, addr, i, Condition::SignedLessThan, labels),
        Instruction::Jmp(i) => {
            let fixed_addr = offset_to_absolute(addr, i.offset());
            if has_label(labels, fixed_addr) {
                out.push(Stmt::Goto(Label::At(fixed_addr)));
            } else {
                out.push(Stmt::Jump(Expr::ConstPtr(fixed_addr)));
            }
        },
        _ => {},
    }
    proof {
        assert(out@ =~= spec_lift(*inst, addr, labels@));
    }
    out
}

/// Lifts a two-operand instruction.
fn lift_two_operand(inst: &Instruction, addr: u64, labels: &[u64]) -> (r: Vec<Stmt>)
    requires
        can_lift(*inst, addr),
        *inst is Mov || *inst is Add || *inst is Dadd || *inst is Addc || *inst is Subc || *inst is Sub || *inst is Cmp || *inst is Bit || *inst is Bic || *inst is Bis || *inst is Xor || *inst is And,
    ensures
        r@ == spec_lift(*inst, addr, labels@),
{
    let mut out: Vec<Stmt> = Vec::new();
    match inst {
        Instruction::Mov(i) => {
            let (src, _) = two_operand_operands(i);
            two_operand(&mut out, i, src);
            auto_increment(&mut out, i.source());
        },
        Instruction::Add(i) | Instruction::Dadd(i) => {
            let size = width_to_size(&i.operand_width());
            let (src, dst) = two_operand_operands(i);
            two_operand(&mut out, i, make_binary(BinaryOp::Add, size, src, dst, FlagWrite::All));
            auto_increment(&mut out, i.source());
        },
        Instruction::Addc(i) => {
            let size = width_to_size(&i.operand_width());
            let (src, dst) = two_operand_operands(i);
            let op = Expr::Carry(
                CarryOp::AddWithCarry,
                size,
                Box::new(src),
                Box::new(dst),
                Box::new(Expr::Flag(Flag::C)),
                FlagWrite::All,
            );
            two_operand(&mut out, i, op);
            auto_increment(&mut out, i.source());
        },
        Instruction::Subc(i) => {
            let size = width_to_size(&i.operand_width());
            let (src, dst) = two_operand_operands(i);
            let op = Expr::Carry(
                CarryOp::SubWithBorrow,
                size,
                Box::new(dst),
                Box::new(src),
                Box::new(Expr::Flag(Flag::C)),
                FlagWrite::All,
            );
            two_operand(&mut out, i, op);
            auto_increment(&mut out, i.source());
        },
        Instruction::Sub(i) => {
            let size = width_to_size(&i.operand_width());
            let (src, dst) = two_operand_operands(i);
            two_operand(&mut out, i, make_binary(BinaryOp::Sub, size, src, dst, FlagWrite::All));
            auto_increment(&mut out, i.source());
        },
        Instruction::Cmp(i) => {
            let size = width_to_size(&i.operand_width());
            let (src, dst) = two_operand_operands(i);
            out.push(Stmt::Eval(make_binary(BinaryOp::Sub, size, dst, src, FlagWrite::All)));
            auto_increment(&mut out, i.source());
        },
        Instruction::Bit(i) => {
            let size = width_to_size(&i.operand_width());
            let (src, dst) = two_operand_operands(i);
            out.push(Stmt::Eval(make_binary(BinaryOp::And, size, src, dst, FlagWrite::Nz)));
            out.push(make_set_flag(Flag::V, 0));
            out.push(make_carry_from_not_zero());
            auto_increment(&mut out, i.source());
        },
        Instruction::Bic(i) => {
            let size = width_to_size(&i.operand_width());
            let (src, dst) = two_operand_operands(i);
            let not_src = Expr::Unary(UnaryOp::Not, size, Box::new(src), FlagWrite::NoFlags);
            two_operand(&mut out, i, make_binary(BinaryOp::And, size, not_src, dst, FlagWrite::NoFlags));
            auto_increment(&mut out, i.source());
        },
        Instruction::Bis(i) => {
            let size = width_to_size(&i.operand_width());
            let (src, dst) = two_operand_operands(i);
            two_operand(&mut out, i, make_binary(BinaryOp::Or, size, src, dst, FlagWrite::NoFlags));
            auto_increment(&mut out, i.source());
        },
        Instruction::Xor(i) => {
            let size = width_to_size(&i.operand_width());
            let (src, dst) = two_operand_operands(i);
            two_operand(&mut out, i, make_binary(BinaryOp::Xor, size, src, dst, FlagWrite::Nvz));
            out.push(make_carry_from_not_zero());
            auto_increment(&mut out, i.source());
        },
        Instruction::And(i) => {
            let size = width_to_size(&i.operand_width());
            let (src, dst) = two_operand_operands(i);
            two_operand(&mut out, i, make_binary(BinaryOp::And, size, src, dst, FlagWrite::Nz));
            out.push(make_set_flag(Flag::V, 0));
            out.push(make_carry_from_not_zero());
            auto_increment(&mut out, i.source());
        },
        _ => {},
    }
    proof {
        assert(out@ =~= spec_lift(*inst, addr, labels@));
    }
    out
}

/// Lifts an emulated instruction.
fn lift_emulated(inst: &Instruction, addr: u64, labels: &[u64]) -> (r: Vec<Stmt>)
    requires
        can_lift(*inst, addr),
        *inst is Adc || *inst is Dadc || *inst is Sbc || *inst is Br || *inst is Clr || *inst is Clrc || *inst is Clrn || *inst is Clrz || *inst is Dec || *inst is Decd || *inst is Dint || *inst is Eint || *inst is Inc || *inst is Incd || *inst is Inv || *inst is Nop || *inst is Pop || *inst is Ret || *inst is Rla || *inst is Rlc || *inst is Setc || *inst is Setn || *inst is Setz || *inst is Tst,
    ensures
        r@ == spec_lift(*inst, addr, labels@),
{
    let mut out: Vec<Stmt> = Vec::new();
    match inst {
        Instruction::Adc(i) | Instruction::Dadc(i) => {
            let size = optional_width_to_size(i.operand_width());
            let dest = lift_source_operand(&emulated_destination(i), size);
            let op = Expr::Carry(
                CarryOp::AddWithCarry,
                size,
                Box::new(Expr::Const(size, 0)),
                Box::new(dest),
                Box::new(Expr::Flag(Flag::C)),
                FlagWrite::All,
            );
            emulated(&mut out, i, op);
        },
        Instruction::Sbc(i) => {
            let size = optional_width_to_size(i.operand_width());
            let dest = lift_source_operand(&emulated_destination(i), size);
            let op = Expr::Carry(
                CarryOp::SubWithBorrow,
                size,
                Box::new(dest),
                Box::new(Expr::Const(size, 0)),
                Box::new(Expr::Flag(Flag::C)),
                FlagWrite::All,
            );
            emulated(&mut out, i, op);
        },
        Instruction::Br(i) => {
            match i.destination() {
                Some(Operand::Immediate(v)) => {
                    if has_label(labels, v as u64) {
                        out.push(Stmt::Goto(Label::At(v as u64)));
                    } else {
                        out.push(Stmt::Jump(Expr::ConstPtr(v as u64)));
                    }
                },
                _ => {
                    let dest = lift_source_operand(&emulated_destination(i), 2);
                    out.push(Stmt::Jump(dest));
                },
            }
        },
        Instruction::Clr(i) => {
            let d = emulated_destination(i);
            write_back(&mut out, &d, Expr::Const(2, 0));
        },
        Instruction::Clrc(_) => out.push(make_set_flag(Flag::C, 0)),
        Instruction::Clrn(_) => out.push(make_set_flag(Flag::N, 0)),
        Instruction::Clrz(_) => out.push(make_set_flag(Flag::Z, 0)),
        Instruction::Dec(i) => {
            let size = optional_width_to_size(i.operand_width());
            let dest = lift_source_operand(&emulated_destination(i), size);
            emulated(&mut out, i, make_binary(BinaryOp::Sub, size, dest, Expr::Const(size, 1), FlagWrite::All));
        },
        Instruction::Decd(i) => {
            let size = optional_width_to_size(i.operand_width());
            let dest = lift_source_operand(&emulated_destination(i), size);
            emulated(&mut out, i, make_binary(BinaryOp::Sub, size, dest, Expr::Const(size, 2), FlagWrite::All));
        },
        Instruction::Dint(_) | Instruction::Eint(_) => {},
        Instruction::Inc(i) => {
            let size = optional_width_to_size(i.operand_width());
            let dest = lift_source_operand(&emulated_destination(i), size);
            emulated(&mut out, i, make_binary(BinaryOp::Add, size, dest, Expr::Const(size, 1), FlagWrite::All));
        },
        Instruction::Incd(i) => {
            let size = optional_width_to_size(i.operand_width());
            let dest = lift_source_operand(&emulated_destination(i), size);
            emulated(&mut out, i, make_binary(BinaryOp::Add, size, dest, Expr::Const(size, 2), FlagWrite::All));
        },
        Instruction::Inv(i) => {
            let size = optional_width_to_size(i.operand_width());
            let dest = lift_source_operand(&emulated_destination(i), size);
            emulated(&mut out, i, Expr::Unary(UnaryOp::Not, size, Box::new(dest), FlagWrite::Nvz));
            out.push(make_carry_from_not_zero());
        },
        Instruction::Nop(_) => out.push(Stmt::Nop),
        Instruction::Pop(i) => {
            match i.destination() {
                Some(Operand::RegisterDirect(r)) => {
                    let size = optional_width_to_size(i.operand_width());
                    out.push(Stmt::SetReg(size, r, Expr::Pop(2), FlagWrite::NoFlags));
                },
                _ => {},
            }
        },
        Instruction::Ret(_) => out.push(Stmt::Ret(Expr::Pop(2))),
        Instruction::Rla(i) => {
            let size = optional_width_to_size(i.operand_width());
            let dest = lift_source_operand(&emulated_destination(i), size);
            emulated(&mut out, i, make_binary(BinaryOp::RotateLeft, size, dest, Expr::Const(size, 1), FlagWrite::All));
        },
        Instruction::Rlc(i) => {
            let size = optional_width_to_size(i.operand_width());
            let dest = lift_source_operand(&emulated_destination(i), size);
            emulated(&mut out, i, make_binary(BinaryOp::RotateLeftCarry, size, dest, Expr::Const(size, 1), FlagWrite::All));
        },
        Instruction::Setc(_) => out.push(make_set_flag(Flag::C, 1)),
        Instruction::Setn(_) => out.push(make_set_flag(Flag::N, 1)),
        Instruction::Setz(_) => out.push(make_set_flag(Flag::Z, 1)),
        Instruction::Tst(i) => {
            let size = optional_width_to_size(i.operand_width());
            let dest = lift_source_operand(&emulated_destination(i), size);
            out.push(Stmt::Eval(make_binary(BinaryOp::Sub, size, dest, Expr::Const(size, 0), FlagWrite::Nz)));
            out.push(make_set_flag(Flag::V, 0));
            out.push(make_set_flag(Flag::C, 1));
        },
        _ => {},
    }
    proof {
        assert(out@ =~= spec_lift(*inst, addr, labels@));
    }
    out
}

/// Lifts an MSP430X instruction.
fn lift_msp430x(inst: &Instruction, addr: u64, labels: &[u64]) -> (r: Vec<Stmt>)
    requires
        can_lift(*inst, addr),
        *inst is Mova || *inst is Cmpa || *inst is Adda || *inst is Suba || *inst is Bra || *inst is Calla || *inst is Reta || *inst is Rrcm || *inst is Rram || *inst is Rlam || *inst is Rrum || *inst is Pushm || *inst is Popm,
    ensures
        r@ == spec_lift(*inst, addr, labels@),
{
    let mut out: Vec<Stmt> = Vec::new();
    match inst {
        Instruction::Mova(i) => {
            let src = lift_source_operand(i.source(), 3);
            msp430x_address_write(&mut out, i.destination(), src);
        },
        Instruction::Cmpa(i) => {
            let src = lift_source_operand(i.source(), 3);
            let dest = lift_source_operand(i.destination(), 3);
            out.push(Stmt::Eval(make_binary(BinaryOp::Sub, 3, dest, src, FlagWrite::All)));
        },
        Instruction::Adda(i) => {
            let src = lift_source_operand(i.source(), 3);
            let dest = lift_source_operand(i.destination(), 3);
            let op = make_binary(BinaryOp::Add, 3, src, dest, FlagWrite::All);
            msp430x_address_write(&mut out, i.destination(), op);
        },
        Instruction::Suba(i) => {
            let src = lift_source_operand(i.source(), 3);
            let dest = lift_source_operand(i.destination(), 3);
            let op = make_binary(BinaryOp::Sub, 3, dest, src, FlagWrite::All);
            msp430x_address_write(&mut out, i.destination(), op);
        },
        Instruction::Bra(i) => {
            let dest = match i.destination() {
                Operand::Immediate20(v) => Expr::ConstPtr(*v as u64),
                Operand::Immediate(v) => Expr::ConstPtr(*v as u64),
                Operand::Absolute20(v) => Expr::ConstPtr(*v as u64),
                Operand::Absolute(v) => Expr::ConstPtr(*v as u64),
                d => lift_source_operand(d, 3),
            };
            out.push(Stmt::Jump(dest));
        },
        Instruction::Calla(i) => {
            let src = match i.destination() {
                Operand::Immediate20(v) => Expr::ConstPtr(*v as u64),
                Operand::Immediate(v) => Expr::ConstPtr(*v as u64),
                d => lift_source_operand(d, 3),
            };
            out.push(Stmt::Call(src));
        },
        Instruction::Reta(_) => out.push(Stmt::Ret(Expr::Pop(3))),
        Instruction::Rrcm(i) => out.push(rotate(i, BinaryOp::RotateRightCarry, FlagWrite::All)),
        Instruction::Rram(i) => {
            out.push(rotate(i, BinaryOp::ShiftRightArithmetic, FlagWrite::Cnz));
            out.push(make_set_flag(Flag::V, 0));
        },
        Instruction::Rlam(i) => out.push(rotate(i, BinaryOp::ShiftLeft, FlagWrite::All)),
        Instruction::Rrum(i) => {
            out.push(rotate(i, BinaryOp::ShiftRightLogical, FlagWrite::Cnz));
            out.push(make_set_flag(Flag::V, 0));
        },
        Instruction::Pushm(i) => pushm(&mut out, i),
        Instruction::Popm(i) => popm(&mut out, i),
        _ => {},
    }
    proof {
        assert(out@ =~= spec_lift(*inst, addr, labels@));
    }
    out
}

/// Lifts `inst`, at address `addr`, to IL statements; `labels` are the addresses that
/// already have labels in the function being lifted.
pub fn lift_instruction(inst: &Instruction, addr: u64, labels: &[u64]) -> (r: Vec<Stmt>)
    requires
        can_lift(*inst, addr),
    ensures
        r@ == spec_lift(*inst, addr, labels@),
{
    match inst {
        Instruction::Rrc(_) | Instruction::Swpb(_) | Instruction::Rra(_) | Instruction::Sxt(_)
        | Instruction::Push(_) | Instruction::Call(_) | Instruction::Reti(_) => lift_single_operand(inst, addr, labels),
        Instruction::Jnz(_) | Instruction::Jz(_) | Instruction::Jlo(_) | Instruction::Jc(_)
        | Instruction::Jn(_) | Instruction::Jge(_) | Instruction::Jl(_) | Instruction::Jmp(_) => lift_jump(inst, addr, labels),
        Instruction::Mov(_) | Instruction::Add(_) | Instruction::Dadd(_) | Instruction::Addc(_)
        | Instruction::Subc(_) | Instruction::Sub(_) | Instruction::Cmp(_) | Instruction::Bit(_)
        | Instruction::Bic(_) | Instruction::Bis(_) | Instruction::Xor(_) | Instruction::And(_) => lift_two_operand(inst, addr, labels),
        Instruction::Mova(_) | Instruction::Cmpa(_) | Instruction::Adda(_) | Instruction::Suba(_)
        | Instruction::Bra(_) | Instruction::Calla(_) | Instruction::Reta(_) | Instruction::Rrcm(_)
        | Instruction::Rram(_) | Instruction::Rlam(_) | Instruction::Rrum(_) | Instruction::Pushm(_)
        | Instruction::Popm(_) => lift_msp430x(inst, addr, labels),
        _ => lift_emulated(inst, addr, labels),
    }
}

} // verus!
