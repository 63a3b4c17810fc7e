//! A model of the low-level IL that the lifter emits: expressions and statements over the
//! sixteen MSP430 registers (r0 is PC, r1 SP, r2 SR, r3 CG) and the C, Z, N and V flags.
//! Sizes are in bytes: 1 for a byte, 2 for a word, 3 for a 20-bit address.
use crate::operand::{Operand, OperandWidth};
use vstd::prelude::*;

verus! {

/// The program counter, r0.
pub const PC: u8 = 0;

/// The status register, r2.
pub const SR: u8 = 2;

/// Which flags an operation writes.
#[derive(Debug, Clone, Copy, PartialEq, Eq, Structural)]
pub enum FlagWrite {
    NoFlags,
    All,
    Nz,
    Nvz,
    Cnz,
}

/// A status flag.
#[derive(Debug, Clone, Copy, PartialEq, Eq, Structural)]
pub enum Flag {
    C,
    Z,
    N,
    V,
}

/// A flag condition of a conditional jump.
#[derive(Debug, Clone, Copy, PartialEq, Eq, Structural)]
pub enum Condition {
    NotEqual,
    Equal,
    UnsignedLessThan,
    UnsignedGreaterOrEqual,
    Negative,
    SignedGreaterOrEqual,
    SignedLessThan,
}

/// An operation on one value.
#[derive(Debug, Clone, Copy, PartialEq, Eq, Structural)]
pub enum UnaryOp {
    Not,
    SignExtend,
}

/// An operation on two values.
#[derive(Debug, Clone, Copy, PartialEq, Eq, Structural)]
pub enum BinaryOp {
    Add,
    Sub,
    And,
    Or,
    Xor,
    RotateLeft,
    RotateRight,
    RotateLeftCarry,
    RotateRightCarry,
    ShiftRightArithmetic,
    ShiftLeft,
    ShiftRightLogical,
}

/// An operation on two values and a carry.
#[derive(Debug, Clone, Copy, PartialEq, Eq, Structural)]
pub enum CarryOp {
    AddWithCarry,
    SubWithBorrow,
}

/// An IL expression.
#[derive(Debug, PartialEq, Eq)]
pub enum Expr {
    /// Register `reg` read with the given size.
    Reg(usize, u8),
    /// An integer constant of the given size.
    Const(usize, u64),
    /// A constant pointer.
    ConstPtr(u64),
    /// A flag's value.
    Flag(Flag),
    /// A flag condition.
    FlagCond(Condition),
    /// A value popped from the stack.
    Pop(usize),
    /// A load from memory at the address.
    Load(usize, Box<Expr>),
    Unary(UnaryOp, usize, Box<Expr>, FlagWrite),
    Binary(BinaryOp, usize, Box<Expr>, Box<Expr>, FlagWrite),
    Carry(CarryOp, usize, Box<Expr>, Box<Expr>, Box<Expr>, FlagWrite),
}

/// A jump target inside the function being lifted: the label that already marks an address,
/// or the n-th label made fresh for this instruction.
#[derive(Debug, Clone, Copy, PartialEq, Eq, Structural)]
pub enum Label {
    At(u64),
    Fresh(u8),
}

/// An IL statement.
#[derive(Debug, PartialEq, Eq)]
pub enum Stmt {
    /// Set a register of the given size, writing the given flags.
    SetReg(usize, u8, Expr, FlagWrite),
    /// Store a value of the given size at an address.
    Store(usize, Expr, Expr),
    Push(usize, Expr),
    Call(Expr),
    Ret(Expr),
    Jump(Expr),
    Goto(Label),
    If(Expr, Label, Label),
    MarkLabel(Label),
    SetFlag(Flag, Expr),
    /// Evaluate an expression for its flags.
    Eval(Expr),
    Nop,
    Unimplemented,
}

/// The IL size of a width: 1 for a byte, 2 for a word, 3 for a 20-bit address.
pub open spec fn spec_width_to_size(width: OperandWidth) -> usize {
    match width {
        OperandWidth::Byte => 1,
        OperandWidth::Word => 2,
        OperandWidth::Address => 3,
    }
}

/// The IL size of a width.
pub fn width_to_size(width: &OperandWidth) -> (r: usize)
    ensures
        r == spec_width_to_size(*width),
{
    match width {
        OperandWidth::Byte => 1,
        OperandWidth::Word => 2,
        OperandWidth::Address => 3,
    }
}

/// The IL size of an optional width; a word when there is none.
pub open spec fn size_or_word(width: Option<OperandWidth>) -> usize {
    match width {
        Some(w) => spec_width_to_size(w),
        None => 2,
    }
}

pub fn optional_width_to_size(width: Option<OperandWidth>) -> (r: usize)
    ensures
        r == size_or_word(width),
{
    match width {
        Some(w) => width_to_size(&w),
        None => 2,
    }
}

/// Whether every register an operand names is one of the sixteen registers.
pub open spec fn operand_registers_valid(op: Operand) -> bool {
    match op {
        Operand::RegisterDirect(r) | Operand::Indexed((r, _)) | Operand::Indexed20((r, _))
        | Operand::RegisterIndirect(r) | Operand::RegisterIndirectAutoIncrement(r) => r < 16,
        _ => true,
    }
}

/// Whether a value can be written back to an operand: a register or a memory location.
pub open spec fn is_writable(op: Operand) -> bool {
    match op {
        Operand::RegisterDirect(_) | Operand::Indexed(_) | Operand::Indexed20(_)
        | Operand::Symbolic(_) | Operand::Symbolic20(_) | Operand::Absolute(_)
        | Operand::Absolute20(_) => true,
        _ => false,
    }
}

/// `a + b` at the given size, writing no flags.
pub open spec fn add_expr(size: usize, a: Expr, b: Expr) -> Expr {
    Expr::Binary(BinaryOp::Add, size, Box::new(a), Box::new(b), FlagWrite::NoFlags)
}

/// The address of an indexed or symbolic operand: register plus offset, at the given size.
pub open spec fn offset_address(size: usize, reg: u8, offset: u64) -> Expr {
    add_expr(size, Expr::Reg(size, reg), Expr::Const(size, offset))
}

/// Builds `reg + offset` at the given size.
pub fn make_offset_address(size: usize, reg: u8, offset: u64) -> (r: Expr)
    ensures
        r == offset_address(size, reg, offset),
{
    Expr::Binary(
        BinaryOp::Add,
        size,
        Box::new(Expr::Reg(size, reg)),
        Box::new(Expr::Const(size, offset)),
        FlagWrite::NoFlags,
    )
}

/// The value an operand reads, at the given size: a register, a load from the operand's
/// address (register plus offset, PC plus offset, an absolute address, or the register for
/// the indirect forms), or a constant for the immediates and constant-generator values.
pub open spec fn spec_source_expr(op: Operand, size: usize) -> Expr {
    match op {
        Operand::RegisterDirect(r) => Expr::Reg(size, r),
        Operand::Indexed((r, offset)) => Expr::Load(
            size,
            Box::new(offset_address(2, r, offset as u64)),
        ),
        Operand::Indexed20((r, offset)) => Expr::Load(
            size,
            Box::new(offset_address(3, r, offset as u64)),
        ),
        Operand::Symbolic(offset) => Expr::Load(
            size,
            Box::new(offset_address(2, PC, offset as u64)),
        ),
        Operand::Symbolic20(offset) => Expr::Load(
            size,
            Box::new(offset_address(3, PC, offset as u64)),
        ),
        Operand::Absolute(a) => Expr::Load(size, Box::new(Expr::ConstPtr(a as u64))),
        Operand::Absolute20(a) => Expr::Load(size, Box::new(Expr::ConstPtr(a as u64))),
        Operand::RegisterIndirect(r) | Operand::RegisterIndirectAutoIncrement(r) => Expr::Load(
            size,
            Box::new(Expr::Reg(2, r)),
        ),
        Operand::Immediate(v) => Expr::Const(size, v as u64),
        Operand::Immediate20(v) => Expr::Const(size, v as u64),
        Operand::Constant(v) => Expr::Const(size, v as u64),
    }
}

/// The value an operand reads, at the given size.
pub fn lift_source_operand(op: &Operand, size: usize) -> (r: Expr)
    requires
        operand_registers_valid(*op),
    ensures
        r == spec_source_expr(*op, size),
{
    match op {
        Operand::RegisterDirect(r) => Expr::Reg(size, *r),
        Operand::Indexed((r, offset)) => Expr::Load(
            size,
            Box::new(make_offset_address(2, *r, *offset as u64)),
        ),
        Operand::Indexed20((r, offset)) => Expr::Load(
            size,
            Box::new(make_offset_address(3, *r, *offset as u64)),
        ),
        Operand::Symbolic(offset) => Expr::Load(
            size,
            Box::new(make_offset_address(2, PC, *offset as u64)),
        ),
        Operand::Symbolic20(offset) => Expr::Load(
            size,
            Box::new(make_offset_address(3, PC, *offset as u64)),
        ),
        Operand::Absolute(a) => Expr::Load(size, Box::new(Expr::ConstPtr(*a as u64))),
        Operand::Absolute20(a) => Expr::Load(size, Box::new(Expr::ConstPtr(*a as u64))),
        Operand::RegisterIndirect(r) | Operand::RegisterIndirectAutoIncrement(r) => Expr::Load(
            size,
            Box::new(Expr::Reg(2, *r)),
        ),
        Operand::Immediate(v) => Expr::Const(size, *v as u64),
        Operand::Immediate20(v) => Expr::Const(size, *v as u64),
        Operand::Constant(v) => Expr::Const(size, *v as u64),
    }
}

/// `reg = reg + 2`, the increment of an auto-increment operand.
pub open spec fn increment_stmt(r: u8) -> Stmt {
    Stmt::SetReg(2, r, add_expr(2, Expr::Reg(2, r), Expr::Const(2, 2)), FlagWrite::NoFlags)
}

/// The statements that write `value` back to operand `op`, as the single-operand
/// instructions do: set a register; store at a memory operand's address (word-sized, or
/// 20-bit for the 20-bit forms); evaluate the value alone for an immediate; store at the
/// register for the indirect forms, then increment it for `@Rn+`; store at the constant's
/// value for a constant-generator operand.
pub open spec fn spec_write_back(op: Operand, value: Expr) -> Seq<Stmt> {
    match op {
        Operand::RegisterDirect(r) => seq![Stmt::SetReg(2, r, value, FlagWrite::NoFlags)],
        Operand::Indexed((r, offset)) => seq![
            Stmt::Store(2, offset_address(2, r, offset as u64), value),
        ],
        Operand::Indexed20((r, offset)) => seq![
            Stmt::Store(3, offset_address(3, r, offset as u64), value),
        ],
        Operand::Symbolic(offset) => seq![
            Stmt::Store(2, offset_address(2, PC, offset as u64), value),
        ],
        Operand::Symbolic20(offset) => seq![
            Stmt::Store(3, offset_address(3, PC, offset as u64), value),
        ],
        Operand::Absolute(a) => seq![Stmt::Store(2, Expr::ConstPtr(a as u64), value)],
        Operand::Absolute20(a) => seq![Stmt::Store(3, Expr::ConstPtr(a as u64), value)],
        Operand::Immediate(_) | Operand::Immediate20(_) => seq![Stmt::Eval(value)],
        Operand::RegisterIndirect(r) => seq![Stmt::Store(2, Expr::Reg(2, r), value)],
        Operand::RegisterIndirectAutoIncrement(r) => seq![
            Stmt::Store(2, Expr::Reg(2, r), value),
            increment_stmt(r),
        ],
        Operand::Constant(v) => seq![Stmt::Store(2, Expr::Const(2, v as u64), value)],
    }
}

/// Appends the statements that write `value` back to `op`.
pub fn write_back(out: &mut Vec<Stmt>, op: &Operand, value: Expr)
    requires
        operand_registers_valid(*op),
    ensures
        final(out)@ == old(out)@ + spec_write_back(*op, value),
{
    match op {
        Operand::RegisterDirect(r) => out.push(Stmt::SetReg(2, *r, value, FlagWrite::NoFlags)),
        Operand::Indexed((r, offset)) => out.push(
            Stmt::Store(2, make_offset_address(2, *r, *offset as u64), value),
        ),
        Operand::Indexed20((r, offset)) => out.push(
            Stmt::Store(3, make_offset_address(3, *r, *offset as u64), value),
        ),
        Operand::Symbolic(offset) => out.push(
            Stmt::Store(2, make_offset_address(2, PC, *offset as u64), value),
        ),
        Operand::Symbolic20(offset) => out.push(
            Stmt::Store(3, make_offset_address(3, PC, *offset as u64), value),
        ),
        Operand::Absolute(a) => out.push(Stmt::Store(2, Expr::ConstPtr(*a as u64), value)),
        Operand::Absolute20(a) => out.push(Stmt::Store(3, Expr::ConstPtr(*a as u64), value)),
        Operand::Immediate(_) | Operand::Immediate20(_) => out.push(Stmt::Eval(value)),
        Operand::RegisterIndirect(r) => out.push(Stmt::Store(2, Expr::Reg(2, *r), value)),
        Operand::RegisterIndirectAutoIncrement(r) => {
            out.push(Stmt::Store(2, Expr::Reg(2, *r), value));
            out.push(make_increment(*r));
        },
        Operand::Constant(v) => out.push(Stmt::Store(2, Expr::Const(2, *v as u64), value)),
    }
    proof {
        assert(final(out)@ =~= old(out)@ + spec_write_back(*op, value));
    }
}

/// Builds `reg = reg + 2`.
pub fn make_increment(r: u8) -> (s: Stmt)
    ensures
        s == increment_stmt(r),
{
    Stmt::SetReg(
        2,
        r,
        Expr::Binary(
            BinaryOp::Add,
            2,
            Box::new(Expr::Reg(2, r)),
            Box::new(Expr::Const(2, 2)),
            FlagWrite::NoFlags,
        ),
        FlagWrite::NoFlags,
    )
}

/// The increment of an auto-increment source operand, after the instruction has used it;
/// nothing for any other operand.
pub open spec fn spec_auto_increment(op: Operand) -> Seq<Stmt> {
    match op {
        Operand::RegisterIndirectAutoIncrement(r) => seq![increment_stmt(r)],
        _ => Seq::empty(),
    }
}

/// Appends the increment of an auto-increment source operand.
pub fn auto_increment(out: &mut Vec<Stmt>, op: &Operand)
    ensures
        final(out)@ == old(out)@ + spec_auto_increment(*op),
{
    match op {
        Operand::RegisterIndirectAutoIncrement(r) => out.push(make_increment(*r)),
        _ => {},
    }
    proof {
        assert(final(out)@ =~= old(out)@ + spec_auto_increment(*op));
    }
}

/// The statement that writes a 20-bit `value` to the destination of an address
/// instruction: set the register, or store 20 bits at the memory operand's address
/// (computed at 20 bits for every indexed and symbolic form).
pub open spec fn spec_address_write(op: Operand, value: Expr) -> Seq<Stmt> {
    match op {
        Operand::RegisterDirect(r) => seq![Stmt::SetReg(3, r, value, FlagWrite::NoFlags)],
        Operand::Indexed20((r, offset)) => seq![
            Stmt::Store(3, offset_address(3, r, offset as u64), value),
        ],
        Operand::Symbolic20(offset) => seq![
            Stmt::Store(3, offset_address(3, PC, offset as u64), value),
        ],
        Operand::Absolute20(a) => seq![Stmt::Store(3, Expr::ConstPtr(a as u64), value)],
        Operand::Indexed((r, offset)) => seq![
            Stmt::Store(3, offset_address(3, r, offset as u64), value),
        ],
        Operand::Symbolic(offset) => seq![
            Stmt::Store(3, offset_address(3, PC, offset as u64), value),
        ],
        Operand::Absolute(a) => seq![Stmt::Store(3, Expr::ConstPtr(a as u64), value)],
        _ => Seq::empty(),
    }
}

/// Appends the statement that writes a 20-bit value to an address instruction's destination.
pub fn msp430x_address_write(out: &mut Vec<Stmt>, op: &Operand, value: Expr)
    requires
        operand_registers_valid(*op),
        is_writable(*op),
    ensures
        final(out)@ == old(out)@ + spec_address_write(*op, value),
{
    match op {
        Operand::RegisterDirect(r) => out.push(Stmt::SetReg(3, *r, value, FlagWrite::NoFlags)),
        Operand::Indexed20((r, offset)) => out.push(
            Stmt::Store(3, make_offset_address(3, *r, *offset as u64), value),
        ),
        Operand::Symbolic20(offset) => out.push(
            Stmt::Store(3, make_offset_address(3, PC, *offset as u64), value),
        ),
        Operand::Absolute20(a) => out.push(Stmt::Store(3, Expr::ConstPtr(*a as u64), value)),
        Operand::Indexed((r, offset)) => out.push(
            Stmt::Store(3, make_offset_address(3, *r, *offset as u64), value),
        ),
        Operand::Symbolic(offset) => out.push(
            Stmt::Store(3, make_offset_address(3, PC, *offset as u64), value),
        ),
        Operand::Absolute(a) => out.push(Stmt::Store(3, Expr::ConstPtr(*a as u64), value)),
        _ => {},
    }
    proof {
        assert(final(out)@ =~= old(out)@ + spec_address_write(*op, value));
    }
}

} // verus!
