//! What IL expressions compute, and what MSP430 operands read, on a machine state: the
//! registers, memory and flags. Values of a size are unsigned and wrap at that size.
use crate::llil::{
    offset_address, spec_source_expr, BinaryOp, CarryOp, Expr, Flag, FlagWrite, Stmt, UnaryOp, PC,
};
use crate::operand::Operand;
use vstd::arithmetic::power2::pow2;
use vstd::prelude::*;

verus! {

/// The number of values of an IL size: 2^8 for a byte, 2^16 for a word, 2^24 for an
/// address; other sizes are taken as 64 bits wide.
pub open spec fn modulus(size: usize) -> int {
    if size == 1 {
        0x100
    } else if size == 2 {
        0x10000
    } else if size == 3 {
        0x100_0000
    } else {
        0x1_0000_0000_0000_0000
    }
}

/// The number of bits of an IL size.
pub open spec fn bit_count(size: usize) -> nat {
    if size == 1 {
        8
    } else if size == 2 {
        16
    } else if size == 3 {
        24
    } else {
        64
    }
}

/// `v` reduced to a value of the given size.
pub open spec fn wrap(size: usize, v: int) -> int {
    v % modulus(size)
}

/// A value of the given size read as a two's-complement signed number.
pub open spec fn signed(size: usize, v: int) -> int {
    if v >= modulus(size) / 2 {
        v - modulus(size)
    } else {
        v
    }
}

/// 1 for a set flag, 0 for a clear one.
pub open spec fn bit(b: bool) -> int {
    if b {
        1
    } else {
        0
    }
}

/// The size of the value an expression gives.
pub open spec fn expr_size(e: Expr) -> usize {
    match e {
        Expr::Reg(s, _) | Expr::Const(s, _) | Expr::Pop(s) | Expr::Load(s, _) => s,
        Expr::Unary(_, s, _, _) | Expr::Binary(_, s, _, _, _) | Expr::Carry(_, s, _, _, _, _) => s,
        _ => 0,
    }
}

/// `a` rotated left by `n` bits through a ring of `w` bits.
pub open spec fn rotate_left_in(a: int, n: nat, w: nat) -> int {
    (a * pow2(n)) % pow2(w) as int + a / pow2((w - n) as nat) as int
}

/// `a` rotated right by `n` bits through a ring of `w` bits.
pub open spec fn rotate_right_in(a: int, n: nat, w: nat) -> int {
    a / pow2(n) as int + (a % pow2(n) as int) * pow2((w - n) as nat)
}

/// What a two-value operation gives at the given size, with `c` the carry flag.
pub open spec fn binary_value(op: BinaryOp, size: usize, a: int, b: int, c: bool) -> int {
    let bits = bit_count(size);
    let n = (b % bits as int) as nat;
    match op {
        BinaryOp::Add => wrap(size, a + b),
        BinaryOp::Sub => wrap(size, a - b),
        BinaryOp::And => (a as u64 & b as u64) as int,
        BinaryOp::Or => (a as u64 | b as u64) as int,
        BinaryOp::Xor => (a as u64 ^ b as u64) as int,
        BinaryOp::ShiftLeft => wrap(size, a * pow2(b as nat)),
        BinaryOp::ShiftRightLogical => a / pow2(b as nat) as int,
        BinaryOp::ShiftRightArithmetic => wrap(size, signed(size, a) / pow2(b as nat) as int),
        BinaryOp::RotateLeft => wrap(size, rotate_left_in(a, n, bits)),
        BinaryOp::RotateRight => wrap(size, rotate_right_in(a, n, bits)),
        BinaryOp::RotateLeftCarry => wrap(
            size,
            rotate_left_in(
                a + bit(c) * modulus(size),
                (b % (bits + 1) as int) as nat,
                (bits + 1) as nat,
            ),
        ),
        BinaryOp::RotateRightCarry => wrap(
            size,
            rotate_right_in(
                a + bit(c) * modulus(size),
                (b % (bits + 1) as int) as nat,
                (bits + 1) as nat,
            ),
        ),
    }
}

/// What a one-value operation gives at the given size; `from` is the size of its operand.
pub open spec fn unary_value(op: UnaryOp, size: usize, from: usize, a: int) -> int {
    match op {
        UnaryOp::Not => modulus(size) - 1 - a,
        UnaryOp::SignExtend => wrap(size, signed(from, a)),
    }
}

/// What an operation with a carry gives: `a + b + C`, or `a - b - C`.
pub open spec fn carry_value(op: CarryOp, size: usize, a: int, b: int, c: int) -> int {
    match op {
        CarryOp::AddWithCarry => wrap(size, a + b + c),
        CarryOp::SubWithBorrow => wrap(size, a - b - c),
    }
}

/// The value of an expression on a machine state with registers `regs`, memory `mem` (read at
/// an address) and flags `flags`; `None` for what the state does not hold (the stack, flag
/// conditions).
pub open spec fn eval(
    e: Expr,
    regs: spec_fn(u8) -> int,
    mem: spec_fn(int) -> int,
    flags: spec_fn(Flag) -> bool,
) -> Option<int>
    decreases e,
{
    match e {
        Expr::Reg(s, r) => Some(wrap(s, regs(r))),
        Expr::Const(s, v) => Some(wrap(s, v as int)),
        Expr::ConstPtr(v) => Some(v as int),
        Expr::Flag(f) => Some(bit(flags(f))),
        Expr::Load(s, a) => match eval(*a, regs, mem, flags) {
            Some(x) => Some(wrap(s, mem(x))),
            None => None,
        },
        Expr::Unary(op, s, a, _) => match eval(*a, regs, mem, flags) {
            Some(x) => Some(unary_value(op, s, expr_size(*a), x)),
            None => None,
        },
        Expr::Binary(op, s, a, b, _) => match (eval(*a, regs, mem, flags), eval(*b, regs, mem, flags)) {
            (Some(x), Some(y)) => Some(binary_value(op, s, x, y, flags(Flag::C))),
            _ => None,
        },
        Expr::Carry(op, s, a, b, c, _) => match (
            eval(*a, regs, mem, flags),
            eval(*b, regs, mem, flags),
            eval(*c, regs, mem, flags),
        ) {
            (Some(x), Some(y), Some(z)) => Some(carry_value(op, s, x, y, z)),
            _ => None,
        },
        _ => None,
    }
}

/// The memory address an operand names: register plus offset (16 bits, or 20-bit forms at
/// address width), PC plus offset for the symbolic forms, the absolute address, or the
/// register for the indirect forms. `None` for registers and constants.
pub open spec fn operand_address(op: Operand, regs: spec_fn(u8) -> int) -> Option<int> {
    match op {
        Operand::Indexed((r, offset)) => Some(wrap(2, regs(r) + offset as u64)),
        Operand::Indexed20((r, offset)) => Some(wrap(3, regs(r) + offset as u64)),
        Operand::Symbolic(offset) => Some(wrap(2, regs(PC) + offset as u64)),
        Operand::Symbolic20(offset) => Some(wrap(3, regs(PC) + offset as u64)),
        Operand::Absolute(a) => Some(a as int),
        Operand::Absolute20(a) => Some(a as int),
        Operand::RegisterIndirect(r) | Operand::RegisterIndirectAutoIncrement(r) => Some(
            wrap(2, regs(r)),
        ),
        _ => None,
    }
}

/// The value an operand reads at the given size: the register, the immediate or constant,
/// or memory at the operand's address.
pub open spec fn operand_value(
    op: Operand,
    size: usize,
    regs: spec_fn(u8) -> int,
    mem: spec_fn(int) -> int,
) -> int {
    match op {
        Operand::RegisterDirect(r) => wrap(size, regs(r)),
        Operand::Immediate(v) => wrap(size, v as int),
        Operand::Immediate20(v) => wrap(size, v as int),
        Operand::Constant(v) => wrap(size, v as u64 as int),
        _ => wrap(size, mem(operand_address(op, regs)->0)),
    }
}

/// The value a statement writes to an operand: for a register, what a `SetReg` of it sets;
/// for a memory operand, what a `Store` at the operand's address stores. `None` when the
/// statement writes somewhere else.
pub open spec fn written_to(
    s: Stmt,
    op: Operand,
    regs: spec_fn(u8) -> int,
    mem: spec_fn(int) -> int,
    flags: spec_fn(Flag) -> bool,
) -> Option<int> {
    match (s, op) {
        (Stmt::SetReg(_, r, v, _), Operand::RegisterDirect(d)) => if r == d {
            eval(v, regs, mem, flags)
        } else {
            None
        },
        (Stmt::Store(_, a, v), _) => if operand_address(op, regs) is Some && eval(a, regs, mem, flags)
            == operand_address(op, regs) {
            eval(v, regs, mem, flags)
        } else {
            None
        },
        _ => None,
    }
}

/// The value a `SetReg` statement of register `r` at the given size sets; `None` for any
/// other statement.
pub open spec fn register_set(
    s: Stmt,
    size: usize,
    r: u8,
    regs: spec_fn(u8) -> int,
    mem: spec_fn(int) -> int,
    flags: spec_fn(Flag) -> bool,
) -> Option<int> {
    match s {
        Stmt::SetReg(sz, d, v, _) => if sz == size && d == r {
            eval(v, regs, mem, flags)
        } else {
            None
        },
        _ => None,
    }
}

/// The value an `Eval` statement computes; `None` for any other statement.
pub open spec fn evaluated(
    s: Stmt,
    regs: spec_fn(u8) -> int,
    mem: spec_fn(int) -> int,
    flags: spec_fn(Flag) -> bool,
) -> Option<int> {
    match s {
        Stmt::Eval(v) => eval(v, regs, mem, flags),
        _ => None,
    }
}

/// The flags an operation writes; for a byte result sign-extended to a word (a sign
/// extension that writes no flags), the flags of the byte operation.
pub open spec fn computed_flags(e: Expr) -> FlagWrite {
    match e {
        Expr::Unary(UnaryOp::SignExtend, 2, a, FlagWrite::NoFlags) => match *a {
            Expr::Unary(_, _, _, f) | Expr::Binary(_, _, _, _, f) | Expr::Carry(_, _, _, _, _, f) => f,
            _ => FlagWrite::NoFlags,
        },
        Expr::Unary(_, _, _, f) | Expr::Binary(_, _, _, _, f) | Expr::Carry(_, _, _, _, _, f) => f,
        _ => FlagWrite::NoFlags,
    }
}

/// The flags that the value a statement writes or evaluates writes.
pub open spec fn statement_flags(s: Stmt) -> FlagWrite {
    match s {
        Stmt::SetReg(_, _, v, _) | Stmt::Store(_, _, v) | Stmt::Eval(v) => computed_flags(v),
        _ => FlagWrite::NoFlags,
    }
}

/// `reg + offset` computed at a size wraps the sum of the register and the offset.
pub proof fn lemma_offset_address(
    size: usize,
    r: u8,
    offset: u64,
    regs: spec_fn(u8) -> int,
    mem: spec_fn(int) -> int,
    flags: spec_fn(Flag) -> bool,
)
    ensures
        eval(offset_address(size, r, offset), regs, mem, flags) == Some(wrap(size, regs(r) + offset)),
{
    reveal_with_fuel(eval, 2);
    vstd::arithmetic::div_mod::lemma_add_mod_noop(regs(r), offset as int, modulus(size));
}

/// Reading an operand in the IL gives the operand's value.
pub proof fn lemma_source_value(
    op: Operand,
    size: usize,
    regs: spec_fn(u8) -> int,
    mem: spec_fn(int) -> int,
    flags: spec_fn(Flag) -> bool,
)
    ensures
        eval(spec_source_expr(op, size), regs, mem, flags) == Some(operand_value(op, size, regs, mem)),
{
    reveal_with_fuel(eval, 2);
    match op {
        Operand::Indexed((r, o)) => lemma_offset_address(2, r, o as u64, regs, mem, flags),
        Operand::Indexed20((r, o)) => lemma_offset_address(3, r, o as u64, regs, mem, flags),
        Operand::Symbolic(o) => lemma_offset_address(2, PC, o as u64, regs, mem, flags),
        Operand::Symbolic20(o) => lemma_offset_address(3, PC, o as u64, regs, mem, flags),
        _ => {},
    }
}

} // verus!
