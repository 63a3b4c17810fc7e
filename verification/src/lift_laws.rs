//! What lifted instructions compute: on every machine state, the value each lifted
//! instruction writes, in terms of the values its operands read.
use crate::emulate::Emulated;
use crate::il_meaning::{
    binary_value, bit, bit_count, statement_flags, eval, evaluated, expr_size, lemma_offset_address, lemma_source_value, modulus,
    operand_address, operand_value, register_set, rotate_right_in, signed, wrap, written_to,
};
use crate::instruction::Instruction;
use crate::lift::{
    address_dst, address_or_word, address_src, binary, shift_one, byte_extend, carry_from_not_zero, set_flag, spec_lift,
    emulated_dst, spec_emulated, spec_two_operand, two_operand_dst, two_operand_src,
};
use crate::llil::{
    is_writable, size_or_word, spec_address_write, spec_source_expr, spec_write_back, spec_width_to_size, BinaryOp, CarryOp, Expr, Flag, FlagWrite, Stmt,
    UnaryOp, PC,
};
use crate::msp430x_instructions::{AddressInstruction, Bra, Calla, Reta, RotateMultiple};
use crate::operand::{Operand, OperandWidth};
use crate::single_operand::SingleOperand;
use crate::two_operand::TwoOperand;
use vstd::arithmetic::power2::{lemma2_to64, pow2};
use vstd::prelude::*;

verus! {

/// The value an instruction of the given width leaves in a destination for a result `x` of
/// that width: a byte result is sign-extended to a word.
pub open spec fn widened(width: Option<OperandWidth>, x: int) -> int {
    if width == Some(OperandWidth::Byte) {
        wrap(2, signed(1, x))
    } else {
        x
    }
}

/// Writing back to a destination that can be written reaches the destination's register or
/// address.
proof fn lemma_write_target(
    op: Operand,
    regs: spec_fn(u8) -> int,
    mem: spec_fn(int) -> int,
    flags: spec_fn(Flag) -> bool,
)
    ensures
        match op {
            Operand::Indexed((r, o)) => eval(
                crate::llil::offset_address(2, r, o as u64),
                regs,
                mem,
                flags,
            ) == operand_address(op, regs),
            Operand::Indexed20((r, o)) => eval(
                crate::llil::offset_address(3, r, o as u64),
                regs,
                mem,
                flags,
            ) == operand_address(op, regs),
            Operand::Symbolic(o) => eval(crate::llil::offset_address(2, PC, o as u64), regs, mem, flags)
                == operand_address(op, regs),
            Operand::Symbolic20(o) => eval(crate::llil::offset_address(3, PC, o as u64), regs, mem, flags)
                == operand_address(op, regs),
            _ => true,
        },
{
    match op {
        Operand::Indexed((r, o)) => lemma_offset_address(2, r, o as u64, regs, mem, flags),
        Operand::Indexed20((r, o)) => lemma_offset_address(3, r, o as u64, regs, mem, flags),
        Operand::Symbolic(o) => lemma_offset_address(2, PC, o as u64, regs, mem, flags),
        Operand::Symbolic20(o) => lemma_offset_address(3, PC, o as u64, regs, mem, flags),
        _ => {},
    }
}

/// Lifted two-operand instructions compute, on every machine state, from the source value
/// `s` and the destination value `d` read at the instruction's width (and the carry `c`):
/// MOV writes `s`; ADD and DADD `s + d`; ADDC `s + d + c`; SUB `s - d`; SUBC `d - s - c`;
/// BIC `d` with the bits of `s` cleared; BIS `s | d`; XOR `s ^ d`; AND `s & d`, each
/// wrapped at the width and, for a byte, sign-extended to a word as it is written to the
/// destination. CMP evaluates `d - s` and BIT `s & d` for their flags and write nothing.
pub proof fn lemma_two_operand_values(
    t: TwoOperand,
    addr: u64,
    labels: Seq<u64>,
    regs: spec_fn(u8) -> int,
    mem: spec_fn(int) -> int,
    flags: spec_fn(Flag) -> bool,
)
    requires
        is_writable(t.spec_destination()),
    ensures
        ({
            let w = t.spec_operand_width();
            let size = spec_width_to_size(w);
            let s = operand_value(t.spec_source(), size, regs, mem);
            let d = operand_value(t.spec_destination(), size, regs, mem);
            let c = bit(flags(Flag::C));
            let dst = t.spec_destination();
            &&& written_to(spec_lift(Instruction::Mov(t), addr, labels)[0], dst, regs, mem, flags)
                == Some(widened(Some(w), s))
            &&& written_to(spec_lift(Instruction::Add(t), addr, labels)[0], dst, regs, mem, flags)
                == Some(widened(Some(w), wrap(size, s + d)))
            &&& written_to(spec_lift(Instruction::Dadd(t), addr, labels)[0], dst, regs, mem, flags)
                == Some(widened(Some(w), wrap(size, s + d)))
            &&& written_to(spec_lift(Instruction::Addc(t), addr, labels)[0], dst, regs, mem, flags)
                == Some(widened(Some(w), wrap(size, s + d + c)))
            &&& written_to(spec_lift(Instruction::Sub(t), addr, labels)[0], dst, regs, mem, flags)
                == Some(widened(Some(w), wrap(size, s - d)))
            &&& written_to(spec_lift(Instruction::Subc(t), addr, labels)[0], dst, regs, mem, flags)
                == Some(widened(Some(w), wrap(size, d - s - c)))
            &&& written_to(spec_lift(Instruction::Bic(t), addr, labels)[0], dst, regs, mem, flags)
                == Some(widened(Some(w), ((modulus(size) - 1 - s) as u64 & d as u64) as int))
            &&& written_to(spec_lift(Instruction::Bis(t), addr, labels)[0], dst, regs, mem, flags)
                == Some(widened(Some(w), (s as u64 | d as u64) as int))
            &&& written_to(spec_lift(Instruction::Xor(t), addr, labels)[0], dst, regs, mem, flags)
                == Some(widened(Some(w), (s as u64 ^ d as u64) as int))
            &&& written_to(spec_lift(Instruction::And(t), addr, labels)[0], dst, regs, mem, flags)
                == Some(widened(Some(w), (s as u64 & d as u64) as int))
            &&& evaluated(spec_lift(Instruction::Cmp(t), addr, labels)[0], regs, mem, flags)
                == Some(wrap(size, d - s))
            &&& evaluated(spec_lift(Instruction::Bit(t), addr, labels)[0], regs, mem, flags)
                == Some((s as u64 & d as u64) as int)
        }),
{
    broadcast use crate::two_operand::TwoOperand::lemma_fields;

    lemma_mov_value(t, addr, labels, regs, mem, flags);
    lemma_add_value(t, addr, labels, regs, mem, flags);
    lemma_dadd_value(t, addr, labels, regs, mem, flags);
    lemma_addc_value(t, addr, labels, regs, mem, flags);
    lemma_sub_value(t, addr, labels, regs, mem, flags);
    lemma_subc_value(t, addr, labels, regs, mem, flags);
    lemma_bic_value(t, addr, labels, regs, mem, flags);
    lemma_bis_value(t, addr, labels, regs, mem, flags);
    lemma_xor_value(t, addr, labels, regs, mem, flags);
    lemma_and_value(t, addr, labels, regs, mem, flags);
    lemma_compare_bit_values(t, addr, labels, regs, mem, flags);
}

proof fn lemma_compare_bit_values(
    t: TwoOperand,
    addr: u64,
    labels: Seq<u64>,
    regs: spec_fn(u8) -> int,
    mem: spec_fn(int) -> int,
    flags: spec_fn(Flag) -> bool,
)
    ensures
        evaluated(spec_lift(Instruction::Cmp(t), addr, labels)[0], regs, mem, flags)
            == Some(wrap(spec_width_to_size(t.spec_operand_width()), operand_value(t.spec_destination(), spec_width_to_size(t.spec_operand_width()), regs, mem) - operand_value(t.spec_source(), spec_width_to_size(t.spec_operand_width()), regs, mem))),
        evaluated(spec_lift(Instruction::Bit(t), addr, labels)[0], regs, mem, flags)
            == Some((operand_value(t.spec_source(), spec_width_to_size(t.spec_operand_width()), regs, mem) as u64 & operand_value(t.spec_destination(), spec_width_to_size(t.spec_operand_width()), regs, mem) as u64) as int),
{
    let size = spec_width_to_size(t.spec_operand_width());
    lemma_source_value(t.spec_source(), size, regs, mem, flags);
    lemma_source_value(t.spec_destination(), size, regs, mem, flags);
    reveal_with_fuel(eval, 2);
}

proof fn lemma_mov_value(
    t: TwoOperand,
    addr: u64,
    labels: Seq<u64>,
    regs: spec_fn(u8) -> int,
    mem: spec_fn(int) -> int,
    flags: spec_fn(Flag) -> bool,
)
    requires
        is_writable(t.spec_destination()),
    ensures
        written_to(spec_lift(Instruction::Mov(t), addr, labels)[0], t.spec_destination(), regs, mem, flags)
            == Some(widened(Some(t.spec_operand_width()), operand_value(t.spec_source(), spec_width_to_size(t.spec_operand_width()), regs, mem))),
{
    let size = spec_width_to_size(t.spec_operand_width());
    lemma_source_value(t.spec_source(), size, regs, mem, flags);
    lemma_source_value(t.spec_destination(), size, regs, mem, flags);
    let value = two_operand_src(t);
    assert(spec_lift(Instruction::Mov(t), addr, labels) == spec_two_operand(t, value, Seq::empty()));
    reveal_with_fuel(eval, 3);
    lemma_two_operand_write(t, value, Seq::empty(), regs, mem, flags);
}

proof fn lemma_add_value(
    t: TwoOperand,
    addr: u64,
    labels: Seq<u64>,
    regs: spec_fn(u8) -> int,
    mem: spec_fn(int) -> int,
    flags: spec_fn(Flag) -> bool,
)
    requires
        is_writable(t.spec_destination()),
    ensures
        written_to(spec_lift(Instruction::Add(t), addr, labels)[0], t.spec_destination(), regs, mem, flags)
            == Some(widened(Some(t.spec_operand_width()), wrap(spec_width_to_size(t.spec_operand_width()), operand_value(t.spec_source(), spec_width_to_size(t.spec_operand_width()), regs, mem) + operand_value(t.spec_destination(), spec_width_to_size(t.spec_operand_width()), regs, mem)))),
{
    let size = spec_width_to_size(t.spec_operand_width());
    lemma_source_value(t.spec_source(), size, regs, mem, flags);
    lemma_source_value(t.spec_destination(), size, regs, mem, flags);
    let value = binary(BinaryOp::Add, spec_width_to_size(t.spec_operand_width()), two_operand_src(t), two_operand_dst(t), FlagWrite::All);
    assert(spec_lift(Instruction::Add(t), addr, labels) == spec_two_operand(t, value, Seq::empty()));
    reveal_with_fuel(eval, 3);
    lemma_two_operand_write(t, value, Seq::empty(), regs, mem, flags);
}

proof fn lemma_dadd_value(
    t: TwoOperand,
    addr: u64,
    labels: Seq<u64>,
    regs: spec_fn(u8) -> int,
    mem: spec_fn(int) -> int,
    flags: spec_fn(Flag) -> bool,
)
    requires
        is_writable(t.spec_destination()),
    ensures
        written_to(spec_lift(Instruction::Dadd(t), addr, labels)[0], t.spec_destination(), regs, mem, flags)
            == Some(widened(Some(t.spec_operand_width()), wrap(spec_width_to_size(t.spec_operand_width()), operand_value(t.spec_source(), spec_width_to_size(t.spec_operand_width()), regs, mem) + operand_value(t.spec_destination(), spec_width_to_size(t.spec_operand_width()), regs, mem)))),
{
    let size = spec_width_to_size(t.spec_operand_width());
    lemma_source_value(t.spec_source(), size, regs, mem, flags);
    lemma_source_value(t.spec_destination(), size, regs, mem, flags);
    let value = binary(BinaryOp::Add, spec_width_to_size(t.spec_operand_width()), two_operand_src(t), two_operand_dst(t), FlagWrite::All);
    assert(spec_lift(Instruction::Dadd(t), addr, labels) == spec_two_operand(t, value, Seq::empty()));
    reveal_with_fuel(eval, 3);
    lemma_two_operand_write(t, value, Seq::empty(), regs, mem, flags);
}

proof fn lemma_addc_value(
    t: TwoOperand,
    addr: u64,
    labels: Seq<u64>,
    regs: spec_fn(u8) -> int,
    mem: spec_fn(int) -> int,
    flags: spec_fn(Flag) -> bool,
)
    requires
        is_writable(t.spec_destination()),
    ensures
        written_to(spec_lift(Instruction::Addc(t), addr, labels)[0], t.spec_destination(), regs, mem, flags)
            == Some(widened(Some(t.spec_operand_width()), wrap(spec_width_to_size(t.spec_operand_width()), operand_value(t.spec_source(), spec_width_to_size(t.spec_operand_width()), regs, mem) + operand_value(t.spec_destination(), spec_width_to_size(t.spec_operand_width()), regs, mem) + bit(flags(Flag::C))))),
{
    let size = spec_width_to_size(t.spec_operand_width());
    lemma_source_value(t.spec_source(), size, regs, mem, flags);
    lemma_source_value(t.spec_destination(), size, regs, mem, flags);
    let value = Expr::Carry(CarryOp::AddWithCarry, spec_width_to_size(t.spec_operand_width()), Box::new(two_operand_src(t)), Box::new(two_operand_dst(t)), Box::new(Expr::Flag(Flag::C)), FlagWrite::All);
    assert(spec_lift(Instruction::Addc(t), addr, labels) == spec_two_operand(t, value, Seq::empty()));
    reveal_with_fuel(eval, 3);
    lemma_two_operand_write(t, value, Seq::empty(), regs, mem, flags);
}

proof fn lemma_sub_value(
    t: TwoOperand,
    addr: u64,
    labels: Seq<u64>,
    regs: spec_fn(u8) -> int,
    mem: spec_fn(int) -> int,
    flags: spec_fn(Flag) -> bool,
)
    requires
        is_writable(t.spec_destination()),
    ensures
        written_to(spec_lift(Instruction::Sub(t), addr, labels)[0], t.spec_destination(), regs, mem, flags)
            == Some(widened(Some(t.spec_operand_width()), wrap(spec_width_to_size(t.spec_operand_width()), operand_value(t.spec_source(), spec_width_to_size(t.spec_operand_width()), regs, mem) - operand_value(t.spec_destination(), spec_width_to_size(t.spec_operand_width()), regs, mem)))),
{
    let size = spec_width_to_size(t.spec_operand_width());
    lemma_source_value(t.spec_source(), size, regs, mem, flags);
    lemma_source_value(t.spec_destination(), size, regs, mem, flags);
    let value = binary(BinaryOp::Sub, spec_width_to_size(t.spec_operand_width()), two_operand_src(t), two_operand_dst(t), FlagWrite::All);
    assert(spec_lift(Instruction::Sub(t), addr, labels) == spec_two_operand(t, value, Seq::empty()));
    reveal_with_fuel(eval, 3);
    lemma_two_operand_write(t, value, Seq::empty(), regs, mem, flags);
}

proof fn lemma_subc_value(
    t: TwoOperand,
    addr: u64,
    labels: Seq<u64>,
    regs: spec_fn(u8) -> int,
    mem: spec_fn(int) -> int,
    flags: spec_fn(Flag) -> bool,
)
    requires
        is_writable(t.spec_destination()),
    ensures
        written_to(spec_lift(Instruction::Subc(t), addr, labels)[0], t.spec_destination(), regs, mem, flags)
            == Some(widened(Some(t.spec_operand_width()), wrap(spec_width_to_size(t.spec_operand_width()), operand_value(t.spec_destination(), spec_width_to_size(t.spec_operand_width()), regs, mem) - operand_value(t.spec_source(), spec_width_to_size(t.spec_operand_width()), regs, mem) - bit(flags(Flag::C))))),
{
    let size = spec_width_to_size(t.spec_operand_width());
    lemma_source_value(t.spec_source(), size, regs, mem, flags);
    lemma_source_value(t.spec_destination(), size, regs, mem, flags);
    let value = Expr::Carry(CarryOp::SubWithBorrow, spec_width_to_size(t.spec_operand_width()), Box::new(two_operand_dst(t)), Box::new(two_operand_src(t)), Box::new(Expr::Flag(Flag::C)), FlagWrite::All);
    assert(spec_lift(Instruction::Subc(t), addr, labels) == spec_two_operand(t, value, Seq::empty()));
    reveal_with_fuel(eval, 3);
    lemma_two_operand_write(t, value, Seq::empty(), regs, mem, flags);
}

proof fn lemma_bic_value(
    t: TwoOperand,
    addr: u64,
    labels: Seq<u64>,
    regs: spec_fn(u8) -> int,
    mem: spec_fn(int) -> int,
    flags: spec_fn(Flag) -> bool,
)
    requires
        is_writable(t.spec_destination()),
    ensures
        written_to(spec_lift(Instruction::Bic(t), addr, labels)[0], t.spec_destination(), regs, mem, flags)
            == Some(widened(Some(t.spec_operand_width()), ((modulus(spec_width_to_size(t.spec_operand_width())) - 1 - operand_value(t.spec_source(), spec_width_to_size(t.spec_operand_width()), regs, mem)) as u64 & operand_value(t.spec_destination(), spec_width_to_size(t.spec_operand_width()), regs, mem) as u64) as int)),
{
    let size = spec_width_to_size(t.spec_operand_width());
    lemma_source_value(t.spec_source(), size, regs, mem, flags);
    lemma_source_value(t.spec_destination(), size, regs, mem, flags);
    let value = binary(BinaryOp::And, spec_width_to_size(t.spec_operand_width()), Expr::Unary(UnaryOp::Not, spec_width_to_size(t.spec_operand_width()), Box::new(two_operand_src(t)), FlagWrite::NoFlags), two_operand_dst(t), FlagWrite::NoFlags);
    assert(spec_lift(Instruction::Bic(t), addr, labels) == spec_two_operand(t, value, Seq::empty()));
    reveal_with_fuel(eval, 3);
    lemma_two_operand_write(t, value, Seq::empty(), regs, mem, flags);
}

proof fn lemma_bis_value(
    t: TwoOperand,
    addr: u64,
    labels: Seq<u64>,
    regs: spec_fn(u8) -> int,
    mem: spec_fn(int) -> int,
    flags: spec_fn(Flag) -> bool,
)
    requires
        is_writable(t.spec_destination()),
    ensures
        written_to(spec_lift(Instruction::Bis(t), addr, labels)[0], t.spec_destination(), regs, mem, flags)
            == Some(widened(Some(t.spec_operand_width()), (operand_value(t.spec_source(), spec_width_to_size(t.spec_operand_width()), regs, mem) as u64 | operand_value(t.spec_destination(), spec_width_to_size(t.spec_operand_width()), regs, mem) as u64) as int)),
{
    let size = spec_width_to_size(t.spec_operand_width());
    lemma_source_value(t.spec_source(), size, regs, mem, flags);
    lemma_source_value(t.spec_destination(), size, regs, mem, flags);
    let value = binary(BinaryOp::Or, spec_width_to_size(t.spec_operand_width()), two_operand_src(t), two_operand_dst(t), FlagWrite::NoFlags);
    assert(spec_lift(Instruction::Bis(t), addr, labels) == spec_two_operand(t, value, Seq::empty()));
    reveal_with_fuel(eval, 3);
    lemma_two_operand_write(t, value, Seq::empty(), regs, mem, flags);
}

proof fn lemma_xor_value(
    t: TwoOperand,
    addr: u64,
    labels: Seq<u64>,
    regs: spec_fn(u8) -> int,
    mem: spec_fn(int) -> int,
    flags: spec_fn(Flag) -> bool,
)
    requires
        is_writable(t.spec_destination()),
    ensures
        written_to(spec_lift(Instruction::Xor(t), addr, labels)[0], t.spec_destination(), regs, mem, flags)
            == Some(widened(Some(t.spec_operand_width()), (operand_value(t.spec_source(), spec_width_to_size(t.spec_operand_width()), regs, mem) as u64 ^ operand_value(t.spec_destination(), spec_width_to_size(t.spec_operand_width()), regs, mem) as u64) as int)),
{
    let size = spec_width_to_size(t.spec_operand_width());
    lemma_source_value(t.spec_source(), size, regs, mem, flags);
    lemma_source_value(t.spec_destination(), size, regs, mem, flags);
    let value = binary(BinaryOp::Xor, spec_width_to_size(t.spec_operand_width()), two_operand_src(t), two_operand_dst(t), FlagWrite::Nvz);
    assert(spec_lift(Instruction::Xor(t), addr, labels) == spec_two_operand(t, value, seq![carry_from_not_zero()]));
    reveal_with_fuel(eval, 3);
    lemma_two_operand_write(t, value, seq![carry_from_not_zero()], regs, mem, flags);
}

proof fn lemma_and_value(
    t: TwoOperand,
    addr: u64,
    labels: Seq<u64>,
    regs: spec_fn(u8) -> int,
    mem: spec_fn(int) -> int,
    flags: spec_fn(Flag) -> bool,
)
    requires
        is_writable(t.spec_destination()),
    ensures
        written_to(spec_lift(Instruction::And(t), addr, labels)[0], t.spec_destination(), regs, mem, flags)
            == Some(widened(Some(t.spec_operand_width()), (operand_value(t.spec_source(), spec_width_to_size(t.spec_operand_width()), regs, mem) as u64 & operand_value(t.spec_destination(), spec_width_to_size(t.spec_operand_width()), regs, mem) as u64) as int)),
{
    let size = spec_width_to_size(t.spec_operand_width());
    lemma_source_value(t.spec_source(), size, regs, mem, flags);
    lemma_source_value(t.spec_destination(), size, regs, mem, flags);
    let value = binary(BinaryOp::And, spec_width_to_size(t.spec_operand_width()), two_operand_src(t), two_operand_dst(t), FlagWrite::Nz);
    assert(spec_lift(Instruction::And(t), addr, labels) == spec_two_operand(t, value, seq![set_flag(Flag::V, 0), carry_from_not_zero()]));
    reveal_with_fuel(eval, 3);
    lemma_two_operand_write(t, value, seq![set_flag(Flag::V, 0), carry_from_not_zero()], regs, mem, flags);
}

/// The first statement of a lifted two-operand instruction writes the value it computes,
/// sign-extended for a byte, to the destination.
proof fn lemma_two_operand_write(
    t: TwoOperand,
    value: Expr,
    after: Seq<Stmt>,
    regs: spec_fn(u8) -> int,
    mem: spec_fn(int) -> int,
    flags: spec_fn(Flag) -> bool,
)
    requires
        is_writable(t.spec_destination()),
        expr_size(value) == spec_width_to_size(t.spec_operand_width()),
    ensures
        written_to(spec_two_operand(t, value, after)[0], t.spec_destination(), regs, mem, flags)
            == eval(byte_extend(Some(t.spec_operand_width()), value), regs, mem, flags),
        eval(value, regs, mem, flags) is Some ==> eval(
            byte_extend(Some(t.spec_operand_width()), value),
            regs,
            mem,
            flags,
        ) == Some(widened(Some(t.spec_operand_width()), eval(value, regs, mem, flags)->0)),
{
    lemma_write_target(t.spec_destination(), regs, mem, flags);
    reveal_with_fuel(eval, 2);
}

/// Lifted multi-bit rotations and shifts set their register, read as `x` at their size (20
/// bits for `.A`, 16 for `.W`), to: RRUM `x` shifted right by the count with zeros coming in
/// (`x / 2^n`); RRAM the signed `x` shifted right with its sign copied in; RLAM `x` shifted
/// left (`x * 2^n`, wrapped); RRCM `x` rotated right through the carry. RRUM and RRAM then
/// clear V; each is a single register write otherwise.
pub proof fn lemma_rotation_values(
    i: RotateMultiple,
    addr: u64,
    labels: Seq<u64>,
    regs: spec_fn(u8) -> int,
    mem: spec_fn(int) -> int,
    flags: spec_fn(Flag) -> bool,
)
    ensures
        ({
            let size = address_or_word(i.spec_is_address());
            let r = i.spec_register();
            let x = wrap(size, regs(r));
            let n = i.spec_count() as nat;
            let rrum = spec_lift(Instruction::Rrum(i), addr, labels);
            let rram = spec_lift(Instruction::Rram(i), addr, labels);
            let rlam = spec_lift(Instruction::Rlam(i), addr, labels);
            let rrcm = spec_lift(Instruction::Rrcm(i), addr, labels);
            &&& rrum.len() == 2 && rrum[1] == Stmt::SetFlag(Flag::V, Expr::Const(0, 0))
            &&& register_set(rrum[0], size, r, regs, mem, flags) == Some(x / pow2(n) as int)
            &&& rram.len() == 2 && rram[1] == Stmt::SetFlag(Flag::V, Expr::Const(0, 0))
            &&& register_set(rram[0], size, r, regs, mem, flags) == Some(
                wrap(size, signed(size, x) / pow2(n) as int),
            )
            &&& rlam.len() == 1
            &&& register_set(rlam[0], size, r, regs, mem, flags) == Some(wrap(size, x * pow2(n)))
            &&& rrcm.len() == 1
            &&& register_set(rrcm[0], size, r, regs, mem, flags) == Some(
                wrap(
                    size,
                    rotate_right_in(
                        x + bit(flags(Flag::C)) * modulus(size),
                        (n as int % (bit_count(size) + 1) as int) as nat,
                        (bit_count(size) + 1) as nat,
                    ),
                ),
            )
        }),
{
    lemma_rrum_value(i, addr, labels, regs, mem, flags);
    lemma_rram_value(i, addr, labels, regs, mem, flags);
    lemma_rlam_value(i, addr, labels, regs, mem, flags);
    lemma_rrcm_value(i, addr, labels, regs, mem, flags);
}

proof fn lemma_rrum_value(
    i: RotateMultiple,
    addr: u64,
    labels: Seq<u64>,
    regs: spec_fn(u8) -> int,
    mem: spec_fn(int) -> int,
    flags: spec_fn(Flag) -> bool,
)
    ensures
        spec_lift(Instruction::Rrum(i), addr, labels).len() == 2,
        spec_lift(Instruction::Rrum(i), addr, labels)[1] == Stmt::SetFlag(Flag::V, Expr::Const(0, 0)),
        register_set(
            spec_lift(Instruction::Rrum(i), addr, labels)[0],
            address_or_word(i.spec_is_address()),
            i.spec_register(),
            regs,
            mem,
            flags,
        ) == Some(wrap(address_or_word(i.spec_is_address()), regs(i.spec_register())) / pow2(i.spec_count() as nat) as int),
{
    let size = address_or_word(i.spec_is_address());
    vstd::arithmetic::div_mod::lemma_small_mod(i.spec_count() as nat, modulus(size) as nat);
    reveal_with_fuel(eval, 2);
}

proof fn lemma_rram_value(
    i: RotateMultiple,
    addr: u64,
    labels: Seq<u64>,
    regs: spec_fn(u8) -> int,
    mem: spec_fn(int) -> int,
    flags: spec_fn(Flag) -> bool,
)
    ensures
        spec_lift(Instruction::Rram(i), addr, labels).len() == 2,
        spec_lift(Instruction::Rram(i), addr, labels)[1] == Stmt::SetFlag(Flag::V, Expr::Const(0, 0)),
        register_set(
            spec_lift(Instruction::Rram(i), addr, labels)[0],
            address_or_word(i.spec_is_address()),
            i.spec_register(),
            regs,
            mem,
            flags,
        ) == Some(wrap(address_or_word(i.spec_is_address()), signed(address_or_word(i.spec_is_address()), wrap(address_or_word(i.spec_is_address()), regs(i.spec_register()))) / pow2(i.spec_count() as nat) as int)),
{
    let size = address_or_word(i.spec_is_address());
    vstd::arithmetic::div_mod::lemma_small_mod(i.spec_count() as nat, modulus(size) as nat);
    reveal_with_fuel(eval, 2);
}

proof fn lemma_rlam_value(
    i: RotateMultiple,
    addr: u64,
    labels: Seq<u64>,
    regs: spec_fn(u8) -> int,
    mem: spec_fn(int) -> int,
    flags: spec_fn(Flag) -> bool,
)
    ensures
        spec_lift(Instruction::Rlam(i), addr, labels).len() == 1,
        register_set(
            spec_lift(Instruction::Rlam(i), addr, labels)[0],
            address_or_word(i.spec_is_address()),
            i.spec_register(),
            regs,
            mem,
            flags,
        ) == Some(wrap(address_or_word(i.spec_is_address()), wrap(address_or_word(i.spec_is_address()), regs(i.spec_register())) * pow2(i.spec_count() as nat))),
{
    let size = address_or_word(i.spec_is_address());
    vstd::arithmetic::div_mod::lemma_small_mod(i.spec_count() as nat, modulus(size) as nat);
    reveal_with_fuel(eval, 2);
}

proof fn lemma_rrcm_value(
    i: RotateMultiple,
    addr: u64,
    labels: Seq<u64>,
    regs: spec_fn(u8) -> int,
    mem: spec_fn(int) -> int,
    flags: spec_fn(Flag) -> bool,
)
    ensures
        spec_lift(Instruction::Rrcm(i), addr, labels).len() == 1,
        register_set(
            spec_lift(Instruction::Rrcm(i), addr, labels)[0],
            address_or_word(i.spec_is_address()),
            i.spec_register(),
            regs,
            mem,
            flags,
        ) == Some(wrap(address_or_word(i.spec_is_address()), rotate_right_in(wrap(address_or_word(i.spec_is_address()), regs(i.spec_register())) + bit(flags(Flag::C)) * modulus(address_or_word(i.spec_is_address())), (i.spec_count() as int % (bit_count(address_or_word(i.spec_is_address())) + 1) as int) as nat, (bit_count(address_or_word(i.spec_is_address())) + 1) as nat))),
{
    let size = address_or_word(i.spec_is_address());
    vstd::arithmetic::div_mod::lemma_small_mod(i.spec_count() as nat, modulus(size) as nat);
    reveal_with_fuel(eval, 2);
}

/// A destination an address instruction writes at the address its operand names: a
/// register, or a 20-bit indexed, symbolic or absolute operand, or a 16-bit absolute one.
pub open spec fn is_address_destination(op: Operand) -> bool {
    op is RegisterDirect || op is Indexed20 || op is Symbolic20 || op is Absolute20 || op is Absolute
}

/// Lifted address instructions compute at 20 bits, from the source value `s` and the
/// destination value `d`: MOVA writes `s`, ADDA `s + d`, SUBA `d - s` to the destination and
/// CMPA evaluates `d - s` for its flags. BRA jumps and CALLA calls to an immediate (or, for
/// BRA, absolute) address itself and otherwise to the operand's value; RETA returns to a
/// 20-bit address popped from the stack.
pub proof fn lemma_address_instruction_values(
    i: AddressInstruction,
    b: Bra,
    c: Calla,
    addr: u64,
    labels: Seq<u64>,
    regs: spec_fn(u8) -> int,
    mem: spec_fn(int) -> int,
    flags: spec_fn(Flag) -> bool,
)
    requires
        is_address_destination(i.spec_destination()),
    ensures
        written_to(spec_lift(Instruction::Mova(i), addr, labels)[0], i.spec_destination(), regs, mem, flags)
            == Some(operand_value(i.spec_source(), 3, regs, mem)),
        written_to(spec_lift(Instruction::Adda(i), addr, labels)[0], i.spec_destination(), regs, mem, flags)
            == Some(wrap(3, operand_value(i.spec_source(), 3, regs, mem) + operand_value(i.spec_destination(), 3, regs, mem))),
        written_to(spec_lift(Instruction::Suba(i), addr, labels)[0], i.spec_destination(), regs, mem, flags)
            == Some(wrap(3, operand_value(i.spec_destination(), 3, regs, mem) - operand_value(i.spec_source(), 3, regs, mem))),
        evaluated(spec_lift(Instruction::Cmpa(i), addr, labels)[0], regs, mem, flags)
            == Some(wrap(3, operand_value(i.spec_destination(), 3, regs, mem) - operand_value(i.spec_source(), 3, regs, mem))),
        spec_lift(Instruction::Bra(b), addr, labels).len() == 1,
        spec_lift(Instruction::Bra(b), addr, labels)[0] matches Stmt::Jump(e) && eval(e, regs, mem, flags)
            == Some(
            match b.spec_destination() {
                Operand::Immediate(v) | Operand::Absolute(v) => v as int,
                Operand::Immediate20(v) | Operand::Absolute20(v) => v as int,
                d => operand_value(d, 3, regs, mem),
            },
        ),
        spec_lift(Instruction::Calla(c), addr, labels).len() == 1,
        spec_lift(Instruction::Calla(c), addr, labels)[0] matches Stmt::Call(e) && eval(e, regs, mem, flags)
            == Some(
            match c.spec_destination() {
                Operand::Immediate(v) => v as int,
                Operand::Immediate20(v) => v as int,
                d => operand_value(d, 3, regs, mem),
            },
        ),
        spec_lift(Instruction::Reta(Reta), addr, labels) == seq![Stmt::Ret(Expr::Pop(3))],
{
    lemma_mova_value(i, addr, labels, regs, mem, flags);
    lemma_adda_value(i, addr, labels, regs, mem, flags);
    lemma_suba_value(i, addr, labels, regs, mem, flags);
    lemma_source_value(i.spec_source(), 3, regs, mem, flags);
    lemma_source_value(i.spec_destination(), 3, regs, mem, flags);
    lemma_source_value(b.spec_destination(), 3, regs, mem, flags);
    lemma_source_value(c.spec_destination(), 3, regs, mem, flags);
    reveal_with_fuel(eval, 2);
}

proof fn lemma_mova_value(
    i: AddressInstruction,
    addr: u64,
    labels: Seq<u64>,
    regs: spec_fn(u8) -> int,
    mem: spec_fn(int) -> int,
    flags: spec_fn(Flag) -> bool,
)
    requires
        is_address_destination(i.spec_destination()),
    ensures
        written_to(spec_lift(Instruction::Mova(i), addr, labels)[0], i.spec_destination(), regs, mem, flags)
            == Some(operand_value(i.spec_source(), 3, regs, mem)),
{
    lemma_source_value(i.spec_source(), 3, regs, mem, flags);
    lemma_source_value(i.spec_destination(), 3, regs, mem, flags);
    lemma_write_target(i.spec_destination(), regs, mem, flags);
    assert(spec_lift(Instruction::Mova(i), addr, labels) == spec_address_write(i.spec_destination(), address_src(i)));
    reveal_with_fuel(eval, 2);
}

proof fn lemma_adda_value(
    i: AddressInstruction,
    addr: u64,
    labels: Seq<u64>,
    regs: spec_fn(u8) -> int,
    mem: spec_fn(int) -> int,
    flags: spec_fn(Flag) -> bool,
)
    requires
        is_address_destination(i.spec_destination()),
    ensures
        written_to(spec_lift(Instruction::Adda(i), addr, labels)[0], i.spec_destination(), regs, mem, flags)
            == Some(wrap(3, operand_value(i.spec_source(), 3, regs, mem) + operand_value(i.spec_destination(), 3, regs, mem))),
{
    lemma_source_value(i.spec_source(), 3, regs, mem, flags);
    lemma_source_value(i.spec_destination(), 3, regs, mem, flags);
    lemma_write_target(i.spec_destination(), regs, mem, flags);
    assert(spec_lift(Instruction::Adda(i), addr, labels) == spec_address_write(i.spec_destination(), binary(BinaryOp::Add, 3, address_src(i), address_dst(i), FlagWrite::All)));
    reveal_with_fuel(eval, 2);
}

proof fn lemma_suba_value(
    i: AddressInstruction,
    addr: u64,
    labels: Seq<u64>,
    regs: spec_fn(u8) -> int,
    mem: spec_fn(int) -> int,
    flags: spec_fn(Flag) -> bool,
)
    requires
        is_address_destination(i.spec_destination()),
    ensures
        written_to(spec_lift(Instruction::Suba(i), addr, labels)[0], i.spec_destination(), regs, mem, flags)
            == Some(wrap(3, operand_value(i.spec_destination(), 3, regs, mem) - operand_value(i.spec_source(), 3, regs, mem))),
{
    lemma_source_value(i.spec_source(), 3, regs, mem, flags);
    lemma_source_value(i.spec_destination(), 3, regs, mem, flags);
    lemma_write_target(i.spec_destination(), regs, mem, flags);
    assert(spec_lift(Instruction::Suba(i), addr, labels) == spec_address_write(i.spec_destination(), binary(BinaryOp::Sub, 3, address_dst(i), address_src(i), FlagWrite::All)));
    reveal_with_fuel(eval, 2);
}

/// Lifted emulated instructions that write their destination compute, from the destination
/// value `x` read at their width (a word when they have none) and the carry `c`: INC `x + 1`,
/// INCD `x + 2`, DEC `x - 1`, DECD `x - 2`, CLR 0, INV `x` with every bit flipped, ADC and
/// DADC `x + c`, SBC `x - c`, RLA `x` rotated left by one bit (its top bit comes round to
/// bit 0), RLC `x` shifted left by one with `c` coming in; each wrapped at the width and,
/// for a byte, sign-extended to a word as it is written. TST evaluates `x` for its flags.
pub proof fn lemma_emulated_values(
    i: Emulated,
    addr: u64,
    labels: Seq<u64>,
    regs: spec_fn(u8) -> int,
    mem: spec_fn(int) -> int,
    flags: spec_fn(Flag) -> bool,
)
    requires
        i.spec_destination() matches Some(d) && is_writable(d),
    ensures
        written_to(spec_lift(Instruction::Inc(i), addr, labels)[0], i.spec_destination()->0, regs, mem, flags)
            == Some(widened(i.spec_operand_width(), wrap(size_or_word(i.spec_operand_width()), operand_value(i.spec_destination()->0, size_or_word(i.spec_operand_width()), regs, mem) + 1))),
        written_to(spec_lift(Instruction::Incd(i), addr, labels)[0], i.spec_destination()->0, regs, mem, flags)
            == Some(widened(i.spec_operand_width(), wrap(size_or_word(i.spec_operand_width()), operand_value(i.spec_destination()->0, size_or_word(i.spec_operand_width()), regs, mem) + 2))),
        written_to(spec_lift(Instruction::Dec(i), addr, labels)[0], i.spec_destination()->0, regs, mem, flags)
            == Some(widened(i.spec_operand_width(), wrap(size_or_word(i.spec_operand_width()), operand_value(i.spec_destination()->0, size_or_word(i.spec_operand_width()), regs, mem) - 1))),
        written_to(spec_lift(Instruction::Decd(i), addr, labels)[0], i.spec_destination()->0, regs, mem, flags)
            == Some(widened(i.spec_operand_width(), wrap(size_or_word(i.spec_operand_width()), operand_value(i.spec_destination()->0, size_or_word(i.spec_operand_width()), regs, mem) - 2))),
        written_to(spec_lift(Instruction::Clr(i), addr, labels)[0], i.spec_destination()->0, regs, mem, flags)
            == Some(0int),
        written_to(spec_lift(Instruction::Inv(i), addr, labels)[0], i.spec_destination()->0, regs, mem, flags)
            == Some(widened(i.spec_operand_width(), modulus(size_or_word(i.spec_operand_width())) - 1 - operand_value(i.spec_destination()->0, size_or_word(i.spec_operand_width()), regs, mem))),
        written_to(spec_lift(Instruction::Adc(i), addr, labels)[0], i.spec_destination()->0, regs, mem, flags)
            == Some(widened(i.spec_operand_width(), wrap(size_or_word(i.spec_operand_width()), operand_value(i.spec_destination()->0, size_or_word(i.spec_operand_width()), regs, mem) + bit(flags(Flag::C))))),
        written_to(spec_lift(Instruction::Dadc(i), addr, labels)[0], i.spec_destination()->0, regs, mem, flags)
            == Some(widened(i.spec_operand_width(), wrap(size_or_word(i.spec_operand_width()), operand_value(i.spec_destination()->0, size_or_word(i.spec_operand_width()), regs, mem) + bit(flags(Flag::C))))),
        written_to(spec_lift(Instruction::Sbc(i), addr, labels)[0], i.spec_destination()->0, regs, mem, flags)
            == Some(widened(i.spec_operand_width(), wrap(size_or_word(i.spec_operand_width()), operand_value(i.spec_destination()->0, size_or_word(i.spec_operand_width()), regs, mem) - bit(flags(Flag::C))))),
        written_to(spec_lift(Instruction::Rla(i), addr, labels)[0], i.spec_destination()->0, regs, mem, flags)
            == Some(widened(i.spec_operand_width(), wrap(size_or_word(i.spec_operand_width()), 2 * operand_value(i.spec_destination()->0, size_or_word(i.spec_operand_width()), regs, mem) + operand_value(i.spec_destination()->0, size_or_word(i.spec_operand_width()), regs, mem) / (modulus(size_or_word(i.spec_operand_width())) / 2)))),
        written_to(spec_lift(Instruction::Rlc(i), addr, labels)[0], i.spec_destination()->0, regs, mem, flags)
            == Some(widened(i.spec_operand_width(), wrap(size_or_word(i.spec_operand_width()), 2 * operand_value(i.spec_destination()->0, size_or_word(i.spec_operand_width()), regs, mem) + bit(flags(Flag::C))))),
        evaluated(spec_lift(Instruction::Tst(i), addr, labels)[0], regs, mem, flags) == Some(operand_value(i.spec_destination()->0, size_or_word(i.spec_operand_width()), regs, mem)),
{
    lemma_inc_value(i, addr, labels, regs, mem, flags);
    lemma_incd_value(i, addr, labels, regs, mem, flags);
    lemma_dec_value(i, addr, labels, regs, mem, flags);
    lemma_decd_value(i, addr, labels, regs, mem, flags);
    lemma_clr_value(i, addr, labels, regs, mem, flags);
    lemma_inv_value(i, addr, labels, regs, mem, flags);
    lemma_adc_value(i, addr, labels, regs, mem, flags);
    lemma_dadc_value(i, addr, labels, regs, mem, flags);
    lemma_sbc_value(i, addr, labels, regs, mem, flags);
    lemma_rla_value(i, addr, labels, regs, mem, flags);
    lemma_rlc_value(i, addr, labels, regs, mem, flags);
    lemma_tst_value(i, addr, labels, regs, mem, flags);
}

proof fn lemma_tst_value(
    i: Emulated,
    addr: u64,
    labels: Seq<u64>,
    regs: spec_fn(u8) -> int,
    mem: spec_fn(int) -> int,
    flags: spec_fn(Flag) -> bool,
)
    requires
        i.spec_destination() matches Some(d) && is_writable(d),
    ensures
        evaluated(spec_lift(Instruction::Tst(i), addr, labels)[0], regs, mem, flags) == Some(operand_value(i.spec_destination()->0, size_or_word(i.spec_operand_width()), regs, mem)),
{
    let size = size_or_word(i.spec_operand_width());
    let d = i.spec_destination()->0;
    lemma_source_value(d, size, regs, mem, flags);
    lemma_operand_value_range(d, size, regs, mem);
    reveal_with_fuel(eval, 2);
}

/// An operand's value at a size lies in that size's range.
proof fn lemma_operand_value_range(
    op: Operand,
    size: usize,
    regs: spec_fn(u8) -> int,
    mem: spec_fn(int) -> int,
)
    ensures
        0 <= operand_value(op, size, regs, mem) < modulus(size),
        wrap(size, operand_value(op, size, regs, mem)) == operand_value(op, size, regs, mem),
{
    vstd::arithmetic::div_mod::lemma_mod_bound(operand_value(op, size, regs, mem), modulus(size));
    vstd::arithmetic::div_mod::lemma_small_mod(operand_value(op, size, regs, mem) as nat, modulus(size) as nat);
}

proof fn lemma_inc_value(
    i: Emulated,
    addr: u64,
    labels: Seq<u64>,
    regs: spec_fn(u8) -> int,
    mem: spec_fn(int) -> int,
    flags: spec_fn(Flag) -> bool,
)
    requires
        i.spec_destination() matches Some(d) && is_writable(d),
    ensures
        written_to(spec_lift(Instruction::Inc(i), addr, labels)[0], i.spec_destination()->0, regs, mem, flags)
            == Some(widened(i.spec_operand_width(), wrap(size_or_word(i.spec_operand_width()), operand_value(i.spec_destination()->0, size_or_word(i.spec_operand_width()), regs, mem) + 1))),
{
    let size = size_or_word(i.spec_operand_width());
    let d = i.spec_destination()->0;
    let x = operand_value(i.spec_destination()->0, size_or_word(i.spec_operand_width()), regs, mem);
    let value = binary(BinaryOp::Add, size_or_word(i.spec_operand_width()), emulated_dst(i), Expr::Const(size_or_word(i.spec_operand_width()), 1), FlagWrite::All);
    assert(spec_lift(Instruction::Inc(i), addr, labels) == spec_emulated(i, value));
    assert(eval(value, regs, mem, flags) == Some(wrap(size_or_word(i.spec_operand_width()), operand_value(i.spec_destination()->0, size_or_word(i.spec_operand_width()), regs, mem) + 1))) by {
        lemma_source_value(d, size, regs, mem, flags);
        lemma_operand_value_range(d, size, regs, mem);
        reveal_with_fuel(eval, 2);
    }
    lemma_emulated_write(i, value, regs, mem, flags);
}

proof fn lemma_incd_value(
    i: Emulated,
    addr: u64,
    labels: Seq<u64>,
    regs: spec_fn(u8) -> int,
    mem: spec_fn(int) -> int,
    flags: spec_fn(Flag) -> bool,
)
    requires
        i.spec_destination() matches Some(d) && is_writable(d),
    ensures
        written_to(spec_lift(Instruction::Incd(i), addr, labels)[0], i.spec_destination()->0, regs, mem, flags)
            == Some(widened(i.spec_operand_width(), wrap(size_or_word(i.spec_operand_width()), operand_value(i.spec_destination()->0, size_or_word(i.spec_operand_width()), regs, mem) + 2))),
{
    let size = size_or_word(i.spec_operand_width());
    let d = i.spec_destination()->0;
    let x = operand_value(i.spec_destination()->0, size_or_word(i.spec_operand_width()), regs, mem);
    let value = binary(BinaryOp::Add, size_or_word(i.spec_operand_width()), emulated_dst(i), Expr::Const(size_or_word(i.spec_operand_width()), 2), FlagWrite::All);
    assert(spec_lift(Instruction::Incd(i), addr, labels) == spec_emulated(i, value));
    assert(eval(value, regs, mem, flags) == Some(wrap(size_or_word(i.spec_operand_width()), operand_value(i.spec_destination()->0, size_or_word(i.spec_operand_width()), regs, mem) + 2))) by {
        lemma_source_value(d, size, regs, mem, flags);
        lemma_operand_value_range(d, size, regs, mem);
        reveal_with_fuel(eval, 2);
    }
    lemma_emulated_write(i, value, regs, mem, flags);
}

proof fn lemma_dec_value(
    i: Emulated,
    addr: u64,
    labels: Seq<u64>,
    regs: spec_fn(u8) -> int,
    mem: spec_fn(int) -> int,
    flags: spec_fn(Flag) -> bool,
)
    requires
        i.spec_destination() matches Some(d) && is_writable(d),
    ensures
        written_to(spec_lift(Instruction::Dec(i), addr, labels)[0], i.spec_destination()->0, regs, mem, flags)
            == Some(widened(i.spec_operand_width(), wrap(size_or_word(i.spec_operand_width()), operand_value(i.spec_destination()->0, size_or_word(i.spec_operand_width()), regs, mem) - 1))),
{
    let size = size_or_word(i.spec_operand_width());
    let d = i.spec_destination()->0;
    let x = operand_value(i.spec_destination()->0, size_or_word(i.spec_operand_width()), regs, mem);
    let value = binary(BinaryOp::Sub, size_or_word(i.spec_operand_width()), emulated_dst(i), Expr::Const(size_or_word(i.spec_operand_width()), 1), FlagWrite::All);
    assert(spec_lift(Instruction::Dec(i), addr, labels) == spec_emulated(i, value));
    assert(eval(value, regs, mem, flags) == Some(wrap(size_or_word(i.spec_operand_width()), operand_value(i.spec_destination()->0, size_or_word(i.spec_operand_width()), regs, mem) - 1))) by {
        lemma_source_value(d, size, regs, mem, flags);
        lemma_operand_value_range(d, size, regs, mem);
        reveal_with_fuel(eval, 2);
    }
    lemma_emulated_write(i, value, regs, mem, flags);
}

proof fn lemma_decd_value(
    i: Emulated,
    addr: u64,
    labels: Seq<u64>,
    regs: spec_fn(u8) -> int,
    mem: spec_fn(int) -> int,
    flags: spec_fn(Flag) -> bool,
)
    requires
        i.spec_destination() matches Some(d) && is_writable(d),
    ensures
        written_to(spec_lift(Instruction::Decd(i), addr, labels)[0], i.spec_destination()->0, regs, mem, flags)
            == Some(widened(i.spec_operand_width(), wrap(size_or_word(i.spec_operand_width()), operand_value(i.spec_destination()->0, size_or_word(i.spec_operand_width()), regs, mem) - 2))),
{
    let size = size_or_word(i.spec_operand_width());
    let d = i.spec_destination()->0;
    let x = operand_value(i.spec_destination()->0, size_or_word(i.spec_operand_width()), regs, mem);
    let value = binary(BinaryOp::Sub, size_or_word(i.spec_operand_width()), emulated_dst(i), Expr::Const(size_or_word(i.spec_operand_width()), 2), FlagWrite::All);
    assert(spec_lift(Instruction::Decd(i), addr, labels) == spec_emulated(i, value));
    assert(eval(value, regs, mem, flags) == Some(wrap(size_or_word(i.spec_operand_width()), operand_value(i.spec_destination()->0, size_or_word(i.spec_operand_width()), regs, mem) - 2))) by {
        lemma_source_value(d, size, regs, mem, flags);
        lemma_operand_value_range(d, size, regs, mem);
        reveal_with_fuel(eval, 2);
    }
    lemma_emulated_write(i, value, regs, mem, flags);
}

proof fn lemma_clr_value(
    i: Emulated,
    addr: u64,
    labels: Seq<u64>,
    regs: spec_fn(u8) -> int,
    mem: spec_fn(int) -> int,
    flags: spec_fn(Flag) -> bool,
)
    requires
        i.spec_destination() matches Some(d) && is_writable(d),
    ensures
        written_to(spec_lift(Instruction::Clr(i), addr, labels)[0], i.spec_destination()->0, regs, mem, flags)
            == Some(0int),
{
    let d = i.spec_destination()->0;
    assert(spec_lift(Instruction::Clr(i), addr, labels) == spec_write_back(d, Expr::Const(2, 0)));
    lemma_write_target(d, regs, mem, flags);
}

proof fn lemma_inv_value(
    i: Emulated,
    addr: u64,
    labels: Seq<u64>,
    regs: spec_fn(u8) -> int,
    mem: spec_fn(int) -> int,
    flags: spec_fn(Flag) -> bool,
)
    requires
        i.spec_destination() matches Some(d) && is_writable(d),
    ensures
        written_to(spec_lift(Instruction::Inv(i), addr, labels)[0], i.spec_destination()->0, regs, mem, flags)
            == Some(widened(i.spec_operand_width(), modulus(size_or_word(i.spec_operand_width())) - 1 - operand_value(i.spec_destination()->0, size_or_word(i.spec_operand_width()), regs, mem))),
{
    let size = size_or_word(i.spec_operand_width());
    let d = i.spec_destination()->0;
    let x = operand_value(i.spec_destination()->0, size_or_word(i.spec_operand_width()), regs, mem);
    let value = Expr::Unary(UnaryOp::Not, size_or_word(i.spec_operand_width()), Box::new(emulated_dst(i)), FlagWrite::Nvz);
    assert(spec_lift(Instruction::Inv(i), addr, labels) == spec_emulated(i, value).push(carry_from_not_zero()));
    assert(eval(value, regs, mem, flags) == Some(modulus(size_or_word(i.spec_operand_width())) - 1 - operand_value(i.spec_destination()->0, size_or_word(i.spec_operand_width()), regs, mem))) by {
        lemma_source_value(d, size, regs, mem, flags);
        lemma_operand_value_range(d, size, regs, mem);
        reveal_with_fuel(eval, 2);
    }
    lemma_emulated_write(i, value, regs, mem, flags);
}

proof fn lemma_adc_value(
    i: Emulated,
    addr: u64,
    labels: Seq<u64>,
    regs: spec_fn(u8) -> int,
    mem: spec_fn(int) -> int,
    flags: spec_fn(Flag) -> bool,
)
    requires
        i.spec_destination() matches Some(d) && is_writable(d),
    ensures
        written_to(spec_lift(Instruction::Adc(i), addr, labels)[0], i.spec_destination()->0, regs, mem, flags)
            == Some(widened(i.spec_operand_width(), wrap(size_or_word(i.spec_operand_width()), operand_value(i.spec_destination()->0, size_or_word(i.spec_operand_width()), regs, mem) + bit(flags(Flag::C))))),
{
    let size = size_or_word(i.spec_operand_width());
    let d = i.spec_destination()->0;
    let x = operand_value(i.spec_destination()->0, size_or_word(i.spec_operand_width()), regs, mem);
    let value = Expr::Carry(CarryOp::AddWithCarry, size_or_word(i.spec_operand_width()), Box::new(Expr::Const(size_or_word(i.spec_operand_width()), 0)), Box::new(emulated_dst(i)), Box::new(Expr::Flag(Flag::C)), FlagWrite::All);
    assert(spec_lift(Instruction::Adc(i), addr, labels) == spec_emulated(i, value));
    assert(eval(value, regs, mem, flags) == Some(wrap(size_or_word(i.spec_operand_width()), operand_value(i.spec_destination()->0, size_or_word(i.spec_operand_width()), regs, mem) + bit(flags(Flag::C))))) by {
        lemma_source_value(d, size, regs, mem, flags);
        lemma_operand_value_range(d, size, regs, mem);
        reveal_with_fuel(eval, 2);
    }
    lemma_emulated_write(i, value, regs, mem, flags);
}

proof fn lemma_dadc_value(
    i: Emulated,
    addr: u64,
    labels: Seq<u64>,
    regs: spec_fn(u8) -> int,
    mem: spec_fn(int) -> int,
    flags: spec_fn(Flag) -> bool,
)
    requires
        i.spec_destination() matches Some(d) && is_writable(d),
    ensures
        written_to(spec_lift(Instruction::Dadc(i), addr, labels)[0], i.spec_destination()->0, regs, mem, flags)
            == Some(widened(i.spec_operand_width(), wrap(size_or_word(i.spec_operand_width()), operand_value(i.spec_destination()->0, size_or_word(i.spec_operand_width()), regs, mem) + bit(flags(Flag::C))))),
{
    let size = size_or_word(i.spec_operand_width());
    let d = i.spec_destination()->0;
    let x = operand_value(i.spec_destination()->0, size_or_word(i.spec_operand_width()), regs, mem);
    let value = Expr::Carry(CarryOp::AddWithCarry, size_or_word(i.spec_operand_width()), Box::new(Expr::Const(size_or_word(i.spec_operand_width()), 0)), Box::new(emulated_dst(i)), Box::new(Expr::Flag(Flag::C)), FlagWrite::All);
    assert(spec_lift(Instruction::Dadc(i), addr, labels) == spec_emulated(i, value));
    assert(eval(value, regs, mem, flags) == Some(wrap(size_or_word(i.spec_operand_width()), operand_value(i.spec_destination()->0, size_or_word(i.spec_operand_width()), regs, mem) + bit(flags(Flag::C))))) by {
        lemma_source_value(d, size, regs, mem, flags);
        lemma_operand_value_range(d, size, regs, mem);
        reveal_with_fuel(eval, 2);
    }
    lemma_emulated_write(i, value, regs, mem, flags);
}

proof fn lemma_sbc_value(
    i: Emulated,
    addr: u64,
    labels: Seq<u64>,
    regs: spec_fn(u8) -> int,
    mem: spec_fn(int) -> int,
    flags: spec_fn(Flag) -> bool,
)
    requires
        i.spec_destination() matches Some(d) && is_writable(d),
    ensures
        written_to(spec_lift(Instruction::Sbc(i), addr, labels)[0], i.spec_destination()->0, regs, mem, flags)
            == Some(widened(i.spec_operand_width(), wrap(size_or_word(i.spec_operand_width()), operand_value(i.spec_destination()->0, size_or_word(i.spec_operand_width()), regs, mem) - bit(flags(Flag::C))))),
{
    let size = size_or_word(i.spec_operand_width());
    let d = i.spec_destination()->0;
    let x = operand_value(i.spec_destination()->0, size_or_word(i.spec_operand_width()), regs, mem);
    let value = Expr::Carry(CarryOp::SubWithBorrow, size_or_word(i.spec_operand_width()), Box::new(emulated_dst(i)), Box::new(Expr::Const(size_or_word(i.spec_operand_width()), 0)), Box::new(Expr::Flag(Flag::C)), FlagWrite::All);
    assert(spec_lift(Instruction::Sbc(i), addr, labels) == spec_emulated(i, value));
    assert(eval(value, regs, mem, flags) == Some(wrap(size_or_word(i.spec_operand_width()), operand_value(i.spec_destination()->0, size_or_word(i.spec_operand_width()), regs, mem) - bit(flags(Flag::C))))) by {
        lemma_source_value(d, size, regs, mem, flags);
        lemma_operand_value_range(d, size, regs, mem);
        reveal_with_fuel(eval, 2);
    }
    lemma_emulated_write(i, value, regs, mem, flags);
}

proof fn lemma_rla_value(
    i: Emulated,
    addr: u64,
    labels: Seq<u64>,
    regs: spec_fn(u8) -> int,
    mem: spec_fn(int) -> int,
    flags: spec_fn(Flag) -> bool,
)
    requires
        i.spec_destination() matches Some(d) && is_writable(d),
    ensures
        written_to(spec_lift(Instruction::Rla(i), addr, labels)[0], i.spec_destination()->0, regs, mem, flags)
            == Some(widened(i.spec_operand_width(), wrap(size_or_word(i.spec_operand_width()), 2 * operand_value(i.spec_destination()->0, size_or_word(i.spec_operand_width()), regs, mem) + operand_value(i.spec_destination()->0, size_or_word(i.spec_operand_width()), regs, mem) / (modulus(size_or_word(i.spec_operand_width())) / 2)))),
{
    let size = size_or_word(i.spec_operand_width());
    let d = i.spec_destination()->0;
    let x = operand_value(i.spec_destination()->0, size_or_word(i.spec_operand_width()), regs, mem);
    let value = binary(BinaryOp::RotateLeft, size_or_word(i.spec_operand_width()), emulated_dst(i), Expr::Const(size_or_word(i.spec_operand_width()), 1), FlagWrite::All);
    assert(spec_lift(Instruction::Rla(i), addr, labels) == spec_emulated(i, value));
    lemma_source_value(d, size, regs, mem, flags);
    lemma_operand_value_range(d, size, regs, mem);
    assert(eval(value, regs, mem, flags) == Some(binary_value(BinaryOp::RotateLeft, size, x, wrap(size, 1), flags(Flag::C)))) by {
        reveal_with_fuel(eval, 2);
    }
    vstd::arithmetic::div_mod::lemma_small_mod(1, modulus(size) as nat);
    lemma_rotation_by_one(size, x, flags(Flag::C));
    assert(eval(value, regs, mem, flags) == Some(wrap(size_or_word(i.spec_operand_width()), 2 * operand_value(i.spec_destination()->0, size_or_word(i.spec_operand_width()), regs, mem) + operand_value(i.spec_destination()->0, size_or_word(i.spec_operand_width()), regs, mem) / (modulus(size_or_word(i.spec_operand_width())) / 2))));
    lemma_emulated_write(i, value, regs, mem, flags);
}

proof fn lemma_rlc_value(
    i: Emulated,
    addr: u64,
    labels: Seq<u64>,
    regs: spec_fn(u8) -> int,
    mem: spec_fn(int) -> int,
    flags: spec_fn(Flag) -> bool,
)
    requires
        i.spec_destination() matches Some(d) && is_writable(d),
    ensures
        written_to(spec_lift(Instruction::Rlc(i), addr, labels)[0], i.spec_destination()->0, regs, mem, flags)
            == Some(widened(i.spec_operand_width(), wrap(size_or_word(i.spec_operand_width()), 2 * operand_value(i.spec_destination()->0, size_or_word(i.spec_operand_width()), regs, mem) + bit(flags(Flag::C))))),
{
    let size = size_or_word(i.spec_operand_width());
    let d = i.spec_destination()->0;
    let x = operand_value(i.spec_destination()->0, size_or_word(i.spec_operand_width()), regs, mem);
    let value = binary(BinaryOp::RotateLeftCarry, size_or_word(i.spec_operand_width()), emulated_dst(i), Expr::Const(size_or_word(i.spec_operand_width()), 1), FlagWrite::All);
    assert(spec_lift(Instruction::Rlc(i), addr, labels) == spec_emulated(i, value));
    lemma_source_value(d, size, regs, mem, flags);
    lemma_operand_value_range(d, size, regs, mem);
    assert(eval(value, regs, mem, flags) == Some(binary_value(BinaryOp::RotateLeftCarry, size, x, wrap(size, 1), flags(Flag::C)))) by {
        reveal_with_fuel(eval, 2);
    }
    vstd::arithmetic::div_mod::lemma_small_mod(1, modulus(size) as nat);
    lemma_rotation_by_one(size, x, flags(Flag::C));
    assert(eval(value, regs, mem, flags) == Some(wrap(size_or_word(i.spec_operand_width()), 2 * operand_value(i.spec_destination()->0, size_or_word(i.spec_operand_width()), regs, mem) + bit(flags(Flag::C)))));
    lemma_emulated_write(i, value, regs, mem, flags);
}

/// The first statement of a lifted emulated instruction writes the value it computes,
/// sign-extended for a byte, to the destination.
proof fn lemma_emulated_write(
    i: Emulated,
    value: Expr,
    regs: spec_fn(u8) -> int,
    mem: spec_fn(int) -> int,
    flags: spec_fn(Flag) -> bool,
)
    requires
        i.spec_destination() matches Some(d) && is_writable(d),
        expr_size(value) == size_or_word(i.spec_operand_width()),
        eval(value, regs, mem, flags) is Some,
    ensures
        written_to(spec_emulated(i, value)[0], i.spec_destination()->0, regs, mem, flags)
            == Some(widened(i.spec_operand_width(), eval(value, regs, mem, flags)->0)),
{
    lemma_write_target(i.spec_destination()->0, regs, mem, flags);
    reveal_with_fuel(eval, 2);
}

/// Rotating a value `x` of a size left by one bit, alone or through the carry `c`.
proof fn lemma_rotation_by_one(size: usize, x: int, c: bool)
    requires
        size == 1 || size == 2 || size == 3,
        0 <= x < modulus(size),
    ensures
        binary_value(BinaryOp::RotateLeft, size, x, 1, c) == wrap(size, 2 * x + x / (modulus(size) / 2)),
        binary_value(BinaryOp::RotateLeftCarry, size, x, 1, c) == wrap(size, 2 * x + bit(c)),
{
    lemma2_to64();
    let m = modulus(size);
    let bits = bit_count(size);
    assert(pow2(bits) == m && pow2((bits - 1) as nat) == m / 2 && pow2((bits + 1) as nat) == 2 * m
        && pow2(1) == 2);
    vstd::arithmetic::div_mod::lemma_small_mod(1, bits);
    vstd::arithmetic::div_mod::lemma_small_mod(1, (bits + 1) as nat);
    vstd::arithmetic::div_mod::lemma_small_mod(1, modulus(size) as nat);
    let q = x / (m / 2);
    assert(0 <= q <= 1) by (nonlinear_arith)
        requires
            0 <= x < m,
            m / 2 > 0,
            m == 2 * (m / 2),
            q == x / (m / 2),
    ;
    vstd::arithmetic::div_mod::lemma_add_mod_noop(2 * x, q, m);
    vstd::arithmetic::div_mod::lemma_small_mod(q as nat, m as nat);
    let y = x + bit(c) * m;
    assert((y * 2) % (2 * m) == 2 * x) by {
        vstd::arithmetic::div_mod::lemma_mod_multiples_vanish(bit(c), 2 * x, 2 * m);
        vstd::arithmetic::div_mod::lemma_small_mod((2 * x) as nat, (2 * m) as nat);
    }
    assert(y / m == bit(c)) by {
        vstd::arithmetic::div_mod::lemma_fundamental_div_mod_converse(y, m, bit(c), x);
    }
}

/// `C = !Z`: the carry set to the inverse of the zero flag.
pub open spec fn carry_is_not_zero() -> Stmt {
    Stmt::SetFlag(Flag::C, Expr::Unary(UnaryOp::Not, 0, Box::new(Expr::Flag(Flag::Z)), FlagWrite::NoFlags))
}

/// `V = 0`.
pub open spec fn v_cleared() -> Stmt {
    Stmt::SetFlag(Flag::V, Expr::Const(0, 0))
}

/// For an auto-increment source `@Rn+`, the statement that moves `Rn` on by a word after
/// the read; nothing for any other source.
pub open spec fn source_increment(op: Operand) -> Seq<Stmt> {
    match op {
        Operand::RegisterIndirectAutoIncrement(r) => seq![
            Stmt::SetReg(
                2,
                r,
                Expr::Binary(BinaryOp::Add, 2, Box::new(Expr::Reg(2, r)), Box::new(Expr::Const(2, 2)), FlagWrite::NoFlags),
                FlagWrite::NoFlags,
            ),
        ],
        _ => Seq::empty(),
    }
}

/// What lifted two-operand instructions do besides the value they write: the write is the
/// first statement, its operation sets all flags for MOV's arithmetic siblings ADD, DADD,
/// ADDC, SUB and SUBC, no flags for MOV, BIC and BIS, N, V and Z for XOR and N and Z for
/// AND; XOR then sets `C = !Z`, AND clears V and sets `C = !Z`; last, an `@Rn+` source is
/// moved on by a word. CMP and BIT evaluate their operation with all flags, or N and Z (BIT
/// then clears V and sets `C = !Z`), and write nothing.
pub proof fn lemma_two_operand_effects(t: TwoOperand, addr: u64, labels: Seq<u64>)
    requires
        is_writable(t.spec_destination()),
    ensures
        spec_lift(Instruction::Mov(t), addr, labels) == seq![spec_lift(Instruction::Mov(t), addr, labels)[0]]
            + Seq::<Stmt>::empty() + source_increment(t.spec_source()),
        statement_flags(spec_lift(Instruction::Mov(t), addr, labels)[0]) == FlagWrite::NoFlags,
        spec_lift(Instruction::Add(t), addr, labels) == seq![spec_lift(Instruction::Add(t), addr, labels)[0]]
            + Seq::<Stmt>::empty() + source_increment(t.spec_source()),
        statement_flags(spec_lift(Instruction::Add(t), addr, labels)[0]) == FlagWrite::All,
        spec_lift(Instruction::Dadd(t), addr, labels) == seq![spec_lift(Instruction::Dadd(t), addr, labels)[0]]
            + Seq::<Stmt>::empty() + source_increment(t.spec_source()),
        statement_flags(spec_lift(Instruction::Dadd(t), addr, labels)[0]) == FlagWrite::All,
        spec_lift(Instruction::Addc(t), addr, labels) == seq![spec_lift(Instruction::Addc(t), addr, labels)[0]]
            + Seq::<Stmt>::empty() + source_increment(t.spec_source()),
        statement_flags(spec_lift(Instruction::Addc(t), addr, labels)[0]) == FlagWrite::All,
        spec_lift(Instruction::Sub(t), addr, labels) == seq![spec_lift(Instruction::Sub(t), addr, labels)[0]]
            + Seq::<Stmt>::empty() + source_increment(t.spec_source()),
        statement_flags(spec_lift(Instruction::Sub(t), addr, labels)[0]) == FlagWrite::All,
        spec_lift(Instruction::Subc(t), addr, labels) == seq![spec_lift(Instruction::Subc(t), addr, labels)[0]]
            + Seq::<Stmt>::empty() + source_increment(t.spec_source()),
        statement_flags(spec_lift(Instruction::Subc(t), addr, labels)[0]) == FlagWrite::All,
        spec_lift(Instruction::Bic(t), addr, labels) == seq![spec_lift(Instruction::Bic(t), addr, labels)[0]]
            + Seq::<Stmt>::empty() + source_increment(t.spec_source()),
        statement_flags(spec_lift(Instruction::Bic(t), addr, labels)[0]) == FlagWrite::NoFlags,
        spec_lift(Instruction::Bis(t), addr, labels) == seq![spec_lift(Instruction::Bis(t), addr, labels)[0]]
            + Seq::<Stmt>::empty() + source_increment(t.spec_source()),
        statement_flags(spec_lift(Instruction::Bis(t), addr, labels)[0]) == FlagWrite::NoFlags,
        spec_lift(Instruction::Xor(t), addr, labels) == seq![spec_lift(Instruction::Xor(t), addr, labels)[0]]
            + seq![carry_is_not_zero()] + source_increment(t.spec_source()),
        statement_flags(spec_lift(Instruction::Xor(t), addr, labels)[0]) == FlagWrite::Nvz,
        spec_lift(Instruction::And(t), addr, labels) == seq![spec_lift(Instruction::And(t), addr, labels)[0]]
            + seq![v_cleared(), carry_is_not_zero()] + source_increment(t.spec_source()),
        statement_flags(spec_lift(Instruction::And(t), addr, labels)[0]) == FlagWrite::Nz,
        spec_lift(Instruction::Cmp(t), addr, labels) == seq![spec_lift(Instruction::Cmp(t), addr, labels)[0]]
            + source_increment(t.spec_source()),
        spec_lift(Instruction::Cmp(t), addr, labels)[0] is Eval,
        statement_flags(spec_lift(Instruction::Cmp(t), addr, labels)[0]) == FlagWrite::All,
        spec_lift(Instruction::Bit(t), addr, labels) == seq![spec_lift(Instruction::Bit(t), addr, labels)[0], v_cleared(), carry_is_not_zero()]
            + source_increment(t.spec_source()),
        spec_lift(Instruction::Bit(t), addr, labels)[0] is Eval,
        statement_flags(spec_lift(Instruction::Bit(t), addr, labels)[0]) == FlagWrite::Nz,
{
    lemma_mov_effects(t, addr, labels);
    lemma_add_effects(t, addr, labels);
    lemma_dadd_effects(t, addr, labels);
    lemma_addc_effects(t, addr, labels);
    lemma_sub_effects(t, addr, labels);
    lemma_subc_effects(t, addr, labels);
    lemma_bic_effects(t, addr, labels);
    lemma_bis_effects(t, addr, labels);
    lemma_xor_effects(t, addr, labels);
    lemma_and_effects(t, addr, labels);
    lemma_compare_bit_effects(t, addr, labels);
}

proof fn lemma_compare_bit_effects(t: TwoOperand, addr: u64, labels: Seq<u64>)
    ensures
        spec_lift(Instruction::Cmp(t), addr, labels) == seq![spec_lift(Instruction::Cmp(t), addr, labels)[0]]
            + source_increment(t.spec_source()),
        spec_lift(Instruction::Cmp(t), addr, labels)[0] is Eval,
        statement_flags(spec_lift(Instruction::Cmp(t), addr, labels)[0]) == FlagWrite::All,
        spec_lift(Instruction::Bit(t), addr, labels) == seq![spec_lift(Instruction::Bit(t), addr, labels)[0], v_cleared(), carry_is_not_zero()]
            + source_increment(t.spec_source()),
        spec_lift(Instruction::Bit(t), addr, labels)[0] is Eval,
        statement_flags(spec_lift(Instruction::Bit(t), addr, labels)[0]) == FlagWrite::Nz,
{
    assert(spec_lift(Instruction::Cmp(t), addr, labels) =~= seq![spec_lift(Instruction::Cmp(t), addr, labels)[0]]
        + source_increment(t.spec_source()));
    assert(spec_lift(Instruction::Bit(t), addr, labels) =~= seq![spec_lift(Instruction::Bit(t), addr, labels)[0], v_cleared(), carry_is_not_zero()]
        + source_increment(t.spec_source()));
}

proof fn lemma_mov_effects(t: TwoOperand, addr: u64, labels: Seq<u64>)
    requires
        is_writable(t.spec_destination()),
    ensures
        spec_lift(Instruction::Mov(t), addr, labels) == seq![spec_lift(Instruction::Mov(t), addr, labels)[0]]
            + Seq::<Stmt>::empty() + source_increment(t.spec_source()),
        statement_flags(spec_lift(Instruction::Mov(t), addr, labels)[0]) == FlagWrite::NoFlags,
{
    let value = two_operand_src(t);
    assert(spec_lift(Instruction::Mov(t), addr, labels) == spec_two_operand(t, value, Seq::<Stmt>::empty()));
    assert(carry_from_not_zero() == carry_is_not_zero() && set_flag(Flag::V, 0) == v_cleared());
    assert(spec_two_operand(t, value, Seq::<Stmt>::empty()) =~= seq![spec_two_operand(t, value, Seq::<Stmt>::empty())[0]]
        + Seq::<Stmt>::empty() + source_increment(t.spec_source()));
}

proof fn lemma_add_effects(t: TwoOperand, addr: u64, labels: Seq<u64>)
    requires
        is_writable(t.spec_destination()),
    ensures
        spec_lift(Instruction::Add(t), addr, labels) == seq![spec_lift(Instruction::Add(t), addr, labels)[0]]
            + Seq::<Stmt>::empty() + source_increment(t.spec_source()),
        statement_flags(spec_lift(Instruction::Add(t), addr, labels)[0]) == FlagWrite::All,
{
    let value = binary(BinaryOp::Add, spec_width_to_size(t.spec_operand_width()), two_operand_src(t), two_operand_dst(t), FlagWrite::All);
    assert(spec_lift(Instruction::Add(t), addr, labels) == spec_two_operand(t, value, Seq::<Stmt>::empty()));
    assert(carry_from_not_zero() == carry_is_not_zero() && set_flag(Flag::V, 0) == v_cleared());
    assert(spec_two_operand(t, value, Seq::<Stmt>::empty()) =~= seq![spec_two_operand(t, value, Seq::<Stmt>::empty())[0]]
        + Seq::<Stmt>::empty() + source_increment(t.spec_source()));
}

proof fn lemma_dadd_effects(t: TwoOperand, addr: u64, labels: Seq<u64>)
    requires
        is_writable(t.spec_destination()),
    ensures
        spec_lift(Instruction::Dadd(t), addr, labels) == seq![spec_lift(Instruction::Dadd(t), addr, labels)[0]]
            + Seq::<Stmt>::empty() + source_increment(t.spec_source()),
        statement_flags(spec_lift(Instruction::Dadd(t), addr, labels)[0]) == FlagWrite::All,
{
    let value = binary(BinaryOp::Add, spec_width_to_size(t.spec_operand_width()), two_operand_src(t), two_operand_dst(t), FlagWrite::All);
    assert(spec_lift(Instruction::Dadd(t), addr, labels) == spec_two_operand(t, value, Seq::<Stmt>::empty()));
    assert(carry_from_not_zero() == carry_is_not_zero() && set_flag(Flag::V, 0) == v_cleared());
    assert(spec_two_operand(t, value, Seq::<Stmt>::empty()) =~= seq![spec_two_operand(t, value, Seq::<Stmt>::empty())[0]]
        + Seq::<Stmt>::empty() + source_increment(t.spec_source()));
}

proof fn lemma_addc_effects(t: TwoOperand, addr: u64, labels: Seq<u64>)
    requires
        is_writable(t.spec_destination()),
    ensures
        spec_lift(Instruction::Addc(t), addr, labels) == seq![spec_lift(Instruction::Addc(t), addr, labels)[0]]
            + Seq::<Stmt>::empty() + source_increment(t.spec_source()),
        statement_flags(spec_lift(Instruction::Addc(t), addr, labels)[0]) == FlagWrite::All,
{
    let value = Expr::Carry(CarryOp::AddWithCarry, spec_width_to_size(t.spec_operand_width()), Box::new(two_operand_src(t)), Box::new(two_operand_dst(t)), Box::new(Expr::Flag(Flag::C)), FlagWrite::All);
    assert(spec_lift(Instruction::Addc(t), addr, labels) == spec_two_operand(t, value, Seq::<Stmt>::empty()));
    assert(carry_from_not_zero() == carry_is_not_zero() && set_flag(Flag::V, 0) == v_cleared());
    assert(spec_two_operand(t, value, Seq::<Stmt>::empty()) =~= seq![spec_two_operand(t, value, Seq::<Stmt>::empty())[0]]
        + Seq::<Stmt>::empty() + source_increment(t.spec_source()));
}

proof fn lemma_sub_effects(t: TwoOperand, addr: u64, labels: Seq<u64>)
    requires
        is_writable(t.spec_destination()),
    ensures
        spec_lift(Instruction::Sub(t), addr, labels) == seq![spec_lift(Instruction::Sub(t), addr, labels)[0]]
            + Seq::<Stmt>::empty() + source_increment(t.spec_source()),
        statement_flags(spec_lift(Instruction::Sub(t), addr, labels)[0]) == FlagWrite::All,
{
    let value = binary(BinaryOp::Sub, spec_width_to_size(t.spec_operand_width()), two_operand_src(t), two_operand_dst(t), FlagWrite::All);
    assert(spec_lift(Instruction::Sub(t), addr, labels) == spec_two_operand(t, value, Seq::<Stmt>::empty()));
    assert(carry_from_not_zero() == carry_is_not_zero() && set_flag(Flag::V, 0) == v_cleared());
    assert(spec_two_operand(t, value, Seq::<Stmt>::empty()) =~= seq![spec_two_operand(t, value, Seq::<Stmt>::empty())[0]]
        + Seq::<Stmt>::empty() + source_increment(t.spec_source()));
}

proof fn lemma_subc_effects(t: TwoOperand, addr: u64, labels: Seq<u64>)
    requires
        is_writable(t.spec_destination()),
    ensures
        spec_lift(Instruction::Subc(t), addr, labels) == seq![spec_lift(Instruction::Subc(t), addr, labels)[0]]
            + Seq::<Stmt>::empty() + source_increment(t.spec_source()),
        statement_flags(spec_lift(Instruction::Subc(t), addr, labels)[0]) == FlagWrite::All,
{
    let value = Expr::Carry(CarryOp::SubWithBorrow, spec_width_to_size(t.spec_operand_width()), Box::new(two_operand_dst(t)), Box::new(two_operand_src(t)), Box::new(Expr::Flag(Flag::C)), FlagWrite::All);
    assert(spec_lift(Instruction::Subc(t), addr, labels) == spec_two_operand(t, value, Seq::<Stmt>::empty()));
    assert(carry_from_not_zero() == carry_is_not_zero() && set_flag(Flag::V, 0) == v_cleared());
    assert(spec_two_operand(t, value, Seq::<Stmt>::empty()) =~= seq![spec_two_operand(t, value, Seq::<Stmt>::empty())[0]]
        + Seq::<Stmt>::empty() + source_increment(t.spec_source()));
}

proof fn lemma_bic_effects(t: TwoOperand, addr: u64, labels: Seq<u64>)
    requires
        is_writable(t.spec_destination()),
    ensures
        spec_lift(Instruction::Bic(t), addr, labels) == seq![spec_lift(Instruction::Bic(t), addr, labels)[0]]
            + Seq::<Stmt>::empty() + source_increment(t.spec_source()),
        statement_flags(spec_lift(Instruction::Bic(t), addr, labels)[0]) == FlagWrite::NoFlags,
{
    let value = binary(BinaryOp::And, spec_width_to_size(t.spec_operand_width()), Expr::Unary(UnaryOp::Not, spec_width_to_size(t.spec_operand_width()), Box::new(two_operand_src(t)), FlagWrite::NoFlags), two_operand_dst(t), FlagWrite::NoFlags);
    assert(spec_lift(Instruction::Bic(t), addr, labels) == spec_two_operand(t, value, Seq::<Stmt>::empty()));
    assert(carry_from_not_zero() == carry_is_not_zero() && set_flag(Flag::V, 0) == v_cleared());
    assert(spec_two_operand(t, value, Seq::<Stmt>::empty()) =~= seq![spec_two_operand(t, value, Seq::<Stmt>::empty())[0]]
        + Seq::<Stmt>::empty() + source_increment(t.spec_source()));
}

proof fn lemma_bis_effects(t: TwoOperand, addr: u64, labels: Seq<u64>)
    requires
        is_writable(t.spec_destination()),
    ensures
        spec_lift(Instruction::Bis(t), addr, labels) == seq![spec_lift(Instruction::Bis(t), addr, labels)[0]]
            + Seq::<Stmt>::empty() + source_increment(t.spec_source()),
        statement_flags(spec_lift(Instruction::Bis(t), addr, labels)[0]) == FlagWrite::NoFlags,
{
    let value = binary(BinaryOp::Or, spec_width_to_size(t.spec_operand_width()), two_operand_src(t), two_operand_dst(t), FlagWrite::NoFlags);
    assert(spec_lift(Instruction::Bis(t), addr, labels) == spec_two_operand(t, value, Seq::<Stmt>::empty()));
    assert(carry_from_not_zero() == carry_is_not_zero() && set_flag(Flag::V, 0) == v_cleared());
    assert(spec_two_operand(t, value, Seq::<Stmt>::empty()) =~= seq![spec_two_operand(t, value, Seq::<Stmt>::empty())[0]]
        + Seq::<Stmt>::empty() + source_increment(t.spec_source()));
}

proof fn lemma_xor_effects(t: TwoOperand, addr: u64, labels: Seq<u64>)
    requires
        is_writable(t.spec_destination()),
    ensures
        spec_lift(Instruction::Xor(t), addr, labels) == seq![spec_lift(Instruction::Xor(t), addr, labels)[0]]
            + seq![carry_is_not_zero()] + source_increment(t.spec_source()),
        statement_flags(spec_lift(Instruction::Xor(t), addr, labels)[0]) == FlagWrite::Nvz,
{
    let value = binary(BinaryOp::Xor, spec_width_to_size(t.spec_operand_width()), two_operand_src(t), two_operand_dst(t), FlagWrite::Nvz);
    assert(spec_lift(Instruction::Xor(t), addr, labels) == spec_two_operand(t, value, seq![carry_from_not_zero()]));
    assert(carry_from_not_zero() == carry_is_not_zero() && set_flag(Flag::V, 0) == v_cleared());
    assert(spec_two_operand(t, value, seq![carry_from_not_zero()]) =~= seq![spec_two_operand(t, value, seq![carry_from_not_zero()])[0]]
        + seq![carry_is_not_zero()] + source_increment(t.spec_source()));
}

proof fn lemma_and_effects(t: TwoOperand, addr: u64, labels: Seq<u64>)
    requires
        is_writable(t.spec_destination()),
    ensures
        spec_lift(Instruction::And(t), addr, labels) == seq![spec_lift(Instruction::And(t), addr, labels)[0]]
            + seq![v_cleared(), carry_is_not_zero()] + source_increment(t.spec_source()),
        statement_flags(spec_lift(Instruction::And(t), addr, labels)[0]) == FlagWrite::Nz,
{
    let value = binary(BinaryOp::And, spec_width_to_size(t.spec_operand_width()), two_operand_src(t), two_operand_dst(t), FlagWrite::Nz);
    assert(spec_lift(Instruction::And(t), addr, labels) == spec_two_operand(t, value, seq![set_flag(Flag::V, 0), carry_from_not_zero()]));
    assert(carry_from_not_zero() == carry_is_not_zero() && set_flag(Flag::V, 0) == v_cleared());
    assert(spec_two_operand(t, value, seq![set_flag(Flag::V, 0), carry_from_not_zero()]) =~= seq![spec_two_operand(t, value, seq![set_flag(Flag::V, 0), carry_from_not_zero()])[0]]
        + seq![v_cleared(), carry_is_not_zero()] + source_increment(t.spec_source()));
}

/// What lifted emulated instructions do besides the value they write: the write is their
/// one statement, with all flags for INC, INCD, DEC, DECD, ADC, DADC, SBC, RLA and RLC; INV
/// writes N, V and Z and then sets `C = !Z`. TST evaluates its destination with N and Z,
/// then clears V and sets C. CLRC, CLRN and CLRZ clear, SETC, SETN and SETZ set their flag;
/// NOP is a no-op, DINT and EINT lift to nothing, RET returns to a word popped from the
/// stack, and POP to a register sets the register from the stack.
pub proof fn lemma_emulated_effects(i: Emulated, addr: u64, labels: Seq<u64>)
    requires
        i.spec_destination() matches Some(d) && is_writable(d),
    ensures
        spec_lift(Instruction::Inc(i), addr, labels) == seq![spec_lift(Instruction::Inc(i), addr, labels)[0]],
        statement_flags(spec_lift(Instruction::Inc(i), addr, labels)[0]) == FlagWrite::All,
        spec_lift(Instruction::Incd(i), addr, labels) == seq![spec_lift(Instruction::Incd(i), addr, labels)[0]],
        statement_flags(spec_lift(Instruction::Incd(i), addr, labels)[0]) == FlagWrite::All,
        spec_lift(Instruction::Dec(i), addr, labels) == seq![spec_lift(Instruction::Dec(i), addr, labels)[0]],
        statement_flags(spec_lift(Instruction::Dec(i), addr, labels)[0]) == FlagWrite::All,
        spec_lift(Instruction::Decd(i), addr, labels) == seq![spec_lift(Instruction::Decd(i), addr, labels)[0]],
        statement_flags(spec_lift(Instruction::Decd(i), addr, labels)[0]) == FlagWrite::All,
        spec_lift(Instruction::Adc(i), addr, labels) == seq![spec_lift(Instruction::Adc(i), addr, labels)[0]],
        statement_flags(spec_lift(Instruction::Adc(i), addr, labels)[0]) == FlagWrite::All,
        spec_lift(Instruction::Dadc(i), addr, labels) == seq![spec_lift(Instruction::Dadc(i), addr, labels)[0]],
        statement_flags(spec_lift(Instruction::Dadc(i), addr, labels)[0]) == FlagWrite::All,
        spec_lift(Instruction::Sbc(i), addr, labels) == seq![spec_lift(Instruction::Sbc(i), addr, labels)[0]],
        statement_flags(spec_lift(Instruction::Sbc(i), addr, labels)[0]) == FlagWrite::All,
        spec_lift(Instruction::Rla(i), addr, labels) == seq![spec_lift(Instruction::Rla(i), addr, labels)[0]],
        statement_flags(spec_lift(Instruction::Rla(i), addr, labels)[0]) == FlagWrite::All,
        spec_lift(Instruction::Rlc(i), addr, labels) == seq![spec_lift(Instruction::Rlc(i), addr, labels)[0]],
        statement_flags(spec_lift(Instruction::Rlc(i), addr, labels)[0]) == FlagWrite::All,
        spec_lift(Instruction::Inv(i), addr, labels) == seq![spec_lift(Instruction::Inv(i), addr, labels)[0], carry_is_not_zero()],
        statement_flags(spec_lift(Instruction::Inv(i), addr, labels)[0]) == FlagWrite::Nvz,
        spec_lift(Instruction::Tst(i), addr, labels).len() == 3,
        spec_lift(Instruction::Tst(i), addr, labels)[0] is Eval,
        statement_flags(spec_lift(Instruction::Tst(i), addr, labels)[0]) == FlagWrite::Nz,
        spec_lift(Instruction::Tst(i), addr, labels)[1] == v_cleared(),
        spec_lift(Instruction::Tst(i), addr, labels)[2] == Stmt::SetFlag(Flag::C, Expr::Const(0, 1)),
        spec_lift(Instruction::Clrc(i), addr, labels) == seq![Stmt::SetFlag(Flag::C, Expr::Const(0, 0))],
        spec_lift(Instruction::Clrn(i), addr, labels) == seq![Stmt::SetFlag(Flag::N, Expr::Const(0, 0))],
        spec_lift(Instruction::Clrz(i), addr, labels) == seq![Stmt::SetFlag(Flag::Z, Expr::Const(0, 0))],
        spec_lift(Instruction::Setc(i), addr, labels) == seq![Stmt::SetFlag(Flag::C, Expr::Const(0, 1))],
        spec_lift(Instruction::Setn(i), addr, labels) == seq![Stmt::SetFlag(Flag::N, Expr::Const(0, 1))],
        spec_lift(Instruction::Setz(i), addr, labels) == seq![Stmt::SetFlag(Flag::Z, Expr::Const(0, 1))],
        spec_lift(Instruction::Nop(i), addr, labels) == seq![Stmt::Nop],
        spec_lift(Instruction::Dint(i), addr, labels) == Seq::<Stmt>::empty(),
        spec_lift(Instruction::Eint(i), addr, labels) == Seq::<Stmt>::empty(),
        spec_lift(Instruction::Ret(i), addr, labels) == seq![Stmt::Ret(Expr::Pop(2))],
        i.spec_destination() matches Some(Operand::RegisterDirect(r)) ==> spec_lift(
            Instruction::Pop(i),
            addr,
            labels,
        ) == seq![Stmt::SetReg(size_or_word(i.spec_operand_width()), r, Expr::Pop(2), FlagWrite::NoFlags)],
{
    lemma_inc_effects(i, addr, labels);
    lemma_incd_effects(i, addr, labels);
    lemma_dec_effects(i, addr, labels);
    lemma_decd_effects(i, addr, labels);
    lemma_adc_effects(i, addr, labels);
    lemma_dadc_effects(i, addr, labels);
    lemma_sbc_effects(i, addr, labels);
    lemma_rla_effects(i, addr, labels);
    lemma_rlc_effects(i, addr, labels);
    lemma_inv_effects(i, addr, labels);
    lemma_other_emulated_effects(i, addr, labels);
}

proof fn lemma_other_emulated_effects(i: Emulated, addr: u64, labels: Seq<u64>)
    ensures
        spec_lift(Instruction::Tst(i), addr, labels).len() == 3,
        spec_lift(Instruction::Tst(i), addr, labels)[0] is Eval,
        statement_flags(spec_lift(Instruction::Tst(i), addr, labels)[0]) == FlagWrite::Nz,
        spec_lift(Instruction::Tst(i), addr, labels)[1] == v_cleared(),
        spec_lift(Instruction::Tst(i), addr, labels)[2] == Stmt::SetFlag(Flag::C, Expr::Const(0, 1)),
        spec_lift(Instruction::Clrc(i), addr, labels) == seq![Stmt::SetFlag(Flag::C, Expr::Const(0, 0))],
        spec_lift(Instruction::Clrn(i), addr, labels) == seq![Stmt::SetFlag(Flag::N, Expr::Const(0, 0))],
        spec_lift(Instruction::Clrz(i), addr, labels) == seq![Stmt::SetFlag(Flag::Z, Expr::Const(0, 0))],
        spec_lift(Instruction::Setc(i), addr, labels) == seq![Stmt::SetFlag(Flag::C, Expr::Const(0, 1))],
        spec_lift(Instruction::Setn(i), addr, labels) == seq![Stmt::SetFlag(Flag::N, Expr::Const(0, 1))],
        spec_lift(Instruction::Setz(i), addr, labels) == seq![Stmt::SetFlag(Flag::Z, Expr::Const(0, 1))],
        spec_lift(Instruction::Nop(i), addr, labels) == seq![Stmt::Nop],
        spec_lift(Instruction::Dint(i), addr, labels) == Seq::<Stmt>::empty(),
        spec_lift(Instruction::Eint(i), addr, labels) == Seq::<Stmt>::empty(),
        spec_lift(Instruction::Ret(i), addr, labels) == seq![Stmt::Ret(Expr::Pop(2))],
        i.spec_destination() matches Some(Operand::RegisterDirect(r)) ==> spec_lift(
            Instruction::Pop(i),
            addr,
            labels,
        ) == seq![Stmt::SetReg(size_or_word(i.spec_operand_width()), r, Expr::Pop(2), FlagWrite::NoFlags)],
{
}

proof fn lemma_inc_effects(i: Emulated, addr: u64, labels: Seq<u64>)
    requires
        i.spec_destination() matches Some(d) && is_writable(d),
    ensures
        spec_lift(Instruction::Inc(i), addr, labels) == seq![spec_lift(Instruction::Inc(i), addr, labels)[0]],
        statement_flags(spec_lift(Instruction::Inc(i), addr, labels)[0]) == FlagWrite::All,
{
    let value = binary(BinaryOp::Add, size_or_word(i.spec_operand_width()), emulated_dst(i), Expr::Const(size_or_word(i.spec_operand_width()), 1), FlagWrite::All);
    assert(spec_lift(Instruction::Inc(i), addr, labels) == spec_emulated(i, value));
    assert(carry_from_not_zero() == carry_is_not_zero());
    assert(spec_emulated(i, value) =~= seq![spec_emulated(i, value)[0]]);
}

proof fn lemma_incd_effects(i: Emulated, addr: u64, labels: Seq<u64>)
    requires
        i.spec_destination() matches Some(d) && is_writable(d),
    ensures
        spec_lift(Instruction::Incd(i), addr, labels) == seq![spec_lift(Instruction::Incd(i), addr, labels)[0]],
        statement_flags(spec_lift(Instruction::Incd(i), addr, labels)[0]) == FlagWrite::All,
{
    let value = binary(BinaryOp::Add, size_or_word(i.spec_operand_width()), emulated_dst(i), Expr::Const(size_or_word(i.spec_operand_width()), 2), FlagWrite::All);
    assert(spec_lift(Instruction::Incd(i), addr, labels) == spec_emulated(i, value));
    assert(carry_from_not_zero() == carry_is_not_zero());
    assert(spec_emulated(i, value) =~= seq![spec_emulated(i, value)[0]]);
}

proof fn lemma_dec_effects(i: Emulated, addr: u64, labels: Seq<u64>)
    requires
        i.spec_destination() matches Some(d) && is_writable(d),
    ensures
        spec_lift(Instruction::Dec(i), addr, labels) == seq![spec_lift(Instruction::Dec(i), addr, labels)[0]],
        statement_flags(spec_lift(Instruction::Dec(i), addr, labels)[0]) == FlagWrite::All,
{
    let value = binary(BinaryOp::Sub, size_or_word(i.spec_operand_width()), emulated_dst(i), Expr::Const(size_or_word(i.spec_operand_width()), 1), FlagWrite::All);
    assert(spec_lift(Instruction::Dec(i), addr, labels) == spec_emulated(i, value));
    assert(carry_from_not_zero() == carry_is_not_zero());
    assert(spec_emulated(i, value) =~= seq![spec_emulated(i, value)[0]]);
}

proof fn lemma_decd_effects(i: Emulated, addr: u64, labels: Seq<u64>)
    requires
        i.spec_destination() matches Some(d) && is_writable(d),
    ensures
        spec_lift(Instruction::Decd(i), addr, labels) == seq![spec_lift(Instruction::Decd(i), addr, labels)[0]],
        statement_flags(spec_lift(Instruction::Decd(i), addr, labels)[0]) == FlagWrite::All,
{
    let value = binary(BinaryOp::Sub, size_or_word(i.spec_operand_width()), emulated_dst(i), Expr::Const(size_or_word(i.spec_operand_width()), 2), FlagWrite::All);
    assert(spec_lift(Instruction::Decd(i), addr, labels) == spec_emulated(i, value));
    assert(carry_from_not_zero() == carry_is_not_zero());
    assert(spec_emulated(i, value) =~= seq![spec_emulated(i, value)[0]]);
}

proof fn lemma_adc_effects(i: Emulated, addr: u64, labels: Seq<u64>)
    requires
        i.spec_destination() matches Some(d) && is_writable(d),
    ensures
        spec_lift(Instruction::Adc(i), addr, labels) == seq![spec_lift(Instruction::Adc(i), addr, labels)[0]],
        statement_flags(spec_lift(Instruction::Adc(i), addr, labels)[0]) == FlagWrite::All,
{
    let value = Expr::Carry(CarryOp::AddWithCarry, size_or_word(i.spec_operand_width()), Box::new(Expr::Const(size_or_word(i.spec_operand_width()), 0)), Box::new(emulated_dst(i)), Box::new(Expr::Flag(Flag::C)), FlagWrite::All);
    assert(spec_lift(Instruction::Adc(i), addr, labels) == spec_emulated(i, value));
    assert(carry_from_not_zero() == carry_is_not_zero());
    assert(spec_emulated(i, value) =~= seq![spec_emulated(i, value)[0]]);
}

proof fn lemma_dadc_effects(i: Emulated, addr: u64, labels: Seq<u64>)
    requires
        i.spec_destination() matches Some(d) && is_writable(d),
    ensures
        spec_lift(Instruction::Dadc(i), addr, labels) == seq![spec_lift(Instruction::Dadc(i), addr, labels)[0]],
        statement_flags(spec_lift(Instruction::Dadc(i), addr, labels)[0]) == FlagWrite::All,
{
    let value = Expr::Carry(CarryOp::AddWithCarry, size_or_word(i.spec_operand_width()), Box::new(Expr::Const(size_or_word(i.spec_operand_width()), 0)), Box::new(emulated_dst(i)), Box::new(Expr::Flag(Flag::C)), FlagWrite::All);
    assert(spec_lift(Instruction::Dadc(i), addr, labels) == spec_emulated(i, value));
    assert(carry_from_not_zero() == carry_is_not_zero());
    assert(spec_emulated(i, value) =~= seq![spec_emulated(i, value)[0]]);
}

proof fn lemma_sbc_effects(i: Emulated, addr: u64, labels: Seq<u64>)
    requires
        i.spec_destination() matches Some(d) && is_writable(d),
    ensures
        spec_lift(Instruction::Sbc(i), addr, labels) == seq![spec_lift(Instruction::Sbc(i), addr, labels)[0]],
        statement_flags(spec_lift(Instruction::Sbc(i), addr, labels)[0]) == FlagWrite::All,
{
    let value = Expr::Carry(CarryOp::SubWithBorrow, size_or_word(i.spec_operand_width()), Box::new(emulated_dst(i)), Box::new(Expr::Const(size_or_word(i.spec_operand_width()), 0)), Box::new(Expr::Flag(Flag::C)), FlagWrite::All);
    assert(spec_lift(Instruction::Sbc(i), addr, labels) == spec_emulated(i, value));
    assert(carry_from_not_zero() == carry_is_not_zero());
    assert(spec_emulated(i, value) =~= seq![spec_emulated(i, value)[0]]);
}

proof fn lemma_rla_effects(i: Emulated, addr: u64, labels: Seq<u64>)
    requires
        i.spec_destination() matches Some(d) && is_writable(d),
    ensures
        spec_lift(Instruction::Rla(i), addr, labels) == seq![spec_lift(Instruction::Rla(i), addr, labels)[0]],
        statement_flags(spec_lift(Instruction::Rla(i), addr, labels)[0]) == FlagWrite::All,
{
    let value = binary(BinaryOp::RotateLeft, size_or_word(i.spec_operand_width()), emulated_dst(i), Expr::Const(size_or_word(i.spec_operand_width()), 1), FlagWrite::All);
    assert(spec_lift(Instruction::Rla(i), addr, labels) == spec_emulated(i, value));
    assert(carry_from_not_zero() == carry_is_not_zero());
    assert(spec_emulated(i, value) =~= seq![spec_emulated(i, value)[0]]);
}

proof fn lemma_rlc_effects(i: Emulated, addr: u64, labels: Seq<u64>)
    requires
        i.spec_destination() matches Some(d) && is_writable(d),
    ensures
        spec_lift(Instruction::Rlc(i), addr, labels) == seq![spec_lift(Instruction::Rlc(i), addr, labels)[0]],
        statement_flags(spec_lift(Instruction::Rlc(i), addr, labels)[0]) == FlagWrite::All,
{
    let value = binary(BinaryOp::RotateLeftCarry, size_or_word(i.spec_operand_width()), emulated_dst(i), Expr::Const(size_or_word(i.spec_operand_width()), 1), FlagWrite::All);
    assert(spec_lift(Instruction::Rlc(i), addr, labels) == spec_emulated(i, value));
    assert(carry_from_not_zero() == carry_is_not_zero());
    assert(spec_emulated(i, value) =~= seq![spec_emulated(i, value)[0]]);
}

proof fn lemma_inv_effects(i: Emulated, addr: u64, labels: Seq<u64>)
    requires
        i.spec_destination() matches Some(d) && is_writable(d),
    ensures
        spec_lift(Instruction::Inv(i), addr, labels) == seq![spec_lift(Instruction::Inv(i), addr, labels)[0], carry_is_not_zero()],
        statement_flags(spec_lift(Instruction::Inv(i), addr, labels)[0]) == FlagWrite::Nvz,
{
    let value = Expr::Unary(UnaryOp::Not, size_or_word(i.spec_operand_width()), Box::new(emulated_dst(i)), FlagWrite::Nvz);
    assert(spec_lift(Instruction::Inv(i), addr, labels) == spec_emulated(i, value).push(carry_from_not_zero()));
    assert(carry_from_not_zero() == carry_is_not_zero());
    assert(spec_emulated(i, value).push(carry_from_not_zero()) =~= seq![spec_emulated(i, value).push(carry_from_not_zero())[0], carry_is_not_zero()]);
}

/// What lifted MSP430X instructions do besides their values: RRUM and RRAM write C, N and
/// Z, RLAM and RRCM all flags; MOVA moves without touching the flags, while ADDA, SUBA and
/// CMPA write all flags, each in a single statement.
pub proof fn lemma_msp430x_effects(i: AddressInstruction, r: RotateMultiple, addr: u64, labels: Seq<u64>)
    requires
        is_address_destination(i.spec_destination()),
    ensures
        statement_flags(spec_lift(Instruction::Rrum(r), addr, labels)[0]) == FlagWrite::Cnz,
        statement_flags(spec_lift(Instruction::Rram(r), addr, labels)[0]) == FlagWrite::Cnz,
        statement_flags(spec_lift(Instruction::Rlam(r), addr, labels)[0]) == FlagWrite::All,
        statement_flags(spec_lift(Instruction::Rrcm(r), addr, labels)[0]) == FlagWrite::All,
        spec_lift(Instruction::Mova(i), addr, labels).len() == 1,
        statement_flags(spec_lift(Instruction::Mova(i), addr, labels)[0]) == FlagWrite::NoFlags,
        spec_lift(Instruction::Adda(i), addr, labels).len() == 1,
        statement_flags(spec_lift(Instruction::Adda(i), addr, labels)[0]) == FlagWrite::All,
        spec_lift(Instruction::Suba(i), addr, labels).len() == 1,
        statement_flags(spec_lift(Instruction::Suba(i), addr, labels)[0]) == FlagWrite::All,
        spec_lift(Instruction::Cmpa(i), addr, labels).len() == 1,
        spec_lift(Instruction::Cmpa(i), addr, labels)[0] is Eval,
        statement_flags(spec_lift(Instruction::Cmpa(i), addr, labels)[0]) == FlagWrite::All,
{
    lemma_rotation_flags(r, addr, labels);
    lemma_mova_effects(i, addr, labels);
    lemma_adda_suba_effects(i, addr, labels);
    lemma_address_compare_effects(i, addr, labels);
}

proof fn lemma_rotation_flags(r: RotateMultiple, addr: u64, labels: Seq<u64>)
    ensures
        statement_flags(spec_lift(Instruction::Rrum(r), addr, labels)[0]) == FlagWrite::Cnz,
        statement_flags(spec_lift(Instruction::Rram(r), addr, labels)[0]) == FlagWrite::Cnz,
        statement_flags(spec_lift(Instruction::Rlam(r), addr, labels)[0]) == FlagWrite::All,
        statement_flags(spec_lift(Instruction::Rrcm(r), addr, labels)[0]) == FlagWrite::All,
{
    lemma_rrum_flags(r, addr, labels);
    lemma_rram_flags(r, addr, labels);
    lemma_rlam_flags(r, addr, labels);
    lemma_rrcm_flags(r, addr, labels);
}

proof fn lemma_rrum_flags(r: RotateMultiple, addr: u64, labels: Seq<u64>)
    ensures
        statement_flags(spec_lift(Instruction::Rrum(r), addr, labels)[0]) == FlagWrite::Cnz,
{
}

proof fn lemma_rram_flags(r: RotateMultiple, addr: u64, labels: Seq<u64>)
    ensures
        statement_flags(spec_lift(Instruction::Rram(r), addr, labels)[0]) == FlagWrite::Cnz,
{
}

proof fn lemma_rlam_flags(r: RotateMultiple, addr: u64, labels: Seq<u64>)
    ensures
        statement_flags(spec_lift(Instruction::Rlam(r), addr, labels)[0]) == FlagWrite::All,
{
}

proof fn lemma_rrcm_flags(r: RotateMultiple, addr: u64, labels: Seq<u64>)
    ensures
        statement_flags(spec_lift(Instruction::Rrcm(r), addr, labels)[0]) == FlagWrite::All,
{
}


proof fn lemma_mova_effects(i: AddressInstruction, addr: u64, labels: Seq<u64>)
    requires
        is_address_destination(i.spec_destination()),
    ensures
        spec_lift(Instruction::Mova(i), addr, labels).len() == 1,
        statement_flags(spec_lift(Instruction::Mova(i), addr, labels)[0]) == FlagWrite::NoFlags,
{
}

proof fn lemma_adda_suba_effects(i: AddressInstruction, addr: u64, labels: Seq<u64>)
    requires
        is_address_destination(i.spec_destination()),
    ensures
        spec_lift(Instruction::Adda(i), addr, labels).len() == 1,
        statement_flags(spec_lift(Instruction::Adda(i), addr, labels)[0]) == FlagWrite::All,
        spec_lift(Instruction::Suba(i), addr, labels).len() == 1,
        statement_flags(spec_lift(Instruction::Suba(i), addr, labels)[0]) == FlagWrite::All,
{
}

proof fn lemma_address_compare_effects(i: AddressInstruction, addr: u64, labels: Seq<u64>)
    requires
        is_address_destination(i.spec_destination()),
    ensures
        spec_lift(Instruction::Cmpa(i), addr, labels).len() == 1,
        spec_lift(Instruction::Cmpa(i), addr, labels)[0] is Eval,
        statement_flags(spec_lift(Instruction::Cmpa(i), addr, labels)[0]) == FlagWrite::All,
{
}


/// Lifted single-operand instructions that rewrite their operand compute, from the operand's
/// value `x` at their width (a word when they have none) and the carry `c`: RRC `x` shifted
/// right by one with `c` coming in at the top (RRC of r0 is left unimplemented); RRA `x`
/// rotated right by one bit; SWPB `x` with its two bytes swapped; SXT the low byte of the
/// operand sign-extended to a word; byte results are sign-extended to a word as they are
/// written back.
pub proof fn lemma_single_operand_values(
    i: SingleOperand,
    addr: u64,
    labels: Seq<u64>,
    regs: spec_fn(u8) -> int,
    mem: spec_fn(int) -> int,
    flags: spec_fn(Flag) -> bool,
)
    requires
        is_writable(i.spec_source()),
    ensures
        ({
            let w = i.spec_operand_width();
            let size = size_or_word(w);
            let x = operand_value(i.spec_source(), size, regs, mem);
            let m = modulus(size);
            &&& i.spec_source() != Operand::RegisterDirect(0) ==> written_to(
                spec_lift(Instruction::Rrc(i), addr, labels)[0],
                i.spec_source(),
                regs,
                mem,
                flags,
            ) == Some(widened(w, x / 2 + bit(flags(Flag::C)) * (m / 2)))
            &&& written_to(spec_lift(Instruction::Rra(i), addr, labels)[0], i.spec_source(), regs, mem, flags)
                == Some(widened(w, x / 2 + (x % 2) * (m / 2)))
            &&& written_to(spec_lift(Instruction::Swpb(i), addr, labels)[0], i.spec_source(), regs, mem, flags)
                == Some(
                (operand_value(i.spec_source(), 2, regs, mem) % 256) * 256 + operand_value(
                    i.spec_source(),
                    2,
                    regs,
                    mem,
                ) / 256,
            )
            &&& written_to(spec_lift(Instruction::Sxt(i), addr, labels)[0], i.spec_source(), regs, mem, flags)
                == Some(wrap(2, signed(1, operand_value(i.spec_source(), 1, regs, mem))))
        }),
{
    if i.spec_source() != Operand::RegisterDirect(0) {
        lemma_rrc_value(i, addr, labels, regs, mem, flags);
    }
    lemma_rra_value(i, addr, labels, regs, mem, flags);
    lemma_swpb_value(i, addr, labels, regs, mem, flags);
    lemma_sxt_value(i, addr, labels, regs, mem, flags);
}

proof fn lemma_rrc_value(
    i: SingleOperand,
    addr: u64,
    labels: Seq<u64>,
    regs: spec_fn(u8) -> int,
    mem: spec_fn(int) -> int,
    flags: spec_fn(Flag) -> bool,
)
    requires
        is_writable(i.spec_source()),
        i.spec_source() != Operand::RegisterDirect(0),
    ensures
        written_to(spec_lift(Instruction::Rrc(i), addr, labels)[0], i.spec_source(), regs, mem, flags)
            == Some(widened(i.spec_operand_width(), operand_value(i.spec_source(), size_or_word(i.spec_operand_width()), regs, mem) / 2
            + bit(flags(Flag::C)) * (modulus(size_or_word(i.spec_operand_width())) / 2))),
{
    let size = size_or_word(i.spec_operand_width());
    let src = i.spec_source();
    let x = operand_value(src, size, regs, mem);
    let value = shift_one(i, BinaryOp::RotateRightCarry, FlagWrite::All);
    assert(spec_lift(Instruction::Rrc(i), addr, labels) == spec_write_back(src, value));
    lemma_source_value(src, size, regs, mem, flags);
    lemma_operand_value_range(src, size, regs, mem);
    vstd::arithmetic::div_mod::lemma_small_mod(1, modulus(size) as nat);
    assert(eval(value, regs, mem, flags) == Some(widened(i.spec_operand_width(), binary_value(BinaryOp::RotateRightCarry, size, x, 1, flags(Flag::C))))) by {
        reveal_with_fuel(eval, 3);
    }
    lemma_rotation_right_by_one(size, x, flags(Flag::C));
    lemma_write_target(src, regs, mem, flags);
}

proof fn lemma_rra_value(
    i: SingleOperand,
    addr: u64,
    labels: Seq<u64>,
    regs: spec_fn(u8) -> int,
    mem: spec_fn(int) -> int,
    flags: spec_fn(Flag) -> bool,
)
    requires
        is_writable(i.spec_source()),
    ensures
        written_to(spec_lift(Instruction::Rra(i), addr, labels)[0], i.spec_source(), regs, mem, flags)
            == Some(widened(i.spec_operand_width(), operand_value(i.spec_source(), size_or_word(i.spec_operand_width()), regs, mem) / 2
            + (operand_value(i.spec_source(), size_or_word(i.spec_operand_width()), regs, mem) % 2) * (modulus(size_or_word(i.spec_operand_width())) / 2))),
{
    let size = size_or_word(i.spec_operand_width());
    let src = i.spec_source();
    let x = operand_value(src, size, regs, mem);
    let value = shift_one(i, BinaryOp::RotateRight, FlagWrite::Cnz);
    assert(spec_lift(Instruction::Rra(i), addr, labels)[0] == spec_write_back(src, value)[0]);
    lemma_source_value(src, size, regs, mem, flags);
    lemma_operand_value_range(src, size, regs, mem);
    vstd::arithmetic::div_mod::lemma_small_mod(1, modulus(size) as nat);
    assert(eval(value, regs, mem, flags) == Some(widened(i.spec_operand_width(), binary_value(BinaryOp::RotateRight, size, x, 1, flags(Flag::C))))) by {
        reveal_with_fuel(eval, 3);
    }
    lemma_rotation_right_by_one(size, x, flags(Flag::C));
    lemma_write_target(src, regs, mem, flags);
}

proof fn lemma_swpb_value(
    i: SingleOperand,
    addr: u64,
    labels: Seq<u64>,
    regs: spec_fn(u8) -> int,
    mem: spec_fn(int) -> int,
    flags: spec_fn(Flag) -> bool,
)
    requires
        is_writable(i.spec_source()),
    ensures
        written_to(spec_lift(Instruction::Swpb(i), addr, labels)[0], i.spec_source(), regs, mem, flags)
            == Some((operand_value(i.spec_source(), 2, regs, mem) % 256) * 256 + operand_value(i.spec_source(), 2, regs, mem) / 256),
{
    let src = i.spec_source();
    let x = operand_value(src, 2, regs, mem);
    let value = binary(BinaryOp::RotateLeft, 2, spec_source_expr(src, 2), Expr::Const(2, 8), FlagWrite::NoFlags);
    assert(spec_lift(Instruction::Swpb(i), addr, labels) == spec_write_back(src, value));
    lemma_source_value(src, 2, regs, mem, flags);
    lemma_operand_value_range(src, 2, regs, mem);
    vstd::arithmetic::div_mod::lemma_small_mod(8, 0x10000);
    assert(eval(value, regs, mem, flags) == Some(binary_value(BinaryOp::RotateLeft, 2, x, 8, flags(Flag::C)))) by {
        reveal_with_fuel(eval, 2);
    }
    lemma_byte_swap(x);
    lemma_write_target(src, regs, mem, flags);
}

proof fn lemma_sxt_value(
    i: SingleOperand,
    addr: u64,
    labels: Seq<u64>,
    regs: spec_fn(u8) -> int,
    mem: spec_fn(int) -> int,
    flags: spec_fn(Flag) -> bool,
)
    requires
        is_writable(i.spec_source()),
    ensures
        written_to(spec_lift(Instruction::Sxt(i), addr, labels)[0], i.spec_source(), regs, mem, flags)
            == Some(wrap(2, signed(1, operand_value(i.spec_source(), 1, regs, mem)))),
{
    let src = i.spec_source();
    let value = Expr::Unary(UnaryOp::SignExtend, 2, Box::new(spec_source_expr(src, 1)), FlagWrite::Nz);
    assert(spec_lift(Instruction::Sxt(i), addr, labels)[0] == spec_write_back(src, value)[0]);
    lemma_source_value(src, 1, regs, mem, flags);
    reveal_with_fuel(eval, 2);
    lemma_write_target(src, regs, mem, flags);
}

/// Rotating a value `x` of a size right by one bit, alone or through the carry `c`.
proof fn lemma_rotation_right_by_one(size: usize, x: int, c: bool)
    requires
        size == 1 || size == 2 || size == 3,
        0 <= x < modulus(size),
    ensures
        binary_value(BinaryOp::RotateRight, size, x, 1, c) == x / 2 + (x % 2) * (modulus(size) / 2),
        binary_value(BinaryOp::RotateRightCarry, size, x, 1, c) == x / 2 + bit(c) * (modulus(size) / 2),
{
    lemma2_to64();
    let m = modulus(size);
    let bits = bit_count(size);
    assert(pow2(bits) == m && pow2((bits - 1) as nat) == m / 2 && pow2(1) == 2);
    vstd::arithmetic::div_mod::lemma_small_mod(1, bits);
    vstd::arithmetic::div_mod::lemma_small_mod(1, (bits + 1) as nat);
    let r = x / 2 + (x % 2) * (m / 2);
    assert(0 <= r < m) by (nonlinear_arith)
        requires
            0 <= x < m,
            m % 2 == 0,
            m > 0,
            r == x / 2 + (x % 2) * (m / 2),
    ;
    vstd::arithmetic::div_mod::lemma_small_mod(r as nat, m as nat);
    let y = x + bit(c) * m;
    assert(y / 2 == x / 2 + bit(c) * (m / 2) && y % 2 == x % 2) by {
        vstd::arithmetic::div_mod::lemma_fundamental_div_mod_converse(y, 2, x / 2 + bit(c) * (m / 2), x % 2);
    }
    let q = y / 2 + (y % 2) * m;
    assert(q % m == x / 2 + bit(c) * (m / 2)) by {
        vstd::arithmetic::div_mod::lemma_mod_multiples_vanish(y % 2, y / 2, m);
        vstd::arithmetic::div_mod::lemma_small_mod((x / 2 + bit(c) * (m / 2)) as nat, m as nat);
    }
}

/// Rotating a word left by eight bits swaps its bytes.
proof fn lemma_byte_swap(x: int)
    requires
        0 <= x < 0x10000,
    ensures
        binary_value(BinaryOp::RotateLeft, 2, x, 8, false) == (x % 256) * 256 + x / 256,
        forall|c: bool| binary_value(BinaryOp::RotateLeft, 2, x, 8, c) == (x % 256) * 256 + x / 256,
{
    lemma2_to64();
    let h = x / 256;
    let l = x % 256;
    assert(x == 256 * h + l && 0 <= l < 256 && 0 <= h < 256) by {
        vstd::arithmetic::div_mod::lemma_fundamental_div_mod(x, 256);
    }
    assert((x * 256) % 0x10000 == l * 256) by {
        assert(x * 256 == 0x10000 * h + l * 256);
        vstd::arithmetic::div_mod::lemma_mod_multiples_vanish(h, l * 256, 0x10000);
        vstd::arithmetic::div_mod::lemma_small_mod((l * 256) as nat, 0x10000);
    }
    vstd::arithmetic::div_mod::lemma_small_mod((l * 256 + h) as nat, 0x10000);
}

} // verus!
