//! Properties of lifting that hold for every input.
use crate::extension_word::{is_extension_prefix, le_word, ExtensionWord};
use crate::instruction::Instruction;
use crate::lift::{
    address_or_word, binary, byte_extend, can_lift, emulated_dst, two_operand_dst, two_operand_src, popm_registers, pushm_registers, register_below, spec_lift,
};
use crate::llil::{
    is_writable, operand_registers_valid, spec_address_write, spec_auto_increment, spec_source_expr,
    spec_write_back, Expr, FlagWrite, Label, Stmt,
};
use crate::operand::Operand;
use crate::msp430x_instructions::PushPopMultiple;
use crate::operand::{spec_parse_destination, spec_parse_source};
use crate::two_operand::TwoOperand;
use crate::{
    spec_decode, spec_decode_msp430x_words, spec_decode_two_operand, two_operand_mnemonic,
    two_operand_result,
};
use vstd::prelude::*;

verus! {

/// A source operand parsed for one of the sixteen registers names only valid registers.
pub proof fn lemma_parsed_source_valid(
    register: u8,
    addressing_mode: u16,
    data: Seq<u8>,
    extension: Option<&ExtensionWord>,
)
    requires
        register < 16,
    ensures
        spec_parse_source(register, addressing_mode, data, extension) matches Ok((op, _))
            ==> operand_registers_valid(op),
{
}

/// A destination operand parsed for one of the sixteen registers names only valid registers
/// and can be written.
pub proof fn lemma_parsed_destination_writable(
    register: u8,
    ad_bit: u16,
    data: Seq<u8>,
    extension: Option<&ExtensionWord>,
)
    requires
        register < 16,
    ensures
        spec_parse_destination(register, ad_bit, data, extension) matches Ok(op) ==> {
            &&& operand_registers_valid(op)
            &&& is_writable(op)
        },
{
}

/// A two-operand instruction whose operands name valid registers and whose destination can
/// be written can be lifted, in its plain or emulated form.
proof fn lemma_two_operand_result_liftable(opcode: int, inst: TwoOperand, addr: u64)
    requires
        4 <= opcode < 16,
        operand_registers_valid(inst.spec_source()),
        operand_registers_valid(inst.spec_destination()),
        is_writable(inst.spec_destination()),
    ensures
        can_lift(two_operand_result(opcode, inst), addr),
{
    broadcast use crate::emulate::Emulated::lemma_fields;

    assert(can_lift(two_operand_result(opcode, inst), addr));
}

/// Every instruction the decoder produces can be lifted at any address from which the
/// following address `addr + 2` does not overflow: its registers are all valid and its
/// destinations can all be written.
pub proof fn lemma_decoded_instructions_lift(data: Seq<u8>, addr: u64)
    requires
        addr + 2 <= u64::MAX,
    ensures
        spec_decode(data) matches Ok(inst) ==> can_lift(inst, addr),
{
    broadcast use crate::msp430x_instructions::group_msp430x_fields;
    broadcast use crate::single_operand::SingleOperand::lemma_fields;
    broadcast use crate::two_operand::TwoOperand::lemma_fields;

    if data.len() >= 2 {
        let w = le_word(data[0], data[1]);
        let rest = data.subrange(2, data.len() as int);
        if !is_extension_prefix(w) && spec_decode_msp430x_words(w, rest) is None && w as int / 8192
            >= 2 {
            let opcode = w as int / 4096;
            let sreg = ((w as int / 256) % 16) as u8;
            let ad = ((w as int / 128) % 2) as u16;
            let mode = ((w as int / 16) % 4) as u16;
            let dreg = (w as int % 16) as u8;
            lemma_parsed_source_valid(sreg, mode, rest, None);
            if let Ok((src, r)) = spec_parse_source(sreg, mode, rest, None) {
                lemma_parsed_destination_writable(dreg, ad, r, None);
                if let Ok(dst) = spec_parse_destination(dreg, ad, r, None) {
                    if 4 <= opcode {
                        let width = crate::operand::width_from_code(((w as int / 64) % 2) as u8);
                        lemma_two_operand_result_liftable(
                            opcode,
                            TwoOperand::spec_new(two_operand_mnemonic(opcode), src, width, dst),
                            addr,
                        );
                    }
                }
            }
            assert(spec_decode_two_operand(w, rest) matches Ok(inst) ==> can_lift(inst, addr));
        }
    }
}

/// POPM restores registers in the reverse of the order in which PUSHM, with the same count
/// and last register, saves them.
pub proof fn lemma_popm_reverses_pushm(end: u8, n: nat)
    ensures
        popm_registers(end, n) == pushm_registers(end, n).reverse(),
    decreases n,
{
    if n > 0 {
        lemma_popm_reverses_pushm(end, (n - 1) as nat);
        let before = pushm_registers(end, (n - 1) as nat);
        let r = register_below(end, n - 1);
        if r < 16 {
            assert(popm_registers(end, n) =~= before.push(r).reverse());
        }
    } else {
        assert(pushm_registers(end, n).reverse() =~= Seq::<u8>::empty());
    }
}

/// The register a `push` of a register value saves.
pub open spec fn pushed_register(s: Stmt) -> u8 {
    match s {
        Stmt::Push(_, Expr::Reg(_, r)) => r,
        _ => 0,
    }
}

/// Lifted, POPM undoes PUSHM: with the same count, last register and width, both lift to
/// the same number of statements, PUSHM's are all pushes of registers, and POPM's i-th
/// statement pops into the register that PUSHM's statement `len - 1 - i` pushed.
pub proof fn lemma_lifted_popm_reverses_pushm(
    count: u8,
    register: u8,
    is_address: bool,
    addr: u64,
    labels: Seq<u64>,
)
    ensures
        ({
            let size = address_or_word(is_address);
            let pushes = spec_lift(
                Instruction::Pushm(PushPopMultiple::spec_new("pushm", count, register, is_address)),
                addr,
                labels,
            );
            let pops = spec_lift(
                Instruction::Popm(PushPopMultiple::spec_new("popm", count, register, is_address)),
                addr,
                labels,
            );
            &&& pops.len() == pushes.len()
            &&& forall|i: int|
                0 <= i < pushes.len() ==> pushes[i] == Stmt::Push(
                    size,
                    Expr::Reg(size, pushed_register(pushes[i])),
                )
            &&& forall|i: int|
                0 <= i < pops.len() ==> pops[i] == Stmt::SetReg(
                    size,
                    pushed_register(pushes[pops.len() - 1 - i]),
                    Expr::Pop(size),
                    FlagWrite::NoFlags,
                )
        }),
{
    broadcast use crate::msp430x_instructions::group_msp430x_fields;

    lemma_popm_reverses_pushm(register, count as nat);
}

/// A PUSHM word and a POPM word that name the same registers (the same count and width bit,
/// with POPM's first register `n - 1` below PUSHM's) decode to PUSHM and POPM with the same
/// count, last register and width, so that, lifted, the POPM restores what the PUSHM saved:
/// it pops into the pushed registers in the reverse order.
pub proof fn lemma_decoded_popm_restores_pushm(push: Seq<u8>, pop: Seq<u8>, addr: u64, labels: Seq<u64>)
    requires
        push.len() >= 2,
        pop.len() >= 2,
        le_word(push[0], push[1]) as int / 512 == 10,
        le_word(pop[0], pop[1]) as int / 512 == 11,
        (le_word(push[0], push[1]) as int / 16) % 16 == (le_word(pop[0], pop[1]) as int / 16) % 16,
        (le_word(push[0], push[1]) as int / 256) % 2 == (le_word(pop[0], pop[1]) as int / 256) % 2,
        le_word(pop[0], pop[1]) as int % 16 + (le_word(pop[0], pop[1]) as int / 16) % 16
            == le_word(push[0], push[1]) as int % 16,
    ensures
        ({
            let w = le_word(push[0], push[1]);
            let count = ((w as int / 16) % 16 + 1) as u8;
            let register = (w as int % 16) as u8;
            let is_address = (w as int / 256) % 2 == 0;
            let size = address_or_word(is_address);
            let pushes = spec_lift(spec_decode(push)->Ok_0, addr, labels);
            let pops = spec_lift(spec_decode(pop)->Ok_0, addr, labels);
            &&& spec_decode(push) == Ok::<Instruction, crate::decode_error::DecodeError>(
                Instruction::Pushm(PushPopMultiple::spec_new("pushm", count, register, is_address)),
            )
            &&& spec_decode(pop) == Ok::<Instruction, crate::decode_error::DecodeError>(
                Instruction::Popm(PushPopMultiple::spec_new("popm", count, register, is_address)),
            )
            &&& pops.len() == pushes.len()
            &&& forall|i: int|
                0 <= i < pops.len() ==> pops[i] == Stmt::SetReg(
                    size,
                    pushed_register(pushes[pops.len() - 1 - i]),
                    Expr::Pop(size),
                    FlagWrite::NoFlags,
                )
        }),
{
    let w = le_word(push[0], push[1]);
    lemma_lifted_popm_reverses_pushm(
        ((w as int / 16) % 16 + 1) as u8,
        (w as int % 16) as u8,
        (w as int / 256) % 2 == 0,
        addr,
        labels,
    );
}

/// Whether an IL expression names only the sixteen registers.
pub open spec fn expr_registers_valid(e: Expr) -> bool
    decreases e,
{
    match e {
        Expr::Reg(_, r) => r < 16,
        Expr::Load(_, a) => expr_registers_valid(*a),
        Expr::Unary(_, _, a, _) => expr_registers_valid(*a),
        Expr::Binary(_, _, a, b, _) => expr_registers_valid(*a) && expr_registers_valid(*b),
        Expr::Carry(_, _, a, b, c, _) => expr_registers_valid(*a) && expr_registers_valid(*b)
            && expr_registers_valid(*c),
        _ => true,
    }
}

/// Whether an IL statement names only the sixteen registers.
pub open spec fn stmt_registers_valid(s: Stmt) -> bool {
    match s {
        Stmt::SetReg(_, r, e, _) => r < 16 && expr_registers_valid(e),
        Stmt::Store(_, a, v) => expr_registers_valid(a) && expr_registers_valid(v),
        Stmt::Push(_, e) | Stmt::Call(e) | Stmt::Ret(e) | Stmt::Jump(e) | Stmt::Eval(e)
        | Stmt::SetFlag(_, e) | Stmt::If(e, _, _) => expr_registers_valid(e),
        _ => true,
    }
}

/// Whether every statement of a list names only the sixteen registers.
pub open spec fn stmts_registers_valid(stmts: Seq<Stmt>) -> bool {
    forall|i: int| 0 <= i < stmts.len() ==> #[trigger] stmt_registers_valid(stmts[i])
}

proof fn lemma_source_expr_valid(op: Operand, size: usize)
    requires
        operand_registers_valid(op),
    ensures
        expr_registers_valid(spec_source_expr(op, size)),
{
    reveal_with_fuel(expr_registers_valid, 3);
}

proof fn lemma_write_back_valid(op: Operand, value: Expr)
    requires
        operand_registers_valid(op),
        expr_registers_valid(value),
    ensures
        stmts_registers_valid(spec_write_back(op, value)),
        stmts_registers_valid(spec_address_write(op, value)),
        stmts_registers_valid(spec_auto_increment(op)),
{
    reveal_with_fuel(expr_registers_valid, 3);
}

proof fn lemma_concat_valid(a: Seq<Stmt>, b: Seq<Stmt>)
    requires
        stmts_registers_valid(a),
        stmts_registers_valid(b),
    ensures
        stmts_registers_valid(a + b),
{
    assert forall|i: int| 0 <= i < (a + b).len() implies #[trigger] stmt_registers_valid(
        (a + b)[i],
    ) by {
        if i < a.len() {
            assert((a + b)[i] == a[i]);
        } else {
            assert((a + b)[i] == b[i - a.len()]);
        }
    }
}

proof fn lemma_push_valid(a: Seq<Stmt>, s: Stmt)
    requires
        stmts_registers_valid(a),
        stmt_registers_valid(s),
    ensures
        stmts_registers_valid(a.push(s)),
{
    assert forall|i: int| 0 <= i < a.push(s).len() implies #[trigger] stmt_registers_valid(
        a.push(s)[i],
    ) by {
        if i < a.len() {
            assert(a.push(s)[i] == a[i]);
        }
    }
}

proof fn lemma_byte_extend_valid(width: Option<crate::operand::OperandWidth>, value: Expr)
    requires
        expr_registers_valid(value),
    ensures
        expr_registers_valid(byte_extend(width, value)),
{
    reveal_with_fuel(expr_registers_valid, 2);
}

/// The statements of a lifted two-operand or emulated instruction that writes `value` back
/// to a valid operand, with statements `after` and the source's increment, name only valid
/// registers.
proof fn lemma_write_sequence_valid(dest: Operand, src: Operand, value: Expr, after: Seq<Stmt>)
    requires
        operand_registers_valid(dest),
        operand_registers_valid(src),
        expr_registers_valid(value),
        stmts_registers_valid(after),
    ensures
        stmts_registers_valid(spec_write_back(dest, value) + after + spec_auto_increment(src)),
{
    lemma_write_back_valid(dest, value);
    lemma_write_back_valid(src, value);
    lemma_concat_valid(spec_write_back(dest, value), after);
    lemma_concat_valid(spec_write_back(dest, value) + after, spec_auto_increment(src));
}

proof fn lemma_single_operand_registers_valid(inst: Instruction, addr: u64, labels: Seq<u64>)
    requires
        can_lift(inst, addr),
        inst is Rrc || inst is Swpb || inst is Rra || inst is Sxt || inst is Push || inst is Call,
    ensures
        stmts_registers_valid(spec_lift(inst, addr, labels)),
{
    reveal_with_fuel(expr_registers_valid, 3);
    let out = spec_lift(inst, addr, labels);
    match inst {
        Instruction::Rrc(i) | Instruction::Swpb(i) | Instruction::Rra(i) | Instruction::Sxt(i)
        | Instruction::Push(i) | Instruction::Call(i) => {
            let src = i.spec_source();
            let size = crate::llil::size_or_word(i.spec_operand_width());
            lemma_source_expr_valid(src, size);
            lemma_source_expr_valid(src, 2);
            lemma_source_expr_valid(src, 1);
            let v = spec_source_expr(src, size);
            lemma_byte_extend_valid(i.spec_operand_width(), binary(crate::llil::BinaryOp::RotateRightCarry, size, v, Expr::Const(size, 1), FlagWrite::All));
            lemma_byte_extend_valid(i.spec_operand_width(), binary(crate::llil::BinaryOp::RotateRight, size, v, Expr::Const(size, 1), FlagWrite::Cnz));
            lemma_write_back_valid(src, crate::lift::shift_one(i, crate::llil::BinaryOp::RotateRightCarry, FlagWrite::All));
            lemma_write_back_valid(src, crate::lift::shift_one(i, crate::llil::BinaryOp::RotateRight, FlagWrite::Cnz));
            lemma_write_back_valid(src, binary(crate::llil::BinaryOp::RotateLeft, 2, spec_source_expr(src, 2), Expr::Const(2, 8), FlagWrite::NoFlags));
            lemma_write_back_valid(src, Expr::Unary(crate::llil::UnaryOp::SignExtend, 2, Box::new(spec_source_expr(src, 1)), FlagWrite::Nz));
            let rra = spec_write_back(src, crate::lift::shift_one(i, crate::llil::BinaryOp::RotateRight, FlagWrite::Cnz));
            lemma_push_valid(rra, crate::lift::set_flag(crate::llil::Flag::V, 0));
            let sxt = spec_write_back(src, Expr::Unary(crate::llil::UnaryOp::SignExtend, 2, Box::new(spec_source_expr(src, 1)), FlagWrite::Nz));
            lemma_push_valid(sxt, crate::lift::set_flag(crate::llil::Flag::V, 0));
            lemma_push_valid(sxt.push(crate::lift::set_flag(crate::llil::Flag::V, 0)), crate::lift::carry_from_not_zero());
            lemma_concat_valid(seq![Stmt::Push(size, v)], spec_auto_increment(src));
            let target = match src {
                Operand::Immediate(w) => Expr::ConstPtr(w as u64),
                o => spec_source_expr(o, size),
            };
            lemma_concat_valid(seq![Stmt::Call(target)], spec_auto_increment(src));
            assert(stmts_registers_valid(out));
        },
        _ => {},
    }
}

proof fn lemma_two_operand_registers_valid(inst: Instruction, addr: u64, labels: Seq<u64>)
    requires
        can_lift(inst, addr),
        inst is Mov || inst is Add || inst is Addc || inst is Subc || inst is Sub || inst is Cmp || inst is Dadd || inst is Bit || inst is Bic || inst is Bis || inst is Xor || inst is And,
    ensures
        stmts_registers_valid(spec_lift(inst, addr, labels)),
{
    reveal_with_fuel(expr_registers_valid, 3);
    let out = spec_lift(inst, addr, labels);
    match inst {
        Instruction::Mov(i) | Instruction::Add(i) | Instruction::Addc(i) | Instruction::Subc(i)
        | Instruction::Sub(i) | Instruction::Cmp(i) | Instruction::Dadd(i) | Instruction::Bit(i)
        | Instruction::Bic(i) | Instruction::Bis(i) | Instruction::Xor(i) | Instruction::And(i) => {
            let size = crate::llil::spec_width_to_size(i.spec_operand_width());
            lemma_source_expr_valid(i.spec_source(), size);
            lemma_source_expr_valid(i.spec_destination(), size);
            let s = two_operand_src(i);
            let d = two_operand_dst(i);
            let w = Some(i.spec_operand_width());
            let dest = i.spec_destination();
            let src = i.spec_source();
            let flag_v = crate::lift::set_flag(crate::llil::Flag::V, 0);
            let flag_c = crate::lift::carry_from_not_zero();
            assert(stmts_registers_valid(seq![flag_c]));
            assert(stmts_registers_valid(seq![flag_v, flag_c]));
            assert(stmts_registers_valid(Seq::<Stmt>::empty()));
            let values = seq![
                s,
                binary(crate::llil::BinaryOp::Add, size, s, d, FlagWrite::All),
                Expr::Carry(crate::llil::CarryOp::AddWithCarry, size, Box::new(s), Box::new(d), Box::new(Expr::Flag(crate::llil::Flag::C)), FlagWrite::All),
                Expr::Carry(crate::llil::CarryOp::SubWithBorrow, size, Box::new(d), Box::new(s), Box::new(Expr::Flag(crate::llil::Flag::C)), FlagWrite::All),
                binary(crate::llil::BinaryOp::Sub, size, s, d, FlagWrite::All),
                binary(crate::llil::BinaryOp::And, size, Expr::Unary(crate::llil::UnaryOp::Not, size, Box::new(s), FlagWrite::NoFlags), d, FlagWrite::NoFlags),
                binary(crate::llil::BinaryOp::Or, size, s, d, FlagWrite::NoFlags),
                binary(crate::llil::BinaryOp::Xor, size, s, d, FlagWrite::Nvz),
                binary(crate::llil::BinaryOp::And, size, s, d, FlagWrite::Nz),
            ];
            assert forall|k: int| 0 <= k < values.len() implies expr_registers_valid(#[trigger] byte_extend(w, values[k])) by {
                lemma_byte_extend_valid(w, values[k]);
            }
            if !(inst is Cmp || inst is Bit) {
                assert forall|k: int| 0 <= k < values.len() implies stmts_registers_valid(
                    #[trigger] spec_write_back(dest, byte_extend(w, values[k])) + Seq::<Stmt>::empty() + spec_auto_increment(src),
                ) by {
                    lemma_write_sequence_valid(dest, src, byte_extend(w, values[k]), Seq::<Stmt>::empty());
                }
                lemma_write_sequence_valid(dest, src, byte_extend(w, values[7]), seq![flag_c]);
                lemma_write_sequence_valid(dest, src, byte_extend(w, values[8]), seq![flag_v, flag_c]);
                assert(values[0] == s);
                assert(values[1] == binary(crate::llil::BinaryOp::Add, size, s, d, FlagWrite::All));
                assert(values[4] == binary(crate::llil::BinaryOp::Sub, size, s, d, FlagWrite::All));
                assert(values[6] == binary(crate::llil::BinaryOp::Or, size, s, d, FlagWrite::NoFlags));
            } else {
                lemma_write_back_valid(src, s);
                lemma_concat_valid(seq![Stmt::Eval(binary(crate::llil::BinaryOp::Sub, size, d, s, FlagWrite::All))], spec_auto_increment(src));
                let bit = seq![
                    Stmt::Eval(binary(crate::llil::BinaryOp::And, size, s, d, FlagWrite::Nz)),
                    flag_v,
                    flag_c,
                ];
                assert(stmts_registers_valid(bit));
                lemma_concat_valid(bit, spec_auto_increment(src));
            }
            assert(stmts_registers_valid(out));
        },
        _ => {},
    }
}

proof fn lemma_emulated_registers_valid(inst: Instruction, addr: u64, labels: Seq<u64>)
    requires
        can_lift(inst, addr),
        inst is Adc || inst is Clr || inst is Dadc || inst is Dec || inst is Decd || inst is Inc || inst is Incd || inst is Inv || inst is Rla || inst is Rlc || inst is Sbc || inst is Tst,
    ensures
        stmts_registers_valid(spec_lift(inst, addr, labels)),
{
    reveal_with_fuel(expr_registers_valid, 3);
    let out = spec_lift(inst, addr, labels);
    match inst {
        Instruction::Adc(i) | Instruction::Clr(i) | Instruction::Dadc(i) | Instruction::Dec(i)
        | Instruction::Decd(i) | Instruction::Inc(i) | Instruction::Incd(i) | Instruction::Inv(i)
        | Instruction::Rla(i) | Instruction::Rlc(i) | Instruction::Sbc(i) | Instruction::Tst(i) => {
            let d = i.spec_destination()->0;
            let size = crate::llil::size_or_word(i.spec_operand_width());
            let w = i.spec_operand_width();
            lemma_source_expr_valid(d, size);
            let e = emulated_dst(i);
            let values = seq![
                Expr::Carry(crate::llil::CarryOp::AddWithCarry, size, Box::new(Expr::Const(size, 0)), Box::new(e), Box::new(Expr::Flag(crate::llil::Flag::C)), FlagWrite::All),
                Expr::Carry(crate::llil::CarryOp::SubWithBorrow, size, Box::new(e), Box::new(Expr::Const(size, 0)), Box::new(Expr::Flag(crate::llil::Flag::C)), FlagWrite::All),
                binary(crate::llil::BinaryOp::Sub, size, e, Expr::Const(size, 1), FlagWrite::All),
                binary(crate::llil::BinaryOp::Sub, size, e, Expr::Const(size, 2), FlagWrite::All),
                binary(crate::llil::BinaryOp::Add, size, e, Expr::Const(size, 1), FlagWrite::All),
                binary(crate::llil::BinaryOp::Add, size, e, Expr::Const(size, 2), FlagWrite::All),
                Expr::Unary(crate::llil::UnaryOp::Not, size, Box::new(e), FlagWrite::Nvz),
                binary(crate::llil::BinaryOp::RotateLeft, size, e, Expr::Const(size, 1), FlagWrite::All),
                binary(crate::llil::BinaryOp::RotateLeftCarry, size, e, Expr::Const(size, 1), FlagWrite::All),
            ];
            if !(inst is Tst) {
                assert forall|k: int| 0 <= k < values.len() implies stmts_registers_valid(
                    #[trigger] spec_write_back(d, byte_extend(w, values[k])),
                ) by {
                    lemma_byte_extend_valid(w, values[k]);
                    lemma_write_back_valid(d, byte_extend(w, values[k]));
                }
                assert(values[6] == Expr::Unary(crate::llil::UnaryOp::Not, size, Box::new(e), FlagWrite::Nvz));
                lemma_push_valid(spec_write_back(d, byte_extend(w, values[6])), crate::lift::carry_from_not_zero());
                lemma_write_back_valid(d, Expr::Const(2, 0));
            }
            assert(stmts_registers_valid(out));
        },
        _ => {},
    }
}

proof fn lemma_address_registers_valid(inst: Instruction, addr: u64, labels: Seq<u64>)
    requires
        can_lift(inst, addr),
        inst is Mova || inst is Cmpa || inst is Adda || inst is Suba,
    ensures
        stmts_registers_valid(spec_lift(inst, addr, labels)),
{
    reveal_with_fuel(expr_registers_valid, 3);
    let out = spec_lift(inst, addr, labels);
    match inst {
        Instruction::Mova(i) | Instruction::Cmpa(i) | Instruction::Adda(i) | Instruction::Suba(i) => {
            lemma_source_expr_valid(i.spec_source(), 3);
            lemma_source_expr_valid(i.spec_destination(), 3);
            let s = spec_source_expr(i.spec_source(), 3);
            let d = spec_source_expr(i.spec_destination(), 3);
            lemma_write_back_valid(i.spec_destination(), s);
            lemma_write_back_valid(i.spec_destination(), binary(crate::llil::BinaryOp::Add, 3, s, d, FlagWrite::All));
            lemma_write_back_valid(i.spec_destination(), binary(crate::llil::BinaryOp::Sub, 3, d, s, FlagWrite::All));
            assert(stmts_registers_valid(out));
        },
        _ => {},
    }
}

proof fn lemma_branch_registers_valid(inst: Instruction, addr: u64, labels: Seq<u64>)
    requires
        can_lift(inst, addr),
        inst is Br || inst is Bra || inst is Calla,
    ensures
        stmts_registers_valid(spec_lift(inst, addr, labels)),
{
    reveal_with_fuel(expr_registers_valid, 3);
    let out = spec_lift(inst, addr, labels);
    match inst {
        Instruction::Br(i) => {
            if !(i.spec_destination() matches Some(Operand::Immediate(_))) {
                lemma_source_expr_valid(i.spec_destination()->0, 2);
            }
            assert(stmts_registers_valid(out));
        },
        Instruction::Bra(b) => {
            if operand_registers_valid(b.spec_destination()) {
                lemma_source_expr_valid(b.spec_destination(), 3);
            }
            assert(stmts_registers_valid(out));
        },
        Instruction::Calla(c) => {
            if operand_registers_valid(c.spec_destination()) {
                lemma_source_expr_valid(c.spec_destination(), 3);
            }
            assert(stmts_registers_valid(out));
        },
        _ => {},
    }
}

proof fn lemma_stack_registers_valid(inst: Instruction, addr: u64, labels: Seq<u64>)
    requires
        can_lift(inst, addr),
        inst is Pushm || inst is Popm,
    ensures
        stmts_registers_valid(spec_lift(inst, addr, labels)),
{
    reveal_with_fuel(expr_registers_valid, 3);
    let out = spec_lift(inst, addr, labels);
    match inst {
        Instruction::Pushm(i) | Instruction::Popm(i) => {
            let size = address_or_word(i.spec_is_address());
            lemma_pushed_registers_valid(i.spec_register(), i.spec_count() as nat);
            lemma_popm_reverses_pushm(i.spec_register(), i.spec_count() as nat);
            let regs = pushm_registers(i.spec_register(), i.spec_count() as nat);
            assert forall|k: int| 0 <= k < regs.reverse().len() implies regs.reverse()[k] < 16 by {
                assert(regs.reverse()[k] == regs[regs.len() - 1 - k]);
            }
            assert(stmts_registers_valid(out));
        },
        _ => {},
    }
}

proof fn lemma_conditional_jump_valid(addr: u64, inst: crate::jxx::Jxx, cond: crate::llil::Condition, labels: Seq<u64>)
    ensures
        stmts_registers_valid(crate::lift::spec_conditional_jump(addr, inst, cond, labels)),
{
    let out = crate::lift::spec_conditional_jump(addr, inst, cond, labels);
    assert forall|k: int| 0 <= k < out.len() implies #[trigger] stmt_registers_valid(out[k]) by {
        reveal_with_fuel(expr_registers_valid, 1);
    }
}

proof fn lemma_other_registers_valid(inst: Instruction, addr: u64, labels: Seq<u64>)
    requires
        can_lift(inst, addr),
        inst is Reti || inst is Jnz || inst is Jz || inst is Jlo || inst is Jc || inst is Jn
            || inst is Jge || inst is Jl || inst is Jmp || inst is Clrc || inst is Clrn || inst is Clrz
            || inst is Dint || inst is Eint || inst is Nop || inst is Pop || inst is Ret || inst is Setc
            || inst is Setn || inst is Setz || inst is Reta || inst is Rrcm || inst is Rram
            || inst is Rlam || inst is Rrum,
    ensures
        stmts_registers_valid(spec_lift(inst, addr, labels)),
{
    let out = spec_lift(inst, addr, labels);
    match inst {
        Instruction::Jnz(i) => lemma_conditional_jump_valid(addr, i, crate::llil::Condition::NotEqual, labels),
        Instruction::Jz(i) => lemma_conditional_jump_valid(addr, i, crate::llil::Condition::Equal, labels),
        Instruction::Jlo(i) => lemma_conditional_jump_valid(addr, i, crate::llil::Condition::UnsignedLessThan, labels),
        Instruction::Jc(i) => lemma_conditional_jump_valid(addr, i, crate::llil::Condition::UnsignedGreaterOrEqual, labels),
        Instruction::Jn(i) => lemma_conditional_jump_valid(addr, i, crate::llil::Condition::Negative, labels),
        Instruction::Jge(i) => lemma_conditional_jump_valid(addr, i, crate::llil::Condition::SignedGreaterOrEqual, labels),
        Instruction::Jl(i) => lemma_conditional_jump_valid(addr, i, crate::llil::Condition::SignedLessThan, labels),
        Instruction::Rrcm(i) | Instruction::Rram(i) | Instruction::Rlam(i) | Instruction::Rrum(i) => {
            assert forall|k: int| 0 <= k < out.len() implies #[trigger] stmt_registers_valid(out[k]) by {
                reveal_with_fuel(expr_registers_valid, 2);
            }
        },
        _ => {
            assert forall|k: int| 0 <= k < out.len() implies #[trigger] stmt_registers_valid(out[k]) by {
                reveal_with_fuel(expr_registers_valid, 1);
            }
        },
    }
}

/// Lifting names only the sixteen registers: every register read, written, or used as an
/// address in the statements of an instruction that can be lifted is one of r0 to r15.
pub proof fn lemma_lifted_registers_valid(inst: Instruction, addr: u64, labels: Seq<u64>)
    requires
        can_lift(inst, addr),
    ensures
        stmts_registers_valid(spec_lift(inst, addr, labels)),
{
    reveal_with_fuel(expr_registers_valid, 3);
    let out = spec_lift(inst, addr, labels);
    match inst {
        Instruction::Rrc(_) | Instruction::Swpb(_) | Instruction::Rra(_) | Instruction::Sxt(_)
        | Instruction::Push(_) | Instruction::Call(_) => lemma_single_operand_registers_valid(inst, addr, labels),
        Instruction::Mov(_) | Instruction::Add(_) | Instruction::Addc(_) | Instruction::Subc(_)
        | Instruction::Sub(_) | Instruction::Cmp(_) | Instruction::Dadd(_) | Instruction::Bit(_)
        | Instruction::Bic(_) | Instruction::Bis(_) | Instruction::Xor(_) | Instruction::And(_) => lemma_two_operand_registers_valid(inst, addr, labels),
        Instruction::Adc(_) | Instruction::Clr(_) | Instruction::Dadc(_) | Instruction::Dec(_)
        | Instruction::Decd(_) | Instruction::Inc(_) | Instruction::Incd(_) | Instruction::Inv(_)
        | Instruction::Rla(_) | Instruction::Rlc(_) | Instruction::Sbc(_) | Instruction::Tst(_) => lemma_emulated_registers_valid(inst, addr, labels),
        Instruction::Mova(_) | Instruction::Cmpa(_) | Instruction::Adda(_) | Instruction::Suba(_) => lemma_address_registers_valid(inst, addr, labels),
        Instruction::Br(_) | Instruction::Bra(_) | Instruction::Calla(_) => lemma_branch_registers_valid(inst, addr, labels),
        Instruction::Pushm(_) | Instruction::Popm(_) => lemma_stack_registers_valid(inst, addr, labels),
        _ => lemma_other_registers_valid(inst, addr, labels),
    }
}

/// The registers PUSHM pushes are all among the sixteen.
proof fn lemma_pushed_registers_valid(end: u8, n: nat)
    ensures
        forall|k: int| 0 <= k < pushm_registers(end, n).len() ==> pushm_registers(end, n)[k] < 16,
    decreases n,
{
    if n > 0 {
        lemma_pushed_registers_valid(end, (n - 1) as nat);
        let before = pushm_registers(end, (n - 1) as nat);
        let r = register_below(end, n - 1);
        if r < 16 {
            assert forall|k: int| 0 <= k < before.push(r).len() implies before.push(r)[k] < 16 by {
                if k < before.len() {
                    assert(before.push(r)[k] == before[k]);
                }
            }
        }
    }
}

/// Whether a statement is neither a conditional branch nor a goto.
pub open spec fn is_straight(s: Stmt) -> bool {
    !(s is If) && !(s is Goto)
}

/// Whether no statement of a list branches to a label.
pub open spec fn straight_line(stmts: Seq<Stmt>) -> bool {
    forall|i: int| 0 <= i < stmts.len() ==> #[trigger] is_straight(stmts[i])
}

/// Whether a label a statement of `stmts` branches to is usable: a label that already marks
/// an address in the function (one of `labels`), or a fresh label that `stmts` marks.
pub open spec fn target_usable(target: Label, stmts: Seq<Stmt>, labels: Seq<u64>) -> bool {
    match target {
        Label::At(a) => labels.contains(a),
        Label::Fresh(_) => stmts.contains(Stmt::MarkLabel(target)),
    }
}

/// Whether every label that a statement of `stmts` branches to is usable.
pub open spec fn branch_targets_usable(stmts: Seq<Stmt>, labels: Seq<u64>) -> bool {
    forall|i: int|
        0 <= i < stmts.len() ==> match #[trigger] stmts[i] {
            Stmt::If(_, t, f) => target_usable(t, stmts, labels) && target_usable(f, stmts, labels),
            Stmt::Goto(l) => target_usable(l, stmts, labels),
            _ => true,
        }
}

proof fn lemma_straight_concat(a: Seq<Stmt>, b: Seq<Stmt>)
    requires
        straight_line(a),
        straight_line(b),
    ensures
        straight_line(a + b),
{
    assert forall|i: int| 0 <= i < (a + b).len() implies #[trigger] is_straight((a + b)[i]) by {
        if i < a.len() {
            assert((a + b)[i] == a[i]);
        } else {
            assert((a + b)[i] == b[i - a.len()]);
        }
    }
}

proof fn lemma_straight_push(a: Seq<Stmt>, s: Stmt)
    requires
        straight_line(a),
        is_straight(s),
    ensures
        straight_line(a.push(s)),
{
    assert forall|i: int| 0 <= i < a.push(s).len() implies #[trigger] is_straight(a.push(s)[i]) by {
        if i < a.len() {
            assert(a.push(s)[i] == a[i]);
        }
    }
}

proof fn lemma_writes_straight(op: Operand, value: Expr)
    ensures
        straight_line(spec_write_back(op, value)),
        straight_line(spec_address_write(op, value)),
        straight_line(spec_auto_increment(op)),
{
}

proof fn lemma_write_sequence_straight(dest: Operand, src: Operand, value: Expr, after: Seq<Stmt>)
    requires
        straight_line(after),
    ensures
        straight_line(spec_write_back(dest, value) + after + spec_auto_increment(src)),
{
    lemma_writes_straight(dest, value);
    lemma_writes_straight(src, value);
    lemma_straight_concat(spec_write_back(dest, value), after);
    lemma_straight_concat(spec_write_back(dest, value) + after, spec_auto_increment(src));
}

proof fn lemma_straight_targets(stmts: Seq<Stmt>, labels: Seq<u64>)
    requires
        straight_line(stmts),
    ensures
        branch_targets_usable(stmts, labels),
{
    assert forall|i: int| 0 <= i < stmts.len() implies match #[trigger] stmts[i] {
        Stmt::If(_, t, f) => target_usable(t, stmts, labels) && target_usable(f, stmts, labels),
        Stmt::Goto(l) => target_usable(l, stmts, labels),
        _ => true,
    } by {
        assert(is_straight(stmts[i]));
    }
}

proof fn lemma_single_operand_straight(inst: Instruction, addr: u64, labels: Seq<u64>)
    requires
        inst is Rrc || inst is Swpb || inst is Rra || inst is Sxt || inst is Push || inst is Call,
    ensures
        straight_line(spec_lift(inst, addr, labels)),
{
    match inst {
        Instruction::Rrc(i) | Instruction::Swpb(i) | Instruction::Rra(i) | Instruction::Sxt(i)
        | Instruction::Push(i) | Instruction::Call(i) => {
            let src = i.spec_source();
            let size = crate::llil::size_or_word(i.spec_operand_width());
            let rra = spec_write_back(src, crate::lift::shift_one(i, crate::llil::BinaryOp::RotateRight, FlagWrite::Cnz));
            let sxt = spec_write_back(src, Expr::Unary(crate::llil::UnaryOp::SignExtend, 2, Box::new(spec_source_expr(src, 1)), FlagWrite::Nz));
            lemma_writes_straight(src, crate::lift::shift_one(i, crate::llil::BinaryOp::RotateRightCarry, FlagWrite::All));
            lemma_writes_straight(src, crate::lift::shift_one(i, crate::llil::BinaryOp::RotateRight, FlagWrite::Cnz));
            lemma_writes_straight(src, binary(crate::llil::BinaryOp::RotateLeft, 2, spec_source_expr(src, 2), Expr::Const(2, 8), FlagWrite::NoFlags));
            lemma_writes_straight(src, Expr::Unary(crate::llil::UnaryOp::SignExtend, 2, Box::new(spec_source_expr(src, 1)), FlagWrite::Nz));
            lemma_straight_push(rra, crate::lift::set_flag(crate::llil::Flag::V, 0));
            lemma_straight_push(sxt, crate::lift::set_flag(crate::llil::Flag::V, 0));
            lemma_straight_push(sxt.push(crate::lift::set_flag(crate::llil::Flag::V, 0)), crate::lift::carry_from_not_zero());
            lemma_straight_concat(seq![Stmt::Push(size, spec_source_expr(src, size))], spec_auto_increment(src));
            let target = match src {
                Operand::Immediate(w) => Expr::ConstPtr(w as u64),
                o => spec_source_expr(o, size),
            };
            lemma_straight_concat(seq![Stmt::Call(target)], spec_auto_increment(src));
        },
        _ => {},
    }
}

proof fn lemma_two_operand_straight(inst: Instruction, addr: u64, labels: Seq<u64>)
    requires
        inst is Mov || inst is Add || inst is Addc || inst is Subc || inst is Sub || inst is Cmp
            || inst is Dadd || inst is Bit || inst is Bic || inst is Bis || inst is Xor || inst is And,
    ensures
        straight_line(spec_lift(inst, addr, labels)),
{
    match inst {
        Instruction::Mov(i) | Instruction::Add(i) | Instruction::Addc(i) | Instruction::Subc(i)
        | Instruction::Sub(i) | Instruction::Cmp(i) | Instruction::Dadd(i) | Instruction::Bit(i)
        | Instruction::Bic(i) | Instruction::Bis(i) | Instruction::Xor(i) | Instruction::And(i) => {
            let dest = i.spec_destination();
            let src = i.spec_source();
            let flag_v = crate::lift::set_flag(crate::llil::Flag::V, 0);
            let flag_c = crate::lift::carry_from_not_zero();
            assert(straight_line(seq![flag_c]));
            assert(straight_line(seq![flag_v, flag_c]));
            assert(straight_line(Seq::<Stmt>::empty()));
            assert forall|v: Expr| straight_line(#[trigger] spec_write_back(dest, v)) by {
                lemma_writes_straight(dest, v);
            }
            let none = Seq::<Stmt>::empty();
            let after_c = seq![flag_c];
            let after_vc = seq![flag_v, flag_c];
            assert forall|v: Expr| straight_line(#[trigger] spec_write_back(dest, v) + none + spec_auto_increment(src)) by {
                lemma_write_sequence_straight(dest, src, v, none);
            }
            assert forall|v: Expr| straight_line(#[trigger] spec_write_back(dest, v) + after_c + spec_auto_increment(src)) by {
                lemma_write_sequence_straight(dest, src, v, after_c);
            }
            assert forall|v: Expr| straight_line(#[trigger] spec_write_back(dest, v) + after_vc + spec_auto_increment(src)) by {
                lemma_write_sequence_straight(dest, src, v, after_vc);
            }
            let size = crate::llil::spec_width_to_size(i.spec_operand_width());
            let cmp = seq![Stmt::Eval(binary(crate::llil::BinaryOp::Sub, size, two_operand_dst(i), two_operand_src(i), FlagWrite::All))];
            let bit = seq![
                Stmt::Eval(binary(crate::llil::BinaryOp::And, size, two_operand_src(i), two_operand_dst(i), FlagWrite::Nz)),
                flag_v,
                flag_c,
            ];
            assert(straight_line(cmp));
            assert(straight_line(bit));
            lemma_writes_straight(src, two_operand_src(i));
            lemma_straight_concat(cmp, spec_auto_increment(src));
            lemma_straight_concat(bit, spec_auto_increment(src));
        },
        _ => {},
    }
}

proof fn lemma_emulated_straight(inst: Instruction, addr: u64, labels: Seq<u64>)
    requires
        inst is Adc || inst is Clr || inst is Dadc || inst is Dec || inst is Decd || inst is Inc
            || inst is Incd || inst is Inv || inst is Rla || inst is Rlc || inst is Sbc || inst is Tst,
    ensures
        straight_line(spec_lift(inst, addr, labels)),
{
    match inst {
        Instruction::Adc(i) | Instruction::Clr(i) | Instruction::Dadc(i) | Instruction::Dec(i)
        | Instruction::Decd(i) | Instruction::Inc(i) | Instruction::Incd(i) | Instruction::Inv(i)
        | Instruction::Rla(i) | Instruction::Rlc(i) | Instruction::Sbc(i) | Instruction::Tst(i) => {
            let d = i.spec_destination()->0;
            assert forall|v: Expr| straight_line(#[trigger] spec_write_back(d, v)) by {
                lemma_writes_straight(d, v);
            }
            assert forall|v: Expr| straight_line(#[trigger] spec_write_back(d, v).push(crate::lift::carry_from_not_zero())) by {
                lemma_writes_straight(d, v);
                lemma_straight_push(spec_write_back(d, v), crate::lift::carry_from_not_zero());
            }
            let out = spec_lift(inst, addr, labels);
            if inst is Tst {
                assert forall|k: int| 0 <= k < out.len() implies #[trigger] is_straight(out[k]) by {}
            }
        },
        _ => {},
    }
}

proof fn lemma_other_straight(inst: Instruction, addr: u64, labels: Seq<u64>)
    requires
        !(inst is Jnz || inst is Jz || inst is Jlo || inst is Jc || inst is Jn || inst is Jge
            || inst is Jl || inst is Jmp || inst is Br),
        !(inst is Rrc || inst is Swpb || inst is Rra || inst is Sxt || inst is Push || inst is Call),
        !(inst is Mov || inst is Add || inst is Addc || inst is Subc || inst is Sub || inst is Cmp
            || inst is Dadd || inst is Bit || inst is Bic || inst is Bis || inst is Xor || inst is And),
        !(inst is Adc || inst is Clr || inst is Dadc || inst is Dec || inst is Decd || inst is Inc
            || inst is Incd || inst is Inv || inst is Rla || inst is Rlc || inst is Sbc || inst is Tst),
    ensures
        straight_line(spec_lift(inst, addr, labels)),
{
    let out = spec_lift(inst, addr, labels);
    match inst {
        Instruction::Mova(i) | Instruction::Adda(i) | Instruction::Suba(i) => {
            lemma_writes_straight(i.spec_destination(), spec_source_expr(i.spec_source(), 3));
            lemma_writes_straight(
                i.spec_destination(),
                binary(crate::llil::BinaryOp::Add, 3, spec_source_expr(i.spec_source(), 3), spec_source_expr(i.spec_destination(), 3), FlagWrite::All),
            );
            lemma_writes_straight(
                i.spec_destination(),
                binary(crate::llil::BinaryOp::Sub, 3, spec_source_expr(i.spec_destination(), 3), spec_source_expr(i.spec_source(), 3), FlagWrite::All),
            );
        },
        _ => {
            assert forall|k: int| 0 <= k < out.len() implies #[trigger] is_straight(out[k]) by {}
        },
    }
}

proof fn lemma_conditional_jump_targets(addr: u64, inst: crate::jxx::Jxx, cond: crate::llil::Condition, labels: Seq<u64>)
    ensures
        branch_targets_usable(crate::lift::spec_conditional_jump(addr, inst, cond, labels), labels),
{
    let out = crate::lift::spec_conditional_jump(addr, inst, cond, labels);
    if out.len() >= 2 {
        assert(out[1] == Stmt::MarkLabel(Label::Fresh(0)));
        assert(out.contains(Stmt::MarkLabel(Label::Fresh(0))));
    }
    if out.len() >= 4 {
        assert(out[3] == Stmt::MarkLabel(Label::Fresh(1)));
        assert(out.contains(Stmt::MarkLabel(Label::Fresh(1))));
    }
}

proof fn lemma_jump_targets(inst: Instruction, addr: u64, labels: Seq<u64>)
    requires
        inst is Jnz || inst is Jz || inst is Jlo || inst is Jc || inst is Jn || inst is Jge
            || inst is Jl || inst is Jmp || inst is Br,
    ensures
        branch_targets_usable(spec_lift(inst, addr, labels), labels),
{
    match inst {
        Instruction::Jnz(i) => lemma_conditional_jump_targets(addr, i, crate::llil::Condition::NotEqual, labels),
        Instruction::Jz(i) => lemma_conditional_jump_targets(addr, i, crate::llil::Condition::Equal, labels),
        Instruction::Jlo(i) => lemma_conditional_jump_targets(addr, i, crate::llil::Condition::UnsignedLessThan, labels),
        Instruction::Jc(i) => lemma_conditional_jump_targets(addr, i, crate::llil::Condition::UnsignedGreaterOrEqual, labels),
        Instruction::Jn(i) => lemma_conditional_jump_targets(addr, i, crate::llil::Condition::Negative, labels),
        Instruction::Jge(i) => lemma_conditional_jump_targets(addr, i, crate::llil::Condition::SignedGreaterOrEqual, labels),
        Instruction::Jl(i) => lemma_conditional_jump_targets(addr, i, crate::llil::Condition::SignedLessThan, labels),
        _ => {},
    }
}

/// Lifting branches only to usable labels: every label a lifted instruction's statements
/// branch to (by a conditional branch or a goto) either already marks an address in the
/// function being lifted or is a fresh label that the same statements mark.
pub proof fn lemma_lifted_branch_targets(inst: Instruction, addr: u64, labels: Seq<u64>)
    ensures
        branch_targets_usable(spec_lift(inst, addr, labels), labels),
{
    if inst is Jnz || inst is Jz || inst is Jlo || inst is Jc || inst is Jn || inst is Jge
        || inst is Jl || inst is Jmp || inst is Br {
        lemma_jump_targets(inst, addr, labels);
    } else {
        if inst is Rrc || inst is Swpb || inst is Rra || inst is Sxt || inst is Push || inst is Call {
            lemma_single_operand_straight(inst, addr, labels);
        } else if inst is Mov || inst is Add || inst is Addc || inst is Subc || inst is Sub || inst is Cmp
            || inst is Dadd || inst is Bit || inst is Bic || inst is Bis || inst is Xor || inst is And {
            lemma_two_operand_straight(inst, addr, labels);
        } else if inst is Adc || inst is Clr || inst is Dadc || inst is Dec || inst is Decd || inst is Inc
            || inst is Incd || inst is Inv || inst is Rla || inst is Rlc || inst is Sbc || inst is Tst {
            lemma_emulated_straight(inst, addr, labels);
        } else {
            lemma_other_straight(inst, addr, labels);
        }
        lemma_straight_targets(spec_lift(inst, addr, labels), labels);
    }
}

} // verus!
