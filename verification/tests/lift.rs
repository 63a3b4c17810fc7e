use msp430_asm_extended::decode;
use msp430_asm_extended::instruction::Instruction;
use msp430_asm_extended::lift::{has_label, lift_instruction, offset_to_absolute};
use msp430_asm_extended::llil::{
    lift_source_operand, width_to_size, BinaryOp, CarryOp, Condition, Expr, Flag, FlagWrite,
    Label, Stmt, UnaryOp,
};
use msp430_asm_extended::msp430x_instructions::PushPopMultiple;
use msp430_asm_extended::operand::{Operand, OperandWidth};

fn lift_bytes(bytes: &[u8], addr: u64, labels: &[u64]) -> Vec<Stmt> {
    let inst = decode(bytes).unwrap();
    lift_instruction(&inst, addr, labels)
}

fn reg(size: usize, r: u8) -> Expr {
    Expr::Reg(size, r)
}

fn bin(op: BinaryOp, size: usize, a: Expr, b: Expr, f: FlagWrite) -> Expr {
    Expr::Binary(op, size, Box::new(a), Box::new(b), f)
}

#[test]
fn widths_and_sizes() {
    assert_eq!(width_to_size(&OperandWidth::Byte), 1);
    assert_eq!(width_to_size(&OperandWidth::Word), 2);
    assert_eq!(width_to_size(&OperandWidth::Address), 3);
}

#[test]
fn source_operands() {
    assert_eq!(lift_source_operand(&Operand::RegisterDirect(4), 2), reg(2, 4));
    assert_eq!(
        lift_source_operand(&Operand::Indexed((4, -2)), 1),
        Expr::Load(1, Box::new(bin(BinaryOp::Add, 2, reg(2, 4), Expr::Const(2, 0xFFFF_FFFF_FFFF_FFFE), FlagWrite::NoFlags)))
    );
    assert_eq!(
        lift_source_operand(&Operand::Symbolic20(0x10), 3),
        Expr::Load(3, Box::new(bin(BinaryOp::Add, 3, reg(3, 0), Expr::Const(3, 0x10), FlagWrite::NoFlags)))
    );
    assert_eq!(lift_source_operand(&Operand::Absolute20(0x10000), 2), Expr::Load(2, Box::new(Expr::ConstPtr(0x10000))));
    assert_eq!(lift_source_operand(&Operand::RegisterIndirectAutoIncrement(6), 2), Expr::Load(2, Box::new(reg(2, 6))));
    assert_eq!(lift_source_operand(&Operand::Constant(-1), 2), Expr::Const(2, u64::MAX));
    assert_eq!(lift_source_operand(&Operand::Immediate20(0x12345), 3), Expr::Const(3, 0x12345));
}

#[test]
fn jump_targets() {
    assert_eq!(offset_to_absolute(0x4400, 0), 0x4402);
    assert_eq!(offset_to_absolute(0x4400, -1), 0x4400);
    assert_eq!(offset_to_absolute(0x4400, 3), 0x4408);
    assert_eq!(offset_to_absolute(0, -2), u64::MAX - 1);
    assert!(has_label(&[1, 2, 3], 2));
    assert!(!has_label(&[1, 2, 3], 4));
    assert!(!has_label(&[], 0));
}

#[test]
fn conditional_jump_labels() {
    let cond = Expr::FlagCond(Condition::NotEqual);
    // jnz -1 at 0x4400 jumps to 0x4400 and falls through to 0x4402
    let bytes = [0xFF, 0x23];
    assert_eq!(
        lift_bytes(&bytes, 0x4400, &[0x4400, 0x4402]),
        vec![Stmt::If(cond, Label::At(0x4400), Label::At(0x4402))]
    );
    assert_eq!(
        lift_bytes(&bytes, 0x4400, &[0x4400]),
        vec![
            Stmt::If(Expr::FlagCond(Condition::NotEqual), Label::At(0x4400), Label::Fresh(0)),
            Stmt::MarkLabel(Label::Fresh(0)),
        ]
    );
    assert_eq!(
        lift_bytes(&bytes, 0x4400, &[0x4402]),
        vec![
            Stmt::If(Expr::FlagCond(Condition::NotEqual), Label::Fresh(0), Label::At(0x4402)),
            Stmt::MarkLabel(Label::Fresh(0)),
            Stmt::Jump(Expr::ConstPtr(0x4400)),
        ]
    );
    assert_eq!(
        lift_bytes(&bytes, 0x4400, &[]),
        vec![
            Stmt::If(Expr::FlagCond(Condition::NotEqual), Label::Fresh(0), Label::Fresh(1)),
            Stmt::MarkLabel(Label::Fresh(0)),
            Stmt::Jump(Expr::ConstPtr(0x4400)),
            Stmt::MarkLabel(Label::Fresh(1)),
        ]
    );
}

#[test]
fn unconditional_jumps() {
    assert_eq!(lift_bytes(&[0x00, 0x3c], 0x100, &[0x102]), vec![Stmt::Goto(Label::At(0x102))]);
    assert_eq!(lift_bytes(&[0x00, 0x3c], 0x100, &[]), vec![Stmt::Jump(Expr::ConstPtr(0x102))]);
    // br #0x4400
    assert_eq!(lift_bytes(&[0x30, 0x40, 0x00, 0x44], 0, &[0x4400]), vec![Stmt::Goto(Label::At(0x4400))]);
    assert_eq!(lift_bytes(&[0x30, 0x40, 0x00, 0x44], 0, &[]), vec![Stmt::Jump(Expr::ConstPtr(0x4400))]);
    // br r6
    assert_eq!(lift_bytes(&[0x00, 0x46], 0, &[]), vec![Stmt::Jump(reg(2, 6))]);
}

#[test]
fn returns_and_calls() {
    assert_eq!(lift_bytes(&[0x30, 0x41], 0, &[]), vec![Stmt::Ret(Expr::Pop(2))]);
    assert_eq!(lift_bytes(&[0x10, 0x01], 0, &[]), vec![Stmt::Ret(Expr::Pop(3))]);
    assert_eq!(
        lift_bytes(&[0x00, 0x13], 0, &[]),
        vec![Stmt::SetReg(2, 2, Expr::Pop(2), FlagWrite::All), Stmt::Ret(Expr::Pop(2))]
    );
    // call #0x4400
    assert_eq!(lift_bytes(&[0xB0, 0x12, 0x00, 0x44], 0, &[]), vec![Stmt::Call(Expr::ConstPtr(0x4400))]);
    // calla #0x12345
    assert_eq!(
        lift_bytes(&[0x01, 0x18, 0xB0, 0x13, 0x45, 0x23], 0, &[]),
        vec![Stmt::Call(Expr::ConstPtr(0x12345))]
    );
    // calla r15
    assert_eq!(lift_bytes(&[0x00, 0x18, 0x4F, 0x13], 0, &[]), vec![Stmt::Call(reg(3, 15))]);
    // bra &0x10000
    assert_eq!(
        lift_bytes(&[0x01, 0x18, 0xC0, 0x00, 0x00, 0x00], 0, &[]),
        vec![Stmt::Jump(Expr::ConstPtr(0x10000))]
    );
}

#[test]
fn two_operand_statements() {
    // add r15, r14
    assert_eq!(
        lift_bytes(&[0x0E, 0x5F], 0, &[]),
        vec![Stmt::SetReg(2, 14, bin(BinaryOp::Add, 2, reg(2, 15), reg(2, 14), FlagWrite::All), FlagWrite::NoFlags)]
    );
    // cmp r15, r14
    assert_eq!(
        lift_bytes(&[0x0E, 0x9F], 0, &[]),
        vec![Stmt::Eval(bin(BinaryOp::Sub, 2, reg(2, 14), reg(2, 15), FlagWrite::All))]
    );
    // mov.b r5, r6 sign-extends the byte
    assert_eq!(
        lift_bytes(&[0x46, 0x45], 0, &[]),
        vec![Stmt::SetReg(
            2,
            6,
            Expr::Unary(UnaryOp::SignExtend, 2, Box::new(reg(1, 5)), FlagWrite::NoFlags),
            FlagWrite::NoFlags
        )]
    );
    // mov @r5+, r6 increments r5 after the move
    assert_eq!(
        lift_bytes(&[0x36, 0x45], 0, &[]),
        vec![
            Stmt::SetReg(2, 6, Expr::Load(2, Box::new(reg(2, 5))), FlagWrite::NoFlags),
            Stmt::SetReg(2, 5, bin(BinaryOp::Add, 2, reg(2, 5), Expr::Const(2, 2), FlagWrite::NoFlags), FlagWrite::NoFlags),
        ]
    );
    // and r5, r6 then V and C
    assert_eq!(
        lift_bytes(&[0x06, 0xF5], 0, &[]),
        vec![
            Stmt::SetReg(2, 6, bin(BinaryOp::And, 2, reg(2, 5), reg(2, 6), FlagWrite::Nz), FlagWrite::NoFlags),
            Stmt::SetFlag(Flag::V, Expr::Const(0, 0)),
            Stmt::SetFlag(Flag::C, Expr::Unary(UnaryOp::Not, 0, Box::new(Expr::Flag(Flag::Z)), FlagWrite::NoFlags)),
        ]
    );
    // mov r5, &0x0200 stores at the absolute address
    assert_eq!(
        lift_bytes(&[0x82, 0x45, 0x00, 0x02], 0, &[]),
        vec![Stmt::Store(2, Expr::ConstPtr(0x200), reg(2, 5))]
    );
}

#[test]
fn emulated_statements() {
    // adc r5
    assert_eq!(
        lift_bytes(&[0x35, 0x63], 0, &[]),
        vec![Stmt::SetReg(
            2,
            5,
            Expr::Carry(
                CarryOp::AddWithCarry,
                2,
                Box::new(Expr::Const(2, 0)),
                Box::new(reg(2, 5)),
                Box::new(Expr::Flag(Flag::C)),
                FlagWrite::All
            ),
            FlagWrite::NoFlags
        )]
    );
    // inc r5
    assert_eq!(
        lift_bytes(&[0x35, 0x50, 0x01, 0x00], 0, &[]),
        vec![Stmt::SetReg(2, 5, bin(BinaryOp::Add, 2, reg(2, 5), Expr::Const(2, 1), FlagWrite::All), FlagWrite::NoFlags)]
    );
    // clrc, setz, dint, nop
    assert_eq!(lift_bytes(&[0x32, 0xC0, 0x01, 0x00], 0, &[]), vec![Stmt::SetFlag(Flag::C, Expr::Const(0, 0))]);
    assert_eq!(lift_bytes(&[0x22, 0xD3], 0, &[]), vec![Stmt::SetFlag(Flag::Z, Expr::Const(0, 1))]);
    assert_eq!(lift_bytes(&[0x32, 0xC2], 0, &[]), vec![]);
    assert_eq!(lift_bytes(&[0x33, 0x43], 0, &[]), vec![Stmt::Nop]);
    // pop r5
    assert_eq!(lift_bytes(&[0x35, 0x41], 0, &[]), vec![Stmt::SetReg(2, 5, Expr::Pop(2), FlagWrite::NoFlags)]);
    // tst r5
    assert_eq!(
        lift_bytes(&[0x35, 0x93], 0, &[]),
        vec![
            Stmt::Eval(bin(BinaryOp::Sub, 2, reg(2, 5), Expr::Const(2, 0), FlagWrite::Nz)),
            Stmt::SetFlag(Flag::V, Expr::Const(0, 0)),
            Stmt::SetFlag(Flag::C, Expr::Const(0, 1)),
        ]
    );
}

#[test]
fn single_operand_statements() {
    // rrc pc is left unimplemented
    assert_eq!(lift_bytes(&[0x00, 0x10], 0, &[]), vec![Stmt::Unimplemented]);
    // swpb r5
    assert_eq!(
        lift_bytes(&[0x85, 0x10], 0, &[]),
        vec![Stmt::SetReg(2, 5, bin(BinaryOp::RotateLeft, 2, reg(2, 5), Expr::Const(2, 8), FlagWrite::NoFlags), FlagWrite::NoFlags)]
    );
    // push r5
    assert_eq!(lift_bytes(&[0x05, 0x12], 0, &[]), vec![Stmt::Push(2, reg(2, 5))]);
}

#[test]
fn address_instruction_statements() {
    // mova #0x12345, r15
    assert_eq!(
        lift_bytes(&[0x01, 0x18, 0x2F, 0x00, 0x45, 0x23], 0, &[]),
        vec![Stmt::SetReg(3, 15, Expr::Const(3, 0x12345), FlagWrite::NoFlags)]
    );
    // mova r5, &0x30004
    assert_eq!(
        lift_bytes(&[0x03, 0x18, 0x50, 0x00, 0x04, 0x00], 0, &[]),
        vec![Stmt::Store(3, Expr::ConstPtr(0x30004), reg(3, 5))]
    );
    // suba #0x2000, r15
    assert_eq!(
        lift_bytes(&[0x00, 0x18, 0xBF, 0x00, 0x00, 0x20], 0, &[]),
        vec![Stmt::SetReg(3, 15, bin(BinaryOp::Sub, 3, reg(3, 15), Expr::Const(3, 0x2000), FlagWrite::All), FlagWrite::NoFlags)]
    );
}

#[test]
fn rotations() {
    // rlam.a #2, r15
    assert_eq!(
        lift_bytes(&[0x4f, 0x06], 0, &[]),
        vec![Stmt::SetReg(3, 15, bin(BinaryOp::ShiftLeft, 3, reg(3, 15), Expr::Const(3, 2), FlagWrite::All), FlagWrite::NoFlags)]
    );
    // rlam.w #2, r15
    assert_eq!(
        lift_bytes(&[0x5f, 0x06], 0, &[]),
        vec![Stmt::SetReg(2, 15, bin(BinaryOp::ShiftLeft, 2, reg(2, 15), Expr::Const(2, 2), FlagWrite::All), FlagWrite::NoFlags)]
    );
    // rram.a #2, r14 then V cleared
    assert_eq!(
        lift_bytes(&[0x4e, 0x05], 0, &[]),
        vec![
            Stmt::SetReg(3, 14, bin(BinaryOp::ShiftRightArithmetic, 3, reg(3, 14), Expr::Const(3, 2), FlagWrite::Cnz), FlagWrite::NoFlags),
            Stmt::SetFlag(Flag::V, Expr::Const(0, 0)),
        ]
    );
}

#[test]
fn decoded_popm_restores_decoded_pushm() {
    // the GCC pair PUSHM.A #4, r15 and POPM.A #4, r15 saves and restores r12 to r15
    let push = lift_bytes(&[0x3f, 0x14], 0, &[]);
    assert_eq!(
        push,
        vec![
            Stmt::Push(3, reg(3, 15)),
            Stmt::Push(3, reg(3, 14)),
            Stmt::Push(3, reg(3, 13)),
            Stmt::Push(3, reg(3, 12)),
        ]
    );
    let pop = lift_bytes(&[0x3c, 0x16], 0, &[]);
    assert_eq!(
        pop,
        vec![
            Stmt::SetReg(3, 12, Expr::Pop(3), FlagWrite::NoFlags),
            Stmt::SetReg(3, 13, Expr::Pop(3), FlagWrite::NoFlags),
            Stmt::SetReg(3, 14, Expr::Pop(3), FlagWrite::NoFlags),
            Stmt::SetReg(3, 15, Expr::Pop(3), FlagWrite::NoFlags),
        ]
    );
    // a POPM whose list runs past r15 restores only the registers that exist
    let pop = lift_bytes(&[0x3e, 0x17], 0, &[]);
    assert_eq!(
        pop,
        vec![
            Stmt::SetReg(2, 14, Expr::Pop(2), FlagWrite::NoFlags),
            Stmt::SetReg(2, 15, Expr::Pop(2), FlagWrite::NoFlags),
        ]
    );
}

#[test]
fn pushm_and_popm_mirror_each_other() {
    let push = lift_instruction(&Instruction::Pushm(PushPopMultiple::new("pushm", 4, 15, true)), 0, &[]);
    assert_eq!(
        push,
        vec![
            Stmt::Push(3, reg(3, 15)),
            Stmt::Push(3, reg(3, 14)),
            Stmt::Push(3, reg(3, 13)),
            Stmt::Push(3, reg(3, 12)),
        ]
    );
    let pop = lift_instruction(&Instruction::Popm(PushPopMultiple::new("popm", 4, 15, true)), 0, &[]);
    assert_eq!(
        pop,
        vec![
            Stmt::SetReg(3, 12, Expr::Pop(3), FlagWrite::NoFlags),
            Stmt::SetReg(3, 13, Expr::Pop(3), FlagWrite::NoFlags),
            Stmt::SetReg(3, 14, Expr::Pop(3), FlagWrite::NoFlags),
            Stmt::SetReg(3, 15, Expr::Pop(3), FlagWrite::NoFlags),
        ]
    );
    // registers below r0 wrap past 255 and are left out
    let push = lift_instruction(&Instruction::Pushm(PushPopMultiple::new("pushm", 4, 1, false)), 0, &[]);
    assert_eq!(push, vec![Stmt::Push(2, reg(2, 1)), Stmt::Push(2, reg(2, 0))]);
    let pop = lift_instruction(&Instruction::Popm(PushPopMultiple::new("popm", 4, 1, false)), 0, &[]);
    assert_eq!(
        pop,
        vec![
            Stmt::SetReg(2, 0, Expr::Pop(2), FlagWrite::NoFlags),
            Stmt::SetReg(2, 1, Expr::Pop(2), FlagWrite::NoFlags),
        ]
    );
}

#[test]
fn every_decoded_word_lifts() {
    // every single-word encoding, followed by enough operand words, decodes to an
    // instruction that the lifter accepts
    for w in 0..=0xFFFFu32 {
        let bytes = [(w & 0xFF) as u8, (w >> 8) as u8, 0x02, 0x00, 0x04, 0x00, 0x06, 0x00];
        if let Ok(inst) = decode(&bytes) {
            let _ = lift_instruction(&inst, 0x4400, &[]);
        }
    }
}

fn expr_registers_ok(e: &Expr) -> bool {
    match e {
        Expr::Reg(_, r) => *r < 16,
        Expr::Load(_, a) | Expr::Unary(_, _, a, _) => expr_registers_ok(a),
        Expr::Binary(_, _, a, b, _) => expr_registers_ok(a) && expr_registers_ok(b),
        Expr::Carry(_, _, a, b, c, _) => {
            expr_registers_ok(a) && expr_registers_ok(b) && expr_registers_ok(c)
        }
        _ => true,
    }
}

fn stmt_registers_ok(s: &Stmt) -> bool {
    match s {
        Stmt::SetReg(_, r, e, _) => *r < 16 && expr_registers_ok(e),
        Stmt::Store(_, a, v) => expr_registers_ok(a) && expr_registers_ok(v),
        Stmt::Push(_, e) | Stmt::Call(e) | Stmt::Ret(e) | Stmt::Jump(e) | Stmt::Eval(e)
        | Stmt::SetFlag(_, e) | Stmt::If(e, _, _) => expr_registers_ok(e),
        _ => true,
    }
}

fn target_ok(l: &Label, stmts: &[Stmt], labels: &[u64]) -> bool {
    match l {
        Label::At(a) => labels.contains(a),
        Label::Fresh(_) => stmts.contains(&Stmt::MarkLabel(*l)),
    }
}

#[test]
fn lifted_statements_are_well_formed() {
    let label_sets: [&[u64]; 3] = [&[], &[0x4400, 0x4402], &[0x4402]];
    for w in 0..=0xFFFFu32 {
        let bytes = [(w & 0xFF) as u8, (w >> 8) as u8, 0x00, 0x44, 0x02, 0x44, 0x06, 0x00];
        if let Ok(inst) = decode(&bytes) {
            for labels in label_sets.iter() {
                let stmts = lift_instruction(&inst, 0x4400, labels);
                for s in stmts.iter() {
                    assert!(stmt_registers_ok(s), "{:?} lifts to {:?}", inst, s);
                    match s {
                        Stmt::If(_, t, f) => {
                            assert!(target_ok(t, &stmts, labels));
                            assert!(target_ok(f, &stmts, labels));
                        }
                        Stmt::Goto(l) => assert!(target_ok(l, &stmts, labels)),
                        _ => {}
                    }
                }
            }
        }
    }
}
