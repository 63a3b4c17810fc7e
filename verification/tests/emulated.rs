use msp430_asm_extended::decode;
use msp430_asm_extended::decode_error::DecodeError;
use msp430_asm_extended::instruction::Instruction;
use msp430_asm_extended::operand::{Operand, OperandWidth};

fn word_bytes(words: &[u16]) -> Vec<u8> {
    let mut v = Vec::new();
    for w in words {
        v.push((*w & 0xFF) as u8);
        v.push((*w >> 8) as u8);
    }
    v
}

fn decode_words(words: &[u16]) -> Result<Instruction, DecodeError> {
    decode(&word_bytes(words))
}

#[test]
fn mov_forms() {
    // mov @sp+, pc
    match decode_words(&[0x4130]).unwrap() {
        Instruction::Ret(e) => {
            assert_eq!(e.mnemonic(), "ret");
            assert_eq!(e.destination(), None);
            assert_eq!(e.operand_width(), None);
            assert_eq!(e.size(), 2);
        }
        other => panic!("expected ret, got {:?}", other),
    }
    // mov @sp+, r5
    match decode_words(&[0x4135]).unwrap() {
        Instruction::Pop(e) => {
            assert_eq!(e.destination(), Some(Operand::RegisterDirect(5)));
            assert_eq!(e.operand_width(), Some(OperandWidth::Word));
        }
        other => panic!("expected pop, got {:?}", other),
    }
    // mov r6, pc
    match decode_words(&[0x4600]).unwrap() {
        Instruction::Br(e) => assert_eq!(e.destination(), Some(Operand::RegisterDirect(6))),
        other => panic!("expected br, got {:?}", other),
    }
    // mov #0x4400, pc
    match decode_words(&[0x4030, 0x4400]).unwrap() {
        Instruction::Br(e) => {
            assert_eq!(e.destination(), Some(Operand::Immediate(0x4400)));
            assert_eq!(e.size(), 4);
        }
        other => panic!("expected br, got {:?}", other),
    }
    // mov #0, r3
    assert!(matches!(decode_words(&[0x4333]).unwrap(), Instruction::Nop(_)));
    // mov #0, r4
    match decode_words(&[0x4334]).unwrap() {
        Instruction::Clr(e) => assert_eq!(e.destination(), Some(Operand::RegisterDirect(4))),
        other => panic!("expected clr, got {:?}", other),
    }
    // mov r5, r6 stays a mov
    match decode_words(&[0x4506]).unwrap() {
        Instruction::Mov(m) => {
            assert_eq!(*m.source(), Operand::RegisterDirect(5));
            assert_eq!(*m.destination(), Operand::RegisterDirect(6));
            assert_eq!(m.operand_width(), OperandWidth::Word);
        }
        other => panic!("expected mov, got {:?}", other),
    }
}

#[test]
fn arithmetic_forms() {
    match decode_words(&[0x5035, 0x0001]).unwrap() {
        Instruction::Inc(e) => {
            assert_eq!(e.destination(), Some(Operand::RegisterDirect(5)));
            assert_eq!(e.size(), 4);
        }
        other => panic!("expected inc, got {:?}", other),
    }
    assert!(matches!(decode_words(&[0x5325]).unwrap(), Instruction::Incd(_)));
    assert!(matches!(decode_words(&[0x5505]).unwrap(), Instruction::Rla(_)));
    assert!(matches!(decode_words(&[0x6335]).unwrap(), Instruction::Adc(_)));
    assert!(matches!(decode_words(&[0x6505]).unwrap(), Instruction::Rlc(_)));
    assert!(matches!(decode_words(&[0x7335]).unwrap(), Instruction::Sbc(_)));
    assert!(matches!(decode_words(&[0x8035, 0x0001]).unwrap(), Instruction::Dec(_)));
    assert!(matches!(decode_words(&[0x8325]).unwrap(), Instruction::Decd(_)));
    assert!(matches!(decode_words(&[0x9335]).unwrap(), Instruction::Tst(_)));
    assert!(matches!(decode_words(&[0xA335]).unwrap(), Instruction::Dadc(_)));
    assert!(matches!(decode_words(&[0xE035, 0xFFFF]).unwrap(), Instruction::Inv(_)));
    // add r6, r5 is no rla
    assert!(matches!(decode_words(&[0x5605]).unwrap(), Instruction::Add(_)));
    assert!(matches!(decode_words(&[0x7505]).unwrap(), Instruction::Subc(_)));
    assert!(matches!(decode_words(&[0x8505]).unwrap(), Instruction::Sub(_)));
    assert!(matches!(decode_words(&[0x9505]).unwrap(), Instruction::Cmp(_)));
    assert!(matches!(decode_words(&[0xA505]).unwrap(), Instruction::Dadd(_)));
    assert!(matches!(decode_words(&[0xE505]).unwrap(), Instruction::Xor(_)));
}

#[test]
fn status_bit_forms() {
    assert!(matches!(decode_words(&[0xC032, 0x0001]).unwrap(), Instruction::Clrc(_)));
    assert!(matches!(decode_words(&[0xC322]).unwrap(), Instruction::Clrz(_)));
    assert!(matches!(decode_words(&[0xC222]).unwrap(), Instruction::Clrn(_)));
    assert!(matches!(decode_words(&[0xC232]).unwrap(), Instruction::Dint(_)));
    assert!(matches!(decode_words(&[0xD032, 0x0001]).unwrap(), Instruction::Setc(_)));
    assert!(matches!(decode_words(&[0xD322]).unwrap(), Instruction::Setz(_)));
    assert!(matches!(decode_words(&[0xD222]).unwrap(), Instruction::Setn(_)));
    assert!(matches!(decode_words(&[0xD232]).unwrap(), Instruction::Eint(_)));
    // bic #4, r5 touches no status bit
    assert!(matches!(decode_words(&[0xC225]).unwrap(), Instruction::Bic(_)));
    assert!(matches!(decode_words(&[0xD225]).unwrap(), Instruction::Bis(_)));
}

#[test]
fn bit_and_and_are_never_emulated() {
    assert!(matches!(decode_words(&[0xB335]).unwrap(), Instruction::Bit(_)));
    assert!(matches!(decode_words(&[0xF335]).unwrap(), Instruction::And(_)));
}
