use msp430_asm_extended::decode;
use msp430_asm_extended::decode_error::DecodeError;
use msp430_asm_extended::instruction::Instruction;
use msp430_asm_extended::jxx::{jxx_fix_offset, Jxx};
use msp430_asm_extended::msp430x_instructions::{
    AddressInstruction, Bra, PushPopMultiple, RotateMultiple,
};
use msp430_asm_extended::operand::{Operand, OperandWidth};
use msp430_asm_extended::single_operand::Reti;

fn word_bytes(words: &[u16]) -> Vec<u8> {
    let mut v = Vec::new();
    for w in words {
        v.push((*w & 0xFF) as u8);
        v.push((*w >> 8) as u8);
    }
    v
}

#[test]
fn single_operand_forms() {
    match decode(&word_bytes(&[0x1005])).unwrap() {
        Instruction::Rrc(i) => {
            assert_eq!(i.mnemonic(), "rrc");
            assert_eq!(*i.source(), Operand::RegisterDirect(5));
            assert_eq!(i.operand_width(), Some(OperandWidth::Word));
            assert_eq!(i.size(), 2);
        }
        other => panic!("expected rrc, got {:?}", other),
    }
    assert!(matches!(decode(&word_bytes(&[0x1085])).unwrap(), Instruction::Swpb(_)));
    match decode(&word_bytes(&[0x1145])).unwrap() {
        Instruction::Rra(i) => assert_eq!(i.operand_width(), Some(OperandWidth::Byte)),
        other => panic!("expected rra, got {:?}", other),
    }
    assert!(matches!(decode(&word_bytes(&[0x1185])).unwrap(), Instruction::Sxt(_)));
    assert!(matches!(decode(&word_bytes(&[0x1205])).unwrap(), Instruction::Push(_)));
    match decode(&word_bytes(&[0x12B0, 0x4400])).unwrap() {
        Instruction::Call(i) => {
            assert_eq!(*i.source(), Operand::Immediate(0x4400));
            assert_eq!(i.operand_width(), None);
            assert_eq!(i.size(), 4);
        }
        other => panic!("expected call, got {:?}", other),
    }
    assert_eq!(decode(&word_bytes(&[0x1300])), Ok(Instruction::Reti(Reti::new())));
    assert_eq!(decode(&word_bytes(&[0x1380])), Err(DecodeError::InvalidOpcode(7)));
}

#[test]
fn single_operand_missing_data() {
    // rrc 2(r5) with no offset word
    assert_eq!(decode(&word_bytes(&[0x1015])), Err(DecodeError::MissingOperand));
}

#[test]
fn jumps() {
    assert_eq!(decode(&word_bytes(&[0x23FF])), Ok(Instruction::Jnz(Jxx::new("jnz", -1))));
    assert_eq!(decode(&word_bytes(&[0x2401])), Ok(Instruction::Jz(Jxx::new("jz", 1))));
    assert_eq!(decode(&word_bytes(&[0x2A00])), Ok(Instruction::Jlo(Jxx::new("jlo", -512))));
    assert_eq!(decode(&word_bytes(&[0x2DFF])), Ok(Instruction::Jc(Jxx::new("jc", 511))));
    assert_eq!(decode(&word_bytes(&[0x3002])), Ok(Instruction::Jn(Jxx::new("jn", 2))));
    assert_eq!(decode(&word_bytes(&[0x3403])), Ok(Instruction::Jge(Jxx::new("jge", 3))));
    assert_eq!(decode(&word_bytes(&[0x3804])), Ok(Instruction::Jl(Jxx::new("jl", 4))));
    assert_eq!(jxx_fix_offset(0), 0);
    assert_eq!(jxx_fix_offset(511), 511);
    assert_eq!(jxx_fix_offset(512), -512);
    assert_eq!(jxx_fix_offset(1023), -1);
    let j = Jxx::new("jmp", -3);
    assert_eq!(j.offset(), -3);
    assert_eq!(j.mnemonic(), "jmp");
    assert_eq!(j.size(), 2);
}

#[test]
fn two_operand_with_memory_operands() {
    // mov 2(r5), &0x0200
    match decode(&word_bytes(&[0x4592, 0x0002, 0x0200])).unwrap() {
        Instruction::Mov(m) => {
            assert_eq!(*m.source(), Operand::Indexed((5, 2)));
            assert_eq!(*m.destination(), Operand::Absolute(0x0200));
            assert_eq!(m.size(), 6);
        }
        other => panic!("expected mov, got {:?}", other),
    }
    // mov.b r5, r6
    match decode(&word_bytes(&[0x4546])).unwrap() {
        Instruction::Mov(m) => assert_eq!(m.operand_width(), OperandWidth::Byte),
        other => panic!("expected mov, got {:?}", other),
    }
    // add 2(r5), 4(r6) needs both words
    assert_eq!(decode(&word_bytes(&[0x5596, 0x0002])), Err(DecodeError::MissingOperand));
    assert_eq!(decode(&word_bytes(&[0x5596])), Err(DecodeError::MissingOperand));
}

#[test]
fn extension_errors() {
    assert_eq!(decode(&[0x00, 0x18]), Err(DecodeError::MissingInstruction));
    assert_eq!(decode(&[0x00, 0x18, 0x01]), Err(DecodeError::MissingInstruction));
    assert_eq!(decode(&[0x00, 0x18, 0x70, 0x00]), Err(DecodeError::InvalidOpcode(0)));
    assert_eq!(decode(&[0x00, 0x18, 0x90, 0x13]), Err(DecodeError::InvalidOpcode(0x13)));
    assert_eq!(decode(&[0x00, 0x18, 0x00, 0x40]), Err(DecodeError::InvalidOpcode(0x40)));
    assert_eq!(decode(&[0x00, 0x18, 0x2F, 0x00, 0x45]), Err(DecodeError::MissingOperand));
    assert_eq!(decode(&[0x00, 0x18, 0x80, 0x13]), Err(DecodeError::MissingOperand));
    assert_eq!(decode(&[0x05]), Err(DecodeError::MissingInstruction));
}

#[test]
fn mova_remaining_forms() {
    // MOVA r5, &0x30004 (ext 0x1803, then 0x0050, then 0x0004)
    match decode(&[0x03, 0x18, 0x50, 0x00, 0x04, 0x00]).unwrap() {
        Instruction::Mova(m) => {
            assert_eq!(*m.source(), Operand::RegisterDirect(5));
            assert_eq!(*m.destination(), Operand::Absolute20(0x30004));
            assert_eq!(m.size(), 4);
        }
        other => panic!("expected mova, got {:?}", other),
    }
    // MOVA 0x20010(r1), r7
    match decode(&[0x02, 0x18, 0x17, 0x00, 0x10, 0x00]).unwrap() {
        Instruction::Mova(m) => {
            assert_eq!(*m.source(), Operand::Indexed20((1, 0x20010)));
            assert_eq!(*m.destination(), Operand::RegisterDirect(7));
        }
        other => panic!("expected mova, got {:?}", other),
    }
}

#[test]
fn bra_r0_reads_a_following_word() {
    assert_eq!(
        decode(&[0x00, 0x18, 0xC0, 0x00]),
        Ok(Instruction::Bra(Bra::new(Operand::RegisterDirect(0))))
    );
    assert_eq!(
        decode(&[0x00, 0x18, 0xC0, 0x00, 0x34, 0x12]),
        Ok(Instruction::Bra(Bra::new(Operand::Absolute20(0x1234))))
    );
    // any other register ignores the following word
    assert_eq!(
        decode(&[0x00, 0x18, 0xC7, 0x00, 0x34, 0x12]),
        Ok(Instruction::Bra(Bra::new(Operand::RegisterDirect(7))))
    );
}

#[test]
fn msp430x_without_extension() {
    // a set width bit selects the word form
    assert_eq!(
        decode(&word_bytes(&[0x153F])),
        Ok(Instruction::Pushm(PushPopMultiple::new("pushm", 4, 15, false)))
    );
    // POPM names the last register popped: sixteen registers from r0 end at r15
    assert_eq!(
        decode(&word_bytes(&[0x16F0])),
        Ok(Instruction::Popm(PushPopMultiple::new("popm", 16, 15, true)))
    );
    assert_eq!(
        decode(&word_bytes(&[0x04D5])),
        Ok(Instruction::Rrcm(RotateMultiple::new("rrcm", 4, 5, false)))
    );
    assert_eq!(
        decode(&word_bytes(&[0x0705])),
        Ok(Instruction::Rrum(RotateMultiple::new("rrum", 1, 5, true)))
    );
    // the GCC encodings of PUSHM.A #4, r15, POPM.A #4, r15, RLAM.A #2, r15 and
    // RRAM.A #2, r14, in full
    assert_eq!(
        decode(&[0x3f, 0x14]),
        Ok(Instruction::Pushm(PushPopMultiple::new("pushm", 4, 15, true)))
    );
    assert_eq!(
        decode(&[0x3c, 0x16]),
        Ok(Instruction::Popm(PushPopMultiple::new("popm", 4, 15, true)))
    );
    assert_eq!(
        decode(&[0x4f, 0x06]),
        Ok(Instruction::Rlam(RotateMultiple::new("rlam", 2, 15, true)))
    );
    assert_eq!(
        decode(&[0x4e, 0x05]),
        Ok(Instruction::Rram(RotateMultiple::new("rram", 2, 14, true)))
    );
}

#[test]
fn address_instructions_without_extension() {
    // the usage example: MOVA @R0, R0, followed by bytes it does not use
    let inst = decode(&[0x00, 0x00, 0x45, 0x23, 0x01]).unwrap();
    assert_eq!(
        inst,
        Instruction::Mova(AddressInstruction::new(
            "mova",
            Operand::RegisterIndirect(0),
            Operand::RegisterDirect(0)
        ))
    );
    assert_eq!(inst.size(), 2);
    // MOVA @R9+, R12
    assert_eq!(
        decode(&word_bytes(&[0x091C])),
        Ok(Instruction::Mova(AddressInstruction::new(
            "mova",
            Operand::RegisterIndirectAutoIncrement(9),
            Operand::RegisterDirect(12)
        )))
    );
    // MOVA &0x12345, R15
    assert_eq!(
        decode(&word_bytes(&[0x012F, 0x2345])),
        Ok(Instruction::Mova(AddressInstruction::new(
            "mova",
            Operand::Absolute20(0x12345),
            Operand::RegisterDirect(15)
        )))
    );
    // MOVA 4(R10), R11
    assert_eq!(
        decode(&word_bytes(&[0x0A3B, 0x0004])),
        Ok(Instruction::Mova(AddressInstruction::new(
            "mova",
            Operand::Indexed((10, 4)),
            Operand::RegisterDirect(11)
        )))
    );
    // MOVA R12, &0x2ABCD
    assert_eq!(
        decode(&word_bytes(&[0x0C62, 0xABCD])),
        Ok(Instruction::Mova(AddressInstruction::new(
            "mova",
            Operand::RegisterDirect(12),
            Operand::Absolute20(0x2ABCD)
        )))
    );
    // MOVA R12, -2(R1)
    assert_eq!(
        decode(&word_bytes(&[0x0C71, 0xFFFE])),
        Ok(Instruction::Mova(AddressInstruction::new(
            "mova",
            Operand::RegisterDirect(12),
            Operand::Indexed((1, -2))
        )))
    );
    // MOVA #0x14400, R1; CMPA, ADDA, SUBA #0x00010, R4
    assert_eq!(
        decode(&word_bytes(&[0x0181, 0x4400])),
        Ok(Instruction::Mova(AddressInstruction::new(
            "mova",
            Operand::Immediate20(0x14400),
            Operand::RegisterDirect(1)
        )))
    );
    assert_eq!(
        decode(&word_bytes(&[0x0094, 0x0010])),
        Ok(Instruction::Cmpa(AddressInstruction::new(
            "cmpa",
            Operand::Immediate20(0x10),
            Operand::RegisterDirect(4)
        )))
    );
    assert_eq!(
        decode(&word_bytes(&[0x00A4, 0x0010])),
        Ok(Instruction::Adda(AddressInstruction::new(
            "adda",
            Operand::Immediate20(0x10),
            Operand::RegisterDirect(4)
        )))
    );
    assert_eq!(
        decode(&word_bytes(&[0x00B4, 0x0010])),
        Ok(Instruction::Suba(AddressInstruction::new(
            "suba",
            Operand::Immediate20(0x10),
            Operand::RegisterDirect(4)
        )))
    );
    // MOVA, CMPA, ADDA, SUBA R3, R9
    let register_forms = [
        (0x03C9, "mova"),
        (0x03D9, "cmpa"),
        (0x03E9, "adda"),
        (0x03F9, "suba"),
    ];
    for (word, mnemonic) in register_forms {
        let inst = decode(&word_bytes(&[word])).unwrap();
        let expected = AddressInstruction::new(
            mnemonic,
            Operand::RegisterDirect(3),
            Operand::RegisterDirect(9),
        );
        let matches = match inst {
            Instruction::Mova(a) | Instruction::Cmpa(a) | Instruction::Adda(a)
            | Instruction::Suba(a) => a == expected,
            _ => false,
        };
        assert!(matches, "{:#06x}", word);
        assert_eq!(inst.size(), 2);
    }
    // a form with a data word and nothing after it
    assert_eq!(decode(&word_bytes(&[0x012F])), Err(DecodeError::MissingOperand));
    assert_eq!(decode(&[0x81, 0x01, 0x00]), Err(DecodeError::MissingOperand));
    // mode nibbles 4 and 5 below 0x1000 are left to the base decoder: RRC and RRC.B
    assert!(matches!(decode(&word_bytes(&[0x0045])), Ok(Instruction::Rrc(_))));
}

#[test]
fn decoding_ignores_trailing_bytes() {
    let samples: [&[u8]; 6] = [
        &[0x00, 0x3c],
        &[0x01, 0x18, 0x2F, 0x00, 0x45, 0x23],
        &[0x92, 0x45, 0x02, 0x00, 0x00, 0x02],
        &[0x35, 0x50, 0x01, 0x00],
        &[0x3f, 0x14],
        &[0x00, 0x18, 0x4F, 0x13],
    ];
    for s in samples.iter() {
        let inst = decode(s).unwrap();
        assert!(inst.size() <= s.len());
        let mut longer = s.to_vec();
        longer.extend_from_slice(&[0xAB, 0xCD, 0xEF, 0x01]);
        assert_eq!(decode(&longer), Ok(inst));
    }
}

#[test]
fn decoding_only_the_occupied_bytes() {
    let samples: [&[u8]; 5] = [
        &[0x01, 0x18, 0x2F, 0x00, 0x45, 0x23, 0x99],
        &[0x92, 0x45, 0x02, 0x00, 0x00, 0x02, 0x77, 0x66],
        &[0x35, 0x50, 0x01, 0x00, 0x01],
        &[0x00, 0x18, 0x4F, 0x13, 0x00, 0x00],
        &[0x00, 0x18, 0xC0, 0x00, 0x34, 0x12],
    ];
    for s in samples.iter() {
        let inst = decode(s).unwrap();
        let extension = if s[1] & 0xF8 == 0x18 { 2 } else { 0 };
        let occupied = inst.size() + extension;
        assert!(occupied <= s.len());
        assert_eq!(decode(&s[..occupied]), Ok(inst));
    }
}

#[test]
fn reti_still_reads_its_operand_word() {
    // RETI with a symbolic operand field: the word after it is required
    assert_eq!(decode(&[0x10, 0x13, 0x00, 0x00]), Ok(Instruction::Reti(Reti::new())));
    assert_eq!(decode(&[0x10, 0x13]), Err(DecodeError::MissingOperand));
    assert_eq!(Instruction::Reti(Reti::new()).size(), 2);
}
