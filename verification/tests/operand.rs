use msp430_asm_extended::decode_error::DecodeError;
use msp430_asm_extended::extension_word::ExtensionWord;
use msp430_asm_extended::operand::{parse_destination, parse_source, Operand, OperandWidth};

#[test]
fn parse_register_direct() {
    let data: [u8; 0] = [];
    let result = parse_source(15, 0, &data, None);
    assert_eq!(result, Ok((Operand::RegisterDirect(15), &[][..])));
}

#[test]
fn parse_immediate_16bit() {
    let data = [0x34, 0x12]; // 0x1234
    let result = parse_source(0, 3, &data, None);
    assert_eq!(result, Ok((Operand::Immediate(0x1234), &[][..])));
}

#[test]
fn parse_constant_generator() {
    // CG (R3) with As=11 = constant 0
    let data: [u8; 0] = [];
    let result = parse_source(3, 3, &data, None);
    assert_eq!(result, Ok((Operand::Constant(0), &[][..])));

    // SR (R2) with As=10 = constant 4
    let result = parse_source(2, 2, &data, None);
    assert_eq!(result, Ok((Operand::Constant(4), &[][..])));
}

#[test]
fn parse_source_indexed_forms() {
    let data = [0xFE, 0xFF, 0x99]; // offset -2, then one more byte
    assert_eq!(parse_source(0, 1, &data, None), Ok((Operand::Symbolic(-2), &[0x99][..])));
    assert_eq!(parse_source(2, 1, &data, None), Ok((Operand::Absolute(0xFFFE), &[0x99][..])));
    assert_eq!(parse_source(5, 1, &data, None), Ok((Operand::Indexed((5, -2)), &[0x99][..])));
    assert_eq!(parse_source(5, 1, &data[..1], None), Err(DecodeError::MissingOperand));
}

#[test]
fn parse_source_with_extension() {
    let (ext, _) = ExtensionWord::parse(&[0x80, 0x19]).unwrap(); // source extension 3
    let data = [0x34, 0x12];
    assert_eq!(parse_source(0, 1, &data, Some(&ext)), Ok((Operand::Immediate20(0x31234), &[][..])));
    assert_eq!(parse_source(2, 1, &data, Some(&ext)), Ok((Operand::Absolute20(0x31234), &[][..])));
    assert_eq!(
        parse_source(7, 1, &data, Some(&ext)),
        Ok((Operand::Indexed20((7, 0x31234)), &[][..]))
    );
    assert_eq!(parse_source(0, 3, &data, Some(&ext)), Ok((Operand::Immediate20(0x31234), &[][..])));
}

#[test]
fn parse_source_indirect_forms() {
    let data = [0x11, 0x22];
    assert_eq!(parse_source(3, 2, &data, None), Ok((Operand::Constant(2), &data[..])));
    assert_eq!(parse_source(9, 2, &data, None), Ok((Operand::RegisterIndirect(9), &data[..])));
    assert_eq!(parse_source(2, 3, &data, None), Ok((Operand::Constant(8), &data[..])));
    assert_eq!(
        parse_source(1, 3, &data, None),
        Ok((Operand::RegisterIndirectAutoIncrement(1), &data[..]))
    );
    assert_eq!(parse_source(0, 3, &data[..1], None), Err(DecodeError::MissingOperand));
    assert_eq!(parse_source(4, 4, &data, None), Err(DecodeError::InvalidAddressingMode));
}

#[test]
fn parse_destination_forms() {
    let data = [0x00, 0x02];
    assert_eq!(parse_destination(6, 0, &[], None), Ok(Operand::RegisterDirect(6)));
    assert_eq!(parse_destination(0, 1, &data, None), Ok(Operand::Symbolic(0x200)));
    assert_eq!(parse_destination(2, 1, &data, None), Ok(Operand::Absolute(0x200)));
    assert_eq!(parse_destination(6, 1, &data, None), Ok(Operand::Indexed((6, 0x200))));
    assert_eq!(parse_destination(6, 1, &data[..1], None), Err(DecodeError::MissingOperand));
    assert_eq!(parse_destination(6, 2, &data, None), Err(DecodeError::InvalidAddressingMode));
    let (ext, _) = ExtensionWord::parse(&[0x0A, 0x18]).unwrap(); // destination extension 0xA
    assert_eq!(parse_destination(0, 1, &data, Some(&ext)), Ok(Operand::Symbolic20(0xA0200)));
    assert_eq!(parse_destination(2, 1, &data, Some(&ext)), Ok(Operand::Absolute20(0xA0200)));
    assert_eq!(parse_destination(4, 1, &data, Some(&ext)), Ok(Operand::Indexed20((4, 0xA0200))));
}

#[test]
fn operand_sizes() {
    assert_eq!(Operand::RegisterDirect(4).size(), 0);
    assert_eq!(Operand::RegisterIndirect(4).size(), 0);
    assert_eq!(Operand::RegisterIndirectAutoIncrement(4).size(), 0);
    assert_eq!(Operand::Constant(-1).size(), 0);
    assert_eq!(Operand::Indexed((4, 2)).size(), 2);
    assert_eq!(Operand::Indexed20((4, 2)).size(), 2);
    assert_eq!(Operand::Symbolic(2).size(), 2);
    assert_eq!(Operand::Symbolic20(2).size(), 2);
    assert_eq!(Operand::Immediate(2).size(), 2);
    assert_eq!(Operand::Immediate20(2).size(), 2);
    assert_eq!(Operand::Absolute(2).size(), 2);
    assert_eq!(Operand::Absolute20(2).size(), 2);
}

#[test]
fn consumed_bytes_match_operand_size() {
    let data = [1, 2, 3, 4, 5];
    for register in 0..16u8 {
        for mode in 0..4u16 {
            if let Ok((op, rest)) = parse_source(register, mode, &data, None) {
                assert_eq!(data.len() - rest.len(), op.size());
            }
        }
    }
}

#[test]
fn operand_width_codes() {
    assert_eq!(OperandWidth::from(0u8), OperandWidth::Word);
    assert_eq!(OperandWidth::from(1u8), OperandWidth::Byte);
    assert_eq!(OperandWidth::from(2u8), OperandWidth::Address);
    assert_eq!(OperandWidth::from(7u8), OperandWidth::Word);
    assert_eq!(OperandWidth::Byte.to_string(), ".b");
    assert_eq!(OperandWidth::Word.to_string(), ".w");
    assert_eq!(OperandWidth::Address.to_string(), ".a");
}

#[test]
fn operand_text() {
    assert_eq!(Operand::RegisterDirect(15).to_string(), "r15");
    assert_eq!(Operand::Indexed((5, -4)).to_string(), "-4(r5)");
    assert_eq!(Operand::Indexed20((5, 0x10004)).to_string(), "0x10004(r5)");
    assert_eq!(Operand::Indexed20((5, -1)).to_string(), "0xffffffff(r5)");
    assert_eq!(Operand::RegisterIndirect(7).to_string(), "@r7");
    assert_eq!(Operand::RegisterIndirectAutoIncrement(1).to_string(), "@r1+");
    assert_eq!(Operand::Symbolic(-32768).to_string(), "-32768");
    assert_eq!(Operand::Symbolic20(0xABCDE).to_string(), "0xabcde");
    assert_eq!(Operand::Immediate(0).to_string(), "#0x0");
    assert_eq!(Operand::Immediate20(0x12345).to_string(), "#0x12345");
    assert_eq!(Operand::Absolute(0x200).to_string(), "&0x200");
    assert_eq!(Operand::Absolute20(0x10000).to_string(), "&0x10000");
    assert_eq!(Operand::Constant(-1).to_string(), "#-1");
    assert_eq!(Operand::Constant(8).to_string(), "#8");
}
