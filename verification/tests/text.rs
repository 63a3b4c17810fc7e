use msp430_asm_extended::decode;
use msp430_asm_extended::decode_error::DecodeError;

fn text(bytes: &[u8]) -> String {
    decode(bytes).unwrap().to_string()
}

#[test]
fn instruction_text() {
    assert_eq!(text(&[0x10, 0x01]), "reta");
    assert_eq!(text(&[0x3f, 0x14]), "pushm.a #4, r15");
    assert_eq!(text(&[0x3c, 0x16]), "popm.a #4, r15");
    assert_eq!(text(&[0x4e, 0x05]), "rram.a #2, r14");
    assert_eq!(text(&[0x00, 0x00]), "mova @r0, r0");
    assert_eq!(text(&[0x4f, 0x06]), "rlam.a #2, r15");
    assert_eq!(text(&[0x01, 0x18, 0x2F, 0x00, 0x45, 0x23]), "mova #0x12345, r15");
    assert_eq!(text(&[0x01, 0x18, 0xC0, 0x00, 0x00, 0x00]), "bra &0x10000");
    assert_eq!(text(&[0x01, 0x18, 0xB0, 0x13, 0x45, 0x23]), "calla #0x12345");
    assert_eq!(text(&[0x0E, 0x5F]), "add.w r15, r14");
    assert_eq!(text(&[0x92, 0x45, 0x02, 0x00, 0x00, 0x02]), "mov.w 2(r5), &0x200");
    assert_eq!(text(&[0x05, 0x10]), "rrc.w r5");
    assert_eq!(text(&[0x85, 0x10]), "swpb r5");
    assert_eq!(text(&[0x00, 0x13]), "reti");
    assert_eq!(text(&[0xFF, 0x23]), "jnz -1");
    assert_eq!(text(&[0x00, 0x3c]), "jmp 0");
    assert_eq!(text(&[0x30, 0x41]), "ret");
    assert_eq!(text(&[0x35, 0x50, 0x01, 0x00]), "inc.w r5");
    assert_eq!(text(&[0x35, 0x41]), "pop.w r5");
    assert_eq!(text(&[0x00, 0x46]), "br r6");
    assert_eq!(text(&[0x22, 0xD3]), "setz");
}

#[test]
fn error_text() {
    assert_eq!(DecodeError::MissingInstruction.to_string(), "Not enough data for instruction");
    assert_eq!(DecodeError::MissingOperand.to_string(), "Not enough data for operand");
    assert_eq!(DecodeError::InvalidOpcode(0x13).to_string(), "Invalid opcode: 0x13");
    assert_eq!(DecodeError::InvalidJumpCondition(7).to_string(), "Invalid jump condition: 0x7");
    assert_eq!(DecodeError::InvalidAddressingMode.to_string(), "Invalid addressing mode");
    assert_eq!(DecodeError::InvalidExtensionWord.to_string(), "Invalid extension word format");
    assert_eq!(
        DecodeError::InvalidRegisterCount.to_string(),
        "Invalid register count for PUSHM/POPM"
    );
}
