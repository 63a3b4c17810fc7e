use msp430_asm_extended::decode;
use msp430_asm_extended::decode_error::DecodeError;
use msp430_asm_extended::instruction::Instruction;
use msp430_asm_extended::jxx::Jxx;
use msp430_asm_extended::msp430x_instructions::Reta;
use msp430_asm_extended::operand::Operand;

#[test]
fn base_msp430_jmp() {
    let data = [0x00, 0x3c];
    let inst = decode(&data);
    assert_eq!(inst, Ok(Instruction::Jmp(Jxx::new("jmp", 0))));
}

#[test]
fn base_msp430_mov() {
    let data = [0x4f, 0x4f]; // mov.w r15, r15
    let inst = decode(&data);
    assert!(inst.is_ok());
}

#[test]
fn msp430x_reta() {
    let data = [0x10, 0x01]; // RETA opcode
    let inst = decode(&data);
    assert_eq!(inst, Ok(Instruction::Reta(Reta::new())));
}

#[test]
fn empty_data() {
    let data: [u8; 0] = [];
    assert_eq!(decode(&data), Err(DecodeError::MissingInstruction));
}

#[test]
fn base_msp430_add() {
    let data = [0x0E, 0x5F]; // add.w r14, r15
    let inst = decode(&data);
    assert!(inst.is_ok());
}

#[test]
fn base_msp430_sub() {
    let data = [0x0E, 0x8F]; // sub.w r14, r15
    let inst = decode(&data);
    assert!(inst.is_ok());
}

#[test]
fn base_msp430_cmp() {
    let data = [0x0E, 0x9F]; // cmp.w r14, r15
    let inst = decode(&data);
    assert!(inst.is_ok());
}

#[test]
fn decode_instruction_sizes() {
    // JMP is 2 bytes
    let data = [0x00, 0x3c];
    if let Ok(inst) = decode(&data) {
        assert_eq!(inst.size(), 2);
    }

    // RETA is 2 bytes
    let data = [0x10, 0x01];
    if let Ok(inst) = decode(&data) {
        assert_eq!(inst.size(), 2);
    }
}

#[test]
fn gcc_real_reta() {
    // RETA - from test_simple.elf at 0x4416
    let data = [0x10, 0x01];
    let inst = decode(&data);
    assert_eq!(inst, Ok(Instruction::Reta(Reta::new())));
}

#[test]
fn gcc_real_pushm_address_mode() {
    // PUSHM.A #4, r15 - from test_simple.elf at 0x4424
    let data = [0x3f, 0x14];
    let inst = decode(&data);
    assert!(inst.is_ok(), "Failed to decode PUSHM.A");
    if let Ok(inst) = inst {
        assert_eq!(inst.size(), 2);
    }
}

#[test]
fn gcc_real_popm_address_mode() {
    // POPM.A #4, r15 - from test_simple.elf at 0x442e
    let data = [0x3c, 0x16];
    let inst = decode(&data);
    assert!(inst.is_ok(), "Failed to decode POPM.A");
    if let Ok(inst) = inst {
        assert_eq!(inst.size(), 2);
    }
}

#[test]
fn gcc_real_rlam_address_mode() {
    // RLAM.A #2, r15 - from test_simple.elf at 0x4434
    let data = [0x4f, 0x06];
    let inst = decode(&data);
    assert!(inst.is_ok(), "Failed to decode RLAM.A");
    if let Ok(inst) = inst {
        assert_eq!(inst.size(), 2);
    }
}

#[test]
fn gcc_real_rram_address_mode() {
    // RRAM.A #2, r14 - from test_simple.elf at 0x4436
    let data = [0x4e, 0x05];
    let inst = decode(&data);
    assert!(inst.is_ok(), "Failed to decode RRAM.A");
    if let Ok(inst) = inst {
        assert_eq!(inst.size(), 2);
    }
}

#[test]
fn mova_immediate20_to_register() {
    // MOVA #0x12345, r15
    let data = [0x01, 0x18, 0x2F, 0x00, 0x45, 0x23];
    let inst = decode(&data);
    assert!(inst.is_ok(), "Failed to decode MOVA #imm20, Rd");
    if let Ok(Instruction::Mova(mova)) = inst {
        assert_eq!(mova.size(), 4);
        assert_eq!(*mova.source(), Operand::Immediate20(0x12345));
        assert_eq!(*mova.destination(), Operand::RegisterDirect(15));
    } else {
        panic!("Expected MOVA instruction");
    }
}

#[test]
fn mova_absolute20_to_register() {
    // MOVA &0x10000, r14
    let data = [0x01, 0x18, 0x3E, 0x00, 0x00, 0x00];
    let inst = decode(&data);
    assert!(inst.is_ok(), "Failed to decode MOVA &abs20, Rd");
    if let Ok(Instruction::Mova(mova)) = inst {
        assert_eq!(mova.size(), 4);
        assert_eq!(*mova.source(), Operand::Absolute20(0x10000));
        assert_eq!(*mova.destination(), Operand::RegisterDirect(14));
    } else {
        panic!("Expected MOVA instruction");
    }
}

#[test]
fn mova_register_to_register() {
    // MOVA r6, r15
    let data = [0x00, 0x18, 0x6F, 0x00];
    let inst = decode(&data);
    assert!(inst.is_ok(), "Failed to decode MOVA Rs, Rd");
    if let Ok(Instruction::Mova(mova)) = inst {
        assert_eq!(mova.size(), 2);
        assert_eq!(*mova.source(), Operand::RegisterDirect(6));
        assert_eq!(*mova.destination(), Operand::RegisterDirect(15));
    } else {
        panic!("Expected MOVA instruction");
    }
}

#[test]
fn cmpa_immediate20() {
    // CMPA #0x12345, r15
    let data = [0x01, 0x18, 0x9F, 0x00, 0x45, 0x23];
    let inst = decode(&data);
    assert!(inst.is_ok(), "Failed to decode CMPA #imm20, Rd");
    if let Ok(Instruction::Cmpa(cmpa)) = inst {
        assert_eq!(cmpa.size(), 4);
        assert_eq!(*cmpa.source(), Operand::Immediate20(0x12345));
        assert_eq!(*cmpa.destination(), Operand::RegisterDirect(15));
    } else {
        panic!("Expected CMPA instruction");
    }
}

#[test]
fn adda_immediate20() {
    // ADDA #0x1000, r15
    let data = [0x00, 0x18, 0xAF, 0x00, 0x00, 0x10];
    let inst = decode(&data);
    assert!(inst.is_ok(), "Failed to decode ADDA #imm20, Rd");
    if let Ok(Instruction::Adda(adda)) = inst {
        assert_eq!(adda.size(), 4);
        assert_eq!(*adda.source(), Operand::Immediate20(0x1000));
        assert_eq!(*adda.destination(), Operand::RegisterDirect(15));
    } else {
        panic!("Expected ADDA instruction");
    }
}

#[test]
fn suba_immediate20() {
    // SUBA #0x2000, r15
    let data = [0x00, 0x18, 0xBF, 0x00, 0x00, 0x20];
    let inst = decode(&data);
    assert!(inst.is_ok(), "Failed to decode SUBA #imm20, Rd");
    if let Ok(Instruction::Suba(suba)) = inst {
        assert_eq!(suba.size(), 4);
        assert_eq!(*suba.source(), Operand::Immediate20(0x2000));
        assert_eq!(*suba.destination(), Operand::RegisterDirect(15));
    } else {
        panic!("Expected SUBA instruction");
    }
}

#[test]
fn calla_register() {
    // CALLA r15
    let data = [0x00, 0x18, 0x4F, 0x13];
    let inst = decode(&data);
    assert!(inst.is_ok(), "Failed to decode CALLA Rs");
    if let Ok(Instruction::Calla(calla)) = inst {
        assert_eq!(calla.size(), 2);
        assert_eq!(*calla.destination(), Operand::RegisterDirect(15));
    } else {
        panic!("Expected CALLA instruction");
    }
}

#[test]
fn calla_absolute20() {
    // CALLA &0x10000
    let data = [0x01, 0x18, 0x80, 0x13, 0x00, 0x00];
    let inst = decode(&data);
    assert!(inst.is_ok(), "Failed to decode CALLA &abs20");
    if let Ok(Instruction::Calla(calla)) = inst {
        assert_eq!(calla.size(), 4);
        assert_eq!(*calla.destination(), Operand::Absolute20(0x10000));
    } else {
        panic!("Expected CALLA instruction");
    }
}

#[test]
fn calla_immediate20() {
    // CALLA #0x12345
    let data = [0x01, 0x18, 0xB0, 0x13, 0x45, 0x23];
    let inst = decode(&data);
    assert!(inst.is_ok(), "Failed to decode CALLA #imm20");
    if let Ok(Instruction::Calla(calla)) = inst {
        assert_eq!(calla.size(), 4);
        assert_eq!(*calla.destination(), Operand::Immediate20(0x12345));
    } else {
        panic!("Expected CALLA instruction");
    }
}

#[test]
fn bra_register() {
    // BRA r15
    let data = [0x00, 0x18, 0xCF, 0x00];
    let inst = decode(&data);
    assert!(inst.is_ok(), "Failed to decode BRA Rs");
    if let Ok(Instruction::Bra(bra)) = inst {
        assert_eq!(bra.size(), 2);
        assert_eq!(*bra.destination(), Operand::RegisterDirect(15));
    } else {
        panic!("Expected BRA instruction");
    }
}

#[test]
fn bra_absolute20() {
    // BRA &0x10000
    let data = [0x01, 0x18, 0xC0, 0x00, 0x00, 0x00];
    let inst = decode(&data);
    assert!(inst.is_ok(), "Failed to decode BRA &abs20");
    if let Ok(Instruction::Bra(bra)) = inst {
        assert_eq!(bra.size(), 4);
        assert_eq!(*bra.destination(), Operand::Absolute20(0x10000));
    } else {
        panic!("Expected BRA instruction");
    }
}
