use msp430_asm_extended::msp430x_instructions::{
    AddressInstruction, Bra, Calla, PushPopMultiple, Reta, RotateMultiple,
};
use msp430_asm_extended::operand::Operand;

#[test]
fn address_instruction_display() {
    let inst = AddressInstruction::new(
        "mova",
        Operand::Immediate20(0x12345),
        Operand::RegisterDirect(15),
    );
    assert_eq!(inst.to_string(), "mova #0x12345, r15");
}

#[test]
fn calla_display() {
    let inst = Calla::new(Operand::Immediate20(0x10000));
    assert_eq!(inst.to_string(), "calla #0x10000");
}

#[test]
fn rotate_multiple_display() {
    let inst = RotateMultiple::new("rlam", 2, 15, true);
    assert_eq!(inst.to_string(), "rlam.a #2, r15");

    let inst = RotateMultiple::new("rram", 3, 14, false);
    assert_eq!(inst.to_string(), "rram.w #3, r14");
}

#[test]
fn pushm_display() {
    let inst = PushPopMultiple::new("pushm", 4, 15, true);
    assert_eq!(inst.to_string(), "pushm.a #4, r15");
}

#[test]
fn popm_display() {
    let inst = PushPopMultiple::new("popm", 3, 10, false);
    assert_eq!(inst.to_string(), "popm.w #3, r10");
}

#[test]
fn bra_display() {
    let inst = Bra::new(Operand::Absolute20(0x10000));
    assert_eq!(inst.to_string(), "bra &0x10000");

    let inst = Bra::new(Operand::RegisterDirect(15));
    assert_eq!(inst.to_string(), "bra r15");
}

#[test]
fn reta_display() {
    let inst = Reta::new();
    assert_eq!(inst.to_string(), "reta");
}

#[test]
fn address_instruction_size() {
    let inst = AddressInstruction::new(
        "mova",
        Operand::RegisterDirect(14),
        Operand::RegisterDirect(15),
    );
    assert_eq!(inst.size(), 2);

    let inst = AddressInstruction::new(
        "mova",
        Operand::Immediate20(0x12345),
        Operand::RegisterDirect(15),
    );
    assert_eq!(inst.size(), 4);
}

#[test]
fn address_instruction_size_memory_destination() {
    // register source, memory destination
    let inst = AddressInstruction::new("mova", Operand::RegisterDirect(5), Operand::Absolute20(0x10000));
    assert_eq!(inst.size(), 4);
    // an immediate destination adds no data word
    let inst = AddressInstruction::new("mova", Operand::Immediate20(1), Operand::Immediate20(2));
    assert_eq!(inst.size(), 4);
    // both operands with data words
    let inst = AddressInstruction::new("mova", Operand::Indexed20((4, 2)), Operand::Symbolic20(6));
    assert_eq!(inst.size(), 6);
    assert_eq!(inst.mnemonic(), "mova");
}

#[test]
fn call_and_branch_sizes() {
    assert_eq!(Calla::new(Operand::RegisterDirect(4)).size(), 2);
    assert_eq!(Calla::new(Operand::RegisterIndirect(4)).size(), 2);
    assert_eq!(Calla::new(Operand::Indexed20((4, 8))).size(), 4);
    assert_eq!(Bra::new(Operand::Immediate20(8)).size(), 4);
    assert_eq!(Bra::new(Operand::Constant(0)).size(), 2);
    assert_eq!(Reta::new().size(), 2);
}

#[test]
fn multiple_register_accessors() {
    let inst = PushPopMultiple::new("pushm", 16, 15, false);
    assert_eq!(inst.mnemonic(), "pushm");
    assert_eq!(inst.count(), 16);
    assert_eq!(inst.register(), 15);
    assert!(!inst.is_address());
    assert_eq!(inst.size(), 2);
    let inst = RotateMultiple::new("rrum", 4, 9, true);
    assert_eq!(inst.mnemonic(), "rrum");
    assert_eq!(inst.count(), 4);
    assert_eq!(inst.register(), 9);
    assert!(inst.is_address());
    assert_eq!(inst.size(), 2);
}
