use msp430_asm_extended::decode_error::DecodeError;
use msp430_asm_extended::extension_word::ExtensionWord;

#[test]
fn parse_valid_extension_word() {
    let data = [0x00, 0x18]; // 0x1800
    let result = ExtensionWord::parse(&data);
    assert!(result.is_ok());
    let (ext, remaining) = result.unwrap();
    assert_eq!(ext.raw(), 0x1800);
    assert_eq!(remaining.len(), 0);
}

#[test]
fn parse_invalid_extension_word() {
    let data = [0x00, 0x10]; // 0x1000 - not in extension range
    let result = ExtensionWord::parse(&data);
    assert_eq!(result, Err(DecodeError::InvalidExtensionWord));
}

#[test]
fn extension_bits() {
    let data = [0x8F, 0x18]; // 0x188F
    let (ext, _) = ExtensionWord::parse(&data).unwrap();

    // Source extension: bits 7-10 shifted right by 7
    // 0x188F & 0x0780 = 0x0080 >> 7 = 1
    assert_eq!(ext.source_extension(), 1);

    // Dest extension: bits 0-3
    // 0x188F & 0x000F = 0x000F = 15
    assert_eq!(ext.dest_extension(), 15);
}

#[test]
fn extend_values() {
    let data = [0x45, 0x19]; // 0x1945
    let (ext, _) = ExtensionWord::parse(&data).unwrap();

    // Extend 0x1234 to 20 bits
    let extended = ext.extend_source(0x1234);
    // Source extension bits should affect upper nibble
    assert_eq!(extended & 0xFFFFF, (ext.source_extension() as u32) << 16 | 0x1234);
}

#[test]
fn parse_short_extension_word() {
    assert_eq!(ExtensionWord::parse(&[0x00]), Err(DecodeError::MissingOperand));
    assert_eq!(ExtensionWord::parse(&[]), Err(DecodeError::MissingOperand));
}

#[test]
fn parse_keeps_following_bytes() {
    let data = [0xFF, 0x1F, 0xAA, 0xBB];
    let (ext, rest) = ExtensionWord::parse(&data).unwrap();
    assert_eq!(ext.raw(), 0x1FFF);
    assert_eq!(rest, &[0xAA, 0xBB][..]);
    // 0x17FF and 0x2000 lie just outside the extension range
    assert_eq!(ExtensionWord::parse(&[0xFF, 0x17]), Err(DecodeError::InvalidExtensionWord));
    assert_eq!(ExtensionWord::parse(&[0x00, 0x20]), Err(DecodeError::InvalidExtensionWord));
}

#[test]
fn extension_fields_of_every_bit() {
    // 0x1FFF: all field bits set
    let (ext, _) = ExtensionWord::parse(&[0xFF, 0x1F]).unwrap();
    assert_eq!(ext.source_extension(), 15);
    assert_eq!(ext.dest_extension(), 15);
    assert!(ext.source_is_address());
    assert!(ext.zero_carry());
    assert_eq!(ext.repeat_count(), 16);
    assert_eq!(ext.extend_source(0xFFFF), 0xFFFFF);
    assert_eq!(ext.extend_dest(0x0001), 0xF0001);

    // 0x1800: no field bit set
    let (ext, _) = ExtensionWord::parse(&[0x00, 0x18]).unwrap();
    assert_eq!(ext.source_extension(), 0);
    assert_eq!(ext.dest_extension(), 0);
    assert!(!ext.source_is_address());
    assert!(!ext.zero_carry());
    assert_eq!(ext.repeat_count(), 1);
    assert_eq!(ext.extend_source(0x1234), 0x1234);
    assert_eq!(ext.extend_dest(0xABCD), 0xABCD);
}

#[test]
fn extension_source_bits_seven_to_ten() {
    // 0x1B80: bits 7, 8, 9 set; bit 10 clear -> source extension 7
    let (ext, _) = ExtensionWord::parse(&[0x80, 0x1B]).unwrap();
    assert_eq!(ext.source_extension(), 7);
    assert_eq!(ext.extend_source(0x0002), 0x70002);
    // 0x1A05: A/L (bit 6) clear, ZC (bit 8) clear, bit 9 set
    let (ext, _) = ExtensionWord::parse(&[0x05, 0x1A]).unwrap();
    assert_eq!(ext.source_extension(), 4);
    assert_eq!(ext.dest_extension(), 5);
    assert_eq!(ext.repeat_count(), 6);
    assert!(!ext.zero_carry());
    // 0x1940: A/L set, ZC set
    let (ext, _) = ExtensionWord::parse(&[0x40, 0x19]).unwrap();
    assert!(ext.source_is_address());
    assert!(ext.zero_carry());
}
