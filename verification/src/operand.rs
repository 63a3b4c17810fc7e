use crate::decode_error::DecodeError;
use crate::extension_word::{le_word, read_le_word, ExtensionWord};
use crate::text::{dec_digits, hex_text, push_char, push_decimal, push_hex, push_signed, signed_text};
use vstd::prelude::*;

verus! {

/// Operand width: Byte (.B), Word (.W), or Address (.A, 20-bit).
#[derive(Debug, Clone, Copy, PartialEq, Eq, Structural)]
pub enum OperandWidth {
    Byte,
    Word,
    Address,
}

/// The width that a width code selects: 0 is a word, 1 a byte, 2 an address, and any
/// other code a word.
pub open spec fn width_from_code(value: u8) -> OperandWidth {
    if value == 1 {
        OperandWidth::Byte
    } else if value == 2 {
        OperandWidth::Address
    } else {
        OperandWidth::Word
    }
}

impl From<u8> for OperandWidth {
    fn from(value: u8) -> (r: Self) {
        match value {
            0 => OperandWidth::Word,
            1 => OperandWidth::Byte,
            2 => OperandWidth::Address,
            _ => OperandWidth::Word,
        }
    }
}

impl vstd::std_specs::convert::FromSpecImpl<u8> for OperandWidth {
    open spec fn obeys_from_spec() -> bool {
        true
    }

    open spec fn from_spec(value: u8) -> Self {
        width_from_code(value)
    }
}

/// The suffix that names a width: `.b`, `.w` or `.a`.
pub open spec fn width_text(w: OperandWidth) -> Seq<char> {
    match w {
        OperandWidth::Byte => seq!['.', 'b'],
        OperandWidth::Word => seq!['.', 'w'],
        OperandWidth::Address => seq!['.', 'a'],
    }
}

/// The suffix of an optional width: none when there is no width.
pub open spec fn optional_width_text(w: Option<OperandWidth>) -> Seq<char> {
    match w {
        Some(w) => width_text(w),
        None => Seq::empty(),
    }
}

/// Appends the suffix of an optional width.
pub fn push_optional_width(s: &mut String, w: Option<OperandWidth>)
    ensures
        final(s)@ == old(s)@ + optional_width_text(w),
{
    match w {
        Some(w) => w.push_text(s),
        None => {
            proof {
                assert(old(s)@ + optional_width_text(w) =~= old(s)@);
            }
        },
    }
}

impl OperandWidth {
    /// Appends the width suffix.
    pub fn push_text(&self, s: &mut String)
        ensures
            final(s)@ == old(s)@ + width_text(*self),
    {
        push_char(s, '.');
        match self {
            OperandWidth::Byte => push_char(s, 'b'),
            OperandWidth::Word => push_char(s, 'w'),
            OperandWidth::Address => push_char(s, 'a'),
        }
        proof {
            assert(final(s)@ =~= old(s)@ + width_text(*self));
        }
    }

    /// The width suffix: `.b`, `.w` or `.a`.
    pub fn to_string(&self) -> (r: String)
        ensures
            r@ == width_text(*self),
    {
        let mut s = String::new();
        self.push_text(&mut s);
        s
    }
}

/// Operand kinds of MSP430 and MSP430X instructions.
#[derive(Debug, Clone, Copy, PartialEq, Eq)]
pub enum Operand {
    /// Register direct: Rn
    RegisterDirect(u8),
    /// Indexed: X(Rn), 16-bit offset
    Indexed((u8, i16)),
    /// Indexed: X(Rn), 20-bit offset (MSP430X)
    Indexed20((u8, i32)),
    /// Register indirect: @Rn
    RegisterIndirect(u8),
    /// Register indirect with auto-increment: @Rn+
    RegisterIndirectAutoIncrement(u8),
    /// Symbolic: ADDR (PC-relative), 16-bit
    Symbolic(i16),
    /// Symbolic: ADDR (PC-relative), 20-bit (MSP430X)
    Symbolic20(i32),
    /// Immediate: #N, 16-bit
    Immediate(u16),
    /// Immediate: #N, 20-bit (MSP430X)
    Immediate20(u32),
    /// Absolute: &ADDR, 16-bit
    Absolute(u16),
    /// Absolute: &ADDR, 20-bit (MSP430X)
    Absolute20(u32),
    /// Constant from the constant generator
    Constant(i8),
}

impl Operand {
    /// Whether the operand is encoded with a data word after the instruction word:
    /// every indexed, symbolic, immediate and absolute operand.
    pub open spec fn has_data_word(&self) -> bool {
        match *self {
            Operand::Indexed(_) | Operand::Indexed20(_) | Operand::Symbolic(_)
            | Operand::Symbolic20(_) | Operand::Immediate(_) | Operand::Immediate20(_)
            | Operand::Absolute(_) | Operand::Absolute20(_) => true,
            _ => false,
        }
    }

    /// Number of bytes of operand data, not counting the instruction word.
    pub open spec fn spec_size(&self) -> nat {
        if self.has_data_word() {
            2
        } else {
            0
        }
    }

    /// Returns the size in bytes of operand data (not including the instruction word).
    pub fn size(&self) -> (r: usize)
        ensures
            r == self.spec_size(),
    {
        match self {
            Operand::RegisterDirect(_)
            | Operand::RegisterIndirect(_)
            | Operand::RegisterIndirectAutoIncrement(_)
            | Operand::Constant(_) => 0,
            Operand::Indexed(_)
            | Operand::Indexed20(_)
            | Operand::Symbolic(_)
            | Operand::Symbolic20(_)
            | Operand::Immediate(_)
            | Operand::Immediate20(_)
            | Operand::Absolute(_)
            | Operand::Absolute20(_) => 2,
        }
    }
}

/// How an operand is written: `r5`, `4(r5)`, `0x10004(r5)`, `@r5`, `@r5+`, `-2`, `0x10000`,
/// `#0x1234`, `&0x200`, or `#4` for a constant; 20-bit offsets are written in hexadecimal.
pub open spec fn operand_text(op: Operand) -> Seq<char> {
    match op {
        Operand::RegisterDirect(r) => seq!['r'] + dec_digits(r as nat),
        Operand::Indexed((r, offset)) => signed_text(offset as int) + seq!['(', 'r'] + dec_digits(
            r as nat,
        ) + seq![')'],
        Operand::Indexed20((r, offset)) => hex_text((offset as u32) as nat) + seq!['(', 'r']
            + dec_digits(r as nat) + seq![')'],
        Operand::RegisterIndirect(r) => seq!['@', 'r'] + dec_digits(r as nat),
        Operand::RegisterIndirectAutoIncrement(r) => seq!['@', 'r'] + dec_digits(r as nat) + seq![
            '+',
        ],
        Operand::Symbolic(offset) => signed_text(offset as int),
        Operand::Symbolic20(offset) => hex_text((offset as u32) as nat),
        Operand::Immediate(v) => seq!['#'] + hex_text(v as nat),
        Operand::Immediate20(v) => seq!['#'] + hex_text(v as nat),
        Operand::Absolute(a) => seq!['&'] + hex_text(a as nat),
        Operand::Absolute20(a) => seq!['&'] + hex_text(a as nat),
        Operand::Constant(v) => seq!['#'] + signed_text(v as int),
    }
}

impl Operand {
    /// Appends how the operand is written.
    pub fn push_text(&self, s: &mut String)
        ensures
            final(s)@ == old(s)@ + operand_text(*self),
    {
        match self {
            Operand::RegisterDirect(r) => {
                push_char(s, 'r');
                push_decimal(s, *r as u32);
            },
            Operand::Indexed((r, offset)) => {
                push_signed(s, *offset as i32);
                push_char(s, '(');
                push_char(s, 'r');
                push_decimal(s, *r as u32);
                push_char(s, ')');
            },
            Operand::Indexed20((r, offset)) => {
                push_hex(s, *offset as u32);
                push_char(s, '(');
                push_char(s, 'r');
                push_decimal(s, *r as u32);
                push_char(s, ')');
            },
            Operand::RegisterIndirect(r) => {
                push_char(s, '@');
                push_char(s, 'r');
                push_decimal(s, *r as u32);
            },
            Operand::RegisterIndirectAutoIncrement(r) => {
                push_char(s, '@');
                push_char(s, 'r');
                push_decimal(s, *r as u32);
                push_char(s, '+');
            },
            Operand::Symbolic(offset) => push_signed(s, *offset as i32),
            Operand::Symbolic20(offset) => push_hex(s, *offset as u32),
            Operand::Immediate(v) => {
                push_char(s, '#');
                push_hex(s, *v as u32);
            },
            Operand::Immediate20(v) => {
                push_char(s, '#');
                push_hex(s, *v);
            },
            Operand::Absolute(a) => {
                push_char(s, '&');
                push_hex(s, *a as u32);
            },
            Operand::Absolute20(a) => {
                push_char(s, '&');
                push_hex(s, *a);
            },
            Operand::Constant(v) => {
                push_char(s, '#');
                push_signed(s, *v as i32);
            },
        }
        proof {
            assert(final(s)@ =~= old(s)@ + operand_text(*self));
        }
    }

    /// How the operand is written.
    pub fn to_string(&self) -> (r: String)
        ensures
            r@ == operand_text(*self),
    {
        let mut s = String::new();
        self.push_text(&mut s);
        proof {
            assert(s@ =~= operand_text(*self));
        }
        s
    }
}

/// The source operand that addressing mode 1 (indexed) selects for `register`, given the
/// data word `word` that follows the instruction: PC gives a symbolic operand, SR an
/// absolute one, any other register an indexed one; with an extension word each becomes
/// its 20-bit form (PC then gives a 20-bit immediate), widened by the source extension.
pub open spec fn indexed_source(register: u8, word: u16, extension: Option<&ExtensionWord>) -> Operand {
    match extension {
        Some(ext) => if register == 0 {
            Operand::Immediate20(ext.spec_extend_source(word))
        } else if register == 2 {
            Operand::Absolute20(ext.spec_extend_source(word))
        } else {
            Operand::Indexed20((register, ext.spec_extend_source(word) as i32))
        },
        None => if register == 0 {
            Operand::Symbolic(word as i16)
        } else if register == 2 {
            Operand::Absolute(word)
        } else {
            Operand::Indexed((register, word as i16))
        },
    }
}

/// What `parse_source` gives for a register, an addressing mode (As), the bytes after the
/// instruction word and an optional extension word: the operand and the bytes left over.
pub open spec fn spec_parse_source(
    register: u8,
    addressing_mode: u16,
    data: Seq<u8>,
    extension: Option<&ExtensionWord>,
) -> Result<(Operand, Seq<u8>), DecodeError> {
    if addressing_mode == 0 {
        Ok((Operand::RegisterDirect(register), data))
    } else if addressing_mode == 1 {
        if data.len() < 2 {
            Err(DecodeError::MissingOperand)
        } else {
            Ok((
                indexed_source(register, le_word(data[0], data[1]), extension),
                data.subrange(2, data.len() as int),
            ))
        }
    } else if addressing_mode == 2 {
        if register == 2 {
            Ok((Operand::Constant(4), data))
        } else if register == 3 {
            Ok((Operand::Constant(2), data))
        } else {
            Ok((Operand::RegisterIndirect(register), data))
        }
    } else if addressing_mode == 3 {
        if register == 0 {
            if data.len() < 2 {
                Err(DecodeError::MissingOperand)
            } else {
                let imm = le_word(data[0], data[1]);
                let op = match extension {
                    Some(ext) => Operand::Immediate20(ext.spec_extend_source(imm)),
                    None => Operand::Immediate(imm),
                };
                Ok((op, data.subrange(2, data.len() as int)))
            }
        } else if register == 2 {
            Ok((Operand::Constant(8), data))
        } else if register == 3 {
            Ok((Operand::Constant(0), data))
        } else {
            Ok((Operand::RegisterIndirectAutoIncrement(register), data))
        }
    } else {
        Err(DecodeError::InvalidAddressingMode)
    }
}

/// Parse source operand with optional extension word.
pub fn parse_source<'a>(
    register: u8,
    addressing_mode: u16,
    data: &'a [u8],
    extension: Option<&ExtensionWord>,
) -> (r: Result<(Operand, &'a [u8]), DecodeError>)
    ensures
        match r {
            Ok((op, rest)) => spec_parse_source(register, addressing_mode, data@, extension)
                == Ok::<(Operand, Seq<u8>), DecodeError>((op, rest@)),
            Err(e) => spec_parse_source(register, addressing_mode, data@, extension) == Err::<
                (Operand, Seq<u8>),
                DecodeError,
            >(e),
        },
        r matches Ok((op, rest)) ==> op.spec_size() <= data@.len() && rest@ == data@.subrange(
            op.spec_size() as int,
            data@.len() as int,
        ),
{
    match addressing_mode {
        0 => Ok((Operand::RegisterDirect(register), data)),
        1 => {
            if data.len() < 2 {
                return Err(DecodeError::MissingOperand);
            }
            let (offset_bytes, remaining) = data.split_at(2);
            let word = read_le_word(offset_bytes[0], offset_bytes[1]);
            let offset = word as i16;
            match register {
                0 => {
                    if let Some(ext) = extension {
                        let imm20 = ext.extend_source(word);
                        Ok((Operand::Immediate20(imm20), remaining))
                    } else {
                        Ok((Operand::Symbolic(offset), remaining))
                    }
                },
                2 => {
                    if let Some(ext) = extension {
                        let abs20 = ext.extend_source(word);
                        Ok((Operand::Absolute20(abs20), remaining))
                    } else {
                        Ok((Operand::Absolute(word), remaining))
                    }
                },
                _ => {
                    if let Some(ext) = extension {
                        let idx20 = ext.extend_source(word) as i32;
                        Ok((Operand::Indexed20((register, idx20)), remaining))
                    } else {
                        Ok((Operand::Indexed((register, offset)), remaining))
                    }
                },
            }
        },
        2 => {
            match register {
                2 => Ok((Operand::Constant(4), data)),
                3 => Ok((Operand::Constant(2), data)),
                _ => Ok((Operand::RegisterIndirect(register), data)),
            }
        },
        3 => {
            match register {
                0 => {
                    if data.len() < 2 {
                        return Err(DecodeError::MissingOperand);
                    }
                    let (imm_bytes, remaining) = data.split_at(2);
                    let imm = read_le_word(imm_bytes[0], imm_bytes[1]);
                    if let Some(ext) = extension {
                        let imm20 = ext.extend_source(imm);
                        Ok((Operand::Immediate20(imm20), remaining))
                    } else {
                        Ok((Operand::Immediate(imm), remaining))
                    }
                },
                2 => Ok((Operand::Constant(8), data)),
                3 => Ok((Operand::Constant(0), data)),
                _ => Ok((Operand::RegisterIndirectAutoIncrement(register), data)),
            }
        },
        _ => Err(DecodeError::InvalidAddressingMode),
    }
}

/// What `parse_destination` gives for a register, the Ad bit, the bytes after the source
/// operand's data and an optional extension word.
pub open spec fn spec_parse_destination(
    register: u8,
    ad_bit: u16,
    data: Seq<u8>,
    extension: Option<&ExtensionWord>,
) -> Result<Operand, DecodeError> {
    if ad_bit == 0 {
        Ok(Operand::RegisterDirect(register))
    } else if ad_bit == 1 {
        if data.len() < 2 {
            Err(DecodeError::MissingOperand)
        } else {
            let word = le_word(data[0], data[1]);
            Ok(
                match extension {
                    Some(ext) => if register == 0 {
                        Operand::Symbolic20(ext.spec_extend_dest(word) as i32)
                    } else if register == 2 {
                        Operand::Absolute20(ext.spec_extend_dest(word))
                    } else {
                        Operand::Indexed20((register, ext.spec_extend_dest(word) as i32))
                    },
                    None => if register == 0 {
                        Operand::Symbolic(word as i16)
                    } else if register == 2 {
                        Operand::Absolute(word)
                    } else {
                        Operand::Indexed((register, word as i16))
                    },
                },
            )
        }
    } else {
        Err(DecodeError::InvalidAddressingMode)
    }
}

/// Parse destination operand with optional extension word.
pub fn parse_destination(
    register: u8,
    ad_bit: u16,
    data: &[u8],
    extension: Option<&ExtensionWord>,
) -> (r: Result<Operand, DecodeError>)
    ensures
        r == spec_parse_destination(register, ad_bit, data@, extension),
        r matches Ok(op) ==> op.spec_size() <= data@.len(),
{
    match ad_bit {
        0 => Ok(Operand::RegisterDirect(register)),
        1 => {
            if data.len() < 2 {
                return Err(DecodeError::MissingOperand);
            }
            let word = read_le_word(data[0], data[1]);
            let offset = word as i16;
            match register {
                0 => {
                    if let Some(ext) = extension {
                        let sym20 = ext.extend_dest(word) as i32;
                        Ok(Operand::Symbolic20(sym20))
                    } else {
                        Ok(Operand::Symbolic(offset))
                    }
                },
                2 => {
                    if let Some(ext) = extension {
                        let abs20 = ext.extend_dest(word);
                        Ok(Operand::Absolute20(abs20))
                    } else {
                        Ok(Operand::Absolute(word))
                    }
                },
                _ => {
                    if let Some(ext) = extension {
                        let idx20 = ext.extend_dest(word) as i32;
                        Ok(Operand::Indexed20((register, idx20)))
                    } else {
                        Ok(Operand::Indexed((register, offset)))
                    }
                },
            }
        },
        _ => Err(DecodeError::InvalidAddressingMode),
    }
}

} // verus!
