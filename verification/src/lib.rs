pub mod bits;
pub mod decode_error;
pub mod decode_properties;
pub mod emulate;
pub mod extension_word;
pub mod il_meaning;
pub mod instruction;
pub mod jxx;
pub mod lift;
pub mod lift_laws;
pub mod lift_properties;
pub mod llil;
pub mod msp430x_instructions;
pub mod operand;
pub mod single_operand;
pub mod text;
pub mod two_operand;

use crate::bits::{lemma_join20, lemma_join20_signed, lemma_word_fields};
use crate::decode_error::DecodeError;
use crate::emulate::{emulate, spec_emulate};
use crate::extension_word::{is_extension_prefix, le_word, read_le_word, ExtensionWord};
use crate::instruction::Instruction;
use crate::jxx::{jxx_fix_offset, spec_jxx_offset, Jxx};
use crate::msp430x_instructions::{
    AddressInstruction, Bra, Calla, PushPopMultiple, Reta, RotateMultiple,
};
use crate::operand::{
    parse_destination, parse_source, spec_parse_destination, spec_parse_source, width_from_code,
    Operand, OperandWidth,
};
use crate::single_operand::{Reti, SingleOperand};
use crate::two_operand::TwoOperand;
use vstd::prelude::*;

verus! {

// Base MSP430 instruction opcodes
const RRC_OPCODE: u16 = 0;
const SWPB_OPCODE: u16 = 1;
const RRA_OPCODE: u16 = 2;
const SXT_OPCODE: u16 = 3;
const PUSH_OPCODE: u16 = 4;
const CALL_OPCODE: u16 = 5;
const RETI_OPCODE: u16 = 6;

const MOV_OPCODE: u16 = 4;
const ADD_OPCODE: u16 = 5;
const ADDC_OPCODE: u16 = 6;
const SUBC_OPCODE: u16 = 7;
const SUB_OPCODE: u16 = 8;
const CMP_OPCODE: u16 = 9;
const DADD_OPCODE: u16 = 10;
const BIT_OPCODE: u16 = 11;
const BIC_OPCODE: u16 = 12;
const BIS_OPCODE: u16 = 13;
const XOR_OPCODE: u16 = 14;
const AND_OPCODE: u16 = 15;

const RETA_OPCODE: u16 = 0x0110;

// Bit masks
const SINGLE_OPERAND_REGISTER_MASK: u16 = 0b1111;
const SINGLE_OPERAND_OPCODE_MASK: u16 = 0b0000_0011_1000_0000;
const SINGLE_OPERAND_SOURCE_MASK: u16 = 0b11_0000;
const SINGLE_OPERAND_WIDTH_MASK: u16 = 0b100_0000;
const INST_TYPE_MASK: u16 = 0b1110_0000_0000_0000;
const SINGLE_OPERAND_INSTRUCTION: u16 = 0b0000_0000_0000_0000;
const JMP_INSTRUCTION: u16 = 0b0010_0000_0000_0000;
const JMP_CONDITION_MASK: u16 = 0b0001_1100_0000_0000;
const JMP_OFFSET: u16 = 0b0000001111111111;
const TWO_OPERAND_OPCODE_MASK: u16 = 0b1111_0000_0000_0000;
const TWO_OPERAND_SOURCE_MASK: u16 = 0b1111_0000_0000;
const TWO_OPERAND_AD_MASK: u16 = 0b1000_0000;
const TWO_OPERAND_WIDTH: u16 = 0b100_0000;
const TWO_OPERAND_AS: u16 = 0b11_0000;
const TWO_OPERAND_DESTINATION: u16 = 0b1111;

/// A 20-bit value made of four high bits `hi` and a 16-bit low part.
pub open spec fn join20(hi: u8, lo: u16) -> u32 {
    (hi as int * 65536 + lo as int) as u32
}

/// The MSP430X instructions that are one word long and need no extension word, by that
/// word: RETA is `0x0110`; PUSHM is `0001 010w nnnn rrrr`, pushing `n + 1` registers from
/// `r` down; POPM is `0001 011w nnnn rrrr`, popping `n + 1` registers from `r` up, so that
/// the last one popped is `r + n`; the rotations are `0000 01oo nn0w rrrr`, where `o` picks
/// RRCM, RRAM, RLAM or RRUM and the count is `n + 1`. A clear `w` bit selects the 20-bit
/// (.A) form, a set one the word (.W) form.
pub open spec fn spec_decode_msp430x(w: u16) -> Option<Instruction> {
    let count4 = ((w as int / 16) % 16 + 1) as u8;
    let reg = (w as int % 16) as u8;
    if w == 0x0110 {
        Some(Instruction::Reta(Reta))
    } else if w as int / 512 == 10 {
        Some(
            Instruction::Pushm(
                PushPopMultiple::spec_new("pushm", count4, reg, (w as int / 256) % 2 == 0),
            ),
        )
    } else if w as int / 512 == 11 {
        Some(
            Instruction::Popm(
                PushPopMultiple::spec_new(
                    "popm",
                    count4,
                    (w as int % 16 + (w as int / 16) % 16) as u8,
                    (w as int / 256) % 2 == 0,
                ),
            ),
        )
    } else if w as int / 1024 == 1 {
        let op = (w as int / 256) % 4;
        let count = ((w as int / 64) % 4 + 1) as u8;
        let is_address = (w as int / 16) % 2 == 0;
        Some(
            if op == 0 {
                Instruction::Rrcm(RotateMultiple::spec_new("rrcm", count, reg, is_address))
            } else if op == 1 {
                Instruction::Rram(RotateMultiple::spec_new("rram", count, reg, is_address))
            } else if op == 2 {
                Instruction::Rlam(RotateMultiple::spec_new("rlam", count, reg, is_address))
            } else {
                Instruction::Rrum(RotateMultiple::spec_new("rrum", count, reg, is_address))
            },
        )
    } else {
        None
    }
}

/// Whether a first word is one of the MSP430X address instructions that need no extension
/// word: `0000 ssss mmmm dddd` below `0x1000`, outside the rotation range `0x0400..0x0800`,
/// with `m` neither 4 nor 5.
pub open spec fn is_address_word(w: u16) -> bool {
    let m = (w as int / 16) % 16;
    w as int / 4096 == 0 && w as int / 1024 != 1 && m != 4 && m != 5
}

/// The MSP430X address instructions that need no extension word, by their first word
/// `0000 ssss mmmm dddd` and the bytes after it; `v` is the data word that follows and
/// `s:v` / `d:v` the 20-bit values with `s` or `d` as top four bits:
/// `m == 0` MOVA @Rs, Rd; `1` MOVA @Rs+, Rd; `2` MOVA &s:v, Rd; `3` MOVA v(Rs), Rd;
/// `6` MOVA Rs, &d:v; `7` MOVA Rs, v(Rd); `8` MOVA #s:v, Rd; `9`, `0xA`, `0xB` CMPA, ADDA,
/// SUBA #s:v, Rd; `0xC` to `0xF` MOVA, CMPA, ADDA, SUBA Rs, Rd. A form with a data word fails
/// with `MissingOperand` when fewer than two bytes follow. `None` for any other word.
pub open spec fn spec_decode_address(w: u16, data: Seq<u8>) -> Option<Result<Instruction, DecodeError>> {
    let src = ((w as int / 256) % 16) as u8;
    let m = (w as int / 16) % 16;
    let dst = (w as int % 16) as u8;
    let needs_word = 2 <= m <= 3 || 6 <= m <= 11;
    if !is_address_word(w) {
        None
    } else if needs_word && data.len() < 2 {
        Some(Err(DecodeError::MissingOperand))
    } else {
        let v = if data.len() >= 2 {
            le_word(data[0], data[1])
        } else {
            0
        };
        let rs = Operand::RegisterDirect(src);
        let rd = Operand::RegisterDirect(dst);
        Some(
            Ok(
                if m == 0 {
                    Instruction::Mova(AddressInstruction::spec_new("mova", Operand::RegisterIndirect(src), rd))
                } else if m == 1 {
                    Instruction::Mova(
                        AddressInstruction::spec_new("mova", Operand::RegisterIndirectAutoIncrement(src), rd),
                    )
                } else if m == 2 {
                    Instruction::Mova(AddressInstruction::spec_new("mova", Operand::Absolute20(join20(src, v)), rd))
                } else if m == 3 {
                    Instruction::Mova(AddressInstruction::spec_new("mova", Operand::Indexed((src, v as i16)), rd))
                } else if m == 6 {
                    Instruction::Mova(AddressInstruction::spec_new("mova", rs, Operand::Absolute20(join20(dst, v))))
                } else if m == 7 {
                    Instruction::Mova(AddressInstruction::spec_new("mova", rs, Operand::Indexed((dst, v as i16))))
                } else if m == 8 {
                    Instruction::Mova(AddressInstruction::spec_new("mova", Operand::Immediate20(join20(src, v)), rd))
                } else if m == 9 {
                    Instruction::Cmpa(AddressInstruction::spec_new("cmpa", Operand::Immediate20(join20(src, v)), rd))
                } else if m == 10 {
                    Instruction::Adda(AddressInstruction::spec_new("adda", Operand::Immediate20(join20(src, v)), rd))
                } else if m == 11 {
                    Instruction::Suba(AddressInstruction::spec_new("suba", Operand::Immediate20(join20(src, v)), rd))
                } else if m == 12 {
                    Instruction::Mova(AddressInstruction::spec_new("mova", rs, rd))
                } else if m == 13 {
                    Instruction::Cmpa(AddressInstruction::spec_new("cmpa", rs, rd))
                } else if m == 14 {
                    Instruction::Adda(AddressInstruction::spec_new("adda", rs, rd))
                } else {
                    Instruction::Suba(AddressInstruction::spec_new("suba", rs, rd))
                },
            ),
        )
    }
}

/// The MSP430X instructions that need no extension word, decoded from their first word and
/// the bytes after it.
pub open spec fn spec_decode_msp430x_words(w: u16, data: Seq<u8>) -> Option<Result<Instruction, DecodeError>> {
    match spec_decode_msp430x(w) {
        Some(i) => Some(Ok(i)),
        None => spec_decode_address(w, data),
    }
}

/// The instruction that follows an extension word `ext`, decoded from the bytes `data` after
/// the extension word. With the instruction word `iw`, its high byte `ub`, its bits 4 to 7 `m`,
/// its bits 0 to 3 `rd`, and `v` the 20-bit value made of the extension's destination bits
/// and the next data word:
/// - `ub == 0x00`: `m == 2` MOVA #v, rd; `m == 3` MOVA &v, rd; `m == 5` MOVA r5, &v;
///   `m == 1` MOVA v(r1), rd; `m == 6` MOVA r6, rd; `m == 9` CMPA #v, rd; `m == 0xA` ADDA #v, rd;
///   `m == 0xB` SUBA #v, rd; `m == 0xC` BRA &v when `rd` is 0 and a data word follows,
///   else BRA rd.
/// - `ub == 0x13`: `m == 4` CALLA rd; `m == 8` CALLA &v; `m == 0xB` CALLA #v.
/// A form that needs the data word fails with `MissingOperand` where it is absent; any other
/// word fails with `InvalidOpcode(ub)`.
pub open spec fn spec_decode_with_extension(ext: u16, data: Seq<u8>) -> Result<
    Instruction,
    DecodeError,
> {
    if data.len() < 2 {
        Err(DecodeError::MissingInstruction)
    } else {
        let iw = le_word(data[0], data[1]);
        let rest = data.subrange(2, data.len() as int);
        let ub = iw as int / 256;
        let m = (iw as int / 16) % 16;
        let rd = (iw as int % 16) as u8;
        let dx = (ext as int % 16) as u8;
        let has_word = rest.len() >= 2;
        let v = if has_word {
            join20(dx, le_word(rest[0], rest[1]))
        } else {
            0
        };
        let needs_word = (ub == 0 && (m == 1 || m == 2 || m == 3 || m == 5 || m == 9 || m == 10
            || m == 11)) || (ub == 0x13 && (m == 8 || m == 11));
        if needs_word && !has_word {
            Err(DecodeError::MissingOperand)
        } else if ub == 0 && m == 2 {
            Ok(
                Instruction::Mova(
                    AddressInstruction::spec_new(
                        "mova",
                        Operand::Immediate20(v),
                        Operand::RegisterDirect(rd),
                    ),
                ),
            )
        } else if ub == 0 && m == 3 {
            Ok(
                Instruction::Mova(
                    AddressInstruction::spec_new(
                        "mova",
                        Operand::Absolute20(v),
                        Operand::RegisterDirect(rd),
                    ),
                ),
            )
        } else if ub == 0 && m == 5 {
            Ok(
                Instruction::Mova(
                    AddressInstruction::spec_new(
                        "mova",
                        Operand::RegisterDirect(5),
                        Operand::Absolute20(v),
                    ),
                ),
            )
        } else if ub == 0 && m == 1 {
            Ok(
                Instruction::Mova(
                    AddressInstruction::spec_new(
                        "mova",
                        Operand::Indexed20((1, v as i32)),
                        Operand::RegisterDirect(rd),
                    ),
                ),
            )
        } else if ub == 0 && m == 6 {
            Ok(
                Instruction::Mova(
                    AddressInstruction::spec_new(
                        "mova",
                        Operand::RegisterDirect(6),
                        Operand::RegisterDirect(rd),
                    ),
                ),
            )
        } else if ub == 0 && m == 9 {
            Ok(
                Instruction::Cmpa(
                    AddressInstruction::spec_new(
                        "cmpa",
                        Operand::Immediate20(v),
                        Operand::RegisterDirect(rd),
                    ),
                ),
            )
        } else if ub == 0 && m == 10 {
            Ok(
                Instruction::Adda(
                    AddressInstruction::spec_new(
                        "adda",
                        Operand::Immediate20(v),
                        Operand::RegisterDirect(rd),
                    ),
                ),
            )
        } else if ub == 0 && m == 11 {
            Ok(
                Instruction::Suba(
                    AddressInstruction::spec_new(
                        "suba",
                        Operand::Immediate20(v),
                        Operand::RegisterDirect(rd),
                    ),
                ),
            )
        } else if ub == 0x13 && m == 4 {
            Ok(Instruction::Calla(Calla::spec_new(Operand::RegisterDirect(rd))))
        } else if ub == 0x13 && m == 8 {
            Ok(Instruction::Calla(Calla::spec_new(Operand::Absolute20(v))))
        } else if ub == 0x13 && m == 11 {
            Ok(Instruction::Calla(Calla::spec_new(Operand::Immediate20(v))))
        } else if ub == 0 && m == 12 {
            if rd == 0 && has_word {
                Ok(Instruction::Bra(Bra::spec_new(Operand::Absolute20(v))))
            } else {
                Ok(Instruction::Bra(Bra::spec_new(Operand::RegisterDirect(rd))))
            }
        } else {
            Err(DecodeError::InvalidOpcode(ub as u16))
        }
    }
}

/// A single-operand instruction word `0001 00oo owaa rrrr` (opcode `o`, width bit `w`,
/// addressing mode `a`, register `r`), with the bytes that follow it.
pub open spec fn spec_decode_single_operand(w: u16, data: Seq<u8>) -> Result<Instruction, DecodeError> {
    let opcode = (w as int / 128) % 8;
    let register = (w as int % 16) as u8;
    let mode = ((w as int / 16) % 4) as u16;
    let width = width_from_code(((w as int / 64) % 2) as u8);
    match spec_parse_source(register, mode, data, None) {
        Err(e) => Err(e),
        Ok((src, _)) => if opcode == 0 {
            Ok(Instruction::Rrc(SingleOperand::spec_new("rrc", src, Some(width))))
        } else if opcode == 1 {
            Ok(Instruction::Swpb(SingleOperand::spec_new("swpb", src, None)))
        } else if opcode == 2 {
            Ok(Instruction::Rra(SingleOperand::spec_new("rra", src, Some(width))))
        } else if opcode == 3 {
            Ok(Instruction::Sxt(SingleOperand::spec_new("sxt", src, None)))
        } else if opcode == 4 {
            Ok(Instruction::Push(SingleOperand::spec_new("push", src, Some(width))))
        } else if opcode == 5 {
            Ok(Instruction::Call(SingleOperand::spec_new("call", src, None)))
        } else if opcode == 6 {
            Ok(Instruction::Reti(Reti))
        } else {
            Err(DecodeError::InvalidOpcode(opcode as u16))
        },
    }
}

/// A jump word `001c ccoo oooo oooo`: condition `c` picks JNZ, JZ, JLO, JC, JN, JGE, JL
/// or JMP, and `o` is the signed offset.
pub open spec fn spec_decode_jxx(w: u16) -> Instruction {
    let condition = (w as int / 1024) % 8;
    let offset = spec_jxx_offset((w as int % 1024) as u16) as i16;
    if condition == 0 {
        Instruction::Jnz(Jxx::spec_new("jnz", offset))
    } else if condition == 1 {
        Instruction::Jz(Jxx::spec_new("jz", offset))
    } else if condition == 2 {
        Instruction::Jlo(Jxx::spec_new("jlo", offset))
    } else if condition == 3 {
        Instruction::Jc(Jxx::spec_new("jc", offset))
    } else if condition == 4 {
        Instruction::Jn(Jxx::spec_new("jn", offset))
    } else if condition == 5 {
        Instruction::Jge(Jxx::spec_new("jge", offset))
    } else if condition == 6 {
        Instruction::Jl(Jxx::spec_new("jl", offset))
    } else {
        Instruction::Jmp(Jxx::spec_new("jmp", offset))
    }
}

/// The two-operand instruction with the given opcode and operands, or its emulated form
/// where the opcode has one that applies.
pub open spec fn two_operand_result(opcode: int, inst: TwoOperand) -> Instruction {
    match spec_emulate(opcode as u16, inst) {
        Some(e) => e,
        None => if opcode == 4 {
            Instruction::Mov(inst)
        } else if opcode == 5 {
            Instruction::Add(inst)
        } else if opcode == 6 {
            Instruction::Addc(inst)
        } else if opcode == 7 {
            Instruction::Subc(inst)
        } else if opcode == 8 {
            Instruction::Sub(inst)
        } else if opcode == 9 {
            Instruction::Cmp(inst)
        } else if opcode == 10 {
            Instruction::Dadd(inst)
        } else if opcode == 11 {
            Instruction::Bit(inst)
        } else if opcode == 12 {
            Instruction::Bic(inst)
        } else if opcode == 13 {
            Instruction::Bis(inst)
        } else if opcode == 14 {
            Instruction::Xor(inst)
        } else {
            Instruction::And(inst)
        },
    }
}

/// The mnemonic of a two-operand opcode from 4 to 15.
pub open spec fn two_operand_mnemonic(opcode: int) -> &'static str {
    if opcode == 4 {
        "mov"
    } else if opcode == 5 {
        "add"
    } else if opcode == 6 {
        "addc"
    } else if opcode == 7 {
        "subc"
    } else if opcode == 8 {
        "sub"
    } else if opcode == 9 {
        "cmp"
    } else if opcode == 10 {
        "dadd"
    } else if opcode == 11 {
        "bit"
    } else if opcode == 12 {
        "bic"
    } else if opcode == 13 {
        "bis"
    } else if opcode == 14 {
        "xor"
    } else {
        "and"
    }
}

/// A two-operand instruction word `oooo ssss dwaa rrrr` (opcode `o`, source register `s`,
/// destination mode `d`, width bit `w`, source mode `a`, destination register `r`), with the
/// bytes that follow it: the source operand's data word, if any, comes before the
/// destination's.
pub open spec fn spec_decode_two_operand(w: u16, data: Seq<u8>) -> Result<Instruction, DecodeError> {
    let opcode = w as int / 4096;
    let source_register = ((w as int / 256) % 16) as u8;
    let ad = ((w as int / 128) % 2) as u16;
    let width = width_from_code(((w as int / 64) % 2) as u8);
    let source_mode = ((w as int / 16) % 4) as u16;
    let destination_register = (w as int % 16) as u8;
    match spec_parse_source(source_register, source_mode, data, None) {
        Err(e) => Err(e),
        Ok((src, rest)) => match spec_parse_destination(destination_register, ad, rest, None) {
            Err(e) => Err(e),
            Ok(dst) => if 4 <= opcode {
                Ok(
                    two_operand_result(
                        opcode,
                        TwoOperand::spec_new(two_operand_mnemonic(opcode), src, width, dst),
                    ),
                )
            } else {
                Err(DecodeError::InvalidOpcode(opcode as u16))
            },
        },
    }
}

/// A base MSP430 instruction word with the bytes that follow it: the top three bits pick
/// a single-operand instruction (`000`), a jump (`001`) or a two-operand instruction.
pub open spec fn spec_decode_base(w: u16, data: Seq<u8>) -> Result<Instruction, DecodeError> {
    if w as int / 8192 == 0 {
        spec_decode_single_operand(w, data)
    } else if w as int / 8192 == 1 {
        Ok(spec_decode_jxx(w))
    } else {
        spec_decode_two_operand(w, data)
    }
}

/// What `decode` gives for a byte sequence: the instruction at its start.
pub open spec fn spec_decode(data: Seq<u8>) -> Result<Instruction, DecodeError> {
    if data.len() < 2 {
        Err(DecodeError::MissingInstruction)
    } else {
        let w = le_word(data[0], data[1]);
        let rest = data.subrange(2, data.len() as int);
        if is_extension_prefix(w) {
            spec_decode_with_extension(w, rest)
        } else {
            match spec_decode_msp430x_words(w, rest) {
                Some(r) => r,
                None => spec_decode_base(w, rest),
            }
        }
    }
}

/// Decode the instruction at the start of `data`.
pub fn decode(data: &[u8]) -> (r: Result<Instruction, DecodeError>)
    ensures
        r == spec_decode(data@),
{
    if data.len() < 2 {
        return Err(DecodeError::MissingInstruction);
    }
    let (int_bytes, remaining_data) = data.split_at(2);
    let first_word = read_le_word(int_bytes[0], int_bytes[1]);
    proof {
        crate::bits::lemma_top_five_bits(first_word);
    }
    if (first_word & 0xF800) == 0x1800 {
        let (ext, remaining_after_ext) = match ExtensionWord::parse(data) {
            Ok(parsed) => parsed,
            Err(e) => return Err(e),
        };
        return decode_with_extension(&ext, remaining_after_ext);
    }
    if let Some(inst) = try_decode_msp430x(first_word, remaining_data) {
        return inst;
    }
    decode_base_msp430(first_word, remaining_data)
}

/// Try to decode the MSP430X instructions that need no extension word.
fn try_decode_msp430x(first_word: u16, data: &[u8]) -> (r: Option<Result<Instruction, DecodeError>>)
    ensures
        r == spec_decode_msp430x_words(first_word, data@),
{
    proof {
        lemma_word_fields(first_word);
    }
    if first_word == RETA_OPCODE {
        return Some(Ok(Instruction::Reta(Reta::new())));
    }
    if (first_word & 0xFE00) == 0x1400 {
        let count = ((first_word >> 4) & 0xF) as u8 + 1;
        let register = (first_word & 0xF) as u8;
        let is_address = (first_word & 0x0100) == 0;
        return Some(
            Ok(Instruction::Pushm(PushPopMultiple::new("pushm", count, register, is_address))),
        );
    }
    if (first_word & 0xFE00) == 0x1600 {
        let count = ((first_word >> 4) & 0xF) as u8 + 1;
        let register = (first_word & 0xF) as u8 + ((first_word >> 4) & 0xF) as u8;
        let is_address = (first_word & 0x0100) == 0;
        return Some(
            Ok(Instruction::Popm(PushPopMultiple::new("popm", count, register, is_address))),
        );
    }
    if (first_word & 0xFC00) == 0x0400 {
        let op = (first_word >> 8) & 0x3;
        let count = ((first_word >> 6) & 0x3) as u8 + 1;
        let register = (first_word & 0xF) as u8;
        let is_address = (first_word & 0x0010) == 0;
        return Some(
            Ok(
                match op {
                    0 => Instruction::Rrcm(RotateMultiple::new("rrcm", count, register, is_address)),
                    1 => Instruction::Rram(RotateMultiple::new("rram", count, register, is_address)),
                    2 => Instruction::Rlam(RotateMultiple::new("rlam", count, register, is_address)),
                    _ => Instruction::Rrum(RotateMultiple::new("rrum", count, register, is_address)),
                },
            ),
        );
    }
    decode_address(first_word, data)
}

/// Decode the MSP430X address instructions that need no extension word.
fn decode_address(first_word: u16, data: &[u8]) -> (r: Option<Result<Instruction, DecodeError>>)
    requires
        spec_decode_msp430x(first_word) is None,
    ensures
        r == spec_decode_address(first_word, data@),
{
    proof {
        lemma_word_fields(first_word);
    }
    let src = ((first_word & 0x0F00) >> 8) as u8;
    let mode = (first_word >> 4) & 0xF;
    let dst = (first_word & 0xF) as u8;
    if first_word >= 0x1000 || (first_word & 0xFC00) == 0x0400 || mode == 4 || mode == 5 {
        return None;
    }
    let needs_word = (2 <= mode && mode <= 3) || (6 <= mode && mode <= 11);
    if needs_word && data.len() < 2 {
        return Some(Err(DecodeError::MissingOperand));
    }
    let v: u16 = if data.len() >= 2 { read_le_word(data[0], data[1]) } else { 0 };
    let rs = Operand::RegisterDirect(src);
    let rd = Operand::RegisterDirect(dst);
    let inst = match mode {
        0 => Instruction::Mova(AddressInstruction::new("mova", Operand::RegisterIndirect(src), rd)),
        1 => Instruction::Mova(
            AddressInstruction::new("mova", Operand::RegisterIndirectAutoIncrement(src), rd),
        ),
        2 => Instruction::Mova(AddressInstruction::new("mova", Operand::Absolute20(join_operand20(src, v)), rd)),
        3 => Instruction::Mova(AddressInstruction::new("mova", Operand::Indexed((src, v as i16)), rd)),
        6 => Instruction::Mova(AddressInstruction::new("mova", rs, Operand::Absolute20(join_operand20(dst, v)))),
        7 => Instruction::Mova(AddressInstruction::new("mova", rs, Operand::Indexed((dst, v as i16)))),
        8 => Instruction::Mova(AddressInstruction::new("mova", Operand::Immediate20(join_operand20(src, v)), rd)),
        9 => Instruction::Cmpa(AddressInstruction::new("cmpa", Operand::Immediate20(join_operand20(src, v)), rd)),
        10 => Instruction::Adda(AddressInstruction::new("adda", Operand::Immediate20(join_operand20(src, v)), rd)),
        11 => Instruction::Suba(AddressInstruction::new("suba", Operand::Immediate20(join_operand20(src, v)), rd)),
        12 => Instruction::Mova(AddressInstruction::new("mova", rs, rd)),
        13 => Instruction::Cmpa(AddressInstruction::new("cmpa", rs, rd)),
        14 => Instruction::Adda(AddressInstruction::new("adda", rs, rd)),
        _ => Instruction::Suba(AddressInstruction::new("suba", rs, rd)),
    };
    Some(Ok(inst))
}

/// The 20-bit value with `hi` (below 16) as its top four bits and `lo` below them.
fn join_operand20(hi: u8, lo: u16) -> (r: u32)
    requires
        hi < 16,
    ensures
        r == join20(hi, lo),
{
    proof {
        lemma_join20(hi as u32, lo as u32);
    }
    ((hi as u32) << 16) | (lo as u32)
}

/// The 20-bit value of the extension's destination bits and the data word at the start of
/// `rest`.
fn read_operand20(ext_data: u8, rest: &[u8]) -> (r: u32)
    requires
        ext_data < 16,
        rest@.len() >= 2,
    ensures
        r == join20(ext_data, le_word(rest@[0], rest@[1])),
{
    let low = read_le_word(rest[0], rest[1]);
    proof {
        lemma_join20(ext_data as u32, low as u32);
    }
    ((ext_data as u32) << 16) | (low as u32)
}

/// Decode the instruction that follows an extension word.
fn decode_with_extension(ext: &ExtensionWord, data: &[u8]) -> (r: Result<Instruction, DecodeError>)
    ensures
        r == spec_decode_with_extension(ext@, data@),
{
    if data.len() < 2 {
        return Err(DecodeError::MissingInstruction);
    }
    let (word_bytes, remaining) = data.split_at(2);
    let inst_word = read_le_word(word_bytes[0], word_bytes[1]);
    proof {
        lemma_word_fields(inst_word);
    }
    let upper_byte = (inst_word >> 8) & 0xFF;
    let lower_nibble = inst_word & 0xF;
    let mode_nibble = (inst_word >> 4) & 0xF;
    let ext_data = ext.dest_extension();
    let rd = lower_nibble as u8;
    if upper_byte == 0x00 {
        match mode_nibble {
            0x2 => {
                if remaining.len() < 2 {
                    return Err(DecodeError::MissingOperand);
                }
                let imm20 = read_operand20(ext_data, remaining);
                let source = Operand::Immediate20(imm20);
                let dest = Operand::RegisterDirect(rd);
                return Ok(Instruction::Mova(AddressInstruction::new("mova", source, dest)));
            },
            0x3 => {
                if remaining.len() < 2 {
                    return Err(DecodeError::MissingOperand);
                }
                let abs20 = read_operand20(ext_data, remaining);
                let source = Operand::Absolute20(abs20);
                let dest = Operand::RegisterDirect(rd);
                return Ok(Instruction::Mova(AddressInstruction::new("mova", source, dest)));
            },
            0x5 => {
                if remaining.len() < 2 {
                    return Err(DecodeError::MissingOperand);
                }
                let rs = mode_nibble as u8;
                let abs20 = read_operand20(ext_data, remaining);
                let source = Operand::RegisterDirect(rs);
                let dest = Operand::Absolute20(abs20);
                return Ok(Instruction::Mova(AddressInstruction::new("mova", source, dest)));
            },
            0x1 => {
                if remaining.len() < 2 {
                    return Err(DecodeError::MissingOperand);
                }
                let rs = mode_nibble as u8;
                let offset_low = read_le_word(remaining[0], remaining[1]);
                proof {
                    lemma_join20_signed(ext_data as i32, offset_low as i32);
                }
                let offset20 = ((ext_data as i32) << 16) | (offset_low as i32);
                let source = Operand::Indexed20((rs, offset20));
                let dest = Operand::RegisterDirect(rd);
                return Ok(Instruction::Mova(AddressInstruction::new("mova", source, dest)));
            },
            0x6 => {
                let rs = mode_nibble as u8;
                let source = Operand::RegisterDirect(rs);
                let dest = Operand::RegisterDirect(rd);
                return Ok(Instruction::Mova(AddressInstruction::new("mova", source, dest)));
            },
            _ => {},
        }
    }
    if upper_byte == 0x00 && mode_nibble == 0x9 {
        if remaining.len() < 2 {
            return Err(DecodeError::MissingOperand);
        }
        let imm20 = read_operand20(ext_data, remaining);
        let source = Operand::Immediate20(imm20);
        let dest = Operand::RegisterDirect(rd);
        return Ok(Instruction::Cmpa(AddressInstruction::new("cmpa", source, dest)));
    }
    if upper_byte == 0x00 && mode_nibble == 0xA {
        if remaining.len() < 2 {
            return Err(DecodeError::MissingOperand);
        }
        let imm20 = read_operand20(ext_data, remaining);
        let source = Operand::Immediate20(imm20);
        let dest = Operand::RegisterDirect(rd);
        return Ok(Instruction::Adda(AddressInstruction::new("adda", source, dest)));
    }
    if upper_byte == 0x00 && mode_nibble == 0xB {
        if remaining.len() < 2 {
            return Err(DecodeError::MissingOperand);
        }
        let imm20 = read_operand20(ext_data, remaining);
        let source = Operand::Immediate20(imm20);
        let dest = Operand::RegisterDirect(rd);
        return Ok(Instruction::Suba(AddressInstruction::new("suba", source, dest)));
    }
    if upper_byte == 0x13 {
        match mode_nibble {
            0x4 => {
                let dest = Operand::RegisterDirect(rd);
                return Ok(Instruction::Calla(Calla::new(dest)));
            },
            0x8 => {
                if remaining.len() < 2 {
                    return Err(DecodeError::MissingOperand);
                }
                let abs20 = read_operand20(ext_data, remaining);
                return Ok(Instruction::Calla(Calla::new(Operand::Absolute20(abs20))));
            },
            0xB => {
                if remaining.len() < 2 {
                    return Err(DecodeError::MissingOperand);
                }
                let imm20 = read_operand20(ext_data, remaining);
                return Ok(Instruction::Calla(Calla::new(Operand::Immediate20(imm20))));
            },
            _ => {},
        }
    }
    if upper_byte == 0x00 && mode_nibble == 0xC {
        if rd == 0 && remaining.len() >= 2 {
            let operand20 = read_operand20(ext_data, remaining);
            return Ok(Instruction::Bra(Bra::new(Operand::Absolute20(operand20))));
        } else {
            return Ok(Instruction::Bra(Bra::new(Operand::RegisterDirect(rd))));
        }
    }
    Err(DecodeError::InvalidOpcode(upper_byte))
}

/// Decode a base MSP430 instruction (no extension word).
fn decode_base_msp430(first_word: u16, remaining_data: &[u8]) -> (r: Result<Instruction, DecodeError>)
    ensures
        r == spec_decode_base(first_word, remaining_data@),
{
    proof {
        lemma_word_fields(first_word);
    }
    let inst_type = first_word & INST_TYPE_MASK;
    match inst_type {
        SINGLE_OPERAND_INSTRUCTION => decode_single_operand(first_word, remaining_data),
        JMP_INSTRUCTION => Ok(decode_jxx(first_word)),
        _ => decode_two_operand(first_word, remaining_data),
    }
}

fn decode_single_operand(first_word: u16, remaining_data: &[u8]) -> (r: Result<Instruction, DecodeError>)
    ensures
        r == spec_decode_single_operand(first_word, remaining_data@),
{
    proof {
        lemma_word_fields(first_word);
    }
    let opcode = (SINGLE_OPERAND_OPCODE_MASK & first_word) >> 7;
    let register = (SINGLE_OPERAND_REGISTER_MASK & first_word) as u8;
    let source_addressing = (SINGLE_OPERAND_SOURCE_MASK & first_word) >> 4;
    let operand_width = OperandWidth::from(((SINGLE_OPERAND_WIDTH_MASK & first_word) >> 6) as u8);
    let (source, _) = match parse_source(register, source_addressing, remaining_data, None) {
        Ok(parsed) => parsed,
        Err(e) => return Err(e),
    };
    match opcode {
        RRC_OPCODE => Ok(Instruction::Rrc(SingleOperand::new("rrc", source, Some(operand_width)))),
        SWPB_OPCODE => Ok(Instruction::Swpb(SingleOperand::new("swpb", source, None))),
        RRA_OPCODE => Ok(Instruction::Rra(SingleOperand::new("rra", source, Some(operand_width)))),
        SXT_OPCODE => Ok(Instruction::Sxt(SingleOperand::new("sxt", source, None))),
        PUSH_OPCODE => Ok(Instruction::Push(SingleOperand::new("push", source, Some(operand_width)))),
        CALL_OPCODE => Ok(Instruction::Call(SingleOperand::new("call", source, None))),
        RETI_OPCODE => Ok(Instruction::Reti(Reti::new())),
        _ => Err(DecodeError::InvalidOpcode(opcode)),
    }
}

fn decode_jxx(first_word: u16) -> (r: Instruction)
    ensures
        r == spec_decode_jxx(first_word),
{
    proof {
        lemma_word_fields(first_word);
    }
    let condition = (first_word & JMP_CONDITION_MASK) >> 10;
    let offset = jxx_fix_offset(first_word & JMP_OFFSET);
    match condition {
        0 => Instruction::Jnz(Jxx::new("jnz", offset)),
        1 => Instruction::Jz(Jxx::new("jz", offset)),
        2 => Instruction::Jlo(Jxx::new("jlo", offset)),
        3 => Instruction::Jc(Jxx::new("jc", offset)),
        4 => Instruction::Jn(Jxx::new("jn", offset)),
        5 => Instruction::Jge(Jxx::new("jge", offset)),
        6 => Instruction::Jl(Jxx::new("jl", offset)),
        _ => Instruction::Jmp(Jxx::new("jmp", offset)),
    }
}

/// The two-operand instruction, or its emulated form where one applies.
fn emulated_or(opcode: u16, inst: TwoOperand, plain: Instruction) -> (r: Instruction)
    requires
        spec_emulate(opcode, inst) is None ==> plain == two_operand_result(opcode as int, inst),
    ensures
        r == two_operand_result(opcode as int, inst),
{
    match emulate(opcode, &inst) {
        Some(e) => e,
        None => plain,
    }
}

fn decode_two_operand(first_word: u16, remaining_data: &[u8]) -> (r: Result<Instruction, DecodeError>)
    ensures
        r == spec_decode_two_operand(first_word, remaining_data@),
{
    proof {
        lemma_word_fields(first_word);
    }
    let opcode = (first_word & TWO_OPERAND_OPCODE_MASK) >> 12;
    let source_register = ((first_word & TWO_OPERAND_SOURCE_MASK) >> 8) as u8;
    let ad = (first_word & TWO_OPERAND_AD_MASK) >> 7;
    let operand_width = OperandWidth::from(((first_word & TWO_OPERAND_WIDTH) >> 6) as u8);
    let source_addressing = (first_word & TWO_OPERAND_AS) >> 4;
    let destination_register = (first_word & TWO_OPERAND_DESTINATION) as u8;
    let (source, remaining_data) = match parse_source(
        source_register,
        source_addressing,
        remaining_data,
        None,
    ) {
        Ok(parsed) => parsed,
        Err(e) => return Err(e),
    };
    let destination = match parse_destination(destination_register, ad, remaining_data, None) {
        Ok(d) => d,
        Err(e) => return Err(e),
    };
    let mnemonic = match opcode {
        MOV_OPCODE => "mov",
        ADD_OPCODE => "add",
        ADDC_OPCODE => "addc",
        SUBC_OPCODE => "subc",
        SUB_OPCODE => "sub",
        CMP_OPCODE => "cmp",
        DADD_OPCODE => "dadd",
        BIT_OPCODE => "bit",
        BIC_OPCODE => "bic",
        BIS_OPCODE => "bis",
        XOR_OPCODE => "xor",
        AND_OPCODE => "and",
        _ => return Err(DecodeError::InvalidOpcode(opcode)),
    };
    let inst = TwoOperand::new(mnemonic, source, operand_width, destination);
    match opcode {
        MOV_OPCODE => Ok(emulated_or(opcode, inst, Instruction::Mov(inst))),
        ADD_OPCODE => Ok(emulated_or(opcode, inst, Instruction::Add(inst))),
        ADDC_OPCODE => Ok(emulated_or(opcode, inst, Instruction::Addc(inst))),
        SUBC_OPCODE => Ok(emulated_or(opcode, inst, Instruction::Subc(inst))),
        SUB_OPCODE => Ok(emulated_or(opcode, inst, Instruction::Sub(inst))),
        CMP_OPCODE => Ok(emulated_or(opcode, inst, Instruction::Cmp(inst))),
        DADD_OPCODE => Ok(emulated_or(opcode, inst, Instruction::Dadd(inst))),
        BIT_OPCODE => Ok(Instruction::Bit(inst)),
        BIC_OPCODE => Ok(emulated_or(opcode, inst, Instruction::Bic(inst))),
        BIS_OPCODE => Ok(emulated_or(opcode, inst, Instruction::Bis(inst))),
        XOR_OPCODE => Ok(emulated_or(opcode, inst, Instruction::Xor(inst))),
        _ => Ok(Instruction::And(inst)),
    }
}

} // verus!
