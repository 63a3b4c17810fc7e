//! Properties of the decoder that hold for every input.
use crate::decode_error::DecodeError;
use crate::extension_word::{is_extension_prefix, le_word, ExtensionWord};
use crate::instruction::Instruction;
use crate::msp430x_instructions::{AddressInstruction, Bra, Calla};
use crate::emulate::spec_emulate;
use crate::operand::{spec_parse_destination, spec_parse_source, Operand, OperandWidth};
use crate::two_operand::TwoOperand;
use crate::{
    two_operand_mnemonic, two_operand_result,
    spec_decode, spec_decode_address, spec_decode_base, spec_decode_msp430x_words,
    spec_decode_single_operand, spec_decode_two_operand, spec_decode_with_extension,
};
use vstd::prelude::*;

verus! {

/// A source operand parses the same from a prefix of the bytes that still holds its data;
/// what is left over is cut to the same prefix.
pub proof fn lemma_parse_source_prefix(
    register: u8,
    addressing_mode: u16,
    data: Seq<u8>,
    n: int,
    extension: Option<&ExtensionWord>,
)
    ensures
        spec_parse_source(register, addressing_mode, data, extension) matches Ok((op, rest)) ==> (
        op.spec_size() <= n <= data.len() ==> spec_parse_source(
            register,
            addressing_mode,
            data.subrange(0, n),
            extension,
        ) == Ok::<(Operand, Seq<u8>), DecodeError>((op, rest.subrange(0, n - op.spec_size())))),
{
    lemma_parse_source_consumes(register, addressing_mode, data, extension);
    if let Ok((op, rest)) = spec_parse_source(register, addressing_mode, data, extension) {
        if op.spec_size() <= n <= data.len() {
            let pre = data.subrange(0, n);
            if op.spec_size() == 2 {
                assert(pre[0] == data[0] && pre[1] == data[1]);
                assert(pre.subrange(2, pre.len() as int) =~= rest.subrange(0, n - 2));
            } else {
                assert(pre =~= rest.subrange(0, n));
            }
        }
    }
}

/// A destination operand parses the same from a prefix of the bytes that still holds its
/// data.
pub proof fn lemma_parse_destination_prefix(
    register: u8,
    ad_bit: u16,
    data: Seq<u8>,
    n: int,
    extension: Option<&ExtensionWord>,
)
    ensures
        spec_parse_destination(register, ad_bit, data, extension) matches Ok(op) ==> (
        op.spec_size() <= n <= data.len() ==> spec_parse_destination(
            register,
            ad_bit,
            data.subrange(0, n),
            extension,
        ) == Ok::<Operand, DecodeError>(op)),
{
    if let Ok(op) = spec_parse_destination(register, ad_bit, data, extension) {
        if op.spec_size() <= n <= data.len() && op.spec_size() == 2 {
            let pre = data.subrange(0, n);
            assert(pre[0] == data[0] && pre[1] == data[1]);
        }
    }
}

/// Parsing a source operand takes exactly the operand's data bytes off the front.
pub proof fn lemma_parse_source_consumes(
    register: u8,
    addressing_mode: u16,
    data: Seq<u8>,
    extension: Option<&ExtensionWord>,
)
    ensures
        spec_parse_source(register, addressing_mode, data, extension) matches Ok((op, rest)) ==> {
            &&& op.spec_size() <= data.len()
            &&& rest == data.subrange(op.spec_size() as int, data.len() as int)
        },
{
    if let Ok((op, rest)) = spec_parse_source(register, addressing_mode, data, extension) {
        if op.spec_size() == 0 {
            assert(data.subrange(0, data.len() as int) =~= data);
        }
    }
}

/// Bytes appended after a source operand leave it unchanged and stay in what is left over.
pub proof fn lemma_parse_source_append(
    register: u8,
    addressing_mode: u16,
    data: Seq<u8>,
    more: Seq<u8>,
    extension: Option<&ExtensionWord>,
)
    ensures
        spec_parse_source(register, addressing_mode, data, extension) matches Ok((op, rest))
            ==> spec_parse_source(register, addressing_mode, data + more, extension) == Ok::<
            (Operand, Seq<u8>),
            DecodeError,
        >((op, rest + more)),
{
    let whole = data + more;
    if data.len() >= 2 {
        assert(whole[0] == data[0] && whole[1] == data[1]);
        assert(whole.subrange(2, whole.len() as int) =~= data.subrange(2, data.len() as int)
            + more);
    }
}

/// Bytes appended after a destination operand leave it unchanged.
pub proof fn lemma_parse_destination_append(
    register: u8,
    ad_bit: u16,
    data: Seq<u8>,
    more: Seq<u8>,
    extension: Option<&ExtensionWord>,
)
    ensures
        spec_parse_destination(register, ad_bit, data, extension) matches Ok(op)
            ==> spec_parse_destination(register, ad_bit, data + more, extension) == Ok::<
            Operand,
            DecodeError,
        >(op),
{
    let whole = data + more;
    if data.len() >= 2 {
        assert(whole[0] == data[0] && whole[1] == data[1]);
    }
}

/// A decoded instruction never claims more bytes than the decoder was given: its size
/// (instruction word and operand data) fits in `data`, and with an extension word it fits
/// in what follows the extension word.
pub proof fn lemma_decode_size(data: Seq<u8>)
    ensures
        spec_decode(data) matches Ok(inst) ==> {
            &&& inst.spec_size() <= data.len()
            &&& is_extension_prefix(le_word(data[0], data[1])) ==> inst.spec_size() + 2
                <= data.len()
        },
{
    broadcast use crate::msp430x_instructions::group_msp430x_fields;
    broadcast use crate::single_operand::SingleOperand::lemma_fields;
    broadcast use crate::two_operand::TwoOperand::lemma_fields;
    broadcast use crate::emulate::Emulated::lemma_fields;

    if data.len() >= 2 {
        let w = le_word(data[0], data[1]);
        let rest = data.subrange(2, data.len() as int);
        if !is_extension_prefix(w) && spec_decode_msp430x_words(w, rest) is None {
            let reg = (w as int % 16) as u8;
            let mode = ((w as int / 16) % 4) as u16;
            lemma_parse_source_consumes(reg, mode, rest, None);
            let sreg = ((w as int / 256) % 16) as u8;
            lemma_parse_source_consumes(sreg, mode, rest, None);
        }
    }
}

/// The number of bytes an instruction decoded from `data` occupies: its size, plus two for
/// an extension word.
pub open spec fn encoded_len(data: Seq<u8>, inst: Instruction) -> int {
    if is_extension_prefix(le_word(data[0], data[1])) {
        inst.spec_size() as int + 2
    } else {
        inst.spec_size() as int
    }
}

/// Whether `data` starts with a RETI word whose operand field (which RETI ignores) names an
/// operand with a data word: the decoder reads that word, but RETI's size does not count it.
pub open spec fn is_reti_with_operand_word(data: Seq<u8>) -> bool {
    data.len() >= 2 && {
        let w = le_word(data[0], data[1]);
        &&& spec_decode(data) matches Ok(Instruction::Reti(_))
        &&& spec_parse_source(
            (w as int % 16) as u8,
            ((w as int / 16) % 4) as u16,
            data.subrange(2, data.len() as int),
            None,
        ) matches Ok((op, _)) && op.spec_size() > 0
    }
}

/// A decoded instruction is exactly the bytes it occupies: decoding just those bytes gives
/// the same instruction. The exception is a RETI word whose ignored operand field names an
/// operand with a data word, which the decoder still requires.
pub proof fn lemma_decode_prefix(data: Seq<u8>)
    ensures
        spec_decode(data) matches Ok(inst) ==> {
            &&& encoded_len(data, inst) <= data.len()
            &&& !is_reti_with_operand_word(data) ==> spec_decode(
                data.subrange(0, encoded_len(data, inst)),
            ) == Ok::<Instruction, DecodeError>(inst)
        },
{
    broadcast use crate::msp430x_instructions::group_msp430x_fields;
    broadcast use crate::single_operand::SingleOperand::lemma_fields;
    broadcast use crate::two_operand::TwoOperand::lemma_fields;
    broadcast use crate::emulate::Emulated::lemma_fields;

    lemma_decode_size(data);
    if let Ok(inst) = spec_decode(data) {
        let n = encoded_len(data, inst);
        let pre = data.subrange(0, n);
        assert(pre[0] == data[0] && pre[1] == data[1]);
        let w = le_word(data[0], data[1]);
        let rest = data.subrange(2, data.len() as int);
        let prest = pre.subrange(2, n);
        assert(prest =~= rest.subrange(0, n - 2));
        if is_extension_prefix(w) {
            assert(rest[0] == prest[0] && rest[1] == prest[1]);
            let r2 = rest.subrange(2, rest.len() as int);
            let p2 = prest.subrange(2, prest.len() as int);
            if p2.len() >= 2 {
                assert(r2[0] == p2[0] && r2[1] == p2[1]);
            }
            assert(spec_decode_with_extension(w, prest) == Ok::<Instruction, DecodeError>(inst));
        } else if spec_decode_address(w, rest) is Some {
            if prest.len() >= 2 {
                assert(rest[0] == prest[0] && rest[1] == prest[1]);
            }
            assert(spec_decode_msp430x_words(w, prest) == Some(
                Ok::<Instruction, DecodeError>(inst),
            ));
        } else if spec_decode_msp430x_words(w, rest) is None {
            let k = n - 2;
            let reg = (w as int % 16) as u8;
            let mode = ((w as int / 16) % 4) as u16;
            lemma_parse_source_prefix(reg, mode, rest, k, None);
            let sreg = ((w as int / 256) % 16) as u8;
            let ad = ((w as int / 128) % 2) as u16;
            let dreg = (w as int % 16) as u8;
            lemma_parse_source_consumes(sreg, mode, rest, None);
            lemma_parse_source_prefix(sreg, mode, rest, k, None);
            if w as int / 8192 == 0 {
                assert(!is_reti_with_operand_word(data) ==> spec_decode_single_operand(w, prest)
                    == Ok::<Instruction, DecodeError>(inst));
            } else if w as int / 8192 >= 2 {
                if let Ok((src, r)) = spec_parse_source(sreg, mode, rest, None) {
                    lemma_parse_destination_prefix(dreg, ad, r, k - src.spec_size(), None);
                    if let Ok(dst) = spec_parse_destination(dreg, ad, r, None) {
                        let opcode = w as int / 4096;
                        let width = crate::operand::width_from_code(((w as int / 64) % 2) as u8);
                        let t = TwoOperand::spec_new(two_operand_mnemonic(opcode), src, width, dst);
                        assert(two_operand_result(opcode, t).spec_size() == t.spec_size());
                        assert(k == src.spec_size() + dst.spec_size());
                    }
                }
                assert(spec_decode_two_operand(w, prest) == Ok::<Instruction, DecodeError>(inst));
            }
        }
    }
}

/// Whether `inst` is `BRA R0`, the one form that the decoder reads differently when a data
/// word follows it (it then decodes as `BRA &addr`).
pub open spec fn is_bra_r0(inst: Instruction) -> bool {
    inst == Instruction::Bra(Bra::spec_new(Operand::RegisterDirect(0)))
}

/// Decoding looks no further than the instruction it returns: appending bytes to a byte
/// sequence that decodes to `inst` gives `inst` again. The one exception is `BRA R0`
/// (extension word, then `0x00C0`), which takes a following data word as a 20-bit
/// address when there is one.
pub proof fn lemma_decode_append(data: Seq<u8>, more: Seq<u8>)
    ensures
        spec_decode(data) matches Ok(inst) ==> (!is_bra_r0(inst) ==> spec_decode(data + more)
            == Ok::<Instruction, DecodeError>(inst)),
{
    let whole = data + more;
    if data.len() >= 2 {
        assert(whole[0] == data[0] && whole[1] == data[1]);
        let w = le_word(data[0], data[1]);
        let rest = data.subrange(2, data.len() as int);
        assert(whole.subrange(2, whole.len() as int) =~= rest + more);
        if is_extension_prefix(w) {
            let all = rest + more;
            if rest.len() >= 2 {
                assert(all[0] == rest[0] && all[1] == rest[1]);
                let r2 = rest.subrange(2, rest.len() as int);
                assert(all.subrange(2, all.len() as int) =~= r2 + more);
                if r2.len() >= 2 {
                    assert((r2 + more)[0] == r2[0] && (r2 + more)[1] == r2[1]);
                }
            }
            assert(spec_decode_with_extension(w, rest) matches Ok(inst) ==> (!is_bra_r0(inst)
                ==> spec_decode_with_extension(w, rest + more) == Ok::<Instruction, DecodeError>(
                inst,
            )));
        } else if spec_decode_msp430x_words(w, rest) is None {
            let reg = (w as int % 16) as u8;
            let mode = ((w as int / 16) % 4) as u16;
            lemma_parse_source_append(reg, mode, rest, more, None);
            assert(spec_decode_single_operand(w, rest) matches Ok(inst)
                ==> spec_decode_single_operand(w, rest + more) == Ok::<Instruction, DecodeError>(
                inst,
            ));
            let sreg = ((w as int / 256) % 16) as u8;
            let ad = ((w as int / 128) % 2) as u16;
            let dreg = (w as int % 16) as u8;
            lemma_parse_source_append(sreg, mode, rest, more, None);
            if let Ok((src, r)) = spec_parse_source(sreg, mode, rest, None) {
                lemma_parse_destination_append(dreg, ad, r, more, None);
            }
            assert(spec_decode_two_operand(w, rest) matches Ok(inst)
                ==> spec_decode_two_operand(w, rest + more) == Ok::<Instruction, DecodeError>(
                inst,
            ));
            assert(spec_decode_base(w, rest) matches Ok(inst)
                ==> spec_decode_base(w, rest + more) == Ok::<Instruction, DecodeError>(inst));
        }
    }
}

/// The register-count instructions the decoder produces move 1 to 16 registers for PUSHM and
/// POPM, or rotate by 1 to 4 bits. PUSHM and the rotations name one of the sixteen registers;
/// POPM names the last register popped, which lies past r15 when the encoded list runs off
/// the end of the register file.
pub proof fn lemma_decoded_counts(data: Seq<u8>)
    ensures
        spec_decode(data) matches Ok(inst) ==> match inst {
            Instruction::Pushm(p) => 1 <= p.spec_count() <= 16 && p.spec_register() < 16,
            Instruction::Popm(p) => 1 <= p.spec_count() <= 16 && p.spec_register() < 31,
            Instruction::Rrcm(r) | Instruction::Rram(r) | Instruction::Rlam(r) | Instruction::Rrum(
                r,
            ) => 1 <= r.spec_count() <= 4 && r.spec_register() < 16,
            _ => true,
        },
{
    broadcast use crate::msp430x_instructions::group_msp430x_fields;
    broadcast use crate::single_operand::SingleOperand::lemma_fields;
    broadcast use crate::two_operand::TwoOperand::lemma_fields;
    broadcast use crate::emulate::Emulated::lemma_fields;

    if data.len() >= 2 {
        let w = le_word(data[0], data[1]);
        let rest = data.subrange(2, data.len() as int);
        if !is_extension_prefix(w) && spec_decode_msp430x_words(w, rest) is None {
            assert(spec_decode_base(w, rest) matches Ok(inst) ==> !(inst is Pushm || inst is Popm
                || inst is Rrcm || inst is Rram || inst is Rlam || inst is Rrum));
        }
    }
}

/// The 20-bit value made of an extension word's low four bits (bits 16 to 19) above a data
/// word (bits 0 to 15).
pub open spec fn extended20(ext: u16, v: u16) -> u32 {
    ((ext as int % 16) * 0x10000 + v as int) as u32
}

/// The instruction that an extension word `ext` and an instruction word `iw` stand for, with
/// `x` the 20-bit operand made of the extension's low four bits and the data word after the
/// instruction word, and `has_word` whether that data word is there.
pub open spec fn extended_instruction(ext: u16, iw: u16, x: u32, has_word: bool) -> Result<
    Instruction,
    DecodeError,
> {
    let rd = Operand::RegisterDirect((iw as int % 16) as u8);
    let form = iw as int / 16;
    let with_word = form == 0x001 || form == 0x002 || form == 0x003 || form == 0x005 || form
        == 0x009 || form == 0x00A || form == 0x00B || form == 0x138 || form == 0x13B;
    if with_word && !has_word {
        Err(DecodeError::MissingOperand)
    } else if form == 0x001 {
        Ok(Instruction::Mova(AddressInstruction::spec_new("mova", Operand::Indexed20((1, x as i32)), rd)))
    } else if form == 0x002 {
        Ok(Instruction::Mova(AddressInstruction::spec_new("mova", Operand::Immediate20(x), rd)))
    } else if form == 0x003 {
        Ok(Instruction::Mova(AddressInstruction::spec_new("mova", Operand::Absolute20(x), rd)))
    } else if form == 0x005 {
        Ok(Instruction::Mova(AddressInstruction::spec_new("mova", Operand::RegisterDirect(5), Operand::Absolute20(x))))
    } else if form == 0x006 {
        Ok(Instruction::Mova(AddressInstruction::spec_new("mova", Operand::RegisterDirect(6), rd)))
    } else if form == 0x009 {
        Ok(Instruction::Cmpa(AddressInstruction::spec_new("cmpa", Operand::Immediate20(x), rd)))
    } else if form == 0x00A {
        Ok(Instruction::Adda(AddressInstruction::spec_new("adda", Operand::Immediate20(x), rd)))
    } else if form == 0x00B {
        Ok(Instruction::Suba(AddressInstruction::spec_new("suba", Operand::Immediate20(x), rd)))
    } else if form == 0x00C {
        if iw as int % 16 == 0 && has_word {
            Ok(Instruction::Bra(Bra::spec_new(Operand::Absolute20(x))))
        } else {
            Ok(Instruction::Bra(Bra::spec_new(rd)))
        }
    } else if form == 0x134 {
        Ok(Instruction::Calla(Calla::spec_new(rd)))
    } else if form == 0x138 {
        Ok(Instruction::Calla(Calla::spec_new(Operand::Absolute20(x))))
    } else if form == 0x13B {
        Ok(Instruction::Calla(Calla::spec_new(Operand::Immediate20(x))))
    } else {
        Err(DecodeError::InvalidOpcode((iw as int / 256) as u16))
    }
}

/// After an extension word, the instruction word picks the instruction, and every 20-bit
/// operand (immediate, absolute or index) takes its bits 16 to 19 from the extension word's
/// low four bits and its bits 0 to 15 from the data word that follows the instruction word:
/// `[ext, 0x00A0 | r, v]` is ADDA #((ext & 0xF) << 16 | v), r, and likewise for MOVA, CMPA,
/// SUBA, CALLA and BRA. Without the instruction word the decoder reports a missing
/// instruction, and without a data word that the form needs, a missing operand.
pub proof fn lemma_extension_operands(data: Seq<u8>)
    requires
        data.len() >= 2,
        is_extension_prefix(le_word(data[0], data[1])),
    ensures
        data.len() < 4 ==> spec_decode(data) == Err::<Instruction, DecodeError>(
            DecodeError::MissingInstruction,
        ),
        data.len() >= 4 ==> spec_decode(data) == extended_instruction(
            le_word(data[0], data[1]),
            le_word(data[2], data[3]),
            if data.len() >= 6 {
                extended20(le_word(data[0], data[1]), le_word(data[4], data[5]))
            } else {
                0
            },
            data.len() >= 6,
        ),
{
    let rest = data.subrange(2, data.len() as int);
    if data.len() >= 4 {
        assert(rest[0] == data[2] && rest[1] == data[3]);
        if data.len() >= 6 {
            let r2 = rest.subrange(2, rest.len() as int);
            assert(r2[0] == data[4] && r2[1] == data[5]);
        }
    }
}

/// The opcode field, mnemonic and operands of a two-operand instruction variant; `None` for
/// any other instruction.
pub open spec fn two_operand_kind(inst: Instruction) -> Option<(int, &'static str, TwoOperand)> {
    match inst {
        Instruction::Mov(t) => Some((4, "mov", t)),
        Instruction::Add(t) => Some((5, "add", t)),
        Instruction::Addc(t) => Some((6, "addc", t)),
        Instruction::Subc(t) => Some((7, "subc", t)),
        Instruction::Sub(t) => Some((8, "sub", t)),
        Instruction::Cmp(t) => Some((9, "cmp", t)),
        Instruction::Dadd(t) => Some((10, "dadd", t)),
        Instruction::Bit(t) => Some((11, "bit", t)),
        Instruction::Bic(t) => Some((12, "bic", t)),
        Instruction::Bis(t) => Some((13, "bis", t)),
        Instruction::Xor(t) => Some((14, "xor", t)),
        Instruction::And(t) => Some((15, "and", t)),
        _ => None,
    }
}

/// The mnemonic of the two-operand instruction with opcode field `k` (4 to 15).
pub open spec fn two_operand_name(k: int) -> &'static str {
    if k == 4 { "mov" } else if k == 5 { "add" } else if k == 6 { "addc" } else if k == 7 {
        "subc"
    } else if k == 8 { "sub" } else if k == 9 { "cmp" } else if k == 10 { "dadd" } else if k
        == 11 { "bit" } else if k == 12 { "bic" } else if k == 13 { "bis" } else if k == 14 {
        "xor"
    } else { "and" }
}

/// A two-operand word `kkkk ssss dwaa rrrr` with opcode field `k` from 4 to 15 decodes, when
/// both its operands parse, to the instruction its opcode field names (MOV, ADD, ADDC, SUBC,
/// SUB, CMP, DADD, BIT, BIC, BIS, XOR, AND for 4 to 15), with the parsed source, the width
/// from `w` (byte when set) and the parsed destination, unless the MSP430 table of emulated
/// instructions gives that instruction another name, in which case it decodes to that
/// emulated form. When an operand does not parse, its error is the result.
pub proof fn lemma_two_operand_variant(data: Seq<u8>)
    requires
        data.len() >= 2,
        le_word(data[0], data[1]) as int / 4096 >= 4,
    ensures
        ({
            let w = le_word(data[0], data[1]);
            let k = w as int / 4096;
            let rest = data.subrange(2, data.len() as int);
            let width = if (w as int / 64) % 2 == 1 {
                OperandWidth::Byte
            } else {
                OperandWidth::Word
            };
            match spec_parse_source(((w as int / 256) % 16) as u8, ((w as int / 16) % 4) as u16, rest, None) {
                Err(e) => spec_decode(data) == Err::<Instruction, DecodeError>(e),
                Ok((src, after)) => match spec_parse_destination(
                    (w as int % 16) as u8,
                    ((w as int / 128) % 2) as u16,
                    after,
                    None,
                ) {
                    Err(e) => spec_decode(data) == Err::<Instruction, DecodeError>(e),
                    Ok(dst) => spec_decode(data) matches Ok(inst) && match two_operand_kind(inst) {
                        Some((op, name, t)) => op == k && name == two_operand_name(k)
                            && t == TwoOperand::spec_new(name, src, width, dst)
                            && spec_emulate(k as u16, t) is None,
                        None => spec_emulate(
                            k as u16,
                            TwoOperand::spec_new(two_operand_name(k), src, width, dst),
                        ) == Some(inst),
                    },
                },
            }
        }),
{
    let w = le_word(data[0], data[1]);
    let rest = data.subrange(2, data.len() as int);
    assert(!is_extension_prefix(w));
    assert(spec_decode_msp430x_words(w, rest) is None);
}

} // verus!
