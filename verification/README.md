# msp430-asm-extended

A verified decoder for MSP430 and MSP430X (20-bit) machine code, and a lifter from decoded
instructions to a low-level IL, written in Verus.

- `src/extension_word.rs`: the MSP430X extension word and its fields.
- `src/operand.rs`: operands, widths and the source/destination operand parsers.
- `src/msp430x_instructions.rs`, `src/single_operand.rs`, `src/two_operand.rs`, `src/jxx.rs`,
  `src/emulate.rs`, `src/instruction.rs`: the instruction types and the emulated-instruction
  table.
- `src/lib.rs`: `decode`, with its specification `spec_decode` over byte sequences.
- `src/decode_properties.rs`: properties of `decode` for every input (sizes, trailing bytes,
  register counts).
- `src/llil.rs`, `src/lift.rs`, `src/lift_properties.rs`: the IL model, the lifter and its
  properties.
- `src/text.rs`: number formatting for the textual form of instructions and errors.
- `app/main.rs`: a small program that decodes encodings taken from GCC output.
