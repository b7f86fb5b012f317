use std::num::ParseIntError;

use disasm8086::decode::{as_opcode_enum, parse_bin};
use disasm8086::formats::{DecodeError, Opcode};
use disasm8086::regs::register_name;

pub fn hex_to_bin(s: &str) -> Result<Vec<u8>, ParseIntError> {
    (0..s.len())
        .step_by(2)
        .map(|i| u8::from_str_radix(&s[i..i + 2], 16))
        .collect()
}

#[test]
fn add_positive_immediate_to_accumulator() {
    assert_eq!(
        parse_bin(hex_to_bin("05e803").unwrap()).unwrap(),
        "bits 16\n\n\nadd ax, 1000"
    );
}

#[test]
fn add_negative_immediate_to_accumulator() {
    assert_eq!(
        parse_bin(hex_to_bin("04e2").unwrap()).unwrap(),
        "bits 16\n\n\nadd al, -30"
    );
}

#[test]
fn add_immediate_to_displaced_memory() {
    assert_eq!(
        parse_bin(hex_to_bin("8382e8031d").unwrap()).unwrap(),
        "bits 16\n\n\nadd word [bp + si + 1000], 29"
    );
}

#[test]
fn sub_positive_immediate_from_memory() {
    assert_eq!(
        parse_bin(hex_to_bin("802f22").unwrap()).unwrap(),
        "bits 16\n\n\nsub byte [bx], 34"
    );
}

#[test]
fn sub_immediate_from_accumulator() {
    assert_eq!(
        parse_bin(hex_to_bin("2c09").unwrap()).unwrap(),
        "bits 16\n\n\nsub al, 9"
    );
}

#[test]
fn comp_register_and_memory() {
    assert_eq!(
        parse_bin(hex_to_bin("3b18").unwrap()).unwrap(),
        "bits 16\n\n\ncmp bx, [bx + si]"
    );
}

#[test]
fn comp_immediate_with_register() {
    // The destination is the register si, so no size qualifier is emitted.
    assert_eq!(
        parse_bin(hex_to_bin("83fe02").unwrap()).unwrap(),
        "bits 16\n\n\ncmp si, 2"
    );
}

#[test]
fn comp_immediate_with_accumulator() {
    assert_eq!(
        parse_bin(hex_to_bin("3de803").unwrap()).unwrap(),
        "bits 16\n\n\ncmp ax, 1000"
    )
}

#[test]
fn empty_input_gives_bare_header() {
    assert_eq!(parse_bin(Vec::new()).unwrap(), "bits 16\n\n");
}

#[test]
fn two_instructions_in_sequence() {
    assert_eq!(
        parse_bin(hex_to_bin("3b1805e803").unwrap()).unwrap(),
        "bits 16\n\n\ncmp bx, [bx + si]\nadd ax, 1000"
    );
}

#[test]
fn mov_register_to_register() {
    // d bit clear: the rm field is the destination.
    assert_eq!(
        parse_bin(hex_to_bin("89d9").unwrap()).unwrap(),
        "bits 16\n\n\nmov cx, bx"
    );
}

#[test]
fn mov_register_to_register_d_set() {
    // The same register pair with the d bit set swaps the operands.
    assert_eq!(
        parse_bin(hex_to_bin("8bd9").unwrap()).unwrap(),
        "bits 16\n\n\nmov bx, cx"
    );
}

#[test]
fn mov_byte_register_to_register() {
    assert_eq!(
        parse_bin(hex_to_bin("88c1").unwrap()).unwrap(),
        "bits 16\n\n\nmov cl, al"
    );
}

#[test]
fn register_naming_table() {
    assert_eq!(register_name(true, 0), "ax");
    assert_eq!(register_name(false, 0), "al");
    assert_eq!(register_name(true, 6), "si");
    assert_eq!(register_name(false, 6), "dh");
}

#[test]
fn mov_immediate_to_word_register() {
    assert_eq!(
        parse_bin(hex_to_bin("b8e803").unwrap()).unwrap(),
        "bits 16\n\n\nmov ax, 1000"
    );
}

#[test]
fn mov_immediate_to_byte_register() {
    assert_eq!(
        parse_bin(hex_to_bin("b105").unwrap()).unwrap(),
        "bits 16\n\n\nmov cl, 5"
    );
}

#[test]
fn mov_largest_word_immediate() {
    assert_eq!(
        parse_bin(hex_to_bin("b8ffff").unwrap()).unwrap(),
        "bits 16\n\n\nmov ax, 65535"
    );
}

#[test]
fn direct_address_not_bp() {
    // mod = 0 with rm = 6 is a plain 16-bit address, never "[bp]".
    assert_eq!(
        parse_bin(hex_to_bin("8b16e803").unwrap()).unwrap(),
        "bits 16\n\n\nmov dx, [1000]"
    );
}

#[test]
fn direct_address_high_bit() {
    // The direct address is read as a signed 16-bit value.
    assert_eq!(
        parse_bin(hex_to_bin("8b16ffff").unwrap()).unwrap(),
        "bits 16\n\n\nmov dx, [-1]"
    );
}

#[test]
fn negative_byte_displacement() {
    // 0xf0 has bit 7 set: rendered as minus the magnitude 256 - 0xf0 = 16.
    assert_eq!(
        parse_bin(hex_to_bin("8b42f0").unwrap()).unwrap(),
        "bits 16\n\n\nmov ax, [bp + si - 16]"
    );
}

#[test]
fn zero_byte_displacement_suppressed() {
    assert_eq!(
        parse_bin(hex_to_bin("8b4000").unwrap()).unwrap(),
        "bits 16\n\n\nmov ax, [bx + si]"
    );
}

#[test]
fn negative_word_displacement() {
    assert_eq!(
        parse_bin(hex_to_bin("8b82f0ff").unwrap()).unwrap(),
        "bits 16\n\n\nmov ax, [bp + si - 16]"
    );
}

#[test]
fn memory_to_accumulator() {
    assert_eq!(
        parse_bin(hex_to_bin("a1e803").unwrap()).unwrap(),
        "bits 16\n\n\nmov ax, [1000]"
    );
}

#[test]
fn memory_to_accumulator_byte() {
    assert_eq!(
        parse_bin(hex_to_bin("a00b").unwrap()).unwrap(),
        "bits 16\n\n\nmov al, [11]"
    );
}

#[test]
fn accumulator_to_memory() {
    assert_eq!(
        parse_bin(hex_to_bin("a3e803").unwrap()).unwrap(),
        "bits 16\n\n\nmov [1000], ax"
    );
}

#[test]
fn accumulator_to_memory_byte() {
    assert_eq!(
        parse_bin(hex_to_bin("a20b").unwrap()).unwrap(),
        "bits 16\n\n\nmov [11], al"
    );
}

#[test]
fn mov_word_immediate_to_memory() {
    assert_eq!(
        parse_bin(hex_to_bin("c7070100").unwrap()).unwrap(),
        "bits 16\n\n\nmov [bx], word 1"
    );
}

#[test]
fn mov_byte_immediate_to_memory() {
    assert_eq!(
        parse_bin(hex_to_bin("c60722").unwrap()).unwrap(),
        "bits 16\n\n\nmov [bx], byte 34"
    );
}

#[test]
fn mov_word_immediate_to_register_no_qualifier() {
    assert_eq!(
        parse_bin(hex_to_bin("c7c10500").unwrap()).unwrap(),
        "bits 16\n\n\nmov cx, 5"
    );
}

#[test]
fn mov_byte_immediate_to_register_no_qualifier() {
    assert_eq!(
        parse_bin(hex_to_bin("c6c122").unwrap()).unwrap(),
        "bits 16\n\n\nmov cl, 34"
    );
}

#[test]
fn add_immediate_to_register_no_qualifier() {
    assert_eq!(
        parse_bin(hex_to_bin("80c305").unwrap()).unwrap(),
        "bits 16\n\n\nadd bl, 5"
    );
}

#[test]
fn unrecognized_leading_byte() {
    let e = parse_bin(hex_to_bin("f4").unwrap()).unwrap_err();
    assert_eq!(e, DecodeError::UnrecognizedOpcode { offset: 0, byte: 0xf4 });
    assert_eq!(e.describe(), "unrecognized opcode 11110100 at offset 0");
}

#[test]
fn unrecognized_byte_after_instruction() {
    let e = parse_bin(hex_to_bin("3b18f4").unwrap()).unwrap_err();
    assert_eq!(e, DecodeError::UnrecognizedOpcode { offset: 2, byte: 0xf4 });
}

#[test]
fn unrecognized_sub_operation_in_ambiguous_group() {
    // 0x80 with reg sub-field 3 has no decoder and must fail loudly.
    let e = parse_bin(hex_to_bin("80d805").unwrap()).unwrap_err();
    assert_eq!(e, DecodeError::UnrecognizedOpcode { offset: 0, byte: 0x80 });
}

#[test]
fn unhandled_segment_register_move() {
    let e = parse_bin(hex_to_bin("8ed8").unwrap()).unwrap_err();
    assert_eq!(e, DecodeError::UnhandledFormat { offset: 0, byte: 0x8e });
    assert_eq!(e.describe(), "unhandled operation 10001110 at offset 0");
}

#[test]
fn truncated_word_immediate() {
    let e = parse_bin(hex_to_bin("b801").unwrap()).unwrap_err();
    assert_eq!(e, DecodeError::Truncated { offset: 0 });
    assert_eq!(e.describe(), "truncated instruction at offset 0");
}

#[test]
fn truncated_displacement() {
    let e = parse_bin(hex_to_bin("3b1805e8").unwrap()).unwrap_err();
    assert_eq!(e, DecodeError::Truncated { offset: 2 });
}

#[test]
fn classifier_precedence() {
    assert!(matches!(
        as_opcode_enum([0x8e, 0x00]),
        Some(Opcode::MovRegisterOrMemoryToSegmentRegister)
    ));
    assert!(matches!(
        as_opcode_enum([0x8c, 0x00]),
        Some(Opcode::MovSegmentRegisterToRegisterOrMemory)
    ));
    assert!(matches!(
        as_opcode_enum([0x89, 0x00]),
        Some(Opcode::MovRegisterOrMemoryToOrFromRegister)
    ));
    assert!(matches!(
        as_opcode_enum([0x83, 0x28]),
        Some(Opcode::SubImmediateToRegisterOrMemory)
    ));
    assert!(matches!(
        as_opcode_enum([0x83, 0x38]),
        Some(Opcode::CmpImmediateWithRegisterOrMemory)
    ));
    assert!(matches!(
        as_opcode_enum([0x83, 0x00]),
        Some(Opcode::AddImmediateToRegisterOrMemory)
    ));
    assert!(matches!(as_opcode_enum([0x83, 0x18]), None));
    assert!(matches!(as_opcode_enum([0xf4, 0x00]), None));
}
