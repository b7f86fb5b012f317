//! The general properties of the decoding model, stated and proved once
//! over all inputs: the register naming table round-trips, rendered
//! immediates reconstruct the consumed bytes, the direct-addressing special
//! case consumes exactly two bytes and never renders as `[bp]`, negative
//! displacements render with a minus sign and the two's-complement
//! magnitude, and every decode step strictly advances the cursor.

use vstd::prelude::*;
use crate::addressing::{rm_len, rm_text, s16_le, sext8};
use crate::formats::{
    classify_spec, imm_reg_len, imm_reg_line, imm_rm_imm_len, imm_rm_line, op_len, op_line,
    rm_reg_len, rm_reg_line, Opcode,
};
use crate::regs::{byte_reg, reg_name, rm_base, word_reg};
use crate::text::{dec_digits, dec_int, is_dec_digit, lemma_dec_digits_are_digits};

verus! {

/// Reads a rendered register mnemonic back as its width bit and encoding
/// index: the inverse of the register naming table.
pub open spec fn reg_code_of(name: Seq<char>) -> Option<(bool, u8)> {
    if name.len() != 2 {
        None
    } else {
        let a = name[0];
        let b = name[1];
        if b == 'l' {
            if a == 'a' {
                Some((false, 0u8))
            } else if a == 'c' {
                Some((false, 1u8))
            } else if a == 'd' {
                Some((false, 2u8))
            } else if a == 'b' {
                Some((false, 3u8))
            } else {
                None
            }
        } else if b == 'h' {
            if a == 'a' {
                Some((false, 4u8))
            } else if a == 'c' {
                Some((false, 5u8))
            } else if a == 'd' {
                Some((false, 6u8))
            } else if a == 'b' {
                Some((false, 7u8))
            } else {
                None
            }
        } else if b == 'x' {
            if a == 'a' {
                Some((true, 0u8))
            } else if a == 'c' {
                Some((true, 1u8))
            } else if a == 'd' {
                Some((true, 2u8))
            } else if a == 'b' {
                Some((true, 3u8))
            } else {
                None
            }
        } else if b == 'p' {
            if a == 's' {
                Some((true, 4u8))
            } else if a == 'b' {
                Some((true, 5u8))
            } else {
                None
            }
        } else if b == 'i' {
            if a == 's' {
                Some((true, 6u8))
            } else if a == 'd' {
                Some((true, 7u8))
            } else {
                None
            }
        } else {
            None
        }
    }
}

proof fn reveal_register_names()
    ensures
        byte_reg(0) =~= seq!['a', 'l'],
        byte_reg(1) =~= seq!['c', 'l'],
        byte_reg(2) =~= seq!['d', 'l'],
        byte_reg(3) =~= seq!['b', 'l'],
        byte_reg(4) =~= seq!['a', 'h'],
        byte_reg(5) =~= seq!['c', 'h'],
        byte_reg(6) =~= seq!['d', 'h'],
        byte_reg(7) =~= seq!['b', 'h'],
        word_reg(0) =~= seq!['a', 'x'],
        word_reg(1) =~= seq!['c', 'x'],
        word_reg(2) =~= seq!['d', 'x'],
        word_reg(3) =~= seq!['b', 'x'],
        word_reg(4) =~= seq!['s', 'p'],
        word_reg(5) =~= seq!['b', 'p'],
        word_reg(6) =~= seq!['s', 'i'],
        word_reg(7) =~= seq!['d', 'i'],
{
    reveal_strlit("al");
    reveal_strlit("cl");
    reveal_strlit("dl");
    reveal_strlit("bl");
    reveal_strlit("ah");
    reveal_strlit("ch");
    reveal_strlit("dh");
    reveal_strlit("bh");
    reveal_strlit("ax");
    reveal_strlit("cx");
    reveal_strlit("dx");
    reveal_strlit("bx");
    reveal_strlit("sp");
    reveal_strlit("bp");
    reveal_strlit("si");
    reveal_strlit("di");
}

/// The register naming table round-trips: reading a rendered mnemonic back
/// recovers the width bit and index that produced it.
pub proof fn lemma_reg_name_round_trip(wide: bool, i: u8)
    requires
        i < 8,
    ensures
        reg_code_of(reg_name(wide, i)) == Some((wide, i)),
{
    reveal_register_names();
}

/// For a register-to-register instruction of the register/memory format
/// (mod = 3) the rendered line is the mnemonic and two register names, and
/// reading those names back through the naming table recovers exactly the
/// register pair that was encoded, in the order the d bit chose.
pub proof fn lemma_mov_reg_reg_round_trip(b0: u8, b1: u8)
    requires
        b0 >> 2 == 0b100010,
        b1 >> 6 == 3,
    ensures
        ({
            let wide = b0 & 1 == 1;
            let reg = (b1 >> 3) & 7;
            let rm = b1 & 7;
            let dst = if (b0 >> 1) & 1 == 1 {
                reg
            } else {
                rm
            };
            let src = if (b0 >> 1) & 1 == 1 {
                rm
            } else {
                reg
            };
            &&& rm_reg_len(seq![b0, b1], 0) == 2
            &&& rm_reg_line(seq![b0, b1], 0) == "mov"@ + " "@ + reg_name(wide, dst) + ", "@
                + reg_name(wide, src)
            &&& reg_code_of(reg_name(wide, dst)) == Some((wide, dst))
            &&& reg_code_of(reg_name(wide, src)) == Some((wide, src))
        }),
{
    let s = seq![b0, b1];
    assert(s[0] == b0 && s[1] == b1);
    assert((b1 >> 3) & 7 < 8 && b1 & 7 < 8) by (bit_vector);
    let wide = b0 & 1 == 1;
    lemma_reg_name_round_trip(wide, (b1 >> 3) & 7);
    lemma_reg_name_round_trip(wide, b1 & 7);
}

/// For an immediate-to-register encoding the rendered immediate is exactly
/// the numeric value reconstructed from the consumed immediate bytes:
/// little-endian at word width, the single byte verbatim at byte width.
pub proof fn lemma_immediate_to_register_value(b0: u8, lo: u8, hi: u8)
    requires
        b0 >> 4 == 0b1011,
    ensures
        (b0 >> 3) & 1 == 1 ==> imm_reg_len(seq![b0, lo, hi], 0) == 3,
        (b0 >> 3) & 1 == 1 ==> imm_reg_line(seq![b0, lo, hi], 0) == "mov "@ + word_reg(b0 & 7)
            + ", "@ + dec_digits((lo + 256 * hi) as nat),
        (b0 >> 3) & 1 == 0 ==> imm_reg_len(seq![b0, lo, hi], 0) == 2,
        (b0 >> 3) & 1 == 0 ==> imm_reg_line(seq![b0, lo, hi], 0) == "mov "@ + byte_reg(b0 & 7)
            + ", "@ + dec_digits(lo as nat),
{
    let s = seq![b0, lo, hi];
    assert(s[0] == b0 && s[1] == lo && s[2] == hi);
}

/// With mod = 0 the rm value 6 is the 8086 direct-addressing special case:
/// exactly two extra bytes are consumed and the operand renders as the
/// bracketed address value, never as the `[bp]` base expression.
pub proof fn lemma_direct_address(wide: bool, d0: u8, d1: u8)
    ensures
        rm_len(0, 6) == 2,
        rm_text(0, 6, wide, d0, d1) == "["@ + dec_int(s16_le(d0, d1)) + "]"@,
        rm_text(0, 6, wide, d0, d1) != "["@ + rm_base(6) + "]"@,
{
    reveal_strlit("[");
    reveal_strlit("]");
    reveal_strlit("bp");
    reveal_strlit("-");
    let v = s16_le(d0, d1);
    let t = dec_int(v);
    let lhs = "["@ + t + "]"@;
    let rhs = "["@ + rm_base(6) + "]"@;
    assert(rm_base(6) =~= seq!['b', 'p']);
    assert(("["@).len() == 1);
    if v < 0 {
        assert(t[0] == '-');
    } else {
        lemma_dec_digits_are_digits(v as nat);
        assert(is_dec_digit(t[0]));
    }
    assert(lhs[1] == t[0]);
    assert(rhs[1] == 'b');
    assert(lhs[1] != rhs[1]);
}

/// An 8-bit displacement byte with bit 7 set is negative: it renders with a
/// `" - "` separator and a magnitude of 256 minus the raw byte value.
pub proof fn lemma_displacement_sign(rm: u8, wide: bool, d0: u8, d1: u8)
    requires
        rm < 8,
        d0 >= 128,
    ensures
        rm_len(1, rm) == 1,
        sext8(d0) < 0,
        rm_text(1, rm, wide, d0, d1) == "["@ + rm_base(rm) + " - "@ + dec_digits(
            (256 - d0) as nat,
        ) + "]"@,
{
}

/// Every decode step consumes at least two bytes, so the cursor strictly
/// advances and a pass over a finite buffer terminates.  Together with the
/// decoders' contracts, which advance the cursor by exactly the format's
/// length, no byte is re-read or skipped.
pub proof fn lemma_decode_step_advances(op: Opcode, b: Seq<u8>, c: int)
    ensures
        op_len(op, b, c) >= 2,
{
}

/// The opcode decision table's bit patterns are mutually exclusive: each
/// format is selected exactly when its own pattern matches, so the order in
/// which the classifier tests the patterns carries no meaning.
pub proof fn lemma_classifier_patterns_exclusive(b0: u8, b1: u8)
    ensures
        classify_spec(b0, b1) == Some(Opcode::MovRegisterOrMemoryToOrFromRegister) <==> b0 >> 2
            == 0b100010,
        classify_spec(b0, b1) == Some(Opcode::MovImmediateToRegisterOrMemory) <==> b0 >> 1
            == 0b1100011,
        classify_spec(b0, b1) == Some(Opcode::MovImmediateToRegister) <==> b0 >> 4 == 0b1011,
        classify_spec(b0, b1) == Some(Opcode::MovMemoryToAccumulator) <==> b0 >> 1 == 0b1010000,
        classify_spec(b0, b1) == Some(Opcode::MovAccumulatorToMemory) <==> b0 >> 1 == 0b1010001,
        classify_spec(b0, b1) == Some(Opcode::MovRegisterOrMemoryToSegmentRegister) <==> b0
            == 0b10001110,
        classify_spec(b0, b1) == Some(Opcode::MovSegmentRegisterToRegisterOrMemory) <==> b0
            == 0b10001100,
        classify_spec(b0, b1) == Some(Opcode::AddRegisterOrMemoryWithRegisterToEither) <==> b0 >> 2
            == 0b000000,
        classify_spec(b0, b1) == Some(Opcode::SubImmediateToRegisterOrMemory) <==> (b0 >> 2
            == 0b100000 && (b1 >> 3) & 7 == 0b101),
        classify_spec(b0, b1) == Some(Opcode::CmpImmediateWithRegisterOrMemory) <==> (b0 >> 2
            == 0b100000 && (b1 >> 3) & 7 == 0b111),
        classify_spec(b0, b1) == Some(Opcode::AddImmediateToRegisterOrMemory) <==> (b0 >> 2
            == 0b100000 && (b1 >> 3) & 7 == 0b000),
        classify_spec(b0, b1) == Some(Opcode::AddImmediateToAccumulator) <==> b0 >> 1 == 0b0000010,
        classify_spec(b0, b1) == Some(Opcode::SubRegisterOrMemoryWithRegisterToEither) <==> b0 >> 2
            == 0b001010,
        classify_spec(b0, b1) == Some(Opcode::SubImmediateToAccumulator) <==> b0 >> 1 == 0b0010110,
        classify_spec(b0, b1) == Some(Opcode::CmpRegisterOrMemoryAndRegister) <==> b0 >> 2
            == 0b001110,
        classify_spec(b0, b1) == Some(Opcode::CmpImmediateWithAccumulator) <==> b0 >> 1
            == 0b0011110,
{
    assert((b0 >> 1 == 0b1100011 ==> b0 >> 2 != 0b100010) && (b0 >> 4 == 0b1011 ==> b0 >> 2
        != 0b100010 && b0 >> 1 != 0b1100011) && (b0 >> 1 == 0b1010000 ==> b0 >> 2 != 0b100010 && b0
        >> 1 != 0b1100011 && b0 >> 4 != 0b1011) && (b0 >> 1 == 0b1010001 ==> b0 >> 2 != 0b100010
        && b0 >> 1 != 0b1100011 && b0 >> 4 != 0b1011 && b0 >> 1 != 0b1010000) && (b0 == 0b10001110
        ==> b0 >> 2 != 0b100010 && b0 >> 1 != 0b1100011 && b0 >> 4 != 0b1011 && b0 >> 1
        != 0b1010000 && b0 >> 1 != 0b1010001) && (b0 == 0b10001100 ==> b0 >> 2 != 0b100010 && b0
        >> 1 != 0b1100011 && b0 >> 4 != 0b1011 && b0 >> 1 != 0b1010000 && b0 >> 1 != 0b1010001)
        && (b0 >> 2 == 0b000000 ==> b0 >> 4 != 0b1011 && b0 != 0b10001110 && b0 != 0b10001100 && b0
        >> 1 != 0b1010000 && b0 >> 1 != 0b1010001) && (b0 >> 2 == 0b100000 ==> b0 >> 2 != 0b100010
        && b0 >> 1 != 0b1100011 && b0 >> 4 != 0b1011 && b0 >> 1 != 0b1010000 && b0 >> 1
        != 0b1010001 && b0 != 0b10001110 && b0 != 0b10001100 && b0 >> 2 != 0b000000) && (b0 >> 1
        == 0b0000010 ==> b0 >> 2 != 0b000000 && b0 >> 2 != 0b100000 && b0 >> 4 != 0b1011) && (b0
        >> 2 == 0b001010 ==> b0 >> 1 != 0b0000010 && b0 >> 2 != 0b000000 && b0 >> 2 != 0b100000
        && b0 >> 4 != 0b1011) && (b0 >> 1 == 0b0010110 ==> b0 >> 2 != 0b001010 && b0 >> 1
        != 0b0000010 && b0 >> 2 != 0b000000 && b0 >> 2 != 0b100000 && b0 >> 4 != 0b1011) && (b0
        >> 2 == 0b001110 ==> b0 >> 1 != 0b0010110 && b0 >> 2 != 0b001010 && b0 >> 1 != 0b0000010
        && b0 >> 2 != 0b000000 && b0 >> 2 != 0b100000 && b0 >> 4 != 0b1011) && (b0 >> 1
        == 0b0011110 ==> b0 >> 2 != 0b001110 && b0 >> 1 != 0b0010110 && b0 >> 2 != 0b001010 && b0
        >> 1 != 0b0000010 && b0 >> 2 != 0b000000 && b0 >> 2 != 0b100000 && b0 >> 4 != 0b1011))
        by (bit_vector);
    assert((b0 >> 2 == 0b000000 ==> b0 >> 2 != 0b100010 && b0 >> 1 != 0b1100011) && (b0 >> 1
        == 0b0000010 ==> b0 >> 2 != 0b100010 && b0 >> 1 != 0b1100011 && b0 != 0b10001110 && b0
        != 0b10001100 && b0 >> 1 != 0b1010000 && b0 >> 1 != 0b1010001) && (b0 >> 2 == 0b001010 ==>
        b0 >> 2 != 0b100010 && b0 >> 1 != 0b1100011 && b0 != 0b10001110 && b0 != 0b10001100 && b0
        >> 1 != 0b1010000 && b0 >> 1 != 0b1010001) && (b0 >> 1 == 0b0010110 ==> b0 >> 2
        != 0b100010 && b0 >> 1 != 0b1100011 && b0 != 0b10001110 && b0 != 0b10001100 && b0 >> 1
        != 0b1010000 && b0 >> 1 != 0b1010001) && (b0 >> 2 == 0b001110 ==> b0 >> 2 != 0b100010 && b0
        >> 1 != 0b1100011 && b0 != 0b10001110 && b0 != 0b10001100 && b0 >> 1 != 0b1010000 && b0
        >> 1 != 0b1010001) && (b0 >> 1 == 0b0011110 ==> b0 >> 2 != 0b100010 && b0 >> 1
        != 0b1100011 && b0 != 0b10001110 && b0 != 0b10001100 && b0 >> 1 != 0b1010000 && b0 >> 1
        != 0b1010001)) by (bit_vector);
}

/// In the ambiguous 0x80..=0x83 group, a reg sub-field value with no
/// decoder is not recognized at all: the pass fails loudly instead of
/// guessing a mnemonic.
pub proof fn lemma_group_unknown_sub_field(b0: u8, b1: u8)
    requires
        b0 >> 2 == 0b100000,
        (b1 >> 3) & 7 != 0b000,
        (b1 >> 3) & 7 != 0b101,
        (b1 >> 3) & 7 != 0b111,
    ensures
        classify_spec(b0, b1) is None,
{
    assert(b0 >> 2 != 0b100010 && b0 >> 1 != 0b1100011 && b0 >> 4 != 0b1011 && b0 >> 1
        != 0b1010000 && b0 >> 1 != 0b1010001 && b0 != 0b10001110 && b0 != 0b10001100 && b0 >> 2
        != 0b000000 && b0 >> 1 != 0b0000010 && b0 >> 2 != 0b001010 && b0 >> 1 != 0b0010110 && b0
        >> 2 != 0b001110 && b0 >> 1 != 0b0011110) by (bit_vector)
        requires
            b0 >> 2 == 0b100000,
    ;
}

/// A decode step never reads a byte outside its format's declared
/// schedule: two streams that agree on the window the schedule declares
/// decode to the same length and the same line.
pub proof fn lemma_decode_step_frame(op: Opcode, s1: Seq<u8>, s2: Seq<u8>, c: int)
    requires
        forall|k: int| c <= k < c + op_len(op, s1, c) ==> s1[k] == s2[k],
    ensures
        op_len(op, s2, c) == op_len(op, s1, c),
        op_line(op, s2, c) == op_line(op, s1, c),
{
    assert(s1[c] == s2[c]);
    assert(s1[c + 1] == s2[c + 1]);
    match op {
        Opcode::MovRegisterOrMemoryToOrFromRegister
        | Opcode::AddRegisterOrMemoryWithRegisterToEither
        | Opcode::SubRegisterOrMemoryWithRegisterToEither
        | Opcode::CmpRegisterOrMemoryAndRegister => {
            let b1 = s1[c + 1];
            if rm_len(b1 >> 6, b1 & 7) >= 1 {
                assert(s1[c + 2] == s2[c + 2]);
            }
            if rm_len(b1 >> 6, b1 & 7) >= 2 {
                assert(s1[c + 3] == s2[c + 3]);
            }
            assert(rm_reg_line(s2, c) == rm_reg_line(s1, c));
        },
        Opcode::MovImmediateToRegister => {
            if (s1[c] >> 3) & 1 == 1 {
                assert(s1[c + 2] == s2[c + 2]);
            }
            assert(imm_reg_line(s2, c) == imm_reg_line(s1, c));
        },
        Opcode::MovImmediateToRegisterOrMemory
        | Opcode::AddImmediateToRegisterOrMemory
        | Opcode::SubImmediateToRegisterOrMemory
        | Opcode::CmpImmediateWithRegisterOrMemory => {
            let b1 = s1[c + 1];
            let dl = rm_len(b1 >> 6, b1 & 7);
            let il = imm_rm_imm_len(s1[c]);
            if dl >= 1 {
                assert(s1[c + 2] == s2[c + 2]);
            }
            if dl >= 2 {
                assert(s1[c + 3] == s2[c + 3]);
            }
            assert(s1[c + 2 + dl] == s2[c + 2 + dl]);
            if il == 2 {
                assert(s1[c + 3 + dl] == s2[c + 3 + dl]);
            }
            assert(imm_rm_line(s2, c) == imm_rm_line(s1, c));
        },
        Opcode::MovMemoryToAccumulator
        | Opcode::MovAccumulatorToMemory
        | Opcode::AddImmediateToAccumulator
        | Opcode::SubImmediateToAccumulator
        | Opcode::CmpImmediateWithAccumulator => {
            if s1[c] & 1 == 1 {
                assert(s1[c + 2] == s2[c + 2]);
            }
        },
        _ => {
        },
    }
}

} // verus!
