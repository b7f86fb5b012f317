//! The executable decoder: one routine per instruction format, each proved
//! to consume exactly the bytes its format's schedule declares and to render
//! exactly the line the model in [`crate::formats`] gives, and the decode
//! loop that folds a whole byte buffer into a listing.

use vstd::prelude::*;
use vstd::string::StringExecFns;
use crate::addressing::{resolve_rm, rm_extra_len, sign_extend8, u16_from_le};
use crate::formats::{
    acc_len, acc_mem_line, classify_spec, decode_from, decode_step_post, imm_acc_line,
    imm_reg_len, imm_reg_line, imm_rm_len, imm_rm_line, imm_rm_reg_field_ok, is_acc_mem_op,
    is_imm_acc_op, is_imm_reg_op, is_imm_rm_op, is_mem_acc_op, is_rm_reg_op, mem_acc_line,
    op_len, op_line, rm_reg_len, rm_reg_line, spec_header, DecodeError, Opcode,
};
use crate::regs::register_name;
use crate::text::{bin8, bin8_string, dec_digits, dec_i16, dec_u16, dec_usize};

verus! {

impl DecodeError {
    /// The error's one-line description, naming the raw bit pattern and the
    /// offset at which the pass aborted.
    pub open spec fn text(self) -> Seq<char> {
        match self {
            DecodeError::UnrecognizedOpcode { offset, byte } => "unrecognized opcode "@ + bin8(
                byte,
            ) + " at offset "@ + dec_digits(offset as nat),
            DecodeError::UnhandledFormat { offset, byte } => "unhandled operation "@ + bin8(byte)
                + " at offset "@ + dec_digits(offset as nat),
            DecodeError::Truncated { offset } => "truncated instruction at offset "@ + dec_digits(
                offset as nat,
            ),
        }
    }

    /// Renders the error's description.
    pub fn describe(&self) -> (r: String)
        ensures
            r@ == self.text(),
    {
        match self {
            DecodeError::UnrecognizedOpcode { offset, byte } => {
                let mut s = String::from_str("unrecognized opcode ");
                let p = bin8_string(*byte);
                s.append(p.as_str());
                s.append(" at offset ");
                let o = dec_usize(*offset);
                s.append(o.as_str());
                s
            },
            DecodeError::UnhandledFormat { offset, byte } => {
                let mut s = String::from_str("unhandled operation ");
                let p = bin8_string(*byte);
                s.append(p.as_str());
                s.append(" at offset ");
                let o = dec_usize(*offset);
                s.append(o.as_str());
                s
            },
            DecodeError::Truncated { offset } => {
                let mut s = String::from_str("truncated instruction at offset ");
                let o = dec_usize(*offset);
                s.append(o.as_str());
                s
            },
        }
    }
}

/// Classifies the next one or two unconsumed bytes as an instruction format.
/// The second byte is inspected only for the ambiguous 0x80..=0x83 group.
pub fn as_opcode_enum(bytes: [u8; 2]) -> (r: Option<Opcode>)
    ensures
        r == classify_spec(bytes[0], bytes[1]),
{
    let b0 = bytes[0];
    let b1 = bytes[1];
    if b0 >> 2 == 0b100010 {
        Some(Opcode::MovRegisterOrMemoryToOrFromRegister)
    } else if b0 >> 1 == 0b1100011 {
        Some(Opcode::MovImmediateToRegisterOrMemory)
    } else if b0 >> 4 == 0b1011 {
        Some(Opcode::MovImmediateToRegister)
    } else if b0 >> 1 == 0b1010000 {
        Some(Opcode::MovMemoryToAccumulator)
    } else if b0 >> 1 == 0b1010001 {
        Some(Opcode::MovAccumulatorToMemory)
    } else if b0 == 0b10001110 {
        Some(Opcode::MovRegisterOrMemoryToSegmentRegister)
    } else if b0 == 0b10001100 {
        Some(Opcode::MovSegmentRegisterToRegisterOrMemory)
    } else if b0 >> 2 == 0b000000 {
        Some(Opcode::AddRegisterOrMemoryWithRegisterToEither)
    } else if b0 >> 2 == 0b100000 && (b1 >> 3) & 7 == 0b101 {
        Some(Opcode::SubImmediateToRegisterOrMemory)
    } else if b0 >> 2 == 0b100000 && (b1 >> 3) & 7 == 0b111 {
        Some(Opcode::CmpImmediateWithRegisterOrMemory)
    } else if b0 >> 2 == 0b100000 && (b1 >> 3) & 7 == 0b000 {
        Some(Opcode::AddImmediateToRegisterOrMemory)
    } else if b0 >> 1 == 0b0000010 {
        Some(Opcode::AddImmediateToAccumulator)
    } else if b0 >> 2 == 0b001010 {
        Some(Opcode::SubRegisterOrMemoryWithRegisterToEither)
    } else if b0 >> 1 == 0b0010110 {
        Some(Opcode::SubImmediateToAccumulator)
    } else if b0 >> 2 == 0b001110 {
        Some(Opcode::CmpRegisterOrMemoryAndRegister)
    } else if b0 >> 1 == 0b0011110 {
        Some(Opcode::CmpImmediateWithAccumulator)
    } else {
        None
    }
}

/// Decodes a memory-to-accumulator move: the address width follows the w
/// bit.
pub fn parse_memory_to_accumulator(bytes: &Vec<u8>, cursor: &mut usize) -> (r: Result<
    String,
    DecodeError,
>)
    requires
        *old(cursor) < bytes@.len(),
        is_mem_acc_op(bytes@[*old(cursor) as int]),
    ensures
        decode_step_post(
            bytes@,
            *old(cursor) as int,
            *final(cursor) as int,
            r,
            acc_len(bytes@, *old(cursor) as int),
            mem_acc_line(bytes@, *old(cursor) as int),
        ),
{
    let start: usize = *cursor;
    let blen: usize = bytes.len();
    let b0 = bytes[start];
    if b0 & 1 == 1 {
        if blen - start < 3 {
            return Err(DecodeError::Truncated { offset: start });
        }
        let v = u16_from_le(bytes[start + 1], bytes[start + 2]);
        let mut s = String::from_str("mov ax, [");
        let m = dec_u16(v);
        s.append(m.as_str());
        s.append("]");
        *cursor = start + 3;
        Ok(s)
    } else {
        if blen - start < 2 {
            return Err(DecodeError::Truncated { offset: start });
        }
        let lo = bytes[start + 1];
        let mut s = String::from_str("mov al, [");
        let m = dec_u16(lo as u16);
        s.append(m.as_str());
        s.append("]");
        *cursor = start + 2;
        Ok(s)
    }
}

/// Decodes an accumulator-to-memory move: the address width follows the w
/// bit.
pub fn parse_accumulator_to_memory(bytes: &Vec<u8>, cursor: &mut usize) -> (r: Result<
    String,
    DecodeError,
>)
    requires
        *old(cursor) < bytes@.len(),
        is_acc_mem_op(bytes@[*old(cursor) as int]),
    ensures
        decode_step_post(
            bytes@,
            *old(cursor) as int,
            *final(cursor) as int,
            r,
            acc_len(bytes@, *old(cursor) as int),
            acc_mem_line(bytes@, *old(cursor) as int),
        ),
{
    let start: usize = *cursor;
    let blen: usize = bytes.len();
    let b0 = bytes[start];
    if b0 & 1 == 1 {
        if blen - start < 3 {
            return Err(DecodeError::Truncated { offset: start });
        }
        let v = u16_from_le(bytes[start + 1], bytes[start + 2]);
        let mut s = String::from_str("mov [");
        let m = dec_u16(v);
        s.append(m.as_str());
        s.append("], ax");
        *cursor = start + 3;
        Ok(s)
    } else {
        if blen - start < 2 {
            return Err(DecodeError::Truncated { offset: start });
        }
        let lo = bytes[start + 1];
        let mut s = String::from_str("mov [");
        let m = dec_u16(lo as u16);
        s.append(m.as_str());
        s.append("], al");
        *cursor = start + 2;
        Ok(s)
    }
}

/// Decodes an immediate-to-accumulator arithmetic instruction: the
/// operation comes from the fixed leading bit pattern, the immediate's
/// width and signedness from the w bit.
pub fn parse_immediate_to_accumulator(bytes: &Vec<u8>, cursor: &mut usize) -> (r: Result<
    String,
    DecodeError,
>)
    requires
        *old(cursor) < bytes@.len(),
        is_imm_acc_op(bytes@[*old(cursor) as int]),
    ensures
        decode_step_post(
            bytes@,
            *old(cursor) as int,
            *final(cursor) as int,
            r,
            acc_len(bytes@, *old(cursor) as int),
            imm_acc_line(bytes@, *old(cursor) as int),
        ),
{
    let start: usize = *cursor;
    let blen: usize = bytes.len();
    let b0 = bytes[start];
    let m: &'static str = if b0 >> 1 == 0b0000010 {
        "add"
    } else if b0 >> 1 == 0b0010110 {
        "sub"
    } else {
        "cmp"
    };
    if b0 & 1 == 1 {
        if blen - start < 3 {
            return Err(DecodeError::Truncated { offset: start });
        }
        let v = u16_from_le(bytes[start + 1], bytes[start + 2]);
        let mut s = String::from_str(m);
        s.append(" ax, ");
        let d = dec_u16(v);
        s.append(d.as_str());
        *cursor = start + 3;
        Ok(s)
    } else {
        if blen - start < 2 {
            return Err(DecodeError::Truncated { offset: start });
        }
        let v = sign_extend8(bytes[start + 1]);
        let mut s = String::from_str(m);
        s.append(" al, ");
        let d = dec_i16(v);
        s.append(d.as_str());
        *cursor = start + 2;
        Ok(s)
    }
}

/// Decodes an immediate-to-register move: the register index comes from the
/// low three bits of the opcode byte, the immediate's width from its w bit.
pub fn parse_immediate_to_register(bytes: &Vec<u8>, cursor: &mut usize) -> (r: Result<
    String,
    DecodeError,
>)
    requires
        *old(cursor) < bytes@.len(),
        is_imm_reg_op(bytes@[*old(cursor) as int]),
    ensures
        decode_step_post(
            bytes@,
            *old(cursor) as int,
            *final(cursor) as int,
            r,
            imm_reg_len(bytes@, *old(cursor) as int),
            imm_reg_line(bytes@, *old(cursor) as int),
        ),
{
    let start: usize = *cursor;
    let blen: usize = bytes.len();
    let b0 = bytes[start];
    let reg_bits = b0 & 7;
    proof {
        assert(b0 & 7 < 8) by (bit_vector);
    }
    if (b0 >> 3) & 1 == 1 {
        if blen - start < 3 {
            return Err(DecodeError::Truncated { offset: start });
        }
        let v = u16_from_le(bytes[start + 1], bytes[start + 2]);
        let mut s = String::from_str("mov ");
        s.append(register_name(true, reg_bits));
        s.append(", ");
        let d = dec_u16(v);
        s.append(d.as_str());
        *cursor = start + 3;
        Ok(s)
    } else {
        if blen - start < 2 {
            return Err(DecodeError::Truncated { offset: start });
        }
        let lo = bytes[start + 1];
        let mut s = String::from_str("mov ");
        s.append(register_name(false, reg_bits));
        s.append(", ");
        let d = dec_u16(lo as u16);
        s.append(d.as_str());
        *cursor = start + 2;
        Ok(s)
    }
}

/// Decodes an instruction of the register/memory to/from register format:
/// the d bit picks which operand is the destination, the w bit the operand
/// width, and the mod/rm fields of the second byte the other operand.
pub fn parse_register_or_memory_to_or_from_register(bytes: &Vec<u8>, cursor: &mut usize) -> (r:
    Result<String, DecodeError>)
    requires
        *old(cursor) < bytes@.len(),
        is_rm_reg_op(bytes@[*old(cursor) as int]),
    ensures
        decode_step_post(
            bytes@,
            *old(cursor) as int,
            *final(cursor) as int,
            r,
            rm_reg_len(bytes@, *old(cursor) as int),
            rm_reg_line(bytes@, *old(cursor) as int),
        ),
{
    let start: usize = *cursor;
    let blen: usize = bytes.len();
    if blen - start < 2 {
        return Err(DecodeError::Truncated { offset: start });
    }
    let b0 = bytes[start];
    let b1 = bytes[start + 1];
    let wide = b0 & 1 == 1;
    let d_set = (b0 >> 1) & 1 == 1;
    let md = b1 >> 6;
    let reg_bits = (b1 >> 3) & 7;
    let rm_bits = b1 & 7;
    proof {
        assert((b1 >> 3) & 7 < 8 && b1 & 7 < 8) by (bit_vector);
    }
    let extra = rm_extra_len(md, rm_bits);
    if blen - start < 2 + (extra as usize) {
        return Err(DecodeError::Truncated { offset: start });
    }
    let mut pos: usize = start + 2;
    let rm_s = resolve_rm(bytes, &mut pos, md, rm_bits, wide);
    let reg_s: &'static str = register_name(wide, reg_bits);
    let m: &'static str = if b0 >> 2 == 0b100010 {
        "mov"
    } else if b0 >> 2 == 0b000000 {
        "add"
    } else if b0 >> 2 == 0b001010 {
        "sub"
    } else {
        "cmp"
    };
    let mut s = String::from_str(m);
    s.append(" ");
    if d_set {
        s.append(reg_s);
        s.append(", ");
        s.append(rm_s.as_str());
    } else {
        s.append(rm_s.as_str());
        s.append(", ");
        s.append(reg_s);
    }
    *cursor = pos;
    proof {
        assert(s@ =~= rm_reg_line(bytes@, start as int));
    }
    Ok(s)
}

/// Decodes an instruction of the immediate to register or memory format.
/// For the ambiguous 0x80..=0x83 group the operation comes from the reg
/// sub-field of the second byte, and the immediate is a single byte unless
/// the w bit is set with the s bit clear; a move goes by the w bit alone.
/// An explicit `byte`/`word` qualifier is emitted only when the destination
/// is a memory operand, where it disambiguates the immediate's width.
pub fn parse_immediate_to_register_or_memory(bytes: &Vec<u8>, cursor: &mut usize) -> (r: Result<
    String,
    DecodeError,
>)
    requires
        *old(cursor) < bytes@.len(),
        is_imm_rm_op(bytes@[*old(cursor) as int]),
        *old(cursor) + 1 < bytes@.len() ==> imm_rm_reg_field_ok(
            bytes@[*old(cursor) as int],
            bytes@[*old(cursor) + 1],
        ),
    ensures
        decode_step_post(
            bytes@,
            *old(cursor) as int,
            *final(cursor) as int,
            r,
            imm_rm_len(bytes@, *old(cursor) as int),
            imm_rm_line(bytes@, *old(cursor) as int),
        ),
{
    let start: usize = *cursor;
    let blen: usize = bytes.len();
    if blen - start < 2 {
        return Err(DecodeError::Truncated { offset: start });
    }
    let b0 = bytes[start];
    let b1 = bytes[start + 1];
    let wide = b0 & 1 == 1;
    let md = b1 >> 6;
    let reg = (b1 >> 3) & 7;
    let rm_bits = b1 & 7;
    proof {
        assert(b1 & 7 < 8) by (bit_vector);
    }
    let extra = rm_extra_len(md, rm_bits);
    let imm_n: u8 = if b0 >> 1 == 0b1100011 {
        if b0 & 1 == 1 {
            2
        } else {
            1
        }
    } else {
        if b0 & 1 == 1 && (b0 >> 1) & 1 == 0 {
            2
        } else {
            1
        }
    };
    if blen - start < 2 + (extra as usize) + (imm_n as usize) {
        return Err(DecodeError::Truncated { offset: start });
    }
    let mut pos: usize = start + 2;
    let rm_s = resolve_rm(bytes, &mut pos, md, rm_bits, wide);
    let v: u16 = if imm_n == 2 {
        u16_from_le(bytes[pos], bytes[pos + 1])
    } else {
        bytes[pos] as u16
    };
    let size: &'static str = if wide {
        "word"
    } else {
        "byte"
    };
    let d = dec_u16(v);
    if b0 >> 1 == 0b1100011 {
        let mut s = String::from_str("mov ");
        s.append(rm_s.as_str());
        s.append(", ");
        if md != 3 {
            s.append(size);
            s.append(" ");
        }
        s.append(d.as_str());
        *cursor = start + 2 + (extra as usize) + (imm_n as usize);
        proof {
            assert(s@ =~= imm_rm_line(bytes@, start as int));
        }
        Ok(s)
    } else {
        let m: &'static str = if reg == 0b000 {
            "add"
        } else if reg == 0b101 {
            "sub"
        } else {
            "cmp"
        };
        let mut s = String::from_str(m);
        s.append(" ");
        if md != 3 {
            s.append(size);
            s.append(" ");
        }
        s.append(rm_s.as_str());
        s.append(", ");
        s.append(d.as_str());
        *cursor = start + 2 + (extra as usize) + (imm_n as usize);
        proof {
            assert(s@ =~= imm_rm_line(bytes@, start as int));
        }
        Ok(s)
    }
}

/// Decodes a whole byte buffer into an assembly listing: the fixed
/// architecture header, then one line per instruction, each preceded by a
/// newline.  The listing is complete or absent: the first unrecognized,
/// unhandled or truncated instruction aborts the pass with its error.
pub fn parse_bin(bin: Vec<u8>) -> (r: Result<String, DecodeError>)
    ensures
        decode_from(bin@, 0) matches Ok(t) ==> (r matches Ok(s) && s@ == spec_header() + t),
        decode_from(bin@, 0) matches Err(e) ==> r == Err::<String, DecodeError>(e),
{
    let blen: usize = bin.len();
    let mut cursor: usize = 0;
    let mut listing = String::from_str("bits 16\n\n");
    let ghost mut body: Seq<char> = Seq::<char>::empty();
    proof {
        assert(listing@ =~= spec_header() + body);
    }
    while cursor < blen
        invariant
            blen == bin@.len(),
            cursor <= blen,
            listing@ == spec_header() + body,
            decode_from(bin@, cursor as int) matches Ok(t) ==> decode_from(bin@, 0) == Ok::<
                Seq<char>,
                DecodeError,
            >(body + t),
            decode_from(bin@, cursor as int) matches Err(e) ==> decode_from(bin@, 0) == Err::<
                Seq<char>,
                DecodeError,
            >(e),
        decreases blen - cursor,
    {
        let ghost c0 = cursor as int;
        let b0 = bin[cursor];
        let b1: u8 = if cursor + 1 < blen {
            bin[cursor + 1]
        } else {
            0
        };
        let first_two: [u8; 2] = [b0, b1];
        let op_opt = as_opcode_enum(first_two);
        match op_opt {
            None => {
                return Err(DecodeError::UnrecognizedOpcode { offset: cursor, byte: b0 });
            },
            Some(op) => {
                let step: Result<String, DecodeError> = match op {
                    Opcode::MovRegisterOrMemoryToSegmentRegister
                    | Opcode::MovSegmentRegisterToRegisterOrMemory => {
                        return Err(DecodeError::UnhandledFormat { offset: cursor, byte: b0 });
                    },
                    Opcode::MovRegisterOrMemoryToOrFromRegister
                    | Opcode::AddRegisterOrMemoryWithRegisterToEither
                    | Opcode::SubRegisterOrMemoryWithRegisterToEither
                    | Opcode::CmpRegisterOrMemoryAndRegister => parse_register_or_memory_to_or_from_register(
                        &bin,
                        &mut cursor,
                    ),
                    Opcode::MovImmediateToRegister => parse_immediate_to_register(
                        &bin,
                        &mut cursor,
                    ),
                    Opcode::MovImmediateToRegisterOrMemory
                    | Opcode::AddImmediateToRegisterOrMemory
                    | Opcode::SubImmediateToRegisterOrMemory
                    | Opcode::CmpImmediateWithRegisterOrMemory => parse_immediate_to_register_or_memory(
                        &bin,
                        &mut cursor,
                    ),
                    Opcode::MovMemoryToAccumulator => parse_memory_to_accumulator(
                        &bin,
                        &mut cursor,
                    ),
                    Opcode::MovAccumulatorToMemory => parse_accumulator_to_memory(
                        &bin,
                        &mut cursor,
                    ),
                    Opcode::AddImmediateToAccumulator
                    | Opcode::SubImmediateToAccumulator
                    | Opcode::CmpImmediateWithAccumulator => parse_immediate_to_accumulator(
                        &bin,
                        &mut cursor,
                    ),
                };
                match step {
                    Ok(line) => {
                        listing.append("\n");
                        listing.append(line.as_str());
                        proof {
                            let n = op_len(op, bin@, c0);
                            let ghost prev = body;
                            body = body + "\n"@ + line@;
                            assert(listing@ =~= spec_header() + body);
                            assert(c0 + n <= blen);
                            assert(decode_from(bin@, c0) == (match decode_from(bin@, c0 + n) {
                                Ok(rest) => Ok::<Seq<char>, DecodeError>(
                                    "\n"@ + op_line(op, bin@, c0) + rest,
                                ),
                                Err(e) => Err::<Seq<char>, DecodeError>(e),
                            }));
                            match decode_from(bin@, c0 + n) {
                                Ok(rest) => {
                                    assert(decode_from(bin@, c0) == Ok::<Seq<char>, DecodeError>(
                                        "\n"@ + line@ + rest,
                                    ));
                                    assert(prev + ("\n"@ + line@ + rest) =~= body + rest);
                                    assert(decode_from(bin@, 0) == Ok::<Seq<char>, DecodeError>(
                                        body + rest,
                                    ));
                                },
                                Err(e) => {
                                    assert(decode_from(bin@, c0) == Err::<Seq<char>, DecodeError>(
                                        e,
                                    ));
                                },
                            }
                        }
                    },
                    Err(e) => {
                        return Err(e);
                    },
                }
            },
        }
    }
    proof {
        assert(decode_from(bin@, cursor as int) == Ok::<Seq<char>, DecodeError>(
            Seq::<char>::empty(),
        ));
        assert(body + Seq::<char>::empty() =~= body);
    }
    Ok(listing)
}

} // verus!
