//! The mathematical model of the decoder.
//!
//! For each supported instruction format there is a pair of spec functions:
//! one giving the exact number of bytes the format consumes at a position in
//! the stream, and one giving the text line it renders to.  [`classify_spec`]
//! is the opcode decision table, and [`decode_from`] folds the whole stream
//! into either a complete listing or the error that aborts the pass.

use vstd::prelude::*;
use crate::addressing::{rm_len, rm_text, s16_le, sext8, u16_le};
use crate::regs::{byte_reg, reg_name, word_reg};
use crate::text::{dec_digits, dec_int};

verus! {

/// The instruction formats the opcode classifier can recognize.  The two
/// segment-register forms are recognized but have no decoder: meeting one is
/// a distinct, fatal error.
pub enum Opcode {
    MovRegisterOrMemoryToOrFromRegister,
    MovImmediateToRegisterOrMemory,
    MovImmediateToRegister,
    MovMemoryToAccumulator,
    MovAccumulatorToMemory,
    MovRegisterOrMemoryToSegmentRegister,
    MovSegmentRegisterToRegisterOrMemory,
    AddRegisterOrMemoryWithRegisterToEither,
    AddImmediateToRegisterOrMemory,
    AddImmediateToAccumulator,
    SubRegisterOrMemoryWithRegisterToEither,
    SubImmediateToRegisterOrMemory,
    SubImmediateToAccumulator,
    CmpRegisterOrMemoryAndRegister,
    CmpImmediateWithRegisterOrMemory,
    CmpImmediateWithAccumulator,
}

/// Why a decode pass aborted.  A failing pass produces no partial listing.
#[derive(Clone, Copy, Debug, PartialEq, Eq, Structural)]
pub enum DecodeError {
    /// The leading byte matches no known format.
    UnrecognizedOpcode { offset: usize, byte: u8 },
    /// The leading byte matches a recognized format that has no decoder.
    UnhandledFormat { offset: usize, byte: u8 },
    /// Fewer bytes remain than the matched format requires.
    Truncated { offset: usize },
}

/// The opcode decision table: which format the next one or two bytes select.
/// `b1` matters only for the 0x80..=0x83 group, where bits 3..=5 pick the
/// operation; a value of that sub-field with no decoder is not recognized.
pub open spec fn classify_spec(b0: u8, b1: u8) -> Option<Opcode> {
    if b0 >> 2 == 0b100010 {
        Some(Opcode::MovRegisterOrMemoryToOrFromRegister)
    } else if b0 >> 1 == 0b1100011 {
        Some(Opcode::MovImmediateToRegisterOrMemory)
    } else if b0 >> 4 == 0b1011 {
        Some(Opcode::MovImmediateToRegister)
    } else if b0 >> 1 == 0b1010000 {
        Some(Opcode::MovMemoryToAccumulator)
    } else if b0 >> 1 == 0b1010001 {
        Some(Opcode::MovAccumulatorToMemory)
    } else if b0 == 0b10001110 {
        Some(Opcode::MovRegisterOrMemoryToSegmentRegister)
    } else if b0 == 0b10001100 {
        Some(Opcode::MovSegmentRegisterToRegisterOrMemory)
    } else if b0 >> 2 == 0b000000 {
        Some(Opcode::AddRegisterOrMemoryWithRegisterToEither)
    } else if b0 >> 2 == 0b100000 && (b1 >> 3) & 7 == 0b101 {
        Some(Opcode::SubImmediateToRegisterOrMemory)
    } else if b0 >> 2 == 0b100000 && (b1 >> 3) & 7 == 0b111 {
        Some(Opcode::CmpImmediateWithRegisterOrMemory)
    } else if b0 >> 2 == 0b100000 && (b1 >> 3) & 7 == 0b000 {
        Some(Opcode::AddImmediateToRegisterOrMemory)
    } else if b0 >> 1 == 0b0000010 {
        Some(Opcode::AddImmediateToAccumulator)
    } else if b0 >> 2 == 0b001010 {
        Some(Opcode::SubRegisterOrMemoryWithRegisterToEither)
    } else if b0 >> 1 == 0b0010110 {
        Some(Opcode::SubImmediateToAccumulator)
    } else if b0 >> 2 == 0b001110 {
        Some(Opcode::CmpRegisterOrMemoryAndRegister)
    } else if b0 >> 1 == 0b0011110 {
        Some(Opcode::CmpImmediateWithAccumulator)
    } else {
        None
    }
}

/// A leading byte of the register/memory with register format, for any of
/// the four operations.
pub open spec fn is_rm_reg_op(b0: u8) -> bool {
    ||| b0 >> 2 == 0b100010
    ||| b0 >> 2 == 0b000000
    ||| b0 >> 2 == 0b001010
    ||| b0 >> 2 == 0b001110
}

pub open spec fn rm_reg_mnemonic(b0: u8) -> Seq<char> {
    if b0 >> 2 == 0b100010 {
        "mov"@
    } else if b0 >> 2 == 0b000000 {
        "add"@
    } else if b0 >> 2 == 0b001010 {
        "sub"@
    } else {
        "cmp"@
    }
}

pub open spec fn rm_reg_len(b: Seq<u8>, c: int) -> int {
    2 + rm_len(b[c + 1] >> 6, b[c + 1] & 7)
}

/// The line rendered for the register/memory with register format: the d
/// bit chooses which operand is the destination, the w bit the width.
pub open spec fn rm_reg_line(b: Seq<u8>, c: int) -> Seq<char> {
    let b0 = b[c];
    let b1 = b[c + 1];
    let wide = b0 & 1 == 1;
    let reg_t = reg_name(wide, (b1 >> 3) & 7);
    let rm_t = rm_text(b1 >> 6, b1 & 7, wide, b[c + 2], b[c + 3]);
    let dst = if (b0 >> 1) & 1 == 1 {
        reg_t
    } else {
        rm_t
    };
    let src = if (b0 >> 1) & 1 == 1 {
        rm_t
    } else {
        reg_t
    };
    rm_reg_mnemonic(b0) + " "@ + dst + ", "@ + src
}

/// A leading byte of the immediate-to-register move format.
pub open spec fn is_imm_reg_op(b0: u8) -> bool {
    b0 >> 4 == 0b1011
}

pub open spec fn imm_reg_len(b: Seq<u8>, c: int) -> int {
    if (b[c] >> 3) & 1 == 1 {
        3
    } else {
        2
    }
}

/// The line for an immediate-to-register move: the immediate is the two
/// consumed bytes read little-endian at word width, or the single byte
/// verbatim at byte width.
pub open spec fn imm_reg_line(b: Seq<u8>, c: int) -> Seq<char> {
    let b0 = b[c];
    if (b0 >> 3) & 1 == 1 {
        "mov "@ + word_reg(b0 & 7) + ", "@ + dec_digits(u16_le(b[c + 1], b[c + 2]) as nat)
    } else {
        "mov "@ + byte_reg(b0 & 7) + ", "@ + dec_digits(b[c + 1] as nat)
    }
}

/// A leading byte of the immediate to register or memory format.
pub open spec fn is_imm_rm_op(b0: u8) -> bool {
    ||| b0 >> 1 == 0b1100011
    ||| b0 >> 2 == 0b100000
}

/// For the ambiguous 0x80..=0x83 group, only the add/sub/cmp values of the
/// reg sub-field have a decoder.
pub open spec fn imm_rm_reg_field_ok(b0: u8, b1: u8) -> bool {
    ||| b0 >> 1 == 0b1100011
    ||| (b1 >> 3) & 7 == 0b000
    ||| (b1 >> 3) & 7 == 0b101
    ||| (b1 >> 3) & 7 == 0b111
}

/// How many immediate bytes the format consumes: a move goes by the w bit
/// alone; the arithmetic group takes a single byte unless w is set and the
/// s bit is clear.
pub open spec fn imm_rm_imm_len(b0: u8) -> int {
    if b0 >> 1 == 0b1100011 {
        if b0 & 1 == 1 {
            2
        } else {
            1
        }
    } else {
        if b0 & 1 == 1 && (b0 >> 1) & 1 == 0 {
            2
        } else {
            1
        }
    }
}

pub open spec fn imm_rm_len(b: Seq<u8>, c: int) -> int {
    2 + rm_len(b[c + 1] >> 6, b[c + 1] & 7) + imm_rm_imm_len(b[c])
}

/// The line for the immediate to register or memory format.  An explicit
/// `byte`/`word` qualifier is emitted only when the destination is a memory
/// operand (mod other than 3), where the assembler could not otherwise tell
/// the immediate's width; a register destination needs none.
pub open spec fn imm_rm_line(b: Seq<u8>, c: int) -> Seq<char> {
    let b0 = b[c];
    let b1 = b[c + 1];
    let wide = b0 & 1 == 1;
    let rm_t = rm_text(b1 >> 6, b1 & 7, wide, b[c + 2], b[c + 3]);
    let p = c + 2 + rm_len(b1 >> 6, b1 & 7);
    let v: int = if imm_rm_imm_len(b0) == 2 {
        u16_le(b[p], b[p + 1])
    } else {
        b[p] as int
    };
    let size = if wide {
        "word"@
    } else {
        "byte"@
    };
    if b0 >> 1 == 0b1100011 {
        if b1 >> 6 != 3 {
            "mov "@ + rm_t + ", "@ + size + " "@ + dec_digits(v as nat)
        } else {
            "mov "@ + rm_t + ", "@ + dec_digits(v as nat)
        }
    } else {
        let reg = (b1 >> 3) & 7;
        let op = if reg == 0b000 {
            "add"@
        } else if reg == 0b101 {
            "sub"@
        } else {
            "cmp"@
        };
        if b1 >> 6 != 3 {
            op + " "@ + size + " "@ + rm_t + ", "@ + dec_digits(v as nat)
        } else {
            op + " "@ + rm_t + ", "@ + dec_digits(v as nat)
        }
    }
}

/// A leading byte of the memory-to-accumulator move.
pub open spec fn is_mem_acc_op(b0: u8) -> bool {
    b0 >> 1 == 0b1010000
}

/// A leading byte of the accumulator-to-memory move.
pub open spec fn is_acc_mem_op(b0: u8) -> bool {
    b0 >> 1 == 0b1010001
}

/// Both accumulator moves and the immediate-to-accumulator forms consume a
/// word after the opcode byte when w is set, else a single byte.
pub open spec fn acc_len(b: Seq<u8>, c: int) -> int {
    if b[c] & 1 == 1 {
        3
    } else {
        2
    }
}

pub open spec fn mem_acc_line(b: Seq<u8>, c: int) -> Seq<char> {
    if b[c] & 1 == 1 {
        "mov ax, ["@ + dec_digits(u16_le(b[c + 1], b[c + 2]) as nat) + "]"@
    } else {
        "mov al, ["@ + dec_digits(b[c + 1] as nat) + "]"@
    }
}

pub open spec fn acc_mem_line(b: Seq<u8>, c: int) -> Seq<char> {
    if b[c] & 1 == 1 {
        "mov ["@ + dec_digits(u16_le(b[c + 1], b[c + 2]) as nat) + "], ax"@
    } else {
        "mov ["@ + dec_digits(b[c + 1] as nat) + "], al"@
    }
}

/// A leading byte of the immediate-to-accumulator forms.
pub open spec fn is_imm_acc_op(b0: u8) -> bool {
    ||| b0 >> 1 == 0b0000010
    ||| b0 >> 1 == 0b0010110
    ||| b0 >> 1 == 0b0011110
}

pub open spec fn imm_acc_mnemonic(b0: u8) -> Seq<char> {
    if b0 >> 1 == 0b0000010 {
        "add"@
    } else if b0 >> 1 == 0b0010110 {
        "sub"@
    } else {
        "cmp"@
    }
}

/// The line for an immediate-to-accumulator form: at word width the
/// immediate is unsigned, at byte width it is read as a signed byte.
pub open spec fn imm_acc_line(b: Seq<u8>, c: int) -> Seq<char> {
    if b[c] & 1 == 1 {
        imm_acc_mnemonic(b[c]) + " ax, "@ + dec_digits(u16_le(b[c + 1], b[c + 2]) as nat)
    } else {
        imm_acc_mnemonic(b[c]) + " al, "@ + dec_int(sext8(b[c + 1]))
    }
}

/// A recognized format that has no decoder.
pub open spec fn is_unhandled(op: Opcode) -> bool {
    ||| op is MovRegisterOrMemoryToSegmentRegister
    ||| op is MovSegmentRegisterToRegisterOrMemory
}

/// The exact number of bytes the format consumes at position `c`.
pub open spec fn op_len(op: Opcode, b: Seq<u8>, c: int) -> int {
    match op {
        Opcode::MovRegisterOrMemoryToOrFromRegister => rm_reg_len(b, c),
        Opcode::AddRegisterOrMemoryWithRegisterToEither => rm_reg_len(b, c),
        Opcode::SubRegisterOrMemoryWithRegisterToEither => rm_reg_len(b, c),
        Opcode::CmpRegisterOrMemoryAndRegister => rm_reg_len(b, c),
        Opcode::MovImmediateToRegister => imm_reg_len(b, c),
        Opcode::MovImmediateToRegisterOrMemory => imm_rm_len(b, c),
        Opcode::AddImmediateToRegisterOrMemory => imm_rm_len(b, c),
        Opcode::SubImmediateToRegisterOrMemory => imm_rm_len(b, c),
        Opcode::CmpImmediateWithRegisterOrMemory => imm_rm_len(b, c),
        Opcode::MovMemoryToAccumulator => acc_len(b, c),
        Opcode::MovAccumulatorToMemory => acc_len(b, c),
        Opcode::AddImmediateToAccumulator => acc_len(b, c),
        Opcode::SubImmediateToAccumulator => acc_len(b, c),
        Opcode::CmpImmediateWithAccumulator => acc_len(b, c),
        _ => 2,
    }
}

/// The text line the format renders at position `c`.
pub open spec fn op_line(op: Opcode, b: Seq<u8>, c: int) -> Seq<char> {
    match op {
        Opcode::MovRegisterOrMemoryToOrFromRegister => rm_reg_line(b, c),
        Opcode::AddRegisterOrMemoryWithRegisterToEither => rm_reg_line(b, c),
        Opcode::SubRegisterOrMemoryWithRegisterToEither => rm_reg_line(b, c),
        Opcode::CmpRegisterOrMemoryAndRegister => rm_reg_line(b, c),
        Opcode::MovImmediateToRegister => imm_reg_line(b, c),
        Opcode::MovImmediateToRegisterOrMemory => imm_rm_line(b, c),
        Opcode::AddImmediateToRegisterOrMemory => imm_rm_line(b, c),
        Opcode::SubImmediateToRegisterOrMemory => imm_rm_line(b, c),
        Opcode::CmpImmediateWithRegisterOrMemory => imm_rm_line(b, c),
        Opcode::MovMemoryToAccumulator => mem_acc_line(b, c),
        Opcode::MovAccumulatorToMemory => acc_mem_line(b, c),
        Opcode::AddImmediateToAccumulator => imm_acc_line(b, c),
        Opcode::SubImmediateToAccumulator => imm_acc_line(b, c),
        Opcode::CmpImmediateWithAccumulator => imm_acc_line(b, c),
        _ => Seq::empty(),
    }
}

/// The fixed architecture header every listing starts with.
pub open spec fn spec_header() -> Seq<char> {
    "bits 16\n\n"@
}

/// The whole pass from position `c` to the end of the stream: each step
/// classifies the leading byte, checks that the format's schedule fits in
/// the remaining bytes, and prepends a newline to the rendered line.  The
/// first failure aborts the pass with its error.
pub open spec fn decode_from(b: Seq<u8>, c: int) -> Result<Seq<char>, DecodeError>
    decreases b.len() - c,
{
    if c < 0 || c >= b.len() {
        Ok(Seq::empty())
    } else {
        let b0 = b[c];
        let b1 = if c + 1 < b.len() {
            b[c + 1]
        } else {
            0
        };
        match classify_spec(b0, b1) {
            None => Err(DecodeError::UnrecognizedOpcode { offset: c as usize, byte: b0 }),
            Some(op) => {
                if is_unhandled(op) {
                    Err(DecodeError::UnhandledFormat { offset: c as usize, byte: b0 })
                } else if c + op_len(op, b, c) > b.len() {
                    Err(DecodeError::Truncated { offset: c as usize })
                } else {
                    match decode_from(b, c + op_len(op, b, c)) {
                        Ok(rest) => Ok("\n"@ + op_line(op, b, c) + rest),
                        Err(e) => Err(e),
                    }
                }
            },
        }
    }
}

/// What every instruction decoder guarantees: when the format's schedule
/// fits in the remaining bytes it returns the rendered line and advances
/// the cursor by exactly that many bytes; otherwise it reports a truncated
/// stream and leaves the cursor alone.
pub open spec fn decode_step_post(
    b: Seq<u8>,
    c: int,
    c2: int,
    r: Result<String, DecodeError>,
    n: int,
    line: Seq<char>,
) -> bool {
    if c + n <= b.len() {
        &&& r matches Ok(s) && s@ == line
        &&& c2 == c + n
    } else {
        &&& r == Err::<String, DecodeError>(DecodeError::Truncated { offset: c as usize })
        &&& c2 == c
    }
}

} // verus!
