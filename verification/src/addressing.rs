//! The addressing-mode resolver: given the mod and rm fields of the second
//! instruction byte, decides whether the operand is a register or a memory
//! expression, how many displacement bytes it consumes, and what text it
//! renders to.
//!
//! The one special case of the 8086 encoding is preserved exactly: with
//! mod = 0 the rm value 6 does not mean `[bp]` but a plain 16-bit direct
//! address, taking two extra bytes.

use vstd::prelude::*;
use vstd::string::StringExecFns;
use crate::regs::{reg_name, register_name, rm_base, rm_base_expr};
use crate::text::{dec_digits, dec_i16, dec_int, dec_u16};

verus! {

/// The value of two bytes read little-endian as an unsigned 16-bit number.
pub open spec fn u16_le(lo: u8, hi: u8) -> int {
    lo + 256 * hi
}

/// The value of two bytes read little-endian as a two's-complement 16-bit
/// number.
pub open spec fn s16_le(lo: u8, hi: u8) -> int {
    if hi >= 128 {
        u16_le(lo, hi) - 65536
    } else {
        u16_le(lo, hi)
    }
}

/// The value of one byte read as a two's-complement 8-bit number: a byte
/// with bit 7 set is negative.
pub open spec fn sext8(b: u8) -> int {
    if b >= 128 {
        b - 256
    } else {
        b as int
    }
}

/// How many displacement bytes the mod/rm fields make the resolver consume.
pub open spec fn rm_len(md: u8, rm: u8) -> int {
    if md == 0 {
        if rm == 6 {
            2
        } else {
            0
        }
    } else if md == 1 {
        1
    } else if md == 2 {
        2
    } else {
        0
    }
}

/// A memory operand built from a base/index expression and a displacement.
/// A zero displacement is suppressed; otherwise the sign is rendered as
/// `" + "` or `" - "` followed by the magnitude.
pub open spec fn ea_disp(rm: u8, d: int) -> Seq<char> {
    if d == 0 {
        "["@ + rm_base(rm) + "]"@
    } else if d > 0 {
        "["@ + rm_base(rm) + " + "@ + dec_digits(d as nat) + "]"@
    } else {
        "["@ + rm_base(rm) + " - "@ + dec_digits((-d) as nat) + "]"@
    }
}

/// The text of the operand the mod/rm fields select.  `d0` and `d1` are the
/// displacement bytes that follow the mod/rm byte; they are ignored in the
/// modes that consume none.
pub open spec fn rm_text(md: u8, rm: u8, wide: bool, d0: u8, d1: u8) -> Seq<char> {
    if md == 0 {
        if rm == 6 {
            "["@ + dec_int(s16_le(d0, d1)) + "]"@
        } else {
            "["@ + rm_base(rm) + "]"@
        }
    } else if md == 1 {
        ea_disp(rm, sext8(d0))
    } else if md == 2 {
        ea_disp(rm, s16_le(d0, d1))
    } else {
        reg_name(wide, rm)
    }
}

/// Reads two bytes as a little-endian unsigned 16-bit value.
pub fn u16_from_le(lo: u8, hi: u8) -> (r: u16)
    ensures
        r as int == u16_le(lo, hi),
{
    (lo as u16) + 256 * (hi as u16)
}

/// Reads two bytes as a little-endian two's-complement 16-bit value.
pub fn i16_from_le(lo: u8, hi: u8) -> (r: i16)
    ensures
        r as int == s16_le(lo, hi),
{
    let u: u16 = u16_from_le(lo, hi);
    if u < 32768 {
        u as i16
    } else {
        ((u as i32) - 65536) as i16
    }
}

/// Sign-extends a displacement byte: bit 7 set means negative, with the
/// magnitude 256 minus the raw byte value.
pub fn sign_extend8(b: u8) -> (r: i16)
    ensures
        r as int == sext8(b),
{
    if b < 128 {
        b as i16
    } else {
        (b as i16) - 256
    }
}

/// How many displacement bytes the resolver will consume for these fields.
pub fn rm_extra_len(md: u8, rm: u8) -> (n: u8)
    ensures
        n as int == rm_len(md, rm),
{
    if md == 0 {
        if rm == 6 {
            2
        } else {
            0
        }
    } else if md == 1 {
        1
    } else if md == 2 {
        2
    } else {
        0
    }
}

/// Renders a base/index memory operand with a non-suppressed displacement
/// sign: `" + "` for a positive displacement, `" - "` and the absolute value
/// for a negative one, and the bare expression when it is zero.
pub fn rm_address_calculation_displaced(rm_bits: &u8, displacement: &i16) -> (r: String)
    requires
        *rm_bits < 8,
    ensures
        r@ == ea_disp(*rm_bits, *displacement as int),
{
    let d: i16 = *displacement;
    let mut s = String::from_str("[");
    s.append(rm_base_expr(*rm_bits));
    if d == 0 {
        s.append("]");
        s
    } else if d > 0 {
        s.append(" + ");
        let m = dec_u16(d as u16);
        s.append(m.as_str());
        s.append("]");
        s
    } else {
        s.append(" - ");
        let mag: u16 = (-(d as i32)) as u16;
        let m = dec_u16(mag);
        s.append(m.as_str());
        s.append("]");
        s
    }
}

/// Resolves the operand selected by the mod/rm fields, consuming its
/// displacement bytes from the stream and advancing the cursor by exactly
/// [`rm_len`] bytes.
pub fn resolve_rm(bytes: &Vec<u8>, cursor: &mut usize, md: u8, rm_bits: u8, wide: bool) -> (r:
    String)
    requires
        rm_bits < 8,
        *old(cursor) + rm_len(md, rm_bits) <= bytes@.len(),
    ensures
        r@ == rm_text(md, rm_bits, wide, bytes@[*old(cursor) as int], bytes@[*old(cursor) + 1]),
        *final(cursor) == *old(cursor) + rm_len(md, rm_bits),
{
    let blen: usize = bytes.len();
    if md == 0 {
        if rm_bits == 6 {
            let lo = bytes[*cursor];
            let hi = bytes[*cursor + 1];
            *cursor = *cursor + 2;
            let v = i16_from_le(lo, hi);
            let mut s = String::from_str("[");
            let m = dec_i16(v);
            s.append(m.as_str());
            s.append("]");
            s
        } else {
            let mut s = String::from_str("[");
            s.append(rm_base_expr(rm_bits));
            s.append("]");
            s
        }
    } else if md == 1 {
        let d = sign_extend8(bytes[*cursor]);
        *cursor = *cursor + 1;
        rm_address_calculation_displaced(&rm_bits, &d)
    } else if md == 2 {
        let lo = bytes[*cursor];
        let hi = bytes[*cursor + 1];
        *cursor = *cursor + 2;
        let d = i16_from_le(lo, hi);
        rm_address_calculation_displaced(&rm_bits, &d)
    } else {
        String::from_str(register_name(wide, rm_bits))
    }
}

} // verus!
