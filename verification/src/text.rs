//! Rendering numbers as text: decimal for operands and offsets, binary for
//! the bit pattern named by an error report.

use vstd::prelude::*;
use vstd::string::StringExecFns;

verus! {

/// The decimal digit character for a value in 0..=9.
pub open spec fn digit_char(d: int) -> char {
    if d == 0 {
        '0'
    } else if d == 1 {
        '1'
    } else if d == 2 {
        '2'
    } else if d == 3 {
        '3'
    } else if d == 4 {
        '4'
    } else if d == 5 {
        '5'
    } else if d == 6 {
        '6'
    } else if d == 7 {
        '7'
    } else if d == 8 {
        '8'
    } else {
        '9'
    }
}

/// The usual decimal rendering of a natural number, most significant digit
/// first, with no leading zeros (except for zero itself).
pub open spec fn dec_digits(n: nat) -> Seq<char>
    decreases n,
{
    if n < 10 {
        seq![digit_char(n as int)]
    } else {
        dec_digits(n / 10) + seq![digit_char((n % 10) as int)]
    }
}

/// The decimal rendering of an integer: a minus sign before the magnitude
/// when the value is negative.
pub open spec fn dec_int(i: int) -> Seq<char> {
    if i < 0 {
        "-"@ + dec_digits((-i) as nat)
    } else {
        dec_digits(i as nat)
    }
}

pub open spec fn is_dec_digit(c: char) -> bool {
    ||| c == '0'
    ||| c == '1'
    ||| c == '2'
    ||| c == '3'
    ||| c == '4'
    ||| c == '5'
    ||| c == '6'
    ||| c == '7'
    ||| c == '8'
    ||| c == '9'
}

/// A decimal rendering is never empty and consists of digit characters only,
/// so it can never be mistaken for a register name or a bracket.
pub proof fn lemma_dec_digits_are_digits(n: nat)
    ensures
        dec_digits(n).len() >= 1,
        forall|k: int| 0 <= k < dec_digits(n).len() ==> is_dec_digit(#[trigger] dec_digits(n)[k]),
    decreases n,
{
    if n >= 10 {
        lemma_dec_digits_are_digits(n / 10);
    }
}

fn digit_str(d: u8) -> (r: &'static str)
    requires
        d < 10,
    ensures
        r@ == seq![digit_char(d as int)],
{
    proof {
        reveal_strlit("0");
        reveal_strlit("1");
        reveal_strlit("2");
        reveal_strlit("3");
        reveal_strlit("4");
        reveal_strlit("5");
        reveal_strlit("6");
        reveal_strlit("7");
        reveal_strlit("8");
        reveal_strlit("9");
        assert("0"@ =~= seq!['0']);
        assert("1"@ =~= seq!['1']);
        assert("2"@ =~= seq!['2']);
        assert("3"@ =~= seq!['3']);
        assert("4"@ =~= seq!['4']);
        assert("5"@ =~= seq!['5']);
        assert("6"@ =~= seq!['6']);
        assert("7"@ =~= seq!['7']);
        assert("8"@ =~= seq!['8']);
        assert("9"@ =~= seq!['9']);
    }
    match d {
        0 => "0",
        1 => "1",
        2 => "2",
        3 => "3",
        4 => "4",
        5 => "5",
        6 => "6",
        7 => "7",
        8 => "8",
        _ => "9",
    }
}

/// Renders an unsigned 16-bit value in decimal.
pub fn dec_u16(n: u16) -> (r: String)
    ensures
        r@ == dec_digits(n as nat),
    decreases n,
{
    if n < 10 {
        String::from_str(digit_str(n as u8))
    } else {
        let mut s = dec_u16(n / 10);
        let t: &'static str = digit_str((n % 10) as u8);
        s.append(t);
        s
    }
}

/// Renders a machine-word offset in decimal.
pub fn dec_usize(n: usize) -> (r: String)
    ensures
        r@ == dec_digits(n as nat),
    decreases n,
{
    if n < 10 {
        String::from_str(digit_str(n as u8))
    } else {
        let mut s = dec_usize(n / 10);
        let t: &'static str = digit_str((n % 10) as u8);
        s.append(t);
        s
    }
}

/// Renders a signed 16-bit value in decimal, with a leading minus sign when
/// it is negative.
pub fn dec_i16(v: i16) -> (r: String)
    ensures
        r@ == dec_int(v as int),
{
    if v >= 0 {
        dec_u16(v as u16)
    } else {
        let mag: u16 = (-(v as i32)) as u16;
        let mut s = String::from_str("-");
        let d = dec_u16(mag);
        s.append(d.as_str());
        s
    }
}

fn bit_str(x: u8) -> (r: &'static str)
    ensures
        r@ == seq![bit_char(x)],
{
    proof {
        reveal_strlit("0");
        reveal_strlit("1");
        assert("0"@ =~= seq!['0']);
        assert("1"@ =~= seq!['1']);
    }
    if x & 1 == 1 {
        "1"
    } else {
        "0"
    }
}

/// The character for the lowest bit of a byte.
pub open spec fn bit_char(x: u8) -> char {
    if x & 1 == 1 {
        '1'
    } else {
        '0'
    }
}

/// The eight bits of a byte, most significant first.
pub open spec fn bin8(b: u8) -> Seq<char> {
    seq![
        bit_char(b >> 7),
        bit_char(b >> 6),
        bit_char(b >> 5),
        bit_char(b >> 4),
        bit_char(b >> 3),
        bit_char(b >> 2),
        bit_char(b >> 1),
        bit_char(b),
    ]
}

/// Renders a byte as its eight binary digits, most significant first.
pub fn bin8_string(b: u8) -> (r: String)
    ensures
        r@ == bin8(b),
{
    let mut s = String::new();
    s.append(bit_str(b >> 7));
    s.append(bit_str(b >> 6));
    s.append(bit_str(b >> 5));
    s.append(bit_str(b >> 4));
    s.append(bit_str(b >> 3));
    s.append(bit_str(b >> 2));
    s.append(bit_str(b >> 1));
    s.append(bit_str(b));
    proof {
        assert(s@ =~= bin8(b));
    }
    s
}

} // verus!
