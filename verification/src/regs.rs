//! The register naming table: a pure lookup from the width bit and a
//! three-bit register index to the NASM register mnemonic, together with the
//! eight base/index expressions an effective address can be built from.

use vstd::prelude::*;

verus! {

/// The byte-register mnemonic for an index in 0..=7.
pub open spec fn byte_reg(i: u8) -> Seq<char> {
    if i == 0 {
        "al"@
    } else if i == 1 {
        "cl"@
    } else if i == 2 {
        "dl"@
    } else if i == 3 {
        "bl"@
    } else if i == 4 {
        "ah"@
    } else if i == 5 {
        "ch"@
    } else if i == 6 {
        "dh"@
    } else {
        "bh"@
    }
}

/// The word-register mnemonic for an index in 0..=7.
pub open spec fn word_reg(i: u8) -> Seq<char> {
    if i == 0 {
        "ax"@
    } else if i == 1 {
        "cx"@
    } else if i == 2 {
        "dx"@
    } else if i == 3 {
        "bx"@
    } else if i == 4 {
        "sp"@
    } else if i == 5 {
        "bp"@
    } else if i == 6 {
        "si"@
    } else {
        "di"@
    }
}

/// The register mnemonic selected by the width bit and a register index.
pub open spec fn reg_name(wide: bool, i: u8) -> Seq<char> {
    if wide {
        word_reg(i)
    } else {
        byte_reg(i)
    }
}

/// The base/index expression for an rm field, without brackets or
/// displacement.
pub open spec fn rm_base(i: u8) -> Seq<char> {
    if i == 0 {
        "bx + si"@
    } else if i == 1 {
        "bx + di"@
    } else if i == 2 {
        "bp + si"@
    } else if i == 3 {
        "bp + di"@
    } else if i == 4 {
        "si"@
    } else if i == 5 {
        "di"@
    } else if i == 6 {
        "bp"@
    } else {
        "bx"@
    }
}

fn byte_register_name(i: u8) -> (r: &'static str)
    requires
        i < 8,
    ensures
        r@ == byte_reg(i),
{
    match i {
        0 => "al",
        1 => "cl",
        2 => "dl",
        3 => "bl",
        4 => "ah",
        5 => "ch",
        6 => "dh",
        _ => "bh",
    }
}

fn word_register_name(i: u8) -> (r: &'static str)
    requires
        i < 8,
    ensures
        r@ == word_reg(i),
{
    match i {
        0 => "ax",
        1 => "cx",
        2 => "dx",
        3 => "bx",
        4 => "sp",
        5 => "bp",
        6 => "si",
        _ => "di",
    }
}

/// Looks up a register mnemonic by width bit and index.
pub fn register_name(wide: bool, i: u8) -> (r: &'static str)
    requires
        i < 8,
    ensures
        r@ == reg_name(wide, i),
{
    if wide {
        word_register_name(i)
    } else {
        byte_register_name(i)
    }
}

/// Looks up the base/index expression for an rm field.
pub fn rm_base_expr(i: u8) -> (r: &'static str)
    requires
        i < 8,
    ensures
        r@ == rm_base(i),
{
    match i {
        0 => "bx + si",
        1 => "bx + di",
        2 => "bp + si",
        3 => "bp + di",
        4 => "si",
        5 => "di",
        6 => "bp",
        _ => "bx",
    }
}

} // verus!
