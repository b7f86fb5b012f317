//! A verified disassembler for a small subset of the 8086 instruction set.
//!
//! The library turns a buffer of raw machine-code bytes into a NASM-style
//! assembly listing.  It covers the register/memory and immediate forms of
//! `mov`, `add`, `sub` and `cmp`; everything else is reported as an error.
//!
//! The decoding itself is specified by the spec functions in [`formats`],
//! which say, byte for byte, how long each instruction is and what text it
//! renders to.  The executable decoders in [`decode`] are proved to follow
//! that model exactly, and [`lemmas`] states the general properties of the
//! model: the naming table round-trips, the direct-addressing special case,
//! displacement signs, and that every decode step consumes fresh bytes.

pub mod addressing;
pub mod decode;
pub mod formats;
pub mod lemmas;
pub mod regs;
pub mod text;
