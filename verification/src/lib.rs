//! Decoder and disassembler for Y86-64 programs stored in Mini-ELF object
//! files.
//!
//! The crate works on plain bytes: the contents of an object file and a flat
//! address space that its segments are copied into. Every function states
//! what it returns in terms of the mathematical models defined next to it.

pub mod args;
pub mod bytes;
pub mod decode;
pub mod disas;
pub mod dump;
pub mod failure;
pub mod header;
pub mod isa;
pub mod laws;
pub mod load;
pub mod text;

use vstd::prelude::*;

verus! {

/// Number of bytes in the address space that object files are loaded into.
pub const MEMSIZE: u16 = 4096;

} // verus!
