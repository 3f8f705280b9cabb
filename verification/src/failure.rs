//! What loading and listing can fail with.

use vstd::prelude::*;

verus! {

/// A failure to load or to list an object file.
#[derive(Clone, Copy, Debug, PartialEq, Eq, Structural)]
pub enum Failure {
    /// The file ends before the bytes that were asked of it.
    Truncated,
    /// A header does not carry its magic number.
    BadMagic,
    /// An access to this address, which lies outside the address space.
    MemAccess(u64),
}

} // verus!
