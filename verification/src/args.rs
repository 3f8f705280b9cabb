//! The options of a run.

use vstd::prelude::*;

verus! {

/// What to show of an object file.
#[derive(Debug, PartialEq, Eq)]
pub struct Args {
    /// Show the header.
    pub hdr: bool,
    /// Show all with brief memory.
    pub all_brief: bool,
    /// Show all with full memory.
    pub all_full: bool,
    /// Show the segment headers.
    pub phdrs: bool,
    /// Show the memory of the segments.
    pub mem_brief: bool,
    /// Show the whole memory.
    pub mem_full: bool,
    /// Disassemble the code segments.
    pub disas_code: bool,
    /// Disassemble the data segments.
    pub disas_data: bool,
    /// The object file.
    pub file: String,
}

/// Spells out the options that stand for several others: "all" asks for
/// the header, the segment headers and the memory, brief or full. Returns
/// whether the options can be met: the memory is shown brief or full, not
/// both.
pub fn process_args(args: &mut Args) -> (ok: bool)
    ensures
        final(args).hdr == (old(args).hdr || old(args).all_brief || old(args).all_full),
        final(args).phdrs == (old(args).phdrs || old(args).all_brief || old(args).all_full),
        final(args).mem_brief == (old(args).mem_brief || old(args).all_brief),
        final(args).mem_full == (old(args).mem_full || old(args).all_full),
        final(args).all_brief == old(args).all_brief,
        final(args).all_full == old(args).all_full,
        final(args).disas_code == old(args).disas_code,
        final(args).disas_data == old(args).disas_data,
        final(args).file == old(args).file,
        ok == !(final(args).mem_brief && final(args).mem_full),
{
    if args.all_brief {
        args.hdr = true;
        args.phdrs = true;
        args.mem_brief = true;
    }
    if args.all_full {
        args.hdr = true;
        args.phdrs = true;
        args.mem_full = true;
    }

    if args.mem_brief && args.mem_full {
        return false;
    }

    true
}

} // verus!
