//! Plain views of an object file: its header, its segment table, and the
//! bytes of the address space.

use crate::failure::Failure;
use crate::header::ElfHdr;
use crate::load::ElfPhdr;
use crate::text::{decimal, hex, hex_padded, push_decimal, push_hex, push_hex_padded};
use vstd::prelude::*;
use vstd::string::StringExecFns;

verus! {

/// The two bytes of a 16-bit number as they lie in the file, low byte
/// first, each in two hexadecimal digits.
pub open spec fn stringify(v: u16) -> Seq<char> {
    hex_padded((v % 256) as nat, 2) + " "@ + hex_padded((v / 256) as nat, 2)
}

/// The line that tells of a table of the file: where it starts, or that
/// there is none where the offset is zero.
pub open spec fn table_line(offset: u16, absent: Seq<char>, present: Seq<char>) -> Seq<char> {
    if offset == 0 {
        absent + "\n"@
    } else {
        present + decimal(offset as nat) + " (0x"@ + hex(offset as nat) + ")\n"@
    }
}

/// The header as text: its sixteen bytes, then one line each for the
/// version, the entry point, the segment table, the symbol table and the
/// string table.
pub open spec fn header_text(hdr: ElfHdr) -> Seq<char> {
    stringify(hdr.version) + " "@ + stringify(hdr.entry) + " "@ + stringify(hdr.phdr_start) + " "@
        + stringify(hdr.num_phdr) + "  "@ + stringify(hdr.symtab) + " "@ + stringify(hdr.strtab)
        + " 45 4c 46 00\n"@ + "Mini-ELF version "@ + decimal(hdr.version as nat) + "\n"@
        + "Entry point 0x"@ + hex(hdr.entry as nat) + "\n"@ + "There are "@ + decimal(
        hdr.num_phdr as nat,
    ) + " program headers, starting at offset "@ + decimal(hdr.phdr_start as nat) + " (0x"@ + hex(
        hdr.phdr_start as nat,
    ) + ")\n"@ + table_line(
        hdr.symtab,
        "There is no symbol table present"@,
        "There is a symbol table starting at offset "@,
    ) + table_line(
        hdr.strtab,
        "There is no string table present"@,
        "There is a string table starting at offset "@,
    )
}

/// Appends the two bytes of a 16-bit number, low byte first.
fn push_stringify(s: &mut String, v: u16)
    ensures
        final(s)@ == old(s)@ + stringify(v),
{
    assert(v & 0x00FF == v % 256 && v >> 8 == v / 256) by (bit_vector);
    push_hex_padded(s, (v & 0x00FF) as u64, 2);
    s.append(" ");
    push_hex_padded(s, (v >> 8) as u64, 2);
    assert(s@ =~= old(s)@ + stringify(v));
}

/// Appends the line that tells of a table of the file.
fn push_table_line(s: &mut String, offset: u16, absent: &str, present: &str)
    ensures
        final(s)@ == old(s)@ + table_line(offset, absent@, present@),
{
    if offset == 0 {
        s.append(absent);
        s.append("\n");
    } else {
        s.append(present);
        push_decimal(s, offset as u64);
        s.append(" (0x");
        push_hex(s, offset as u64);
        s.append(")\n");
    }
    assert(s@ =~= old(s)@ + table_line(offset, absent@, present@));
}

/// The header as text.
pub fn dump_header(hdr: &ElfHdr) -> (text: String)
    ensures
        text@ == header_text(*hdr),
{
    let mut s = String::new();
    push_stringify(&mut s, hdr.version);
    s.append(" ");
    push_stringify(&mut s, hdr.entry);
    s.append(" ");
    push_stringify(&mut s, hdr.phdr_start);
    s.append(" ");
    push_stringify(&mut s, hdr.num_phdr);
    s.append("  ");
    push_stringify(&mut s, hdr.symtab);
    s.append(" ");
    push_stringify(&mut s, hdr.strtab);
    s.append(" 45 4c 46 00\n");
    s.append("Mini-ELF version ");
    push_decimal(&mut s, hdr.version as u64);
    s.append("\n");
    s.append("Entry point 0x");
    push_hex(&mut s, hdr.entry as u64);
    s.append("\n");
    s.append("There are ");
    push_decimal(&mut s, hdr.num_phdr as u64);
    s.append(" program headers, starting at offset ");
    push_decimal(&mut s, hdr.phdr_start as u64);
    s.append(" (0x");
    push_hex(&mut s, hdr.phdr_start as u64);
    s.append(")\n");
    push_table_line(
        &mut s,
        hdr.symtab,
        "There is no symbol table present",
        "There is a symbol table starting at offset ",
    );
    push_table_line(
        &mut s,
        hdr.strtab,
        "There is no string table present",
        "There is a string table starting at offset ",
    );
    assert(s@ =~= header_text(*hdr));
    s
}

/// The name of a segment's kind, in five characters: 0 is data, 1 is code,
/// anything else is the stack.
pub open spec fn kind_name(ptype: u16) -> Seq<char> {
    if ptype == 0 {
        "DATA "@
    } else if ptype == 1 {
        "CODE "@
    } else {
        "STACK"@
    }
}

/// One permission: its letter if `granted`, a blank if not.
pub open spec fn permission(granted: bool, letter: Seq<char>) -> Seq<char> {
    if granted {
        letter
    } else {
        " "@
    }
}

/// Whether a segment can be read: bit 2 of its flags is set and no bit
/// above it.
pub open spec fn readable(flags: u16) -> bool {
    flags / 4 == 1
}

/// Whether a segment can be written: bit 1 of its flags.
pub open spec fn writable(flags: u16) -> bool {
    (flags / 2) % 2 == 1
}

/// Whether a segment can be executed: bit 0 of its flags.
pub open spec fn executable(flags: u16) -> bool {
    flags % 2 == 1
}

/// The permissions of a segment: `R`, `W` and `X`, each blank where it is
/// not granted.
pub open spec fn permissions(flags: u16) -> Seq<char> {
    permission(readable(flags), "R"@) + permission(writable(flags), "W"@) + permission(
        executable(flags),
        "X"@,
    )
}

/// The numbers in a row of the segment table: the segment's number in two
/// hexadecimal digits, then its offset, its size and its address in four.
pub open spec fn phdr_numbers(index: nat, phdr: ElfPhdr) -> Seq<char> {
    "  "@ + hex_padded(index, 2) + "       0x"@ + hex_padded(phdr.offset as nat, 4) + "    0x"@
        + hex_padded(phdr.size as nat, 4) + "    0x"@ + hex_padded(phdr.vaddr as nat, 4)
}

/// The row of the segment table for the segment number `index`.
pub open spec fn phdr_row(index: nat, phdr: ElfPhdr) -> Seq<char> {
    phdr_numbers(index, phdr) + "    "@ + kind_name(phdr.ptype) + "     "@ + permissions(
        phdr.flags,
    ) + "\n"@
}

/// The rows of the first `count` segments.
pub open spec fn phdr_rows(phdrs: Seq<ElfPhdr>, count: nat) -> Seq<char>
    decreases count,
{
    if count == 0 {
        Seq::empty()
    } else {
        phdr_rows(phdrs, (count - 1) as nat) + phdr_row((count - 1) as nat, phdrs[count - 1])
    }
}

/// The segment table as text: a line of headings and one row for each
/// segment.
pub open spec fn phdrs_text(phdrs: Seq<ElfPhdr>) -> Seq<char> {
    " Segment   Offset    Size      VirtAddr  Type      Flags\n"@ + phdr_rows(phdrs, phdrs.len())
}

/// Appends the numbers in a row of the segment table.
fn push_phdr_numbers(s: &mut String, index: usize, phdr: &ElfPhdr)
    ensures
        final(s)@ == old(s)@ + phdr_numbers(index as nat, *phdr),
{
    s.append("  ");
    push_hex_padded(s, index as u64, 2);
    s.append("       0x");
    push_hex_padded(s, phdr.offset as u64, 4);
    s.append("    0x");
    push_hex_padded(s, phdr.size as u64, 4);
    s.append("    0x");
    push_hex_padded(s, phdr.vaddr as u64, 4);
    assert(s@ =~= old(s)@ + phdr_numbers(index as nat, *phdr));
}

/// Appends the permissions of a segment.
fn push_permissions(s: &mut String, flags: u16)
    ensures
        final(s)@ == old(s)@ + permissions(flags),
{
    assert(flags >> 2 == flags / 4 && (flags >> 1) & 1 == (flags / 2) % 2 && flags & 1 == flags
        % 2) by (bit_vector);
    if flags >> 2 == 1 {
        s.append("R");
    } else {
        s.append(" ");
    }
    if (flags >> 1) & 1 == 1 {
        s.append("W");
    } else {
        s.append(" ");
    }
    if flags & 1 == 1 {
        s.append("X");
    } else {
        s.append(" ");
    }
    assert(s@ =~= old(s)@ + permissions(flags));
}

/// Appends the row of the segment table for the segment number `index`.
fn push_phdr_row(s: &mut String, index: usize, phdr: &ElfPhdr)
    ensures
        final(s)@ == old(s)@ + phdr_row(index as nat, *phdr),
{
    push_phdr_numbers(s, index, phdr);

    // the kind
    s.append("    ");
    match phdr.ptype {
        0 => s.append("DATA "),
        1 => s.append("CODE "),
        _ => s.append("STACK"),
    }

    // the flags
    s.append("     ");
    push_permissions(s, phdr.flags);
    s.append("\n");
    assert(s@ =~= old(s)@ + phdr_row(index as nat, *phdr));
}

/// The segment table as text.
pub fn dump_phdrs(phdrs: &Vec<ElfPhdr>) -> (text: String)
    ensures
        text@ == phdrs_text(phdrs@),
{
    let mut s = String::new();
    s.append(" Segment   Offset    Size      VirtAddr  Type      Flags\n");
    let ghost head = s@;

    let mut i: usize = 0;
    while i < phdrs.len()
        invariant
            i <= phdrs@.len(),
            s@ == head + phdr_rows(phdrs@, i as nat),
        decreases phdrs@.len() - i,
    {
        push_phdr_row(&mut s, i, &phdrs[i]);
        i += 1;
        assert(s@ =~= head + phdr_rows(phdrs@, i as nat));
    }
    s
}

/// The address of the row of sixteen that `start` lies in.
pub open spec fn row_start(start: u16) -> int {
    start - start % 16
}

/// What stands before the cell number `i`: a new line with the address at
/// every sixteenth cell, two blanks at every eighth, one blank else.
pub open spec fn cell_gap(addr: int, i: int) -> Seq<char> {
    if i % 16 == 0 {
        "\n  "@ + hex_padded((addr + i) as nat, 4) + "  "@
    } else if i % 8 == 0 {
        "  "@
    } else {
        " "@
    }
}

/// The cell number `i` of a dump that is asked to begin at `start`: blank
/// before `start`, and from there on the byte number `i` of the address
/// space, in two hexadecimal digits.
pub open spec fn cell(mem: Seq<u8>, addr: int, start: int, i: int) -> Seq<char> {
    if addr + i < start {
        "  "@
    } else {
        hex_padded(mem[i] as nat, 2)
    }
}

/// The first `count` cells of a dump, each behind its gap.
pub open spec fn cells(mem: Seq<u8>, addr: int, start: int, count: int) -> Seq<char>
    decreases count,
{
    if count <= 0 {
        Seq::empty()
    } else {
        cells(mem, addr, start, count - 1) + cell_gap(addr, count - 1) + cell(
            mem,
            addr,
            start,
            count - 1,
        )
    }
}

/// Number of cells in a dump from `start` to `end`: one for each address
/// from the start of the row that `start` lies in up to `end`.
pub open spec fn cell_count(start: u16, end: u16) -> int {
    if end > row_start(start) {
        end - row_start(start)
    } else {
        0
    }
}

/// The dump of the addresses from `start` to `end`: a heading, then rows of
/// sixteen cells.
pub open spec fn memory_text(mem: Seq<u8>, start: u16, end: u16) -> Seq<char> {
    "Contents of memory from "@ + hex_padded(start as nat, 4) + " to "@ + hex_padded(end as nat, 4)
        + ":"@ + cells(mem, row_start(start), start as int, cell_count(start, end)) + "\n"@
}

/// Dumps memory in rows of sixteen cells, the first row starting at the
/// multiple of sixteen at or below `start`. The cells are filled with the
/// bytes from the start of the address space on, one for each cell.
///
/// Fails with `MemAccess` where the address space has fewer bytes than the
/// dump has cells.
pub fn dump_memory(memory: &[u8], start: u16, end: u16) -> (out: Result<String, Failure>)
    ensures
        cell_count(start, end) <= memory@.len() ==> out is Ok && out->Ok_0@ == memory_text(
            memory@,
            start,
            end,
        ),
        cell_count(start, end) > memory@.len() ==> out == Err::<String, Failure>(
            Failure::MemAccess(memory@.len() as u64),
        ),
{
    let mut s = String::new();
    s.append("Contents of memory from ");
    push_hex_padded(&mut s, start as u64, 4);
    s.append(" to ");
    push_hex_padded(&mut s, end as u64, 4);
    s.append(":");
    let ghost head = s@;

    // the start of the row that `start` lies in
    assert(start & 0xFFF0 == start - start % 16) by (bit_vector);
    let addr: u16 = start & 0xFFF0;

    let len: usize = memory.len();
    let mut i: u16 = 0;
    while addr < end && i < end - addr
        invariant
            addr == row_start(start),
            len == memory@.len(),
            0 <= i <= cell_count(start, end),
            i <= len,
            s@ == head + cells(memory@, addr as int, start as int, i as int),
        decreases cell_count(start, end) - i,
    {
        if i as usize >= len {
            return Err(Failure::MemAccess(i as u64));
        }
        let byte: u8 = memory[i as usize];
        let ghost before = s@;

        if i % 16 == 0 {
            s.append("\n  ");
            push_hex_padded(&mut s, (addr + i) as u64, 4);
            s.append("  ");
        } else if i % 8 == 0 {
            s.append("  ");
        } else {
            s.append(" ");
        }

        // blanks before the start address
        if addr + i < start {
            s.append("  ");
        } else {
            push_hex_padded(&mut s, byte as u64, 2);
        }

        assert(s@ =~= before + cell_gap(addr as int, i as int) + cell(
            memory@,
            addr as int,
            start as int,
            i as int,
        ));
        i += 1;
    }
    s.append("\n");
    assert(s@ =~= memory_text(memory@, start, end));

    Ok(s)
}

} // verus!
