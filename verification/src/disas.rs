//! The disassembler: instruction records as assembly text, and the listings
//! of code and data segments.

use crate::decode::{
    addressable, decode, fetch, lemma_decoded_span, memtoi, quad_at, status_after,
};
use crate::failure::Failure;
use crate::header::ElfHdr;
use crate::isa::{Cmov, Cpu, Icode, Inst, Jump, Opq, Register, Stat};
use crate::load::{first_address_outside, segment_in_memory, ElfPhdr};
use crate::text::{hex, hex_padded, push_char, push_hex, push_hex_padded};
use vstd::prelude::*;
use vstd::string::StringExecFns;

verus! {

/// A constant operand: `0x` and the number in lowercase hexadecimal. An
/// absent constant is written as zero.
pub open spec fn render_constant(val_c: Option<u64>) -> Seq<char> {
    "0x"@ + hex(
        match val_c {
            Some(v) => v as nat,
            None => 0,
        },
    )
}

/// A base register in parentheses, or nothing where the operand names no
/// register.
pub open spec fn render_base(rb: Register) -> Seq<char> {
    if rb == Register::NOREG {
        Seq::empty()
    } else {
        "(%"@ + rb.name() + ")"@
    }
}

/// The assembly text of an instruction: the mnemonic of its class and
/// function code, then its operands in source, destination order. A register
/// is written as `%` and its name, a constant in hexadecimal after `0x`. An
/// `INVALID` record has no text.
pub open spec fn render(inst: Inst) -> Seq<char> {
    match inst.icode {
        Icode::HALT => "halt"@,
        Icode::NOP => "nop"@,
        Icode::CMOV => Cmov::of_fun(inst.ifun as int).mnemonic() + " %"@ + inst.ra.name() + ", %"@
            + inst.rb.name(),
        Icode::IRMOVQ => "irmovq "@ + render_constant(inst.val_c) + ", %"@ + inst.rb.name(),
        Icode::RMMOVQ => "rmmovq %"@ + inst.ra.name() + ", "@ + render_constant(inst.val_c)
            + render_base(inst.rb),
        Icode::MRMOVQ => "mrmovq "@ + render_constant(inst.val_c) + render_base(inst.rb) + ", %"@
            + inst.ra.name(),
        Icode::OPQ => Opq::of_fun(inst.ifun as int).mnemonic() + "q %"@ + inst.ra.name() + ", %"@
            + inst.rb.name(),
        Icode::JUMP => Jump::of_fun(inst.ifun as int).mnemonic() + " "@ + render_constant(
            inst.val_c,
        ),
        Icode::CALL => "call "@ + render_constant(inst.val_c),
        Icode::RET => "ret"@,
        Icode::PUSHQ => "pushq %"@ + inst.ra.name(),
        Icode::POPQ => "popq %"@ + inst.ra.name(),
        Icode::INVALID => Seq::empty(),
    }
}

/// Appends a register's name.
fn push_register(s: &mut String, reg: Register)
    ensures
        final(s)@ == old(s)@ + reg.name(),
{
    let name = reg.to_string();
    s.append(name.as_str());
}

/// Appends a constant operand.
fn push_constant(s: &mut String, val: u64)
    ensures
        final(s)@ == old(s)@ + render_constant(Some(val)),
{
    s.append("0x");
    push_hex(s, val);
    assert(s@ =~= old(s)@ + render_constant(Some(val)));
}

/// Appends a base register in parentheses, where there is one.
fn push_base(s: &mut String, rb: Register)
    ensures
        final(s)@ == old(s)@ + render_base(rb),
{
    if rb != Register::NOREG {
        s.append("(%");
        push_register(s, rb);
        s.append(")");
    }
    assert(s@ =~= old(s)@ + render_base(rb));
}

/// The assembly text of an instruction.
pub fn disassemble(inst: &Inst) -> (text: String)
    requires
        inst.wf(),
    ensures
        text@ == render(*inst),
{
    let mut s = String::new();
    match inst.icode {
        Icode::HALT => s.append("halt"),
        Icode::NOP => s.append("nop"),
        Icode::CMOV => {
            match Cmov::from(inst.ifun) {
                Cmov::RRMOVQ => s.append("rrmovq"),
                Cmov::CMOVLE => s.append("cmovle"),
                Cmov::CMOVL => s.append("cmovl"),
                Cmov::CMOVE => s.append("cmove"),
                Cmov::CMOVNE => s.append("cmovne"),
                Cmov::CMOVGE => s.append("cmovge"),
                Cmov::CMOVG => s.append("cmovg"),
            }

            s.append(" %");
            push_register(&mut s, inst.ra);
            s.append(", %");
            push_register(&mut s, inst.rb);
        },
        Icode::IRMOVQ => {
            s.append("irmovq ");
            push_constant(&mut s, inst.val_c.unwrap());
            s.append(", %");
            push_register(&mut s, inst.rb);
        },
        Icode::RMMOVQ => {
            s.append("rmmovq %");
            push_register(&mut s, inst.ra);
            s.append(", ");
            push_constant(&mut s, inst.val_c.unwrap());
            push_base(&mut s, inst.rb);
        },
        Icode::MRMOVQ => {
            s.append("mrmovq ");
            push_constant(&mut s, inst.val_c.unwrap());
            push_base(&mut s, inst.rb);
            s.append(", %");
            push_register(&mut s, inst.ra);
        },
        Icode::OPQ => {
            match Opq::from(inst.ifun) {
                Opq::ADD => s.append("add"),
                Opq::SUB => s.append("sub"),
                Opq::AND => s.append("and"),
                Opq::XOR => s.append("xor"),
            }

            s.append("q %");
            push_register(&mut s, inst.ra);
            s.append(", %");
            push_register(&mut s, inst.rb);
        },
        Icode::JUMP => {
            match Jump::from(inst.ifun) {
                Jump::JMP => s.append("jmp"),
                Jump::JLE => s.append("jle"),
                Jump::JL => s.append("jl"),
                Jump::JE => s.append("je"),
                Jump::JNE => s.append("jne"),
                Jump::JGE => s.append("jge"),
                Jump::JG => s.append("jg"),
            }

            s.append(" ");
            push_constant(&mut s, inst.val_c.unwrap());
        },
        Icode::CALL => {
            s.append("call ");
            push_constant(&mut s, inst.val_c.unwrap());
        },
        Icode::RET => s.append("ret"),
        Icode::PUSHQ => {
            s.append("pushq %");
            push_register(&mut s, inst.ra);
        },
        Icode::POPQ => {
            s.append("popq %");
            push_register(&mut s, inst.ra);
        },
        Icode::INVALID => (),
    }
    assert(s@ =~= render(*inst));
    s
}

/// The line that opens the listing of a segment: its address, then the
/// `.pos` directive with the address again and the segment's kind.
pub open spec fn position_line(vaddr: nat, kind: Seq<char>) -> Seq<char> {
    "  0x"@ + hex_padded(vaddr, 3) + ":                               | .pos 0x"@ + hex_padded(vaddr, 3) + kind + "\n"@
}

/// The line that labels the entry point.
pub open spec fn entry_label(pc: nat) -> Seq<char> {
    "  0x"@ + hex_padded(pc, 3) + ":                               | _start:"@ + "\n"@
}

/// The start of a row: its address in at least three hexadecimal digits.
pub open spec fn row_address(addr: nat) -> Seq<char> {
    "  0x"@ + hex_padded(addr, 3) + ": "@
}

/// One byte of a row: two hexadecimal digits and a space.
pub open spec fn byte_cell(b: u8) -> Seq<char> {
    hex_padded(b as nat, 2) + " "@
}

/// The first `slots` cells of a row of bytes: the `count` bytes from `start`
/// on, then blank cells.
pub open spec fn byte_column(mem: Seq<u8>, start: int, count: int, slots: nat) -> Seq<char>
    decreases slots,
{
    if slots == 0 {
        Seq::empty()
    } else {
        byte_column(mem, start, count, (slots - 1) as nat) + (if slots - 1 < count {
            byte_cell(mem[start + slots - 1])
        } else {
            "   "@
        })
    }
}

/// The row of one instruction: its address, its bytes in a column of ten
/// cells, and its text.
pub open spec fn code_row(mem: Seq<u8>, pc: u64, inst: Inst) -> Seq<char> {
    row_address(pc as nat) + byte_column(mem, pc as int, inst.val_p - pc, 10) + "|   "@ + render(
        inst,
    ) + "\n"@
}

/// The byte that a failed decoding is blamed on: the first byte at the
/// address, whatever made decoding fail; zero where the address itself lies
/// outside the address space.
pub open spec fn offending_byte(mem: Seq<u8>, pc: u64) -> u8 {
    if pc < mem.len() {
        mem[pc as int]
    } else {
        0
    }
}

/// What is written where decoding failed: the offending byte in
/// hexadecimal, and an empty line.
pub open spec fn invalid_opcode_line(byte: u8) -> Seq<char> {
    "Invalid opcode: 0x"@ + hex(byte as nat) + "\n\n"@
}

/// Number of addresses from `addr` up to `end`.
pub open spec fn distance(addr: int, end: int) -> nat {
    if addr < end {
        (end - addr) as nat
    } else {
        0
    }
}

/// The rows of the code from `pc` up to `end`: one for each instruction, a
/// label before the one at `entry`, and an empty line behind the last. The
/// rows end at the first address where decoding fails, with the line that
/// names the offending byte there.
pub open spec fn code_rows(mem: Seq<u8>, pc: u64, end: u64, entry: u16) -> Seq<char>
    decreases distance(pc as int, end as int),
    when addressable(mem)
{
    if pc >= end {
        "\n"@
    } else {
        let inst = decode(mem, pc);
        let label = if pc == entry {
            entry_label(pc as nat)
        } else {
            Seq::empty()
        };
        if inst.icode == Icode::INVALID {
            label + invalid_opcode_line(offending_byte(mem, pc))
        } else {
            proof {
                lemma_decoded_span(mem, pc);
            }
            label + code_row(mem, pc, inst) + code_rows(mem, inst.val_p, end, entry)
        }
    }
}

/// The processor's status after the code from `pc` up to `end` was walked,
/// starting in the status `stat`: every instruction is decoded in turn, and
/// the walk ends at `end` or at the first address where decoding fails.
pub open spec fn code_status(mem: Seq<u8>, pc: u64, end: u64, stat: Stat) -> Stat
    decreases distance(pc as int, end as int),
    when addressable(mem)
{
    if pc >= end {
        stat
    } else {
        let inst = decode(mem, pc);
        if inst.icode == Icode::INVALID {
            status_after(stat, mem, pc)
        } else {
            proof {
                lemma_decoded_span(mem, pc);
            }
            code_status(mem, inst.val_p, end, status_after(stat, mem, pc))
        }
    }
}

/// The address behind a segment.
pub open spec fn segment_end(phdr: ElfPhdr) -> u64 {
    (phdr.vaddr + phdr.size) as u64
}

/// The listing of a code segment.
pub open spec fn code_listing(mem: Seq<u8>, phdr: ElfPhdr, hdr: ElfHdr) -> Seq<char> {
    position_line(phdr.vaddr as nat, " code"@) + code_rows(
        mem,
        phdr.vaddr as u64,
        segment_end(phdr),
        hdr.entry,
    )
}

/// A listing and the processor's status at its end.
#[derive(Debug, PartialEq, Eq)]
pub struct Listing {
    /// The lines of the listing, each ended by a newline.
    pub text: String,
    /// `ADR` or `INS` where the listing broke off at bytes that are no
    /// instruction; if it did not, `HLT` where a `halt` is among the
    /// instructions and `AOK` where none is.
    pub stat: Stat,
}

/// Appends the line that opens the listing of a segment.
fn push_position_line(s: &mut String, vaddr: u32, kind: &str)
    ensures
        final(s)@ == old(s)@ + position_line(vaddr as nat, kind@),
{
    s.append("  0x");
    push_hex_padded(s, vaddr as u64, 3);
    s.append(":                               | .pos 0x");
    push_hex_padded(s, vaddr as u64, 3);
    s.append(kind);
    s.append("\n");
    assert(s@ =~= old(s)@ + position_line(vaddr as nat, kind@));
}

/// Appends the start of a row.
fn push_row_address(s: &mut String, addr: u64)
    ensures
        final(s)@ == old(s)@ + row_address(addr as nat),
{
    s.append("  0x");
    push_hex_padded(s, addr, 3);
    s.append(": ");
    assert(s@ =~= old(s)@ + row_address(addr as nat));
}

/// Appends one byte of a row.
fn push_byte_cell(s: &mut String, b: u8)
    ensures
        final(s)@ == old(s)@ + byte_cell(b),
{
    push_hex_padded(s, b as u64, 2);
    s.append(" ");
    assert(s@ =~= old(s)@ + byte_cell(b));
}

/// Appends a row of ten cells that holds the `count` bytes at `start`.
fn push_byte_column(s: &mut String, memory: &[u8], start: u64, count: u64, slots: u64)
    requires
        start + count <= memory@.len(),
    ensures
        final(s)@ == old(s)@ + byte_column(memory@, start as int, count as int, slots as nat),
{
    let len: usize = memory.len();
    let mut i: u64 = 0;
    while i < slots
        invariant
            i <= slots,
            len == memory@.len(),
            start + count <= memory@.len(),
            s@ == old(s)@ + byte_column(memory@, start as int, count as int, i as nat),
        decreases slots - i,
    {
        if i < count {
            push_byte_cell(s, memory[(start + i) as usize]);
        } else {
            s.append("   ");
        }
        i += 1;
        assert(s@ =~= old(s)@ + byte_column(memory@, start as int, count as int, i as nat));
    }
}

/// Appends the line that labels the entry point.
fn push_entry_label(s: &mut String, pc: u64)
    ensures
        final(s)@ == old(s)@ + entry_label(pc as nat),
{
    s.append("  0x");
    push_hex_padded(s, pc, 3);
    s.append(":                               | _start:");
    s.append("\n");
    assert(s@ =~= old(s)@ + entry_label(pc as nat));
}

/// The byte that a failed decoding at `pc` is blamed on.
fn first_byte(memory: &[u8], pc: u64) -> (byte: u8)
    ensures
        byte == offending_byte(memory@, pc),
{
    if pc < memory.len() as u64 {
        memory[pc as usize]
    } else {
        0
    }
}

/// Appends what is written where decoding failed.
fn push_invalid_opcode_line(s: &mut String, byte: u8)
    ensures
        final(s)@ == old(s)@ + invalid_opcode_line(byte),
{
    s.append("Invalid opcode: 0x");
    push_hex(s, byte as u64);
    s.append("\n\n");
    assert(s@ =~= old(s)@ + invalid_opcode_line(byte));
}

/// Appends the row of the instruction `inst`, which was decoded at `pc`.
fn push_code_row(s: &mut String, memory: &[u8], pc: u64, inst: &Inst)
    requires
        inst.wf(),
        pc <= inst.val_p <= memory@.len(),
    ensures
        final(s)@ == old(s)@ + code_row(memory@, pc, *inst),
{
    // the address and the bytes of the instruction
    push_row_address(s, pc);
    push_byte_column(s, memory, pc, inst.val_p - pc, 10);
    s.append("|   ");

    let line = disassemble(inst);
    s.append(line.as_str());
    s.append("\n");
    assert(s@ =~= old(s)@ + code_row(memory@, pc, *inst));
}

/// Lists a code segment: the line that opens it, then one row for each
/// instruction from the segment's address up to its end, with a label
/// before the instruction at the header's entry point.
///
/// The listing breaks off at the first address where decoding fails, with a
/// line that names the offending byte: the first byte at that address, or
/// zero where the address lies outside the address space. The status says
/// how the walk ended.
pub fn disassemble_code(memory: &[u8], phdr: &ElfPhdr, hdr: &ElfHdr) -> (out: Listing)
    requires
        addressable(memory@),
    ensures
        out.text@ == code_listing(memory@, *phdr, *hdr),
        out.stat == code_status(memory@, phdr.vaddr as u64, segment_end(*phdr), Stat::AOK),
{
    // a processor that only holds the program counter
    let mut cpu = Cpu::new(phdr.vaddr as u64);
    let mut text = String::new();
    push_position_line(&mut text, phdr.vaddr, " code");

    let end: u64 = phdr.vaddr as u64 + phdr.size as u64;
    let ghost mem = memory@;
    let ghost head = text@;
    let ghost start = phdr.vaddr as u64;
    while cpu.pc < end
        invariant
            addressable(mem),
            mem == memory@,
            end == segment_end(*phdr),
            start == phdr.vaddr,
            head == position_line(phdr.vaddr as nat, " code"@),
            head + code_rows(mem, start, end, hdr.entry) == text@ + code_rows(
                mem,
                cpu.pc,
                end,
                hdr.entry,
            ),
            code_status(mem, start, end, Stat::AOK) == code_status(mem, cpu.pc, end, cpu.stat),
        decreases distance(cpu.pc as int, end as int),
    {
        let ghost before = text@;
        let ghost pc = cpu.pc;
        if cpu.pc == hdr.entry as u64 {
            push_entry_label(&mut text, cpu.pc);
        }
        let ghost label = text@.subrange(before.len() as int, text@.len() as int);
        assert(text@ =~= before + label);

        // the listing ends at bytes that are no instruction
        let inst = fetch(&mut cpu, memory);
        if inst.icode == Icode::INVALID {
            push_invalid_opcode_line(&mut text, first_byte(memory, cpu.pc));
            assert(text@ =~= before + (label + invalid_opcode_line(offending_byte(mem, pc))));
            return Listing { text, stat: cpu.stat };
        }
        proof {
            lemma_decoded_span(mem, pc);
        }

        push_code_row(&mut text, memory, cpu.pc, &inst);
        assert(text@ =~= before + (label + code_row(mem, pc, inst)));
        assert(before + code_rows(mem, pc, end, hdr.entry) =~= text@ + code_rows(
            mem,
            inst.val_p,
            end,
            hdr.entry,
        ));
        cpu.pc = inst.val_p;
    }

    text.append("\n");
    Listing { text, stat: cpu.stat }
}

/// The addresses that the rows of a data segment cover: those of the
/// segment, up to the end of its last row of eight.
pub open spec fn data_span(phdr: ElfPhdr) -> int {
    8 * ((phdr.size + 7) / 8)
}

/// Whether all rows of a data segment lie in the address space.
pub open spec fn data_in_memory(mem: Seq<u8>, phdr: ElfPhdr) -> bool {
    phdr.vaddr + data_span(phdr) <= mem.len() || phdr.size == 0
}

/// One row of a data segment: its address, eight bytes, and the number
/// that they spell, least significant byte first.
pub open spec fn data_row(mem: Seq<u8>, addr: int) -> Seq<char> {
    row_address(addr as nat) + byte_column(mem, addr, 8, 8) + "      |   .quad "@ + render_constant(
        quad_at(mem, addr),
    ) + "\n"@
}

/// The rows of the data from `addr` up to `end`, eight bytes each.
pub open spec fn data_rows(mem: Seq<u8>, addr: int, end: int) -> Seq<char>
    decreases distance(addr, end),
{
    if addr >= end {
        Seq::empty()
    } else {
        data_row(mem, addr) + data_rows(mem, addr + 8, end)
    }
}

/// The listing of a data segment: the line that opens it, its rows, and an
/// empty line.
pub open spec fn data_listing(mem: Seq<u8>, phdr: ElfPhdr) -> Seq<char> {
    position_line(phdr.vaddr as nat, " data"@) + data_rows(
        mem,
        phdr.vaddr as int,
        phdr.vaddr + phdr.size,
    ) + "\n"@
}

/// A row that starts inside a segment ends inside the span of its rows.
proof fn lemma_row_in_span(size: int, row: int)
    requires
        0 <= row,
        8 * row < size,
    ensures
        8 * (row + 1) <= 8 * ((size + 7) / 8),
{
}

/// Appends one row of a data segment.
fn push_data_row(s: &mut String, memory: &[u8], addr: u64)
    requires
        addr + 8 <= memory@.len(),
    ensures
        final(s)@ == old(s)@ + data_row(memory@, addr as int),
{
    push_row_address(s, addr);
    push_byte_column(s, memory, addr, 8, 8);
    s.append("      |   .quad ");
    let quad: Option<u64> = memtoi(memory, addr);
    assert(quad is Some) by {
        reveal(quad_at);
    }
    push_constant(s, quad.unwrap());
    s.append("\n");
    assert(s@ =~= old(s)@ + data_row(memory@, addr as int));
}

/// Lists a data segment as rows of eight bytes, each with the 64-bit number
/// that its bytes spell. The last row is a full one even where the segment
/// ends inside it.
///
/// Fails with `MemAccess` and the first address that lies outside where a
/// row does not fit into the address space.
pub fn disassemble_data(memory: &[u8], phdr: &ElfPhdr) -> (out: Result<String, Failure>)
    ensures
        data_in_memory(memory@, *phdr) ==> out is Ok && out->Ok_0@ == data_listing(memory@, *phdr),
        !data_in_memory(memory@, *phdr) ==> out == Err::<String, Failure>(
            Failure::MemAccess(first_address_outside(memory@, *phdr)),
        ),
{
    let len: u64 = memory.len() as u64;
    let start: u64 = phdr.vaddr as u64;
    let max_addr: u64 = start + phdr.size as u64;
    let span: u64 = 8 * ((phdr.size as u64 + 7) / 8);
    if phdr.size > 0 && start + span > len {
        return Err(
            Failure::MemAccess(
                if start >= len {
                    start
                } else {
                    len
                },
            ),
        );
    }
    let mut text = String::new();
    push_position_line(&mut text, phdr.vaddr, " data");

    let ghost head = text@;
    let ghost all = data_rows(memory@, start as int, max_addr as int);
    let ghost mut row: int = 0;
    let mut addr: u64 = start;
    while addr < max_addr
        invariant
            0 <= row,
            addr == start + 8 * row,
            addr <= start + span,
            max_addr == start + phdr.size,
            span == 8 * ((phdr.size + 7) / 8),
            len == memory@.len(),
            phdr.size > 0 ==> start + span <= len,
            head + all == text@ + data_rows(memory@, addr as int, max_addr as int),
        decreases distance(addr as int, max_addr as int),
    {
        proof {
            lemma_row_in_span(phdr.size as int, row);
        }
        let ghost before = text@;
        let ghost this = data_row(memory@, addr as int);
        let ghost rows = data_rows(memory@, addr as int, max_addr as int);
        push_data_row(&mut text, memory, addr);

        addr += 8;
        proof {
            row = row + 1;
        }
        let ghost rest = data_rows(memory@, addr as int, max_addr as int);
        assert(rows == this + rest);
        assert(before + (this + rest) =~= (before + this) + rest);
    }

    text.append("\n");
    assert(text@ =~= data_listing(memory@, *phdr));
    Ok(text)
}

/// The characters of the bytes from `start` on, up to the first zero byte
/// or to `end`, whichever comes first.
pub open spec fn c_string(mem: Seq<u8>, start: int, end: int) -> Seq<char>
    decreases end - start,
{
    if start >= end || mem[start] == 0 {
        Seq::empty()
    } else {
        seq![mem[start] as char] + c_string(mem, start + 1, end)
    }
}

/// `count` blank cells.
pub open spec fn blank_cells(count: int) -> Seq<char>
    decreases count,
{
    if count <= 0 {
        Seq::empty()
    } else {
        blank_cells(count - 1) + "   "@
    }
}

/// The end of a row of a listing of strings whose last byte stands in the
/// cell `col`: blank cells up to ten, the bar, and, in the row that a string
/// starts in, the string that starts at `row`.
pub open spec fn string_row_end(mem: Seq<u8>, row: int, end: int, col: int, starts: bool) -> Seq<
    char,
> {
    blank_cells(9 - col) + "| "@ + (if starts {
        "  .string \""@ + c_string(mem, row, end) + "\""@
    } else {
        Seq::empty()
    }) + "\n"@
}

/// Whether the byte at `addr`, which stands in the cell `col`, ends its
/// row: a zero byte does, and so does the tenth byte of a row.
pub open spec fn ends_row(mem: Seq<u8>, addr: int, col: int) -> bool {
    col == 9 || mem[addr] == 0
}

/// What the byte at `addr` adds to a listing of strings, where it stands in
/// the cell `col` of its row and `starts` tells whether a string starts in
/// that row: the row's address before the first cell, the byte's cell, and
/// the end of the row behind a byte that ends it.
pub open spec fn string_cell(mem: Seq<u8>, addr: int, end: int, col: int, starts: bool) -> Seq<
    char,
> {
    (if col == 0 {
        row_address(addr as nat)
    } else {
        Seq::empty()
    }) + byte_cell(mem[addr]) + (if ends_row(mem, addr, col) {
        string_row_end(mem, addr - col, end, col, starts)
    } else {
        Seq::empty()
    })
}

/// The listing of the strings from `addr` up to `end`, where `addr` stands
/// in the cell `col` of its row and `starts` tells whether a string starts
/// in that row.
///
/// A row ends behind a zero byte or behind its tenth byte. A string starts
/// in the first row and in every row behind a zero byte. A row that the
/// segment ends in, before either, is left as it is.
pub open spec fn string_rows(mem: Seq<u8>, addr: int, end: int, col: int, starts: bool) -> Seq<
    char,
>
    decreases end - addr,
{
    if addr >= end {
        Seq::empty()
    } else if ends_row(mem, addr, col) {
        string_cell(mem, addr, end, col, starts) + string_rows(
            mem,
            addr + 1,
            end,
            0,
            mem[addr] == 0,
        )
    } else {
        string_cell(mem, addr, end, col, starts) + string_rows(mem, addr + 1, end, col + 1, starts)
    }
}

/// The listing of a segment of strings: the line that opens it and its
/// rows.
pub open spec fn rodata_listing(mem: Seq<u8>, phdr: ElfPhdr) -> Seq<char> {
    position_line(phdr.vaddr as nat, " rodata"@) + string_rows(
        mem,
        phdr.vaddr as int,
        phdr.vaddr + phdr.size,
        0,
        true,
    )
}

/// Appends the characters of the bytes from `start` on, up to the first
/// zero byte or to `end`.
fn push_c_string(s: &mut String, memory: &[u8], start: u64, end: u64)
    requires
        end <= memory@.len(),
    ensures
        final(s)@ == old(s)@ + c_string(memory@, start as int, end as int),
{
    let mut at: u64 = start;
    while at < end && memory[at as usize] != 0
        invariant
            start <= at,
            end <= memory@.len(),
            old(s)@ + c_string(memory@, start as int, end as int) == s@ + c_string(
                memory@,
                at as int,
                end as int,
            ),
        decreases end - at,
    {
        let ghost before = s@;
        push_char(s, memory[at as usize] as char);
        assert(before + c_string(memory@, at as int, end as int) =~= s@ + c_string(
            memory@,
            at + 1,
            end as int,
        ));
        at += 1;
    }
}

/// Appends the end of a row of a listing of strings.
fn push_string_row_end(
    s: &mut String,
    memory: &[u8],
    row: u64,
    end: u64,
    col: u64,
    starts: bool,
)
    requires
        col <= 9,
        end <= memory@.len(),
    ensures
        final(s)@ == old(s)@ + string_row_end(memory@, row as int, end as int, col as int, starts),
{
    let mut pad: u64 = col;
    while pad < 9
        invariant
            col <= pad <= 9,
            s@ == old(s)@ + blank_cells(pad - col),
        decreases 9 - pad,
    {
        s.append("   ");
        pad += 1;
        assert(s@ =~= old(s)@ + blank_cells(pad - col));
    }

    s.append("| ");

    if starts {
        s.append("  .string \"");
        push_c_string(s, memory, row, end);
        s.append("\"");
    }
    s.append("\n");
    assert(s@ =~= old(s)@ + string_row_end(
        memory@,
        row as int,
        end as int,
        col as int,
        starts,
    ));
}

/// Appends what the byte at `addr` adds to a listing of strings.
fn push_string_cell(s: &mut String, memory: &[u8], addr: u64, end: u64, col: u64, starts: bool)
    requires
        col <= 9,
        col <= addr < end <= memory@.len(),
    ensures
        final(s)@ == old(s)@ + string_cell(
            memory@,
            addr as int,
            end as int,
            col as int,
            starts,
        ),
{
    if col == 0 {
        push_row_address(s, addr);
    }
    let byte: u8 = memory[addr as usize];
    push_byte_cell(s, byte);

    if col == 9 || byte == 0 {
        push_string_row_end(s, memory, addr - col, end, col, starts);
    }
    assert(s@ =~= old(s)@ + string_cell(
        memory@,
        addr as int,
        end as int,
        col as int,
        starts,
    ));
}

/// Lists a segment of zero-terminated strings as rows of up to ten bytes,
/// each string written out beside the row that it starts in.
///
/// Fails with `MemAccess` and the first address that lies outside where the
/// segment does not fit into the address space.
pub fn disassemble_rodata(memory: &[u8], phdr: &ElfPhdr) -> (out: Result<String, Failure>)
    ensures
        segment_in_memory(memory@, *phdr) ==> out is Ok && out->Ok_0@ == rodata_listing(
            memory@,
            *phdr,
        ),
        !segment_in_memory(memory@, *phdr) ==> out == Err::<String, Failure>(
            Failure::MemAccess(first_address_outside(memory@, *phdr)),
        ),
{
    let len: u64 = memory.len() as u64;
    let start: u64 = phdr.vaddr as u64;
    let max_addr: u64 = start + phdr.size as u64;
    if phdr.size > 0 && max_addr > len {
        return Err(
            Failure::MemAccess(
                if start >= len {
                    start
                } else {
                    len
                },
            ),
        );
    }
    let mut text = String::new();
    push_position_line(&mut text, phdr.vaddr, " rodata");

    // whether the row's string is written at its end
    let mut print: bool = true;
    // the cell that the next byte goes to
    let mut i: u64 = 0;
    let mut addr: u64 = start;
    let ghost head = text@;
    while addr < max_addr
        invariant
            start <= addr,
            i <= 9,
            i <= addr - start,
            max_addr <= len || phdr.size == 0,
            max_addr == start + phdr.size,
            len == memory@.len(),
            head + string_rows(memory@, start as int, max_addr as int, 0, true) == text@
                + string_rows(memory@, addr as int, max_addr as int, i as int, print),
        decreases max_addr - addr,
    {
        let ghost before = text@;
        let ghost cell = string_cell(memory@, addr as int, max_addr as int, i as int, print);
        let ghost rows = string_rows(memory@, addr as int, max_addr as int, i as int, print);
        push_string_cell(&mut text, memory, addr, max_addr, i, print);

        let byte: u8 = memory[addr as usize];
        if i == 9 || byte == 0 {
            print = byte == 0;
            i = 0;
        } else {
            i += 1;
        }
        addr += 1;
        let ghost rest = string_rows(memory@, addr as int, max_addr as int, i as int, print);
        assert(rows == cell + rest);
        assert(before + (cell + rest) =~= (before + cell) + rest);
    }
    assert(text@ =~= rodata_listing(memory@, *phdr));
    Ok(text)
}

} // verus!
