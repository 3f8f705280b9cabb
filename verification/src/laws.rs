//! What holds of decoding and rendering on every address space.

use crate::bytes::le_value;
use crate::decode::{
    addressable, checked, cpu_after, decode, head_out_of_range, high_nibble, lemma_decoded_span,
    low_nibble, quad_at, status_after,
};
use crate::disas::{
    code_rows, code_status, entry_label, invalid_opcode_line, offending_byte, render,
};
use crate::isa::{Cpu, Icode, Inst, Register, Stat};
use vstd::prelude::*;

verus! {

/// Whether the bytes at `pc` are an instruction: all of them lie in the
/// address space, the first names a class, and the function code and the
/// register nibbles are what the class admits.
pub open spec fn encodes_instruction(mem: Seq<u8>, pc: u64) -> bool {
    pc < mem.len() && ({
        let class = Icode::of_nibble(high_nibble(mem[pc as int]));
        &&& class != Icode::INVALID
        &&& pc + class.len() <= mem.len()
        &&& class.fun_ok(low_nibble(mem[pc as int]))
        &&& class.has_registers() ==> class.ra_ok(high_nibble(mem[pc + 1])) && class.rb_ok(
            low_nibble(mem[pc + 1]),
        )
    })
}

/// The instruction that the bytes at `pc` encode: the class of the high
/// nibble of the first byte and the function code of its low nibble; the
/// registers of the two nibbles of the second byte, in a class that has
/// registers; the number that the last eight bytes spell, in a class that
/// has a constant; and the address behind the last byte.
pub open spec fn instruction_at(mem: Seq<u8>, pc: u64) -> Inst {
    let class = Icode::of_nibble(high_nibble(mem[pc as int]));
    Inst {
        icode: class,
        ifun: low_nibble(mem[pc as int]) as u8,
        ra: if class.has_registers() {
            Register::of_nibble(high_nibble(mem[pc + 1]))
        } else {
            Register::NOREG
        },
        rb: if class.has_registers() {
            Register::of_nibble(low_nibble(mem[pc + 1]))
        } else {
            Register::NOREG
        },
        val_c: if class.has_immediate() {
            Some(le_value(mem, pc + class.len() - 8, 8) as u64)
        } else {
            None
        },
        val_p: (pc + class.len()) as u64,
    }
}

/// Decoding succeeds if and only if the bytes at the address are an
/// instruction, and it then gives that instruction and leaves the status
/// alone, unless the instruction is a `halt`. It fails with `ADR` where the
/// first byte, or the second byte of a longer class, lies outside the
/// address space, and with `INS` on all other bytes that are no
/// instruction.
pub proof fn lemma_decodes(mem: Seq<u8>, pc: u64, before: Stat)
    requires
        addressable(mem),
    ensures
        decode(mem, pc).icode != Icode::INVALID <==> encodes_instruction(mem, pc),
        encodes_instruction(mem, pc) ==> decode(mem, pc) == instruction_at(mem, pc)
            && decode(mem, pc).val_p == pc + decode(mem, pc).icode.len() && status_after(
            before,
            mem,
            pc,
        ) == (if decode(mem, pc).icode == Icode::HALT {
            Stat::HLT
        } else {
            before
        }),
        !encodes_instruction(mem, pc) ==> status_after(before, mem, pc) == (if head_out_of_range(
            mem,
            pc,
        ) {
            Stat::ADR
        } else {
            Stat::INS
        }),
{
    reveal(decode);
    reveal(checked);
    reveal(quad_at);
}

/// A first byte whose high nibble is 0, 1 or 9 and whose low nibble is 0
/// decodes, wherever it stands, to an instruction of one byte without
/// operands: `halt`, `nop` or `ret`. Only `halt` changes the processor's
/// status.
pub proof fn lemma_one_byte_instructions(mem: Seq<u8>, pc: u64, before: Stat)
    requires
        addressable(mem),
        pc < mem.len(),
        high_nibble(mem[pc as int]) == 0 || high_nibble(mem[pc as int]) == 1 || high_nibble(
            mem[pc as int],
        ) == 9,
        low_nibble(mem[pc as int]) == 0,
    ensures
        decode(mem, pc) == (Inst {
            icode: Icode::of_nibble(high_nibble(mem[pc as int])),
            ifun: 0,
            ra: Register::NOREG,
            rb: Register::NOREG,
            val_c: None,
            val_p: (pc + 1) as u64,
        }),
        decode(mem, pc).icode == Icode::HALT || decode(mem, pc).icode == Icode::NOP || decode(
            mem,
            pc,
        ).icode == Icode::RET,
        decode(mem, pc).val_p == pc + 1,
        status_after(before, mem, pc) == (if high_nibble(mem[pc as int]) == 0 {
            Stat::HLT
        } else {
            before
        }),
{
    reveal(decode);
    reveal(checked);
}

/// An instruction of two bytes (a conditional move, an arithmetic
/// operation, a push or a pop) whose bytes both lie in the address space
/// decodes if and only if its function code and its two register nibbles
/// are what its class admits. It then names the registers of the two
/// nibbles and ends two bytes on; if not, decoding fails with `INS`.
pub proof fn lemma_two_byte_instructions(mem: Seq<u8>, pc: u64, before: Stat)
    requires
        addressable(mem),
        pc + 1 < mem.len(),
        Icode::of_nibble(high_nibble(mem[pc as int])).len() == 2,
    ensures
        ({
            let class = Icode::of_nibble(high_nibble(mem[pc as int]));
            let ifun = low_nibble(mem[pc as int]);
            let hi = high_nibble(mem[pc + 1]);
            let lo = low_nibble(mem[pc + 1]);
            let admitted = class.fun_ok(ifun) && class.ra_ok(hi) && class.rb_ok(lo);
            &&& class == Icode::CMOV || class == Icode::OPQ || class == Icode::PUSHQ || class
                == Icode::POPQ
            &&& decode(mem, pc).icode != Icode::INVALID <==> admitted
            &&& admitted ==> decode(mem, pc) == (Inst {
                icode: class,
                ifun: ifun as u8,
                ra: Register::of_nibble(hi),
                rb: Register::of_nibble(lo),
                val_c: None,
                val_p: (pc + 2) as u64,
            }) && decode(mem, pc).val_p == pc + 2 && status_after(before, mem, pc) == before
            &&& !admitted ==> decode(mem, pc).icode == Icode::INVALID && status_after(
                before,
                mem,
                pc,
            ) == Stat::INS
        }),
{
    reveal(decode);
    reveal(checked);
}

/// A first byte whose high nibble is 12 or more is no instruction: decoding
/// fails with `INS`, and the record's function code is the whole byte.
pub proof fn lemma_unknown_class(mem: Seq<u8>, pc: u64, before: Stat)
    requires
        pc < mem.len(),
        high_nibble(mem[pc as int]) >= 12,
    ensures
        decode(mem, pc).icode == Icode::INVALID,
        decode(mem, pc).ifun == mem[pc as int],
        status_after(before, mem, pc) == Stat::INS,
{
    reveal(decode);
}

/// Equal bytes spell equal numbers, wherever they stand.
pub proof fn lemma_le_value_of_bytes(
    a: Seq<u8>,
    start_a: int,
    b: Seq<u8>,
    start_b: int,
    count: nat,
)
    requires
        0 <= start_a && start_a + count <= a.len(),
        0 <= start_b && start_b + count <= b.len(),
        a.subrange(start_a, start_a + count) == b.subrange(start_b, start_b + count),
    ensures
        le_value(a, start_a, count) == le_value(b, start_b, count),
    decreases count,
{
    if count > 0 {
        let sa = a.subrange(start_a, start_a + count);
        let sb = b.subrange(start_b, start_b + count);
        assert(a[start_a] == sa[0]);
        assert(b[start_b] == sb[0]);
        assert(a.subrange(start_a + 1, start_a + count) =~= sa.subrange(1, count as int));
        assert(b.subrange(start_b + 1, start_b + count) =~= sb.subrange(1, count as int));
        lemma_le_value_of_bytes(a, start_a + 1, b, start_b + 1, (count - 1) as nat);
    }
}

/// What decoding gives depends on the bytes of the instruction alone. Where
/// the bytes of an instruction that was decoded at one address stand at
/// another address, of the same or of another address space, the same
/// instruction is decoded there, and its text is the same.
pub proof fn lemma_text_of_bytes(mem1: Seq<u8>, pc1: u64, mem2: Seq<u8>, pc2: u64)
    requires
        addressable(mem1),
        addressable(mem2),
        decode(mem1, pc1).icode != Icode::INVALID,
        pc2 + decode(mem1, pc1).icode.len() <= mem2.len(),
        mem2.subrange(pc2 as int, pc2 + decode(mem1, pc1).icode.len()) == mem1.subrange(
            pc1 as int,
            pc1 + decode(mem1, pc1).icode.len(),
        ),
    ensures
        decode(mem2, pc2) == (Inst {
            val_p: (pc2 + decode(mem1, pc1).icode.len()) as u64,
            ..decode(mem1, pc1)
        }),
        render(decode(mem2, pc2)) == render(decode(mem1, pc1)),
{
    lemma_decoded_span(mem1, pc1);
    reveal(decode);
    reveal(checked);
    reveal(quad_at);
    let class = Icode::of_nibble(high_nibble(mem1[pc1 as int]));
    let n = class.len();
    let s1 = mem1.subrange(pc1 as int, pc1 + n);
    let s2 = mem2.subrange(pc2 as int, pc2 + n);
    assert(mem1[pc1 as int] == s1[0] && mem2[pc2 as int] == s2[0]);
    if n > 1 {
        assert(mem1[pc1 + 1] == s1[1] && mem2[pc2 + 1] == s2[1]);
    }
    if class.has_immediate() {
        let at1 = pc1 + n - 8;
        let at2 = pc2 + n - 8;
        assert(mem1.subrange(at1, at1 + 8) =~= s1.subrange(n - 8, n));
        assert(mem2.subrange(at2, at2 + 8) =~= s2.subrange(n - 8, n));
        lemma_le_value_of_bytes(mem1, at1, mem2, at2, 8);
    }
}

/// Decoding at an address a second time changes nothing. The processor
/// stays at its address, so the second record is the first; and the
/// processor that the first decoding left is the one that the second
/// leaves.
pub proof fn lemma_decoding_twice(cpu: Cpu, mem: Seq<u8>)
    ensures
        cpu_after(cpu, mem).pc == cpu.pc,
        decode(mem, cpu_after(cpu, mem).pc) == decode(mem, cpu.pc),
        cpu_after(cpu_after(cpu, mem), mem) == cpu_after(cpu, mem),
{
}

/// At the last address of the address space no instruction of two bytes or
/// more can be decoded: decoding fails with `ADR`.
pub proof fn lemma_last_address(mem: Seq<u8>, pc: u64, before: Stat)
    requires
        addressable(mem),
        pc + 1 == mem.len(),
        Icode::of_nibble(high_nibble(mem[pc as int])).len() >= 2,
    ensures
        decode(mem, pc).icode == Icode::INVALID,
        head_out_of_range(mem, pc),
        status_after(before, mem, pc) == Stat::ADR,
{
    reveal(decode);
}

/// A listing goes no further than the first address where decoding fails.
/// What is left of it there is the label, if the address is the entry
/// point, and the line that names the first byte at the address, whatever
/// made decoding fail; the walk ends in the status of the failure.
pub proof fn lemma_listing_breaks_off(mem: Seq<u8>, pc: u64, end: u64, entry: u16, before: Stat)
    requires
        addressable(mem),
        pc < end,
        decode(mem, pc).icode == Icode::INVALID,
    ensures
        code_rows(mem, pc, end, entry) == (if pc == entry {
            entry_label(pc as nat)
        } else {
            Seq::empty()
        }) + invalid_opcode_line(offending_byte(mem, pc)),
        pc < mem.len() ==> offending_byte(mem, pc) == mem[pc as int],
        code_status(mem, pc, end, before) == status_after(before, mem, pc),
        code_status(mem, pc, end, before) == Stat::ADR || code_status(mem, pc, end, before)
            == Stat::INS,
{
}

} // verus!
