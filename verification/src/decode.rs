//! The instruction decoder: from an address space and an address to one
//! instruction record.

use crate::bytes::{le_value, lemma_le_value_bound};
use crate::isa::{Cpu, Icode, Inst, Register, Stat};
use vstd::prelude::*;

verus! {

/// High nibble of a byte.
pub open spec fn high_nibble(b: u8) -> int {
    b as int / 16
}

/// Low nibble of a byte.
pub open spec fn low_nibble(b: u8) -> int {
    b as int % 16
}

/// An address space that a machine can hold: no allocation is larger than
/// `isize::MAX` bytes.
pub open spec fn addressable(mem: Seq<u8>) -> bool {
    mem.len() <= isize::MAX
}

/// The 8-byte little-endian number at `start`, if all of its bytes lie in
/// the address space.
#[verifier::opaque]
pub open spec fn quad_at(mem: Seq<u8>, start: int) -> Option<u64> {
    if 0 <= start && start + 8 <= mem.len() {
        Some(le_value(mem, start, 8) as u64)
    } else {
        None
    }
}

/// The record of an instruction of a valid class whose head has been read:
/// `ifun` is the low nibble of its first byte, `hi` and `lo` are the nibbles
/// of its second byte, `val_c` is its constant as far as it could be read,
/// and `val_p` is the address behind it.
///
/// The function code, the first register, the second register and the
/// constant are checked in this order. A register is recorded only once all
/// that comes before it has passed. A record that failed any check has the
/// class `INVALID`.
#[verifier::opaque]
pub open spec fn checked(
    class: Icode,
    ifun: int,
    hi: int,
    lo: int,
    val_c: Option<u64>,
    val_p: u64,
) -> Inst {
    let fun_ok = class.fun_ok(ifun);
    let ra_ok = fun_ok && class.ra_ok(hi);
    let rb_ok = ra_ok && class.rb_ok(lo);
    Inst {
        icode: if rb_ok && (class.has_immediate() ==> val_c is Some) {
            class
        } else {
            Icode::INVALID
        },
        ifun: ifun as u8,
        ra: if class.has_registers() && ra_ok {
            Register::of_nibble(hi)
        } else {
            Register::NOREG
        },
        rb: if class.has_registers() && rb_ok {
            Register::of_nibble(lo)
        } else {
            Register::NOREG
        },
        val_c,
        val_p,
    }
}

/// The record that decoding at `pc` produces.
///
/// The class and the length come from the first byte alone. Where the class
/// has more than one byte, the second byte is read next, whatever it means
/// to the class. The constant of a class that has one is read from the last
/// eight bytes of the instruction. The record is then made as `checked`
/// says.
#[verifier::opaque]
pub open spec fn decode(mem: Seq<u8>, pc: u64) -> Inst {
    if pc >= mem.len() {
        Inst {
            icode: Icode::INVALID,
            ifun: 0,
            ra: Register::NOREG,
            rb: Register::NOREG,
            val_c: None,
            val_p: 0,
        }
    } else {
        let b0 = mem[pc as int];
        let class = Icode::of_nibble(high_nibble(b0));
        if class == Icode::INVALID {
            Inst {
                icode: Icode::INVALID,
                ifun: b0,
                ra: Register::NOREG,
                rb: Register::NOREG,
                val_c: None,
                val_p: pc,
            }
        } else if class.len() > 1 && pc + 1 >= mem.len() {
            Inst {
                icode: Icode::INVALID,
                ifun: low_nibble(b0) as u8,
                ra: Register::NOREG,
                rb: Register::NOREG,
                val_c: None,
                val_p: (pc + class.len()) as u64,
            }
        } else {
            let b1 = if class.len() > 1 {
                mem[pc + 1]
            } else {
                0u8
            };
            checked(
                class,
                low_nibble(b0),
                high_nibble(b1),
                low_nibble(b1),
                if class.has_immediate() {
                    quad_at(mem, pc + class.len() - 8)
                } else {
                    None
                },
                (pc + class.len()) as u64,
            )
        }
    }
}

/// Whether the head of the instruction at `pc` lies outside the address
/// space: its first byte, or the second byte of a class that has more than
/// one.
pub open spec fn head_out_of_range(mem: Seq<u8>, pc: u64) -> bool {
    pc >= mem.len() || (Icode::of_nibble(high_nibble(mem[pc as int])).len() > 1 && pc + 1
        >= mem.len())
}

/// The processor's status after decoding at `pc`: halted after a `halt` and
/// unchanged after any other instruction; where decoding failed, `ADR` if
/// the instruction's head lies outside the address space and `INS` if not.
pub open spec fn status_after(before: Stat, mem: Seq<u8>, pc: u64) -> Stat {
    let icode = decode(mem, pc).icode;
    if icode == Icode::HALT {
        Stat::HLT
    } else if icode != Icode::INVALID {
        before
    } else if head_out_of_range(mem, pc) {
        Stat::ADR
    } else {
        Stat::INS
    }
}

/// The processor after decoding at its program counter: its status is
/// the one that `status_after` gives, and nothing else of it has changed.
pub open spec fn cpu_after(cpu: Cpu, mem: Seq<u8>) -> Cpu {
    Cpu { stat: status_after(cpu.stat, mem, cpu.pc), ..cpu }
}

/// Reads the 8-byte little-endian number at `start`. `None` where one of its
/// bytes lies outside the address space.
pub fn memtoi(memory: &[u8], start: u64) -> (val: Option<u64>)
    ensures
        val == quad_at(memory@, start as int),
{
    reveal(quad_at);
    let len: usize = memory.len();
    if start > len as u64 || len as u64 - start < 8 {
        return None;
    }
    let base: usize = start as usize;
    let mut n: u64 = 0;
    let mut k: usize = 8;
    while k > 0
        invariant
            k <= 8,
            len == memory@.len(),
            base + 8 <= len,
            n == le_value(memory@, base + k, (8 - k) as nat),
        decreases k,
    {
        k -= 1;
        let byte: u8 = memory[base + k];
        proof {
            lemma_le_value_bound(memory@, base + k + 1, (7 - k) as nat);
        }
        n = n * 256 + byte as u64;
    }
    Some(n)
}

/// Marks the record as failed and the processor as having read a bad
/// address.
pub fn inv_mem(inst: &mut Inst, cpu: &mut Cpu)
    ensures
        *final(inst) == (Inst { icode: Icode::INVALID, ..*old(inst) }),
        *final(cpu) == (Cpu { stat: Stat::ADR, ..*old(cpu) }),
{
    inst.icode = Icode::INVALID;
    cpu.stat = Stat::ADR;
}

/// Marks the record as failed and the processor as having read a bad
/// instruction.
pub fn inv_inst(inst: &mut Inst, cpu: &mut Cpu)
    ensures
        *final(inst) == (Inst { icode: Icode::INVALID, ..*old(inst) }),
        *final(cpu) == (Cpu { stat: Stat::INS, ..*old(cpu) }),
{
    inst.icode = Icode::INVALID;
    cpu.stat = Stat::INS;
}

/// Checks the operands of an instruction whose head has been read, and
/// records them.
///
/// `inst` holds the class and the function code, `hi` and `lo` are the
/// nibbles of the second byte, and `pc` is the instruction's address. Returns
/// whether every check passed. The class is left as it is.
fn check_operands(inst: &mut Inst, memory: &[u8], pc: u64, hi: u8, lo: u8) -> (ok: bool)
    requires
        old(inst).icode != Icode::INVALID,
        old(inst).ra == Register::NOREG,
        old(inst).rb == Register::NOREG,
        old(inst).val_c is None,
        pc + 2 <= u64::MAX,
    ensures
        checked(
            old(inst).icode,
            old(inst).ifun as int,
            hi as int,
            lo as int,
            final(inst).val_c,
            old(inst).val_p,
        ).icode == (if ok {
            old(inst).icode
        } else {
            Icode::INVALID
        }),
        *final(inst) == (Inst {
            icode: old(inst).icode,
            ..checked(
                old(inst).icode,
                old(inst).ifun as int,
                hi as int,
                lo as int,
                final(inst).val_c,
                old(inst).val_p,
            )
        }),
        final(inst).val_c == if old(inst).icode.has_immediate() {
            quad_at(memory@, pc + old(inst).icode.len() - 8)
        } else {
            None
        },
{
    reveal(checked);
    match inst.icode {
        Icode::HALT | Icode::NOP | Icode::RET => inst.ifun == 0,
        Icode::CMOV => inst.ifun <= 6 && inst.ra.set(hi) && inst.rb.set(lo),
        Icode::IRMOVQ => {
            inst.val_c = memtoi(memory, pc + 2);
            inst.ifun == 0 && inst.ra.set_f(hi) && inst.rb.set(lo) && inst.val_c.is_some()
        },
        Icode::RMMOVQ | Icode::MRMOVQ => {
            inst.val_c = memtoi(memory, pc + 2);
            inst.ifun == 0 && inst.ra.set(hi) && inst.rb.set_a(lo) && inst.val_c.is_some()
        },
        Icode::OPQ => inst.ifun <= 3 && inst.ra.set(hi) && inst.rb.set(lo),
        Icode::JUMP => {
            inst.val_c = memtoi(memory, pc + 1);
            inst.ifun <= 6 && inst.val_c.is_some()
        },
        Icode::CALL => {
            inst.val_c = memtoi(memory, pc + 1);
            inst.ifun == 0 && inst.val_c.is_some()
        },
        Icode::PUSHQ | Icode::POPQ => inst.ifun == 0 && inst.ra.set(hi) && inst.rb.set_f(lo),
        Icode::INVALID => false,
    }
}

/// Decodes the instruction at the processor's program counter.
///
/// The address space is only read, and the program counter stays where it
/// is: the record's `val_p` says where the next instruction starts. Where
/// decoding fails the record's class is `INVALID` and the processor's status
/// tells why; a decoded `halt` sets the status to `HLT`, and any other
/// instruction leaves it alone.
pub fn fetch(cpu: &mut Cpu, memory: &[u8]) -> (inst: Inst)
    requires
        addressable(memory@),
    ensures
        inst == decode(memory@, old(cpu).pc),
        *final(cpu) == cpu_after(*old(cpu), memory@),
        inst.wf(),
{
    reveal(decode);
    let mut inst = Inst {
        icode: Icode::INVALID,
        ifun: 0,
        ra: Register::NOREG,
        rb: Register::NOREG,
        val_c: None,
        val_p: 0,
    };

    let len: usize = memory.len();
    if cpu.pc >= len as u64 {
        inv_mem(&mut inst, cpu);
        return inst;
    }
    let b0: u8 = memory[cpu.pc as usize];
    assert(b0 >> 4 == b0 / 16 && b0 & 0xF == b0 % 16) by (bit_vector);
    inst.icode = Icode::from(b0 >> 4);
    inst.ifun = b0 & 0xF;

    // the address of the next instruction
    inst.val_p = cpu.pc;
    match inst.icode {
        Icode::HALT | Icode::NOP | Icode::RET => inst.val_p += 1,
        Icode::CMOV | Icode::OPQ | Icode::PUSHQ | Icode::POPQ => inst.val_p += 2,
        Icode::JUMP | Icode::CALL => inst.val_p += 9,
        Icode::IRMOVQ | Icode::RMMOVQ | Icode::MRMOVQ => inst.val_p += 10,
        Icode::INVALID => {
            inst.ifun = b0;
            inv_inst(&mut inst, cpu);
            return inst;
        },
    }

    // the second byte, where there is one
    let mut b1_h: u8 = 0;
    let mut b1_l: u8 = 0;
    if inst.val_p - cpu.pc > 1 {
        if cpu.pc + 1 >= len as u64 {
            inv_mem(&mut inst, cpu);
            return inst;
        }
        let b1: u8 = memory[(cpu.pc + 1) as usize];
        assert(b1 >> 4 == b1 / 16 && b1 & 0xF == b1 % 16) by (bit_vector);
        b1_h = b1 >> 4;
        b1_l = b1 & 0xF;
    }

    // the checks of each class
    if !check_operands(&mut inst, memory, cpu.pc, b1_h, b1_l) {
        inv_inst(&mut inst, cpu);
        return inst;
    }
    if inst.icode == Icode::HALT {
        cpu.stat = Stat::HLT;
    }
    assert(inst.wf()) by {
        reveal(checked);
    }

    inst
}

/// A decoded instruction lies in the address space with all of its bytes,
/// spans as many as its class says, and holds its constant if the class has
/// one.
pub proof fn lemma_decoded_span(mem: Seq<u8>, pc: u64)
    requires
        addressable(mem),
        decode(mem, pc).icode != Icode::INVALID,
    ensures
        decode(mem, pc).icode == Icode::of_nibble(high_nibble(mem[pc as int])),
        decode(mem, pc).val_p == pc + decode(mem, pc).icode.len(),
        1 <= decode(mem, pc).icode.len() <= 10,
        pc + decode(mem, pc).icode.len() <= mem.len(),
        decode(mem, pc).wf(),
{
    reveal(decode);
    reveal(checked);
    reveal(quad_at);
}

} // verus!

