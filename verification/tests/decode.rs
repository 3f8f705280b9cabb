use y86disas::decode::{fetch, inv_inst, inv_mem, memtoi};
use y86disas::disas::disassemble;
use y86disas::isa::{Cmov, Cpu, Icode, Inst, Jump, Opq, Register, Stat};

fn space(at: usize, bytes: &[u8]) -> Vec<u8> {
    let mut memory = vec![0u8; 4096];
    memory[at..at + bytes.len()].copy_from_slice(bytes);
    memory
}

fn decode_at(memory: &[u8], pc: u64) -> (Inst, Cpu) {
    let mut cpu = Cpu::new(pc);
    let inst = fetch(&mut cpu, memory);
    (inst, cpu)
}

fn register(nibble: u8) -> Register {
    let mut reg = Register::NOREG;
    assert!(reg.set_a(nibble));
    reg
}

#[test]
fn halt_decodes_at_any_address() {
    let memory = vec![0u8; 4096];
    for pc in [0u64, 1, 100, 2048, 4095] {
        let (inst, cpu) = decode_at(&memory, pc);
        assert_eq!(inst.icode, Icode::HALT);
        assert_eq!(inst.ifun, 0);
        assert_eq!(inst.ra, Register::NOREG);
        assert_eq!(inst.rb, Register::NOREG);
        assert_eq!(inst.val_c, None);
        assert_eq!(inst.val_p, pc + 1);
        assert_eq!(cpu.stat, Stat::HLT);
        assert_eq!(cpu.pc, pc);
        assert_eq!(disassemble(&inst), "halt");
    }
}

#[test]
fn irmovq_with_constant_five() {
    let memory = space(0, &[0x30, 0xF1, 0x05, 0, 0, 0, 0, 0, 0, 0]);
    let (inst, cpu) = decode_at(&memory, 0);
    assert_eq!(
        inst,
        Inst {
            icode: Icode::IRMOVQ,
            ifun: 0,
            ra: Register::NOREG,
            rb: Register::RCX,
            val_c: Some(5),
            val_p: 10,
        }
    );
    assert_eq!(cpu.stat, Stat::AOK);
    assert_eq!(disassemble(&inst), "irmovq 0x5, %rcx");
}

#[test]
fn jump_to_zero() {
    let memory = space(64, &[0x70, 0, 0, 0, 0, 0, 0, 0, 0]);
    let (inst, cpu) = decode_at(&memory, 64);
    assert_eq!(inst.icode, Icode::JUMP);
    assert_eq!(inst.ifun, 0);
    assert_eq!(inst.val_c, Some(0));
    assert_eq!(inst.val_p, 73);
    assert_eq!(inst.ra, Register::NOREG);
    assert_eq!(inst.rb, Register::NOREG);
    assert_eq!(cpu.stat, Stat::AOK);
    assert_eq!(disassemble(&inst), "jmp 0x0");
}

#[test]
fn one_byte_instructions_have_no_operands() {
    for (byte, icode, text, stat) in [
        (0x00u8, Icode::HALT, "halt", Stat::HLT),
        (0x10, Icode::NOP, "nop", Stat::AOK),
        (0x90, Icode::RET, "ret", Stat::AOK),
    ] {
        let memory = space(7, &[byte, 0xFF]);
        let (inst, cpu) = decode_at(&memory, 7);
        assert_eq!(
            inst,
            Inst {
                icode,
                ifun: 0,
                ra: Register::NOREG,
                rb: Register::NOREG,
                val_c: None,
                val_p: 8,
            }
        );
        assert_eq!(cpu.stat, stat);
        assert_eq!(disassemble(&inst), text);
    }
}

#[test]
fn one_byte_instructions_take_no_function_code() {
    for high in [0x00u8, 0x10, 0x90] {
        for low in 1..16u8 {
            let memory = space(0, &[high | low]);
            let (inst, cpu) = decode_at(&memory, 0);
            assert_eq!(inst.icode, Icode::INVALID);
            assert_eq!(inst.ifun, low);
            assert_eq!(inst.val_p, 1);
            assert_eq!(cpu.stat, Stat::INS);
        }
    }
}

#[test]
fn two_byte_instructions_decode_iff_operands_are_admitted() {
    for high in [0x2u8, 0x6, 0xA, 0xB] {
        for low in 0..16u8 {
            for second in 0..=255u8 {
                let memory = space(10, &[(high << 4) | low, second]);
                let (inst, cpu) = decode_at(&memory, 10);
                let (hi, lo) = (second >> 4, second & 0xF);
                let admitted = match high {
                    0x2 => low <= 6 && hi <= 14 && lo <= 14,
                    0x6 => low <= 3 && hi <= 14 && lo <= 14,
                    _ => low == 0 && hi <= 14 && lo == 15,
                };
                assert_eq!(inst.icode != Icode::INVALID, admitted);
                assert_eq!(inst.ifun, low);
                assert_eq!(inst.val_p, 12);
                assert_eq!(inst.val_c, None);
                if admitted {
                    assert_eq!(inst.icode, Icode::from(high));
                    assert_eq!(inst.ra, register(hi));
                    assert_eq!(inst.rb, register(lo));
                    assert_eq!(cpu.stat, Stat::AOK);
                } else {
                    assert_eq!(cpu.stat, Stat::INS);
                }
            }
        }
    }
}

#[test]
fn unknown_class_keeps_the_whole_byte() {
    for byte in 0xC0..=0xFFu8 {
        let memory = space(3, &[byte]);
        let (inst, cpu) = decode_at(&memory, 3);
        assert_eq!(
            inst,
            Inst {
                icode: Icode::INVALID,
                ifun: byte,
                ra: Register::NOREG,
                rb: Register::NOREG,
                val_c: None,
                val_p: 3,
            }
        );
        assert_eq!(cpu.stat, Stat::INS);
        assert_eq!(disassemble(&inst), "");
    }
}

#[test]
fn text_depends_on_the_bytes_alone() {
    let bytes = [0x40u8, 0x23, 0x88, 0x77, 0x66, 0x55, 0x44, 0x33, 0x22, 0x11];
    let first = space(0, &bytes);
    let mut second = vec![0xEEu8; 300];
    second[200..210].copy_from_slice(&bytes);

    let (a, _) = decode_at(&first, 0);
    let mut cpu = Cpu::new(200);
    cpu.stat = Stat::HLT;
    cpu.zf = true;
    cpu.reg[3] = 17;
    let b = fetch(&mut cpu, &second);
    assert_eq!(a.icode, Icode::RMMOVQ);
    assert_eq!(Inst { val_p: 0, ..a }, Inst { val_p: 0, ..b });
    assert_eq!(b.val_p, 210);
    assert_eq!(disassemble(&a), disassemble(&b));
    assert_eq!(disassemble(&a), "rmmovq %rdx, 0x1122334455667788(%rbx)");
    assert_eq!(cpu.stat, Stat::HLT);
    assert!(cpu.zf);
    assert_eq!(cpu.reg[3], 17);
}

#[test]
fn decoding_twice_gives_the_same_record() {
    let memory = space(20, &[0x00, 0x62, 0x31, 0xC4, 0x20, 0xF0]);
    for pc in 20..26u64 {
        let mut cpu = Cpu::new(pc);
        let first = fetch(&mut cpu, &memory);
        let after_first = cpu;
        let second = fetch(&mut cpu, &memory);
        assert_eq!(first, second);
        assert_eq!(cpu, after_first);
    }
}

#[test]
fn last_address_holds_no_longer_instruction() {
    for high in [0x2u8, 0x3, 0x4, 0x5, 0x6, 0x7, 0x8, 0xA, 0xB] {
        let memory = space(4095, &[high << 4]);
        let (inst, cpu) = decode_at(&memory, 4095);
        assert_eq!(inst.icode, Icode::INVALID);
        assert_eq!(inst.ifun, 0);
        assert_eq!(cpu.stat, Stat::ADR);
        assert_eq!(inst.ra, Register::NOREG);
        assert_eq!(inst.rb, Register::NOREG);
        assert_eq!(inst.val_c, None);
    }
}

#[test]
fn address_outside_the_space() {
    let memory = vec![0x10u8; 16];
    for pc in [16u64, 17, 4096, u64::MAX] {
        let (inst, cpu) = decode_at(&memory, pc);
        assert_eq!(
            inst,
            Inst {
                icode: Icode::INVALID,
                ifun: 0,
                ra: Register::NOREG,
                rb: Register::NOREG,
                val_c: None,
                val_p: 0,
            }
        );
        assert_eq!(cpu.stat, Stat::ADR);
        assert_eq!(cpu.pc, pc);
    }
    let (inst, cpu) = decode_at(&[], 0);
    assert_eq!(inst.icode, Icode::INVALID);
    assert_eq!(cpu.stat, Stat::ADR);
}

#[test]
fn constant_cut_off_by_the_end_of_the_space() {
    // the second byte can be read, the constant cannot
    let mut memory = vec![0u8; 4096];
    memory[4090] = 0x80;
    let (inst, cpu) = decode_at(&memory, 4090);
    assert_eq!(inst.icode, Icode::INVALID);
    assert_eq!(inst.val_c, None);
    assert_eq!(inst.val_p, 4099);
    assert_eq!(cpu.stat, Stat::INS);

    memory[4087] = 0x80;
    let (inst, cpu) = decode_at(&memory, 4087);
    assert_eq!(inst.icode, Icode::CALL);
    assert_eq!(inst.val_c, Some(0x80 << 16));
    assert_eq!(inst.val_p, 4096);
    assert_eq!(cpu.stat, Stat::AOK);
}

#[test]
fn operands_are_recorded_up_to_the_first_that_fails() {
    // conditional move with a bad second register
    let (inst, _) = decode_at(&space(0, &[0x20, 0x1F]), 0);
    assert_eq!(inst.icode, Icode::INVALID);
    assert_eq!(inst.ra, Register::RCX);
    assert_eq!(inst.rb, Register::NOREG);

    // bad function code: no register is looked at
    let (inst, _) = decode_at(&space(0, &[0x27, 0x12]), 0);
    assert_eq!(inst.icode, Icode::INVALID);
    assert_eq!(inst.ifun, 7);
    assert_eq!(inst.ra, Register::NOREG);
    assert_eq!(inst.rb, Register::NOREG);

    // the constant is read before the checks
    let (inst, cpu) = decode_at(&space(0, &[0x30, 0x01, 9, 0, 0, 0, 0, 0, 0, 0]), 0);
    assert_eq!(inst.icode, Icode::INVALID);
    assert_eq!(inst.ra, Register::NOREG);
    assert_eq!(inst.rb, Register::NOREG);
    assert_eq!(inst.val_c, Some(9));
    assert_eq!(inst.val_p, 10);
    assert_eq!(cpu.stat, Stat::INS);
}

#[test]
fn moves_between_register_and_memory() {
    let (inst, _) = decode_at(&space(0, &[0x40, 0x1F, 0x10, 0, 0, 0, 0, 0, 0, 0]), 0);
    assert_eq!(inst.icode, Icode::RMMOVQ);
    assert_eq!(inst.ra, Register::RCX);
    assert_eq!(inst.rb, Register::NOREG);
    assert_eq!(disassemble(&inst), "rmmovq %rcx, 0x10");

    let (inst, _) = decode_at(&space(0, &[0x50, 0xE4, 0xFF, 0xFF, 0, 0, 0, 0, 0, 0]), 0);
    assert_eq!(inst.icode, Icode::MRMOVQ);
    assert_eq!(inst.ra, Register::R14);
    assert_eq!(inst.rb, Register::RSP);
    assert_eq!(disassemble(&inst), "mrmovq 0xffff(%rsp), %r14");

    let (inst, _) = decode_at(&space(0, &[0x50, 0x0F, 0, 1, 0, 0, 0, 0, 0, 0]), 0);
    assert_eq!(disassemble(&inst), "mrmovq 0x100, %rax");

    // the first register must be a program register
    let (inst, cpu) = decode_at(&space(0, &[0x40, 0xF1, 0, 0, 0, 0, 0, 0, 0, 0]), 0);
    assert_eq!(inst.icode, Icode::INVALID);
    assert_eq!(cpu.stat, Stat::INS);
    let (inst, _) = decode_at(&space(0, &[0x41, 0x12, 0, 0, 0, 0, 0, 0, 0, 0]), 0);
    assert_eq!(inst.icode, Icode::INVALID);
}

#[test]
fn immediate_move_takes_no_source_register() {
    for second in 0..=255u8 {
        let (inst, _) = decode_at(&space(0, &[0x30, second, 1, 0, 0, 0, 0, 0, 0, 0]), 0);
        let admitted = second >> 4 == 0xF && second & 0xF != 0xF;
        assert_eq!(inst.icode == Icode::IRMOVQ, admitted);
        assert_eq!(inst.icode == Icode::INVALID, !admitted);
    }
}

#[test]
fn every_mnemonic() {
    let cases: [(&[u8], &str); 27] = [
        (&[0x00], "halt"),
        (&[0x10], "nop"),
        (&[0x20, 0x01], "rrmovq %rax, %rcx"),
        (&[0x21, 0x23], "cmovle %rdx, %rbx"),
        (&[0x22, 0x45], "cmovl %rsp, %rbp"),
        (&[0x23, 0x67], "cmove %rsi, %rdi"),
        (&[0x24, 0x89], "cmovne %r8, %r9"),
        (&[0x25, 0xAB], "cmovge %r10, %r11"),
        (&[0x26, 0xCD], "cmovg %r12, %r13"),
        (&[0x30, 0xFE, 0xEF, 0xBE, 0xAD, 0xDE, 0, 0, 0, 0], "irmovq 0xdeadbeef, %r14"),
        (&[0x40, 0x01, 8, 0, 0, 0, 0, 0, 0, 0], "rmmovq %rax, 0x8(%rcx)"),
        (&[0x50, 0x01, 8, 0, 0, 0, 0, 0, 0, 0], "mrmovq 0x8(%rcx), %rax"),
        (&[0x60, 0x01], "addq %rax, %rcx"),
        (&[0x61, 0x01], "subq %rax, %rcx"),
        (&[0x62, 0x01], "andq %rax, %rcx"),
        (&[0x63, 0x01], "xorq %rax, %rcx"),
        (&[0x70, 0, 1, 0, 0, 0, 0, 0, 0], "jmp 0x100"),
        (&[0x71, 0, 1, 0, 0, 0, 0, 0, 0], "jle 0x100"),
        (&[0x72, 0, 1, 0, 0, 0, 0, 0, 0], "jl 0x100"),
        (&[0x73, 0, 1, 0, 0, 0, 0, 0, 0], "je 0x100"),
        (&[0x74, 0, 1, 0, 0, 0, 0, 0, 0], "jne 0x100"),
        (&[0x75, 0, 1, 0, 0, 0, 0, 0, 0], "jge 0x100"),
        (&[0x76, 0, 1, 0, 0, 0, 0, 0, 0], "jg 0x100"),
        (
            &[0x80, 0xFF, 0xFF, 0xFF, 0xFF, 0xFF, 0xFF, 0xFF, 0xFF],
            "call 0xffffffffffffffff",
        ),
        (&[0x90], "ret"),
        (&[0xA0, 0x4F], "pushq %rsp"),
        (&[0xB0, 0x5F], "popq %rbp"),
    ];
    for (bytes, text) in cases {
        let (inst, cpu) = decode_at(&space(0, bytes), 0);
        assert_ne!(inst.icode, Icode::INVALID);
        assert_eq!(inst.val_p, bytes.len() as u64);
        assert_ne!(cpu.stat, Stat::INS);
        assert_eq!(disassemble(&inst), text);
    }
}

#[test]
fn jump_and_call_function_codes() {
    let (inst, cpu) = decode_at(&space(0, &[0x77, 0, 0, 0, 0, 0, 0, 0, 0]), 0);
    assert_eq!(inst.icode, Icode::INVALID);
    assert_eq!(inst.ifun, 7);
    assert_eq!(inst.val_c, Some(0));
    assert_eq!(cpu.stat, Stat::INS);
    let (inst, _) = decode_at(&space(0, &[0x81, 0, 0, 0, 0, 0, 0, 0, 0]), 0);
    assert_eq!(inst.icode, Icode::INVALID);
}

#[test]
fn memtoi_reads_little_endian() {
    let memory = [1u8, 2, 3, 4, 5, 6, 7, 8, 9];
    assert_eq!(memtoi(&memory, 0), Some(0x0807060504030201));
    assert_eq!(memtoi(&memory, 1), Some(0x0908070605040302));
    assert_eq!(memtoi(&memory, 2), None);
    assert_eq!(memtoi(&memory, 9), None);
    assert_eq!(memtoi(&memory, u64::MAX), None);
    assert_eq!(memtoi(&memory, u64::MAX - 7), None);
    assert_eq!(memtoi(&[0xFF; 8], 0), Some(u64::MAX));
    assert_eq!(memtoi(&[], 0), None);
}

#[test]
fn fault_marks() {
    let blank = Inst {
        icode: Icode::NOP,
        ifun: 3,
        ra: Register::RAX,
        rb: Register::RBX,
        val_c: Some(4),
        val_p: 12,
    };
    let mut inst = blank;
    let mut cpu = Cpu::new(11);
    inv_mem(&mut inst, &mut cpu);
    assert_eq!(inst, Inst { icode: Icode::INVALID, ..blank });
    assert_eq!(cpu, Cpu { stat: Stat::ADR, ..Cpu::new(11) });

    let mut inst = blank;
    inv_inst(&mut inst, &mut cpu);
    assert_eq!(inst, Inst { icode: Icode::INVALID, ..blank });
    assert_eq!(cpu, Cpu { stat: Stat::INS, ..Cpu::new(11) });
}

#[test]
fn new_cpu_is_cleared() {
    let cpu = Cpu::new(0x100);
    assert_eq!(cpu.pc, 0x100);
    assert_eq!(cpu.stat, Stat::AOK);
    assert_eq!(cpu.reg, [0u64; 15]);
    assert!(!cpu.zf && !cpu.sf && !cpu.of);
}

#[test]
fn icode_from_number() {
    let classes = [
        Icode::HALT,
        Icode::NOP,
        Icode::CMOV,
        Icode::IRMOVQ,
        Icode::RMMOVQ,
        Icode::MRMOVQ,
        Icode::OPQ,
        Icode::JUMP,
        Icode::CALL,
        Icode::RET,
        Icode::PUSHQ,
        Icode::POPQ,
    ];
    for (val, icode) in classes.iter().enumerate() {
        assert_eq!(Icode::from(val as u8), *icode);
    }
    for val in 12..=255u8 {
        assert_eq!(Icode::from(val), Icode::INVALID);
    }
}

#[test]
fn function_codes() {
    let moves = [
        Cmov::RRMOVQ,
        Cmov::CMOVLE,
        Cmov::CMOVL,
        Cmov::CMOVE,
        Cmov::CMOVNE,
        Cmov::CMOVGE,
        Cmov::CMOVG,
    ];
    for (val, cmov) in moves.iter().enumerate() {
        assert_eq!(Cmov::from(val as u8), *cmov);
    }
    assert_eq!(Cmov::from(7), Cmov::CMOVG);
    assert_eq!(Cmov::from(255), Cmov::CMOVG);

    let ops = [Opq::ADD, Opq::SUB, Opq::AND, Opq::XOR];
    for (val, opq) in ops.iter().enumerate() {
        assert_eq!(Opq::from(val as u8), *opq);
    }
    assert_eq!(Opq::from(4), Opq::XOR);

    let jumps = [Jump::JMP, Jump::JLE, Jump::JL, Jump::JE, Jump::JNE, Jump::JGE, Jump::JG];
    for (val, jump) in jumps.iter().enumerate() {
        assert_eq!(Jump::from(val as u8), *jump);
    }
    assert_eq!(Jump::from(200), Jump::JG);
}

#[test]
fn register_from_nibble() {
    let names = [
        "rax", "rcx", "rdx", "rbx", "rsp", "rbp", "rsi", "rdi", "r8", "r9", "r10", "r11", "r12",
        "r13", "r14",
    ];
    for (val, name) in names.iter().enumerate() {
        let mut reg = Register::NOREG;
        assert!(reg.set(val as u8));
        assert_eq!(reg.to_string(), *name);
        let mut any = Register::NOREG;
        assert!(any.set_a(val as u8));
        assert_eq!(any, reg);
        let mut none = reg;
        assert!(!none.set_f(val as u8));
        assert_eq!(none, reg);
    }
    let mut reg = Register::RDX;
    assert!(!reg.set(15));
    assert_eq!(reg, Register::RDX);
    assert!(!reg.set(16));
    assert!(!reg.set_a(16));
    assert!(!reg.set_a(255));
    assert_eq!(reg, Register::RDX);
    assert!(reg.set_f(15));
    assert_eq!(reg, Register::NOREG);
    assert_eq!(reg.to_string(), "");
    let mut reg = Register::RDX;
    assert!(reg.set_a(15));
    assert_eq!(reg, Register::NOREG);
}
