//! The instruction set: opcode classes, registers, function codes, and the
//! records that decoding produces.

use vstd::prelude::*;
use vstd::string::StringExecFns;

verus! {

/// Opcode class of an instruction, held in the high nibble of its first byte.
#[allow(clippy::upper_case_acronyms)]
#[derive(Clone, Copy, Debug, PartialEq, Eq, Structural)]
pub enum Icode {
    HALT,
    NOP,
    CMOV,
    IRMOVQ,
    RMMOVQ,
    MRMOVQ,
    OPQ,
    JUMP,
    CALL,
    RET,
    PUSHQ,
    POPQ,
    INVALID,
}

impl Icode {
    /// The class that a number stands for; every value above 11 is `INVALID`.
    pub open spec fn of_nibble(val: int) -> Icode {
        if val == 0 {
            Icode::HALT
        } else if val == 1 {
            Icode::NOP
        } else if val == 2 {
            Icode::CMOV
        } else if val == 3 {
            Icode::IRMOVQ
        } else if val == 4 {
            Icode::RMMOVQ
        } else if val == 5 {
            Icode::MRMOVQ
        } else if val == 6 {
            Icode::OPQ
        } else if val == 7 {
            Icode::JUMP
        } else if val == 8 {
            Icode::CALL
        } else if val == 9 {
            Icode::RET
        } else if val == 10 {
            Icode::PUSHQ
        } else if val == 11 {
            Icode::POPQ
        } else {
            Icode::INVALID
        }
    }

    /// Number of bytes that an instruction of this class spans. `INVALID`
    /// spans none.
    pub open spec fn len(self) -> int {
        match self {
            Icode::HALT | Icode::NOP | Icode::RET => 1,
            Icode::CMOV | Icode::OPQ | Icode::PUSHQ | Icode::POPQ => 2,
            Icode::JUMP | Icode::CALL => 9,
            Icode::IRMOVQ | Icode::RMMOVQ | Icode::MRMOVQ => 10,
            Icode::INVALID => 0,
        }
    }

    /// Whether the byte after the opcode names two registers.
    pub open spec fn has_registers(self) -> bool {
        match self {
            Icode::CMOV | Icode::OPQ | Icode::PUSHQ | Icode::POPQ => true,
            Icode::IRMOVQ | Icode::RMMOVQ | Icode::MRMOVQ => true,
            _ => false,
        }
    }

    /// Whether the instruction ends in an 8-byte little-endian constant.
    pub open spec fn has_immediate(self) -> bool {
        match self {
            Icode::IRMOVQ | Icode::RMMOVQ | Icode::MRMOVQ => true,
            Icode::JUMP | Icode::CALL => true,
            _ => false,
        }
    }

    /// Which function codes the class admits.
    pub open spec fn fun_ok(self, ifun: int) -> bool {
        match self {
            Icode::CMOV | Icode::JUMP => 0 <= ifun <= 6,
            Icode::OPQ => 0 <= ifun <= 3,
            Icode::INVALID => false,
            _ => ifun == 0,
        }
    }

    /// Which nibbles the class admits as its first register: an ordinary
    /// register, except for `IRMOVQ`, which takes the "no register" nibble
    /// only. Classes without a register byte put no condition on it.
    pub open spec fn ra_ok(self, nibble: int) -> bool {
        if !self.has_registers() {
            true
        } else if self == Icode::IRMOVQ {
            nibble == 15
        } else {
            0 <= nibble <= 14
        }
    }

    /// Which nibbles the class admits as its second register: an ordinary
    /// register for `CMOV`, `OPQ` and `IRMOVQ`; the "no register" nibble only
    /// for `PUSHQ` and `POPQ`; either for `RMMOVQ` and `MRMOVQ`.
    pub open spec fn rb_ok(self, nibble: int) -> bool {
        match self {
            Icode::CMOV | Icode::OPQ | Icode::IRMOVQ => 0 <= nibble <= 14,
            Icode::PUSHQ | Icode::POPQ => nibble == 15,
            Icode::RMMOVQ | Icode::MRMOVQ => 0 <= nibble <= 15,
            _ => true,
        }
    }

    /// Decodes an opcode class from its number.
    pub fn from(val: u8) -> (icode: Icode)
        ensures
            icode == Icode::of_nibble(val as int),
    {
        match val {
            0 => Icode::HALT,
            1 => Icode::NOP,
            2 => Icode::CMOV,
            3 => Icode::IRMOVQ,
            4 => Icode::RMMOVQ,
            5 => Icode::MRMOVQ,
            6 => Icode::OPQ,
            7 => Icode::JUMP,
            8 => Icode::CALL,
            9 => Icode::RET,
            10 => Icode::PUSHQ,
            11 => Icode::POPQ,
            _ => Icode::INVALID,
        }
    }
}

/// One of the fifteen program registers, or `NOREG` where an operand names
/// none.
#[allow(clippy::upper_case_acronyms)]
#[derive(Clone, Copy, Debug, PartialEq, Eq, Structural)]
pub enum Register {
    RAX,
    RCX,
    RDX,
    RBX,
    RSP,
    RBP,
    RSI,
    RDI,
    R8,
    R9,
    R10,
    R11,
    R12,
    R13,
    R14,
    NOREG,
}

impl Register {
    /// The register that a nibble names: 0 to 14 are the program registers
    /// in order, anything else is `NOREG`.
    pub open spec fn of_nibble(val: int) -> Register {
        if val == 0 {
            Register::RAX
        } else if val == 1 {
            Register::RCX
        } else if val == 2 {
            Register::RDX
        } else if val == 3 {
            Register::RBX
        } else if val == 4 {
            Register::RSP
        } else if val == 5 {
            Register::RBP
        } else if val == 6 {
            Register::RSI
        } else if val == 7 {
            Register::RDI
        } else if val == 8 {
            Register::R8
        } else if val == 9 {
            Register::R9
        } else if val == 10 {
            Register::R10
        } else if val == 11 {
            Register::R11
        } else if val == 12 {
            Register::R12
        } else if val == 13 {
            Register::R13
        } else if val == 14 {
            Register::R14
        } else {
            Register::NOREG
        }
    }

    /// The register's name in assembly text, without the `%`; empty for
    /// `NOREG`.
    pub open spec fn name(self) -> Seq<char> {
        match self {
            Register::RAX => "rax"@,
            Register::RCX => "rcx"@,
            Register::RDX => "rdx"@,
            Register::RBX => "rbx"@,
            Register::RSP => "rsp"@,
            Register::RBP => "rbp"@,
            Register::RSI => "rsi"@,
            Register::RDI => "rdi"@,
            Register::R8 => "r8"@,
            Register::R9 => "r9"@,
            Register::R10 => "r10"@,
            Register::R11 => "r11"@,
            Register::R12 => "r12"@,
            Register::R13 => "r13"@,
            Register::R14 => "r14"@,
            Register::NOREG => Seq::empty(),
        }
    }

    /// Takes the program register that `val` names. Returns whether `val`
    /// names one (0 to 14); if not, `self` is left as it was.
    pub fn set(&mut self, val: u8) -> (ok: bool)
        ensures
            ok == (val <= 14),
            ok ==> *final(self) == Register::of_nibble(val as int),
            !ok ==> *final(self) == *old(self),
    {
        *self = match val {
            0 => Register::RAX,
            1 => Register::RCX,
            2 => Register::RDX,
            3 => Register::RBX,
            4 => Register::RSP,
            5 => Register::RBP,
            6 => Register::RSI,
            7 => Register::RDI,
            8 => Register::R8,
            9 => Register::R9,
            10 => Register::R10,
            11 => Register::R11,
            12 => Register::R12,
            13 => Register::R13,
            14 => Register::R14,
            _ => return false,
        };

        true
    }

    /// Takes `NOREG` if `val` is the "no register" nibble, 15. Returns
    /// whether it is; if not, `self` is left as it was.
    pub fn set_f(&mut self, val: u8) -> (ok: bool)
        ensures
            ok == (val == 15),
            ok ==> *final(self) == Register::NOREG,
            !ok ==> *final(self) == *old(self),
    {
        if val != 15 {
            return false;
        }
        *self = Register::NOREG;

        true
    }

    /// Takes whatever a nibble names, a program register or `NOREG`.
    /// Returns whether `val` is a nibble (0 to 15); if not, `self` is left
    /// as it was.
    pub fn set_a(&mut self, val: u8) -> (ok: bool)
        ensures
            ok == (val <= 15),
            ok ==> *final(self) == Register::of_nibble(val as int),
            !ok ==> *final(self) == *old(self),
    {
        if val <= 14 {
            self.set(val);
        } else if val == 15 {
            self.set_f(val);
        } else {
            return false;
        }

        true
    }

    /// The register's name in assembly text, without the `%`; empty for
    /// `NOREG`.
    pub fn to_string(&self) -> (s: String)
        ensures
            s@ == self.name(),
    {
        match self {
            Register::RAX => String::from_str("rax"),
            Register::RCX => String::from_str("rcx"),
            Register::RDX => String::from_str("rdx"),
            Register::RBX => String::from_str("rbx"),
            Register::RSP => String::from_str("rsp"),
            Register::RBP => String::from_str("rbp"),
            Register::RSI => String::from_str("rsi"),
            Register::RDI => String::from_str("rdi"),
            Register::R8 => String::from_str("r8"),
            Register::R9 => String::from_str("r9"),
            Register::R10 => String::from_str("r10"),
            Register::R11 => String::from_str("r11"),
            Register::R12 => String::from_str("r12"),
            Register::R13 => String::from_str("r13"),
            Register::R14 => String::from_str("r14"),
            Register::NOREG => String::new(),
        }
    }
}

/// Condition of a conditional move, its function code.
#[allow(clippy::upper_case_acronyms)]
#[derive(Clone, Copy, Debug, PartialEq, Eq, Structural)]
pub enum Cmov {
    RRMOVQ,
    CMOVLE,
    CMOVL,
    CMOVE,
    CMOVNE,
    CMOVGE,
    CMOVG,
}

impl Cmov {
    /// The condition that a function code stands for; codes above 5 all
    /// stand for `CMOVG`.
    pub open spec fn of_fun(val: int) -> Cmov {
        if val == 0 {
            Cmov::RRMOVQ
        } else if val == 1 {
            Cmov::CMOVLE
        } else if val == 2 {
            Cmov::CMOVL
        } else if val == 3 {
            Cmov::CMOVE
        } else if val == 4 {
            Cmov::CMOVNE
        } else if val == 5 {
            Cmov::CMOVGE
        } else {
            Cmov::CMOVG
        }
    }

    /// The mnemonic of the move.
    pub open spec fn mnemonic(self) -> Seq<char> {
        match self {
            Cmov::RRMOVQ => "rrmovq"@,
            Cmov::CMOVLE => "cmovle"@,
            Cmov::CMOVL => "cmovl"@,
            Cmov::CMOVE => "cmove"@,
            Cmov::CMOVNE => "cmovne"@,
            Cmov::CMOVGE => "cmovge"@,
            Cmov::CMOVG => "cmovg"@,
        }
    }

    /// Decodes the condition of a conditional move from its function code.
    pub fn from(val: u8) -> (cmov: Cmov)
        ensures
            cmov == Cmov::of_fun(val as int),
    {
        match val {
            0 => Cmov::RRMOVQ,
            1 => Cmov::CMOVLE,
            2 => Cmov::CMOVL,
            3 => Cmov::CMOVE,
            4 => Cmov::CMOVNE,
            5 => Cmov::CMOVGE,
            _ => Cmov::CMOVG,
        }
    }
}

/// Operation of an arithmetic instruction, its function code.
#[allow(clippy::upper_case_acronyms)]
#[derive(Clone, Copy, Debug, PartialEq, Eq, Structural)]
pub enum Opq {
    ADD,
    SUB,
    AND,
    XOR,
}

impl Opq {
    /// The operation that a function code stands for; codes above 2 all
    /// stand for `XOR`.
    pub open spec fn of_fun(val: int) -> Opq {
        if val == 0 {
            Opq::ADD
        } else if val == 1 {
            Opq::SUB
        } else if val == 2 {
            Opq::AND
        } else {
            Opq::XOR
        }
    }

    /// The mnemonic of the operation, without the `q` that ends it.
    pub open spec fn mnemonic(self) -> Seq<char> {
        match self {
            Opq::ADD => "add"@,
            Opq::SUB => "sub"@,
            Opq::AND => "and"@,
            Opq::XOR => "xor"@,
        }
    }

    /// Decodes an arithmetic operation from its function code.
    pub fn from(val: u8) -> (opq: Opq)
        ensures
            opq == Opq::of_fun(val as int),
    {
        match val {
            0 => Opq::ADD,
            1 => Opq::SUB,
            2 => Opq::AND,
            _ => Opq::XOR,
        }
    }
}

/// Condition of a jump, its function code.
#[allow(clippy::upper_case_acronyms)]
#[derive(Clone, Copy, Debug, PartialEq, Eq, Structural)]
pub enum Jump {
    JMP,
    JLE,
    JL,
    JE,
    JNE,
    JGE,
    JG,
}

impl Jump {
    /// The condition that a function code stands for; codes above 5 all
    /// stand for `JG`.
    pub open spec fn of_fun(val: int) -> Jump {
        if val == 0 {
            Jump::JMP
        } else if val == 1 {
            Jump::JLE
        } else if val == 2 {
            Jump::JL
        } else if val == 3 {
            Jump::JE
        } else if val == 4 {
            Jump::JNE
        } else if val == 5 {
            Jump::JGE
        } else {
            Jump::JG
        }
    }

    /// The mnemonic of the jump.
    pub open spec fn mnemonic(self) -> Seq<char> {
        match self {
            Jump::JMP => "jmp"@,
            Jump::JLE => "jle"@,
            Jump::JL => "jl"@,
            Jump::JE => "je"@,
            Jump::JNE => "jne"@,
            Jump::JGE => "jge"@,
            Jump::JG => "jg"@,
        }
    }

    /// Decodes the condition of a jump from its function code.
    pub fn from(val: u8) -> (jump: Jump)
        ensures
            jump == Jump::of_fun(val as int),
    {
        match val {
            0 => Jump::JMP,
            1 => Jump::JLE,
            2 => Jump::JL,
            3 => Jump::JE,
            4 => Jump::JNE,
            5 => Jump::JGE,
            _ => Jump::JG,
        }
    }
}

/// Status of the processor.
#[allow(clippy::upper_case_acronyms)]
#[derive(Clone, Copy, Debug, PartialEq, Eq, Structural)]
pub enum Stat {
    /// Running.
    AOK,
    /// A `halt` was decoded.
    HLT,
    /// An address outside the address space was read.
    ADR,
    /// The bytes read are no instruction.
    INS,
}

/// Number of program registers.
pub const NUM_REGS: usize = 15;

/// Processor state. Disassembly uses the program counter and the status
/// only; nothing is executed.
#[derive(Clone, Copy, Debug, PartialEq, Eq)]
pub struct Cpu {
    pub reg: [u64; NUM_REGS],
    pub zf: bool,
    pub sf: bool,
    pub of: bool,
    pub pc: u64,
    pub stat: Stat,
}

impl Cpu {
    /// A processor at `pc` with cleared registers and flags, running.
    pub fn new(pc: u64) -> (cpu: Cpu)
        ensures
            cpu.pc == pc,
            cpu.stat == Stat::AOK,
            !cpu.zf && !cpu.sf && !cpu.of,
            forall|i: int| 0 <= i < 15 ==> cpu.reg[i] == 0,
    {
        Cpu { reg: [0u64; NUM_REGS], zf: false, sf: false, of: false, pc, stat: Stat::AOK }
    }
}

/// A decoded instruction.
///
/// `icode` is `INVALID` where decoding failed. `val_c` holds the constant of
/// the classes that carry one, `val_p` the address of the next instruction.
#[derive(Clone, Copy, Debug, PartialEq, Eq)]
pub struct Inst {
    pub icode: Icode,
    pub ifun: u8,
    pub ra: Register,
    pub rb: Register,
    pub val_c: Option<u64>,
    pub val_p: u64,
}

impl Inst {
    /// Whether the record holds what rendering reads: the constant, in the
    /// classes that carry one.
    pub open spec fn wf(self) -> bool {
        self.icode.has_immediate() ==> self.val_c is Some
    }
}

} // verus!
