//! The decoded unit and the types it is made of.
use vstd::prelude::*;

verus! {

/// Operation names.
#[derive(Debug, Clone, Copy, PartialEq, Eq, Structural)]
pub enum Mnemonic {
    NOP,
    STOP,
    /// Load.
    LD,
    /// Load, then increment the left-hand pointer register.
    LDIL,
    /// Load, then decrement the left-hand pointer register.
    LDDL,
    /// Load, then increment the right-hand pointer register.
    LDIR,
    /// Load, then decrement the right-hand pointer register.
    LDDR,
    JR,
    JP,
    JRNZ,
    JRZ,
    JRNC,
    JRC,
    ADD,
    SUB,
    INC,
    DEC,
    AND,
    OR,
    PUSH,
    POP,
    CALL,
    RET,
    RLC,
    RRC,
    RL,
    RR,
    DA,
    CPL,
    SCF,
    CCF,
    HALT,
}

/// CPU registers: the 16-bit pairs, their 8-bit halves, and the stack pointer.
#[derive(Debug, Clone, Copy, PartialEq, Eq, Structural)]
pub enum Register {
    AF,
    A,
    F,
    BC,
    B,
    C,
    DE,
    D,
    E,
    HL,
    H,
    L,
    SP,
}

impl Register {
    /// Width in bytes: 2 for the composite pairs, 1 for every other register.
    pub open spec fn width(self) -> nat {
        match self {
            Register::AF | Register::BC | Register::DE | Register::HL => 2,
            _ => 1,
        }
    }

    pub fn size(&self) -> (r: usize)
        ensures
            r == self.width(),
    {
        match self {
            Register::AF | Register::BC | Register::DE | Register::HL => 2,
            _ => 1,
        }
    }
}

/// An operand of an instruction.
#[derive(Debug, Clone, Copy, PartialEq, Eq, Structural)]
pub enum Operand {
    Imm8(u8),
    Imm16(u16),
    Addr8(u8),
    DerefAddr8(u8),
    Addr16(u16),
    DerefAddr16(u16),
    /// Relative branch displacement, kept as the raw byte.
    Rel8(u8),
    Reg(Register),
    DerefReg(Register),
}

impl Operand {
    /// Width of the operand's kind in bytes: the register's width for the
    /// register forms, 2 for the 16-bit immediate and address forms, 1 otherwise.
    pub open spec fn width(self) -> nat {
        match self {
            Operand::Reg(r) | Operand::DerefReg(r) => r.width(),
            Operand::Imm16(_) | Operand::Addr16(_) | Operand::DerefAddr16(_) => 2,
            _ => 1,
        }
    }

    /// Bytes the operand takes in the instruction stream after the opcode byte;
    /// a register operand is named by the opcode itself and takes none.
    pub open spec fn encoded_len(self) -> nat {
        match self {
            Operand::Reg(_) | Operand::DerefReg(_) => 0,
            Operand::Imm16(_) | Operand::Addr16(_) | Operand::DerefAddr16(_) => 2,
            _ => 1,
        }
    }

    pub fn size(&self) -> (r: usize)
        ensures
            r == self.width(),
    {
        match self {
            Operand::Reg(r) | Operand::DerefReg(r) => r.size(),
            Operand::Imm16(_) | Operand::Addr16(_) | Operand::DerefAddr16(_) => 2,
            _ => 1,
        }
    }
}

/// Cycles the CPU spends on an instruction.
#[derive(Debug, Clone, Copy, PartialEq, Eq, Structural)]
pub enum CycleCost {
    Fixed(u8),
    /// A conditional branch: the cost depends on whether the branch is taken.
    Branch { taken: u8, not_taken: u8 },
}

/// One decoded instruction.
#[derive(Debug, Clone, Copy, PartialEq, Eq, Structural)]
pub struct Instruction {
    pub opcode: u8,
    pub mnemonic: Mnemonic,
    pub lhs: Option<Operand>,
    pub rhs: Option<Operand>,
    /// Encoded size in bytes, opcode byte included.
    pub size: usize,
    pub cycles: CycleCost,
}

} // verus!
