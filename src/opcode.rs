//! The opcode table: for each opcode byte, the operation it encodes and the
//! shape of its operands.
use vstd::prelude::*;

use crate::instruction::{CycleCost, Mnemonic, Register};
use crate::instruction::Mnemonic::{
    ADD, CCF, CPL, DA, DEC, HALT, INC, JR, JRC, JRNC, JRNZ, JRZ, LD, LDDL, LDDR, LDIL, LDIR, NOP,
    RL, RLC, RR, RRC, SCF, STOP,
};
use crate::instruction::Register::{A, B, BC, C, D, DE, E, H, HL, L, SP};
use self::OperandShape::{DerefAddr16, DerefReg, Imm16, Imm8, Reg, Rel8};

verus! {

/// What an opcode says of one of its operands: either the operand itself (a
/// register form) or the kind of value to read from the bytes that follow it.
#[derive(Debug, Clone, Copy, PartialEq, Eq, Structural)]
pub enum OperandShape {
    Imm8,
    Imm16,
    Rel8,
    DerefAddr16,
    Reg(Register),
    DerefReg(Register),
}

impl OperandShape {
    /// Bytes that an operand of this shape takes after the opcode byte.
    pub open spec fn encoded_len(self) -> nat {
        match self {
            OperandShape::Imm8 | OperandShape::Rel8 => 1,
            OperandShape::Imm16 | OperandShape::DerefAddr16 => 2,
            OperandShape::Reg(_) | OperandShape::DerefReg(_) => 0,
        }
    }

    pub fn len(&self) -> (r: usize)
        ensures
            r == self.encoded_len(),
    {
        match self {
            OperandShape::Imm8 | OperandShape::Rel8 => 1,
            OperandShape::Imm16 | OperandShape::DerefAddr16 => 2,
            OperandShape::Reg(_) | OperandShape::DerefReg(_) => 0,
        }
    }
}

/// One row of the opcode table.
#[derive(Debug, Clone, Copy, PartialEq, Eq, Structural)]
pub struct OpcodeEntry {
    pub mnemonic: Mnemonic,
    pub lhs: Option<OperandShape>,
    pub rhs: Option<OperandShape>,
    pub cycles: CycleCost,
}

pub open spec fn shape_len(s: Option<OperandShape>) -> nat {
    match s {
        Some(s) => s.encoded_len(),
        None => 0,
    }
}

impl OpcodeEntry {
    /// Encoded size of an instruction of this row: the opcode byte and the
    /// bytes its operands are read from.
    pub open spec fn size(self) -> nat {
        1 + shape_len(self.lhs) + shape_len(self.rhs)
    }
}

/// The 8-bit operand named by a 3-bit register field: B, C, D, E, H, L, (HL), A.
pub open spec fn r8_field(i: int) -> OperandShape {
    if i == 0 {
        Reg(B)
    } else if i == 1 {
        Reg(C)
    } else if i == 2 {
        Reg(D)
    } else if i == 3 {
        Reg(E)
    } else if i == 4 {
        Reg(H)
    } else if i == 5 {
        Reg(L)
    } else if i == 6 {
        DerefReg(HL)
    } else {
        Reg(A)
    }
}

/// The 16-bit register named by a 2-bit pair field: BC, DE, HL, SP.
pub open spec fn r16_field(p: int) -> Register {
    if p == 0 {
        BC
    } else if p == 1 {
        DE
    } else if p == 2 {
        HL
    } else {
        SP
    }
}

pub open spec fn row(
    mnemonic: Mnemonic,
    lhs: Option<OperandShape>,
    rhs: Option<OperandShape>,
    cycles: u8,
) -> Option<OpcodeEntry> {
    Some(OpcodeEntry { mnemonic, lhs, rhs, cycles: CycleCost::Fixed(cycles) })
}

/// The opcodes below 0x40, by the fields of the opcode byte `00yyyzzz`
/// (with `y = 2p + q`).
pub open spec fn low_block(y: int, z: int) -> Option<OpcodeEntry> {
    let p = y / 2;
    let q = y % 2;
    if z == 0 {
        if y == 0 {
            row(NOP, None, None, 4)
        } else if y == 1 {
            row(LD, Some(DerefAddr16), Some(Reg(SP)), 20)
        } else if y == 2 {
            row(STOP, Some(Imm8), None, 4)
        } else if y == 3 {
            row(JR, Some(Rel8), None, 12)
        } else {
            let m = if y == 4 {
                JRNZ
            } else if y == 5 {
                JRZ
            } else if y == 6 {
                JRNC
            } else {
                JRC
            };
            Some(
                OpcodeEntry {
                    mnemonic: m,
                    lhs: Some(Rel8),
                    rhs: None,
                    cycles: CycleCost::Branch { taken: 12, not_taken: 8 },
                },
            )
        }
    } else if z == 1 {
        if q == 0 {
            row(LD, Some(Reg(r16_field(p))), Some(Imm16), 12)
        } else {
            row(ADD, Some(Reg(HL)), Some(Reg(r16_field(p))), 8)
        }
    } else if z == 2 {
        let ptr = if p == 0 {
            BC
        } else if p == 1 {
            DE
        } else {
            HL
        };
        let m = if p < 2 {
            LD
        } else if p == 2 {
            if q == 0 { LDIL } else { LDIR }
        } else {
            if q == 0 { LDDL } else { LDDR }
        };
        if q == 0 {
            row(m, Some(DerefReg(ptr)), Some(Reg(A)), 8)
        } else {
            row(m, Some(Reg(A)), Some(DerefReg(ptr)), 8)
        }
    } else if z == 3 {
        row(if q == 0 { INC } else { DEC }, Some(Reg(r16_field(p))), None, 8)
    } else if z == 4 || z == 5 {
        row(if z == 4 { INC } else { DEC }, Some(r8_field(y)), None, if y == 6 { 12 } else { 4 })
    } else if z == 6 {
        row(LD, Some(r8_field(y)), Some(Imm8), if y == 6 { 12 } else { 8 })
    } else if y < 6 {
        let m = if y == 0 {
            RLC
        } else if y == 1 {
            RRC
        } else if y == 2 {
            RL
        } else if y == 3 {
            RR
        } else if y == 4 {
            DA
        } else {
            CPL
        };
        row(m, Some(Reg(A)), None, 4)
    } else {
        row(if y == 6 { SCF } else { CCF }, None, None, 4)
    }
}

/// The opcodes 0x40 to 0x7F, `01yyyzzz`: register-to-register loads, with
/// HALT in the slot that would load (HL) into itself.
pub open spec fn load_block(y: int, z: int) -> Option<OpcodeEntry> {
    if y == 6 && z == 6 {
        row(HALT, None, None, 4)
    } else {
        row(LD, Some(r8_field(y)), Some(r8_field(z)), if y == 6 || z == 6 { 8 } else { 4 })
    }
}

/// The instruction set's encoding: the row for each opcode byte. Opcodes from
/// 0x80 up have none.
pub open spec fn encoding(op: u8) -> Option<OpcodeEntry> {
    let x = op as int / 64;
    let y = (op as int / 8) % 8;
    let z = op as int % 8;
    if x == 0 {
        low_block(y, z)
    } else if x == 1 {
        load_block(y, z)
    } else {
        None
    }
}

/// The opcodes that have a row in the table.
pub open spec fn supported(op: u8) -> bool {
    op < 0x80
}

/// Every opcode of the supported range has a row, and only those do. As the
/// table is a function of the opcode, each has exactly one.
pub proof fn lemma_table_covers_supported_range(op: u8)
    ensures
        supported(op) <==> encoding(op) is Some,
{
}

fn op0(mnemonic: Mnemonic, cycles: u8) -> (r: Option<OpcodeEntry>)
    ensures
        r == row(mnemonic, None, None, cycles),
{
    Some(OpcodeEntry { mnemonic, lhs: None, rhs: None, cycles: CycleCost::Fixed(cycles) })
}

fn op1(mnemonic: Mnemonic, lhs: OperandShape, cycles: u8) -> (r: Option<OpcodeEntry>)
    ensures
        r == row(mnemonic, Some(lhs), None, cycles),
{
    Some(OpcodeEntry { mnemonic, lhs: Some(lhs), rhs: None, cycles: CycleCost::Fixed(cycles) })
}

fn op2(mnemonic: Mnemonic, lhs: OperandShape, rhs: OperandShape, cycles: u8) -> (r: Option<
    OpcodeEntry,
>)
    ensures
        r == row(mnemonic, Some(lhs), Some(rhs), cycles),
{
    Some(OpcodeEntry { mnemonic, lhs: Some(lhs), rhs: Some(rhs), cycles: CycleCost::Fixed(cycles) })
}

/// A relative jump on a condition: 12 cycles when taken, 8 when not.
fn branch(mnemonic: Mnemonic) -> (r: Option<OpcodeEntry>)
    ensures
        r == Some(
            OpcodeEntry {
                mnemonic,
                lhs: Some(Rel8),
                rhs: None,
                cycles: CycleCost::Branch { taken: 12, not_taken: 8 },
            },
        ),
{
    Some(
        OpcodeEntry {
            mnemonic,
            lhs: Some(Rel8),
            rhs: None,
            cycles: CycleCost::Branch { taken: 12, not_taken: 8 },
        },
    )
}

/// Looks up the row of an opcode in the table.
pub fn lookup(op: u8) -> (r: Option<OpcodeEntry>)
    ensures
        r == encoding(op),
{
    match op {
        0x00 => op0(NOP, 4),
        0x01 => op2(LD, Reg(BC), Imm16, 12),
        0x02 => op2(LD, DerefReg(BC), Reg(A), 8),
        0x03 => op1(INC, Reg(BC), 8),
        0x04 => op1(INC, Reg(B), 4),
        0x05 => op1(DEC, Reg(B), 4),
        0x06 => op2(LD, Reg(B), Imm8, 8),
        0x07 => op1(RLC, Reg(A), 4),
        0x08 => op2(LD, DerefAddr16, Reg(SP), 20),
        0x09 => op2(ADD, Reg(HL), Reg(BC), 8),
        0x0A => op2(LD, Reg(A), DerefReg(BC), 8),
        0x0B => op1(DEC, Reg(BC), 8),
        0x0C => op1(INC, Reg(C), 4),
        0x0D => op1(DEC, Reg(C), 4),
        0x0E => op2(LD, Reg(C), Imm8, 8),
        0x0F => op1(RRC, Reg(A), 4),
        0x10 => op1(STOP, Imm8, 4),
        0x11 => op2(LD, Reg(DE), Imm16, 12),
        0x12 => op2(LD, DerefReg(DE), Reg(A), 8),
        0x13 => op1(INC, Reg(DE), 8),
        0x14 => op1(INC, Reg(D), 4),
        0x15 => op1(DEC, Reg(D), 4),
        0x16 => op2(LD, Reg(D), Imm8, 8),
        0x17 => op1(RL, Reg(A), 4),
        0x18 => op1(JR, Rel8, 12),
        0x19 => op2(ADD, Reg(HL), Reg(DE), 8),
        0x1A => op2(LD, Reg(A), DerefReg(DE), 8),
        0x1B => op1(DEC, Reg(DE), 8),
        0x1C => op1(INC, Reg(E), 4),
        0x1D => op1(DEC, Reg(E), 4),
        0x1E => op2(LD, Reg(E), Imm8, 8),
        0x1F => op1(RR, Reg(A), 4),
        0x20 => branch(JRNZ),
        0x21 => op2(LD, Reg(HL), Imm16, 12),
        0x22 => op2(LDIL, DerefReg(HL), Reg(A), 8),
        0x23 => op1(INC, Reg(HL), 8),
        0x24 => op1(INC, Reg(H), 4),
        0x25 => op1(DEC, Reg(H), 4),
        0x26 => op2(LD, Reg(H), Imm8, 8),
        0x27 => op1(DA, Reg(A), 4),
        0x28 => branch(JRZ),
        0x29 => op2(ADD, Reg(HL), Reg(HL), 8),
        0x2A => op2(LDIR, Reg(A), DerefReg(HL), 8),
        0x2B => op1(DEC, Reg(HL), 8),
        0x2C => op1(INC, Reg(L), 4),
        0x2D => op1(DEC, Reg(L), 4),
        0x2E => op2(LD, Reg(L), Imm8, 8),
        0x2F => op1(CPL, Reg(A), 4),
        0x30 => branch(JRNC),
        0x31 => op2(LD, Reg(SP), Imm16, 12),
        0x32 => op2(LDDL, DerefReg(HL), Reg(A), 8),
        0x33 => op1(INC, Reg(SP), 8),
        0x34 => op1(INC, DerefReg(HL), 12),
        0x35 => op1(DEC, DerefReg(HL), 12),
        0x36 => op2(LD, DerefReg(HL), Imm8, 12),
        0x37 => op0(SCF, 4),
        0x38 => branch(JRC),
        0x39 => op2(ADD, Reg(HL), Reg(SP), 8),
        0x3A => op2(LDDR, Reg(A), DerefReg(HL), 8),
        0x3B => op1(DEC, Reg(SP), 8),
        0x3C => op1(INC, Reg(A), 4),
        0x3D => op1(DEC, Reg(A), 4),
        0x3E => op2(LD, Reg(A), Imm8, 8),
        0x3F => op0(CCF, 4),
        0x40 => op2(LD, Reg(B), Reg(B), 4),
        0x41 => op2(LD, Reg(B), Reg(C), 4),
        0x42 => op2(LD, Reg(B), Reg(D), 4),
        0x43 => op2(LD, Reg(B), Reg(E), 4),
        0x44 => op2(LD, Reg(B), Reg(H), 4),
        0x45 => op2(LD, Reg(B), Reg(L), 4),
        0x46 => op2(LD, Reg(B), DerefReg(HL), 8),
        0x47 => op2(LD, Reg(B), Reg(A), 4),
        0x48 => op2(LD, Reg(C), Reg(B), 4),
        0x49 => op2(LD, Reg(C), Reg(C), 4),
        0x4A => op2(LD, Reg(C), Reg(D), 4),
        0x4B => op2(LD, Reg(C), Reg(E), 4),
        0x4C => op2(LD, Reg(C), Reg(H), 4),
        0x4D => op2(LD, Reg(C), Reg(L), 4),
        0x4E => op2(LD, Reg(C), DerefReg(HL), 8),
        0x4F => op2(LD, Reg(C), Reg(A), 4),
        0x50 => op2(LD, Reg(D), Reg(B), 4),
        0x51 => op2(LD, Reg(D), Reg(C), 4),
        0x52 => op2(LD, Reg(D), Reg(D), 4),
        0x53 => op2(LD, Reg(D), Reg(E), 4),
        0x54 => op2(LD, Reg(D), Reg(H), 4),
        0x55 => op2(LD, Reg(D), Reg(L), 4),
        0x56 => op2(LD, Reg(D), DerefReg(HL), 8),
        0x57 => op2(LD, Reg(D), Reg(A), 4),
        0x58 => op2(LD, Reg(E), Reg(B), 4),
        0x59 => op2(LD, Reg(E), Reg(C), 4),
        0x5A => op2(LD, Reg(E), Reg(D), 4),
        0x5B => op2(LD, Reg(E), Reg(E), 4),
        0x5C => op2(LD, Reg(E), Reg(H), 4),
        0x5D => op2(LD, Reg(E), Reg(L), 4),
        0x5E => op2(LD, Reg(E), DerefReg(HL), 8),
        0x5F => op2(LD, Reg(E), Reg(A), 4),
        0x60 => op2(LD, Reg(H), Reg(B), 4),
        0x61 => op2(LD, Reg(H), Reg(C), 4),
        0x62 => op2(LD, Reg(H), Reg(D), 4),
        0x63 => op2(LD, Reg(H), Reg(E), 4),
        0x64 => op2(LD, Reg(H), Reg(H), 4),
        0x65 => op2(LD, Reg(H), Reg(L), 4),
        0x66 => op2(LD, Reg(H), DerefReg(HL), 8),
        0x67 => op2(LD, Reg(H), Reg(A), 4),
        0x68 => op2(LD, Reg(L), Reg(B), 4),
        0x69 => op2(LD, Reg(L), Reg(C), 4),
        0x6A => op2(LD, Reg(L), Reg(D), 4),
        0x6B => op2(LD, Reg(L), Reg(E), 4),
        0x6C => op2(LD, Reg(L), Reg(H), 4),
        0x6D => op2(LD, Reg(L), Reg(L), 4),
        0x6E => op2(LD, Reg(L), DerefReg(HL), 8),
        0x6F => op2(LD, Reg(L), Reg(A), 4),
        0x70 => op2(LD, DerefReg(HL), Reg(B), 8),
        0x71 => op2(LD, DerefReg(HL), Reg(C), 8),
        0x72 => op2(LD, DerefReg(HL), Reg(D), 8),
        0x73 => op2(LD, DerefReg(HL), Reg(E), 8),
        0x74 => op2(LD, DerefReg(HL), Reg(H), 8),
        0x75 => op2(LD, DerefReg(HL), Reg(L), 8),
        0x76 => op0(HALT, 4),
        0x77 => op2(LD, DerefReg(HL), Reg(A), 8),
        0x78 => op2(LD, Reg(A), Reg(B), 4),
        0x79 => op2(LD, Reg(A), Reg(C), 4),
        0x7A => op2(LD, Reg(A), Reg(D), 4),
        0x7B => op2(LD, Reg(A), Reg(E), 4),
        0x7C => op2(LD, Reg(A), Reg(H), 4),
        0x7D => op2(LD, Reg(A), Reg(L), 4),
        0x7E => op2(LD, Reg(A), DerefReg(HL), 8),
        0x7F => op2(LD, Reg(A), Reg(A), 4),
        _ => None,
    }
}

} // verus!
