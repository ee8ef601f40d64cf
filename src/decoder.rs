//! Decoding of a single instruction from the bytes at a cursor.
use vstd::prelude::*;

use crate::error::DecodeError;
use crate::instruction::{Instruction, Operand};
use crate::opcode::{encoding, lookup, shape_len, OpcodeEntry, OperandShape};

verus! {

/// The value of the little-endian pair `lo`, `hi`.
pub open spec fn le16(lo: u8, hi: u8) -> u16 {
    (lo as int + 256 * hi as int) as u16
}

/// The operand of shape `s` whose bytes, if any, start at `bytes[at]`.
pub open spec fn operand_at(s: OperandShape, bytes: Seq<u8>, at: int) -> Operand {
    match s {
        OperandShape::Imm8 => Operand::Imm8(bytes[at]),
        OperandShape::Rel8 => Operand::Rel8(bytes[at]),
        OperandShape::Imm16 => Operand::Imm16(le16(bytes[at], bytes[at + 1])),
        OperandShape::DerefAddr16 => Operand::DerefAddr16(le16(bytes[at], bytes[at + 1])),
        OperandShape::Reg(r) => Operand::Reg(r),
        OperandShape::DerefReg(r) => Operand::DerefReg(r),
    }
}

pub open spec fn operand_opt_at(s: Option<OperandShape>, bytes: Seq<u8>, at: int) -> Option<
    Operand,
> {
    match s {
        Some(s) => Some(operand_at(s, bytes, at)),
        None => None,
    }
}

/// The instruction that row `e` of the table makes of `bytes`, whose first
/// byte is the opcode and which hold at least `e.size()` bytes.
pub open spec fn instruction_of(e: OpcodeEntry, bytes: Seq<u8>) -> Instruction {
    Instruction {
        opcode: bytes[0],
        mnemonic: e.mnemonic,
        lhs: operand_opt_at(e.lhs, bytes, 1),
        rhs: operand_opt_at(e.rhs, bytes, 1 + shape_len(e.lhs) as int),
        size: e.size() as usize,
        cycles: e.cycles,
    }
}

/// Decoding of the instruction at the start of `bytes`.
pub open spec fn decode(bytes: Seq<u8>) -> Result<Instruction, DecodeError> {
    if bytes.len() == 0 {
        Err(DecodeError::TruncatedOpcode)
    } else {
        match encoding(bytes[0]) {
            None => Err(DecodeError::UnsupportedOpcode(bytes[0])),
            Some(e) => if bytes.len() < e.size() {
                Err(
                    DecodeError::TruncatedOperand {
                        expected: e.size() as usize,
                        actual: bytes.len() as usize,
                    },
                )
            } else {
                Ok(instruction_of(e, bytes))
            },
        }
    }
}

/// A decoded instruction is at least one byte long and never longer than the
/// bytes it was decoded from.
pub proof fn lemma_decoded_size_in_bounds(bytes: Seq<u8>)
    requires
        decode(bytes) is Ok,
    ensures
        1 <= decode(bytes)->Ok_0.size <= bytes.len(),
{
}

/// Bytes that an operand, if present, takes after the opcode byte.
pub open spec fn encoded_len_of(o: Option<Operand>) -> nat {
    match o {
        Some(o) => o.encoded_len(),
        None => 0,
    }
}

/// Width of an operand's kind, if present.
pub open spec fn width_of(o: Option<Operand>) -> nat {
    match o {
        Some(o) => o.width(),
        None => 0,
    }
}

/// Whether an operand is present and names a register.
pub open spec fn names_register(o: Option<Operand>) -> bool {
    o matches Some(Operand::Reg(_)) || o matches Some(Operand::DerefReg(_))
}

/// A decoded instruction's size is its opcode byte plus the bytes its operands
/// take; it is never more than the bytes given, and decoding exactly that many
/// bytes gives the same instruction.
pub proof fn lemma_size_consistency(bytes: Seq<u8>)
    requires
        decode(bytes) is Ok,
    ensures
        ({
            let inst = decode(bytes)->Ok_0;
            &&& inst.size == 1 + encoded_len_of(inst.lhs) + encoded_len_of(inst.rhs)
            &&& 1 <= inst.size <= bytes.len()
            &&& decode(bytes.take(inst.size as int)) == decode(bytes)
        }),
{
    let n = decode(bytes)->Ok_0.size as int;
    assert(bytes.take(n).take(n) =~= bytes.take(n));
    lemma_decode_reads_only_its_bytes(bytes, bytes.take(n));
}

/// For an instruction with no register operand, its size is the opcode byte
/// plus the widths of its operands.
pub proof fn lemma_size_is_opcode_plus_widths(bytes: Seq<u8>)
    requires
        decode(bytes) is Ok,
        !names_register(decode(bytes)->Ok_0.lhs),
        !names_register(decode(bytes)->Ok_0.rhs),
    ensures
        decode(bytes)->Ok_0.size == 1 + width_of(decode(bytes)->Ok_0.lhs) + width_of(
            decode(bytes)->Ok_0.rhs,
        ),
{
}

/// Decoding reads no byte past the instruction: a buffer that holds the same
/// bytes for the length of a decoded instruction decodes to that instruction.
pub proof fn lemma_decode_reads_only_its_bytes(a: Seq<u8>, b: Seq<u8>)
    requires
        decode(a) is Ok,
        decode(a)->Ok_0.size <= b.len(),
        b.take(decode(a)->Ok_0.size as int) == a.take(decode(a)->Ok_0.size as int),
    ensures
        decode(b) == decode(a),
{
    let n = decode(a)->Ok_0.size as int;
    assert forall|j: int| 0 <= j < n implies a[j] == b[j] by {
        assert(a.take(n)[j] == b.take(n)[j]);
    }
}

/// Decoding is deterministic: the same bytes always decode to the same result.
pub proof fn lemma_decode_deterministic(a: Seq<u8>, b: Seq<u8>)
    requires
        a == b,
    ensures
        decode(a) == decode(b),
{
}

/// The value of a 16-bit immediate or address operand.
pub open spec fn wide_value(o: Option<Operand>) -> Option<u16> {
    match o {
        Some(Operand::Imm16(v)) | Some(Operand::Addr16(v)) | Some(Operand::DerefAddr16(v)) => Some(v),
        _ => None,
    }
}

/// A 16-bit operand is read little-endian: the low byte comes first, at the
/// operand's own offset.
pub proof fn lemma_wide_operands_little_endian(bytes: Seq<u8>)
    requires
        decode(bytes) is Ok,
    ensures
        ({
            let inst = decode(bytes)->Ok_0;
            let k = 1 + encoded_len_of(inst.lhs) as int;
            &&& wide_value(inst.lhs) matches Some(v) ==> v == bytes[1] + 256 * bytes[2]
            &&& wide_value(inst.rhs) matches Some(v) ==> v == bytes[k] + 256 * bytes[k + 1]
        }),
{
}

fn shape_len_of(s: Option<OperandShape>) -> (r: usize)
    ensures
        r == shape_len(s),
{
    match s {
        Some(s) => s.len(),
        None => 0,
    }
}

impl Instruction {
    /// Decodes the instruction at the start of `bytes`; later bytes may belong
    /// to later instructions and are not read.
    pub fn from_slice(bytes: &[u8]) -> (r: Result<Instruction, DecodeError>)
        ensures
            r == decode(bytes@),
    {
        assert(bytes@.subrange(0, bytes@.len() as int) =~= bytes@);
        Instruction::decode(bytes, 0)
    }

    /// Decodes the instruction that starts at `bytes[pos]`.
    pub(crate) fn decode(bytes: &[u8], pos: usize) -> (r: Result<Instruction, DecodeError>)
        requires
            pos <= bytes@.len(),
        ensures
            r == decode(bytes@.subrange(pos as int, bytes@.len() as int)),
    {
        let ghost rest = bytes@.subrange(pos as int, bytes@.len() as int);
        let avail = bytes.len() - pos;
        if avail == 0 {
            return Err(DecodeError::TruncatedOpcode);
        }
        let opcode = bytes[pos];
        let entry = match lookup(opcode) {
            Some(e) => e,
            None => {
                return Err(DecodeError::UnsupportedOpcode(opcode));
            },
        };
        let lhs_len = shape_len_of(entry.lhs);
        let size = 1 + lhs_len + shape_len_of(entry.rhs);
        if avail < size {
            return Err(DecodeError::TruncatedOperand { expected: size, actual: avail });
        }
        let lhs = Instruction::read_operand(entry.lhs, bytes, pos + 1);
        let rhs = Instruction::read_operand(entry.rhs, bytes, pos + 1 + lhs_len);
        proof {
            assert(lhs == operand_opt_at(entry.lhs, rest, 1));
            assert(rhs == operand_opt_at(entry.rhs, rest, 1 + lhs_len as int));
        }
        Ok(
            Instruction {
                opcode,
                mnemonic: entry.mnemonic,
                lhs,
                rhs,
                size,
                cycles: entry.cycles,
            },
        )
    }

    /// Reads the operand of shape `s` whose bytes start at `bytes[at]`.
    fn read_operand(s: Option<OperandShape>, bytes: &[u8], at: usize) -> (r: Option<Operand>)
        requires
            at + shape_len(s) <= bytes@.len(),
        ensures
            r == operand_opt_at(s, bytes@, at as int),
    {
        match s {
            None => None,
            Some(OperandShape::Imm8) => Some(Operand::Imm8(Instruction::read_imm8(bytes, at))),
            Some(OperandShape::Rel8) => Some(Operand::Rel8(Instruction::read_imm8(bytes, at))),
            Some(OperandShape::Imm16) => Some(Operand::Imm16(Instruction::read_imm16(bytes, at))),
            Some(OperandShape::DerefAddr16) => Some(
                Operand::DerefAddr16(Instruction::read_imm16(bytes, at)),
            ),
            Some(OperandShape::Reg(r)) => Some(Operand::Reg(r)),
            Some(OperandShape::DerefReg(r)) => Some(Operand::DerefReg(r)),
        }
    }

    fn read_imm8(bytes: &[u8], at: usize) -> (r: u8)
        requires
            at < bytes@.len(),
        ensures
            r == bytes@[at as int],
    {
        bytes[at]
    }

    /// Reads the little-endian 16-bit value at `bytes[at]`, `bytes[at + 1]`.
    fn read_imm16(bytes: &[u8], at: usize) -> (r: u16)
        requires
            at + 1 < bytes@.len(),
        ensures
            r == le16(bytes@[at as int], bytes@[at + 1]),
    {
        let lo = bytes[at] as u16;
        let hi = bytes[at + 1] as u16;
        hi * 256 + lo
    }
}

} // verus!
