use gb_disasm::{CycleCost, DecodeError, Instruction, Mnemonic, Operand, Register};

fn decode_one(bytes: &[u8]) -> Instruction {
    match Instruction::from_slice(bytes) {
        Ok(inst) => inst,
        Err(e) => panic!("decoding {:02X?} failed: {:?}", bytes, e),
    }
}

fn encoded_len(o: &Option<Operand>) -> usize {
    match o {
        None | Some(Operand::Reg(_)) | Some(Operand::DerefReg(_)) => 0,
        Some(o) => o.size(),
    }
}

#[test]
fn nop_decodes_alone() {
    let inst = decode_one(&[0x00]);
    assert_eq!(inst.mnemonic, Mnemonic::NOP);
    assert_eq!(inst.lhs, None);
    assert_eq!(inst.rhs, None);
    assert_eq!(inst.size, 1);
    assert_eq!(inst.cycles, CycleCost::Fixed(4));
}

#[test]
fn load_bc_immediate() {
    let inst = decode_one(&[0x01, 0x34, 0x12]);
    assert_eq!(
        inst,
        Instruction {
            opcode: 0x01,
            mnemonic: Mnemonic::LD,
            lhs: Some(Operand::Reg(Register::BC)),
            rhs: Some(Operand::Imm16(0x1234)),
            size: 3,
            cycles: CycleCost::Fixed(12),
        }
    );
}

#[test]
fn wide_operands_are_little_endian() {
    assert_eq!(le16_value(&[0x31, 0x34, 0x12]), 0x1234);
    assert_eq!(le16_value(&[0x08, 0xCD, 0xAB]), 0xABCD);
    assert_eq!(le16_value(&[0x21, 0xFF, 0x00]), 0x00FF);
    assert_eq!(le16_value(&[0x11, 0x00, 0x80]), 0x8000);
}

fn le16_value(bytes: &[u8]) -> u16 {
    let inst = decode_one(bytes);
    match (inst.lhs, inst.rhs) {
        (_, Some(Operand::Imm16(v))) | (Some(Operand::DerefAddr16(v)), _) => v,
        other => panic!("no 16-bit operand in {:?}", other),
    }
}

#[test]
fn decoding_is_deterministic() {
    let bytes = [0x36, 0x7F, 0x00, 0x10];
    let first = Instruction::from_slice(&bytes);
    let second = Instruction::from_slice(&bytes);
    assert_eq!(first, second);
    let copy = bytes.to_vec();
    assert_eq!(Instruction::from_slice(&copy), first);
}

#[test]
fn trailing_bytes_are_not_read() {
    let short = decode_one(&[0x06, 0x42]);
    let long = decode_one(&[0x06, 0x42, 0xFE, 0xFE, 0xFE]);
    assert_eq!(short, long);
    assert_eq!(long.size, 2);
    assert_eq!(long.rhs, Some(Operand::Imm8(0x42)));
}

#[test]
fn every_supported_opcode_decodes_once_and_others_fail() {
    for op in 0u16..=255 {
        let op = op as u8;
        let bytes = [op, 0x01, 0x02, 0x03];
        let r = Instruction::from_slice(&bytes);
        if op < 0x80 {
            let inst = r.expect("supported opcode");
            assert_eq!(inst.opcode, op);
        } else {
            assert_eq!(r, Err(DecodeError::UnsupportedOpcode(op)));
        }
    }
}

#[test]
fn size_is_opcode_plus_encoded_operands() {
    for op in 0u8..0x80 {
        let inst = decode_one(&[op, 0x01, 0x02, 0x03]);
        assert_eq!(inst.size, 1 + encoded_len(&inst.lhs) + encoded_len(&inst.rhs), "opcode {:02X}", op);
        assert!(inst.size <= 3);
        let exact = decode_one(&[op, 0x01, 0x02, 0x03][..inst.size]);
        assert_eq!(exact, inst);
    }
}

#[test]
fn size_is_opcode_plus_widths_without_registers() {
    for op in [0x00u8, 0x10, 0x18, 0x20, 0x28, 0x30, 0x38, 0x37, 0x3F, 0x76] {
        let inst = decode_one(&[op, 0x05, 0x06]);
        let widths: usize = [inst.lhs, inst.rhs].iter().flatten().map(|o| o.size()).sum();
        assert_eq!(inst.size, 1 + widths, "opcode {:02X}", op);
    }
}

#[test]
fn empty_slice_is_truncated_opcode() {
    assert_eq!(Instruction::from_slice(&[]), Err(DecodeError::TruncatedOpcode));
}

#[test]
fn missing_immediate_is_truncated_operand() {
    assert_eq!(
        Instruction::from_slice(&[0x06]),
        Err(DecodeError::TruncatedOperand { expected: 2, actual: 1 })
    );
    assert_eq!(
        Instruction::from_slice(&[0x01, 0x34]),
        Err(DecodeError::TruncatedOperand { expected: 3, actual: 2 })
    );
}

#[test]
fn conditional_jumps_have_variable_cost() {
    let cases = [(0x20u8, Mnemonic::JRNZ), (0x28, Mnemonic::JRZ), (0x30, Mnemonic::JRNC), (0x38, Mnemonic::JRC)];
    for (op, m) in cases {
        let inst = decode_one(&[op, 0xFE]);
        assert_eq!(inst.mnemonic, m);
        assert_eq!(inst.lhs, Some(Operand::Rel8(0xFE)));
        assert_eq!(inst.cycles, CycleCost::Branch { taken: 12, not_taken: 8 });
        assert_eq!(inst.size, 2);
    }
    assert_eq!(decode_one(&[0x18, 0x05]).cycles, CycleCost::Fixed(12));
}

#[test]
fn table_rows_match_the_instruction_set() {
    let ld = |l: Operand, r: Operand| (Mnemonic::LD, Some(l), Some(r));
    let rows = [
        (vec![0x08u8, 0x00, 0xC0], (Mnemonic::LD, Some(Operand::DerefAddr16(0xC000)), Some(Operand::Reg(Register::SP))), 20u8),
        (vec![0x10, 0x00], (Mnemonic::STOP, Some(Operand::Imm8(0)), None), 4),
        (vec![0x1C], (Mnemonic::INC, Some(Operand::Reg(Register::E)), None), 4),
        (vec![0x1E, 0x09], ld(Operand::Reg(Register::E), Operand::Imm8(9)), 8),
        (vec![0x22], (Mnemonic::LDIL, Some(Operand::DerefReg(Register::HL)), Some(Operand::Reg(Register::A))), 8),
        (vec![0x23], (Mnemonic::INC, Some(Operand::Reg(Register::HL)), None), 8),
        (vec![0x2A], (Mnemonic::LDIR, Some(Operand::Reg(Register::A)), Some(Operand::DerefReg(Register::HL))), 8),
        (vec![0x35], (Mnemonic::DEC, Some(Operand::DerefReg(Register::HL)), None), 12),
        (vec![0x3A], (Mnemonic::LDDR, Some(Operand::Reg(Register::A)), Some(Operand::DerefReg(Register::HL))), 8),
        (vec![0x46], ld(Operand::Reg(Register::B), Operand::DerefReg(Register::HL)), 8),
        (vec![0x58], ld(Operand::Reg(Register::E), Operand::Reg(Register::B)), 4),
        (vec![0x59], ld(Operand::Reg(Register::E), Operand::Reg(Register::C)), 4),
        (vec![0x5D], ld(Operand::Reg(Register::E), Operand::Reg(Register::L)), 4),
        (vec![0x70], ld(Operand::DerefReg(Register::HL), Operand::Reg(Register::B)), 8),
        (vec![0x76], (Mnemonic::HALT, None, None), 4),
        (vec![0x7C], ld(Operand::Reg(Register::A), Operand::Reg(Register::H)), 4),
    ];
    for (bytes, (m, lhs, rhs), cycles) in rows {
        let inst = decode_one(&bytes);
        assert_eq!((inst.mnemonic, inst.lhs, inst.rhs), (m, lhs, rhs), "opcode {:02X}", bytes[0]);
        assert_eq!(inst.cycles, CycleCost::Fixed(cycles), "opcode {:02X}", bytes[0]);
        assert_eq!(inst.size, bytes.len(), "opcode {:02X}", bytes[0]);
    }
}

#[test]
fn register_and_operand_widths() {
    for r in [Register::AF, Register::BC, Register::DE, Register::HL] {
        assert_eq!(r.size(), 2);
    }
    for r in [Register::A, Register::F, Register::B, Register::C, Register::D, Register::E, Register::H, Register::L, Register::SP] {
        assert_eq!(r.size(), 1);
    }
    assert_eq!(Operand::Imm8(1).size(), 1);
    assert_eq!(Operand::Imm16(1).size(), 2);
    assert_eq!(Operand::Addr8(1).size(), 1);
    assert_eq!(Operand::DerefAddr8(1).size(), 1);
    assert_eq!(Operand::Addr16(1).size(), 2);
    assert_eq!(Operand::DerefAddr16(1).size(), 2);
    assert_eq!(Operand::Rel8(1).size(), 1);
    assert_eq!(Operand::Reg(Register::HL).size(), 2);
    assert_eq!(Operand::DerefReg(Register::HL).size(), 2);
    assert_eq!(Operand::Reg(Register::A).size(), 1);
}
