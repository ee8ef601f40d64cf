use gb_disasm::{AnalyzerError, CycleCost, DecodeError, Disassembler, Instruction, Mnemonic, Operand, Register};

#[test]
fn three_instructions_in_order() {
    let bytes = vec![0x00, 0x01, 0x34, 0x12, 0x10, 0x00];
    let insts = Disassembler::disassemble(&bytes).expect("disassembles");
    assert_eq!(insts.len(), 3);
    assert_eq!(insts[0].mnemonic, Mnemonic::NOP);
    assert_eq!(insts[0].size, 1);
    assert_eq!(
        insts[1],
        Instruction {
            opcode: 0x01,
            mnemonic: Mnemonic::LD,
            lhs: Some(Operand::Reg(Register::BC)),
            rhs: Some(Operand::Imm16(0x1234)),
            size: 3,
            cycles: CycleCost::Fixed(12),
        }
    );
    assert_eq!(insts[2].mnemonic, Mnemonic::STOP);
    assert_eq!(insts[2].size, 2);
    assert_eq!(insts.iter().map(|i| i.size).sum::<usize>(), 6);
}

#[test]
fn truncated_immediate_fails_at_offset_zero() {
    let r = Disassembler::disassemble(&vec![0x06]);
    assert!(matches!(
        r,
        Err(AnalyzerError::Decode {
            offset: 0,
            error: DecodeError::TruncatedOperand { expected: 2, actual: 1 }
        })
    ));
}

#[test]
fn unsupported_opcode_fails_at_offset_zero() {
    let r = Disassembler::disassemble(&vec![0xFE]);
    assert!(matches!(
        r,
        Err(AnalyzerError::Decode { offset: 0, error: DecodeError::UnsupportedOpcode(0xFE) })
    ));
}

#[test]
fn empty_buffer_gives_no_instructions() {
    let insts = Disassembler::disassemble(&Vec::new()).expect("disassembles");
    assert!(insts.is_empty());
}

#[test]
fn failure_reports_the_offset_of_the_bad_instruction() {
    let r = Disassembler::disassemble(&vec![0x00, 0x3E, 0x07, 0xC3, 0x00]);
    assert!(matches!(
        r,
        Err(AnalyzerError::Decode { offset: 3, error: DecodeError::UnsupportedOpcode(0xC3) })
    ));
    let r = Disassembler::disassemble(&vec![0x00, 0x00, 0x21, 0x00]);
    assert!(matches!(
        r,
        Err(AnalyzerError::Decode {
            offset: 2,
            error: DecodeError::TruncatedOperand { expected: 3, actual: 2 }
        })
    ));
}

#[test]
fn instructions_partition_the_buffer() {
    let bytes: Vec<u8> = vec![
        0x31, 0xFE, 0xFF, 0x2F, 0x21, 0xFF, 0x9F, 0x32, 0x20, 0xFB, 0x76, 0x08, 0x00, 0xD0, 0x00,
    ];
    let insts = Disassembler::disassemble(&bytes).expect("disassembles");
    let mut start = 0;
    for inst in &insts {
        assert!(inst.size >= 1);
        assert_eq!(inst.opcode, bytes[start]);
        assert_eq!(Instruction::from_slice(&bytes[start..]), Ok(*inst));
        start += inst.size;
    }
    assert_eq!(start, bytes.len());
    assert_eq!(insts.len(), 8);
    assert_eq!(insts[4].cycles, CycleCost::Branch { taken: 12, not_taken: 8 });
}
