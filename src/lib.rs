//! Static disassembler for Game-Boy-class ROM images.
//!
//! A byte buffer is decoded into an ordered sequence of [`Instruction`]s by a
//! cursor walk ([`Disassembler::disassemble`]) that calls the single-instruction
//! decoder ([`Instruction::from_slice`]) at each instruction boundary. Decoding
//! goes by the opcode table of [`opcode`], which covers the opcodes 0x00 to 0x7F.
pub mod analyzer;
pub mod cartridge;
pub mod decoder;
pub mod disassembler;
pub mod error;
pub mod instruction;
pub mod opcode;

pub use analyzer::Analyzer;
pub use cartridge::Cartridge;
pub use disassembler::Disassembler;
pub use error::{AnalyzerError, DecodeError};
pub use instruction::{CycleCost, Instruction, Mnemonic, Operand, Register};
