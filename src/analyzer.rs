//! An analysis of one program image.
use vstd::prelude::*;

use crate::cartridge::Cartridge;
use crate::disassembler::{disassemble_result, Disassembler};
use crate::error::AnalyzerError;
use crate::instruction::Instruction;

verus! {

/// The image read from a path, ready to be disassembled.
#[derive(Debug)]
pub struct Analyzer {
    path: String,
    cartridge: Cartridge,
}

impl Analyzer {
    /// The path the image was read from.
    pub closed spec fn path_view(&self) -> Seq<char> {
        self.path@
    }

    /// The image's bytes.
    pub closed spec fn rom(&self) -> Seq<u8> {
        self.cartridge@
    }

    /// The analyzer of the image at `path`, given what reading that path gave:
    /// a cartridge, or the I/O error, which becomes
    /// [`AnalyzerError::SourceUnavailable`].
    pub fn from_path(path: &str, cartridge: Result<Cartridge, std::io::Error>) -> (r: Result<
        Analyzer,
        AnalyzerError,
    >)
        ensures
            match cartridge {
                Ok(c) => r is Ok && r->Ok_0.rom() == c@ && r->Ok_0.path_view() == path@,
                Err(e) => r is Err && r->Err_0 == AnalyzerError::SourceUnavailable(e),
            },
    {
        match cartridge {
            Ok(cartridge) => Ok(Analyzer { path: path.to_owned(), cartridge }),
            Err(e) => Err(AnalyzerError::from(e)),
        }
    }

    pub fn path(&self) -> (r: &str)
        ensures
            r@ == self.path_view(),
    {
        self.path.as_str()
    }

    /// Disassembles the whole image.
    pub fn disassemble(&self) -> (r: Result<Vec<Instruction>, AnalyzerError>)
        ensures
            disassemble_result(self.rom(), r),
    {
        Disassembler::disassemble(self.cartridge.get_bytes())
    }
}

} // verus!
