//! Errors of decoding and of the analysis as a whole.
use vstd::prelude::*;

verus! {

/// The I/O error of std, carried unchanged inside
/// [`AnalyzerError::SourceUnavailable`].
#[verifier::external_type_specification]
#[verifier::external_body]
pub struct ExIoError(std::io::Error);

/// Why one instruction could not be decoded.
#[derive(Debug, Clone, Copy, PartialEq, Eq, Structural)]
pub enum DecodeError {
    /// There was no byte to read an opcode from.
    TruncatedOpcode,
    /// The opcode has no row in the table.
    UnsupportedOpcode(u8),
    /// The opcode's operands need more bytes than remain: `expected` is the
    /// instruction's full size, `actual` the number of bytes that were left.
    TruncatedOperand { expected: usize, actual: usize },
}

/// Why an analysis failed.
#[derive(Debug)]
pub enum AnalyzerError {
    /// The program image could not be read.
    SourceUnavailable(std::io::Error),
    /// The instruction starting at byte `offset` could not be decoded.
    Decode { offset: usize, error: DecodeError },
}

impl From<std::io::Error> for AnalyzerError {
    fn from(err: std::io::Error) -> (r: AnalyzerError)
        ensures
            r == AnalyzerError::SourceUnavailable(err),
    {
        AnalyzerError::SourceUnavailable(err)
    }
}

impl vstd::std_specs::convert::FromSpecImpl<std::io::Error> for AnalyzerError {
    open spec fn obeys_from_spec() -> bool {
        true
    }

    open spec fn from_spec(err: std::io::Error) -> AnalyzerError {
        AnalyzerError::SourceUnavailable(err)
    }
}

} // verus!
