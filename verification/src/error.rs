//! The error type of the assembler and its mathematical model.

use vstd::prelude::*;

verus! {

/// Everything that can go wrong between reading source text and producing
/// bytes. Parse-stage errors carry the 1-based line number of the offending
/// line; message payloads are human-readable text.
#[derive(Debug, PartialEq)]
pub enum AssemblerError {
    /// A low-level grammar failure, surfaced with the text it concerns.
    ParseErrorNom(String),
    /// A syntactic failure tagged with its line.
    ParseError { msg: String, line: usize },
    /// A read or write failure at the boundary.
    IOError(String),
    /// An operand that cannot be used where it stands.
    InvalidOperand(String),
    /// Input ended in the middle of a construct.
    IncompleteInput,
    /// An unknown mnemonic, or a mode the mnemonic does not allow.
    InvalidOpCode { msg: String, line: usize },
    /// No opcode byte exists for the instruction's mnemonic and mode.
    OpCodeConversionError(String),
    /// An address wider than its addressing mode allows.
    OperandOutOfRange(String),
    /// A directive name the assembler does not know.
    InvalidDirective(String),
    /// A label reference that no definition satisfies.
    InvalidLabel { msg: String, line: usize },
    /// More program bytes than the ROM image can hold.
    ProgramTooLarge,
}

/// The model of an [`AssemblerError`]: the same shape with text as character
/// sequences.
pub enum ErrorModel {
    ParseErrorNom(Seq<char>),
    ParseError { msg: Seq<char>, line: usize },
    IOError(Seq<char>),
    InvalidOperand(Seq<char>),
    IncompleteInput,
    InvalidOpCode { msg: Seq<char>, line: usize },
    OpCodeConversionError(Seq<char>),
    OperandOutOfRange(Seq<char>),
    InvalidDirective(Seq<char>),
    InvalidLabel { msg: Seq<char>, line: usize },
    ProgramTooLarge,
}

impl View for AssemblerError {
    type V = ErrorModel;

    open spec fn view(&self) -> ErrorModel {
        match self {
            AssemblerError::ParseErrorNom(s) => ErrorModel::ParseErrorNom(s@),
            AssemblerError::ParseError { msg, line } => ErrorModel::ParseError {
                msg: msg@,
                line: *line,
            },
            AssemblerError::IOError(s) => ErrorModel::IOError(s@),
            AssemblerError::InvalidOperand(s) => ErrorModel::InvalidOperand(s@),
            AssemblerError::IncompleteInput => ErrorModel::IncompleteInput,
            AssemblerError::InvalidOpCode { msg, line } => ErrorModel::InvalidOpCode {
                msg: msg@,
                line: *line,
            },
            AssemblerError::OpCodeConversionError(s) => ErrorModel::OpCodeConversionError(s@),
            AssemblerError::OperandOutOfRange(s) => ErrorModel::OperandOutOfRange(s@),
            AssemblerError::InvalidDirective(s) => ErrorModel::InvalidDirective(s@),
            AssemblerError::InvalidLabel { msg, line } => ErrorModel::InvalidLabel {
                msg: msg@,
                line: *line,
            },
            AssemblerError::ProgramTooLarge => ErrorModel::ProgramTooLarge,
        }
    }
}

} // verus!
