//! A verified assembler for the 6502 instruction set.
//!
//! Source text is parsed line by line into typed records, each instruction is
//! checked against the legal addressing modes of its mnemonic, labels are
//! resolved in two passes, and the resolved instructions are encoded to bytes,
//! either as a raw binary or as a padded ROM image with interrupt vectors.
//! A small interpreter for a handful of opcodes consumes the produced bytes.

pub mod assemble;
pub mod cpu;
pub mod directive;
pub mod error;
pub mod instruction;
pub mod instructions;
pub mod parser;
pub mod process;
pub mod text;
pub mod validation;
