//! Instructions, operands and the byte encoder.
//!
//! The opcode table maps a (mnemonic, addressing mode) pair to its opcode
//! byte; [`Instruction::to_bytes`] encodes a resolved instruction as that
//! byte followed by zero, one or two little-endian operand bytes, and
//! [`Instruction::size`] gives the encoded length used by the resolver.

use vstd::prelude::*;

use crate::error::{AssemblerError, ErrorModel};
use crate::instructions::{mode_display, AddressMode};
use crate::text::{dec_str, str_eq, u32_dec_string};

verus! {

/// A numeric operand together with the addressing mode its syntax implied.
#[derive(Debug, PartialEq, Eq, Clone, Copy, Structural)]
pub struct Address {
    pub address: u32,
    pub address_mode: AddressMode,
}

/// An instruction operand: either a concrete address or a symbolic label
/// reference that resolution later rewrites.
#[derive(Debug, PartialEq, Clone)]
pub enum Operand {
    Address(Address),
    Label(String),
}

/// The model of an [`Operand`], with label names as character sequences.
pub enum OperandModel {
    Address(Address),
    Label(Seq<char>),
}

impl View for Operand {
    type V = OperandModel;

    open spec fn view(&self) -> OperandModel {
        match self {
            Operand::Address(a) => OperandModel::Address(*a),
            Operand::Label(s) => OperandModel::Label(s@),
        }
    }
}

/// A parsed instruction: its mnemonic as written and an optional operand.
#[derive(Debug, PartialEq, Clone)]
pub struct Instruction {
    pub opcode: String,
    pub operand: Option<Operand>,
}

/// The model of an [`Instruction`].
pub struct InstructionModel {
    pub opcode: Seq<char>,
    pub operand: Option<OperandModel>,
}

impl View for Instruction {
    type V = InstructionModel;

    open spec fn view(&self) -> InstructionModel {
        InstructionModel {
            opcode: self.opcode@,
            operand: match &self.operand {
                Some(o) => Some(o@),
                None => None,
            },
        }
    }
}

/// Opcode bytes of the mnemonics that take no operand.
pub open spec fn implied_opcode(m: Seq<char>) -> Option<u8> {
    if m == "BRK"@ {
        Some(0x00u8)
    } else if m == "NOP"@ {
        Some(0xEAu8)
    } else if m == "RTI"@ {
        Some(0x40u8)
    } else if m == "RTS"@ {
        Some(0x60u8)
    } else if m == "CLC"@ {
        Some(0x18u8)
    } else if m == "SEC"@ {
        Some(0x38u8)
    } else if m == "CLI"@ {
        Some(0x58u8)
    } else if m == "SEI"@ {
        Some(0x78u8)
    } else if m == "CLV"@ {
        Some(0xB8u8)
    } else if m == "CLD"@ {
        Some(0xD8u8)
    } else if m == "SED"@ {
        Some(0xF8u8)
    } else if m == "TXS"@ {
        Some(0x9Au8)
    } else if m == "TSX"@ {
        Some(0xBAu8)
    } else if m == "PHA"@ {
        Some(0x48u8)
    } else if m == "PLA"@ {
        Some(0x68u8)
    } else if m == "PHP"@ {
        Some(0x08u8)
    } else if m == "PLP"@ {
        Some(0x28u8)
    } else if m == "TAX"@ {
        Some(0xAAu8)
    } else if m == "TXA"@ {
        Some(0x8Au8)
    } else if m == "DEX"@ {
        Some(0xCAu8)
    } else if m == "INX"@ {
        Some(0xE8u8)
    } else if m == "TAY"@ {
        Some(0xA8u8)
    } else if m == "TYA"@ {
        Some(0x98u8)
    } else if m == "DEY"@ {
        Some(0x88u8)
    } else if m == "INY"@ {
        Some(0xC8u8)
    } else {
        None
    }
}

/// Opcode bytes of the relative-branch mnemonics.
pub open spec fn relative_opcode(m: Seq<char>) -> Option<u8> {
    if m == "BPL"@ {
        Some(0x10u8)
    } else if m == "BMI"@ {
        Some(0x30u8)
    } else if m == "BVC"@ {
        Some(0x50u8)
    } else if m == "BVS"@ {
        Some(0x70u8)
    } else if m == "BCC"@ {
        Some(0x90u8)
    } else if m == "BCS"@ {
        Some(0xB0u8)
    } else if m == "BNE"@ {
        Some(0xD0u8)
    } else if m == "BEQ"@ {
        Some(0xF0u8)
    } else {
        None
    }
}

/// Opcode bytes in accumulator mode.
pub open spec fn accumulator_opcode(m: Seq<char>) -> Option<u8> {
    if m == "ASL"@ {
        Some(0x0Au8)
    } else if m == "LSR"@ {
        Some(0x4Au8)
    } else if m == "ROL"@ {
        Some(0x2Au8)
    } else if m == "ROR"@ {
        Some(0x6Au8)
    } else {
        None
    }
}

/// Opcode bytes in immediate mode.
pub open spec fn immediate_opcode(m: Seq<char>) -> Option<u8> {
    if m == "ADC"@ {
        Some(0x69u8)
    } else if m == "AND"@ {
        Some(0x29u8)
    } else if m == "CMP"@ {
        Some(0xC9u8)
    } else if m == "CPX"@ {
        Some(0xE0u8)
    } else if m == "CPY"@ {
        Some(0xC0u8)
    } else if m == "EOR"@ {
        Some(0x49u8)
    } else if m == "LDA"@ {
        Some(0xA9u8)
    } else if m == "LDX"@ {
        Some(0xA2u8)
    } else if m == "LDY"@ {
        Some(0xA0u8)
    } else if m == "ORA"@ {
        Some(0x09u8)
    } else if m == "SBC"@ {
        Some(0xE9u8)
    } else {
        None
    }
}

/// Opcode bytes in zero-page mode.
pub open spec fn zero_page_opcode(m: Seq<char>) -> Option<u8> {
    if m == "ADC"@ {
        Some(0x65u8)
    } else if m == "AND"@ {
        Some(0x25u8)
    } else if m == "ASL"@ {
        Some(0x06u8)
    } else if m == "BIT"@ {
        Some(0x24u8)
    } else if m == "CMP"@ {
        Some(0xC5u8)
    } else if m == "CPX"@ {
        Some(0xE4u8)
    } else if m == "CPY"@ {
        Some(0xC4u8)
    } else if m == "DEC"@ {
        Some(0xC6u8)
    } else if m == "EOR"@ {
        Some(0x45u8)
    } else if m == "INC"@ {
        Some(0xE6u8)
    } else if m == "LDA"@ {
        Some(0xA5u8)
    } else if m == "LDX"@ {
        Some(0xA6u8)
    } else if m == "LDY"@ {
        Some(0xA4u8)
    } else if m == "LSR"@ {
        Some(0x46u8)
    } else if m == "ORA"@ {
        Some(0x05u8)
    } else if m == "ROL"@ {
        Some(0x26u8)
    } else if m == "ROR"@ {
        Some(0x66u8)
    } else if m == "SBC"@ {
        Some(0xE5u8)
    } else if m == "STA"@ {
        Some(0x85u8)
    } else if m == "STX"@ {
        Some(0x86u8)
    } else if m == "STY"@ {
        Some(0x84u8)
    } else {
        None
    }
}

/// Opcode bytes in zero-page,X mode.
pub open spec fn zero_page_x_opcode(m: Seq<char>) -> Option<u8> {
    if m == "ADC"@ {
        Some(0x75u8)
    } else if m == "AND"@ {
        Some(0x35u8)
    } else if m == "ASL"@ {
        Some(0x16u8)
    } else if m == "CMP"@ {
        Some(0xD5u8)
    } else if m == "DEC"@ {
        Some(0xD6u8)
    } else if m == "EOR"@ {
        Some(0x55u8)
    } else if m == "INC"@ {
        Some(0xF6u8)
    } else if m == "LDA"@ {
        Some(0xB5u8)
    } else if m == "LDY"@ {
        Some(0xB4u8)
    } else if m == "LSR"@ {
        Some(0x56u8)
    } else if m == "ORA"@ {
        Some(0x15u8)
    } else if m == "ROL"@ {
        Some(0x36u8)
    } else if m == "ROR"@ {
        Some(0x76u8)
    } else if m == "SBC"@ {
        Some(0xF5u8)
    } else if m == "STA"@ {
        Some(0x95u8)
    } else if m == "STY"@ {
        Some(0x94u8)
    } else {
        None
    }
}

/// Opcode bytes in zero-page,Y mode.
pub open spec fn zero_page_y_opcode(m: Seq<char>) -> Option<u8> {
    if m == "LDX"@ {
        Some(0xB6u8)
    } else if m == "STX"@ {
        Some(0x96u8)
    } else {
        None
    }
}

/// Opcode bytes in absolute mode.
pub open spec fn absolute_opcode(m: Seq<char>) -> Option<u8> {
    if m == "ADC"@ {
        Some(0x6Du8)
    } else if m == "AND"@ {
        Some(0x2Du8)
    } else if m == "ASL"@ {
        Some(0x0Eu8)
    } else if m == "BIT"@ {
        Some(0x2Cu8)
    } else if m == "CMP"@ {
        Some(0xCDu8)
    } else if m == "CPX"@ {
        Some(0xECu8)
    } else if m == "CPY"@ {
        Some(0xCCu8)
    } else if m == "DEC"@ {
        Some(0xCEu8)
    } else if m == "EOR"@ {
        Some(0x4Du8)
    } else if m == "INC"@ {
        Some(0xEEu8)
    } else if m == "JMP"@ {
        Some(0x4Cu8)
    } else if m == "JSR"@ {
        Some(0x20u8)
    } else if m == "LDA"@ {
        Some(0xADu8)
    } else if m == "LDX"@ {
        Some(0xAEu8)
    } else if m == "LDY"@ {
        Some(0xACu8)
    } else if m == "LSR"@ {
        Some(0x4Eu8)
    } else if m == "ORA"@ {
        Some(0x0Du8)
    } else if m == "ROL"@ {
        Some(0x2Eu8)
    } else if m == "ROR"@ {
        Some(0x6Eu8)
    } else if m == "SBC"@ {
        Some(0xEDu8)
    } else if m == "STA"@ {
        Some(0x8Du8)
    } else if m == "STX"@ {
        Some(0x8Eu8)
    } else if m == "STY"@ {
        Some(0x8Cu8)
    } else {
        None
    }
}

/// Opcode bytes in absolute,X mode.
pub open spec fn absolute_x_opcode(m: Seq<char>) -> Option<u8> {
    if m == "ADC"@ {
        Some(0x7Du8)
    } else if m == "AND"@ {
        Some(0x3Du8)
    } else if m == "ASL"@ {
        Some(0x1Eu8)
    } else if m == "CMP"@ {
        Some(0xDDu8)
    } else if m == "DEC"@ {
        Some(0xDEu8)
    } else if m == "EOR"@ {
        Some(0x5Du8)
    } else if m == "INC"@ {
        Some(0xFEu8)
    } else if m == "LDA"@ {
        Some(0xBDu8)
    } else if m == "LDY"@ {
        Some(0xBCu8)
    } else if m == "LSR"@ {
        Some(0x5Eu8)
    } else if m == "ORA"@ {
        Some(0x1Du8)
    } else if m == "ROL"@ {
        Some(0x3Eu8)
    } else if m == "ROR"@ {
        Some(0x7Eu8)
    } else if m == "SBC"@ {
        Some(0xFDu8)
    } else if m == "STA"@ {
        Some(0x9Du8)
    } else {
        None
    }
}

/// Opcode bytes in absolute,Y mode.
pub open spec fn absolute_y_opcode(m: Seq<char>) -> Option<u8> {
    if m == "ADC"@ {
        Some(0x79u8)
    } else if m == "AND"@ {
        Some(0x39u8)
    } else if m == "CMP"@ {
        Some(0xD9u8)
    } else if m == "EOR"@ {
        Some(0x59u8)
    } else if m == "LDA"@ {
        Some(0xB9u8)
    } else if m == "LDX"@ {
        Some(0xBEu8)
    } else if m == "ORA"@ {
        Some(0x19u8)
    } else if m == "SBC"@ {
        Some(0xF9u8)
    } else if m == "STA"@ {
        Some(0x99u8)
    } else {
        None
    }
}

/// Opcode bytes in indirect mode.
pub open spec fn indirect_opcode(m: Seq<char>) -> Option<u8> {
    if m == "JMP"@ {
        Some(0x6Cu8)
    } else {
        None
    }
}

/// Opcode bytes in indexed-indirect (zero page,X) mode.
pub open spec fn indirect_x_opcode(m: Seq<char>) -> Option<u8> {
    if m == "ADC"@ {
        Some(0x61u8)
    } else if m == "AND"@ {
        Some(0x21u8)
    } else if m == "CMP"@ {
        Some(0xC1u8)
    } else if m == "EOR"@ {
        Some(0x41u8)
    } else if m == "LDA"@ {
        Some(0xA1u8)
    } else if m == "ORA"@ {
        Some(0x01u8)
    } else if m == "SBC"@ {
        Some(0xE1u8)
    } else if m == "STA"@ {
        Some(0x81u8)
    } else {
        None
    }
}

/// Opcode bytes in indirect-indexed (zero page),Y mode.
pub open spec fn indirect_y_opcode(m: Seq<char>) -> Option<u8> {
    if m == "ADC"@ {
        Some(0x71u8)
    } else if m == "AND"@ {
        Some(0x31u8)
    } else if m == "CMP"@ {
        Some(0xD1u8)
    } else if m == "EOR"@ {
        Some(0x51u8)
    } else if m == "LDA"@ {
        Some(0xB1u8)
    } else if m == "ORA"@ {
        Some(0x11u8)
    } else if m == "SBC"@ {
        Some(0xF1u8)
    } else if m == "STA"@ {
        Some(0x91u8)
    } else {
        None
    }
}

/// The opcode byte for a mnemonic in a given addressing mode, if the pair is
/// part of the instruction set. Mnemonics are matched case-sensitively.
pub open spec fn opcode_entry(m: Seq<char>, mode: AddressMode) -> Option<u8> {
    match mode {
        AddressMode::Implied => implied_opcode(m),
        AddressMode::Relative => relative_opcode(m),
        AddressMode::Accumulator => accumulator_opcode(m),
        AddressMode::Immediate => immediate_opcode(m),
        AddressMode::ZeroPage => zero_page_opcode(m),
        AddressMode::ZeroPageX => zero_page_x_opcode(m),
        AddressMode::ZeroPageY => zero_page_y_opcode(m),
        AddressMode::Absolute => absolute_opcode(m),
        AddressMode::AbsoluteX => absolute_x_opcode(m),
        AddressMode::AbsoluteY => absolute_y_opcode(m),
        AddressMode::Indirect => indirect_opcode(m),
        AddressMode::IndirectX => indirect_x_opcode(m),
        AddressMode::IndirectY => indirect_y_opcode(m),
    }
}

fn lookup_implied(m: &str) -> (r: Option<u8>)
    ensures
        r == implied_opcode(m@),
{
    if str_eq(m, "BRK") {
        Some(0x00)
    } else if str_eq(m, "NOP") {
        Some(0xEA)
    } else if str_eq(m, "RTI") {
        Some(0x40)
    } else if str_eq(m, "RTS") {
        Some(0x60)
    } else if str_eq(m, "CLC") {
        Some(0x18)
    } else if str_eq(m, "SEC") {
        Some(0x38)
    } else if str_eq(m, "CLI") {
        Some(0x58)
    } else if str_eq(m, "SEI") {
        Some(0x78)
    } else if str_eq(m, "CLV") {
        Some(0xB8)
    } else if str_eq(m, "CLD") {
        Some(0xD8)
    } else if str_eq(m, "SED") {
        Some(0xF8)
    } else if str_eq(m, "TXS") {
        Some(0x9A)
    } else if str_eq(m, "TSX") {
        Some(0xBA)
    } else if str_eq(m, "PHA") {
        Some(0x48)
    } else if str_eq(m, "PLA") {
        Some(0x68)
    } else if str_eq(m, "PHP") {
        Some(0x08)
    } else if str_eq(m, "PLP") {
        Some(0x28)
    } else if str_eq(m, "TAX") {
        Some(0xAA)
    } else if str_eq(m, "TXA") {
        Some(0x8A)
    } else if str_eq(m, "DEX") {
        Some(0xCA)
    } else if str_eq(m, "INX") {
        Some(0xE8)
    } else if str_eq(m, "TAY") {
        Some(0xA8)
    } else if str_eq(m, "TYA") {
        Some(0x98)
    } else if str_eq(m, "DEY") {
        Some(0x88)
    } else if str_eq(m, "INY") {
        Some(0xC8)
    } else {
        None
    }
}

fn lookup_relative(m: &str) -> (r: Option<u8>)
    ensures
        r == relative_opcode(m@),
{
    if str_eq(m, "BPL") {
        Some(0x10)
    } else if str_eq(m, "BMI") {
        Some(0x30)
    } else if str_eq(m, "BVC") {
        Some(0x50)
    } else if str_eq(m, "BVS") {
        Some(0x70)
    } else if str_eq(m, "BCC") {
        Some(0x90)
    } else if str_eq(m, "BCS") {
        Some(0xB0)
    } else if str_eq(m, "BNE") {
        Some(0xD0)
    } else if str_eq(m, "BEQ") {
        Some(0xF0)
    } else {
        None
    }
}

fn lookup_accumulator(m: &str) -> (r: Option<u8>)
    ensures
        r == accumulator_opcode(m@),
{
    if str_eq(m, "ASL") {
        Some(0x0A)
    } else if str_eq(m, "LSR") {
        Some(0x4A)
    } else if str_eq(m, "ROL") {
        Some(0x2A)
    } else if str_eq(m, "ROR") {
        Some(0x6A)
    } else {
        None
    }
}

fn lookup_immediate(m: &str) -> (r: Option<u8>)
    ensures
        r == immediate_opcode(m@),
{
    if str_eq(m, "ADC") {
        Some(0x69)
    } else if str_eq(m, "AND") {
        Some(0x29)
    } else if str_eq(m, "CMP") {
        Some(0xC9)
    } else if str_eq(m, "CPX") {
        Some(0xE0)
    } else if str_eq(m, "CPY") {
        Some(0xC0)
    } else if str_eq(m, "EOR") {
        Some(0x49)
    } else if str_eq(m, "LDA") {
        Some(0xA9)
    } else if str_eq(m, "LDX") {
        Some(0xA2)
    } else if str_eq(m, "LDY") {
        Some(0xA0)
    } else if str_eq(m, "ORA") {
        Some(0x09)
    } else if str_eq(m, "SBC") {
        Some(0xE9)
    } else {
        None
    }
}

fn lookup_zero_page(m: &str) -> (r: Option<u8>)
    ensures
        r == zero_page_opcode(m@),
{
    if str_eq(m, "ADC") {
        Some(0x65)
    } else if str_eq(m, "AND") {
        Some(0x25)
    } else if str_eq(m, "ASL") {
        Some(0x06)
    } else if str_eq(m, "BIT") {
        Some(0x24)
    } else if str_eq(m, "CMP") {
        Some(0xC5)
    } else if str_eq(m, "CPX") {
        Some(0xE4)
    } else if str_eq(m, "CPY") {
        Some(0xC4)
    } else if str_eq(m, "DEC") {
        Some(0xC6)
    } else if str_eq(m, "EOR") {
        Some(0x45)
    } else if str_eq(m, "INC") {
        Some(0xE6)
    } else if str_eq(m, "LDA") {
        Some(0xA5)
    } else if str_eq(m, "LDX") {
        Some(0xA6)
    } else if str_eq(m, "LDY") {
        Some(0xA4)
    } else if str_eq(m, "LSR") {
        Some(0x46)
    } else if str_eq(m, "ORA") {
        Some(0x05)
    } else if str_eq(m, "ROL") {
        Some(0x26)
    } else if str_eq(m, "ROR") {
        Some(0x66)
    } else if str_eq(m, "SBC") {
        Some(0xE5)
    } else if str_eq(m, "STA") {
        Some(0x85)
    } else if str_eq(m, "STX") {
        Some(0x86)
    } else if str_eq(m, "STY") {
        Some(0x84)
    } else {
        None
    }
}

fn lookup_zero_page_x(m: &str) -> (r: Option<u8>)
    ensures
        r == zero_page_x_opcode(m@),
{
    if str_eq(m, "ADC") {
        Some(0x75)
    } else if str_eq(m, "AND") {
        Some(0x35)
    } else if str_eq(m, "ASL") {
        Some(0x16)
    } else if str_eq(m, "CMP") {
        Some(0xD5)
    } else if str_eq(m, "DEC") {
        Some(0xD6)
    } else if str_eq(m, "EOR") {
        Some(0x55)
    } else if str_eq(m, "INC") {
        Some(0xF6)
    } else if str_eq(m, "LDA") {
        Some(0xB5)
    } else if str_eq(m, "LDY") {
        Some(0xB4)
    } else if str_eq(m, "LSR") {
        Some(0x56)
    } else if str_eq(m, "ORA") {
        Some(0x15)
    } else if str_eq(m, "ROL") {
        Some(0x36)
    } else if str_eq(m, "ROR") {
        Some(0x76)
    } else if str_eq(m, "SBC") {
        Some(0xF5)
    } else if str_eq(m, "STA") {
        Some(0x95)
    } else if str_eq(m, "STY") {
        Some(0x94)
    } else {
        None
    }
}

fn lookup_zero_page_y(m: &str) -> (r: Option<u8>)
    ensures
        r == zero_page_y_opcode(m@),
{
    if str_eq(m, "LDX") {
        Some(0xB6)
    } else if str_eq(m, "STX") {
        Some(0x96)
    } else {
        None
    }
}

fn lookup_absolute(m: &str) -> (r: Option<u8>)
    ensures
        r == absolute_opcode(m@),
{
    if str_eq(m, "ADC") {
        Some(0x6D)
    } else if str_eq(m, "AND") {
        Some(0x2D)
    } else if str_eq(m, "ASL") {
        Some(0x0E)
    } else if str_eq(m, "BIT") {
        Some(0x2C)
    } else if str_eq(m, "CMP") {
        Some(0xCD)
    } else if str_eq(m, "CPX") {
        Some(0xEC)
    } else if str_eq(m, "CPY") {
        Some(0xCC)
    } else if str_eq(m, "DEC") {
        Some(0xCE)
    } else if str_eq(m, "EOR") {
        Some(0x4D)
    } else if str_eq(m, "INC") {
        Some(0xEE)
    } else if str_eq(m, "JMP") {
        Some(0x4C)
    } else if str_eq(m, "JSR") {
        Some(0x20)
    } else if str_eq(m, "LDA") {
        Some(0xAD)
    } else if str_eq(m, "LDX") {
        Some(0xAE)
    } else if str_eq(m, "LDY") {
        Some(0xAC)
    } else if str_eq(m, "LSR") {
        Some(0x4E)
    } else if str_eq(m, "ORA") {
        Some(0x0D)
    } else if str_eq(m, "ROL") {
        Some(0x2E)
    } else if str_eq(m, "ROR") {
        Some(0x6E)
    } else if str_eq(m, "SBC") {
        Some(0xED)
    } else if str_eq(m, "STA") {
        Some(0x8D)
    } else if str_eq(m, "STX") {
        Some(0x8E)
    } else if str_eq(m, "STY") {
        Some(0x8C)
    } else {
        None
    }
}

fn lookup_absolute_x(m: &str) -> (r: Option<u8>)
    ensures
        r == absolute_x_opcode(m@),
{
    if str_eq(m, "ADC") {
        Some(0x7D)
    } else if str_eq(m, "AND") {
        Some(0x3D)
    } else if str_eq(m, "ASL") {
        Some(0x1E)
    } else if str_eq(m, "CMP") {
        Some(0xDD)
    } else if str_eq(m, "DEC") {
        Some(0xDE)
    } else if str_eq(m, "EOR") {
        Some(0x5D)
    } else if str_eq(m, "INC") {
        Some(0xFE)
    } else if str_eq(m, "LDA") {
        Some(0xBD)
    } else if str_eq(m, "LDY") {
        Some(0xBC)
    } else if str_eq(m, "LSR") {
        Some(0x5E)
    } else if str_eq(m, "ORA") {
        Some(0x1D)
    } else if str_eq(m, "ROL") {
        Some(0x3E)
    } else if str_eq(m, "ROR") {
        Some(0x7E)
    } else if str_eq(m, "SBC") {
        Some(0xFD)
    } else if str_eq(m, "STA") {
        Some(0x9D)
    } else {
        None
    }
}

fn lookup_absolute_y(m: &str) -> (r: Option<u8>)
    ensures
        r == absolute_y_opcode(m@),
{
    if str_eq(m, "ADC") {
        Some(0x79)
    } else if str_eq(m, "AND") {
        Some(0x39)
    } else if str_eq(m, "CMP") {
        Some(0xD9)
    } else if str_eq(m, "EOR") {
        Some(0x59)
    } else if str_eq(m, "LDA") {
        Some(0xB9)
    } else if str_eq(m, "LDX") {
        Some(0xBE)
    } else if str_eq(m, "ORA") {
        Some(0x19)
    } else if str_eq(m, "SBC") {
        Some(0xF9)
    } else if str_eq(m, "STA") {
        Some(0x99)
    } else {
        None
    }
}

fn lookup_indirect(m: &str) -> (r: Option<u8>)
    ensures
        r == indirect_opcode(m@),
{
    if str_eq(m, "JMP") {
        Some(0x6C)
    } else {
        None
    }
}

fn lookup_indirect_x(m: &str) -> (r: Option<u8>)
    ensures
        r == indirect_x_opcode(m@),
{
    if str_eq(m, "ADC") {
        Some(0x61)
    } else if str_eq(m, "AND") {
        Some(0x21)
    } else if str_eq(m, "CMP") {
        Some(0xC1)
    } else if str_eq(m, "EOR") {
        Some(0x41)
    } else if str_eq(m, "LDA") {
        Some(0xA1)
    } else if str_eq(m, "ORA") {
        Some(0x01)
    } else if str_eq(m, "SBC") {
        Some(0xE1)
    } else if str_eq(m, "STA") {
        Some(0x81)
    } else {
        None
    }
}

fn lookup_indirect_y(m: &str) -> (r: Option<u8>)
    ensures
        r == indirect_y_opcode(m@),
{
    if str_eq(m, "ADC") {
        Some(0x71)
    } else if str_eq(m, "AND") {
        Some(0x31)
    } else if str_eq(m, "CMP") {
        Some(0xD1)
    } else if str_eq(m, "EOR") {
        Some(0x51)
    } else if str_eq(m, "LDA") {
        Some(0xB1)
    } else if str_eq(m, "ORA") {
        Some(0x11)
    } else if str_eq(m, "SBC") {
        Some(0xF1)
    } else if str_eq(m, "STA") {
        Some(0x91)
    } else {
        None
    }
}

/// Looks up the opcode byte for a mnemonic and an addressing mode.
pub fn opcode_lookup(m: &str, mode: AddressMode) -> (r: Option<u8>)
    ensures
        r == opcode_entry(m@, mode),
{
    match mode {
        AddressMode::Implied => lookup_implied(m),
        AddressMode::Relative => lookup_relative(m),
        AddressMode::Accumulator => lookup_accumulator(m),
        AddressMode::Immediate => lookup_immediate(m),
        AddressMode::ZeroPage => lookup_zero_page(m),
        AddressMode::ZeroPageX => lookup_zero_page_x(m),
        AddressMode::ZeroPageY => lookup_zero_page_y(m),
        AddressMode::Absolute => lookup_absolute(m),
        AddressMode::AbsoluteX => lookup_absolute_x(m),
        AddressMode::AbsoluteY => lookup_absolute_y(m),
        AddressMode::Indirect => lookup_indirect(m),
        AddressMode::IndirectX => lookup_indirect_x(m),
        AddressMode::IndirectY => lookup_indirect_y(m),
    }
}

/// Modes whose operand is encoded as a 16-bit little-endian word.
pub open spec fn mode_takes_word(m: AddressMode) -> bool {
    m == AddressMode::Absolute || m == AddressMode::AbsoluteX || m == AddressMode::AbsoluteY
}

/// Modes whose operand is encoded as a single byte.
pub open spec fn mode_takes_byte(m: AddressMode) -> bool {
    m == AddressMode::ZeroPage || m == AddressMode::ZeroPageX || m == AddressMode::ZeroPageY || m
        == AddressMode::Indirect || m == AddressMode::IndirectY || m == AddressMode::Immediate
}

/// The addressing mode under which an instruction is encoded: the operand's
/// own mode where there is a concrete address, implied otherwise, with `JSR`
/// always forced to absolute.
pub open spec fn spec_effective_mode(i: InstructionModel) -> AddressMode {
    let base = match i.operand {
        Some(OperandModel::Address(a)) => a.address_mode,
        _ => AddressMode::Implied,
    };
    if i.opcode == "JSR"@ {
        AddressMode::Absolute
    } else {
        base
    }
}

/// How an address is named in an out-of-range error message.
pub open spec fn address_display(a: Address) -> Seq<char> {
    "Address Mode - "@ + mode_display(a.address_mode) + ", Address: "@ + dec_str(a.address as int)
}

/// The byte sequence an instruction encodes to: the opcode byte, then the
/// operand bytes its effective mode asks for, little-endian.
pub open spec fn spec_to_bytes(i: InstructionModel) -> Result<Seq<u8>, ErrorModel> {
    let mode = spec_effective_mode(i);
    match opcode_entry(i.opcode, mode) {
        None => Err(ErrorModel::OpCodeConversionError(i.opcode)),
        Some(op) => match i.operand {
            Some(OperandModel::Address(a)) => if mode_takes_word(mode) {
                if a.address > 0xFFFF {
                    Err(ErrorModel::OperandOutOfRange(address_display(a)))
                } else {
                    Ok(seq![op, (a.address as int % 256) as u8, (a.address as int / 256) as u8])
                }
            } else if mode_takes_byte(mode) {
                if a.address > 0xFF {
                    Err(ErrorModel::OperandOutOfRange(address_display(a)))
                } else {
                    Ok(seq![op, a.address as u8])
                }
            } else {
                Ok(seq![op])
            },
            _ => Ok(seq![op]),
        },
    }
}

/// The encoded length the resolver assumes for an instruction: three bytes
/// for the absolute family, two for single-operand-byte modes, one
/// otherwise, with an unresolved label counted as absolute.
pub open spec fn spec_size(i: InstructionModel) -> u8 {
    let mode = match i.operand {
        Some(OperandModel::Address(a)) => a.address_mode,
        Some(OperandModel::Label(_)) => AddressMode::Absolute,
        None => AddressMode::Implied,
    };
    if mode_takes_word(mode) {
        3
    } else if mode_takes_byte(mode) {
        2
    } else {
        1
    }
}

impl Instruction {
    /// Encodes the instruction, or says why it cannot be encoded: an unknown
    /// (mnemonic, mode) pair is an opcode-conversion failure, an address
    /// wider than the mode allows is an out-of-range failure.
    pub fn to_bytes(&self) -> (r: Result<Vec<u8>, AssemblerError>)
        ensures
            match spec_to_bytes(self@) {
                Ok(bs) => r matches Ok(v) && v@ == bs,
                Err(e) => r matches Err(err) && err@ == e,
            },
    {
        let mut bytes: Vec<u8> = Vec::new();

        let mut address_mode = match &self.operand {
            Some(operand) => match operand {
                Operand::Address(address) => address.address_mode,
                _ => AddressMode::Implied,
            },
            None => AddressMode::Implied,
        };

        if str_eq(self.opcode.as_str(), "JSR") {
            address_mode = AddressMode::Absolute;
        }

        let opcode_byte = match opcode_lookup(self.opcode.as_str(), address_mode) {
            Some(byte) => byte,
            None => {
                return Err(AssemblerError::OpCodeConversionError(self.opcode.clone()));
            },
        };

        bytes.push(opcode_byte);

        match &self.operand {
            Some(operand) => match operand {
                Operand::Address(address) => {
                    match address_mode {
                        AddressMode::Absolute | AddressMode::AbsoluteX | AddressMode::AbsoluteY => {
                            if address.address > 0xFFFF {
                                return Err(
                                    AssemblerError::OperandOutOfRange(describe_address(address)),
                                );
                            }
                            bytes.push((address.address % 256) as u8);
                            bytes.push((address.address / 256) as u8);
                        },
                        AddressMode::ZeroPage | AddressMode::ZeroPageX | AddressMode::ZeroPageY
                            | AddressMode::Indirect | AddressMode::IndirectY
                            | AddressMode::Immediate => {
                            if address.address > 0xFF {
                                return Err(
                                    AssemblerError::OperandOutOfRange(describe_address(address)),
                                );
                            }
                            bytes.push((address.address % 256) as u8);
                        },
                        _ => {},
                    }
                },
                Operand::Label(_) => {},
            },
            None => {},
        }

        proof {
            assert(bytes@ =~= spec_to_bytes(self@)->Ok_0);
        }
        Ok(bytes)
    }

    /// The number of bytes the instruction encodes to under the resolver's
    /// sizing rule.
    pub fn size(&self) -> (r: u8)
        ensures
            r == spec_size(self@),
    {
        let address_mode = match &self.operand {
            Some(operand) => match operand {
                Operand::Address(address) => address.address_mode,
                Operand::Label(_) => AddressMode::Absolute,
            },
            None => AddressMode::Implied,
        };

        match address_mode {
            AddressMode::Absolute | AddressMode::AbsoluteX | AddressMode::AbsoluteY => 3,
            AddressMode::ZeroPage | AddressMode::ZeroPageX | AddressMode::ZeroPageY
                | AddressMode::Indirect | AddressMode::IndirectY | AddressMode::Immediate => 2,
            _ => 1,
        }
    }
}

/// Renders an address the way out-of-range errors name it.
fn describe_address(a: &Address) -> (s: String)
    ensures
        s@ == address_display(*a),
{
    let mut s = String::from_str("Address Mode - ");
    s.append(a.address_mode.display_name());
    s.append(", Address: ");
    let num = u32_dec_string(a.address);
    s.append(num.as_str());
    s
}

/// Encoded length equals the sizing rule: whenever an instruction without an
/// unresolved label operand encodes successfully — excepting a `JSR` whose
/// operand mode is not absolute, which is encoded as absolute regardless —
/// the byte sequence is exactly as long as [`spec_size`] says.
pub proof fn lemma_size_matches_encoding(i: InstructionModel)
    requires
        !(i.operand matches Some(OperandModel::Label(_))),
        i.opcode == "JSR"@ ==> (i.operand matches Some(OperandModel::Address(a))
            ==> a.address_mode == AddressMode::Absolute),
        spec_to_bytes(i) is Ok,
    ensures
        spec_to_bytes(i)->Ok_0.len() == spec_size(i),
{
}

/// An address wider than its mode's operand width is always rejected: when
/// the opcode table has an entry for the instruction's effective mode but the
/// address exceeds the width that mode encodes, the encoding fails with an
/// out-of-range error naming the operand.
pub proof fn lemma_out_of_range_rejected(i: InstructionModel, a: Address)
    requires
        i.operand == Some(OperandModel::Address(a)),
        opcode_entry(i.opcode, spec_effective_mode(i)) is Some,
        (mode_takes_word(spec_effective_mode(i)) && a.address > 0xFFFF) || (mode_takes_byte(
            spec_effective_mode(i),
        ) && a.address > 0xFF),
    ensures
        spec_to_bytes(i) == Err::<Seq<u8>, ErrorModel>(
            ErrorModel::OperandOutOfRange(address_display(a)),
        ),
{
}

} // verus!

