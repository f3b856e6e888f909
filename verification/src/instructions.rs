//! Addressing modes of the 6502 and the opcode record used by the interpreter
//! side of the crate.

use vstd::prelude::*;

verus! {

/// The operand-encoding shape of an instruction. The mode decides how many
/// operand bytes an instruction carries and how they are interpreted.
#[derive(Debug, PartialEq, Eq, Hash, Clone, Copy, Structural)]
pub enum AddressMode {
    Accumulator,
    Absolute,
    AbsoluteX,
    AbsoluteY,
    Immediate,
    Implied,
    Indirect,
    IndirectX,
    IndirectY,
    Relative,
    ZeroPage,
    ZeroPageX,
    ZeroPageY,
}

/// The human-readable name of an addressing mode, as it appears in error
/// messages.
pub open spec fn mode_display(m: AddressMode) -> Seq<char> {
    match m {
        AddressMode::Accumulator => "Accumulator"@,
        AddressMode::Absolute => "Absolute"@,
        AddressMode::AbsoluteX => "Absolute X"@,
        AddressMode::AbsoluteY => "Absolute Y"@,
        AddressMode::Immediate => "Immediate"@,
        AddressMode::Implied => "Implied"@,
        AddressMode::Indirect => "Indirect"@,
        AddressMode::IndirectX => "Indirect X"@,
        AddressMode::IndirectY => "Indirect Y"@,
        AddressMode::Relative => "Relative"@,
        AddressMode::ZeroPage => "ZeroPage"@,
        AddressMode::ZeroPageX => "ZeroPage X"@,
        AddressMode::ZeroPageY => "ZeroPage Y"@,
    }
}

impl AddressMode {
    /// The display name of the mode as a string slice.
    pub fn display_name(&self) -> (r: &'static str)
        ensures
            r@ == mode_display(*self),
    {
        match self {
            AddressMode::Accumulator => "Accumulator",
            AddressMode::Absolute => "Absolute",
            AddressMode::AbsoluteX => "Absolute X",
            AddressMode::AbsoluteY => "Absolute Y",
            AddressMode::Immediate => "Immediate",
            AddressMode::Implied => "Implied",
            AddressMode::Indirect => "Indirect",
            AddressMode::IndirectX => "Indirect X",
            AddressMode::IndirectY => "Indirect Y",
            AddressMode::Relative => "Relative",
            AddressMode::ZeroPage => "ZeroPage",
            AddressMode::ZeroPageX => "ZeroPage X",
            AddressMode::ZeroPageY => "ZeroPage Y",
        }
    }
}

/// One row of the interpreter's opcode listing: the opcode byte, its
/// mnemonic, the encoded length in bytes, the base cycle count and the
/// addressing mode.
#[derive(Debug)]
pub struct OpCode {
    pub opcode: u8,
    pub mnemonic: String,
    pub len: u8,
    pub cycles: u8,
    pub address_mode: AddressMode,
}

impl OpCode {
    /// Builds an opcode record from its five parts.
    pub fn new(opcode: u8, mnemonic: String, len: u8, cycles: u8, address_mode: AddressMode) -> (r:
        Self)
        ensures
            r.opcode == opcode,
            r.mnemonic@ == mnemonic@,
            r.len == len,
            r.cycles == cycles,
            r.address_mode == address_mode,
    {
        Self { opcode, mnemonic, len, cycles, address_mode }
    }
}

} // verus!
