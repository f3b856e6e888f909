//! Per-mnemonic validation of parsed instructions.
//!
//! Every supported mnemonic has a fixed whitelist of legal addressing modes.
//! Validation checks that an operand is present exactly when the mnemonic
//! takes one and that its mode is in the whitelist; label operands are
//! rejected for most mnemonics and deferred to resolution for jumps, calls
//! and relative branches.

use vstd::prelude::*;
use vstd::string::StringExecFns;

use crate::error::{AssemblerError, ErrorModel};
use crate::instructions::{mode_display, AddressMode};
use crate::instruction::{Instruction, InstructionModel, Operand, OperandModel};
use crate::text::{chars_eq_str_ignore_case, chars_of, eq_ignore_ascii_case};

verus! {

/// What one mnemonic accepts: whether it takes no operand at all, which
/// addressing modes it allows, whether a label operand passes, and which word
/// its missing-operand message uses.
#[derive(Debug, PartialEq, Eq, Clone, Copy, Structural)]
pub struct ValidationRule {
    /// The mnemonic takes no operand.
    pub no_operand: bool,
    /// The missing-operand message says "operand" rather than "address".
    pub says_operand: bool,
    /// A label operand is accepted and left to the resolver.
    pub label_ok: bool,
    pub accumulator: bool,
    pub absolute: bool,
    pub absolute_x: bool,
    pub absolute_y: bool,
    pub immediate: bool,
    pub indirect: bool,
    pub indirect_x: bool,
    pub indirect_y: bool,
    pub relative: bool,
    pub zero_page: bool,
    pub zero_page_x: bool,
    pub zero_page_y: bool,
}

/// Whether a rule allows an addressing mode.
pub open spec fn rule_allows(r: ValidationRule, m: AddressMode) -> bool {
    match m {
        AddressMode::Accumulator => r.accumulator,
        AddressMode::Absolute => r.absolute,
        AddressMode::AbsoluteX => r.absolute_x,
        AddressMode::AbsoluteY => r.absolute_y,
        AddressMode::Immediate => r.immediate,
        AddressMode::Implied => false,
        AddressMode::Indirect => r.indirect,
        AddressMode::IndirectX => r.indirect_x,
        AddressMode::IndirectY => r.indirect_y,
        AddressMode::Relative => r.relative,
        AddressMode::ZeroPage => r.zero_page,
        AddressMode::ZeroPageX => r.zero_page_x,
        AddressMode::ZeroPageY => r.zero_page_y,
    }
}

pub open spec fn msg_requires(op: Seq<char>, says_operand: bool) -> Seq<char> {
    if says_operand {
        op + " requires an operand."@
    } else {
        op + " requires an address."@
    }
}

pub open spec fn msg_takes_no_address(op: Seq<char>) -> Seq<char> {
    op + " does not take an address."@
}

pub open spec fn msg_no_labels(op: Seq<char>) -> Seq<char> {
    op + " does not support labels"@
}

pub open spec fn msg_unsupported_mode(op: Seq<char>, m: AddressMode) -> Seq<char> {
    op + " does not support "@ + mode_display(m) + " addressing."@
}

pub open spec fn msg_invalid_opcode(op: Seq<char>) -> Seq<char> {
    op + " is invalid."@
}

/// The verdict a rule gives for an instruction.
pub open spec fn spec_validate_rule(r: ValidationRule, i: InstructionModel, line: usize) -> Result<
    (),
    ErrorModel,
> {
    if r.no_operand {
        match i.operand {
            Some(_) => Err(
                ErrorModel::InvalidOpCode { msg: msg_takes_no_address(i.opcode), line },
            ),
            None => Ok(()),
        }
    } else {
        match i.operand {
            None => Err(
                ErrorModel::InvalidOpCode { msg: msg_requires(i.opcode, r.says_operand), line },
            ),
            Some(OperandModel::Address(a)) => if rule_allows(r, a.address_mode) {
                Ok(())
            } else {
                Err(
                    ErrorModel::InvalidOpCode {
                        msg: msg_unsupported_mode(i.opcode, a.address_mode),
                        line,
                    },
                )
            },
            Some(OperandModel::Label(_)) => if r.label_ok {
                Ok(())
            } else {
                Err(ErrorModel::InvalidOpCode { msg: msg_no_labels(i.opcode), line })
            },
        }
    }
}

/// Checks an instruction against a rule, producing the rule's verdict.
fn validate_rule(instr: &Instruction, line_num: usize, r: ValidationRule) -> (res: Result<
    (),
    AssemblerError,
>)
    ensures
        match spec_validate_rule(r, instr@, line_num) {
            Ok(()) => res is Ok,
            Err(e) => res matches Err(err) && err@ == e,
        },
{
    if r.no_operand {
        if instr.operand.is_some() {
            let msg = instr.opcode.clone().concat(" does not take an address.");
            return Err(AssemblerError::InvalidOpCode { msg, line: line_num });
        }
        return Ok(());
    }
    match &instr.operand {
        None => {
            let msg = if r.says_operand {
                instr.opcode.clone().concat(" requires an operand.")
            } else {
                instr.opcode.clone().concat(" requires an address.")
            };
            Err(AssemblerError::InvalidOpCode { msg, line: line_num })
        },
        Some(Operand::Address(address)) => {
            let allowed = match address.address_mode {
                AddressMode::Accumulator => r.accumulator,
                AddressMode::Absolute => r.absolute,
                AddressMode::AbsoluteX => r.absolute_x,
                AddressMode::AbsoluteY => r.absolute_y,
                AddressMode::Immediate => r.immediate,
                AddressMode::Implied => false,
                AddressMode::Indirect => r.indirect,
                AddressMode::IndirectX => r.indirect_x,
                AddressMode::IndirectY => r.indirect_y,
                AddressMode::Relative => r.relative,
                AddressMode::ZeroPage => r.zero_page,
                AddressMode::ZeroPageX => r.zero_page_x,
                AddressMode::ZeroPageY => r.zero_page_y,
            };
            if allowed {
                Ok(())
            } else {
                let msg = instr.opcode.clone().concat(" does not support ").concat(
                    address.address_mode.display_name(),
                ).concat(" addressing.");
                proof {
                    assert(msg@ =~= msg_unsupported_mode(instr@.opcode, address.address_mode));
                }
                Err(AssemblerError::InvalidOpCode { msg, line: line_num })
            }
        },
        Some(Operand::Label(_)) => {
            if r.label_ok {
                Ok(())
            } else {
                let msg = instr.opcode.clone().concat(" does not support labels");
                Err(AssemblerError::InvalidOpCode { msg, line: line_num })
            }
        },
    }
}

/// A rule allowing no operand at all.
pub open spec fn no_operand_rule() -> ValidationRule {
    ValidationRule {
        no_operand: true,
        says_operand: false,
        label_ok: false,
        accumulator: false,
        absolute: false,
        absolute_x: false,
        absolute_y: false,
        immediate: false,
        indirect: false,
        indirect_x: false,
        indirect_y: false,
        relative: false,
        zero_page: false,
        zero_page_x: false,
        zero_page_y: false,
    }
}

/// The rule of the relative-branch mnemonics: a relative-mode address or a
/// label.
pub open spec fn relative_rule() -> ValidationRule {
    ValidationRule {
        no_operand: false,
        says_operand: false,
        label_ok: true,
        accumulator: false,
        absolute: false,
        absolute_x: false,
        absolute_y: false,
        immediate: false,
        indirect: false,
        indirect_x: false,
        indirect_y: false,
        relative: true,
        zero_page: false,
        zero_page_x: false,
        zero_page_y: false,
    }
}

/// The rule of the eight-mode arithmetic and load mnemonics.
pub open spec fn full_arith_rule(says_operand: bool) -> ValidationRule {
    ValidationRule {
        no_operand: false,
        says_operand,
        label_ok: false,
        accumulator: false,
        absolute: true,
        absolute_x: true,
        absolute_y: true,
        immediate: true,
        indirect: false,
        indirect_x: true,
        indirect_y: true,
        relative: false,
        zero_page: true,
        zero_page_x: true,
        zero_page_y: false,
    }
}

/// The rule of the shift and rotate mnemonics.
pub open spec fn shift_rule(says_operand: bool) -> ValidationRule {
    ValidationRule {
        no_operand: false,
        says_operand,
        label_ok: false,
        accumulator: true,
        absolute: true,
        absolute_x: true,
        absolute_y: false,
        immediate: false,
        indirect: false,
        indirect_x: false,
        indirect_y: false,
        relative: false,
        zero_page: true,
        zero_page_x: true,
        zero_page_y: false,
    }
}

pub open spec fn bit_rule() -> ValidationRule {
    ValidationRule {
        no_operand: false,
        says_operand: false,
        label_ok: false,
        accumulator: false,
        absolute: true,
        absolute_x: false,
        absolute_y: false,
        immediate: false,
        indirect: false,
        indirect_x: false,
        indirect_y: false,
        relative: false,
        zero_page: true,
        zero_page_x: false,
        zero_page_y: false,
    }
}

/// The rule of the register-compare mnemonics.
pub open spec fn compare_index_rule() -> ValidationRule {
    ValidationRule {
        no_operand: false,
        says_operand: false,
        label_ok: false,
        accumulator: false,
        absolute: true,
        absolute_x: false,
        absolute_y: false,
        immediate: true,
        indirect: false,
        indirect_x: false,
        indirect_y: false,
        relative: false,
        zero_page: true,
        zero_page_x: false,
        zero_page_y: false,
    }
}

/// The rule of the memory increment and decrement mnemonics.
pub open spec fn step_memory_rule() -> ValidationRule {
    ValidationRule {
        no_operand: false,
        says_operand: false,
        label_ok: false,
        accumulator: false,
        absolute: true,
        absolute_x: true,
        absolute_y: false,
        immediate: false,
        indirect: false,
        indirect_x: false,
        indirect_y: false,
        relative: false,
        zero_page: true,
        zero_page_x: true,
        zero_page_y: false,
    }
}

pub open spec fn jmp_rule() -> ValidationRule {
    ValidationRule {
        no_operand: false,
        says_operand: false,
        label_ok: true,
        accumulator: false,
        absolute: true,
        absolute_x: false,
        absolute_y: false,
        immediate: false,
        indirect: true,
        indirect_x: false,
        indirect_y: false,
        relative: false,
        zero_page: false,
        zero_page_x: false,
        zero_page_y: false,
    }
}

pub open spec fn jsr_rule() -> ValidationRule {
    ValidationRule {
        no_operand: false,
        says_operand: false,
        label_ok: true,
        accumulator: false,
        absolute: true,
        absolute_x: false,
        absolute_y: false,
        immediate: false,
        indirect: false,
        indirect_x: false,
        indirect_y: false,
        relative: false,
        zero_page: false,
        zero_page_x: false,
        zero_page_y: false,
    }
}

pub open spec fn ldx_rule() -> ValidationRule {
    ValidationRule {
        no_operand: false,
        says_operand: false,
        label_ok: false,
        accumulator: false,
        absolute: true,
        absolute_x: false,
        absolute_y: true,
        immediate: true,
        indirect: false,
        indirect_x: false,
        indirect_y: false,
        relative: false,
        zero_page: true,
        zero_page_x: false,
        zero_page_y: true,
    }
}

pub open spec fn ldy_rule() -> ValidationRule {
    ValidationRule {
        no_operand: false,
        says_operand: false,
        label_ok: false,
        accumulator: false,
        absolute: true,
        absolute_x: true,
        absolute_y: false,
        immediate: true,
        indirect: false,
        indirect_x: false,
        indirect_y: false,
        relative: false,
        zero_page: true,
        zero_page_x: true,
        zero_page_y: false,
    }
}

pub open spec fn sta_rule() -> ValidationRule {
    ValidationRule {
        no_operand: false,
        says_operand: false,
        label_ok: false,
        accumulator: false,
        absolute: true,
        absolute_x: true,
        absolute_y: true,
        immediate: false,
        indirect: false,
        indirect_x: true,
        indirect_y: true,
        relative: false,
        zero_page: true,
        zero_page_x: true,
        zero_page_y: false,
    }
}

pub open spec fn stx_rule() -> ValidationRule {
    ValidationRule {
        no_operand: false,
        says_operand: false,
        label_ok: false,
        accumulator: false,
        absolute: true,
        absolute_x: false,
        absolute_y: false,
        immediate: false,
        indirect: false,
        indirect_x: false,
        indirect_y: false,
        relative: false,
        zero_page: true,
        zero_page_x: false,
        zero_page_y: true,
    }
}

pub open spec fn sty_rule() -> ValidationRule {
    ValidationRule {
        no_operand: false,
        says_operand: false,
        label_ok: false,
        accumulator: false,
        absolute: true,
        absolute_x: false,
        absolute_y: false,
        immediate: false,
        indirect: false,
        indirect_x: false,
        indirect_y: false,
        relative: false,
        zero_page: true,
        zero_page_x: true,
        zero_page_y: false,
    }
}

/// Confirms that a relative-branch mnemonic has an operand and that a
/// concrete operand carries relative mode; labels pass and are left to the
/// resolver.
pub fn validate_relative_operand(instr: &Instruction, line_num: usize) -> (res: Result<
    (),
    AssemblerError,
>)
    ensures
        match spec_validate_rule(relative_rule(), instr@, line_num) {
            Ok(()) => res is Ok,
            Err(e) => res matches Err(err) && err@ == e,
        },
{
    validate_rule(instr, line_num, exec_relative_rule())
}

/// Confirms that an implied-only mnemonic carries no operand.
pub fn validate_no_operand(instr: &Instruction, line_num: usize) -> (res: Result<
    (),
    AssemblerError,
>)
    ensures
        match spec_validate_rule(no_operand_rule(), instr@, line_num) {
            Ok(()) => res is Ok,
            Err(e) => res matches Err(err) && err@ == e,
        },
{
    validate_rule(instr, line_num, exec_no_operand_rule())
}

fn exec_no_operand_rule() -> (r: ValidationRule)
    ensures
        r == no_operand_rule(),
{
    ValidationRule {
        no_operand: true,
        says_operand: false,
        label_ok: false,
        accumulator: false,
        absolute: false,
        absolute_x: false,
        absolute_y: false,
        immediate: false,
        indirect: false,
        indirect_x: false,
        indirect_y: false,
        relative: false,
        zero_page: false,
        zero_page_x: false,
        zero_page_y: false,
    }
}

fn exec_relative_rule() -> (r: ValidationRule)
    ensures
        r == relative_rule(),
{
    ValidationRule {
        no_operand: false,
        says_operand: false,
        label_ok: true,
        accumulator: false,
        absolute: false,
        absolute_x: false,
        absolute_y: false,
        immediate: false,
        indirect: false,
        indirect_x: false,
        indirect_y: false,
        relative: true,
        zero_page: false,
        zero_page_x: false,
        zero_page_y: false,
    }
}

fn exec_full_arith_rule(says_operand: bool) -> (r: ValidationRule)
    ensures
        r == full_arith_rule(says_operand),
{
    ValidationRule {
        no_operand: false,
        says_operand,
        label_ok: false,
        accumulator: false,
        absolute: true,
        absolute_x: true,
        absolute_y: true,
        immediate: true,
        indirect: false,
        indirect_x: true,
        indirect_y: true,
        relative: false,
        zero_page: true,
        zero_page_x: true,
        zero_page_y: false,
    }
}

fn exec_shift_rule(says_operand: bool) -> (r: ValidationRule)
    ensures
        r == shift_rule(says_operand),
{
    ValidationRule {
        no_operand: false,
        says_operand,
        label_ok: false,
        accumulator: true,
        absolute: true,
        absolute_x: true,
        absolute_y: false,
        immediate: false,
        indirect: false,
        indirect_x: false,
        indirect_y: false,
        relative: false,
        zero_page: true,
        zero_page_x: true,
        zero_page_y: false,
    }
}

pub fn validate_adc(instr: &Instruction, line_num: usize) -> (res: Result<(), AssemblerError>)
    ensures
        match spec_validate_rule(full_arith_rule(false), instr@, line_num) {
            Ok(()) => res is Ok,
            Err(e) => res matches Err(err) && err@ == e,
        },
{
    validate_rule(instr, line_num, exec_full_arith_rule(false))
}

pub fn validate_and(instr: &Instruction, line_num: usize) -> (res: Result<(), AssemblerError>)
    ensures
        match spec_validate_rule(full_arith_rule(false), instr@, line_num) {
            Ok(()) => res is Ok,
            Err(e) => res matches Err(err) && err@ == e,
        },
{
    validate_rule(instr, line_num, exec_full_arith_rule(false))
}

pub fn validate_asl(instr: &Instruction, line_num: usize) -> (res: Result<(), AssemblerError>)
    ensures
        match spec_validate_rule(shift_rule(false), instr@, line_num) {
            Ok(()) => res is Ok,
            Err(e) => res matches Err(err) && err@ == e,
        },
{
    validate_rule(instr, line_num, exec_shift_rule(false))
}

pub fn validate_bit(instr: &Instruction, line_num: usize) -> (res: Result<(), AssemblerError>)
    ensures
        match spec_validate_rule(bit_rule(), instr@, line_num) {
            Ok(()) => res is Ok,
            Err(e) => res matches Err(err) && err@ == e,
        },
{
    validate_rule(
        instr,
        line_num,
        ValidationRule {
            no_operand: false,
            says_operand: false,
            label_ok: false,
            accumulator: false,
            absolute: true,
            absolute_x: false,
            absolute_y: false,
            immediate: false,
            indirect: false,
            indirect_x: false,
            indirect_y: false,
            relative: false,
            zero_page: true,
            zero_page_x: false,
            zero_page_y: false,
        },
    )
}

pub fn validate_brk(instr: &Instruction, line_num: usize) -> (res: Result<(), AssemblerError>)
    ensures
        match spec_validate_rule(no_operand_rule(), instr@, line_num) {
            Ok(()) => res is Ok,
            Err(e) => res matches Err(err) && err@ == e,
        },
{
    validate_rule(instr, line_num, exec_no_operand_rule())
}

pub fn validate_cmp(instr: &Instruction, line_num: usize) -> (res: Result<(), AssemblerError>)
    ensures
        match spec_validate_rule(full_arith_rule(false), instr@, line_num) {
            Ok(()) => res is Ok,
            Err(e) => res matches Err(err) && err@ == e,
        },
{
    validate_rule(instr, line_num, exec_full_arith_rule(false))
}

fn exec_compare_index_rule() -> (r: ValidationRule)
    ensures
        r == compare_index_rule(),
{
    ValidationRule {
        no_operand: false,
        says_operand: false,
        label_ok: false,
        accumulator: false,
        absolute: true,
        absolute_x: false,
        absolute_y: false,
        immediate: true,
        indirect: false,
        indirect_x: false,
        indirect_y: false,
        relative: false,
        zero_page: true,
        zero_page_x: false,
        zero_page_y: false,
    }
}

pub fn validate_cpx(instr: &Instruction, line_num: usize) -> (res: Result<(), AssemblerError>)
    ensures
        match spec_validate_rule(compare_index_rule(), instr@, line_num) {
            Ok(()) => res is Ok,
            Err(e) => res matches Err(err) && err@ == e,
        },
{
    validate_rule(instr, line_num, exec_compare_index_rule())
}

pub fn validate_cpy(instr: &Instruction, line_num: usize) -> (res: Result<(), AssemblerError>)
    ensures
        match spec_validate_rule(compare_index_rule(), instr@, line_num) {
            Ok(()) => res is Ok,
            Err(e) => res matches Err(err) && err@ == e,
        },
{
    validate_rule(instr, line_num, exec_compare_index_rule())
}

fn exec_step_memory_rule() -> (r: ValidationRule)
    ensures
        r == step_memory_rule(),
{
    ValidationRule {
        no_operand: false,
        says_operand: false,
        label_ok: false,
        accumulator: false,
        absolute: true,
        absolute_x: true,
        absolute_y: false,
        immediate: false,
        indirect: false,
        indirect_x: false,
        indirect_y: false,
        relative: false,
        zero_page: true,
        zero_page_x: true,
        zero_page_y: false,
    }
}

pub fn validate_dec(instr: &Instruction, line_num: usize) -> (res: Result<(), AssemblerError>)
    ensures
        match spec_validate_rule(step_memory_rule(), instr@, line_num) {
            Ok(()) => res is Ok,
            Err(e) => res matches Err(err) && err@ == e,
        },
{
    validate_rule(instr, line_num, exec_step_memory_rule())
}

pub fn validate_eor(instr: &Instruction, line_num: usize) -> (res: Result<(), AssemblerError>)
    ensures
        match spec_validate_rule(full_arith_rule(false), instr@, line_num) {
            Ok(()) => res is Ok,
            Err(e) => res matches Err(err) && err@ == e,
        },
{
    validate_rule(instr, line_num, exec_full_arith_rule(false))
}

pub fn validate_inc(instr: &Instruction, line_num: usize) -> (res: Result<(), AssemblerError>)
    ensures
        match spec_validate_rule(step_memory_rule(), instr@, line_num) {
            Ok(()) => res is Ok,
            Err(e) => res matches Err(err) && err@ == e,
        },
{
    validate_rule(instr, line_num, exec_step_memory_rule())
}

pub fn validate_jmp(instr: &Instruction, line_num: usize) -> (res: Result<(), AssemblerError>)
    ensures
        match spec_validate_rule(jmp_rule(), instr@, line_num) {
            Ok(()) => res is Ok,
            Err(e) => res matches Err(err) && err@ == e,
        },
{
    validate_rule(
        instr,
        line_num,
        ValidationRule {
            no_operand: false,
            says_operand: false,
            label_ok: true,
            accumulator: false,
            absolute: true,
            absolute_x: false,
            absolute_y: false,
            immediate: false,
            indirect: true,
            indirect_x: false,
            indirect_y: false,
            relative: false,
            zero_page: false,
            zero_page_x: false,
            zero_page_y: false,
        },
    )
}

pub fn validate_jsr(instr: &Instruction, line_num: usize) -> (res: Result<(), AssemblerError>)
    ensures
        match spec_validate_rule(jsr_rule(), instr@, line_num) {
            Ok(()) => res is Ok,
            Err(e) => res matches Err(err) && err@ == e,
        },
{
    validate_rule(
        instr,
        line_num,
        ValidationRule {
            no_operand: false,
            says_operand: false,
            label_ok: true,
            accumulator: false,
            absolute: true,
            absolute_x: false,
            absolute_y: false,
            immediate: false,
            indirect: false,
            indirect_x: false,
            indirect_y: false,
            relative: false,
            zero_page: false,
            zero_page_x: false,
            zero_page_y: false,
        },
    )
}

pub fn validate_lda(instr: &Instruction, line_num: usize) -> (res: Result<(), AssemblerError>)
    ensures
        match spec_validate_rule(full_arith_rule(false), instr@, line_num) {
            Ok(()) => res is Ok,
            Err(e) => res matches Err(err) && err@ == e,
        },
{
    validate_rule(instr, line_num, exec_full_arith_rule(false))
}

pub fn validate_ldx(instr: &Instruction, line_num: usize) -> (res: Result<(), AssemblerError>)
    ensures
        match spec_validate_rule(ldx_rule(), instr@, line_num) {
            Ok(()) => res is Ok,
            Err(e) => res matches Err(err) && err@ == e,
        },
{
    validate_rule(
        instr,
        line_num,
        ValidationRule {
            no_operand: false,
            says_operand: false,
            label_ok: false,
            accumulator: false,
            absolute: true,
            absolute_x: false,
            absolute_y: true,
            immediate: true,
            indirect: false,
            indirect_x: false,
            indirect_y: false,
            relative: false,
            zero_page: true,
            zero_page_x: false,
            zero_page_y: true,
        },
    )
}

pub fn validate_ldy(instr: &Instruction, line_num: usize) -> (res: Result<(), AssemblerError>)
    ensures
        match spec_validate_rule(ldy_rule(), instr@, line_num) {
            Ok(()) => res is Ok,
            Err(e) => res matches Err(err) && err@ == e,
        },
{
    validate_rule(
        instr,
        line_num,
        ValidationRule {
            no_operand: false,
            says_operand: false,
            label_ok: false,
            accumulator: false,
            absolute: true,
            absolute_x: true,
            absolute_y: false,
            immediate: true,
            indirect: false,
            indirect_x: false,
            indirect_y: false,
            relative: false,
            zero_page: true,
            zero_page_x: true,
            zero_page_y: false,
        },
    )
}

pub fn validate_lsr(instr: &Instruction, line_num: usize) -> (res: Result<(), AssemblerError>)
    ensures
        match spec_validate_rule(shift_rule(true), instr@, line_num) {
            Ok(()) => res is Ok,
            Err(e) => res matches Err(err) && err@ == e,
        },
{
    validate_rule(instr, line_num, exec_shift_rule(true))
}

pub fn validate_ora(instr: &Instruction, line_num: usize) -> (res: Result<(), AssemblerError>)
    ensures
        match spec_validate_rule(full_arith_rule(true), instr@, line_num) {
            Ok(()) => res is Ok,
            Err(e) => res matches Err(err) && err@ == e,
        },
{
    validate_rule(instr, line_num, exec_full_arith_rule(true))
}

pub fn validate_rol(instr: &Instruction, line_num: usize) -> (res: Result<(), AssemblerError>)
    ensures
        match spec_validate_rule(shift_rule(true), instr@, line_num) {
            Ok(()) => res is Ok,
            Err(e) => res matches Err(err) && err@ == e,
        },
{
    validate_rule(instr, line_num, exec_shift_rule(true))
}

pub fn validate_ror(instr: &Instruction, line_num: usize) -> (res: Result<(), AssemblerError>)
    ensures
        match spec_validate_rule(shift_rule(true), instr@, line_num) {
            Ok(()) => res is Ok,
            Err(e) => res matches Err(err) && err@ == e,
        },
{
    validate_rule(instr, line_num, exec_shift_rule(true))
}

pub fn validate_sbc(instr: &Instruction, line_num: usize) -> (res: Result<(), AssemblerError>)
    ensures
        match spec_validate_rule(full_arith_rule(true), instr@, line_num) {
            Ok(()) => res is Ok,
            Err(e) => res matches Err(err) && err@ == e,
        },
{
    validate_rule(instr, line_num, exec_full_arith_rule(true))
}

pub fn validate_sta(instr: &Instruction, line_num: usize) -> (res: Result<(), AssemblerError>)
    ensures
        match spec_validate_rule(sta_rule(), instr@, line_num) {
            Ok(()) => res is Ok,
            Err(e) => res matches Err(err) && err@ == e,
        },
{
    validate_rule(
        instr,
        line_num,
        ValidationRule {
            no_operand: false,
            says_operand: false,
            label_ok: false,
            accumulator: false,
            absolute: true,
            absolute_x: true,
            absolute_y: true,
            immediate: false,
            indirect: false,
            indirect_x: true,
            indirect_y: true,
            relative: false,
            zero_page: true,
            zero_page_x: true,
            zero_page_y: false,
        },
    )
}

pub fn validate_stx(instr: &Instruction, line_num: usize) -> (res: Result<(), AssemblerError>)
    ensures
        match spec_validate_rule(stx_rule(), instr@, line_num) {
            Ok(()) => res is Ok,
            Err(e) => res matches Err(err) && err@ == e,
        },
{
    validate_rule(
        instr,
        line_num,
        ValidationRule {
            no_operand: false,
            says_operand: false,
            label_ok: false,
            accumulator: false,
            absolute: true,
            absolute_x: false,
            absolute_y: false,
            immediate: false,
            indirect: false,
            indirect_x: false,
            indirect_y: false,
            relative: false,
            zero_page: true,
            zero_page_x: false,
            zero_page_y: true,
        },
    )
}

pub fn validate_sty(instr: &Instruction, line_num: usize) -> (res: Result<(), AssemblerError>)
    ensures
        match spec_validate_rule(sty_rule(), instr@, line_num) {
            Ok(()) => res is Ok,
            Err(e) => res matches Err(err) && err@ == e,
        },
{
    validate_rule(
        instr,
        line_num,
        ValidationRule {
            no_operand: false,
            says_operand: false,
            label_ok: false,
            accumulator: false,
            absolute: true,
            absolute_x: false,
            absolute_y: false,
            immediate: false,
            indirect: false,
            indirect_x: false,
            indirect_y: false,
            relative: false,
            zero_page: true,
            zero_page_x: true,
            zero_page_y: false,
        },
    )
}

/// The validation rule a mnemonic is held to, keyed case-insensitively, or
/// nothing for an unknown mnemonic.
pub open spec fn rule_for(m: Seq<char>) -> Option<ValidationRule> {
    if eq_ignore_ascii_case(m, "ADC"@) {
        Some(full_arith_rule(false))
    } else if eq_ignore_ascii_case(m, "AND"@) {
        Some(full_arith_rule(false))
    } else if eq_ignore_ascii_case(m, "ASL"@) {
        Some(shift_rule(false))
    } else if eq_ignore_ascii_case(m, "BIT"@) {
        Some(bit_rule())
    } else if eq_ignore_ascii_case(m, "BPL"@) || eq_ignore_ascii_case(m, "BMI"@)
        || eq_ignore_ascii_case(m, "BVC"@) || eq_ignore_ascii_case(m, "BVS"@)
        || eq_ignore_ascii_case(m, "BCC"@) || eq_ignore_ascii_case(m, "BCS"@)
        || eq_ignore_ascii_case(m, "BNE"@) || eq_ignore_ascii_case(m, "BEQ"@) {
        Some(relative_rule())
    } else if eq_ignore_ascii_case(m, "BRK"@) {
        Some(no_operand_rule())
    } else if eq_ignore_ascii_case(m, "CMP"@) {
        Some(full_arith_rule(false))
    } else if eq_ignore_ascii_case(m, "CPX"@) || eq_ignore_ascii_case(m, "CPY"@) {
        Some(compare_index_rule())
    } else if eq_ignore_ascii_case(m, "DEC"@) {
        Some(step_memory_rule())
    } else if eq_ignore_ascii_case(m, "EOR"@) {
        Some(full_arith_rule(false))
    } else if eq_ignore_ascii_case(m, "CLC"@) || eq_ignore_ascii_case(m, "SEC"@)
        || eq_ignore_ascii_case(m, "CLI"@) || eq_ignore_ascii_case(m, "SEI"@)
        || eq_ignore_ascii_case(m, "CLV"@) || eq_ignore_ascii_case(m, "CLD"@)
        || eq_ignore_ascii_case(m, "SED"@) {
        Some(no_operand_rule())
    } else if eq_ignore_ascii_case(m, "INC"@) {
        Some(step_memory_rule())
    } else if eq_ignore_ascii_case(m, "JMP"@) {
        Some(jmp_rule())
    } else if eq_ignore_ascii_case(m, "JSR"@) {
        Some(jsr_rule())
    } else if eq_ignore_ascii_case(m, "LDA"@) {
        Some(full_arith_rule(false))
    } else if eq_ignore_ascii_case(m, "LDX"@) {
        Some(ldx_rule())
    } else if eq_ignore_ascii_case(m, "LDY"@) {
        Some(ldy_rule())
    } else if eq_ignore_ascii_case(m, "LSR"@) {
        Some(shift_rule(true))
    } else if eq_ignore_ascii_case(m, "NOP"@) {
        Some(no_operand_rule())
    } else if eq_ignore_ascii_case(m, "ORA"@) {
        Some(full_arith_rule(true))
    } else if eq_ignore_ascii_case(m, "TAX"@) || eq_ignore_ascii_case(m, "TXA"@)
        || eq_ignore_ascii_case(m, "DEX"@) || eq_ignore_ascii_case(m, "INX"@)
        || eq_ignore_ascii_case(m, "TAY"@) || eq_ignore_ascii_case(m, "TYA"@)
        || eq_ignore_ascii_case(m, "DEY"@) || eq_ignore_ascii_case(m, "INY"@) {
        Some(no_operand_rule())
    } else if eq_ignore_ascii_case(m, "ROL"@) || eq_ignore_ascii_case(m, "ROR"@) {
        Some(shift_rule(true))
    } else if eq_ignore_ascii_case(m, "RTI"@) || eq_ignore_ascii_case(m, "RTS"@) {
        Some(no_operand_rule())
    } else if eq_ignore_ascii_case(m, "SBC"@) {
        Some(full_arith_rule(true))
    } else if eq_ignore_ascii_case(m, "STA"@) {
        Some(sta_rule())
    } else if eq_ignore_ascii_case(m, "TXS"@) || eq_ignore_ascii_case(m, "TSX"@)
        || eq_ignore_ascii_case(m, "PHA"@) || eq_ignore_ascii_case(m, "PLA"@)
        || eq_ignore_ascii_case(m, "PHP"@) || eq_ignore_ascii_case(m, "PLP"@) {
        Some(no_operand_rule())
    } else if eq_ignore_ascii_case(m, "STX"@) {
        Some(stx_rule())
    } else if eq_ignore_ascii_case(m, "STY"@) {
        Some(sty_rule())
    } else {
        None
    }
}

/// The verdict validation gives an instruction: its mnemonic's rule applied
/// to its operand, or an invalid-opcode error for an unknown mnemonic.
pub open spec fn spec_validate_instruction(i: InstructionModel, line: usize) -> Result<
    (),
    ErrorModel,
> {
    match rule_for(i.opcode) {
        Some(r) => spec_validate_rule(r, i, line),
        None => Err(ErrorModel::InvalidOpCode { msg: msg_invalid_opcode(i.opcode), line }),
    }
}

/// Checks that the instruction's operand shape and addressing mode are legal
/// for its mnemonic. Mnemonics are recognised regardless of ASCII letter
/// case; an unknown mnemonic is an invalid-opcode error naming it.
pub fn validate_instruction(instr: &Instruction, line_num: usize) -> (res: Result<
    (),
    AssemblerError,
>)
    ensures
        match spec_validate_instruction(instr@, line_num) {
            Ok(()) => res is Ok,
            Err(e) => res matches Err(err) && err@ == e,
        },
{
    let name = chars_of(instr.opcode.as_str());
    if chars_eq_str_ignore_case(&name, "ADC") {
        validate_adc(instr, line_num)
    } else if chars_eq_str_ignore_case(&name, "AND") {
        validate_and(instr, line_num)
    } else if chars_eq_str_ignore_case(&name, "ASL") {
        validate_asl(instr, line_num)
    } else if chars_eq_str_ignore_case(&name, "BIT") {
        validate_bit(instr, line_num)
    } else if chars_eq_str_ignore_case(&name, "BPL") || chars_eq_str_ignore_case(&name, "BMI")
        || chars_eq_str_ignore_case(&name, "BVC") || chars_eq_str_ignore_case(&name, "BVS")
        || chars_eq_str_ignore_case(&name, "BCC") || chars_eq_str_ignore_case(&name, "BCS")
        || chars_eq_str_ignore_case(&name, "BNE") || chars_eq_str_ignore_case(&name, "BEQ") {
        validate_relative_operand(instr, line_num)
    } else if chars_eq_str_ignore_case(&name, "BRK") {
        validate_brk(instr, line_num)
    } else if chars_eq_str_ignore_case(&name, "CMP") {
        validate_cmp(instr, line_num)
    } else if chars_eq_str_ignore_case(&name, "CPX") {
        validate_cpx(instr, line_num)
    } else if chars_eq_str_ignore_case(&name, "CPY") {
        validate_cpy(instr, line_num)
    } else if chars_eq_str_ignore_case(&name, "DEC") {
        validate_dec(instr, line_num)
    } else if chars_eq_str_ignore_case(&name, "EOR") {
        validate_eor(instr, line_num)
    } else if chars_eq_str_ignore_case(&name, "CLC") || chars_eq_str_ignore_case(&name, "SEC")
        || chars_eq_str_ignore_case(&name, "CLI") || chars_eq_str_ignore_case(&name, "SEI")
        || chars_eq_str_ignore_case(&name, "CLV") || chars_eq_str_ignore_case(&name, "CLD")
        || chars_eq_str_ignore_case(&name, "SED") {
        validate_no_operand(instr, line_num)
    } else if chars_eq_str_ignore_case(&name, "INC") {
        validate_inc(instr, line_num)
    } else if chars_eq_str_ignore_case(&name, "JMP") {
        validate_jmp(instr, line_num)
    } else if chars_eq_str_ignore_case(&name, "JSR") {
        validate_jsr(instr, line_num)
    } else if chars_eq_str_ignore_case(&name, "LDA") {
        validate_lda(instr, line_num)
    } else if chars_eq_str_ignore_case(&name, "LDX") {
        validate_ldx(instr, line_num)
    } else if chars_eq_str_ignore_case(&name, "LDY") {
        validate_ldy(instr, line_num)
    } else if chars_eq_str_ignore_case(&name, "LSR") {
        validate_lsr(instr, line_num)
    } else if chars_eq_str_ignore_case(&name, "NOP") {
        validate_no_operand(instr, line_num)
    } else if chars_eq_str_ignore_case(&name, "ORA") {
        validate_ora(instr, line_num)
    } else if chars_eq_str_ignore_case(&name, "TAX") || chars_eq_str_ignore_case(&name, "TXA")
        || chars_eq_str_ignore_case(&name, "DEX") || chars_eq_str_ignore_case(&name, "INX")
        || chars_eq_str_ignore_case(&name, "TAY") || chars_eq_str_ignore_case(&name, "TYA")
        || chars_eq_str_ignore_case(&name, "DEY") || chars_eq_str_ignore_case(&name, "INY") {
        validate_no_operand(instr, line_num)
    } else if chars_eq_str_ignore_case(&name, "ROL") {
        validate_rol(instr, line_num)
    } else if chars_eq_str_ignore_case(&name, "ROR") {
        validate_ror(instr, line_num)
    } else if chars_eq_str_ignore_case(&name, "RTI") || chars_eq_str_ignore_case(&name, "RTS") {
        validate_no_operand(instr, line_num)
    } else if chars_eq_str_ignore_case(&name, "SBC") {
        validate_sbc(instr, line_num)
    } else if chars_eq_str_ignore_case(&name, "STA") {
        validate_sta(instr, line_num)
    } else if chars_eq_str_ignore_case(&name, "TXS") || chars_eq_str_ignore_case(&name, "TSX")
        || chars_eq_str_ignore_case(&name, "PHA") || chars_eq_str_ignore_case(&name, "PLA")
        || chars_eq_str_ignore_case(&name, "PHP") || chars_eq_str_ignore_case(&name, "PLP") {
        validate_no_operand(instr, line_num)
    } else if chars_eq_str_ignore_case(&name, "STX") {
        validate_stx(instr, line_num)
    } else if chars_eq_str_ignore_case(&name, "STY") {
        validate_sty(instr, line_num)
    } else {
        let msg = instr.opcode.clone().concat(" is invalid.");
        Err(AssemblerError::InvalidOpCode { msg, line: line_num })
    }
}

} // verus!
