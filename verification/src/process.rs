//! Two-pass resolution of parsed lines into concrete instructions.
//!
//! A first scan finds the load origin (the last origin directive wins). The
//! first pass walks the lines with a location counter, recording each label's
//! address; the second pass rewrites every label operand to the absolute
//! address the table gives it, failing on the first reference no definition
//! satisfies. Output keeps the instructions' order; all other line kinds are
//! dropped.

use vstd::prelude::*;
use vstd::string::StringExecFns;

use crate::directive::Directive;
use crate::error::{AssemblerError, ErrorModel};
use crate::instructions::AddressMode;
use crate::instruction::{spec_size, Address, Instruction, InstructionModel, Operand, OperandModel};
use crate::parser::Line;
use crate::text::str_eq;

verus! {

/// The load origin a line sequence selects: the argument of the last origin
/// directive, or zero when there is none.
pub open spec fn spec_origin(lines: Seq<(Line, usize)>) -> u32
    decreases lines.len(),
{
    if lines.len() == 0 {
        0
    } else {
        match lines.last().0 {
            Line::Directive(Directive::Org(a)) => a as u32,
            _ => spec_origin(lines.drop_last()),
        }
    }
}

/// The location counter after the first `k` lines: the origin plus the sizes
/// of the instruction lines seen so far.
pub open spec fn pointer_after(lines: Seq<(Line, usize)>, k: int, start: int) -> int
    decreases k,
    when 0 <= k <= lines.len()
{
    if k == 0 {
        start
    } else {
        let p = pointer_after(lines, k - 1, start);
        match lines[k - 1].0 {
            Line::Instruction(i) => p + spec_size(i@),
            _ => p,
        }
    }
}

/// The origin comes from a 16-bit directive argument or defaults to zero,
/// so it always fits sixteen bits.
pub proof fn lemma_origin_bound(lines: Seq<(Line, usize)>)
    ensures
        spec_origin(lines) <= 0xFFFF,
    decreases lines.len(),
{
    if lines.len() > 0 {
        lemma_origin_bound(lines.drop_last());
    }
}

/// No instruction encodes to more than three bytes, so the location counter
/// never runs more than three bytes per line past the origin. This bounds
/// the counter for any program whose line count is known.
pub proof fn lemma_pointer_bound(lines: Seq<(Line, usize)>, k: int, start: int)
    requires
        0 <= k <= lines.len(),
    ensures
        start <= pointer_after(lines, k, start) <= start + 3 * k,
    decreases k,
{
    if k > 0 {
        lemma_pointer_bound(lines, k - 1, start);
    }
}

pub proof fn lemma_pointer_monotone(lines: Seq<(Line, usize)>, k1: int, k2: int, start: int)
    requires
        0 <= k1 <= k2 <= lines.len(),
    ensures
        pointer_after(lines, k1, start) <= pointer_after(lines, k2, start),
    decreases k2 - k1,
{
    if k1 < k2 {
        lemma_pointer_monotone(lines, k1, k2 - 1, start);
    }
}

/// The label table the first pass builds over the first `k` lines: each
/// label-definition line contributes its name and the counter at that line,
/// in order.
pub open spec fn label_entries(lines: Seq<(Line, usize)>, k: int, start: int) -> Seq<
    (Seq<char>, int),
>
    decreases k,
    when 0 <= k <= lines.len()
{
    if k == 0 {
        Seq::empty()
    } else {
        let e = label_entries(lines, k - 1, start);
        match lines[k - 1].0 {
            Line::Label(l) => e.push((l@, pointer_after(lines, k - 1, start))),
            _ => e,
        }
    }
}

/// The address a name resolves to in a table: the value of its latest entry.
pub open spec fn lookup_label(entries: Seq<(Seq<char>, int)>, name: Seq<char>) -> Option<int>
    decreases entries.len(),
{
    if entries.len() == 0 {
        None
    } else if entries.last().0 == name {
        Some(entries.last().1)
    } else {
        lookup_label(entries.drop_last(), name)
    }
}

/// The address a label name stands for over a whole line sequence. This
/// depends on the sequence and the name alone — never on where the name is
/// referenced — so references before and after the definition resolve alike.
pub open spec fn spec_label_address(lines: Seq<(Line, usize)>, name: Seq<char>) -> Option<int> {
    lookup_label(label_entries(lines, lines.len() as int, spec_origin(lines) as int), name)
}

/// The message an unresolved label reference carries.
pub open spec fn missing_label_msg(name: Seq<char>) -> Seq<char> {
    "Did not find "@ + name
}

/// The second pass from line `k` on: instruction lines in order, each label
/// operand rewritten to its absolute address, stopping at the first
/// reference the table cannot satisfy.
pub open spec fn spec_resolve_from(lines: Seq<(Line, usize)>, k: int) -> Result<
    Seq<InstructionModel>,
    ErrorModel,
>
    decreases lines.len() - k,
    when 0 <= k <= lines.len()
{
    if k == lines.len() {
        Ok(Seq::empty())
    } else {
        match lines[k].0 {
            Line::Instruction(instr) => match instr@.operand {
                Some(OperandModel::Label(l)) => match spec_label_address(lines, l) {
                    Some(addr) => match spec_resolve_from(lines, k + 1) {
                        Ok(rest) => Ok(
                            seq![
                                InstructionModel {
                                    opcode: instr@.opcode,
                                    operand: Some(
                                        OperandModel::Address(
                                            Address {
                                                address: addr as u32,
                                                address_mode: AddressMode::Absolute,
                                            },
                                        ),
                                    ),
                                },
                            ] + rest,
                        ),
                        Err(e) => Err(e),
                    },
                    None => Err(
                        ErrorModel::InvalidLabel { msg: missing_label_msg(l), line: lines[k].1 },
                    ),
                },
                _ => match spec_resolve_from(lines, k + 1) {
                    Ok(rest) => Ok(seq![instr@] + rest),
                    Err(e) => Err(e),
                },
            },
            _ => spec_resolve_from(lines, k + 1),
        }
    }
}

/// What resolution produces for a line sequence: the resolved instructions
/// and the origin, or the error of the first unresolvable reference.
pub open spec fn spec_process(lines: Seq<(Line, usize)>) -> Result<
    (Seq<InstructionModel>, u32),
    ErrorModel,
> {
    match spec_resolve_from(lines, 0) {
        Ok(instrs) => Ok((instrs, spec_origin(lines))),
        Err(e) => Err(e),
    }
}

/// The models of a sequence of instructions.
pub open spec fn instructions_model(s: Seq<Instruction>) -> Seq<InstructionModel> {
    s.map_values(|i: Instruction| i@)
}

pub open spec fn entries_model(s: Seq<(String, u32)>) -> Seq<(Seq<char>, int)> {
    s.map_values(|p: (String, u32)| (p.0@, p.1 as int))
}

/// Finds the latest table entry for a name.
fn table_lookup(entries: &Vec<(String, u32)>, name: &str) -> (r: Option<u32>)
    ensures
        match lookup_label(entries_model(entries@), name@) {
            Some(a) => r == Some(a as u32),
            None => r is None,
        },
{
    proof {
        assert(entries@.subrange(0, entries@.len() as int) =~= entries@);
    }
    let mut idx = entries.len();
    while idx > 0
        invariant
            idx <= entries@.len(),
            lookup_label(entries_model(entries@), name@) == lookup_label(
                entries_model(entries@.subrange(0, idx as int)),
                name@,
            ),
        decreases idx,
    {
        idx -= 1;
        let ghost pre = entries@.subrange(0, idx + 1);
        proof {
            assert(entries_model(pre).last() == (entries@[idx as int].0@, entries@[idx as int].1
                as int));
            assert(entries_model(pre).drop_last() =~= entries_model(
                entries@.subrange(0, idx as int),
            ));
        }
        if str_eq(entries[idx].0.as_str(), name) {
            return Some(entries[idx].1);
        }
    }
    proof {
        assert(entries_model(entries@.subrange(0, 0)) =~= Seq::<(Seq<char>, int)>::empty());
    }
    None
}

/// A copy of an instruction with the same model.
fn clone_instruction(i: &Instruction) -> (r: Instruction)
    ensures
        r@ == i@,
{
    Instruction {
        opcode: i.opcode.clone(),
        operand: match &i.operand {
            Some(Operand::Address(a)) => Some(Operand::Address(*a)),
            Some(Operand::Label(l)) => Some(Operand::Label(l.clone())),
            None => None,
        },
    }
}

/// Resolves a parsed program: finds the origin, assigns every label its
/// address, rewrites label operands to absolute addresses, and returns the
/// instruction sequence with the origin. Fails with an invalid-label error
/// naming the label and its line on the first reference that no definition
/// satisfies.
pub fn proccess_instructions(lines: Vec<(Line, usize)>) -> (r: Result<
    (Vec<Instruction>, u32),
    AssemblerError,
>)
    requires
        pointer_after(lines@, lines@.len() as int, spec_origin(lines@) as int) <= u32::MAX,
    ensures
        match spec_process(lines@) {
            Ok((instrs, start)) => r matches Ok(p) && instructions_model(p.0@) == instrs && p.1
                == start,
            Err(e) => r matches Err(err) && err@ == e,
        },
{
    let ghost all = lines@;
    let mut start_pos: u32 = 0;
    let mut idx: usize = 0;

    // Origin scan: the last origin directive wins.
    while idx < lines.len()
        invariant
            idx <= all.len(),
            all == lines@,
            start_pos == spec_origin(all.subrange(0, idx as int)),
        decreases all.len() - idx,
    {
        let ghost pre = all.subrange(0, idx + 1);
        proof {
            assert(pre.drop_last() =~= all.subrange(0, idx as int));
            assert(pre.last() == all[idx as int]);
        }
        match &lines[idx].0 {
            Line::Directive(Directive::Org(address)) => {
                start_pos = *address as u32;
            },
            _ => {},
        }
        idx += 1;
    }
    proof {
        assert(all.subrange(0, all.len() as int) =~= all);
    }

    // First pass: record each label at the current counter; instructions
    // advance the counter by their encoded size.
    let mut pointer: u32 = start_pos;
    let mut entries: Vec<(String, u32)> = Vec::new();
    let mut k: usize = 0;
    while k < lines.len()
        invariant
            k <= all.len(),
            all == lines@,
            pointer_after(all, all.len() as int, spec_origin(all) as int) <= u32::MAX,
            start_pos == spec_origin(all),
            pointer as int == pointer_after(all, k as int, start_pos as int),
            entries_model(entries@) == label_entries(all, k as int, start_pos as int),
        decreases all.len() - k,
    {
        proof {
            lemma_pointer_monotone(all, k + 1, all.len() as int, start_pos as int);
        }
        match &lines[k].0 {
            Line::Label(label) => {
                let name = label.clone();
                let ghost before = entries@;
                entries.push((name, pointer));
                proof {
                    assert(entries_model(entries@) =~= entries_model(before).push(
                        (all[k as int].0->Label_0@, pointer as int),
                    ));
                }
            },
            Line::Instruction(instruction) => {
                let sz = instruction.size();
                pointer = pointer + sz as u32;
            },
            _ => {},
        }
        k += 1;
    }

    // Second pass: rewrite label operands through the completed table.
    let ghost table = label_entries(all, all.len() as int, start_pos as int);
    let mut instructions: Vec<Instruction> = Vec::new();
    let mut t: usize = 0;
    while t < lines.len()
        invariant
            t <= all.len(),
            all == lines@,
            entries_model(entries@) == table,
            table == label_entries(all, all.len() as int, spec_origin(all) as int),
            start_pos == spec_origin(all),
            match spec_resolve_from(all, t as int) {
                Ok(rest) => spec_resolve_from(all, 0) == Ok::<_, ErrorModel>(
                    instructions_model(instructions@) + rest,
                ),
                Err(e) => spec_resolve_from(all, 0) == Err::<Seq<InstructionModel>, _>(e),
            },
        decreases all.len() - t,
    {
        let ghost before = instructions@;
        match &lines[t].0 {
            Line::Instruction(instr) => {
                match &instr.operand {
                    Some(Operand::Label(label)) => {
                        match table_lookup(&entries, label.as_str()) {
                            Some(label_address) => {
                                let resolved = Instruction {
                                    opcode: instr.opcode.clone(),
                                    operand: Some(
                                        Operand::Address(
                                            Address {
                                                address: label_address,
                                                address_mode: AddressMode::Absolute,
                                            },
                                        ),
                                    ),
                                };
                                let ghost x = resolved@;
                                instructions.push(resolved);
                                proof {
                                    assert(instructions_model(instructions@) =~= instructions_model(
                                        before,
                                    ).push(x));
                                    match spec_resolve_from(all, t + 1 as int) {
                                        Ok(rest) => {
                                            assert(instructions_model(before).push(x) + rest
                                                =~= instructions_model(before) + (seq![x] + rest));
                                        },
                                        Err(_) => {},
                                    }
                                }
                            },
                            None => {
                                let msg = String::from_str("Did not find ").concat(
                                    label.as_str(),
                                );
                                return Err(
                                    AssemblerError::InvalidLabel { msg, line: lines[t].1 },
                                );
                            },
                        }
                    },
                    _ => {
                        let copy = clone_instruction(instr);
                        let ghost x = copy@;
                        instructions.push(copy);
                        proof {
                            assert(instructions_model(instructions@) =~= instructions_model(
                                before,
                            ).push(x));
                            match spec_resolve_from(all, t + 1 as int) {
                                Ok(rest) => {
                                    assert(instructions_model(before).push(x) + rest
                                        =~= instructions_model(before) + (seq![x] + rest));
                                },
                                Err(_) => {},
                            }
                        }
                    },
                }
            },
            _ => {},
        }
        t += 1;
    }
    proof {
        match spec_resolve_from(all, all.len() as int) {
            Ok(rest) => {
                assert(instructions_model(instructions@) + rest =~= instructions_model(
                    instructions@,
                ));
            },
            Err(_) => {},
        }
    }
    Ok((instructions, start_pos))
}

/// Label resolution is order-independent: the address a reference is
/// rewritten to is `spec_label_address(lines, name)`, a function of the line
/// sequence and the name alone — so a reference placed before its label's
/// definition resolves to exactly the same address as one placed after it.
/// Concretely: when resolution succeeds, the output instruction coming from
/// any line that referenced `name` carries that one address.
pub proof fn lemma_label_resolution_order_independent(
    lines: Seq<(Line, usize)>,
    k: int,
    instrs: Seq<InstructionModel>,
    name: Seq<char>,
)
    requires
        0 <= k < lines.len(),
        lines[k].0 matches Line::Instruction(instr) && instr@.operand == Some(
            OperandModel::Label(name),
        ),
        spec_resolve_from(lines, 0) == Ok::<_, ErrorModel>(instrs),
    ensures
        spec_label_address(lines, name) is Some,
        0 <= instr_count(lines, 0, k) < instrs.len(),
        instrs[instr_count(lines, 0, k)].operand == Some(
            OperandModel::Address(
                Address {
                    address: spec_label_address(lines, name)->Some_0 as u32,
                    address_mode: AddressMode::Absolute,
                },
            ),
        ),
{
    lemma_resolution_indexes(lines, 0, k, instrs);
}

/// How many instruction lines stand in `lines[from..to]`.
pub open spec fn instr_count(lines: Seq<(Line, usize)>, from: int, to: int) -> int
    decreases to - from,
    when 0 <= from <= to <= lines.len()
{
    if from == to {
        0
    } else {
        (match lines[from].0 {
            Line::Instruction(_) => 1int,
            _ => 0int,
        }) + instr_count(lines, from + 1, to)
    }
}

proof fn lemma_resolution_indexes(
    lines: Seq<(Line, usize)>,
    t: int,
    k: int,
    instrs: Seq<InstructionModel>,
)
    requires
        0 <= t <= k < lines.len(),
        lines[k].0 matches Line::Instruction(instr) && instr@.operand matches Some(
            OperandModel::Label(_),
        ),
        spec_resolve_from(lines, t) == Ok::<_, ErrorModel>(instrs),
    ensures
        ({
            let name = lines[k].0->Instruction_0@.operand->Some_0->Label_0;
            &&& spec_label_address(lines, name) is Some
            &&& 0 <= instr_count(lines, t, k) < instrs.len()
            &&& instrs[instr_count(lines, t, k)].operand == Some(
                OperandModel::Address(
                    Address {
                        address: spec_label_address(lines, name)->Some_0 as u32,
                        address_mode: AddressMode::Absolute,
                    },
                ),
            )
        }),
    decreases k - t,
{
    let name = lines[k].0->Instruction_0@.operand->Some_0->Label_0;
    if t == k {
        match spec_label_address(lines, name) {
            Some(_) => {
                match spec_resolve_from(lines, t + 1) {
                    Ok(rest) => {
                        assert(instrs[0].operand == Some(
                            OperandModel::Address(
                                Address {
                                    address: spec_label_address(lines, name)->Some_0 as u32,
                                    address_mode: AddressMode::Absolute,
                                },
                            ),
                        ));
                    },
                    Err(_) => {},
                }
            },
            None => {},
        }
    } else {
        match lines[t].0 {
            Line::Instruction(instr) => {
                match instr@.operand {
                    Some(OperandModel::Label(l)) => {
                        match spec_label_address(lines, l) {
                            Some(_) => {
                                match spec_resolve_from(lines, t + 1) {
                                    Ok(rest) => {
                                        lemma_resolution_indexes(lines, t + 1, k, rest);
                                    },
                                    Err(_) => {},
                                }
                            },
                            None => {},
                        }
                    },
                    _ => {
                        match spec_resolve_from(lines, t + 1) {
                            Ok(rest) => {
                                lemma_resolution_indexes(lines, t + 1, k, rest);
                            },
                            Err(_) => {},
                        }
                    },
                }
            },
            _ => {
                lemma_resolution_indexes(lines, t + 1, k, instrs);
            },
        }
    }
}

/// A reference to an undefined label always fails resolution with an
/// invalid-label error naming that label and the referencing line: when line
/// `k` references a name the table does not hold, and every earlier
/// reference resolves, the whole resolution fails with exactly that error.
pub proof fn lemma_undefined_label_fails(lines: Seq<(Line, usize)>, k: int, name: Seq<char>)
    requires
        0 <= k < lines.len(),
        lines[k].0 matches Line::Instruction(instr) && instr@.operand == Some(
            OperandModel::Label(name),
        ),
        spec_label_address(lines, name) is None,
        forall|t: int|
            0 <= t < k ==> ((#[trigger] lines[t]).0 matches Line::Instruction(i2) ==> (
            i2@.operand matches Some(OperandModel::Label(n2)) ==> spec_label_address(lines, n2)
                is Some)),
    ensures
        spec_process(lines) == Err::<(Seq<InstructionModel>, u32), ErrorModel>(
            ErrorModel::InvalidLabel { msg: missing_label_msg(name), line: lines[k].1 },
        ),
{
    lemma_undefined_label_fails_from(lines, 0, k, name);
}

proof fn lemma_undefined_label_fails_from(
    lines: Seq<(Line, usize)>,
    t: int,
    k: int,
    name: Seq<char>,
)
    requires
        0 <= t <= k < lines.len(),
        lines[k].0 matches Line::Instruction(instr) && instr@.operand == Some(
            OperandModel::Label(name),
        ),
        spec_label_address(lines, name) is None,
        forall|u: int|
            t <= u < k ==> ((#[trigger] lines[u]).0 matches Line::Instruction(i2) ==> (
            i2@.operand matches Some(OperandModel::Label(n2)) ==> spec_label_address(lines, n2)
                is Some)),
    ensures
        spec_resolve_from(lines, t) == Err::<Seq<InstructionModel>, ErrorModel>(
            ErrorModel::InvalidLabel { msg: missing_label_msg(name), line: lines[k].1 },
        ),
    decreases k - t,
{
    if t < k {
        lemma_undefined_label_fails_from(lines, t + 1, k, name);
    }
}

} // verus!

