//! The line grammar: one line of source text becomes a typed [`Line`].
//!
//! Alternatives are tried in a fixed order — instruction, comment, label
//! definition, blank line, directive — and the first that matches wins; a
//! line that matches none of them is an unexpected-token parse error. The
//! grammar itself is written out as spec functions over character sequences,
//! and each parsing function is proved to produce exactly what its spec
//! function describes.

use vstd::prelude::*;
use vstd::string::StringExecFns;

use crate::directive::Directive;
use crate::error::{AssemblerError, ErrorModel};
use crate::instructions::AddressMode;
use crate::instruction::{Address, Instruction, InstructionModel, Operand, OperandModel};
use crate::text::{
    all_ascii_digits, all_unicode_whitespace, ascii_alpha_p, chars_eq_str_ignore_case, chars_of,
    check_all_ascii_digits, check_all_unicode_whitespace, eq_ignore_ascii_case, hex_digit_p,
    index_token_p,
    is_ascii_alpha, is_space, label_char_p, line_text_p, mnemonic_char_p, not_line_ending_p,
    operand_token_p, parse_hex_bounded, scan_ascii_alpha, scan_hex_chars, scan_hex_chars_at_most,
    scan_index_token, scan_label_chars, scan_line_text, scan_mnemonic_chars, scan_not_line_ending,
    scan_operand_token, scan_while, scan_while_at_most, skip_spaces, space_p, spec_parse_hex,
    HexError,
};
use crate::validation::{spec_validate_instruction, validate_instruction};

verus! {

/// One line of source: blank, comment, label definition, instruction or
/// directive.
#[derive(Debug, PartialEq)]
pub enum Line {
    EmptyLine,
    Comment,
    Label(String),
    Instruction(Instruction),
    Directive(Directive),
}

/// The model of a [`Line`].
pub enum LineModel {
    EmptyLine,
    Comment,
    Label(Seq<char>),
    Instruction(InstructionModel),
    Directive(Directive),
}

impl View for Line {
    type V = LineModel;

    open spec fn view(&self) -> LineModel {
        match self {
            Line::EmptyLine => LineModel::EmptyLine,
            Line::Comment => LineModel::Comment,
            Line::Label(s) => LineModel::Label(s@),
            Line::Instruction(i) => LineModel::Instruction(i@),
            Line::Directive(d) => LineModel::Directive(*d),
        }
    }
}

/// Witness that a text matched none of the grammar's alternatives.
#[derive(Debug, PartialEq, Eq, Structural)]
pub struct NoParse;

/// A blank line: nothing but whitespace.
pub open spec fn spec_empty_line(s: Seq<char>) -> bool {
    scan_while(s, 0, space_p()) == s.len()
}

/// A comment line: optional whitespace, then `;`.
pub open spec fn spec_comment_matches(s: Seq<char>) -> bool {
    let i = scan_while(s, 0, space_p());
    i < s.len() && s[i] == ';'
}

/// Where a matched comment ends: after its body and one optional line
/// ending.
pub open spec fn spec_comment_end(s: Seq<char>) -> int {
    let i = scan_while(s, 0, space_p());
    let j = scan_while(s, i + 1, not_line_ending_p());
    if j < s.len() && s[j] == '\n' {
        j + 1
    } else if j + 1 < s.len() && s[j] == '\r' && s[j + 1] == '\n' {
        j + 2
    } else {
        j
    }
}

/// A label definition: optional whitespace, an identifier of alphanumerics
/// and underscores that is not purely numeric, a colon, then only whitespace
/// to the end of the line. Yields the identifier.
pub open spec fn spec_parse_label(s: Seq<char>) -> Option<Seq<char>> {
    let i = scan_while(s, 0, space_p());
    let j = scan_while(s, i, label_char_p());
    if j > i && j < s.len() && s[j] == ':' && scan_while(s, j + 1, space_p()) == s.len()
        && !all_ascii_digits(s, i, j) {
        Some(s.subrange(i, j))
    } else {
        None
    }
}

/// A directive line: `.`, a name of ASCII letters, whitespace, `$`, one or
/// more hexadecimal digits, optional trailing whitespace. `ORG` (in any
/// letter case) yields its argument as a 16-bit origin, or a parse failure
/// when the argument does not fit; any other name is an invalid-directive
/// error. A line that lacks the shape yields nothing.
pub open spec fn spec_parse_directive(s: Seq<char>) -> Option<Result<Directive, ErrorModel>> {
    let i = scan_while(s, 0, space_p());
    if i == s.len() || s[i] != '.' {
        None
    } else {
        let j = scan_while(s, i + 1, ascii_alpha_p());
        if j == i + 1 {
            None
        } else {
            let k = scan_while(s, j, space_p());
            if k == j || k == s.len() || s[k] != '$' {
                None
            } else {
                let h = scan_while(s, k + 1, hex_digit_p());
                if h == k + 1 || scan_while(s, h, space_p()) != s.len() {
                    None
                } else {
                    let name = s.subrange(i + 1, j);
                    if eq_ignore_ascii_case(name, "org"@) {
                        match spec_parse_hex(s.subrange(k + 1, h), 0xFFFF) {
                            Ok(v) => Some(Ok(Directive::Org(v as u16))),
                            Err(_) => Some(
                                Err(ErrorModel::ParseErrorNom("Failed to parse to u16"@)),
                            ),
                        }
                    } else {
                        Some(Err(ErrorModel::InvalidDirective(name)))
                    }
                }
            }
        }
    }
}

/// The message a failed numeric conversion carries.
pub open spec fn hex_error_msg(e: HexError) -> Seq<char> {
    match e {
        HexError::InvalidDigit => "invalid digit found in string"@,
        HexError::Overflow => "number too large to fit in target type"@,
    }
}

/// The operand a hexadecimal token denotes under a given mode, or the
/// line-tagged parse error its conversion produces.
pub open spec fn hex_operand(token: Seq<char>, mode: AddressMode, line: usize) -> Result<
    OperandModel,
    ErrorModel,
> {
    match spec_parse_hex(token, 0xFFFFFFFF) {
        Ok(v) => Ok(OperandModel::Address(Address { address: v as u32, address_mode: mode })),
        Err(e) => Err(ErrorModel::ParseError { msg: hex_error_msg(e), line }),
    }
}

/// Immediate operand: `#$`, optional whitespace, a token read as hex.
pub open spec fn op_immediate(t: Seq<char>, line: usize) -> Option<
    (int, Result<OperandModel, ErrorModel>),
> {
    if t.len() >= 2 && t[0] == '#' && t[1] == '$' {
        let i = scan_while(t, 2, space_p());
        let j = scan_while(t, i, operand_token_p());
        if j == i {
            None
        } else {
            Some((j, hex_operand(t.subrange(i, j), AddressMode::Immediate, line)))
        }
    } else {
        None
    }
}

/// The mode a `$` operand gets from its digit count alone: more than two
/// characters in the token means absolute, otherwise zero page.
pub open spec fn dollar_plain_mode(token_len: int) -> AddressMode {
    if token_len > 2 {
        AddressMode::Absolute
    } else {
        AddressMode::ZeroPage
    }
}

/// The mode a `$` operand with an index suffix gets: `,X` and `,Y` choose
/// the X- or Y-indexed variant, still by digit count; any other suffix is
/// ignored.
pub open spec fn dollar_indexed_mode(token_len: int, tail: Seq<char>) -> AddressMode {
    if tail == "X"@ {
        if token_len > 2 {
            AddressMode::AbsoluteX
        } else {
            AddressMode::ZeroPageX
        }
    } else if tail == "Y"@ {
        if token_len > 2 {
            AddressMode::AbsoluteY
        } else {
            AddressMode::ZeroPageY
        }
    } else {
        dollar_plain_mode(token_len)
    }
}

/// Direct operand: `$`, optional whitespace, a token read as hex, optionally
/// followed by a comma and an index token.
pub open spec fn op_dollar(t: Seq<char>, line: usize) -> Option<
    (int, Result<OperandModel, ErrorModel>),
> {
    if t.len() >= 1 && t[0] == '$' {
        let i = scan_while(t, 1, space_p());
        let j = scan_while(t, i, operand_token_p());
        if j == i {
            None
        } else {
            let token = t.subrange(i, j);
            let k = scan_while(t, j, space_p());
            if k < t.len() && t[k] == ',' {
                let m = scan_while(t, k + 1, space_p());
                let n = scan_while(t, m, index_token_p());
                if n > m {
                    Some((n, hex_operand(token, dollar_indexed_mode(j - i, t.subrange(m, n)), line)))
                } else {
                    Some((j, hex_operand(token, dollar_plain_mode(j - i), line)))
                }
            } else {
                Some((j, hex_operand(token, dollar_plain_mode(j - i), line)))
            }
        }
    } else {
        None
    }
}

/// Indexed-indirect operand: `($hh,X)` with one or two digits and
/// whitespace allowed around every piece.
pub open spec fn op_indirect_x(t: Seq<char>, line: usize) -> Option<
    (int, Result<OperandModel, ErrorModel>),
> {
    if t.len() >= 1 && t[0] == '(' {
        let a = scan_while(t, 1, space_p());
        if a < t.len() && t[a] == '$' {
            let b = scan_while(t, a + 1, space_p());
            let c = scan_while_at_most(t, b, 2, hex_digit_p());
            if c == b {
                None
            } else {
                let d = scan_while(t, c, space_p());
                if d < t.len() && t[d] == ',' {
                    let e = scan_while(t, d + 1, space_p());
                    if e < t.len() && (t[e] == 'X' || t[e] == 'x') {
                        let f = scan_while(t, e + 1, space_p());
                        if f < t.len() && t[f] == ')' {
                            Some(
                                (
                                    f + 1,
                                    hex_operand(t.subrange(b, c), AddressMode::IndirectX, line),
                                ),
                            )
                        } else {
                            None
                        }
                    } else {
                        None
                    }
                } else {
                    None
                }
            }
        } else {
            None
        }
    } else {
        None
    }
}

/// Indirect-indexed operand: `($hh),Y` with one or two digits.
pub open spec fn op_indirect_y(t: Seq<char>, line: usize) -> Option<
    (int, Result<OperandModel, ErrorModel>),
> {
    if t.len() >= 1 && t[0] == '(' {
        let a = scan_while(t, 1, space_p());
        if a < t.len() && t[a] == '$' {
            let b = scan_while(t, a + 1, space_p());
            let c = scan_while_at_most(t, b, 2, hex_digit_p());
            if c == b {
                None
            } else {
                let d = scan_while(t, c, space_p());
                if d < t.len() && t[d] == ')' {
                    let e = scan_while(t, d + 1, space_p());
                    if e < t.len() && t[e] == ',' {
                        let f = scan_while(t, e + 1, space_p());
                        if f < t.len() && (t[f] == 'Y' || t[f] == 'y') {
                            Some(
                                (
                                    f + 1,
                                    hex_operand(t.subrange(b, c), AddressMode::IndirectY, line),
                                ),
                            )
                        } else {
                            None
                        }
                    } else {
                        None
                    }
                } else {
                    None
                }
            }
        } else {
            None
        }
    } else {
        None
    }
}

/// Indirect operand: `($hhhh)` with one to four digits.
pub open spec fn op_indirect(t: Seq<char>, line: usize) -> Option<
    (int, Result<OperandModel, ErrorModel>),
> {
    if t.len() >= 1 && t[0] == '(' {
        let a = scan_while(t, 1, space_p());
        if a < t.len() && t[a] == '$' {
            let b = scan_while(t, a + 1, space_p());
            let c = scan_while_at_most(t, b, 4, hex_digit_p());
            if c == b {
                None
            } else {
                let d = scan_while(t, c, space_p());
                if d < t.len() && t[d] == ')' {
                    Some((d + 1, hex_operand(t.subrange(b, c), AddressMode::Indirect, line)))
                } else {
                    None
                }
            }
        } else {
            None
        }
    } else {
        None
    }
}

/// Accumulator operand: `A` or `a` followed only by whitespace.
pub open spec fn op_accumulator(t: Seq<char>) -> Option<
    (int, Result<OperandModel, ErrorModel>),
> {
    if t.len() >= 1 && (t[0] == 'A' || t[0] == 'a') && scan_while(t, 1, space_p()) == t.len() {
        Some(
            (
                t.len() as int,
                Ok(
                    OperandModel::Address(
                        Address { address: 0, address_mode: AddressMode::Accumulator },
                    ),
                ),
            ),
        )
    } else {
        None
    }
}

/// Label operand: an ASCII letter or underscore, then alphanumerics and
/// underscores.
pub open spec fn op_label(t: Seq<char>) -> Option<(int, Result<OperandModel, ErrorModel>)> {
    if t.len() >= 1 && (is_ascii_alpha(t[0]) || t[0] == '_') {
        let j = scan_while(t, 1, label_char_p());
        Some((j, Ok(OperandModel::Label(t.subrange(0, j)))))
    } else {
        None
    }
}

/// The operand forms, tried in order: immediate, direct (zero page or
/// absolute, optionally indexed), indexed-indirect, indirect-indexed,
/// indirect, accumulator, label reference. Yields where the matched form
/// ends and what it denotes, or nothing when no form matches.
pub open spec fn spec_parse_operand(t: Seq<char>, line: usize) -> Option<
    (int, Result<OperandModel, ErrorModel>),
> {
    if op_immediate(t, line) is Some {
        op_immediate(t, line)
    } else if op_dollar(t, line) is Some {
        op_dollar(t, line)
    } else if op_indirect_x(t, line) is Some {
        op_indirect_x(t, line)
    } else if op_indirect_y(t, line) is Some {
        op_indirect_y(t, line)
    } else if op_indirect(t, line) is Some {
        op_indirect(t, line)
    } else if op_accumulator(t) is Some {
        op_accumulator(t)
    } else {
        op_label(t)
    }
}

/// The message an instruction whose operand field matches no operand form
/// carries.
pub open spec fn operand_failure_msg(text: Seq<char>) -> Seq<char> {
    "could not parse operand: "@ + text
}

/// An instruction line: optional whitespace, a mnemonic, an optional operand
/// field separated by whitespace, optional whitespace and an optional `;`
/// comment, consuming the whole line. An operand field of nothing but
/// whitespace counts as no operand; one that matches no operand form turns
/// the line into an error.
pub open spec fn spec_parse_instruction(s: Seq<char>, line: usize) -> Option<
    Result<InstructionModel, ErrorModel>,
> {
    let i = scan_while(s, 0, space_p());
    let j = scan_while(s, i, mnemonic_char_p());
    if j == i {
        None
    } else {
        let opcode = s.subrange(i, j);
        let has_field = j < s.len() && is_space(s[j]);
        let k = scan_while(s, j, space_p());
        let m = if has_field {
            scan_while(s, k, line_text_p())
        } else {
            j
        };
        let p = scan_while(s, m, space_p());
        if p < s.len() && s[p] != ';' {
            None
        } else {
            if !has_field {
                Some(Ok(InstructionModel { opcode, operand: None }))
            } else if m == k || all_unicode_whitespace(s, k, m) {
                Some(Ok(InstructionModel { opcode, operand: None }))
            } else {
                let text = s.subrange(k, m);
                match spec_parse_operand(text, line) {
                    Some((_end, Ok(op))) => Some(
                        Ok(InstructionModel { opcode, operand: Some(op) }),
                    ),
                    Some((_end, Err(e))) => Some(Err(e)),
                    None => Some(Err(ErrorModel::IOError(operand_failure_msg(text)))),
                }
            }
        }
    }
}

/// What one line of source parses to: the first alternative that matches
/// decides, instruction lines are validated, and a line matching nothing is
/// an unexpected-token error tagged with its number.
pub open spec fn spec_parse_line(s: Seq<char>, line: usize) -> Result<LineModel, ErrorModel> {
    match spec_parse_instruction(s, line) {
        Some(Ok(i)) => match spec_validate_instruction(i, line) {
            Ok(()) => Ok(LineModel::Instruction(i)),
            Err(e) => Err(e),
        },
        Some(Err(e)) => Err(e),
        None => if spec_comment_matches(s) {
            Ok(LineModel::Comment)
        } else if spec_parse_label(s) is Some {
            Ok(LineModel::Label(spec_parse_label(s)->Some_0))
        } else if spec_empty_line(s) {
            Ok(LineModel::EmptyLine)
        } else {
            match spec_parse_directive(s) {
                Some(Ok(d)) => Ok(LineModel::Directive(d)),
                Some(Err(e)) => Err(e),
                None => Err(ErrorModel::ParseError { msg: "Unexpected token"@, line }),
            }
        },
    }
}

/// The digit-count heuristic decides page size: a direct `$` operand whose
/// token is at most two characters long is inferred as zero page (or its
/// indexed variants), and one with a longer token as absolute (or its
/// indexed variants) — regardless of the numeric value.
pub proof fn lemma_zero_page_inference(t: Seq<char>, line: usize, end: int, a: Address)
    requires
        t.len() >= 1,
        t[0] == '$',
        spec_parse_operand(t, line) == Some((end, Ok::<OperandModel, ErrorModel>(
            OperandModel::Address(a),
        ))),
    ensures
        ({
            let i = scan_while(t, 1, space_p());
            let j = scan_while(t, i, operand_token_p());
            &&& (j - i <= 2 ==> (a.address_mode == AddressMode::ZeroPage || a.address_mode
                == AddressMode::ZeroPageX || a.address_mode == AddressMode::ZeroPageY))
            &&& (j - i > 2 ==> (a.address_mode == AddressMode::Absolute || a.address_mode
                == AddressMode::AbsoluteX || a.address_mode == AddressMode::AbsoluteY))
        }),
{
    assert(op_immediate(t, line) is None);
}

/// Whether an operand result models a spec outcome.
pub open spec fn operand_result_matches(
    r: Result<Operand, AssemblerError>,
    m: Result<OperandModel, ErrorModel>,
) -> bool {
    match r {
        Ok(o) => m matches Ok(om) && o@ == om,
        Err(e) => m matches Err(em) && e@ == em,
    }
}

/// Recognises a line holding only whitespace.
pub fn parse_empty_line(input: &str) -> (r: Result<(&str, ()), NoParse>)
    ensures
        spec_empty_line(input@) ==> (r matches Ok(p) && p.0@ == Seq::<char>::empty()),
        !spec_empty_line(input@) ==> r is Err,
{
    let v = chars_of(input);
    let i = skip_spaces(&v, 0);
    if i == v.len() {
        proof {
            reveal_strlit("");
            assert(""@ =~= Seq::<char>::empty());
        }
        Ok(("", ()))
    } else {
        Err(NoParse)
    }
}

/// Recognises a comment line and returns what follows its optional line
/// ending.
pub fn parse_comment_line(input: &str) -> (r: Result<(&str, ()), NoParse>)
    ensures
        spec_comment_matches(input@) ==> (r matches Ok(p) && p.0@ == input@.subrange(
            spec_comment_end(input@),
            input@.len() as int,
        )),
        !spec_comment_matches(input@) ==> r is Err,
{
    let v = chars_of(input);
    let i = skip_spaces(&v, 0);
    if i < v.len() && v[i] == ';' {
        let j = scan_not_line_ending(&v, i + 1);
        let end = if j < v.len() && v[j] == '\n' {
            j + 1
        } else if j < v.len() && v[j] == '\r' && j + 1 < v.len() && v[j + 1] == '\n' {
            j + 2
        } else {
            j
        };
        let rem = input.substring_char(end, v.len());
        Ok((rem, ()))
    } else {
        Err(NoParse)
    }
}

/// Recognises a label-definition line and returns the label name.
pub fn parse_label(input: &str) -> (r: Result<(&str, String), NoParse>)
    ensures
        match spec_parse_label(input@) {
            Some(name) => r matches Ok(p) && p.0@ == Seq::<char>::empty() && p.1@ == name,
            None => r is Err,
        },
{
    let v = chars_of(input);
    let i = skip_spaces(&v, 0);
    let j = scan_label_chars(&v, i);
    if j > i && j < v.len() && v[j] == ':' && skip_spaces(&v, j + 1) == v.len()
        && !check_all_ascii_digits(&v, i, j) {
        let name = input.substring_char(i, j).to_owned();
        proof {
            reveal_strlit("");
            assert(""@ =~= Seq::<char>::empty());
        }
        Ok(("", name))
    } else {
        Err(NoParse)
    }
}

/// Recognises a directive line: the directive it denotes, or the error its
/// name or argument produces.
pub fn parse_directive(input: &str) -> (r: Result<
    (&str, Result<Directive, AssemblerError>),
    NoParse,
>)
    ensures
        match spec_parse_directive(input@) {
            Some(Ok(d)) => r matches Ok(p) && p.0@ == Seq::<char>::empty() && (p.1 matches Ok(
                d2,
            ) && d2 == d),
            Some(Err(e)) => r matches Ok(p) && p.0@ == Seq::<char>::empty() && (p.1 matches Err(
                err,
            ) && err@ == e),
            None => r is Err,
        },
{
    let v = chars_of(input);
    let i = skip_spaces(&v, 0);
    if i == v.len() || v[i] != '.' {
        return Err(NoParse);
    }
    let j = scan_ascii_alpha(&v, i + 1);
    if j == i + 1 {
        return Err(NoParse);
    }
    let k = skip_spaces(&v, j);
    if k == j || k == v.len() || v[k] != '$' {
        return Err(NoParse);
    }
    let h = scan_hex_chars(&v, k + 1);
    if h == k + 1 || skip_spaces(&v, h) != v.len() {
        return Err(NoParse);
    }
    proof {
        reveal_strlit("");
        assert(""@ =~= Seq::<char>::empty());
    }
    let name = input.substring_char(i + 1, j);
    let name_chars = chars_of(name);
    if chars_eq_str_ignore_case(&name_chars, "org") {
        match parse_hex_bounded(&v, k + 1, h, 0xFFFF) {
            Ok(value) => Ok(("", Ok(Directive::Org(value as u16)))),
            Err(_) => Ok(
                ("", Err(AssemblerError::ParseErrorNom(String::from_str("Failed to parse to u16")))),
            ),
        }
    } else {
        Ok(("", Err(AssemblerError::InvalidDirective(name.to_owned()))))
    }
}

/// Recognises a mnemonic token at the start of the text and returns the
/// remainder and the token.
pub fn parse_operation(input: &str) -> (r: Result<(&str, &str), NoParse>)
    ensures
        ({
            let j = scan_while(input@, 0, mnemonic_char_p());
            &&& j > 0 ==> (r matches Ok(p) && p.0@ == input@.subrange(j, input@.len() as int)
                && p.1@ == input@.subrange(0, j))
            &&& j == 0 ==> r is Err
        }),
{
    let v = chars_of(input);
    let j = scan_mnemonic_chars(&v, 0);
    if j == 0 {
        Err(NoParse)
    } else {
        Ok((input.substring_char(j, v.len()), input.substring_char(0, j)))
    }
}

/// Converts a hexadecimal token into an address operand of the given mode,
/// or the line-tagged parse error the conversion produces.
fn hex_operand_exec(
    v: &Vec<char>,
    from: usize,
    to: usize,
    mode: AddressMode,
    line_num: usize,
) -> (r: Result<Operand, AssemblerError>)
    requires
        from < to <= v@.len(),
    ensures
        operand_result_matches(r, hex_operand(v@.subrange(from as int, to as int), mode, line_num)),
{
    match parse_hex_bounded(v, from, to, 0xFFFFFFFF) {
        Ok(value) => Ok(Operand::Address(Address { address: value, address_mode: mode })),
        Err(HexError::InvalidDigit) => Err(
            AssemblerError::ParseError {
                msg: String::from_str("invalid digit found in string"),
                line: line_num,
            },
        ),
        Err(HexError::Overflow) => Err(
            AssemblerError::ParseError {
                msg: String::from_str("number too large to fit in target type"),
                line: line_num,
            },
        ),
    }
}

fn try_immediate(v: &Vec<char>, line_num: usize) -> (r: Option<
    (usize, Result<Operand, AssemblerError>),
>)
    ensures
        match op_immediate(v@, line_num) {
            Some((end, m)) => r matches Some(p) && p.0 == end && p.0 <= v@.len()
                && operand_result_matches(p.1, m),
            None => r is None,
        },
{
    if v.len() >= 2 && v[0] == '#' && v[1] == '$' {
        let i = skip_spaces(v, 2);
        let j = scan_operand_token(v, i);
        if j == i {
            None
        } else {
            Some((j, hex_operand_exec(v, i, j, AddressMode::Immediate, line_num)))
        }
    } else {
        None
    }
}

fn try_dollar(v: &Vec<char>, line_num: usize) -> (r: Option<
    (usize, Result<Operand, AssemblerError>),
>)
    ensures
        match op_dollar(v@, line_num) {
            Some((end, m)) => r matches Some(p) && p.0 == end && p.0 <= v@.len()
                && operand_result_matches(p.1, m),
            None => r is None,
        },
{
    if v.len() >= 1 && v[0] == '$' {
        let i = skip_spaces(v, 1);
        let j = scan_operand_token(v, i);
        if j == i {
            return None;
        }
        let token_len = j - i;
        let k = skip_spaces(v, j);
        if k < v.len() && v[k] == ',' {
            let m = skip_spaces(v, k + 1);
            let n = scan_index_token(v, m);
            if n > m {
                let tail_is_x = n == m + 1 && v[m] == 'X';
                let tail_is_y = n == m + 1 && v[m] == 'Y';
                proof {
                    reveal_strlit("X");
                    reveal_strlit("Y");
                    let tail = v@.subrange(m as int, n as int);
                    assert(tail.len() == n - m);
                    assert(tail[0] == v@[m as int]);
                    assert("X"@.len() == 1 && "X"@[0] == 'X');
                    assert("Y"@.len() == 1 && "Y"@[0] == 'Y');
                    if n == m + 1 && v@[m as int] == 'X' {
                        assert(tail =~= "X"@);
                    }
                    if n == m + 1 && v@[m as int] == 'Y' {
                        assert(tail =~= "Y"@);
                    }
                    assert(tail == "X"@ ==> tail.len() == 1 && tail[0] == 'X');
                    assert(tail == "Y"@ ==> tail.len() == 1 && tail[0] == 'Y');
                    assert(tail_is_x == (tail == "X"@));
                    assert(tail_is_y == (tail == "Y"@));
                }
                let mode = if tail_is_x {
                    if token_len > 2 {
                        AddressMode::AbsoluteX
                    } else {
                        AddressMode::ZeroPageX
                    }
                } else if tail_is_y {
                    if token_len > 2 {
                        AddressMode::AbsoluteY
                    } else {
                        AddressMode::ZeroPageY
                    }
                } else {
                    if token_len > 2 {
                        AddressMode::Absolute
                    } else {
                        AddressMode::ZeroPage
                    }
                };
                Some((n, hex_operand_exec(v, i, j, mode, line_num)))
            } else {
                let mode = if token_len > 2 {
                    AddressMode::Absolute
                } else {
                    AddressMode::ZeroPage
                };
                Some((j, hex_operand_exec(v, i, j, mode, line_num)))
            }
        } else {
            let mode = if token_len > 2 {
                AddressMode::Absolute
            } else {
                AddressMode::ZeroPage
            };
            Some((j, hex_operand_exec(v, i, j, mode, line_num)))
        }
    } else {
        None
    }
}

fn try_indirect_x(v: &Vec<char>, line_num: usize) -> (r: Option<
    (usize, Result<Operand, AssemblerError>),
>)
    ensures
        match op_indirect_x(v@, line_num) {
            Some((end, m)) => r matches Some(p) && p.0 == end && p.0 <= v@.len()
                && operand_result_matches(p.1, m),
            None => r is None,
        },
{
    if v.len() >= 1 && v[0] == '(' {
        let a = skip_spaces(v, 1);
        if a < v.len() && v[a] == '$' {
            let b = skip_spaces(v, a + 1);
            let c = scan_hex_chars_at_most(v, b, 2);
            if c == b {
                return None;
            }
            let d = skip_spaces(v, c);
            if d < v.len() && v[d] == ',' {
                let e = skip_spaces(v, d + 1);
                if e < v.len() && (v[e] == 'X' || v[e] == 'x') {
                    let f = skip_spaces(v, e + 1);
                    if f < v.len() && v[f] == ')' {
                        return Some(
                            (f + 1, hex_operand_exec(v, b, c, AddressMode::IndirectX, line_num)),
                        );
                    }
                }
            }
            None
        } else {
            None
        }
    } else {
        None
    }
}

fn try_indirect_y(v: &Vec<char>, line_num: usize) -> (r: Option<
    (usize, Result<Operand, AssemblerError>),
>)
    ensures
        match op_indirect_y(v@, line_num) {
            Some((end, m)) => r matches Some(p) && p.0 == end && p.0 <= v@.len()
                && operand_result_matches(p.1, m),
            None => r is None,
        },
{
    if v.len() >= 1 && v[0] == '(' {
        let a = skip_spaces(v, 1);
        if a < v.len() && v[a] == '$' {
            let b = skip_spaces(v, a + 1);
            let c = scan_hex_chars_at_most(v, b, 2);
            if c == b {
                return None;
            }
            let d = skip_spaces(v, c);
            if d < v.len() && v[d] == ')' {
                let e = skip_spaces(v, d + 1);
                if e < v.len() && v[e] == ',' {
                    let f = skip_spaces(v, e + 1);
                    if f < v.len() && (v[f] == 'Y' || v[f] == 'y') {
                        return Some(
                            (f + 1, hex_operand_exec(v, b, c, AddressMode::IndirectY, line_num)),
                        );
                    }
                }
            }
            None
        } else {
            None
        }
    } else {
        None
    }
}

fn try_indirect(v: &Vec<char>, line_num: usize) -> (r: Option<
    (usize, Result<Operand, AssemblerError>),
>)
    ensures
        match op_indirect(v@, line_num) {
            Some((end, m)) => r matches Some(p) && p.0 == end && p.0 <= v@.len()
                && operand_result_matches(p.1, m),
            None => r is None,
        },
{
    if v.len() >= 1 && v[0] == '(' {
        let a = skip_spaces(v, 1);
        if a < v.len() && v[a] == '$' {
            let b = skip_spaces(v, a + 1);
            let c = scan_hex_chars_at_most(v, b, 4);
            if c == b {
                return None;
            }
            let d = skip_spaces(v, c);
            if d < v.len() && v[d] == ')' {
                return Some((d + 1, hex_operand_exec(v, b, c, AddressMode::Indirect, line_num)));
            }
            None
        } else {
            None
        }
    } else {
        None
    }
}

fn try_accumulator(v: &Vec<char>) -> (r: Option<(usize, Result<Operand, AssemblerError>)>)
    ensures
        match op_accumulator(v@) {
            Some((end, m)) => r matches Some(p) && p.0 == end && p.0 <= v@.len()
                && operand_result_matches(p.1, m),
            None => r is None,
        },
{
    if v.len() >= 1 && (v[0] == 'A' || v[0] == 'a') && skip_spaces(v, 1) == v.len() {
        Some(
            (
                v.len(),
                Ok(Operand::Address(Address { address: 0, address_mode: AddressMode::Accumulator })),
            ),
        )
    } else {
        None
    }
}

fn try_label(input: &str, v: &Vec<char>) -> (r: Option<(usize, Result<Operand, AssemblerError>)>)
    requires
        v@ == input@,
    ensures
        match op_label(v@) {
            Some((end, m)) => r matches Some(p) && p.0 == end && p.0 <= v@.len()
                && operand_result_matches(p.1, m),
            None => r is None,
        },
{
    if v.len() >= 1 {
        let c = v[0] as u32;
        if (65 <= c && c <= 90) || (97 <= c && c <= 122) || v[0] == '_' {
            let j = scan_label_chars(v, 1);
            let name = input.substring_char(0, j).to_owned();
            return Some((j, Ok(Operand::Label(name))));
        }
        None
    } else {
        None
    }
}

/// Recognises one operand, returning what follows the matched form and the
/// operand it denotes — or the error its numeric conversion produces. A text
/// matching no operand form is refused outright.
pub fn parse_operand(input: &str, line_num: usize) -> (r: Result<
    (&str, Result<Operand, AssemblerError>),
    NoParse,
>)
    ensures
        match spec_parse_operand(input@, line_num) {
            Some((end, m)) => r matches Ok(p) && p.0@ == input@.subrange(end, input@.len() as int)
                && operand_result_matches(p.1, m),
            None => r is Err,
        },
{
    let v = chars_of(input);
    let outcome = if let Some(p) = try_immediate(&v, line_num) {
        Some(p)
    } else if let Some(p) = try_dollar(&v, line_num) {
        Some(p)
    } else if let Some(p) = try_indirect_x(&v, line_num) {
        Some(p)
    } else if let Some(p) = try_indirect_y(&v, line_num) {
        Some(p)
    } else if let Some(p) = try_indirect(&v, line_num) {
        Some(p)
    } else if let Some(p) = try_accumulator(&v) {
        Some(p)
    } else if let Some(p) = try_label(input, &v) {
        Some(p)
    } else {
        None
    };
    match outcome {
        Some((end, res)) => {
            let rem = input.substring_char(end, v.len());
            Ok((rem, res))
        },
        None => Err(NoParse),
    }
}

/// Recognises an instruction line: the instruction it denotes, or the error
/// its operand field produces. A line that lacks the shape is refused.
pub fn parse_instruction(input: &str, line_num: usize) -> (r: Result<
    (&str, Result<Instruction, AssemblerError>),
    NoParse,
>)
    ensures
        match spec_parse_instruction(input@, line_num) {
            Some(Ok(im)) => r matches Ok(p) && p.0@ == Seq::<char>::empty() && (p.1 matches Ok(
                i,
            ) && i@ == im),
            Some(Err(e)) => r matches Ok(p) && p.0@ == Seq::<char>::empty() && (p.1 matches Err(
                err,
            ) && err@ == e),
            None => r is Err,
        },
{
    let v = chars_of(input);
    let i = skip_spaces(&v, 0);
    let j = scan_mnemonic_chars(&v, i);
    if j == i {
        return Err(NoParse);
    }
    let has_field = j < v.len() && (v[j] == ' ' || v[j] == '\t' || v[j] == '\r' || v[j] == '\n');
    let k = skip_spaces(&v, j);
    let m = if has_field {
        scan_line_text(&v, k)
    } else {
        j
    };
    let p = skip_spaces(&v, m);
    if p < v.len() && v[p] != ';' {
        return Err(NoParse);
    }
    proof {
        reveal_strlit("");
        assert(""@ =~= Seq::<char>::empty());
    }
    let opcode = input.substring_char(i, j).to_owned();
    if !has_field {
        return Ok(("", Ok(Instruction { opcode, operand: None })));
    }
    if m == k || check_all_unicode_whitespace(&v, k, m) {
        return Ok(("", Ok(Instruction { opcode, operand: None })));
    }
    let text = input.substring_char(k, m);
    match parse_operand(text, line_num) {
        Ok((_rest, Ok(op))) => Ok(("", Ok(Instruction { opcode, operand: Some(op) }))),
        Ok((_rest, Err(e))) => Ok(("", Err(e))),
        Err(_) => {
            let msg = String::from_str("could not parse operand: ").concat(text);
            Ok(("", Err(AssemblerError::IOError(msg))))
        },
    }
}

/// Parses one line of source, tagged with its 1-based number. The first
/// matching alternative — instruction, comment, label, blank, directive —
/// decides; instruction lines are validated against their mnemonic's rule,
/// and a line matching nothing fails with an unexpected-token error.
pub fn parse_line(input: &str, line_num: usize) -> (r: Result<Line, AssemblerError>)
    ensures
        match spec_parse_line(input@, line_num) {
            Ok(lm) => r matches Ok(l) && l@ == lm,
            Err(e) => r matches Err(err) && err@ == e,
        },
{
    match parse_instruction(input, line_num) {
        Ok((_rest, Ok(instr))) => match validate_instruction(&instr, line_num) {
            Ok(()) => Ok(Line::Instruction(instr)),
            Err(e) => Err(e),
        },
        Ok((_rest, Err(e))) => Err(e),
        Err(_) => {
            if let Ok(_) = parse_comment_line(input) {
                return Ok(Line::Comment);
            }
            match parse_label(input) {
                Ok((_rest, name)) => {
                    return Ok(Line::Label(name));
                },
                Err(_) => {},
            }
            if let Ok(_) = parse_empty_line(input) {
                return Ok(Line::EmptyLine);
            }
            match parse_directive(input) {
                Ok((_rest, Ok(d))) => Ok(Line::Directive(d)),
                Ok((_rest, Err(e))) => Err(e),
                Err(_) => Err(
                    AssemblerError::ParseError {
                        msg: String::from_str("Unexpected token"),
                        line: line_num,
                    },
                ),
            }
        },
    }
}

} // verus!

