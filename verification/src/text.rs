//! Character classes, text scanners and numeric conversions used by the line
//! parser and by error-message construction.
//!
//! Everything here works over `Seq<char>` views; the scanners are the
//! building blocks of the line grammar.

use vstd::prelude::*;

verus! {

/// Whether `c` is in a Unicode letter or number category.
pub uninterp spec fn unicode_alphanumeric(c: char) -> bool;

/// Relies on char::is_alphanumeric: whether the character is in a Unicode
/// letter or number category; a function of the character alone.
#[verifier::external_body]
pub(crate) fn char_is_alphanumeric(c: char) -> (r: bool)
    ensures
        r == unicode_alphanumeric(c),
{
    c.is_alphanumeric()
}

/// Whether `c` has the Unicode whitespace property.
pub uninterp spec fn unicode_whitespace(c: char) -> bool;

/// Relies on char::is_whitespace: whether the character has the Unicode
/// whitespace property; a function of the character alone.
#[verifier::external_body]
pub(crate) fn char_is_whitespace(c: char) -> (r: bool)
    ensures
        r == unicode_whitespace(c),
{
    c.is_whitespace()
}

/// The whitespace characters the grammar itself skips: space, tab, carriage
/// return and line feed.
pub open spec fn is_space(c: char) -> bool {
    c == ' ' || c == '\t' || c == '\r' || c == '\n'
}

/// ASCII decimal digit.
pub open spec fn is_ascii_digit(c: char) -> bool {
    48 <= c as u32 <= 57
}

/// ASCII letter.
pub open spec fn is_ascii_alpha(c: char) -> bool {
    (65 <= c as u32 <= 90) || (97 <= c as u32 <= 122)
}

/// ASCII hexadecimal digit.
pub open spec fn is_hex_digit(c: char) -> bool {
    is_ascii_digit(c) || (97 <= c as u32 <= 102) || (65 <= c as u32 <= 70)
}

/// Numeric value of a hexadecimal digit.
pub open spec fn hex_digit_val(c: char) -> int {
    if is_ascii_digit(c) {
        c as u32 - 48
    } else if 97 <= c as u32 <= 102 {
        c as u32 - 87
    } else {
        c as u32 - 55
    }
}

/// The code of `c` with an ASCII lower-case letter mapped to its upper-case
/// counterpart.
pub open spec fn upper_code(c: char) -> int {
    if 97 <= c as u32 <= 122 {
        c as u32 - 32
    } else {
        c as u32 as int
    }
}

/// Equality of two texts up to ASCII letter case.
pub open spec fn eq_ignore_ascii_case(s: Seq<char>, t: Seq<char>) -> bool {
    s.len() == t.len() && (forall|i: int| 0 <= i < s.len() ==> upper_code(s[i]) == upper_code(t[i]))
}

/// First position at or after `i` whose character fails `p`, or the end of
/// the text.
pub open spec fn scan_while(s: Seq<char>, i: int, p: spec_fn(char) -> bool) -> int
    decreases s.len() - i,
    when 0 <= i <= s.len()
{
    if i == s.len() || !p(s[i]) {
        i
    } else {
        scan_while(s, i + 1, p)
    }
}

/// Like `scan_while`, but advancing at most `m` positions.
pub open spec fn scan_while_at_most(s: Seq<char>, i: int, m: int, p: spec_fn(char) -> bool) -> int
    decreases m,
    when 0 <= i <= s.len() && 0 <= m
{
    if m == 0 || i == s.len() || !p(s[i]) {
        i
    } else {
        scan_while_at_most(s, i + 1, m - 1, p)
    }
}

pub open spec fn space_p() -> spec_fn(char) -> bool {
    |c: char| is_space(c)
}

pub open spec fn label_char_p() -> spec_fn(char) -> bool {
    |c: char| unicode_alphanumeric(c) || c == '_'
}

pub open spec fn mnemonic_char_p() -> spec_fn(char) -> bool {
    |c: char| unicode_alphanumeric(c) && c != ':'
}

pub open spec fn hex_digit_p() -> spec_fn(char) -> bool {
    |c: char| is_hex_digit(c)
}

pub open spec fn ascii_alpha_p() -> spec_fn(char) -> bool {
    |c: char| is_ascii_alpha(c)
}

/// Characters an unparenthesised operand token may contain.
pub open spec fn operand_token_p() -> spec_fn(char) -> bool {
    |c: char| c != ',' && c != ' ' && c != ';' && c != '\n'
}

/// Characters an index-register token (after the comma) may contain.
pub open spec fn index_token_p() -> spec_fn(char) -> bool {
    |c: char| c != ' ' && c != ';' && c != '\n'
}

/// Characters of the operand field of an instruction: anything up to a
/// comment or a line ending.
pub open spec fn line_text_p() -> spec_fn(char) -> bool {
    |c: char| c != ';' && c != '\n' && c != '\r'
}

/// Characters of a comment body: anything up to a line ending.
pub open spec fn not_line_ending_p() -> spec_fn(char) -> bool {
    |c: char| c != '\n' && c != '\r'
}

/// Skips everything up to a line ending.
pub fn scan_not_line_ending(v: &Vec<char>, i: usize) -> (r: usize)
    requires
        i <= v@.len(),
    ensures
        r == scan_while(v@, i as int, not_line_ending_p()),
        i <= r <= v@.len(),
{
    let mut j = i;
    while j < v.len() && v[j] != '\n' && v[j] != '\r'
        invariant
            i <= j <= v@.len(),
            scan_while(v@, i as int, not_line_ending_p()) == scan_while(
                v@,
                j as int,
                not_line_ending_p(),
            ),
        decreases v@.len() - j,
    {
        j += 1;
    }
    j
}

/// Skips space, tab, carriage return and line feed.
pub fn skip_spaces(v: &Vec<char>, i: usize) -> (r: usize)
    requires
        i <= v@.len(),
    ensures
        r == scan_while(v@, i as int, space_p()),
        i <= r <= v@.len(),
{
    let mut j = i;
    while j < v.len() && (v[j] == ' ' || v[j] == '\t' || v[j] == '\r' || v[j] == '\n')
        invariant
            i <= j <= v@.len(),
            scan_while(v@, i as int, space_p()) == scan_while(v@, j as int, space_p()),
        decreases v@.len() - j,
    {
        j += 1;
    }
    j
}

/// Skips Unicode alphanumerics and underscores.
pub fn scan_label_chars(v: &Vec<char>, i: usize) -> (r: usize)
    requires
        i <= v@.len(),
    ensures
        r == scan_while(v@, i as int, label_char_p()),
        i <= r <= v@.len(),
{
    let mut j = i;
    while j < v.len() && (v[j] == '_' || char_is_alphanumeric(v[j]))
        invariant
            i <= j <= v@.len(),
            scan_while(v@, i as int, label_char_p()) == scan_while(v@, j as int, label_char_p()),
        decreases v@.len() - j,
    {
        j += 1;
    }
    j
}

/// Skips the characters a mnemonic may contain.
pub fn scan_mnemonic_chars(v: &Vec<char>, i: usize) -> (r: usize)
    requires
        i <= v@.len(),
    ensures
        r == scan_while(v@, i as int, mnemonic_char_p()),
        i <= r <= v@.len(),
{
    let mut j = i;
    while j < v.len() && v[j] != ':' && char_is_alphanumeric(v[j])
        invariant
            i <= j <= v@.len(),
            scan_while(v@, i as int, mnemonic_char_p()) == scan_while(
                v@,
                j as int,
                mnemonic_char_p(),
            ),
        decreases v@.len() - j,
    {
        j += 1;
    }
    j
}

/// Skips ASCII hexadecimal digits.
pub fn scan_hex_chars(v: &Vec<char>, i: usize) -> (r: usize)
    requires
        i <= v@.len(),
    ensures
        r == scan_while(v@, i as int, hex_digit_p()),
        i <= r <= v@.len(),
{
    let mut j = i;
    while j < v.len() && (48 <= v[j] as u32 && v[j] as u32 <= 57 || 97 <= v[j] as u32 && v[j] as u32
        <= 102 || 65 <= v[j] as u32 && v[j] as u32 <= 70)
        invariant
            i <= j <= v@.len(),
            scan_while(v@, i as int, hex_digit_p()) == scan_while(v@, j as int, hex_digit_p()),
        decreases v@.len() - j,
    {
        j += 1;
    }
    j
}

/// Skips at most `m` ASCII hexadecimal digits.
pub fn scan_hex_chars_at_most(v: &Vec<char>, i: usize, m: usize) -> (r: usize)
    requires
        i <= v@.len(),
    ensures
        r == scan_while_at_most(v@, i as int, m as int, hex_digit_p()),
        i <= r <= v@.len(),
        r - i <= m,
{
    let mut j = i;
    while j < v.len() && j - i < m && (48 <= v[j] as u32 && v[j] as u32 <= 57 || 97 <= v[j] as u32
        && v[j] as u32 <= 102 || 65 <= v[j] as u32 && v[j] as u32 <= 70)
        invariant
            i <= j <= v@.len(),
            j - i <= m,
            scan_while_at_most(v@, i as int, m as int, hex_digit_p()) == scan_while_at_most(
                v@,
                j as int,
                m - (j - i),
                hex_digit_p(),
            ),
        decreases v@.len() - j,
    {
        j += 1;
    }
    j
}

/// Skips the characters of an unparenthesised operand token.
pub fn scan_operand_token(v: &Vec<char>, i: usize) -> (r: usize)
    requires
        i <= v@.len(),
    ensures
        r == scan_while(v@, i as int, operand_token_p()),
        i <= r <= v@.len(),
{
    let mut j = i;
    while j < v.len() && v[j] != ',' && v[j] != ' ' && v[j] != ';' && v[j] != '\n'
        invariant
            i <= j <= v@.len(),
            scan_while(v@, i as int, operand_token_p()) == scan_while(
                v@,
                j as int,
                operand_token_p(),
            ),
        decreases v@.len() - j,
    {
        j += 1;
    }
    j
}

/// Skips the characters of an index-register token.
pub fn scan_index_token(v: &Vec<char>, i: usize) -> (r: usize)
    requires
        i <= v@.len(),
    ensures
        r == scan_while(v@, i as int, index_token_p()),
        i <= r <= v@.len(),
{
    let mut j = i;
    while j < v.len() && v[j] != ' ' && v[j] != ';' && v[j] != '\n'
        invariant
            i <= j <= v@.len(),
            scan_while(v@, i as int, index_token_p()) == scan_while(v@, j as int, index_token_p()),
        decreases v@.len() - j,
    {
        j += 1;
    }
    j
}

/// Skips everything up to a comment or a line ending.
pub fn scan_line_text(v: &Vec<char>, i: usize) -> (r: usize)
    requires
        i <= v@.len(),
    ensures
        r == scan_while(v@, i as int, line_text_p()),
        i <= r <= v@.len(),
{
    let mut j = i;
    while j < v.len() && v[j] != ';' && v[j] != '\n' && v[j] != '\r'
        invariant
            i <= j <= v@.len(),
            scan_while(v@, i as int, line_text_p()) == scan_while(v@, j as int, line_text_p()),
        decreases v@.len() - j,
    {
        j += 1;
    }
    j
}

/// Skips ASCII letters.
pub fn scan_ascii_alpha(v: &Vec<char>, i: usize) -> (r: usize)
    requires
        i <= v@.len(),
    ensures
        r == scan_while(v@, i as int, ascii_alpha_p()),
        i <= r <= v@.len(),
{
    let mut j = i;
    while j < v.len() && (65 <= v[j] as u32 && v[j] as u32 <= 90 || 97 <= v[j] as u32 && v[j] as u32
        <= 122)
        invariant
            i <= j <= v@.len(),
            scan_while(v@, i as int, ascii_alpha_p()) == scan_while(v@, j as int, ascii_alpha_p()),
        decreases v@.len() - j,
    {
        j += 1;
    }
    j
}

/// Whether every character of `s[from..to]` is Unicode whitespace.
pub open spec fn all_unicode_whitespace(s: Seq<char>, from: int, to: int) -> bool {
    forall|k: int| from <= k < to ==> unicode_whitespace(s[k])
}

pub fn check_all_unicode_whitespace(v: &Vec<char>, from: usize, to: usize) -> (r: bool)
    requires
        from <= to <= v@.len(),
    ensures
        r == all_unicode_whitespace(v@, from as int, to as int),
{
    let mut j = from;
    while j < to
        invariant
            from <= j <= to <= v@.len(),
            forall|k: int| from <= k < j ==> unicode_whitespace(v@[k]),
        decreases to - j,
    {
        if !char_is_whitespace(v[j]) {
            return false;
        }
        j += 1;
    }
    true
}

/// Whether every character of `s[from..to]` is an ASCII decimal digit.
pub open spec fn all_ascii_digits(s: Seq<char>, from: int, to: int) -> bool {
    forall|k: int| from <= k < to ==> is_ascii_digit(s[k])
}

pub fn check_all_ascii_digits(v: &Vec<char>, from: usize, to: usize) -> (r: bool)
    requires
        from <= to <= v@.len(),
    ensures
        r == all_ascii_digits(v@, from as int, to as int),
{
    let mut j = from;
    while j < to
        invariant
            from <= j <= to <= v@.len(),
            forall|k: int| from <= k < j ==> is_ascii_digit(v@[k]),
        decreases to - j,
    {
        if !(48 <= v[j] as u32 && v[j] as u32 <= 57) {
            return false;
        }
        j += 1;
    }
    true
}

/// The characters of `s`, in order.
pub fn chars_of(s: &str) -> (v: Vec<char>)
    ensures
        v@ == s@,
{
    let n = s.unicode_len();
    let mut v: Vec<char> = Vec::new();
    let mut i: usize = 0;
    while i < n
        invariant
            n == s@.len(),
            i <= n,
            v@ == s@.subrange(0, i as int),
        decreases n - i,
    {
        v.push(s.get_char(i));
        proof {
            assert(s@.subrange(0, i as int).push(s@[i as int]) =~= s@.subrange(0, i + 1 as int));
        }
        i += 1;
    }
    proof {
        assert(v@ =~= s@);
    }
    v
}

/// Whether the characters of `v` spell exactly `t`.
pub fn chars_eq_str(v: &Vec<char>, t: &str) -> (r: bool)
    ensures
        r == (v@ == t@),
{
    let n = t.unicode_len();
    if v.len() != n {
        return false;
    }
    let mut i: usize = 0;
    while i < n
        invariant
            n == t@.len(),
            v@.len() == n,
            i <= n,
            forall|k: int| 0 <= k < i ==> v@[k] == t@[k],
        decreases n - i,
    {
        if v[i] != t.get_char(i) {
            return false;
        }
        i += 1;
    }
    proof {
        assert(v@ =~= t@);
    }
    true
}

/// Whether the characters of `v` spell `t` up to ASCII letter case.
pub fn chars_eq_str_ignore_case(v: &Vec<char>, t: &str) -> (r: bool)
    ensures
        r == eq_ignore_ascii_case(v@, t@),
{
    let n = t.unicode_len();
    if v.len() != n {
        return false;
    }
    let mut i: usize = 0;
    while i < n
        invariant
            n == t@.len(),
            v@.len() == n,
            i <= n,
            forall|k: int| 0 <= k < i ==> upper_code(v@[k]) == upper_code(t@[k]),
        decreases n - i,
    {
        let a = v[i] as u32;
        let b = t.get_char(i) as u32;
        let ua = if 97 <= a && a <= 122 {
            a - 32
        } else {
            a
        };
        let ub = if 97 <= b && b <= 122 {
            b - 32
        } else {
            b
        };
        if ua != ub {
            return false;
        }
        i += 1;
    }
    true
}

/// Whether two string slices hold the same characters.
pub fn str_eq(a: &str, b: &str) -> (r: bool)
    ensures
        r == (a@ == b@),
{
    let n = a.unicode_len();
    if b.unicode_len() != n {
        return false;
    }
    let mut i: usize = 0;
    while i < n
        invariant
            n == a@.len(),
            b@.len() == n,
            i <= n,
            forall|k: int| 0 <= k < i ==> a@[k] == b@[k],
        decreases n - i,
    {
        if a.get_char(i) != b.get_char(i) {
            return false;
        }
        i += 1;
    }
    proof {
        assert(a@ =~= b@);
    }
    true
}

/// How a hexadecimal token fails to denote a value.
#[derive(Debug, PartialEq, Eq, Clone, Copy, Structural)]
pub enum HexError {
    /// A character is not a hexadecimal digit.
    InvalidDigit,
    /// The value does not fit the target width.
    Overflow,
}

/// Outcome of scanning hexadecimal digits left to right with an accumulator,
/// failing at the first bad digit or at the first step past `max`.
pub open spec fn hex_scan(s: Seq<char>, acc: int, max: int) -> Result<int, HexError>
    decreases s.len(),
{
    if s.len() == 0 {
        Ok(acc)
    } else if !is_hex_digit(s[0]) {
        Err(HexError::InvalidDigit)
    } else if acc * 16 + hex_digit_val(s[0]) > max {
        Err(HexError::Overflow)
    } else {
        hex_scan(s.drop_first(), acc * 16 + hex_digit_val(s[0]), max)
    }
}

/// The value a hexadecimal token denotes, allowing one leading `+`,
/// or the error its first offending position produces.
pub open spec fn spec_parse_hex(s: Seq<char>, max: int) -> Result<int, HexError> {
    if s.len() == 0 {
        Err(HexError::InvalidDigit)
    } else if s[0] == '+' {
        if s.len() == 1 {
            Err(HexError::InvalidDigit)
        } else {
            hex_scan(s.drop_first(), 0, max)
        }
    } else {
        hex_scan(s, 0, max)
    }
}

/// Reads `v[from..to]` as a hexadecimal number no greater than `max`,
/// accepting one leading `+`.
pub fn parse_hex_bounded(v: &Vec<char>, from: usize, to: usize, max: u32) -> (r: Result<
    u32,
    HexError,
>)
    requires
        from < to <= v@.len(),
    ensures
        match spec_parse_hex(v@.subrange(from as int, to as int), max as int) {
            Ok(n) => r == Ok::<u32, HexError>(n as u32) && 0 <= n <= max,
            Err(e) => r == Err::<u32, HexError>(e),
        },
{
    let ghost s = v@.subrange(from as int, to as int);
    let mut i = from;
    if v[from] == '+' {
        if from + 1 == to {
            return Err(HexError::InvalidDigit);
        }
        i = from + 1;
    }
    proof {
        if v@[from as int] == '+' {
            assert(s.drop_first() =~= v@.subrange(i as int, to as int));
        } else {
            assert(s =~= v@.subrange(i as int, to as int));
        }
    }
    let mut acc: u32 = 0;
    let mut j = i;
    while j < to
        invariant
            i <= j <= to <= v@.len(),
            acc <= max,
            s == v@.subrange(from as int, to as int),
            spec_parse_hex(s, max as int) == hex_scan(
                v@.subrange(j as int, to as int),
                acc as int,
                max as int,
            ),
        decreases to - j,
    {
        let ghost u = v@.subrange(j as int, to as int);
        proof {
            assert(u[0] == v@[j as int]);
        }
        let c = v[j] as u32;
        let d: u32 = if 48 <= c && c <= 57 {
            c - 48
        } else if 97 <= c && c <= 102 {
            c - 87
        } else if 65 <= c && c <= 70 {
            c - 55
        } else {
            proof {
                assert(!is_hex_digit(u[0]));
                assert(hex_scan(u, acc as int, max as int) == Err::<int, HexError>(
                    HexError::InvalidDigit,
                ));
            }
            return Err(HexError::InvalidDigit);
        };
        proof {
            assert(is_hex_digit(u[0]) && hex_digit_val(u[0]) == d);
        }
        let wide: u64 = acc as u64 * 16 + d as u64;
        if wide > max as u64 {
            return Err(HexError::Overflow);
        }
        acc = wide as u32;
        proof {
            assert(u.drop_first() =~= v@.subrange(j + 1 as int, to as int));
        }
        j += 1;
    }
    proof {
        assert(v@.subrange(to as int, to as int) =~= Seq::<char>::empty());
    }
    Ok(acc)
}

/// The decimal digit character for `n`.
pub open spec fn dec_digit(n: int) -> char {
    if n == 0 {
        '0'
    } else if n == 1 {
        '1'
    } else if n == 2 {
        '2'
    } else if n == 3 {
        '3'
    } else if n == 4 {
        '4'
    } else if n == 5 {
        '5'
    } else if n == 6 {
        '6'
    } else if n == 7 {
        '7'
    } else if n == 8 {
        '8'
    } else {
        '9'
    }
}

/// The decimal rendering of a non-negative number.
pub open spec fn dec_str(n: int) -> Seq<char>
    decreases n,
    when n >= 0
{
    if n < 10 {
        seq![dec_digit(n)]
    } else {
        dec_str(n / 10).push(dec_digit(n % 10))
    }
}

fn dec_digit_str(d: u32) -> (r: &'static str)
    requires
        d < 10,
    ensures
        r@ == seq![dec_digit(d as int)],
{
    proof {
        reveal_strlit("0");
        reveal_strlit("1");
        reveal_strlit("2");
        reveal_strlit("3");
        reveal_strlit("4");
        reveal_strlit("5");
        reveal_strlit("6");
        reveal_strlit("7");
        reveal_strlit("8");
        reveal_strlit("9");
    }
    let r = if d == 0 {
        "0"
    } else if d == 1 {
        "1"
    } else if d == 2 {
        "2"
    } else if d == 3 {
        "3"
    } else if d == 4 {
        "4"
    } else if d == 5 {
        "5"
    } else if d == 6 {
        "6"
    } else if d == 7 {
        "7"
    } else if d == 8 {
        "8"
    } else {
        "9"
    };
    proof {
        assert(r@ =~= seq![dec_digit(d as int)]);
    }
    r
}

/// Renders a number in decimal.
pub fn u32_dec_string(n: u32) -> (s: String)
    ensures
        s@ == dec_str(n as int),
    decreases n,
{
    if n < 10 {
        String::from_str(dec_digit_str(n))
    } else {
        proof {
            assert(n / 10 < n) by (nonlinear_arith)
                requires
                    n >= 10,
            ;
        }
        let mut s = u32_dec_string(n / 10);
        s.append(dec_digit_str(n % 10));
        s
    }
}

} // verus!
