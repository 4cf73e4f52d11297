//! Lexical layer of the parser: character classes and scanners over a
//! character sequence, each an executable function proved equal to a
//! definitional spec function on the text's view.

use vstd::prelude::*;
use vstd::string::StrSliceExecFns;

verus! {

/// Inline whitespace: space, tab, or a carriage return, so that lines
/// ended by a carriage return and newline pair are read like lines
/// ended by a newline alone. Newlines separate lines and are not
/// inline whitespace.
pub open spec fn is_ws(c: char) -> bool {
    c == ' ' || c == '\t' || c == '\r'
}

/// An ASCII decimal digit.
pub open spec fn is_digit(c: char) -> bool {
    ('0' as u32) <= (c as u32) && (c as u32) <= ('9' as u32)
}

/// The numeric value of a decimal digit.
pub open spec fn digit_val(c: char) -> nat {
    ((c as u32) - ('0' as u32)) as nat
}

/// A character allowed in a bare key: ASCII letters, digits, `_`, `-`.
pub open spec fn is_key_char(c: char) -> bool {
    (('a' as u32) <= (c as u32) && (c as u32) <= ('z' as u32)) || (('A' as u32) <= (c as u32) && (c
        as u32) <= ('Z' as u32)) || is_digit(c) || c == '_' || c == '-'
}

/// A character that may stand unescaped inside a quoted string: any
/// character but the quote, the backslash, and control characters
/// other than tab.
pub open spec fn is_string_char(c: char) -> bool {
    c != '"' && c != '\\' && ((c as u32) >= 0x20 || c == '\t') && (c as u32) != 0x7f
}

/// A character that may stand inside a single-quoted string, which
/// knows no escapes: any character but the quote itself and control
/// characters other than tab.
pub open spec fn is_literal_char(c: char) -> bool {
    c != '\'' && ((c as u32) >= 0x20 || c == '\t') && (c as u32) != 0x7f
}

/// What a backslash escape denotes, or `None` for an unsupported one.
pub open spec fn escape_char(c: char) -> Option<char> {
    if c == '"' {
        Some('"')
    } else if c == '\\' {
        Some('\\')
    } else if c == 'n' {
        Some('\n')
    } else if c == 't' {
        Some('\t')
    } else if c == 'r' {
        Some('\r')
    } else {
        None
    }
}

/// First position at or after `i` holding a character that is not
/// inline whitespace, or the end of the text.
pub open spec fn spec_skip_ws(s: Seq<char>, i: int) -> int
    decreases s.len() - i,
{
    if i < 0 || i >= s.len() {
        i
    } else if is_ws(s[i]) {
        spec_skip_ws(s, i + 1)
    } else {
        i
    }
}

pub proof fn lemma_skip_ws_bounds(s: Seq<char>, i: int)
    ensures
        i <= spec_skip_ws(s, i),
        i <= s.len() ==> spec_skip_ws(s, i) <= s.len(),
    decreases s.len() - i,
{
    if 0 <= i && i < s.len() && is_ws(s[i]) {
        lemma_skip_ws_bounds(s, i + 1);
    }
}

/// First position at or after `i` holding a newline, or the end of the
/// text.
pub open spec fn spec_line_end(s: Seq<char>, i: int) -> int
    decreases s.len() - i,
{
    if i < 0 || i >= s.len() {
        s.len() as int
    } else if s[i] == '\n' {
        i
    } else {
        spec_line_end(s, i + 1)
    }
}

pub proof fn lemma_line_end_bounds(s: Seq<char>, i: int)
    ensures
        i <= spec_line_end(s, i) || i > s.len(),
        spec_line_end(s, i) <= s.len(),
    decreases s.len() - i,
{
    if 0 <= i && i < s.len() && s[i] != '\n' {
        lemma_line_end_bounds(s, i + 1);
    }
}

/// The position where the next line starts after position `i`: one
/// past the next newline, or the end of the text.
pub open spec fn spec_next_line(s: Seq<char>, i: int) -> int {
    if spec_line_end(s, i) < s.len() {
        spec_line_end(s, i) + 1
    } else {
        s.len() as int
    }
}

/// End of the run of bare-key characters starting at `i`.
pub open spec fn spec_key_end(s: Seq<char>, i: int) -> int
    decreases s.len() - i,
{
    if i < 0 || i >= s.len() {
        i
    } else if is_key_char(s[i]) {
        spec_key_end(s, i + 1)
    } else {
        i
    }
}

pub proof fn lemma_key_end_bounds(s: Seq<char>, i: int)
    ensures
        i <= spec_key_end(s, i),
        i <= s.len() ==> spec_key_end(s, i) <= s.len(),
    decreases s.len() - i,
{
    if 0 <= i && i < s.len() && is_key_char(s[i]) {
        lemma_key_end_bounds(s, i + 1);
    }
}

/// End of the run of decimal digits starting at `i`.
pub open spec fn spec_digits_end(s: Seq<char>, i: int) -> int
    decreases s.len() - i,
{
    if i < 0 || i >= s.len() {
        i
    } else if is_digit(s[i]) {
        spec_digits_end(s, i + 1)
    } else {
        i
    }
}

pub proof fn lemma_digits_end_bounds(s: Seq<char>, i: int)
    ensures
        i <= spec_digits_end(s, i),
        i <= s.len() ==> spec_digits_end(s, i) <= s.len(),
        forall|k: int| i <= k < spec_digits_end(s, i) ==> is_digit(s[k]),
    decreases s.len() - i,
{
    if 0 <= i && i < s.len() && is_digit(s[i]) {
        lemma_digits_end_bounds(s, i + 1);
    }
}

/// The number denoted by the digits `s[i..j)`, read in base ten.
pub open spec fn spec_digits_val(s: Seq<char>, i: int, j: int) -> nat
    decreases j - i,
{
    if j <= i {
        0
    } else {
        spec_digits_val(s, i, j - 1) * 10 + digit_val(s[j - 1])
    }
}

pub fn skip_ws(s: &str, i: usize) -> (r: usize)
    requires
        i <= s@.len(),
    ensures
        r == spec_skip_ws(s@, i as int),
        i <= r <= s@.len(),
    decreases s@.len() - i,
{
    let n = s.unicode_len();
    if i < n {
        let c = s.get_char(i);
        if c == ' ' || c == '\t' || c == '\r' {
            skip_ws(s, i + 1)
        } else {
            i
        }
    } else {
        i
    }
}

pub fn line_end(s: &str, i: usize) -> (r: usize)
    requires
        i <= s@.len(),
    ensures
        r == spec_line_end(s@, i as int),
        i <= r <= s@.len(),
    decreases s@.len() - i,
{
    let n = s.unicode_len();
    if i < n {
        let c = s.get_char(i);
        if c == '\n' {
            i
        } else {
            line_end(s, i + 1)
        }
    } else {
        n
    }
}

pub fn next_line(s: &str, i: usize) -> (r: usize)
    requires
        i <= s@.len(),
    ensures
        r == spec_next_line(s@, i as int),
        i <= r <= s@.len(),
{
    let e = line_end(s, i);
    let n = s.unicode_len();
    if e < n {
        e + 1
    } else {
        n
    }
}

pub fn key_end(s: &str, i: usize) -> (r: usize)
    requires
        i <= s@.len(),
    ensures
        r == spec_key_end(s@, i as int),
        i <= r <= s@.len(),
    decreases s@.len() - i,
{
    let n = s.unicode_len();
    if i < n {
        let c = s.get_char(i);
        let u = c as u32;
        if (97 <= u && u <= 122) || (65 <= u && u <= 90) || (48 <= u && u <= 57) || c == '_' || c
            == '-' {
            key_end(s, i + 1)
        } else {
            i
        }
    } else {
        i
    }
}

pub fn digits_end(s: &str, i: usize) -> (r: usize)
    requires
        i <= s@.len(),
    ensures
        r == spec_digits_end(s@, i as int),
        i <= r <= s@.len(),
    decreases s@.len() - i,
{
    let n = s.unicode_len();
    if i < n {
        let c = s.get_char(i);
        let u = c as u32;
        if 48 <= u && u <= 57 {
            digits_end(s, i + 1)
        } else {
            i
        }
    } else {
        i
    }
}

/// Reads the value of the digit run `s[i..j)` into a `u64`, or `None`
/// where the number does not fit one.
pub fn digits_val(s: &str, i: usize, j: usize) -> (r: Option<u64>)
    requires
        i <= j <= s@.len(),
        forall|k: int| i <= k < j ==> is_digit(s@[k]),
    ensures
        match r {
            Some(v) => v as nat == spec_digits_val(s@, i as int, j as int),
            None => spec_digits_val(s@, i as int, j as int) > u64::MAX,
        },
    decreases j - i,
{
    if j <= i {
        Some(0)
    } else {
        let pre = digits_val(s, i, j - 1);
        let c = s.get_char(j - 1);
        let d = ((c as u32) - 48) as u64;
        match pre {
            None => {
                proof {
                    assert(spec_digits_val(s@, i as int, j as int - 1) * 10 >= spec_digits_val(
                        s@,
                        i as int,
                        j as int - 1,
                    )) by (nonlinear_arith);
                }
                None
            },
            Some(v) => {
                match v.checked_mul(10) {
                    None => None,
                    Some(p) => p.checked_add(d),
                }
            },
        }
    }
}

/// True exactly when the span `s[i..j)` equals the word `w`.
pub fn span_eq(s: &str, i: usize, j: usize, w: &str) -> (r: bool)
    requires
        i <= j <= s@.len(),
    ensures
        r == (s@.subrange(i as int, j as int) == w@),
{
    let sub = s.substring_char(i, j).to_owned();
    let lit = w.to_owned();
    sub.eq(&lit)
}

/// Copies the span `s[i..j)` out as an owned string.
pub fn span_string(s: &str, i: usize, j: usize) -> (r: String)
    requires
        i <= j <= s@.len(),
    ensures
        r@ == s@.subrange(i as int, j as int),
{
    s.substring_char(i, j).to_owned()
}

} // verus!
