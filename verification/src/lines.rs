//! Syntactic layer of the parser: quoted strings, integers, booleans,
//! arrays of strings, section headers and `key = value` lines. Each
//! executable function is proved to return exactly what its spec
//! function denotes on the text's view.

use vstd::prelude::*;
use vstd::string::StrSliceExecFns;

use crate::errors::{FieldId, SectionId};
use crate::text::{
    digits_end, digits_val, escape_char, is_digit, is_literal_char, is_string_char, key_end,
    lemma_digits_end_bounds, lemma_key_end_bounds, lemma_skip_ws_bounds, next_line, skip_ws,
    span_eq, span_string, spec_digits_end, spec_digits_val, spec_key_end, spec_next_line,
    spec_skip_ws,
};

verus! {

/// A value as it stands on the right of `=`: a quoted string, an
/// integer (sign and magnitude), a boolean, or an array of strings.
#[derive(Debug, PartialEq, Eq)]
pub enum Value {
    VStr(String),
    VInt { neg: bool, mag: u64 },
    VBool(bool),
    VArr(Vec<String>),
}

/// Mathematical image of `Value`.
pub ghost enum ValueV {
    VStr(Seq<char>),
    VInt { neg: bool, mag: u64 },
    VBool(bool),
    VArr(Seq<Seq<char>>),
}

impl View for Value {
    type V = ValueV;

    open spec fn view(&self) -> ValueV {
        match self {
            Value::VStr(t) => ValueV::VStr(t@),
            Value::VInt { neg, mag } => ValueV::VInt { neg: *neg, mag: *mag },
            Value::VBool(b) => ValueV::VBool(*b),
            Value::VArr(items) => ValueV::VArr(items.deep_view()),
        }
    }
}

/// What one line of the file says: nothing, a section header (known or
/// unknown), or an assignment to a key (known or unknown).
#[derive(Debug, PartialEq, Eq)]
pub enum LineItem {
    Blank,
    Sect { sect: Option<SectionId> },
    Assign { field: Option<FieldId>, value: Value },
}

/// Mathematical image of `LineItem`.
pub ghost enum LineV {
    Blank,
    Sect { sect: Option<SectionId> },
    Assign { field: Option<FieldId>, value: ValueV },
}

impl View for LineItem {
    type V = LineV;

    open spec fn view(&self) -> LineV {
        match self {
            LineItem::Blank => LineV::Blank,
            LineItem::Sect { sect } => LineV::Sect { sect: *sect },
            LineItem::Assign { field, value } => (LineV::Assign {
                field: *field,
                value: value@,
            }),
        }
    }
}

/// The content a quoted string denotes, scanning after its opening
/// quote: characters and supported escapes up to the closing quote.
/// `None` on an unterminated string, a raw control character, or an
/// unsupported escape. Returns the content and the position after the
/// closing quote.
pub open spec fn spec_scan_string(s: Seq<char>, i: int) -> Option<(Seq<char>, int)>
    decreases s.len() - i,
{
    if i < 0 || i >= s.len() {
        None
    } else if s[i] == '"' {
        Some((Seq::empty(), i + 1))
    } else if s[i] == '\\' {
        if i + 1 >= s.len() {
            None
        } else {
            match escape_char(s[i + 1]) {
                None => None,
                Some(c) => match spec_scan_string(s, i + 2) {
                    None => None,
                    Some(p) => Some((seq![c] + p.0, p.1)),
                },
            }
        }
    } else if is_string_char(s[i]) {
        match spec_scan_string(s, i + 1) {
            None => None,
            Some(p) => Some((seq![s[i]] + p.0, p.1)),
        }
    } else {
        None
    }
}

pub proof fn lemma_scan_string_bounds(s: Seq<char>, i: int)
    ensures
        spec_scan_string(s, i) matches Some(p) ==> i < p.1 <= s.len(),
    decreases s.len() - i,
{
    if 0 <= i && i < s.len() {
        if s[i] == '"' {
        } else if s[i] == '\\' {
            if i + 1 < s.len() {
                lemma_scan_string_bounds(s, i + 2);
            }
        } else if is_string_char(s[i]) {
            lemma_scan_string_bounds(s, i + 1);
        }
    }
}

pub fn scan_string(s: &str, i: usize) -> (r: Option<(String, usize)>)
    requires
        i <= s@.len(),
    ensures
        ({
            let g = spec_scan_string(s@, i as int);
            match r {
                Some(p) => g == Some((p.0@, p.1 as int)) && i < p.1 <= s@.len(),
                None => g is None,
            }
        }),
    decreases s@.len() - i,
{
    let n = s.unicode_len();
    if i >= n {
        None
    } else {
        let c = s.get_char(i);
        if c == '"' {
            Some((String::new(), i + 1))
        } else if c == '\\' {
            if i + 1 >= n {
                None
            } else {
                let e = s.get_char(i + 1);
                let head: Option<&str> = if e == '"' {
                    Some("\"")
                } else if e == '\\' {
                    Some("\\")
                } else if e == 'n' {
                    Some("\n")
                } else if e == 't' {
                    Some("\t")
                } else if e == 'r' {
                    Some("\r")
                } else {
                    None
                };
                match head {
                    None => None,
                    Some(h) => {
                        proof {
                            reveal_strlit("\"");
                            reveal_strlit("\\");
                            reveal_strlit("\n");
                            reveal_strlit("\t");
                            reveal_strlit("\r");
                            assert(h@ =~= seq![escape_char(s@[i + 1])->0]);
                        }
                        match scan_string(s, i + 2) {
                            None => None,
                            Some(p) => {
                                let out = h.to_owned().concat(p.0.as_str());
                                proof {
                                    assert(out@ =~= seq![escape_char(s@[i + 1])->0] + (
                                    spec_scan_string(s@, i as int + 2)->0).0);
                                }
                                Some((out, p.1))
                            },
                        }
                    },
                }
            }
        } else {
            let u = c as u32;
            if (u >= 0x20 || c == '\t') && u != 0x7f {
                match scan_string(s, i + 1) {
                    None => None,
                    Some(p) => {
                        let out = span_string(s, i, i + 1).concat(p.0.as_str());
                        proof {
                            assert(s@.subrange(i as int, i + 1) =~= seq![s@[i as int]]);
                            assert(out@ =~= seq![s@[i as int]] + (spec_scan_string(
                                s@,
                                i as int + 1,
                            )->0).0);
                        }
                        Some((out, p.1))
                    },
                }
            } else {
                None
            }
        }
    }
}

/// The content a single-quoted string denotes, scanning after its
/// opening quote: characters read verbatim up to the closing quote,
/// with no escapes. `None` on an unterminated string or a raw control
/// character. Returns the content and the position after the closing
/// quote.
pub open spec fn spec_scan_literal(s: Seq<char>, i: int) -> Option<(Seq<char>, int)>
    decreases s.len() - i,
{
    if i < 0 || i >= s.len() {
        None
    } else if s[i] == '\'' {
        Some((Seq::empty(), i + 1))
    } else if is_literal_char(s[i]) {
        match spec_scan_literal(s, i + 1) {
            None => None,
            Some(p) => Some((seq![s[i]] + p.0, p.1)),
        }
    } else {
        None
    }
}

pub proof fn lemma_scan_literal_bounds(s: Seq<char>, i: int)
    ensures
        spec_scan_literal(s, i) matches Some(p) ==> i < p.1 <= s.len(),
    decreases s.len() - i,
{
    if 0 <= i && i < s.len() && s[i] != '\'' && is_literal_char(s[i]) {
        lemma_scan_literal_bounds(s, i + 1);
    }
}

pub fn scan_literal(s: &str, i: usize) -> (r: Option<(String, usize)>)
    requires
        i <= s@.len(),
    ensures
        ({
            let g = spec_scan_literal(s@, i as int);
            match r {
                Some(p) => g == Some((p.0@, p.1 as int)) && i < p.1 <= s@.len(),
                None => g is None,
            }
        }),
    decreases s@.len() - i,
{
    let n = s.unicode_len();
    if i >= n {
        None
    } else {
        let c = s.get_char(i);
        if c == '\'' {
            Some((String::new(), i + 1))
        } else {
            let u = c as u32;
            if (u >= 0x20 || c == '\t') && u != 0x7f {
                match scan_literal(s, i + 1) {
                    None => None,
                    Some(p) => {
                        let out = span_string(s, i, i + 1).concat(p.0.as_str());
                        proof {
                            assert(s@.subrange(i as int, i + 1) =~= seq![s@[i as int]]);
                            assert(out@ =~= seq![s@[i as int]] + (spec_scan_literal(
                                s@,
                                i as int + 1,
                            )->0).0);
                        }
                        Some((out, p.1))
                    },
                }
            } else {
                None
            }
        }
    }
}

/// A quoted string of either kind, scanning at its opening quote: a
/// double quote opens a basic string with escapes, a single quote a
/// literal string without.
pub open spec fn spec_scan_qstr(s: Seq<char>, i: int) -> Option<(Seq<char>, int)> {
    if i < 0 || i >= s.len() {
        None
    } else if s[i] == '"' {
        spec_scan_string(s, i + 1)
    } else if s[i] == '\'' {
        spec_scan_literal(s, i + 1)
    } else {
        None
    }
}

pub proof fn lemma_scan_qstr_bounds(s: Seq<char>, i: int)
    ensures
        spec_scan_qstr(s, i) matches Some(p) ==> i < p.1 <= s.len(),
{
    lemma_scan_string_bounds(s, i + 1);
    lemma_scan_literal_bounds(s, i + 1);
}

pub fn scan_qstr(s: &str, i: usize) -> (r: Option<(String, usize)>)
    requires
        i <= s@.len(),
    ensures
        ({
            let g = spec_scan_qstr(s@, i as int);
            match r {
                Some(p) => g == Some((p.0@, p.1 as int)) && i < p.1 <= s@.len(),
                None => g is None,
            }
        }),
{
    let n = s.unicode_len();
    if i >= n {
        None
    } else {
        let c = s.get_char(i);
        if c == '"' {
            scan_string(s, i + 1)
        } else if c == '\'' {
            scan_literal(s, i + 1)
        } else {
            None
        }
    }
}

/// The remaining items of a string array, scanning at a position where
/// either a comma or the closing bracket is owed. A comma may be
/// followed by another quoted string or, as a trailing comma, by the
/// closing bracket.
pub open spec fn spec_scan_arr_rest(s: Seq<char>, i: int) -> Option<(Seq<Seq<char>>, int)>
    decreases s.len() - i,
    via spec_scan_arr_rest_dec
{
    let w = spec_skip_ws(s, i);
    if w >= s.len() {
        None
    } else if s[w] == ']' {
        Some((Seq::empty(), w + 1))
    } else if s[w] == ',' {
        let w2 = spec_skip_ws(s, w + 1);
        if w2 >= s.len() {
            None
        } else if s[w2] == ']' {
            Some((Seq::empty(), w2 + 1))
        } else if s[w2] == '"' || s[w2] == '\'' {
            match spec_scan_qstr(s, w2) {
                None => None,
                Some(p) => match spec_scan_arr_rest(s, p.1) {
                    None => None,
                    Some(q) => Some((seq![p.0] + q.0, q.1)),
                },
            }
        } else {
            None
        }
    } else {
        None
    }
}

#[via_fn]
proof fn spec_scan_arr_rest_dec(s: Seq<char>, i: int) {
    lemma_skip_ws_bounds(s, i);
    let w = spec_skip_ws(s, i);
    lemma_skip_ws_bounds(s, w + 1);
    let w2 = spec_skip_ws(s, w + 1);
    lemma_scan_qstr_bounds(s, w2);
}

pub proof fn lemma_scan_arr_rest_bounds(s: Seq<char>, i: int)
    ensures
        spec_scan_arr_rest(s, i) matches Some(p) ==> i < p.1 <= s.len(),
    decreases s.len() - i,
{
    lemma_skip_ws_bounds(s, i);
    let w = spec_skip_ws(s, i);
    if w < s.len() && s[w] == ',' {
        lemma_skip_ws_bounds(s, w + 1);
        let w2 = spec_skip_ws(s, w + 1);
        if w2 < s.len() && (s[w2] == '"' || s[w2] == '\'') {
            lemma_scan_qstr_bounds(s, w2);
            match spec_scan_qstr(s, w2) {
                Some(p) => lemma_scan_arr_rest_bounds(s, p.1),
                None => (),
            }
        }
    }
}

/// A whole string array, scanning after its opening bracket: empty, or
/// a first quoted string followed by the remaining items.
pub open spec fn spec_scan_arr_first(s: Seq<char>, i: int) -> Option<(Seq<Seq<char>>, int)> {
    let w = spec_skip_ws(s, i);
    if w >= s.len() {
        None
    } else if s[w] == ']' {
        Some((Seq::empty(), w + 1))
    } else if s[w] == '"' || s[w] == '\'' {
        match spec_scan_qstr(s, w) {
            None => None,
            Some(p) => match spec_scan_arr_rest(s, p.1) {
                None => None,
                Some(q) => Some((seq![p.0] + q.0, q.1)),
            },
        }
    } else {
        None
    }
}

pub proof fn lemma_scan_arr_first_bounds(s: Seq<char>, i: int)
    ensures
        spec_scan_arr_first(s, i) matches Some(p) ==> i < p.1 <= s.len(),
{
    lemma_skip_ws_bounds(s, i);
    let w = spec_skip_ws(s, i);
    lemma_scan_qstr_bounds(s, w);
    if w < s.len() && (s[w] == '"' || s[w] == '\'') {
        match spec_scan_qstr(s, w) {
            Some(p) => lemma_scan_arr_rest_bounds(s, p.1),
            None => (),
        }
    }
}

pub fn scan_arr_rest(s: &str, i: usize) -> (r: Option<(Vec<String>, usize)>)
    requires
        i <= s@.len(),
    ensures
        ({
            let g = spec_scan_arr_rest(s@, i as int);
            match r {
                Some(p) => g == Some((p.0.deep_view(), p.1 as int)) && i < p.1 <= s@.len(),
                None => g is None,
            }
        }),
    decreases s@.len() - i,
{
    let n = s.unicode_len();
    let w = skip_ws(s, i);
    if w >= n {
        None
    } else {
        let c = s.get_char(w);
        if c == ']' {
            let out: Vec<String> = Vec::new();
            proof {
                assert(out.deep_view() =~= Seq::<Seq<char>>::empty());
            }
            Some((out, w + 1))
        } else if c == ',' {
            let w2 = skip_ws(s, w + 1);
            if w2 >= n {
                None
            } else {
                let c2 = s.get_char(w2);
                if c2 == ']' {
                    let out: Vec<String> = Vec::new();
                    proof {
                        assert(out.deep_view() =~= Seq::<Seq<char>>::empty());
                    }
                    Some((out, w2 + 1))
                } else if c2 == '"' || c2 == '\'' {
                    match scan_qstr(s, w2) {
                        None => None,
                        Some(p) => {
                            match scan_arr_rest(s, p.1) {
                                None => None,
                                Some(q) => {
                                    let mut items = q.0;
                                    let ghost old_items = items;
                                    items.insert(0, p.0);
                                    proof {
                                        assert(items.deep_view() =~= seq![p.0@]
                                            + old_items.deep_view());
                                    }
                                    Some((items, q.1))
                                },
                            }
                        },
                    }
                } else {
                    None
                }
            }
        } else {
            None
        }
    }
}

pub fn scan_arr_first(s: &str, i: usize) -> (r: Option<(Vec<String>, usize)>)
    requires
        i <= s@.len(),
    ensures
        ({
            let g = spec_scan_arr_first(s@, i as int);
            match r {
                Some(p) => g == Some((p.0.deep_view(), p.1 as int)) && i < p.1 <= s@.len(),
                None => g is None,
            }
        }),
{
    let n = s.unicode_len();
    let w = skip_ws(s, i);
    if w >= n {
        None
    } else {
        let c = s.get_char(w);
        if c == ']' {
            let out: Vec<String> = Vec::new();
            proof {
                assert(out.deep_view() =~= Seq::<Seq<char>>::empty());
            }
            Some((out, w + 1))
        } else if c == '"' || c == '\'' {
            match scan_qstr(s, w) {
                None => None,
                Some(p) => {
                    match scan_arr_rest(s, p.1) {
                        None => None,
                        Some(q) => {
                            let mut items = q.0;
                            let ghost old_items = items;
                            items.insert(0, p.0);
                            proof {
                                assert(items.deep_view() =~= seq![p.0@] + old_items.deep_view());
                            }
                            Some((items, q.1))
                        },
                    }
                },
            }
        } else {
            None
        }
    }
}

/// The tail of a dotted section header after its second key: further
/// `.`-separated keys until the closing bracket. Returns the position
/// after the bracket.
pub open spec fn spec_dots_more(s: Seq<char>, i: int) -> Option<int>
    decreases s.len() - i,
    via spec_dots_more_dec
{
    let w = spec_skip_ws(s, i);
    let e = spec_key_end(s, w);
    if w >= s.len() || e == w {
        None
    } else {
        let w2 = spec_skip_ws(s, e);
        if w2 >= s.len() {
            None
        } else if s[w2] == ']' {
            Some(w2 + 1)
        } else if s[w2] == '.' {
            spec_dots_more(s, w2 + 1)
        } else {
            None
        }
    }
}

#[via_fn]
proof fn spec_dots_more_dec(s: Seq<char>, i: int) {
    lemma_skip_ws_bounds(s, i);
    let w = spec_skip_ws(s, i);
    lemma_key_end_bounds(s, w);
    let e = spec_key_end(s, w);
    lemma_skip_ws_bounds(s, e);
}

pub proof fn lemma_dots_more_bounds(s: Seq<char>, i: int)
    ensures
        spec_dots_more(s, i) matches Some(j) ==> i < j <= s.len(),
    decreases s.len() - i,
{
    lemma_skip_ws_bounds(s, i);
    let w = spec_skip_ws(s, i);
    lemma_key_end_bounds(s, w);
    let e = spec_key_end(s, w);
    lemma_skip_ws_bounds(s, e);
    let w2 = spec_skip_ws(s, e);
    if !(w >= s.len() || e == w) && w2 < s.len() && s[w2] == '.' {
        lemma_dots_more_bounds(s, w2 + 1);
    }
}

pub fn dots_more(s: &str, i: usize) -> (r: Option<usize>)
    requires
        i <= s@.len(),
    ensures
        ({
            let g = spec_dots_more(s@, i as int);
            match r {
                Some(j) => g == Some(j as int) && i < j <= s@.len(),
                None => g is None,
            }
        }),
    decreases s@.len() - i,
{
    let n = s.unicode_len();
    let w = skip_ws(s, i);
    let e = key_end(s, w);
    if w >= n || e == w {
        None
    } else {
        let w2 = skip_ws(s, e);
        if w2 >= n {
            None
        } else {
            let c = s.get_char(w2);
            if c == ']' {
                Some(w2 + 1)
            } else if c == '.' {
                dots_more(s, w2 + 1)
            } else {
                None
            }
        }
    }
}

/// What may legally follow a complete construct on its line: inline
/// whitespace, then the end of the text, a newline, or a comment that
/// runs to the end of the line. Returns where the next line starts.
pub open spec fn spec_line_tail(s: Seq<char>, i: int) -> Option<int> {
    let w = spec_skip_ws(s, i);
    if w >= s.len() {
        Some(s.len() as int)
    } else if s[w] == '\n' {
        Some(w + 1)
    } else if s[w] == '#' {
        Some(spec_next_line(s, w))
    } else {
        None
    }
}

pub proof fn lemma_line_tail_bounds(s: Seq<char>, i: int)
    ensures
        0 <= i <= s.len() ==> (spec_line_tail(s, i) matches Some(j) ==> j <= s.len() && (i < s.len()
            ==> i < j) && i <= j),
{
    lemma_skip_ws_bounds(s, i);
    let w = spec_skip_ws(s, i);
    crate::text::lemma_line_end_bounds(s, w);
}

pub fn line_tail(s: &str, i: usize) -> (r: Option<usize>)
    requires
        i <= s@.len(),
    ensures
        ({
            let g = spec_line_tail(s@, i as int);
            match r {
                Some(j) => g == Some(j as int) && i <= j <= s@.len() && (i < s@.len() ==> i < j),
                None => g is None,
            }
        }),
{
    let n = s.unicode_len();
    let w = skip_ws(s, i);
    proof {
        lemma_line_tail_bounds(s@, i as int);
    }
    if w >= n {
        Some(n)
    } else {
        let c = s.get_char(w);
        if c == '\n' {
            Some(w + 1)
        } else if c == '#' {
            Some(next_line(s, w))
        } else {
            None
        }
    }
}

/// The field a bare key names, if it is one of the schema's keys.
/// Every schema key names exactly one field, whatever section it
/// appears under; the fold only honours it under the field's own
/// section.
pub open spec fn spec_field_of_key(k: Seq<char>) -> Option<FieldId> {
    if k == "host"@ {
        Some(FieldId::Host)
    } else if k == "port"@ {
        Some(FieldId::Port)
    } else if k == "password"@ {
        Some(FieldId::Password)
    } else if k == "enabled"@ {
        Some(FieldId::Enabled)
    } else if k == "method"@ {
        Some(FieldId::Method)
    } else if k == "blocks"@ {
        Some(FieldId::Blocks)
    } else if k == "max_results"@ {
        Some(FieldId::MaxResults)
    } else if k == "path"@ {
        Some(FieldId::LogPath)
    } else if k == "backup_count"@ {
        Some(FieldId::BackupCount)
    } else if k == "max_bytes"@ {
        Some(FieldId::MaxBytes)
    } else if k == "swish"@ {
        Some(FieldId::Swish)
    } else if k == "actix"@ {
        Some(FieldId::Actix)
    } else {
        None
    }
}

pub fn field_of_key(s: &str, i: usize, j: usize) -> (r: Option<FieldId>)
    requires
        i <= j <= s@.len(),
    ensures
        r == spec_field_of_key(s@.subrange(i as int, j as int)),
{
    if span_eq(s, i, j, "host") {
        Some(FieldId::Host)
    } else if span_eq(s, i, j, "port") {
        Some(FieldId::Port)
    } else if span_eq(s, i, j, "password") {
        Some(FieldId::Password)
    } else if span_eq(s, i, j, "enabled") {
        Some(FieldId::Enabled)
    } else if span_eq(s, i, j, "method") {
        Some(FieldId::Method)
    } else if span_eq(s, i, j, "blocks") {
        Some(FieldId::Blocks)
    } else if span_eq(s, i, j, "max_results") {
        Some(FieldId::MaxResults)
    } else if span_eq(s, i, j, "path") {
        Some(FieldId::LogPath)
    } else if span_eq(s, i, j, "backup_count") {
        Some(FieldId::BackupCount)
    } else if span_eq(s, i, j, "max_bytes") {
        Some(FieldId::MaxBytes)
    } else if span_eq(s, i, j, "swish") {
        Some(FieldId::Swish)
    } else if span_eq(s, i, j, "actix") {
        Some(FieldId::Actix)
    } else {
        None
    }
}

/// The section a one-part header names, if known.
pub open spec fn spec_section_of(k: Seq<char>) -> Option<SectionId> {
    if k == "server"@ {
        Some(SectionId::Server)
    } else if k == "rotation"@ {
        Some(SectionId::Rotation)
    } else if k == "search"@ {
        Some(SectionId::Search)
    } else if k == "logging"@ {
        Some(SectionId::Logging)
    } else {
        None
    }
}

pub fn section_of(s: &str, i: usize, j: usize) -> (r: Option<SectionId>)
    requires
        i <= j <= s@.len(),
    ensures
        r == spec_section_of(s@.subrange(i as int, j as int)),
{
    if span_eq(s, i, j, "server") {
        Some(SectionId::Server)
    } else if span_eq(s, i, j, "rotation") {
        Some(SectionId::Rotation)
    } else if span_eq(s, i, j, "search") {
        Some(SectionId::Search)
    } else if span_eq(s, i, j, "logging") {
        Some(SectionId::Logging)
    } else {
        None
    }
}

/// The section a two-part header names, if known: only
/// `logging.levels`.
pub open spec fn spec_section2_of(k1: Seq<char>, k2: Seq<char>) -> Option<SectionId> {
    if k1 == "logging"@ && k2 == "levels"@ {
        Some(SectionId::Levels)
    } else {
        None
    }
}

/// The value standing at position `i`, by its first character: a
/// quoted string, an array, a boolean word, or a signed integer that
/// fits a `u64`. A negative zero denotes zero. Returns the value and
/// the position after it.
pub open spec fn spec_parse_value(s: Seq<char>, i: int) -> Option<(ValueV, int)> {
    if i < 0 || i >= s.len() {
        None
    } else if s[i] == '"' || s[i] == '\'' {
        match spec_scan_qstr(s, i) {
            None => None,
            Some(p) => Some((ValueV::VStr(p.0), p.1)),
        }
    } else if s[i] == '[' {
        match spec_scan_arr_first(s, i + 1) {
            None => None,
            Some(p) => Some((ValueV::VArr(p.0), p.1)),
        }
    } else if s[i] == 't' || s[i] == 'f' {
        let e = spec_key_end(s, i);
        if s.subrange(i, e) == "true"@ {
            Some((ValueV::VBool(true), e))
        } else if s.subrange(i, e) == "false"@ {
            Some((ValueV::VBool(false), e))
        } else {
            None
        }
    } else if s[i] == '+' || s[i] == '-' || is_digit(s[i]) {
        let d = if is_digit(s[i]) {
            i
        } else {
            i + 1
        };
        let e = spec_digits_end(s, d);
        if e == d {
            None
        } else {
            let v = spec_digits_val(s, d, e);
            if v > u64::MAX {
                None
            } else {
                Some((ValueV::VInt { neg: s[i] == '-' && v != 0, mag: v as u64 }, e))
            }
        }
    } else {
        None
    }
}

pub proof fn lemma_parse_value_bounds(s: Seq<char>, i: int)
    ensures
        spec_parse_value(s, i) matches Some(p) ==> i < p.1 <= s.len(),
{
    lemma_scan_qstr_bounds(s, i);
    lemma_scan_arr_first_bounds(s, i + 1);
    lemma_key_end_bounds(s, i);
    if 0 <= i && i < s.len() && !(s[i] == '"') && !(s[i] == '[') && !(s[i] == 't' || s[i] == 'f')
        && (s[i] == '+' || s[i] == '-' || is_digit(s[i])) {
        let d = if is_digit(s[i]) {
            i
        } else {
            i + 1
        };
        lemma_digits_end_bounds(s, d);
    }
    if 0 <= i && i < s.len() && (s[i] == 't' || s[i] == 'f') {
        let e = spec_key_end(s, i);
        if s.subrange(i, e) == "true"@ || s.subrange(i, e) == "false"@ {
            reveal_strlit("true");
            reveal_strlit("false");
            assert(e - i == s.subrange(i, e).len());
        }
    }
}

pub fn parse_value(s: &str, i: usize) -> (r: Option<(Value, usize)>)
    requires
        i <= s@.len(),
    ensures
        ({
            let g = spec_parse_value(s@, i as int);
            match r {
                Some(p) => g == Some((p.0@, p.1 as int)) && i < p.1 <= s@.len(),
                None => g is None,
            }
        }),
{
    let n = s.unicode_len();
    proof {
        lemma_parse_value_bounds(s@, i as int);
    }
    if i >= n {
        None
    } else {
        let c = s.get_char(i);
        if c == '"' || c == '\'' {
            match scan_qstr(s, i) {
                None => None,
                Some(p) => Some((Value::VStr(p.0), p.1)),
            }
        } else if c == '[' {
            match scan_arr_first(s, i + 1) {
                None => None,
                Some(p) => Some((Value::VArr(p.0), p.1)),
            }
        } else if c == 't' || c == 'f' {
            let e = key_end(s, i);
            if span_eq(s, i, e, "true") {
                Some((Value::VBool(true), e))
            } else if span_eq(s, i, e, "false") {
                Some((Value::VBool(false), e))
            } else {
                None
            }
        } else {
            let u = c as u32;
            if c == '+' || c == '-' || (48 <= u && u <= 57) {
                let d = if 48 <= u && u <= 57 {
                    i
                } else {
                    i + 1
                };
                let e = digits_end(s, d);
                if e == d {
                    None
                } else {
                    proof {
                        lemma_digits_end_bounds(s@, d as int);
                    }
                    match digits_val(s, d, e) {
                        None => None,
                        Some(v) => Some((Value::VInt { neg: c == '-' && v != 0, mag: v }, e)),
                    }
                }
            } else {
                None
            }
        }
    }
}

/// What the line starting at position `i` says, and where the next
/// line starts. `None` is a syntax error on this line. A line is blank
/// (possibly with a comment), a section header in brackets, or
/// `key = value`; inline whitespace may stand anywhere between tokens
/// and a comment may close any line.
pub open spec fn spec_parse_line(s: Seq<char>, i: int) -> Option<(LineV, int)> {
    if i < 0 {
        None
    } else {
        let w = spec_skip_ws(s, i);
        if w >= s.len() {
            Some((LineV::Blank, s.len() as int))
        } else if s[w] == '\n' {
            Some((LineV::Blank, w + 1))
        } else if s[w] == '#' {
            Some((LineV::Blank, spec_next_line(s, w)))
        } else if s[w] == '[' {
            spec_parse_section(s, w)
        } else {
            spec_parse_assign(s, w)
        }
    }
}

/// A section header, scanning at its opening bracket: one bare key, a
/// dotted pair, or a longer dotted path (always an unknown section).
pub open spec fn spec_parse_section(s: Seq<char>, w: int) -> Option<(LineV, int)> {
    let w1 = spec_skip_ws(s, w + 1);
    let e1 = spec_key_end(s, w1);
    if w1 >= s.len() || e1 == w1 {
        None
    } else {
        let k1 = s.subrange(w1, e1);
        let w2 = spec_skip_ws(s, e1);
        if w2 >= s.len() {
            None
        } else if s[w2] == ']' {
            match spec_line_tail(s, w2 + 1) {
                None => None,
                Some(j) => Some((LineV::Sect { sect: spec_section_of(k1) }, j)),
            }
        } else if s[w2] == '.' {
            let w3 = spec_skip_ws(s, w2 + 1);
            let e2 = spec_key_end(s, w3);
            if w3 >= s.len() || e2 == w3 {
                None
            } else {
                let k2 = s.subrange(w3, e2);
                let w4 = spec_skip_ws(s, e2);
                if w4 >= s.len() {
                    None
                } else if s[w4] == ']' {
                    match spec_line_tail(s, w4 + 1) {
                        None => None,
                        Some(j) => Some((LineV::Sect { sect: spec_section2_of(k1, k2) }, j)),
                    }
                } else if s[w4] == '.' {
                    match spec_dots_more(s, w4 + 1) {
                        None => None,
                        Some(j0) => match spec_line_tail(s, j0) {
                            None => None,
                            Some(j) => Some((LineV::Sect { sect: None }, j)),
                        },
                    }
                } else {
                    None
                }
            }
        } else {
            None
        }
    }
}

/// An assignment `key = value`, scanning at the key's first character.
pub open spec fn spec_parse_assign(s: Seq<char>, w: int) -> Option<(LineV, int)> {
    let e = spec_key_end(s, w);
    if e == w {
        None
    } else {
        let k = s.subrange(w, e);
        let w2 = spec_skip_ws(s, e);
        if w2 >= s.len() || s[w2] != '=' {
            None
        } else {
            let w3 = spec_skip_ws(s, w2 + 1);
            match spec_parse_value(s, w3) {
                None => None,
                Some(p) => match spec_line_tail(s, p.1) {
                    None => None,
                    Some(j) => Some((LineV::Assign { field: spec_field_of_key(k), value: p.0 }, j)),
                },
            }
        }
    }
}

pub proof fn lemma_parse_line_bounds(s: Seq<char>, i: int)
    ensures
        0 <= i <= s.len() ==> (spec_parse_line(s, i) matches Some(p) ==> i <= p.1 <= s.len() && (i
            < s.len() ==> i < p.1)),
{
    if i >= 0 {
        lemma_skip_ws_bounds(s, i);
        let w = spec_skip_ws(s, i);
        crate::text::lemma_line_end_bounds(s, w);
        if w < s.len() && s[w] == '[' {
            lemma_skip_ws_bounds(s, w + 1);
            let w1 = spec_skip_ws(s, w + 1);
            lemma_key_end_bounds(s, w1);
            let e1 = spec_key_end(s, w1);
            lemma_skip_ws_bounds(s, e1);
            let w2 = spec_skip_ws(s, e1);
            lemma_line_tail_bounds(s, w2 + 1);
            lemma_skip_ws_bounds(s, w2 + 1);
            let w3 = spec_skip_ws(s, w2 + 1);
            lemma_key_end_bounds(s, w3);
            let e2 = spec_key_end(s, w3);
            lemma_skip_ws_bounds(s, e2);
            let w4 = spec_skip_ws(s, e2);
            lemma_line_tail_bounds(s, w4 + 1);
            lemma_dots_more_bounds(s, w4 + 1);
            match spec_dots_more(s, w4 + 1) {
                Some(j0) => lemma_line_tail_bounds(s, j0),
                None => (),
            }
        } else if w < s.len() && s[w] != '\n' && s[w] != '#' {
            lemma_key_end_bounds(s, w);
            let e = spec_key_end(s, w);
            lemma_skip_ws_bounds(s, e);
            let w2 = spec_skip_ws(s, e);
            lemma_skip_ws_bounds(s, w2 + 1);
            let w3 = spec_skip_ws(s, w2 + 1);
            lemma_parse_value_bounds(s, w3);
            match spec_parse_value(s, w3) {
                Some(p) => lemma_line_tail_bounds(s, p.1),
                None => (),
            }
        }
    }
}

pub fn parse_line(s: &str, i: usize) -> (r: Option<(LineItem, usize)>)
    requires
        i <= s@.len(),
    ensures
        ({
            let g = spec_parse_line(s@, i as int);
            match r {
                Some(p) => g == Some((p.0@, p.1 as int)) && i <= p.1 <= s@.len() && (i < s@.len()
                    ==> i < p.1),
                None => g is None,
            }
        }),
{
    let n = s.unicode_len();
    proof {
        lemma_parse_line_bounds(s@, i as int);
    }
    let w = skip_ws(s, i);
    if w >= n {
        Some((LineItem::Blank, n))
    } else {
        let c = s.get_char(w);
        if c == '\n' {
            Some((LineItem::Blank, w + 1))
        } else if c == '#' {
            Some((LineItem::Blank, next_line(s, w)))
        } else if c == '[' {
            parse_section(s, w)
        } else {
            parse_assign(s, w)
        }
    }
}

fn parse_section(s: &str, w: usize) -> (r: Option<(LineItem, usize)>)
    requires
        w < s@.len(),
        s@[w as int] == '[',
    ensures
        ({
            let g = spec_parse_section(s@, w as int);
            match r {
                Some(p) => g == Some((p.0@, p.1 as int)),
                None => g is None,
            }
        }),
{
    let n = s.unicode_len();
    let w1 = skip_ws(s, w + 1);
    let e1 = key_end(s, w1);
    if w1 >= n || e1 == w1 {
        None
    } else {
        let w2 = skip_ws(s, e1);
        if w2 >= n {
            None
        } else {
            let c2 = s.get_char(w2);
            if c2 == ']' {
                match line_tail(s, w2 + 1) {
                    None => None,
                    Some(j) => Some((LineItem::Sect { sect: section_of(s, w1, e1) }, j)),
                }
            } else if c2 == '.' {
                let w3 = skip_ws(s, w2 + 1);
                let e2 = key_end(s, w3);
                if w3 >= n || e2 == w3 {
                    None
                } else {
                    let w4 = skip_ws(s, e2);
                    if w4 >= n {
                        None
                    } else {
                        let c4 = s.get_char(w4);
                        if c4 == ']' {
                            match line_tail(s, w4 + 1) {
                                None => None,
                                Some(j) => {
                                    let sect = if span_eq(s, w1, e1, "logging") && span_eq(
                                        s,
                                        w3,
                                        e2,
                                        "levels",
                                    ) {
                                        Some(SectionId::Levels)
                                    } else {
                                        None
                                    };
                                    Some((LineItem::Sect { sect }, j))
                                },
                            }
                        } else if c4 == '.' {
                            match dots_more(s, w4 + 1) {
                                None => None,
                                Some(j0) => match line_tail(s, j0) {
                                    None => None,
                                    Some(j) => Some((LineItem::Sect { sect: None }, j)),
                                },
                            }
                        } else {
                            None
                        }
                    }
                }
            } else {
                None
            }
        }
    }
}

fn parse_assign(s: &str, w: usize) -> (r: Option<(LineItem, usize)>)
    requires
        w < s@.len(),
    ensures
        ({
            let g = spec_parse_assign(s@, w as int);
            match r {
                Some(p) => g == Some((p.0@, p.1 as int)),
                None => g is None,
            }
        }),
{
    let n = s.unicode_len();
    let e = key_end(s, w);
    if e == w {
        None
    } else {
        let w2 = skip_ws(s, e);
        if w2 >= n {
            None
        } else {
            let c2 = s.get_char(w2);
            if c2 != '=' {
                None
            } else {
                let w3 = skip_ws(s, w2 + 1);
                match parse_value(s, w3) {
                    None => None,
                    Some(p) => match line_tail(s, p.1) {
                        None => None,
                        Some(j) => Some(
                            (LineItem::Assign { field: field_of_key(s, w, e), value: p.0 }, j),
                        ),
                    },
                }
            }
        }
    }
}

} // verus!
