//! The schema layer: folding the file's lines into the one `Config`
//! the text denotes, or the first error in reading order. The top
//! entry points are [`parse_config`] and [`load_str`].

use vstd::prelude::*;

use crate::config::{
    Config, ConfigV, Logging, LoggingLevel, LoggingLevelV, LoggingLevels, LoggingV, Rotation,
    RotationMethod, RotationV, Search, SearchV, Server, ServerV,
};
use crate::errors::{ConfigError, ConfigErrorV, FieldId, ParseError, ParseErrorV, SectionId};
use crate::lines::{
    lemma_parse_line_bounds, parse_line, spec_parse_line, LineItem, LineV, Value, ValueV,
};

verus! {

/// The fields gathered so far, each either not yet assigned or
/// assigned once.
pub struct Partial {
    pub host: Option<String>,
    pub port: Option<u16>,
    pub password: Option<String>,
    pub enabled: Option<bool>,
    pub method: Option<RotationMethod>,
    pub blocks: Option<Vec<String>>,
    pub max_results: Option<u16>,
    pub log_path: Option<String>,
    pub backup_count: Option<u8>,
    pub max_bytes: Option<u32>,
    pub swish: Option<LoggingLevels>,
    pub actix: Option<LoggingLevels>,
}

/// Mathematical image of `Partial`.
pub ghost struct PartialV {
    pub host: Option<Seq<char>>,
    pub port: Option<u16>,
    pub password: Option<Seq<char>>,
    pub enabled: Option<bool>,
    pub method: Option<RotationMethod>,
    pub blocks: Option<Seq<Seq<char>>>,
    pub max_results: Option<u16>,
    pub log_path: Option<Seq<char>>,
    pub backup_count: Option<u8>,
    pub max_bytes: Option<u32>,
    pub swish: Option<LoggingLevels>,
    pub actix: Option<LoggingLevels>,
}

impl View for Partial {
    type V = PartialV;

    open spec fn view(&self) -> PartialV {
        PartialV {
            host: self.host.deep_view(),
            port: self.port,
            password: self.password.deep_view(),
            enabled: self.enabled,
            method: self.method,
            blocks: self.blocks.deep_view(),
            max_results: self.max_results,
            log_path: self.log_path.deep_view(),
            backup_count: self.backup_count,
            max_bytes: self.max_bytes,
            swish: self.swish,
            actix: self.actix,
        }
    }
}

/// Which known section headers have already been seen; a repeat is an
/// error.
#[derive(Clone, Copy, Debug, PartialEq, Eq, Structural)]
pub struct Seen {
    pub server: bool,
    pub rotation: bool,
    pub search: bool,
    pub logging: bool,
    pub levels: bool,
}

/// No field assigned yet.
pub open spec fn spec_empty_partial() -> PartialV {
    PartialV {
        host: None,
        port: None,
        password: None,
        enabled: None,
        method: None,
        blocks: None,
        max_results: None,
        log_path: None,
        backup_count: None,
        max_bytes: None,
        swish: None,
        actix: None,
    }
}

/// The section a field belongs to; a key is honoured only under it.
pub open spec fn spec_section_of_field(f: FieldId) -> SectionId {
    match f {
        FieldId::Host => SectionId::Server,
        FieldId::Port => SectionId::Server,
        FieldId::Password => SectionId::Server,
        FieldId::Enabled => SectionId::Rotation,
        FieldId::Method => SectionId::Rotation,
        FieldId::Blocks => SectionId::Rotation,
        FieldId::MaxResults => SectionId::Search,
        FieldId::LogPath => SectionId::Logging,
        FieldId::BackupCount => SectionId::Logging,
        FieldId::MaxBytes => SectionId::Logging,
        FieldId::Swish => SectionId::Levels,
        FieldId::Actix => SectionId::Levels,
    }
}

pub open spec fn spec_seen_has(seen: Seen, id: SectionId) -> bool {
    match id {
        SectionId::Server => seen.server,
        SectionId::Rotation => seen.rotation,
        SectionId::Search => seen.search,
        SectionId::Logging => seen.logging,
        SectionId::Levels => seen.levels,
    }
}

pub open spec fn spec_with_seen(seen: Seen, id: SectionId) -> Seen {
    match id {
        SectionId::Server => Seen { server: true, ..seen },
        SectionId::Rotation => Seen { rotation: true, ..seen },
        SectionId::Search => Seen { search: true, ..seen },
        SectionId::Logging => Seen { logging: true, ..seen },
        SectionId::Levels => Seen { levels: true, ..seen },
    }
}

/// The level a quoted string names, if any.
pub open spec fn spec_level_of(t: Seq<char>) -> Option<LoggingLevels> {
    if t == "OFF"@ {
        Some(LoggingLevels::OFF)
    } else if t == "INFO"@ {
        Some(LoggingLevels::INFO)
    } else if t == "DEBUG"@ {
        Some(LoggingLevels::DEBUG)
    } else if t == "WARNING"@ {
        Some(LoggingLevels::WARNING)
    } else if t == "ERROR"@ {
        Some(LoggingLevels::ERROR)
    } else {
        None
    }
}

/// The rotation method a quoted string names, if any.
pub open spec fn spec_method_of(t: Seq<char>) -> Option<RotationMethod> {
    if t == "Banned"@ {
        Some(RotationMethod::Banned)
    } else if t == "Nanosecond"@ {
        Some(RotationMethod::Nanosecond)
    } else {
        None
    }
}

/// Assigning `v` to the known field `f` found on line `ln`: a repeat
/// assignment, a value of the wrong type, an integer out of the
/// field's range and an unknown enumeration string each yield their
/// error; otherwise the field is filled.
pub open spec fn spec_assign_field(raw: PartialV, f: FieldId, v: ValueV, ln: u64) -> Result<
    PartialV,
    ParseErrorV,
> {
    match f {
        FieldId::Host => if raw.host is Some {
            Err(ParseErrorV::DuplicateField { line: ln, field: f })
        } else {
            match v {
                ValueV::VStr(t) => Ok(PartialV { host: Some(t), ..raw }),
                _ => Err(ParseErrorV::WrongType { line: ln, field: f }),
            }
        },
        FieldId::Port => if raw.port is Some {
            Err(ParseErrorV::DuplicateField { line: ln, field: f })
        } else {
            match v {
                ValueV::VInt { neg, mag } => if neg || mag > 65535 {
                    Err(ParseErrorV::OutOfRange { line: ln, field: f })
                } else {
                    Ok(PartialV { port: Some(mag as u16), ..raw })
                },
                _ => Err(ParseErrorV::WrongType { line: ln, field: f }),
            }
        },
        FieldId::Password => if raw.password is Some {
            Err(ParseErrorV::DuplicateField { line: ln, field: f })
        } else {
            match v {
                ValueV::VStr(t) => Ok(PartialV { password: Some(t), ..raw }),
                _ => Err(ParseErrorV::WrongType { line: ln, field: f }),
            }
        },
        FieldId::Enabled => if raw.enabled is Some {
            Err(ParseErrorV::DuplicateField { line: ln, field: f })
        } else {
            match v {
                ValueV::VBool(b) => Ok(PartialV { enabled: Some(b), ..raw }),
                _ => Err(ParseErrorV::WrongType { line: ln, field: f }),
            }
        },
        FieldId::Method => if raw.method is Some {
            Err(ParseErrorV::DuplicateField { line: ln, field: f })
        } else {
            match v {
                ValueV::VStr(t) => match spec_method_of(t) {
                    Some(m) => Ok(PartialV { method: Some(m), ..raw }),
                    None => Err(ParseErrorV::BadEnumValue { line: ln, field: f, value: t }),
                },
                _ => Err(ParseErrorV::WrongType { line: ln, field: f }),
            }
        },
        FieldId::Blocks => if raw.blocks is Some {
            Err(ParseErrorV::DuplicateField { line: ln, field: f })
        } else {
            match v {
                ValueV::VArr(items) => Ok(PartialV { blocks: Some(items), ..raw }),
                _ => Err(ParseErrorV::WrongType { line: ln, field: f }),
            }
        },
        FieldId::MaxResults => if raw.max_results is Some {
            Err(ParseErrorV::DuplicateField { line: ln, field: f })
        } else {
            match v {
                ValueV::VInt { neg, mag } => if neg || mag > 65535 {
                    Err(ParseErrorV::OutOfRange { line: ln, field: f })
                } else {
                    Ok(PartialV { max_results: Some(mag as u16), ..raw })
                },
                _ => Err(ParseErrorV::WrongType { line: ln, field: f }),
            }
        },
        FieldId::LogPath => if raw.log_path is Some {
            Err(ParseErrorV::DuplicateField { line: ln, field: f })
        } else {
            match v {
                ValueV::VStr(t) => Ok(PartialV { log_path: Some(t), ..raw }),
                _ => Err(ParseErrorV::WrongType { line: ln, field: f }),
            }
        },
        FieldId::BackupCount => if raw.backup_count is Some {
            Err(ParseErrorV::DuplicateField { line: ln, field: f })
        } else {
            match v {
                ValueV::VInt { neg, mag } => if neg || mag > 255 {
                    Err(ParseErrorV::OutOfRange { line: ln, field: f })
                } else {
                    Ok(PartialV { backup_count: Some(mag as u8), ..raw })
                },
                _ => Err(ParseErrorV::WrongType { line: ln, field: f }),
            }
        },
        FieldId::MaxBytes => if raw.max_bytes is Some {
            Err(ParseErrorV::DuplicateField { line: ln, field: f })
        } else {
            match v {
                ValueV::VInt { neg, mag } => if neg || mag > u32::MAX as u64 {
                    Err(ParseErrorV::OutOfRange { line: ln, field: f })
                } else {
                    Ok(PartialV { max_bytes: Some(mag as u32), ..raw })
                },
                _ => Err(ParseErrorV::WrongType { line: ln, field: f }),
            }
        },
        FieldId::Swish => if raw.swish is Some {
            Err(ParseErrorV::DuplicateField { line: ln, field: f })
        } else {
            match v {
                ValueV::VStr(t) => match spec_level_of(t) {
                    Some(l) => Ok(PartialV { swish: Some(l), ..raw }),
                    None => Err(ParseErrorV::BadEnumValue { line: ln, field: f, value: t }),
                },
                _ => Err(ParseErrorV::WrongType { line: ln, field: f }),
            }
        },
        FieldId::Actix => if raw.actix is Some {
            Err(ParseErrorV::DuplicateField { line: ln, field: f })
        } else {
            match v {
                ValueV::VStr(t) => match spec_level_of(t) {
                    Some(l) => Ok(PartialV { actix: Some(l), ..raw }),
                    None => Err(ParseErrorV::BadEnumValue { line: ln, field: f, value: t }),
                },
                _ => Err(ParseErrorV::WrongType { line: ln, field: f }),
            }
        },
    }
}

/// The end of the document: every required field must have been
/// assigned; the first missing one, in schema order, is the error.
pub open spec fn spec_finish(raw: PartialV) -> Result<ConfigV, ParseErrorV> {
    if raw.host is None {
        Err(ParseErrorV::MissingField { field: FieldId::Host })
    } else if raw.port is None {
        Err(ParseErrorV::MissingField { field: FieldId::Port })
    } else if raw.password is None {
        Err(ParseErrorV::MissingField { field: FieldId::Password })
    } else if raw.enabled is None {
        Err(ParseErrorV::MissingField { field: FieldId::Enabled })
    } else if raw.method is None {
        Err(ParseErrorV::MissingField { field: FieldId::Method })
    } else if raw.blocks is None {
        Err(ParseErrorV::MissingField { field: FieldId::Blocks })
    } else if raw.max_results is None {
        Err(ParseErrorV::MissingField { field: FieldId::MaxResults })
    } else if raw.log_path is None {
        Err(ParseErrorV::MissingField { field: FieldId::LogPath })
    } else if raw.backup_count is None {
        Err(ParseErrorV::MissingField { field: FieldId::BackupCount })
    } else if raw.max_bytes is None {
        Err(ParseErrorV::MissingField { field: FieldId::MaxBytes })
    } else if raw.swish is None {
        Err(ParseErrorV::MissingField { field: FieldId::Swish })
    } else if raw.actix is None {
        Err(ParseErrorV::MissingField { field: FieldId::Actix })
    } else {
        Ok(
            ConfigV {
                server: ServerV {
                    host: raw.host->0,
                    port: raw.port->0,
                    password: raw.password->0,
                },
                rotation: RotationV {
                    enabled: raw.enabled->0,
                    method: raw.method->0,
                    blocks: raw.blocks->0,
                },
                search: SearchV { max_results: raw.max_results->0 },
                logging: LoggingV {
                    path: raw.log_path->0,
                    backup_count: raw.backup_count->0,
                    max_bytes: raw.max_bytes->0,
                    levels: LoggingLevelV { swish: raw.swish->0, actix: raw.actix->0 },
                },
            },
        )
    }
}

/// The next line number: line numbers saturate rather than wrap.
pub open spec fn spec_bump(n: u64) -> u64 {
    if n < u64::MAX {
        (n + 1) as u64
    } else {
        n
    }
}

/// The outcome of the rest of the document, given the position `i`
/// where the current line starts, its 1-based number `ln`, the section
/// the cursor stands in (`None` before any header, `Some(None)` in an
/// unknown one), the known headers already seen, and the fields
/// gathered so far. An assignment under no section, an unknown
/// section, an unknown key, or a known key under a foreign section is
/// ignored: the schema tolerates unknown parts rather than rejecting
/// them.
pub open spec fn spec_run(
    s: Seq<char>,
    i: int,
    ln: u64,
    sect: Option<Option<SectionId>>,
    seen: Seen,
    raw: PartialV,
) -> Result<ConfigV, ParseErrorV>
    decreases s.len() - i,
    via spec_run_dec
{
    if i < 0 || i >= s.len() {
        spec_finish(raw)
    } else {
        match spec_parse_line(s, i) {
            None => Err(ParseErrorV::Syntax { line: ln }),
            Some(p) => match p.0 {
                LineV::Blank => spec_run(s, p.1, spec_bump(ln), sect, seen, raw),
                LineV::Sect { sect: sid } => match sid {
                    None => spec_run(s, p.1, spec_bump(ln), Some(None), seen, raw),
                    Some(id) => if spec_seen_has(seen, id) {
                        Err(ParseErrorV::DuplicateSection { line: ln, section: id })
                    } else {
                        spec_run(
                            s,
                            p.1,
                            spec_bump(ln),
                            Some(Some(id)),
                            spec_with_seen(seen, id),
                            raw,
                        )
                    },
                },
                LineV::Assign { field, value } => match sect {
                    Some(opt_cur) => match opt_cur {
                        Some(cur) => match field {
                            Some(f) => if spec_section_of_field(f) == cur {
                                match spec_assign_field(raw, f, value, ln) {
                                    Err(e) => Err(e),
                                    Ok(raw2) => spec_run(s, p.1, spec_bump(ln), sect, seen, raw2),
                                }
                            } else {
                                spec_run(s, p.1, spec_bump(ln), sect, seen, raw)
                            },
                            None => spec_run(s, p.1, spec_bump(ln), sect, seen, raw),
                        },
                        None => spec_run(s, p.1, spec_bump(ln), sect, seen, raw),
                    },
                    None => spec_run(s, p.1, spec_bump(ln), sect, seen, raw),
                },
            },
        }
    }
}

#[via_fn]
proof fn spec_run_dec(
    s: Seq<char>,
    i: int,
    ln: u64,
    sect: Option<Option<SectionId>>,
    seen: Seen,
    raw: PartialV,
) {
    lemma_parse_line_bounds(s, i);
}

/// What the whole text denotes: the configuration it describes, or the
/// first error in reading order.
pub open spec fn spec_parse_config(s: Seq<char>) -> Result<ConfigV, ParseErrorV> {
    spec_run(
        s,
        0,
        1,
        None,
        Seen { server: false, rotation: false, search: false, logging: false, levels: false },
        spec_empty_partial(),
    )
}

fn str_is(t: &String, w: &str) -> (r: bool)
    ensures
        r == (t@ == w@),
{
    let lit = w.to_owned();
    t.eq(&lit)
}

fn level_of(t: &String) -> (r: Option<LoggingLevels>)
    ensures
        r == spec_level_of(t@),
{
    if str_is(t, "OFF") {
        Some(LoggingLevels::OFF)
    } else if str_is(t, "INFO") {
        Some(LoggingLevels::INFO)
    } else if str_is(t, "DEBUG") {
        Some(LoggingLevels::DEBUG)
    } else if str_is(t, "WARNING") {
        Some(LoggingLevels::WARNING)
    } else if str_is(t, "ERROR") {
        Some(LoggingLevels::ERROR)
    } else {
        None
    }
}

fn method_of(t: &String) -> (r: Option<RotationMethod>)
    ensures
        r == spec_method_of(t@),
{
    if str_is(t, "Banned") {
        Some(RotationMethod::Banned)
    } else if str_is(t, "Nanosecond") {
        Some(RotationMethod::Nanosecond)
    } else {
        None
    }
}

fn seen_has(seen: Seen, id: SectionId) -> (r: bool)
    ensures
        r == spec_seen_has(seen, id),
{
    match id {
        SectionId::Server => seen.server,
        SectionId::Rotation => seen.rotation,
        SectionId::Search => seen.search,
        SectionId::Logging => seen.logging,
        SectionId::Levels => seen.levels,
    }
}

fn with_seen(seen: Seen, id: SectionId) -> (r: Seen)
    ensures
        r == spec_with_seen(seen, id),
{
    match id {
        SectionId::Server => Seen { server: true, ..seen },
        SectionId::Rotation => Seen { rotation: true, ..seen },
        SectionId::Search => Seen { search: true, ..seen },
        SectionId::Logging => Seen { logging: true, ..seen },
        SectionId::Levels => Seen { levels: true, ..seen },
    }
}

fn assign_field(raw: Partial, f: FieldId, v: Value, ln: u64) -> (r: Result<Partial, ParseError>)
    ensures
        ({
            let g = spec_assign_field(raw@, f, v@, ln);
            match r {
                Ok(raw2) => g == Ok::<PartialV, ParseErrorV>(raw2@),
                Err(e) => g == Err::<PartialV, ParseErrorV>(e@),
            }
        }),
{
    match f {
        FieldId::Host => if raw.host.is_some() {
            Err(ParseError::DuplicateField { line: ln, field: f })
        } else {
            match v {
                Value::VStr(t) => Ok(Partial { host: Some(t), ..raw }),
                _ => Err(ParseError::WrongType { line: ln, field: f }),
            }
        },
        FieldId::Port => if raw.port.is_some() {
            Err(ParseError::DuplicateField { line: ln, field: f })
        } else {
            match v {
                Value::VInt { neg, mag } => if neg || mag > 65535 {
                    Err(ParseError::OutOfRange { line: ln, field: f })
                } else {
                    Ok(Partial { port: Some(mag as u16), ..raw })
                },
                _ => Err(ParseError::WrongType { line: ln, field: f }),
            }
        },
        FieldId::Password => if raw.password.is_some() {
            Err(ParseError::DuplicateField { line: ln, field: f })
        } else {
            match v {
                Value::VStr(t) => Ok(Partial { password: Some(t), ..raw }),
                _ => Err(ParseError::WrongType { line: ln, field: f }),
            }
        },
        FieldId::Enabled => if raw.enabled.is_some() {
            Err(ParseError::DuplicateField { line: ln, field: f })
        } else {
            match v {
                Value::VBool(b) => Ok(Partial { enabled: Some(b), ..raw }),
                _ => Err(ParseError::WrongType { line: ln, field: f }),
            }
        },
        FieldId::Method => if raw.method.is_some() {
            Err(ParseError::DuplicateField { line: ln, field: f })
        } else {
            match v {
                Value::VStr(t) => match method_of(&t) {
                    Some(m) => Ok(Partial { method: Some(m), ..raw }),
                    None => Err(ParseError::BadEnumValue { line: ln, field: f, value: t }),
                },
                _ => Err(ParseError::WrongType { line: ln, field: f }),
            }
        },
        FieldId::Blocks => if raw.blocks.is_some() {
            Err(ParseError::DuplicateField { line: ln, field: f })
        } else {
            match v {
                Value::VArr(items) => Ok(Partial { blocks: Some(items), ..raw }),
                _ => Err(ParseError::WrongType { line: ln, field: f }),
            }
        },
        FieldId::MaxResults => if raw.max_results.is_some() {
            Err(ParseError::DuplicateField { line: ln, field: f })
        } else {
            match v {
                Value::VInt { neg, mag } => if neg || mag > 65535 {
                    Err(ParseError::OutOfRange { line: ln, field: f })
                } else {
                    Ok(Partial { max_results: Some(mag as u16), ..raw })
                },
                _ => Err(ParseError::WrongType { line: ln, field: f }),
            }
        },
        FieldId::LogPath => if raw.log_path.is_some() {
            Err(ParseError::DuplicateField { line: ln, field: f })
        } else {
            match v {
                Value::VStr(t) => Ok(Partial { log_path: Some(t), ..raw }),
                _ => Err(ParseError::WrongType { line: ln, field: f }),
            }
        },
        FieldId::BackupCount => if raw.backup_count.is_some() {
            Err(ParseError::DuplicateField { line: ln, field: f })
        } else {
            match v {
                Value::VInt { neg, mag } => if neg || mag > 255 {
                    Err(ParseError::OutOfRange { line: ln, field: f })
                } else {
                    Ok(Partial { backup_count: Some(mag as u8), ..raw })
                },
                _ => Err(ParseError::WrongType { line: ln, field: f }),
            }
        },
        FieldId::MaxBytes => if raw.max_bytes.is_some() {
            Err(ParseError::DuplicateField { line: ln, field: f })
        } else {
            match v {
                Value::VInt { neg, mag } => if neg || mag > u32::MAX as u64 {
                    Err(ParseError::OutOfRange { line: ln, field: f })
                } else {
                    Ok(Partial { max_bytes: Some(mag as u32), ..raw })
                },
                _ => Err(ParseError::WrongType { line: ln, field: f }),
            }
        },
        FieldId::Swish => if raw.swish.is_some() {
            Err(ParseError::DuplicateField { line: ln, field: f })
        } else {
            match v {
                Value::VStr(t) => match level_of(&t) {
                    Some(l) => Ok(Partial { swish: Some(l), ..raw }),
                    None => Err(ParseError::BadEnumValue { line: ln, field: f, value: t }),
                },
                _ => Err(ParseError::WrongType { line: ln, field: f }),
            }
        },
        FieldId::Actix => if raw.actix.is_some() {
            Err(ParseError::DuplicateField { line: ln, field: f })
        } else {
            match v {
                Value::VStr(t) => match level_of(&t) {
                    Some(l) => Ok(Partial { actix: Some(l), ..raw }),
                    None => Err(ParseError::BadEnumValue { line: ln, field: f, value: t }),
                },
                _ => Err(ParseError::WrongType { line: ln, field: f }),
            }
        },
    }
}

fn finish(raw: Partial) -> (r: Result<Config, ParseError>)
    ensures
        ({
            let g = spec_finish(raw@);
            match r {
                Ok(c) => g == Ok::<ConfigV, ParseErrorV>(c@),
                Err(e) => g == Err::<ConfigV, ParseErrorV>(e@),
            }
        }),
{
    if raw.host.is_none() {
        return Err(ParseError::MissingField { field: FieldId::Host });
    }
    if raw.port.is_none() {
        return Err(ParseError::MissingField { field: FieldId::Port });
    }
    if raw.password.is_none() {
        return Err(ParseError::MissingField { field: FieldId::Password });
    }
    if raw.enabled.is_none() {
        return Err(ParseError::MissingField { field: FieldId::Enabled });
    }
    if raw.method.is_none() {
        return Err(ParseError::MissingField { field: FieldId::Method });
    }
    if raw.blocks.is_none() {
        return Err(ParseError::MissingField { field: FieldId::Blocks });
    }
    if raw.max_results.is_none() {
        return Err(ParseError::MissingField { field: FieldId::MaxResults });
    }
    if raw.log_path.is_none() {
        return Err(ParseError::MissingField { field: FieldId::LogPath });
    }
    if raw.backup_count.is_none() {
        return Err(ParseError::MissingField { field: FieldId::BackupCount });
    }
    if raw.max_bytes.is_none() {
        return Err(ParseError::MissingField { field: FieldId::MaxBytes });
    }
    if raw.swish.is_none() {
        return Err(ParseError::MissingField { field: FieldId::Swish });
    }
    if raw.actix.is_none() {
        return Err(ParseError::MissingField { field: FieldId::Actix });
    }
    Ok(
        Config {
            server: Server {
                host: raw.host.unwrap(),
                port: raw.port.unwrap(),
                password: raw.password.unwrap(),
            },
            rotation: Rotation {
                enabled: raw.enabled.unwrap(),
                method: raw.method.unwrap(),
                blocks: raw.blocks.unwrap(),
            },
            search: Search { max_results: raw.max_results.unwrap() },
            logging: Logging {
                path: raw.log_path.unwrap(),
                backup_count: raw.backup_count.unwrap(),
                max_bytes: raw.max_bytes.unwrap(),
                levels: LoggingLevel { swish: raw.swish.unwrap(), actix: raw.actix.unwrap() },
            },
        },
    )
}

fn run(
    s: &str,
    i: usize,
    ln: u64,
    sect: Option<Option<SectionId>>,
    seen: Seen,
    raw: Partial,
) -> (r: Result<Config, ParseError>)
    requires
        i <= s@.len(),
    ensures
        ({
            let g = spec_run(s@, i as int, ln, sect, seen, raw@);
            match r {
                Ok(c) => g == Ok::<ConfigV, ParseErrorV>(c@),
                Err(e) => g == Err::<ConfigV, ParseErrorV>(e@),
            }
        }),
    decreases s@.len() - i,
{
    let n = s.unicode_len();
    if i >= n {
        finish(raw)
    } else {
        match parse_line(s, i) {
            None => Err(ParseError::Syntax { line: ln }),
            Some(p) => {
                let (item, j) = p;
                let ln2 = if ln < u64::MAX {
                    ln + 1
                } else {
                    ln
                };
                match item {
                    LineItem::Blank => run(s, j, ln2, sect, seen, raw),
                    LineItem::Sect { sect: sid } => match sid {
                        None => run(s, j, ln2, Some(None), seen, raw),
                        Some(id) => if seen_has(seen, id) {
                            Err(ParseError::DuplicateSection { line: ln, section: id })
                        } else {
                            run(s, j, ln2, Some(Some(id)), with_seen(seen, id), raw)
                        },
                    },
                    LineItem::Assign { field, value } => match sect {
                        Some(opt_cur) => match opt_cur {
                            Some(cur) => match field {
                                Some(f) => {
                                    let home = match f {
                                        FieldId::Host => SectionId::Server,
                                        FieldId::Port => SectionId::Server,
                                        FieldId::Password => SectionId::Server,
                                        FieldId::Enabled => SectionId::Rotation,
                                        FieldId::Method => SectionId::Rotation,
                                        FieldId::Blocks => SectionId::Rotation,
                                        FieldId::MaxResults => SectionId::Search,
                                        FieldId::LogPath => SectionId::Logging,
                                        FieldId::BackupCount => SectionId::Logging,
                                        FieldId::MaxBytes => SectionId::Logging,
                                        FieldId::Swish => SectionId::Levels,
                                        FieldId::Actix => SectionId::Levels,
                                    };
                                    if home == cur {
                                        match assign_field(raw, f, value, ln) {
                                            Err(e) => Err(e),
                                            Ok(raw2) => run(s, j, ln2, sect, seen, raw2),
                                        }
                                    } else {
                                        run(s, j, ln2, sect, seen, raw)
                                    }
                                },
                                None => run(s, j, ln2, sect, seen, raw),
                            },
                            None => run(s, j, ln2, sect, seen, raw),
                        },
                        None => run(s, j, ln2, sect, seen, raw),
                    },
                }
            },
        }
    }
}

/// Parses the text of a configuration file against the schema. Returns
/// `Ok` exactly on the texts the schema accepts, with the `Config`
/// holding exactly the values the text gives; returns `Err` with the
/// first error in reading order otherwise — `spec_parse_config` pins
/// the outcome for every text.
pub fn parse_config(text: &str) -> (r: Result<Config, ParseError>)
    ensures
        ({
            let g = spec_parse_config(text@);
            match r {
                Ok(c) => g == Ok::<ConfigV, ParseErrorV>(c@),
                Err(e) => g == Err::<ConfigV, ParseErrorV>(e@),
            }
        }),
{
    let seen = Seen { server: false, rotation: false, search: false, logging: false, levels: false
    };
    let raw = Partial {
        host: None,
        port: None,
        password: None,
        enabled: None,
        method: None,
        blocks: None,
        max_results: None,
        log_path: None,
        backup_count: None,
        max_bytes: None,
        swish: None,
        actix: None,
    };
    run(text, 0, 1, None, seen, raw)
}

/// As [`parse_config`], with the failure wrapped as the parse kind of
/// [`ConfigError`], never the I/O kind: content trouble and file
/// trouble stay distinct. A caller that read the file hands the text
/// here and wraps its own read failures as `ConfigError::Io`.
pub fn load_str(text: &str) -> (r: Result<Config, ConfigError>)
    ensures
        ({
            let g = spec_parse_config(text@);
            match r {
                Ok(c) => g == Ok::<ConfigV, ParseErrorV>(c@),
                Err(e) => e@ matches ConfigErrorV::Parse { error } && g == Err::<
                    ConfigV,
                    ParseErrorV,
                >(error),
            }
        }),
{
    match parse_config(text) {
        Ok(c) => Ok(c),
        Err(e) => Err(ConfigError::Parse { error: e }),
    }
}

/// The outcome of loading is a function of the text alone: two loads
/// of the same unchanged text denote the same result, so two calls of
/// [`parse_config`] on equal texts return structurally equal values.
pub proof fn lemma_load_deterministic(s1: Seq<char>, s2: Seq<char>)
    requires
        s1 == s2,
    ensures
        spec_parse_config(s1) == spec_parse_config(s2),
{
}

} // verus!
