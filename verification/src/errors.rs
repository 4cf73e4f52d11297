//! The failure taxonomy: parse/schema errors, produced by the verified
//! parser, and I/O errors, constructed by the caller that reads the
//! file. The two kinds stay distinct variants of [`ConfigError`].

use vstd::prelude::*;

verus! {

/// Names a section of the schema.
#[derive(Clone, Copy, Debug, PartialEq, Eq, Structural)]
pub enum SectionId {
    Server,
    Rotation,
    Search,
    Logging,
    Levels,
}

/// Names a required field of the schema.
#[derive(Clone, Copy, Debug, PartialEq, Eq, Structural)]
pub enum FieldId {
    Host,
    Port,
    Password,
    Enabled,
    Method,
    Blocks,
    MaxResults,
    LogPath,
    BackupCount,
    MaxBytes,
    Swish,
    Actix,
}

/// A schema or syntax failure, with the 1-based line it was found on.
/// `MissingField` carries no line: the absence is a property of the
/// whole document.
#[derive(Debug, PartialEq, Eq)]
pub enum ParseError {
    /// The line is not a blank line, a comment, a section header or a
    /// well-formed `key = value` pair in the supported syntax.
    Syntax { line: u64 },
    /// A known field was given a value of the wrong type.
    WrongType { line: u64, field: FieldId },
    /// A known integer field was given a negative value or one above
    /// the field's maximum.
    OutOfRange { line: u64, field: FieldId },
    /// A known enumeration field was given a string that names none of
    /// its variants; carries the offending string.
    BadEnumValue { line: u64, field: FieldId, value: String },
    /// A known field was assigned twice.
    DuplicateField { line: u64, field: FieldId },
    /// A known section header appeared twice.
    DuplicateSection { line: u64, section: SectionId },
    /// A required field was never assigned.
    MissingField { field: FieldId },
}

/// Mathematical image of `ParseError`.
pub ghost enum ParseErrorV {
    Syntax { line: u64 },
    WrongType { line: u64, field: FieldId },
    OutOfRange { line: u64, field: FieldId },
    BadEnumValue { line: u64, field: FieldId, value: Seq<char> },
    DuplicateField { line: u64, field: FieldId },
    DuplicateSection { line: u64, section: SectionId },
    MissingField { field: FieldId },
}

impl View for ParseError {
    type V = ParseErrorV;

    open spec fn view(&self) -> ParseErrorV {
        match self {
            ParseError::Syntax { line } => ParseErrorV::Syntax { line: *line },
            ParseError::WrongType { line, field } => (ParseErrorV::WrongType {
                line: *line,
                field: *field,
            }),
            ParseError::OutOfRange { line, field } => (ParseErrorV::OutOfRange {
                line: *line,
                field: *field,
            }),
            ParseError::BadEnumValue { line, field, value } => (ParseErrorV::BadEnumValue {
                line: *line,
                field: *field,
                value: value@,
            }),
            ParseError::DuplicateField { line, field } => (ParseErrorV::DuplicateField {
                line: *line,
                field: *field,
            }),
            ParseError::DuplicateSection { line, section } => (ParseErrorV::DuplicateSection {
                line: *line,
                section: *section,
            }),
            ParseError::MissingField { field } => ParseErrorV::MissingField { field: *field },
        }
    }
}

/// The loader's two terminal failure kinds: the file could not be
/// read, or its content did not parse. Never both for one call.
#[derive(Debug, PartialEq, Eq)]
pub enum ConfigError {
    /// The path did not name a readable file. The message comes from
    /// the caller that performed the read.
    Io { message: String },
    /// The file was read but its content was rejected.
    Parse { error: ParseError },
}

/// Mathematical image of `ConfigError`.
pub ghost enum ConfigErrorV {
    Io { message: Seq<char> },
    Parse { error: ParseErrorV },
}

impl View for ConfigError {
    type V = ConfigErrorV;

    open spec fn view(&self) -> ConfigErrorV {
        match self {
            ConfigError::Io { message } => ConfigErrorV::Io { message: message@ },
            ConfigError::Parse { error } => ConfigErrorV::Parse { error: error@ },
        }
    }
}

impl ConfigError {
    /// True exactly on the I/O kind: an I/O failure is never mistaken
    /// for a parse failure, nor the reverse.
    pub fn is_io(&self) -> (r: bool)
        ensures
            r == (self@ is Io),
            r == !(self@ is Parse),
    {
        match self {
            ConfigError::Io { .. } => true,
            ConfigError::Parse { .. } => false,
        }
    }
}

} // verus!
