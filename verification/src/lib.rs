//! A configuration loader for a small server: it parses the text of a
//! sectioned key/value configuration file against a fixed schema and
//! returns a fully populated [`Config`], or a structured error saying
//! exactly what was wrong. Reading the file from disk is left to the
//! caller; the parser itself is pure and verified.

pub mod config;
pub mod lines;
pub mod reader;
pub mod text;
pub mod errors;

pub use config::{Config, Logging, LoggingLevel, LoggingLevels, Rotation, RotationMethod, Search};
pub use errors::{ConfigError, FieldId, ParseError, SectionId};
pub use reader::{load_str, parse_config};
