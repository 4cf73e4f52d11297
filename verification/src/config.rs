//! The configuration data model: plain value records, immutable after
//! construction, mirroring the sections of the configuration file.

use vstd::prelude::*;

verus! {

/// The rotation policy selector. The file spells these as the quoted
/// strings "Banned" and "Nanosecond".
#[derive(Clone, Copy, Debug, PartialEq, Eq, Structural)]
pub enum RotationMethod {
    Banned,
    Nanosecond,
}

/// A per-subsystem severity threshold. The file spells these as the
/// quoted strings "OFF", "INFO", "DEBUG", "WARNING" and "ERROR".
#[allow(non_camel_case_types)]
#[derive(Clone, Copy, Debug, PartialEq, Eq, Structural)]
pub enum LoggingLevels {
    OFF,
    INFO,
    DEBUG,
    WARNING,
    ERROR,
}

/// The `[server]` section: address and credentials.
#[derive(Debug, PartialEq, Eq)]
pub struct Server {
    pub host: String,
    pub port: u16,
    pub password: String,
}

/// The `[rotation]` section: whether rotation runs, how, and which
/// blocks it applies to.
#[derive(Debug, PartialEq, Eq)]
pub struct Rotation {
    pub enabled: bool,
    pub method: RotationMethod,
    pub blocks: Vec<String>,
}

/// The `[search]` section.
#[derive(Debug, PartialEq, Eq)]
pub struct Search {
    pub max_results: u16,
}

/// The `[logging.levels]` section: thresholds for the two named
/// subsystems.
#[derive(Debug, PartialEq, Eq)]
pub struct LoggingLevel {
    pub swish: LoggingLevels,
    pub actix: LoggingLevels,
}

/// The `[logging]` section.
#[derive(Debug, PartialEq, Eq)]
pub struct Logging {
    pub path: String,
    pub backup_count: u8,
    pub max_bytes: u32,
    pub levels: LoggingLevel,
}

/// The root record: every section present and fully populated.
#[derive(Debug, PartialEq, Eq)]
pub struct Config {
    pub server: Server,
    pub rotation: Rotation,
    pub search: Search,
    pub logging: Logging,
}

/// Mathematical image of `Server`: text as character sequences.
pub ghost struct ServerV {
    pub host: Seq<char>,
    pub port: u16,
    pub password: Seq<char>,
}

/// Mathematical image of `Rotation`.
pub ghost struct RotationV {
    pub enabled: bool,
    pub method: RotationMethod,
    pub blocks: Seq<Seq<char>>,
}

/// Mathematical image of `Search`.
pub ghost struct SearchV {
    pub max_results: u16,
}

/// Mathematical image of `LoggingLevel`.
pub ghost struct LoggingLevelV {
    pub swish: LoggingLevels,
    pub actix: LoggingLevels,
}

/// Mathematical image of `Logging`.
pub ghost struct LoggingV {
    pub path: Seq<char>,
    pub backup_count: u8,
    pub max_bytes: u32,
    pub levels: LoggingLevelV,
}

/// Mathematical image of `Config`.
pub ghost struct ConfigV {
    pub server: ServerV,
    pub rotation: RotationV,
    pub search: SearchV,
    pub logging: LoggingV,
}

impl View for Server {
    type V = ServerV;

    open spec fn view(&self) -> ServerV {
        ServerV { host: self.host@, port: self.port, password: self.password@ }
    }
}

impl View for Rotation {
    type V = RotationV;

    open spec fn view(&self) -> RotationV {
        RotationV {
            enabled: self.enabled,
            method: self.method,
            blocks: self.blocks.deep_view(),
        }
    }
}

impl View for Search {
    type V = SearchV;

    open spec fn view(&self) -> SearchV {
        SearchV { max_results: self.max_results }
    }
}

impl View for LoggingLevel {
    type V = LoggingLevelV;

    open spec fn view(&self) -> LoggingLevelV {
        LoggingLevelV { swish: self.swish, actix: self.actix }
    }
}

impl View for Logging {
    type V = LoggingV;

    open spec fn view(&self) -> LoggingV {
        LoggingV {
            path: self.path@,
            backup_count: self.backup_count,
            max_bytes: self.max_bytes,
            levels: self.levels@,
        }
    }
}

impl View for Config {
    type V = ConfigV;

    open spec fn view(&self) -> ConfigV {
        ConfigV {
            server: self.server@,
            rotation: self.rotation@,
            search: self.search@,
            logging: self.logging@,
        }
    }
}

} // verus!
