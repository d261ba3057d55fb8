//! How the parsed file and the command line become the configuration of one
//! process run, and whether the process can start with it.

use vstd::prelude::*;
use crate::document::{document_of_text, parse_document};
use crate::error::ConfigError;
use crate::level::{level_for_verbosity, log_level_for, LogLevel};
use crate::tree::{Tree, TreeView};
pub use crate::vault::{parse_vault_config, VaultConfig, VaultConfigView};
use crate::vault::{extract_backend_section, vault_of_document};

verus! {

/// The resolved configuration of one process run.
#[derive(Debug, PartialEq, Eq)]
pub struct Config {
    /// The backend section; absent where the file had none that is usable.
    pub vault: Option<VaultConfig>,
    /// The log severity, as the command line asks for it.
    pub log_level: LogLevel,
}

/// Model of a `Config`.
pub struct ConfigView {
    pub vault: Option<VaultConfigView>,
    pub log_level: LogLevel,
}

impl View for Config {
    type V = ConfigView;

    open spec fn view(&self) -> ConfigView {
        ConfigView {
            vault: match self.vault {
                Some(vault) => Some(vault@),
                None => None,
            },
            log_level: self.log_level,
        }
    }
}

/// The model of the outcome of a resolution.
pub open spec fn outcome_view(outcome: Result<Config, ConfigError>) -> Result<
    ConfigView,
    ConfigError,
> {
    match outcome {
        Ok(config) => Ok(config@),
        Err(error) => Err(error),
    }
}

/// The configuration of a process that found no configuration file.
pub open spec fn default_config() -> ConfigView {
    ConfigView { vault: None, log_level: LogLevel::Warn }
}

/// The configuration that a parsed document describes: the backend section
/// under `vault`, if the document has one that is usable, at level `Warn`.
pub open spec fn config_of_document(document: TreeView) -> ConfigView {
    ConfigView { vault: vault_of_document(document), log_level: LogLevel::Warn }
}

/// The configuration that configuration text describes, or the syntax error.
pub open spec fn config_of_text(text: Seq<char>) -> Result<ConfigView, ConfigError> {
    match document_of_text(text) {
        Ok(document) => Ok(config_of_document(document)),
        Err(error) => Err(error),
    }
}

/// The resolved configuration for `occurrences` debug flags and the parsed
/// document (`None` where the file could not be read): the command line
/// decides the log level, the document everything else.
pub open spec fn resolved(occurrences: u64, document: Option<TreeView>) -> ConfigView {
    let base = match document {
        Some(tree) => config_of_document(tree),
        None => default_config(),
    };
    ConfigView { vault: base.vault, log_level: level_for_verbosity(occurrences as nat) }
}

/// The outcome of resolving `occurrences` debug flags and the text of the
/// configuration file (`None` where the file could not be read).
pub open spec fn resolved_from_text(occurrences: u64, file: Option<Seq<char>>) -> Result<
    ConfigView,
    ConfigError,
> {
    match file {
        Some(text) => match document_of_text(text) {
            Ok(document) => Ok(resolved(occurrences, Some(document))),
            Err(error) => Err(error),
        },
        None => Ok(resolved(occurrences, None)),
    }
}

impl Config {
    /// Every host of the backend section, if there is one, is non-empty.
    pub open spec fn wf(&self) -> bool {
        match self.vault {
            Some(vault) => vault.wf(),
            None => true,
        }
    }

    /// The configuration without a backend section, at level `Warn`.
    pub fn default() -> (config: Config)
        ensures
            config@ == default_config(),
            config.wf(),
    {
        Config { vault: None, log_level: LogLevel::Warn }
    }
}

/// Builds the configuration that a parsed document describes.
pub fn config_from_document(document: &Tree) -> (config: Config)
    ensures
        config@ == config_of_document(document@),
        config.wf(),
{
    Config { vault: extract_backend_section(document), log_level: LogLevel::Warn }
}

/// Parses configuration text and builds the configuration it describes.
pub fn parsed_config(text: &str) -> (outcome: Result<Config, ConfigError>)
    ensures
        outcome_view(outcome) == config_of_text(text@),
        outcome matches Ok(config) ==> config.wf(),
{
    match parse_document(text) {
        Ok(document) => Ok(config_from_document(&document)),
        Err(error) => Err(error),
    }
}

/// Resolves the configuration once the file was read and parsed: `document`
/// is the parsed file, or `None` where the file could not be read. The
/// command line's level always replaces the one found so far. Never fails.
pub fn resolve(occurrences: u64, document: Option<&Tree>) -> (config: Config)
    ensures
        config@ == resolved(
            occurrences,
            match document {
                Some(tree) => Some(tree@),
                None => None,
            },
        ),
        config.wf(),
{
    let mut config = match document {
        Some(tree) => config_from_document(tree),
        None => Config::default(),
    };
    config.log_level = log_level_for(occurrences);
    config
}

/// Resolves the configuration: `occurrences` counts the debug flags of the
/// command line, `file` is the text of the configuration file, or `None`
/// where the file could not be read, which is no error. Text that the parser
/// rejects is the only error.
pub fn get_config(occurrences: u64, file: Option<&str>) -> (outcome: Result<Config, ConfigError>)
    ensures
        outcome_view(outcome) == resolved_from_text(
            occurrences,
            match file {
                Some(text) => Some(text@),
                None => None,
            },
        ),
        outcome matches Ok(config) ==> config.wf(),
{
    match file {
        Some(text) => match parse_document(text) {
            Ok(document) => Ok(resolve(occurrences, Some(&document))),
            Err(error) => Err(error),
        },
        None => Ok(resolve(occurrences, None)),
    }
}

/// Where the configuration file is read from when the command line names no
/// other place.
pub const DEFAULT_CONFIG_FILE: &'static str = "/etc/nebulosus/nebulosus.conf";

/// The path of the configuration file: the one that the command line gives,
/// or the default.
pub fn config_file<'a>(given: Option<&'a str>) -> (path: &'a str)
    ensures
        path@ == match given {
            Some(custom) => custom@,
            None => DEFAULT_CONFIG_FILE@,
        },
{
    match given {
        Some(custom) => custom,
        None => DEFAULT_CONFIG_FILE,
    }
}

/// The backend section that the client is built from. A configuration
/// without one cannot start the process.
pub fn bootstrap(config: Config) -> (outcome: Result<VaultConfig, ConfigError>)
    ensures
        match outcome {
            Ok(vault) => config.vault == Some(vault),
            Err(error) => config.vault is None && error == ConfigError::BackendSectionMissing,
        },
{
    match config.vault {
        Some(vault) => Ok(vault),
        None => Err(ConfigError::BackendSectionMissing),
    }
}

} // verus!
