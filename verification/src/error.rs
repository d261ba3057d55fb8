//! The conditions under which the process cannot start.

use vstd::prelude::*;

verus! {

/// A fatal configuration condition, handed up to the process entry point.
#[derive(Debug, Clone, Copy, PartialEq, Eq, Structural)]
pub enum ConfigError {
    /// The configuration text is not valid TOML; `errors` is the number of
    /// errors that the parser recorded.
    SyntaxInvalid { errors: usize },
    /// The resolved configuration has no usable backend section.
    BackendSectionMissing,
}

impl ConfigError {
    /// The human-readable cause of the failure.
    pub fn message(&self) -> (text: &'static str)
        ensures
            text@ == match *self {
                ConfigError::SyntaxInvalid { .. } => "Bad config format"@,
                ConfigError::BackendSectionMissing => "Nebulosus requires vault to run!"@,
            },
    {
        match self {
            ConfigError::SyntaxInvalid { .. } => "Bad config format",
            ConfigError::BackendSectionMissing => "Nebulosus requires vault to run!",
        }
    }
}

} // verus!
