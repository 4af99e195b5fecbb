//! The errors that loading a configuration can end in.
use vstd::prelude::*;

verus! {

/// Why a configuration could not be loaded. Each carries a description:
/// the failing path, the parser's message, or the offending key.
#[derive(Debug, Clone)]
pub enum ConfigError {
    /// The text is not valid JSON after normalization.
    ParseError(String),
    /// A file of the chain could not be read.
    CouldNotFindFile(String),
    /// An `extends` chain came back to a file that it already holds.
    CyclicExtends(String),
    /// A known field holds a value of the wrong shape, or a closed
    /// enumeration holds an unknown value.
    SchemaError(String),
}

impl ConfigError {
    /// A human-readable description of the error.
    pub fn message(&self) -> (r: String)
        ensures
            r@ == match self {
                ConfigError::ParseError(m) => m@,
                ConfigError::CouldNotFindFile(m) => m@,
                ConfigError::CyclicExtends(m) => m@,
                ConfigError::SchemaError(m) => m@,
            },
    {
        match self {
            ConfigError::ParseError(m) => m.clone(),
            ConfigError::CouldNotFindFile(m) => m.clone(),
            ConfigError::CyclicExtends(m) => m.clone(),
            ConfigError::SchemaError(m) => m.clone(),
        }
    }
}

} // verus!
