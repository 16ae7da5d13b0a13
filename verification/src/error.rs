//! What can go wrong: while a scan is configured, and while one cell is
//! mapped.

use vstd::prelude::*;
use crate::text::{decimal, decimal_text, owned};

verus! {

/// A scan configuration that cannot be used. It is found before any
/// connection is made, and the scan never starts.
#[derive(Debug, Clone, PartialEq, Eq)]
pub enum ConfigError {
    /// A `KEY=value` argument without `=`; holds the argument.
    MissingEquals(String),
    /// More than one starting position was given.
    ConflictingStart,
    /// The end offset lies before the start offset; holds start and end.
    CrossingOffsets(u32, u32),
    /// A column's JSON path selects nothing; holds the path.
    InvalidPath(String),
    /// A column's JSON path holds a form that is not served; holds the path.
    UnsupportedPath(String),
    /// A transformation could not be read; holds the reader's message.
    Transform(String),
}

impl ConfigError {
    /// The error in words.
    pub fn to_string(&self) -> (text: String)
        ensures
            match *self {
                ConfigError::MissingEquals(argument) => text@ == "invalid KEY=value: no `=` found in `"@
                    + argument@ + "`"@,
                ConfigError::ConflictingStart => text@
                    == "only one of beginning, head, start and tail can be given"@,
                ConfigError::CrossingOffsets(start, end) => text@ == "end offset "@ + decimal(
                    end as nat,
                ) + " must be greater than or equal to start offset "@ + decimal(start as nat),
                ConfigError::InvalidPath(path) => text@ == "invalid JSON path: "@ + path@,
                ConfigError::UnsupportedPath(path) => text@ == "unsupported JSON path: "@ + path@,
                ConfigError::Transform(message) => text@ == message@,
            },
    {
        match self {
            ConfigError::MissingEquals(argument) => owned("invalid KEY=value: no `=` found in `").concat(
                argument.as_str(),
            ).concat("`"),
            ConfigError::ConflictingStart => owned(
                "only one of beginning, head, start and tail can be given",
            ),
            ConfigError::CrossingOffsets(start, end) => owned("end offset ").concat(
                decimal_text(*end).as_str(),
            ).concat(" must be greater than or equal to start offset ").concat(
                decimal_text(*start).as_str(),
            ),
            ConfigError::InvalidPath(path) => owned("invalid JSON path: ").concat(path.as_str()),
            ConfigError::UnsupportedPath(path) => owned("unsupported JSON path: ").concat(
                path.as_str(),
            ),
            ConfigError::Transform(message) => message.clone(),
        }
    }
}

/// One cell that could not be mapped. The row's other cells and the rows
/// behind it are still produced.
#[derive(Debug, Clone, PartialEq, Eq)]
pub struct MapError {
    /// The parser's message for the payload.
    pub message: String,
}

impl MapError {
    pub fn to_string(&self) -> (text: String)
        ensures
            text@ == self.message@,
    {
        self.message.clone()
    }
}

} // verus!
