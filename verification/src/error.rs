//! Error kinds surfaced to the caller of the persistence service.

use vstd::prelude::*;

verus! {

/// Distinct failure kinds of the persistence service. I/O, parse and
/// serialize failures carry the underlying error rendered as text.
#[derive(Debug)]
pub enum AppError {
    /// The user's home directory could not be determined.
    ConfigPathNotFound,
    /// The configuration file does not exist where one was required.
    ConfigNotFound,
    /// Reading the configuration file failed.
    ReadError(String),
    /// The configuration file's contents could not be parsed.
    ParseError(String),
    /// The configuration document could not be serialized.
    SerializeError(String),
    /// Writing the configuration file failed.
    WriteError(String),
    /// A file named by the caller does not exist; carries its path.
    FileNotFound(String),
    /// A provider operation named a provider that is not configured.
    InvalidProvider(String),
    /// Any other I/O failure.
    Io(String),
}

} // verus!
