//! The crate-wide error type kept for callers that still name it; each module carries its own
//! error type, and nothing in the crate produces these.
use vstd::prelude::*;

verus! {

/// The crate-wide error type. See the module docs.
#[derive(Debug)]
pub enum Error {
    /// A save file's version does not match this build's.
    InvalidSaveVersion {
        /// Version this build writes.
        expected: &'static str,
        /// Version found in the file.
        found: String,
    },
    /// A save file's magic header is missing or malformed.
    InvalidSaveHeader {
        /// File the header was read from.
        path: std::path::PathBuf,
        /// What was wrong with it.
        error: String,
    },
    /// A configuration field was given an unusable value.
    InvalidConfig {
        /// Name of the offending field.
        field: &'static str,
        /// Value it was given.
        value: String,
    },
    /// Filesystem error, with the operation that caused it.
    Io {
        /// What was being attempted.
        context: String,
        /// The underlying error.
        source: std::io::Error,
    },
    /// Any other error.
    Unknown(String),
}

impl Error {
    /// Creates an [`Error::Io`] from `source`, describing what was being attempted as `context`.
    pub fn io(source: std::io::Error, context: String) -> (e: Self)
        ensures
            e matches Error::Io { context: c, .. } && c@ == context@,
    {
        Error::Io { context, source }
    }
}

} // verus!
