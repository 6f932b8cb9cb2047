//! The error kinds an install pipeline can surface.

use vstd::prelude::*;

verus! {

/// One failure of an install step.  Each variant carries the identifying
/// detail of the failure: the transport message, the offending URL, the
/// query or path that was not found, or the wrapped I/O message.
#[derive(Debug, Clone, PartialEq, Eq)]
pub enum InstallError {
    /// A network request or transfer failed; carries the transport message.
    NetworkError(String),
    /// A manifest body was not valid structured data, or a required field
    /// was missing; carries a message naming the source URL or the field.
    ParseError(String),
    /// No manifest entry or candidate main file matched; carries the query
    /// string or the searched directory.
    NotFoundError(String),
    /// Opening or unpacking an archive failed; carries the wrapped message.
    ExtractionError(String),
    /// A local read or write failed; carries the wrapped message.
    IOError(String),
}

impl InstallError {
    /// The detail string the variant carries.
    pub fn detail(&self) -> (r: &str)
        ensures
            r@ == self.detail_spec(),
    {
        match self {
            InstallError::NetworkError(s) => s.as_str(),
            InstallError::ParseError(s) => s.as_str(),
            InstallError::NotFoundError(s) => s.as_str(),
            InstallError::ExtractionError(s) => s.as_str(),
            InstallError::IOError(s) => s.as_str(),
        }
    }

    /// The detail string at the specification level.
    pub open spec fn detail_spec(&self) -> Seq<char> {
        match self {
            InstallError::NetworkError(s) => s@,
            InstallError::ParseError(s) => s@,
            InstallError::NotFoundError(s) => s@,
            InstallError::ExtractionError(s) => s@,
            InstallError::IOError(s) => s@,
        }
    }
}

} // verus!
