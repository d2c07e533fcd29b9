//! The ways in which the parsing of a request fails.

use vstd::prelude::*;

verus! {

/// Why a request could not be parsed. Every variant is a failure of one
/// connection only.
#[derive(Debug, Clone, Copy, PartialEq, Eq, Structural)]
pub enum HttpError {
    /// The method token is outside the accepted set.
    UnrecognizedMethod,
    /// A request was finalized before a method had been parsed.
    MethodNotDeclared,
    /// A request was finalized before a path had been parsed.
    PathMissing,
    /// A byte other than a line feed followed the carriage return that ends
    /// the header section.
    MalformedHeaderSection,
    /// The bytes of a token are not valid UTF-8.
    TextDecodeError,
}

} // verus!
