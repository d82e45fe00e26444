//! The error taxonomy of the library: every decoder and validator reports a
//! failure through one of these variants, and no layer substitutes a default
//! value for a failed parse.

use vstd::prelude::*;

verus! {

/// A parse or validation failure of attestation evidence.
#[derive(Debug, Clone, PartialEq, Eq)]
pub enum Error {
    /// A buffer was shorter (or, for fixed-size structures, not exactly equal)
    /// to a structurally required length.
    InvalidSize { expected: usize, actual: usize },
    /// A report-type code outside the closed set of known codes.
    UnknownReportType(u32),
    /// A hash-type code outside the closed set of known codes.
    UnknownHashType(u32),
    /// Claims bytes were not valid UTF-8 text.
    Utf8,
    /// Malformed JSON, or a JSON document of the wrong top-level shape.
    Json,
    /// Structural PEM failure or a missing certificate-chain block.
    ValidationError(String),
    /// Malformed base64url transport text.
    Base64,
}

} // verus!
