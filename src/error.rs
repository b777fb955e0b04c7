//! Errors reported by domain operations.
use vstd::prelude::*;

verus! {

/// A diagnostic captured from the native library's last-error state.
#[derive(Clone, Debug, PartialEq)]
pub struct Error {
    /// The native error code.
    pub code: i32,
    /// The native subsystem that raised the error.
    pub domain: i32,
    /// The human-readable message, empty when the library gave none.
    pub message: String,
}

impl Error {
    pub fn new(code: i32, domain: i32, message: String) -> (r: Error)
        ensures
            r.code == code,
            r.domain == domain,
            r.message@ == message@,
    {
        Error { code, domain, message }
    }
}

/// Why a domain operation failed.
#[derive(Clone, Debug, PartialEq)]
pub enum DomainError {
    /// The native entry point returned its failure sentinel; carries the
    /// diagnostic captured right after that call.
    NativeCallFailure(Error),
    /// A string argument holds a NUL byte and cannot be handed to the native
    /// library; no native entry point was called.
    InvalidArgumentEncoding,
}

} // verus!
