use vstd::prelude::*;

verus! {

/// Machine-checkable kind of an error.
#[derive(Clone, Copy, Debug, PartialEq, Eq, Structural)]
pub enum ErrorCode {
    /// Bytes that do not form a message: an unknown message tag or a malformed field.
    InvalidMessage,
}

/// An error: its kind and a human-readable description.
#[derive(Clone, Copy, Debug, PartialEq, Eq)]
pub struct Error {
    /// Kind of the error.
    pub code: ErrorCode,
    /// Human-readable description of the error.
    pub reason: &'static str,
}

impl Error {
    /// Builds an error of kind `code` described by `reason`.
    pub fn new(code: ErrorCode, reason: &'static str) -> (r: Error)
        ensures
            r.code == code,
            r.reason == reason,
    {
        Error { code, reason }
    }
}

} // verus!
