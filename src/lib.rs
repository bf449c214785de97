//! Fixed-size message envelope of the microkernel: a four-byte message tag, a pair of
//! process identifiers and an opaque payload, with a verified codec to and from bytes.

/// Error codes and error values.
pub mod error;

/// Inter-process communication.
pub mod ipc;

/// Native byte order of fixed-width integers.
pub mod native;

/// Process management.
pub mod pm;
