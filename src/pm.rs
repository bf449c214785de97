use crate::native::{ne_bytes_of, u32_from_ne_bytes, u32_of_ne_bytes, u32_to_ne_bytes};
use vstd::prelude::*;

verus! {

/// Identifier of a process, the endpoint of a message.
#[derive(Clone, Copy, Debug, PartialEq, Eq, Structural)]
pub struct ProcessIdentifier(pub u32);

/// Number of bytes in the wire form of a process identifier.
pub const PID_SIZE: usize = 4;

/// Raw value of the identifier reserved for the kernel.
pub const KERNEL_RAW: u32 = 0;

impl ProcessIdentifier {
    /// The identifier reserved for the kernel.
    pub fn kernel() -> (r: ProcessIdentifier)
        ensures
            r.0 == KERNEL_RAW,
    {
        ProcessIdentifier(KERNEL_RAW)
    }

    /// Identifier with raw value `raw`.
    pub fn new(raw: u32) -> (r: ProcessIdentifier)
        ensures
            r.0 == raw,
    {
        ProcessIdentifier(raw)
    }

    /// Raw value of the identifier.
    pub fn raw(&self) -> (r: u32)
        ensures
            r == self.0,
    {
        self.0
    }

    /// Wire form of the identifier: its raw value in native byte order.
    pub fn to_ne_bytes(&self) -> (r: [u8; PID_SIZE])
        ensures
            r@ == ne_bytes_of(self.0),
    {
        u32_to_ne_bytes(self.0)
    }

    /// Identifier whose wire form is `bytes`.
    pub fn from_ne_bytes(bytes: [u8; PID_SIZE]) -> (r: ProcessIdentifier)
        ensures
            r.0 == u32_of_ne_bytes(bytes@),
            r.to_ne_bytes_spec() == bytes@,
    {
        proof {
            crate::native::lemma_ne_bytes_round_trip();
        }
        ProcessIdentifier(u32_from_ne_bytes(bytes))
    }

    /// Wire form of the identifier.
    pub open spec fn to_ne_bytes_spec(self) -> Seq<u8> {
        ne_bytes_of(self.0)
    }
}

} // verus!
