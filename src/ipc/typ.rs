use crate::error::{Error, ErrorCode};
use crate::native::{lemma_ne_bytes_round_trip, ne_bytes_of, u32_from_ne_bytes, u32_of_ne_bytes, u32_to_ne_bytes};
use vstd::prelude::*;

verus! {

/// Number of bytes in the wire form of a message tag.
pub const TYPE_SIZE: usize = 4;

/// Description of the error for bytes that hold no known message tag.
pub const INVALID_MESSAGE_TYPE: &'static str = "invalid message type";

/// What a message is about.
#[derive(Clone, Copy, Debug, PartialEq, Eq, Structural)]
pub enum MessageType {
    /// The message encodes information about an interrupt that occurred.
    Interrupt,
    /// The message encodes information about an exception that occurred.
    Exception,
    /// The message carries information sent by a process to another.
    Ipc,
    /// The message encodes information about a scheduling event.
    SchedulingEvent,
    /// The message carries information sent from one kernel to another.
    Ikc,
}

/// The tag whose numeric code is `v`, if any.
pub open spec fn tag_of_code(v: u32) -> Option<MessageType> {
    if v == 0 {
        Some(MessageType::Interrupt)
    } else if v == 1 {
        Some(MessageType::Exception)
    } else if v == 2 {
        Some(MessageType::Ipc)
    } else if v == 3 {
        Some(MessageType::SchedulingEvent)
    } else if v == 4 {
        Some(MessageType::Ikc)
    } else {
        None
    }
}

/// The tag that four wire bytes hold, if any.
pub open spec fn tag_from_bytes(s: Seq<u8>) -> Option<MessageType> {
    tag_of_code(u32_of_ne_bytes(s))
}

/// The error for bytes that hold no known message tag.
pub open spec fn is_invalid_type_error(e: Error) -> bool {
    e.code == ErrorCode::InvalidMessage && e.reason == INVALID_MESSAGE_TYPE
}

impl MessageType {
    /// Number of bytes in the wire form of a message tag.
    pub const SIZE: usize = TYPE_SIZE;

    /// Numeric code of the tag.
    pub open spec fn code(self) -> u32 {
        match self {
            MessageType::Interrupt => 0,
            MessageType::Exception => 1,
            MessageType::Ipc => 2,
            MessageType::SchedulingEvent => 3,
            MessageType::Ikc => 4,
        }
    }

    /// Wire form of the tag: its numeric code in native byte order.
    pub open spec fn bytes_spec(self) -> Seq<u8> {
        ne_bytes_of(self.code())
    }

    /// Human-readable name of the tag, for diagnostics.
    pub open spec fn name_spec(self) -> &'static str {
        match self {
            MessageType::Interrupt => "interrupt",
            MessageType::Exception => "exception",
            MessageType::Ipc => "inter-process communication",
            MessageType::SchedulingEvent => "scheduling event",
            MessageType::Ikc => "inter-kernel communication",
        }
    }

    /// Converts the tag to its wire form.
    pub fn to_bytes(&self) -> (r: [u8; TYPE_SIZE])
        ensures
            r@ == self.bytes_spec(),
    {
        let code: u32 = match self {
            MessageType::Interrupt => 0,
            MessageType::Exception => 1,
            MessageType::Ipc => 2,
            MessageType::SchedulingEvent => 3,
            MessageType::Ikc => 4,
        };
        u32_to_ne_bytes(code)
    }

    /// Reads a tag from its wire form; fails on any value that is not the code of a tag.
    pub fn try_from_bytes(bytes: [u8; TYPE_SIZE]) -> (r: Result<MessageType, Error>)
        ensures
            match tag_from_bytes(bytes@) {
                Some(t) => r == Ok::<MessageType, Error>(t),
                None => r is Err && is_invalid_type_error(r->Err_0),
            },
    {
        match u32_from_ne_bytes(bytes) {
            0 => Ok(MessageType::Interrupt),
            1 => Ok(MessageType::Exception),
            2 => Ok(MessageType::Ipc),
            3 => Ok(MessageType::SchedulingEvent),
            4 => Ok(MessageType::Ikc),
            _ => Err(Error::new(ErrorCode::InvalidMessage, INVALID_MESSAGE_TYPE)),
        }
    }

    /// Human-readable name of the tag, for diagnostics; never part of the wire form.
    pub fn name(&self) -> (r: &'static str)
        ensures
            r == self.name_spec(),
    {
        match self {
            MessageType::Interrupt => "interrupt",
            MessageType::Exception => "exception",
            MessageType::Ipc => "inter-process communication",
            MessageType::SchedulingEvent => "scheduling event",
            MessageType::Ikc => "inter-kernel communication",
        }
    }
}

/// Decoding the wire form of a tag gives the tag back.
pub proof fn lemma_tag_round_trip(t: MessageType)
    ensures
        t.bytes_spec().len() == TYPE_SIZE,
        tag_from_bytes(t.bytes_spec()) == Some(t),
{
    lemma_ne_bytes_round_trip();
    assert(u32_of_ne_bytes(ne_bytes_of(t.code())) == t.code());
}

/// Four bytes that denote a value other than the code of a tag decode to no tag.
pub proof fn lemma_unknown_code_rejected(v: u32)
    requires
        v > 4,
    ensures
        tag_from_bytes(ne_bytes_of(v)) is None,
{
    lemma_ne_bytes_round_trip();
    assert(u32_of_ne_bytes(ne_bytes_of(v)) == v);
}

/// Distinct tags have distinct wire forms.
pub proof fn lemma_tag_bytes_injective(a: MessageType, b: MessageType)
    ensures
        a.bytes_spec() == b.bytes_spec() <==> a == b,
{
    crate::native::lemma_ne_bytes_injective(a.code(), b.code());
}

} // verus!
