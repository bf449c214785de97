use crate::error::Error;
use crate::ipc::typ::{is_invalid_type_error, tag_from_bytes, MessageType, TYPE_SIZE};
use crate::native::{lemma_ne_bytes_injective, lemma_ne_bytes_round_trip};
use crate::pm::{ProcessIdentifier, KERNEL_RAW, PID_SIZE};
use vstd::prelude::*;

verus! {

/// Total number of bytes in a message.
pub const TOTAL_SIZE: usize = 64;

/// Number of bytes in the header of a message: its tag and its two endpoints.
pub const HEADER_SIZE: usize = 2 * PID_SIZE + TYPE_SIZE;

/// Number of bytes in the payload of a message.
pub const PAYLOAD_SIZE: usize = TOTAL_SIZE - HEADER_SIZE;

/// Offset of the source identifier in the wire form.
pub const SOURCE_OFFSET: usize = TYPE_SIZE;

/// Offset of the destination identifier in the wire form.
pub const DESTINATION_OFFSET: usize = TYPE_SIZE + PID_SIZE;

/// A message that can be sent between processes, or between kernels.
#[derive(Clone, Copy, Debug, Eq)]
pub struct Message {
    /// Type of the message.
    pub message_type: MessageType,
    /// Process that sent the message.
    pub source: ProcessIdentifier,
    /// Process that should receive the message.
    pub destination: ProcessIdentifier,
    /// Payload of the message, never inspected here.
    pub payload: [u8; PAYLOAD_SIZE],
}

/// Copies `src` into `bytes` from `offset` on, leaving every other byte as it was.
fn write_at(bytes: &mut [u8; TOTAL_SIZE], offset: usize, src: &[u8])
    requires
        offset + src@.len() <= TOTAL_SIZE,
    ensures
        final(bytes)@ == old(bytes)@.subrange(0, offset as int) + src@ + old(bytes)@.subrange(
            offset + src@.len(),
            TOTAL_SIZE as int,
        ),
{
    let ghost before = bytes@;
    let mut i: usize = 0;
    while i < src.len()
        invariant
            offset + src@.len() <= TOTAL_SIZE,
            0 <= i <= src@.len(),
            bytes@.len() == TOTAL_SIZE,
            forall|j: int| 0 <= j < offset ==> bytes@[j] == before[j],
            forall|j: int| 0 <= j < i ==> bytes@[offset + j] == src@[j],
            forall|j: int| offset + i <= j < TOTAL_SIZE ==> bytes@[j] == before[j],
        decreases src@.len() - i,
    {
        bytes[offset + i] = src[i];
        i += 1;
    }
    assert(bytes@ =~= before.subrange(0, offset as int) + src@ + before.subrange(
        offset + src@.len(),
        TOTAL_SIZE as int,
    ));
}

/// The four bytes of `bytes` from `offset` on.
fn read4_at(bytes: &[u8; TOTAL_SIZE], offset: usize) -> (r: [u8; 4])
    requires
        offset + 4 <= TOTAL_SIZE,
    ensures
        r@ == bytes@.subrange(offset as int, offset + 4),
{
    let r: [u8; 4] = [bytes[offset], bytes[offset + 1], bytes[offset + 2], bytes[offset + 3]];
    assert(r@ =~= bytes@.subrange(offset as int, offset + 4));
    r
}

impl Message {
    /// Total number of bytes in a message.
    pub const TOTAL_SIZE: usize = TOTAL_SIZE;

    /// Number of bytes in the header of a message.
    pub const HEADER_SIZE: usize = HEADER_SIZE;

    /// Number of bytes in the payload of a message.
    pub const PAYLOAD_SIZE: usize = PAYLOAD_SIZE;

    /// Wire form of the message: tag, source, destination, then payload, with no padding.
    pub open spec fn wire_spec(self) -> Seq<u8> {
        self.message_type.bytes_spec() + self.source.to_ne_bytes_spec()
            + self.destination.to_ne_bytes_spec() + self.payload@
    }

    /// Creates a new message.
    pub fn new(
        source: ProcessIdentifier,
        destination: ProcessIdentifier,
        message_type: MessageType,
        payload: [u8; PAYLOAD_SIZE],
    ) -> (r: Message)
        ensures
            r.message_type == message_type,
            r.source == source,
            r.destination == destination,
            r.payload == payload,
    {
        Message { message_type, source, destination, payload }
    }

    /// Converts the message to its wire form.
    pub fn to_bytes(&self) -> (r: [u8; TOTAL_SIZE])
        ensures
            r@ == self.wire_spec(),
    {
        let mut bytes: [u8; TOTAL_SIZE] = [0; TOTAL_SIZE];
        let tag = self.message_type.to_bytes();
        let source = self.source.to_ne_bytes();
        let destination = self.destination.to_ne_bytes();
        write_at(&mut bytes, 0, tag.as_slice());
        write_at(&mut bytes, SOURCE_OFFSET, source.as_slice());
        write_at(&mut bytes, DESTINATION_OFFSET, destination.as_slice());
        write_at(&mut bytes, HEADER_SIZE, self.payload.as_slice());
        assert(bytes@ =~= self.wire_spec());
        bytes
    }

    /// Reads a message from its wire form. The tag is read first, and bytes whose tag is
    /// unknown are rejected before any other field is read.
    pub fn try_from_bytes(bytes: [u8; TOTAL_SIZE]) -> (r: Result<Message, Error>)
        ensures
            r is Ok <==> tag_from_bytes(bytes@.subrange(0, TYPE_SIZE as int)) is Some,
            r is Ok ==> r->Ok_0.wire_spec() == bytes@,
            r is Err ==> is_invalid_type_error(r->Err_0),
    {
        let message_type = match MessageType::try_from_bytes(read4_at(&bytes, 0)) {
            Ok(t) => t,
            Err(e) => return Err(e),
        };
        let source = ProcessIdentifier::from_ne_bytes(read4_at(&bytes, SOURCE_OFFSET));
        let destination = ProcessIdentifier::from_ne_bytes(read4_at(&bytes, DESTINATION_OFFSET));
        let mut payload: [u8; PAYLOAD_SIZE] = [0; PAYLOAD_SIZE];
        let mut i: usize = 0;
        while i < PAYLOAD_SIZE
            invariant
                0 <= i <= PAYLOAD_SIZE,
                forall|j: int| 0 <= j < i ==> payload@[j] == bytes@[HEADER_SIZE + j],
            decreases PAYLOAD_SIZE - i,
        {
            payload[i] = bytes[HEADER_SIZE + i];
            i += 1;
        }
        proof {
            crate::ipc::typ::lemma_tag_round_trip(message_type);
            crate::native::lemma_ne_bytes_round_trip();
            assert(payload@ =~= bytes@.subrange(HEADER_SIZE as int, TOTAL_SIZE as int));
        }
        let m = Message { message_type, source, destination, payload };
        assert(m.wire_spec() =~= bytes@);
        Ok(m)
    }
}

/// The empty message that fills a slot before any message arrives: an interrupt tag, the kernel
/// as both endpoints, and a zeroed payload. There is no separate tag for "no message"; with the
/// kernel's identifier at zero, the wire form of this message is all zero bytes.
impl Default for Message {
    fn default() -> (r: Message)
        ensures
            r.message_type == MessageType::Interrupt,
            r.source.0 == KERNEL_RAW,
            r.destination.0 == KERNEL_RAW,
            forall|i: int| 0 <= i < PAYLOAD_SIZE ==> r.payload@[i] == 0,
    {
        Message {
            message_type: MessageType::Interrupt,
            source: ProcessIdentifier::kernel(),
            destination: ProcessIdentifier::kernel(),
            payload: [0; PAYLOAD_SIZE],
        }
    }
}

/// The header and the payload fill a message exactly, and every message has a wire form of
/// that one size.
pub proof fn lemma_sizes(m: Message)
    ensures
        HEADER_SIZE == 2 * PID_SIZE + TYPE_SIZE,
        HEADER_SIZE + PAYLOAD_SIZE == TOTAL_SIZE,
        m.wire_spec().len() == TOTAL_SIZE,
{
    lemma_ne_bytes_round_trip();
}

/// Two messages with the same wire form are the same message.
pub proof fn lemma_wire_injective(a: Message, b: Message)
    ensures
        a.wire_spec() == b.wire_spec() <==> a == b,
{
    lemma_ne_bytes_round_trip();
    if a.wire_spec() == b.wire_spec() {
        let w = a.wire_spec();
        assert(a.message_type.bytes_spec() =~= w.subrange(0, SOURCE_OFFSET as int));
        assert(b.message_type.bytes_spec() =~= w.subrange(0, SOURCE_OFFSET as int));
        assert(a.source.to_ne_bytes_spec() =~= w.subrange(
            SOURCE_OFFSET as int,
            DESTINATION_OFFSET as int,
        ));
        assert(b.source.to_ne_bytes_spec() =~= w.subrange(
            SOURCE_OFFSET as int,
            DESTINATION_OFFSET as int,
        ));
        assert(a.destination.to_ne_bytes_spec() =~= w.subrange(
            DESTINATION_OFFSET as int,
            HEADER_SIZE as int,
        ));
        assert(b.destination.to_ne_bytes_spec() =~= w.subrange(
            DESTINATION_OFFSET as int,
            HEADER_SIZE as int,
        ));
        assert(a.payload@ =~= w.subrange(HEADER_SIZE as int, TOTAL_SIZE as int));
        assert(b.payload@ =~= w.subrange(HEADER_SIZE as int, TOTAL_SIZE as int));
        crate::ipc::typ::lemma_tag_bytes_injective(a.message_type, b.message_type);
        lemma_ne_bytes_injective(a.source.0, b.source.0);
        lemma_ne_bytes_injective(a.destination.0, b.destination.0);
        assert(a.payload =~= b.payload);
    }
}

/// Reading the wire form of any message succeeds and gives back that message, field by field.
pub proof fn lemma_message_round_trip(m: Message)
    ensures
        m.wire_spec().len() == TOTAL_SIZE,
        tag_from_bytes(m.wire_spec().subrange(0, TYPE_SIZE as int)) == Some(m.message_type),
        forall|r: Message|
            #![trigger r.wire_spec()]
            r.wire_spec() == m.wire_spec() ==> r == m,
{
    lemma_sizes(m);
    crate::ipc::typ::lemma_tag_round_trip(m.message_type);
    assert(m.wire_spec().subrange(0, TYPE_SIZE as int) =~= m.message_type.bytes_spec());
    assert forall|r: Message|
        #![trigger r.wire_spec()]
        r.wire_spec() == m.wire_spec() implies r == m by {
        lemma_wire_injective(r, m);
    }
}

/// Two messages of the same kind and payload whose endpoints are swapped have wire forms
/// that differ, and only within the two identifier fields.
pub proof fn lemma_swapped_endpoints(a: Message, b: Message)
    requires
        a.message_type == b.message_type,
        a.payload@ == b.payload@,
        a.source == b.destination,
        a.destination == b.source,
        a != b,
    ensures
        a.wire_spec() != b.wire_spec(),
        a.wire_spec().len() == b.wire_spec().len(),
        forall|i: int|
            0 <= i < TOTAL_SIZE && !(SOURCE_OFFSET <= i < HEADER_SIZE) ==> a.wire_spec()[i]
                == b.wire_spec()[i],
{
    lemma_sizes(a);
    lemma_sizes(b);
    lemma_wire_injective(a, b);
    lemma_ne_bytes_round_trip();
    let wa = a.wire_spec();
    let wb = b.wire_spec();
    assert(wa.subrange(0, SOURCE_OFFSET as int) =~= a.message_type.bytes_spec());
    assert(wb.subrange(0, SOURCE_OFFSET as int) =~= b.message_type.bytes_spec());
    assert(wa.subrange(HEADER_SIZE as int, TOTAL_SIZE as int) =~= a.payload@);
    assert(wb.subrange(HEADER_SIZE as int, TOTAL_SIZE as int) =~= b.payload@);
    assert forall|i: int|
        0 <= i < TOTAL_SIZE && !(SOURCE_OFFSET <= i < HEADER_SIZE) implies wa[i] == wb[i] by {
        if i < SOURCE_OFFSET {
            assert(wa[i] == wa.subrange(0, SOURCE_OFFSET as int)[i]);
            assert(wb[i] == wb.subrange(0, SOURCE_OFFSET as int)[i]);
        } else {
            assert(wa[i] == wa.subrange(HEADER_SIZE as int, TOTAL_SIZE as int)[i - HEADER_SIZE]);
            assert(wb[i] == wb.subrange(HEADER_SIZE as int, TOTAL_SIZE as int)[i - HEADER_SIZE]);
        }
    }
}

/// Two messages are equal when their fields are, the payload compared byte by byte.
impl PartialEq for Message {
    fn eq(&self, o: &Message) -> (r: bool) {
        if self.message_type != o.message_type || self.source != o.source || self.destination
            != o.destination {
            return false;
        }
        let mut i: usize = 0;
        while i < PAYLOAD_SIZE
            invariant
                0 <= i <= PAYLOAD_SIZE,
                forall|j: int| 0 <= j < i ==> self.payload@[j] == o.payload@[j],
            decreases PAYLOAD_SIZE - i,
        {
            if self.payload[i] != o.payload[i] {
                return false;
            }
            i += 1;
        }
        assert(self.payload@ =~= o.payload@);
        true
    }
}

impl vstd::std_specs::cmp::PartialEqSpecImpl for Message {
    open spec fn obeys_eq_spec() -> bool {
        true
    }

    open spec fn eq_spec(&self, o: &Message) -> bool {
        &&& self.message_type == o.message_type
        &&& self.source == o.source
        &&& self.destination == o.destination
        &&& self.payload@ == o.payload@
    }
}

} // verus!
