use nanvix_ipc::error::ErrorCode;
use nanvix_ipc::ipc::typ::{MessageType, INVALID_MESSAGE_TYPE, TYPE_SIZE};

const ALL: [MessageType; 5] = [
    MessageType::Interrupt,
    MessageType::Exception,
    MessageType::Ipc,
    MessageType::SchedulingEvent,
    MessageType::Ikc,
];

#[test]
fn tag_round_trip_every_variant() {
    for t in ALL {
        let bytes = t.to_bytes();
        assert_eq!(bytes.len(), TYPE_SIZE);
        assert_eq!(MessageType::try_from_bytes(bytes), Ok(t));
    }
}

#[test]
fn tag_codes_are_fixed() {
    assert_eq!(MessageType::Interrupt.to_bytes(), 0u32.to_ne_bytes());
    assert_eq!(MessageType::Exception.to_bytes(), 1u32.to_ne_bytes());
    assert_eq!(MessageType::Ipc.to_bytes(), 2u32.to_ne_bytes());
    assert_eq!(MessageType::SchedulingEvent.to_bytes(), 3u32.to_ne_bytes());
    assert_eq!(MessageType::Ikc.to_bytes(), 4u32.to_ne_bytes());
}

#[test]
fn tag_decodes_from_codes() {
    assert_eq!(MessageType::try_from_bytes(0u32.to_ne_bytes()), Ok(MessageType::Interrupt));
    assert_eq!(MessageType::try_from_bytes(3u32.to_ne_bytes()), Ok(MessageType::SchedulingEvent));
    assert_eq!(MessageType::try_from_bytes(4u32.to_ne_bytes()), Ok(MessageType::Ikc));
}

#[test]
fn tag_rejects_all_ones() {
    let e = MessageType::try_from_bytes(0xFFFF_FFFFu32.to_ne_bytes()).unwrap_err();
    assert_eq!(e.code, ErrorCode::InvalidMessage);
    assert_eq!(e.reason, INVALID_MESSAGE_TYPE);
    assert_eq!(e.reason, "invalid message type");
}

#[test]
fn tag_rejects_first_unused_code() {
    let e = MessageType::try_from_bytes(5u32.to_ne_bytes()).unwrap_err();
    assert_eq!(e.code, ErrorCode::InvalidMessage);
    assert_eq!(e.reason, "invalid message type");
}

#[test]
fn tag_encodings_are_distinct() {
    for a in ALL {
        for b in ALL {
            assert_eq!(a.to_bytes() == b.to_bytes(), a == b);
        }
    }
}

#[test]
fn tag_names() {
    assert_eq!(MessageType::Interrupt.name(), "interrupt");
    assert_eq!(MessageType::Exception.name(), "exception");
    assert_eq!(MessageType::Ipc.name(), "inter-process communication");
    assert_eq!(MessageType::SchedulingEvent.name(), "scheduling event");
    assert_eq!(MessageType::Ikc.name(), "inter-kernel communication");
}

#[test]
fn tag_size_is_four() {
    assert_eq!(MessageType::SIZE, 4);
    assert_eq!(TYPE_SIZE, 4);
}
