use nrf7002::protocol::{HostMessageRef, HostMessageType, ProtocolError};
use nrf7002::system::{parse_system_event, SystemEvent, SYSTEM_HEADER_LEN};

fn message(message_type: HostMessageType, payload: &[u8]) -> HostMessageRef<'_> {
    HostMessageRef {
        resubmit: false,
        message_type,
        payload,
    }
}

fn payload(id: u32, body: &[u8], trailing: &[u8]) -> std::vec::Vec<u8> {
    let declared = SYSTEM_HEADER_LEN + body.len();
    let mut payload = std::vec::Vec::with_capacity(declared + trailing.len());
    payload.extend_from_slice(&id.to_le_bytes());
    payload.extend_from_slice(&(declared as u32).to_le_bytes());
    payload.extend_from_slice(body);
    payload.extend_from_slice(trailing);
    payload
}

#[test]
fn parses_every_known_event_shape_and_preserves_unknown_ids() {
    for (id, body, expected) in [
        (0, &[0x10, 0x11][..], SystemEvent::PowerData(&[0x10, 0x11])),
        (1, &[][..], SystemEvent::InitDone),
        (2, &[0x20][..], SystemEvent::Statistics(&[0x20])),
        (3, &[][..], SystemEvent::DeinitDone),
        (
            12,
            &[0x30][..],
            SystemEvent::Other {
                id: 12,
                body: &[0x30],
            },
        ),
    ] {
        let bytes = payload(id, body, &[0xaa, 0xbb]);
        assert_eq!(
            parse_system_event(message(HostMessageType::System, &bytes)),
            Ok(expected),
            "event {id}"
        );
    }
}

#[test]
fn rejects_wrong_message_type_and_every_invalid_length_boundary() {
    let valid = payload(1, &[], &[]);
    assert_eq!(
        parse_system_event(message(HostMessageType::Umac, &valid)),
        Err(ProtocolError::WrongMessageType)
    );
    assert_eq!(
        parse_system_event(message(HostMessageType::System, &valid[..7])),
        Err(ProtocolError::InvalidLength)
    );

    let mut below_header = valid.clone();
    below_header[4..8].copy_from_slice(&7u32.to_le_bytes());
    assert_eq!(
        parse_system_event(message(HostMessageType::System, &below_header)),
        Err(ProtocolError::InvalidLength)
    );

    let mut beyond_payload = valid;
    beyond_payload[4..8].copy_from_slice(&9u32.to_le_bytes());
    assert_eq!(
        parse_system_event(message(HostMessageType::System, &beyond_payload)),
        Err(ProtocolError::InvalidLength)
    );
}

#[test]
fn empty_events_reject_a_body() {
    for id in [1, 3] {
        let bytes = payload(id, &[0xff], &[]);
        assert_eq!(
            parse_system_event(message(HostMessageType::System, &bytes)),
            Err(ProtocolError::InvalidLength)
        );
    }
}
