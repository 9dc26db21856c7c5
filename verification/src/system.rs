//! System event parsing.

use vstd::prelude::*;

use crate::codec;
use crate::protocol::{HostMessageRef, HostMessageType, ProtocolError};

verus! {

/// Fixed system command and event header length.
pub const SYSTEM_HEADER_LEN: usize = 8;

/// System event identifiers.
#[derive(Clone, Copy, Debug, PartialEq, Eq, Structural)]
pub enum SystemEventId {
    PowerData,
    InitDone,
    Statistics,
    DeinitDone,
    RadioTest,
    CoexistenceConfig,
    InternalUmacStatistics,
    RadioCommandStatus,
    ChannelSetDone,
    ModeSetDone,
    FilterSetDone,
    RawTransmitDone,
    OffloadedRawTransmitStatus,
}

impl SystemEventId {
    /// The identifier on the wire.
    pub open spec fn wire(self) -> u32 {
        match self {
            SystemEventId::PowerData => 0,
            SystemEventId::InitDone => 1,
            SystemEventId::Statistics => 2,
            SystemEventId::DeinitDone => 3,
            SystemEventId::RadioTest => 4,
            SystemEventId::CoexistenceConfig => 5,
            SystemEventId::InternalUmacStatistics => 6,
            SystemEventId::RadioCommandStatus => 7,
            SystemEventId::ChannelSetDone => 8,
            SystemEventId::ModeSetDone => 9,
            SystemEventId::FilterSetDone => 10,
            SystemEventId::RawTransmitDone => 11,
            SystemEventId::OffloadedRawTransmitStatus => 12,
        }
    }

    /// Returns the identifier on the wire.
    pub fn code(self) -> (value: u32)
        ensures
            value == self.wire(),
    {
        match self {
            SystemEventId::PowerData => 0,
            SystemEventId::InitDone => 1,
            SystemEventId::Statistics => 2,
            SystemEventId::DeinitDone => 3,
            SystemEventId::RadioTest => 4,
            SystemEventId::CoexistenceConfig => 5,
            SystemEventId::InternalUmacStatistics => 6,
            SystemEventId::RadioCommandStatus => 7,
            SystemEventId::ChannelSetDone => 8,
            SystemEventId::ModeSetDone => 9,
            SystemEventId::FilterSetDone => 10,
            SystemEventId::RawTransmitDone => 11,
            SystemEventId::OffloadedRawTransmitStatus => 12,
        }
    }
}

/// Borrowed system event.
#[derive(Clone, Copy, Debug, PartialEq, Eq)]
pub enum SystemEvent<'a> {
    InitDone,
    DeinitDone,
    PowerData(&'a [u8]),
    Statistics(&'a [u8]),
    Other { id: u32, body: &'a [u8] },
}

/// The declared length lies between the header and the end of the payload.
pub open spec fn framed(payload: Seq<u8>) -> bool {
    &&& payload.len() >= SYSTEM_HEADER_LEN
    &&& SYSTEM_HEADER_LEN <= codec::u32_at(payload, 4) <= payload.len()
}

/// The body that a framed payload declares.
pub open spec fn declared_body(payload: Seq<u8>) -> Seq<u8> {
    payload.subrange(SYSTEM_HEADER_LEN as int, codec::u32_at(payload, 4) as int)
}

/// Identifiers that carry no body.
pub open spec fn bodiless(id: u32) -> bool {
    id == SystemEventId::InitDone.wire() || id == SystemEventId::DeinitDone.wire()
}

/// Whether `event` is the reading of an identifier and a body.
pub open spec fn event_reads(event: SystemEvent<'_>, id: u32, body: Seq<u8>) -> bool {
    match event {
        SystemEvent::InitDone => id == SystemEventId::InitDone.wire(),
        SystemEvent::DeinitDone => id == SystemEventId::DeinitDone.wire(),
        SystemEvent::PowerData(bytes) => id == SystemEventId::PowerData.wire() && bytes@ == body,
        SystemEvent::Statistics(bytes) => id == SystemEventId::Statistics.wire() && bytes@ == body,
        SystemEvent::Other { id: other, body: bytes } => {
            &&& other == id
            &&& bytes@ == body
            &&& !bodiless(id)
            &&& id != SystemEventId::PowerData.wire()
            &&& id != SystemEventId::Statistics.wire()
        },
    }
}

/// Parses one system event and validates its declared length.
///
/// Bytes behind the declared length are ignored.
pub fn parse_system_event<'a>(message: HostMessageRef<'a>) -> (result: Result<
    SystemEvent<'a>,
    ProtocolError,
>)
    ensures
        match result {
            Ok(event) => {
                let id = codec::u32_at(message.payload@, 0);
                &&& message.message_type is System
                &&& framed(message.payload@)
                &&& bodiless(id) ==> declared_body(message.payload@).len() == 0
                &&& event_reads(event, id, declared_body(message.payload@))
            },
            Err(error) => if !(message.message_type is System) {
                error == ProtocolError::WrongMessageType
            } else {
                &&& error == ProtocolError::InvalidLength
                &&& framed(message.payload@) ==> bodiless(codec::u32_at(message.payload@, 0))
                    && declared_body(message.payload@).len() > 0
            },
        },
{
    if message.message_type != HostMessageType::System {
        return Err(ProtocolError::WrongMessageType);
    }
    let (id, body) = validated_event_body(message.payload)?;
    decode_system_event(id, body)
}

fn validated_event_body(payload: &[u8]) -> (result: Result<(u32, &[u8]), ProtocolError>)
    ensures
        match result {
            Ok((id, body)) => framed(payload@) && id == codec::u32_at(payload@, 0) && body@
                == declared_body(payload@),
            Err(error) => !framed(payload@) && error == ProtocolError::InvalidLength,
        },
{
    if payload.len() < SYSTEM_HEADER_LEN {
        return Err(ProtocolError::InvalidLength);
    }
    let id: u32 = codec::read_u32(payload, 0);
    let declared: usize = codec::read_u32(payload, 4) as usize;
    if declared < SYSTEM_HEADER_LEN || declared > payload.len() {
        return Err(ProtocolError::InvalidLength);
    }
    Ok((id, &payload[SYSTEM_HEADER_LEN..declared]))
}

fn decode_system_event<'a>(id: u32, body: &'a [u8]) -> (result: Result<
    SystemEvent<'a>,
    ProtocolError,
>)
    ensures
        match result {
            Ok(event) => (bodiless(id) ==> body@.len() == 0) && event_reads(event, id, body@),
            Err(error) => bodiless(id) && body@.len() > 0 && error == ProtocolError::InvalidLength,
        },
{
    match id {
        0 => Ok(SystemEvent::PowerData(body)),
        1 => empty_body_event(body, SystemEvent::InitDone),
        2 => Ok(SystemEvent::Statistics(body)),
        3 => empty_body_event(body, SystemEvent::DeinitDone),
        other => Ok(SystemEvent::Other { id: other, body }),
    }
}

fn empty_body_event<'a>(body: &'a [u8], event: SystemEvent<'a>) -> (result: Result<
    SystemEvent<'a>,
    ProtocolError,
>)
    ensures
        result == (if body@.len() > 0 {
            Err::<SystemEvent<'a>, ProtocolError>(ProtocolError::InvalidLength)
        } else {
            Ok::<SystemEvent<'a>, ProtocolError>(event)
        }),
{
    if body.len() > 0 {
        return Err(ProtocolError::InvalidLength);
    }
    Ok(event)
}

/// The wire image of a system event.
pub open spec fn system_event_bytes(id: u32, body: Seq<u8>) -> Seq<u8> {
    codec::le32(id) + codec::le32((SYSTEM_HEADER_LEN + body.len()) as u32) + body
}

/// An event image is framed and reads back as its identifier and body,
/// whatever bytes follow it.
pub proof fn law_system_event_round_trip(id: u32, body: Seq<u8>, tail: Seq<u8>)
    requires
        SYSTEM_HEADER_LEN + body.len() <= u32::MAX,
    ensures
        framed(system_event_bytes(id, body) + tail),
        codec::u32_at(system_event_bytes(id, body) + tail, 0) == id,
        declared_body(system_event_bytes(id, body) + tail) == body,
{
    broadcast use crate::codec::group_image_lengths;

    let bytes = system_event_bytes(id, body) + tail;
    let total = (SYSTEM_HEADER_LEN + body.len()) as u32;
    assert(bytes.subrange(0, 4) =~= codec::le32(id));
    codec::law_u32_round_trip(bytes, 0, id);
    assert(bytes.subrange(4, 8) =~= codec::le32(total));
    codec::law_u32_round_trip(bytes, 4, total);
    assert(declared_body(bytes) =~= body);
}

/// A system payload names its event in bytes 0 to 4 and its whole length in bytes 4
/// to 8; the event is the one that the code stands for, with the rest as its body.
pub proof fn law_system_events_follow_their_code(
    event: SystemEvent<'_>,
    payload: Seq<u8>,
)
    requires
        framed(payload),
        event_reads(event, codec::u32_at(payload, 0), declared_body(payload)),
    ensures
        payload.len() >= 8,
        8 <= codec::u32_at(payload, 4) <= payload.len(),
        event is PowerData <==> codec::u32_at(payload, 0) == 0,
        event is InitDone <==> codec::u32_at(payload, 0) == 1,
        event is Statistics <==> codec::u32_at(payload, 0) == 2,
        event is DeinitDone <==> codec::u32_at(payload, 0) == 3,
        event matches SystemEvent::PowerData(bytes) ==> bytes@ == payload.subrange(
            8,
            codec::u32_at(payload, 4) as int,
        ),
        event matches SystemEvent::Statistics(bytes) ==> bytes@ == payload.subrange(
            8,
            codec::u32_at(payload, 4) as int,
        ),
        event matches SystemEvent::Other { id, body } ==> id == codec::u32_at(payload, 0) && body@
            == payload.subrange(8, codec::u32_at(payload, 4) as int),
        bodiless(codec::u32_at(payload, 0)) <==> event is InitDone || event is DeinitDone,
{
}

/// Every system event has its own code.
pub proof fn law_system_event_codes(left: SystemEventId, right: SystemEventId)
    ensures
        left.wire() == right.wire() <==> left == right,
        SystemEventId::PowerData.wire() == 0,
        SystemEventId::InitDone.wire() == 1,
        SystemEventId::Statistics.wire() == 2,
        SystemEventId::DeinitDone.wire() == 3,
        SystemEventId::RadioTest.wire() == 4,
        SystemEventId::CoexistenceConfig.wire() == 5,
        SystemEventId::InternalUmacStatistics.wire() == 6,
        SystemEventId::RadioCommandStatus.wire() == 7,
        SystemEventId::ChannelSetDone.wire() == 8,
        SystemEventId::ModeSetDone.wire() == 9,
        SystemEventId::FilterSetDone.wire() == 10,
        SystemEventId::RawTransmitDone.wire() == 11,
        SystemEventId::OffloadedRawTransmitStatus.wire() == 12,
{
}

} // verus!
