//! Packed host/RPU protocol codecs.
//!
//! Every message is stated as a byte sequence; the encoders are proved to
//! write exactly that sequence and the parsers to read it back.

use vstd::prelude::*;

use crate::codec;
use crate::codec::Writer;

verus! {

broadcast use crate::codec::group_image_lengths;

/// Common host message header length.
pub const HOST_MESSAGE_HEADER_LEN: usize = 12;

/// Packed UMAC command/event header length.
pub const UMAC_HEADER_LEN: usize = 36;

/// Packed system initialization command length, without the outer host header.
pub const SYSTEM_INIT_LEN: usize = 366;

/// Maximum command/event buffer used by the native control path.
pub const MAX_CONTROL_MESSAGE_LEN: usize = 1024;

/// HPQM descriptor block length.
pub const HPQM_INFO_LEN: usize = 56;

/// Maximum SSID length.
pub const MAX_SSID_LEN: usize = 32;

/// Maximum scan IE storage in the wire structure.
pub const MAX_SCAN_IE_LEN: usize = 400;

/// Maximum scan SSID count.
pub const MAX_SCAN_SSIDS: usize = 2;

/// Maximum scan frequency count.
pub const MAX_SCAN_FREQUENCIES: usize = 64;

/// nRF70 RF parameter byte count.
pub const RF_PARAMS_LEN: usize = 200;

/// Number of firmware RX pools.
pub const RX_POOL_COUNT: usize = 3;

/// Largest UMAC header and body inside one control message.
pub const MAX_UMAC_INNER_LEN: usize = 1012;

/// Largest scan body inside one control message.
pub const MAX_SCAN_BODY_LEN: usize = 976;

/// Scan body length without its frequency list.
pub const SCAN_FIXED_LEN: usize = 490;

/// Packet RAM that the configured RX pools may take.
pub const MAX_RX_POOL_BYTES: u32 = 131072;

/// Codec failure.
#[derive(Clone, Copy, Debug, PartialEq, Eq, Structural)]
pub enum ProtocolError {
    /// Caller storage is too small.
    BufferTooSmall,
    /// A declared length is invalid.
    InvalidLength,
    /// A numeric command or event value is not supported by this codec.
    InvalidValue(u32),
    /// A fixed-capacity field exceeds its wire limit.
    LimitExceeded,
    /// A message type does not match the expected protocol layer.
    WrongMessageType,
}

/// Top-level host/RPU message category.
#[derive(Clone, Copy, Debug, PartialEq, Eq, Structural)]
pub enum HostMessageType {
    /// System configuration and status.
    System,
    /// Reserved supplicant channel.
    Supplicant,
    /// Data path.
    Data,
    /// UMAC control path.
    Umac,
}

/// The category that a wire value stands for.
pub open spec fn message_type_of(value: i32) -> Option<HostMessageType> {
    if value == 0 {
        Some(HostMessageType::System)
    } else if value == 1 {
        Some(HostMessageType::Supplicant)
    } else if value == 2 {
        Some(HostMessageType::Data)
    } else if value == 3 {
        Some(HostMessageType::Umac)
    } else {
        None
    }
}

impl HostMessageType {
    /// The wire value.
    pub open spec fn wire(self) -> i32 {
        match self {
            HostMessageType::System => 0,
            HostMessageType::Supplicant => 1,
            HostMessageType::Data => 2,
            HostMessageType::Umac => 3,
        }
    }

    /// Returns the wire value.
    pub fn code(self) -> (value: i32)
        ensures
            value == self.wire(),
    {
        match self {
            HostMessageType::System => 0,
            HostMessageType::Supplicant => 1,
            HostMessageType::Data => 2,
            HostMessageType::Umac => 3,
        }
    }

    /// Translates a wire value.
    pub fn from_i32(value: i32) -> (result: Result<Self, ProtocolError>)
        ensures
            match result {
                Ok(message_type) => message_type_of(value) == Some(message_type),
                Err(error) => message_type_of(value) is None && error
                    == ProtocolError::InvalidValue(value as u32),
            },
    {
        match value {
            0 => Ok(HostMessageType::System),
            1 => Ok(HostMessageType::Supplicant),
            2 => Ok(HostMessageType::Data),
            3 => Ok(HostMessageType::Umac),
            other => Err(ProtocolError::InvalidValue(other as u32)),
        }
    }
}

/// Borrowed parsed host message.
#[derive(Clone, Copy, Debug, PartialEq, Eq)]
pub struct HostMessageRef<'a> {
    /// Whether firmware asks the host to return the event buffer.
    pub resubmit: bool,
    /// Message category.
    pub message_type: HostMessageType,
    /// Category-specific packed body.
    pub payload: &'a [u8],
}

/// One as a flag word.
pub open spec fn flag(value: bool) -> int {
    if value {
        1
    } else {
        0
    }
}

/// The wire image of a host message.
pub open spec fn host_message(
    message_type: HostMessageType,
    resubmit: bool,
    payload: Seq<u8>,
) -> Seq<u8> {
    codec::le32((HOST_MESSAGE_HEADER_LEN + payload.len()) as u32) + codec::le32(
        flag(resubmit) as u32,
    ) + codec::le32(message_type.wire() as u32) + payload
}

/// Why a payload of this length cannot be framed into a buffer of this
/// length, if it cannot.
pub open spec fn framing_fault(out_len: nat, payload_len: nat) -> Option<ProtocolError> {
    if HOST_MESSAGE_HEADER_LEN + payload_len > usize::MAX {
        Some(ProtocolError::InvalidLength)
    } else if HOST_MESSAGE_HEADER_LEN + payload_len > out_len || HOST_MESSAGE_HEADER_LEN
        + payload_len > u32::MAX {
        Some(ProtocolError::BufferTooSmall)
    } else {
        None
    }
}

/// The outcome of writing `message` to the front of a buffer.
pub open spec fn written_to(
    result: Result<usize, ProtocolError>,
    before: Seq<u8>,
    after: Seq<u8>,
    message: Seq<u8>,
    fault: Option<ProtocolError>,
) -> bool {
    match result {
        Ok(len) => {
            &&& fault is None
            &&& len == message.len()
            &&& len <= before.len()
            &&& after == message + before.skip(len as int)
        },
        Err(error) => fault == Some(error) && after == before,
    }
}

/// Encodes one complete host message.
///
/// The bytes of `out` behind the message, and all of `out` on failure, are
/// left as they were.
pub fn encode_host_message(
    out: &mut [u8],
    message_type: HostMessageType,
    resubmit: bool,
    payload: &[u8],
) -> (result: Result<usize, ProtocolError>)
    ensures
        written_to(
            result,
            old(out)@,
            final(out)@,
            host_message(message_type, resubmit, payload@),
            framing_fault(old(out)@.len(), payload@.len()),
        ),
{
    let total: usize = validated_host_message_len(out.len(), payload.len())?;
    let mut writer = Writer::new(out);
    writer.u32(total as u32)?;
    writer.u32(bool_u32(resubmit))?;
    writer.i32(message_type.code())?;
    writer.bytes(payload)?;
    assert(writer.written() =~= host_message(message_type, resubmit, payload@));
    assert(writer.rest() =~= old(out)@.skip(total as int));
    Ok(writer.finish())
}

/// Checks that a payload fits behind the host header.
pub fn validated_host_message_len(out_len: usize, payload_len: usize) -> (result: Result<
    usize,
    ProtocolError,
>)
    ensures
        match result {
            Ok(total) => framing_fault(out_len as nat, payload_len as nat) is None && total
                == HOST_MESSAGE_HEADER_LEN + payload_len,
            Err(error) => framing_fault(out_len as nat, payload_len as nat) == Some(error),
        },
{
    let total: usize = match HOST_MESSAGE_HEADER_LEN.checked_add(payload_len) {
        Some(total) => total,
        None => return Err(ProtocolError::InvalidLength),
    };
    if total > out_len {
        return Err(ProtocolError::BufferTooSmall);
    }
    if total > u32::MAX as usize {
        return Err(ProtocolError::BufferTooSmall);
    }
    Ok(total)
}

/// What parsing a host message yields: the resubmit flag, the category and
/// the payload.
pub open spec fn parsed_host_message(bytes: Seq<u8>) -> Result<
    (bool, HostMessageType, Seq<u8>),
    ProtocolError,
> {
    let declared = codec::u32_at(bytes, 0);
    let message_type = message_type_of(codec::i32_at(bytes, 8));
    if bytes.len() < HOST_MESSAGE_HEADER_LEN {
        Err(ProtocolError::InvalidLength)
    } else if declared < HOST_MESSAGE_HEADER_LEN || declared > bytes.len() {
        Err(ProtocolError::InvalidLength)
    } else if message_type is None {
        Err(ProtocolError::InvalidValue(codec::i32_at(bytes, 8) as u32))
    } else {
        Ok(
            (
                codec::u32_at(bytes, 4) != 0,
                message_type->0,
                bytes.subrange(HOST_MESSAGE_HEADER_LEN as int, declared as int),
            ),
        )
    }
}

/// Parses one complete host message from a larger event scratch buffer.
pub fn parse_host_message(bytes: &[u8]) -> (result: Result<HostMessageRef<'_>, ProtocolError>)
    ensures
        match result {
            Ok(message) => parsed_host_message(bytes@) == Ok::<
                (bool, HostMessageType, Seq<u8>),
                ProtocolError,
            >((message.resubmit, message.message_type, message.payload@)),
            Err(error) => parsed_host_message(bytes@) == Err::<
                (bool, HostMessageType, Seq<u8>),
                ProtocolError,
            >(error),
        },
{
    if bytes.len() < HOST_MESSAGE_HEADER_LEN {
        return Err(ProtocolError::InvalidLength);
    }
    let declared: usize = codec::read_u32(bytes, 0) as usize;
    if declared < HOST_MESSAGE_HEADER_LEN || declared > bytes.len() {
        return Err(ProtocolError::InvalidLength);
    }
    let resubmit: bool = codec::read_u32(bytes, 4) != 0;
    let message_type = HostMessageType::from_i32(codec::read_i32(bytes, 8))?;
    Ok(
        HostMessageRef {
            resubmit,
            message_type,
            payload: &bytes[HOST_MESSAGE_HEADER_LEN..declared],
        },
    )
}

/// Parsing undoes encoding, whatever bytes follow the message.
pub proof fn law_host_message_round_trip(
    message_type: HostMessageType,
    resubmit: bool,
    payload: Seq<u8>,
    tail: Seq<u8>,
)
    requires
        HOST_MESSAGE_HEADER_LEN + payload.len() <= u32::MAX,
    ensures
        parsed_host_message(host_message(message_type, resubmit, payload) + tail) == Ok::<
            (bool, HostMessageType, Seq<u8>),
            ProtocolError,
        >((resubmit, message_type, payload)),
{
    let total = (HOST_MESSAGE_HEADER_LEN + payload.len()) as u32;
    let bytes = host_message(message_type, resubmit, payload) + tail;
    assert(bytes.subrange(0, 4) =~= codec::le32(total));
    codec::law_u32_round_trip(bytes, 0, total);
    assert(bytes.subrange(4, 8) =~= codec::le32(flag(resubmit) as u32));
    codec::law_u32_round_trip(bytes, 4, flag(resubmit) as u32);
    assert(bytes.subrange(8, 12) =~= codec::le32(message_type.wire() as u32));
    codec::law_i32_round_trip(bytes, 8, message_type.wire());
    assert(bytes.subrange(12, total as int) =~= payload);
}

/// A flag as a 32-bit word.
pub fn bool_u32(value: bool) -> (word: u32)
    ensures
        word == flag(value),
{
    if value {
        1
    } else {
        0
    }
}

/// A flag as a 16-bit word.
pub fn bool_u16(value: bool) -> (word: u16)
    ensures
        word == flag(value),
{
    if value {
        1
    } else {
        0
    }
}

/// A flag as a byte.
pub fn bool_u8(value: bool) -> (byte: u8)
    ensures
        byte == flag(value),
{
    if value {
        1
    } else {
        0
    }
}

/// One host port queue descriptor.
#[derive(Clone, Copy, Debug, PartialEq, Eq, Structural)]
pub struct Hpq {
    /// Queue push register.
    pub enqueue_address: u32,
    /// Queue pop register.
    pub dequeue_address: u32,
}

impl Default for Hpq {
    /// A descriptor without registers.
    fn default() -> (queue: Self)
        ensures
            queue == (Hpq { enqueue_address: 0, dequeue_address: 0 }),
    {
        Hpq { enqueue_address: 0, dequeue_address: 0 }
    }
}

/// The queue descriptor stored at `offset`.
pub open spec fn hpq_at(bytes: Seq<u8>, offset: int) -> Hpq {
    Hpq {
        enqueue_address: codec::u32_at(bytes, offset),
        dequeue_address: codec::u32_at(bytes, offset + 4),
    }
}

fn read_hpq(bytes: &[u8], offset: usize) -> (queue: Hpq)
    requires
        offset + 8 <= bytes@.len(),
    ensures
        queue == hpq_at(bytes@, offset as int),
{
    assert(offset + 8 <= bytes.len());
    Hpq {
        enqueue_address: codec::read_u32(bytes, offset),
        dequeue_address: codec::read_u32(bytes, offset + 4),
    }
}

/// Queue map published by firmware at `RPU_MEM_HPQ_INFO`.
#[derive(Clone, Copy, Debug, PartialEq, Eq)]
pub struct HpqmInfo {
    pub event_busy: Hpq,
    pub event_available: Hpq,
    pub command_busy: Hpq,
    pub command_available: Hpq,
    pub rx_buffer_busy: [Hpq; RX_POOL_COUNT],
}

impl Default for HpqmInfo {
    /// A map of queues without registers.
    fn default() -> (info: Self)
        ensures
            info.queues() == Seq::new(
                7,
                |i: int| Hpq { enqueue_address: 0, dequeue_address: 0 },
            ),
    {
        let none = Hpq { enqueue_address: 0, dequeue_address: 0 };
        HpqmInfo {
            event_busy: none,
            event_available: none,
            command_busy: none,
            command_available: none,
            rx_buffer_busy: [none, none, none],
        }
    }
}

impl HpqmInfo {
    /// The seven queues in wire order.
    pub open spec fn queues(&self) -> Seq<Hpq> {
        seq![
            self.event_busy,
            self.event_available,
            self.command_busy,
            self.command_available,
            self.rx_buffer_busy@[0],
            self.rx_buffer_busy@[1],
            self.rx_buffer_busy@[2],
        ]
    }

    /// Parses the packed 56-byte queue map.
    pub fn parse(bytes: &[u8]) -> (result: Result<Self, ProtocolError>)
        ensures
            match result {
                Ok(info) => bytes@.len() >= HPQM_INFO_LEN && info.queues() == Seq::new(
                    7,
                    |i: int| hpq_at(bytes@, 8 * i),
                ),
                Err(error) => bytes@.len() < HPQM_INFO_LEN && error
                    == ProtocolError::InvalidLength,
            },
    {
        if bytes.len() < HPQM_INFO_LEN {
            return Err(ProtocolError::InvalidLength);
        }
        Ok(
            HpqmInfo {
                event_busy: read_hpq(bytes, 0),
                event_available: read_hpq(bytes, 8),
                command_busy: read_hpq(bytes, 16),
                command_available: read_hpq(bytes, 24),
                rx_buffer_busy: [read_hpq(bytes, 32), read_hpq(bytes, 40), read_hpq(bytes, 48)],
            },
        )
    }
}

/// UMAC interface identifiers; an absent one is not marked valid.
#[derive(Clone, Copy, Debug, PartialEq, Eq)]
pub struct InterfaceIds {
    pub ifaceindex: Option<i32>,
    pub wiphy_index: Option<i32>,
    pub wdev_id: Option<u64>,
}

impl Default for InterfaceIds {
    fn default() -> (ids: Self)
        ensures
            ids == (InterfaceIds { ifaceindex: None, wiphy_index: None, wdev_id: None }),
    {
        InterfaceIds { ifaceindex: None, wiphy_index: None, wdev_id: None }
    }
}

/// Validity bit of the wireless device identifier.
pub const WDEV_VALID: u32 = 1;

/// Validity bit of the interface index.
pub const IFINDEX_VALID: u32 = 2;

/// Validity bit of the radio index.
pub const WIPHY_VALID: u32 = 4;

impl InterfaceIds {
    /// The bits of the identifiers that are present.
    pub open spec fn mask(self) -> u32 {
        (flag(self.wdev_id is Some) * WDEV_VALID + flag(self.ifaceindex is Some) * IFINDEX_VALID
            + flag(self.wiphy_index is Some) * WIPHY_VALID) as u32
    }

    /// The wire image: the mask, then each identifier or zero.
    pub open spec fn image(self) -> Seq<u8> {
        codec::le32(self.mask()) + codec::le32(
            (match self.ifaceindex {
                Some(value) => value,
                None => 0,
            }) as u32,
        ) + codec::le32(
            (match self.wiphy_index {
                Some(value) => value,
                None => 0,
            }) as u32,
        ) + codec::le64(
            match self.wdev_id {
                Some(value) => value,
                None => 0,
            },
        )
    }

    /// No identifier.
    pub fn none() -> (ids: Self)
        ensures
            ids == (InterfaceIds { ifaceindex: None, wiphy_index: None, wdev_id: None }),
    {
        InterfaceIds { ifaceindex: None, wiphy_index: None, wdev_id: None }
    }

    /// Only the wireless device identifier.
    pub fn wdev(wdev_id: u32) -> (ids: Self)
        ensures
            ids == wdev_ids(wdev_id),
    {
        InterfaceIds { ifaceindex: None, wiphy_index: None, wdev_id: Some(wdev_id as u64) }
    }

    /// Returns the bits of the identifiers that are present.
    pub fn valid_mask(self) -> (mask: u32)
        ensures
            mask == self.mask(),
    {
        let mut valid: u32 = 0;
        if self.wdev_id.is_some() {
            valid = valid + WDEV_VALID;
        }
        if self.ifaceindex.is_some() {
            valid = valid + IFINDEX_VALID;
        }
        if self.wiphy_index.is_some() {
            valid = valid + WIPHY_VALID;
        }
        valid
    }

    /// Writes the wire image.
    pub fn encode(self, writer: &mut Writer<'_>) -> (result: Result<(), ProtocolError>)
        requires
            old(writer).wf(),
            old(writer).rest().len() >= 20,
        ensures
            result is Ok,
            final(writer).wf(),
            final(final(writer).bytes)@ == final(old(writer).bytes)@,
            final(writer).written() == old(writer).written() + self.image(),
            final(writer).rest() == old(writer).rest().skip(20),
    {
        let ifaceindex: i32 = match self.ifaceindex {
            Some(value) => value,
            None => 0,
        };
        let wiphy_index: i32 = match self.wiphy_index {
            Some(value) => value,
            None => 0,
        };
        let wdev_id: u64 = match self.wdev_id {
            Some(value) => value,
            None => 0,
        };
        writer.u32(self.valid_mask())?;
        writer.i32(ifaceindex)?;
        writer.i32(wiphy_index)?;
        writer.u64(wdev_id)
    }
}

/// Identifiers of a command for one wireless device.
pub open spec fn wdev_ids(wdev_id: u32) -> InterfaceIds {
    InterfaceIds { ifaceindex: None, wiphy_index: None, wdev_id: Some(wdev_id as u64) }
}

/// Parsed UMAC header.
#[derive(Clone, Copy, Debug, PartialEq, Eq, Structural)]
pub struct UmacHeader {
    pub port_id: u32,
    pub sequence: u32,
    pub command_event: u32,
    pub result: i32,
    pub valid_ids: u32,
    pub ifaceindex: i32,
    pub wiphy_index: i32,
    pub wdev_id: u64,
}

/// The header at the start of a UMAC message.
pub open spec fn umac_header_of(bytes: Seq<u8>) -> UmacHeader {
    UmacHeader {
        port_id: codec::u32_at(bytes, 0),
        sequence: codec::u32_at(bytes, 4),
        command_event: codec::u32_at(bytes, 8),
        result: codec::i32_at(bytes, 12),
        valid_ids: codec::u32_at(bytes, 16),
        ifaceindex: codec::i32_at(bytes, 20),
        wiphy_index: codec::i32_at(bytes, 24),
        wdev_id: codec::u64_at(bytes, 28),
    }
}

impl UmacHeader {
    /// Parses a packed UMAC header.
    pub fn parse(bytes: &[u8]) -> (result: Result<Self, ProtocolError>)
        ensures
            match result {
                Ok(header) => bytes@.len() >= UMAC_HEADER_LEN && header == umac_header_of(bytes@),
                Err(error) => bytes@.len() < UMAC_HEADER_LEN && error
                    == ProtocolError::InvalidLength,
            },
    {
        if bytes.len() < UMAC_HEADER_LEN {
            return Err(ProtocolError::InvalidLength);
        }
        Ok(
            UmacHeader {
                port_id: codec::read_u32(bytes, 0),
                sequence: codec::read_u32(bytes, 4),
                command_event: codec::read_u32(bytes, 8),
                result: codec::read_i32(bytes, 12),
                valid_ids: codec::read_u32(bytes, 16),
                ifaceindex: codec::read_i32(bytes, 20),
                wiphy_index: codec::read_i32(bytes, 24),
                wdev_id: codec::read_u64(bytes, 28),
            },
        )
    }
}

/// UMAC command numbers of the pinned host interface.
#[derive(Clone, Copy, Debug, PartialEq, Eq, Structural)]
pub enum UmacCommand {
    TriggerScan,
    GetScanResults,
    Authenticate,
    Associate,
    Deauthenticate,
    SetWiphy,
    NewKey,
    DeleteKey,
    SetKey,
    NewInterface,
    SetInterface,
    DeleteInterface,
    SetInterfaceFlags,
    NewStation,
    DeleteStation,
    SetStation,
    GetStation,
    RegisterFrame,
    Frame,
    SetPowerSave,
    GetChannel,
    GetTxPower,
    GetInterface,
    GetWiphy,
    GetInterfaceHardwareAddress,
    SetInterfaceHardwareAddress,
    GetRegulatory,
    RequestSetRegulatory,
    ConfigureUapsd,
    ConfigureTwt,
    TeardownTwt,
    AbortScan,
    MulticastFilter,
    ChangeMacAddress,
    SetPowerSaveTimeout,
    GetConnectionInfo,
    GetPowerSaveInfo,
    SetListenInterval,
    ConfigureExtendedPowerSave,
    ConfigureQuietPeriod,
    PowerSaveExitStrategy,
}

impl UmacCommand {
    /// The wire value.
    pub open spec fn wire(self) -> u32 {
        match self {
            UmacCommand::TriggerScan => 0,
            UmacCommand::GetScanResults => 1,
            UmacCommand::Authenticate => 2,
            UmacCommand::Associate => 3,
            UmacCommand::Deauthenticate => 4,
            UmacCommand::SetWiphy => 5,
            UmacCommand::NewKey => 6,
            UmacCommand::DeleteKey => 7,
            UmacCommand::SetKey => 8,
            UmacCommand::NewInterface => 15,
            UmacCommand::SetInterface => 16,
            UmacCommand::DeleteInterface => 17,
            UmacCommand::SetInterfaceFlags => 18,
            UmacCommand::NewStation => 19,
            UmacCommand::DeleteStation => 20,
            UmacCommand::SetStation => 21,
            UmacCommand::GetStation => 22,
            UmacCommand::RegisterFrame => 29,
            UmacCommand::Frame => 30,
            UmacCommand::SetPowerSave => 33,
            UmacCommand::GetChannel => 38,
            UmacCommand::GetTxPower => 39,
            UmacCommand::GetInterface => 40,
            UmacCommand::GetWiphy => 41,
            UmacCommand::GetInterfaceHardwareAddress => 42,
            UmacCommand::SetInterfaceHardwareAddress => 43,
            UmacCommand::GetRegulatory => 44,
            UmacCommand::RequestSetRegulatory => 46,
            UmacCommand::ConfigureUapsd => 47,
            UmacCommand::ConfigureTwt => 48,
            UmacCommand::TeardownTwt => 49,
            UmacCommand::AbortScan => 50,
            UmacCommand::MulticastFilter => 51,
            UmacCommand::ChangeMacAddress => 52,
            UmacCommand::SetPowerSaveTimeout => 53,
            UmacCommand::GetConnectionInfo => 54,
            UmacCommand::GetPowerSaveInfo => 55,
            UmacCommand::SetListenInterval => 56,
            UmacCommand::ConfigureExtendedPowerSave => 57,
            UmacCommand::ConfigureQuietPeriod => 58,
            UmacCommand::PowerSaveExitStrategy => 59,
        }
    }

    /// Returns the wire value.
    pub fn code(self) -> (value: u32)
        ensures
            value == self.wire(),
    {
        match self {
            UmacCommand::TriggerScan => 0,
            UmacCommand::GetScanResults => 1,
            UmacCommand::Authenticate => 2,
            UmacCommand::Associate => 3,
            UmacCommand::Deauthenticate => 4,
            UmacCommand::SetWiphy => 5,
            UmacCommand::NewKey => 6,
            UmacCommand::DeleteKey => 7,
            UmacCommand::SetKey => 8,
            UmacCommand::NewInterface => 15,
            UmacCommand::SetInterface => 16,
            UmacCommand::DeleteInterface => 17,
            UmacCommand::SetInterfaceFlags => 18,
            UmacCommand::NewStation => 19,
            UmacCommand::DeleteStation => 20,
            UmacCommand::SetStation => 21,
            UmacCommand::GetStation => 22,
            UmacCommand::RegisterFrame => 29,
            UmacCommand::Frame => 30,
            UmacCommand::SetPowerSave => 33,
            UmacCommand::GetChannel => 38,
            UmacCommand::GetTxPower => 39,
            UmacCommand::GetInterface => 40,
            UmacCommand::GetWiphy => 41,
            UmacCommand::GetInterfaceHardwareAddress => 42,
            UmacCommand::SetInterfaceHardwareAddress => 43,
            UmacCommand::GetRegulatory => 44,
            UmacCommand::RequestSetRegulatory => 46,
            UmacCommand::ConfigureUapsd => 47,
            UmacCommand::ConfigureTwt => 48,
            UmacCommand::TeardownTwt => 49,
            UmacCommand::AbortScan => 50,
            UmacCommand::MulticastFilter => 51,
            UmacCommand::ChangeMacAddress => 52,
            UmacCommand::SetPowerSaveTimeout => 53,
            UmacCommand::GetConnectionInfo => 54,
            UmacCommand::GetPowerSaveInfo => 55,
            UmacCommand::SetListenInterval => 56,
            UmacCommand::ConfigureExtendedPowerSave => 57,
            UmacCommand::ConfigureQuietPeriod => 58,
            UmacCommand::PowerSaveExitStrategy => 59,
        }
    }
}

/// UMAC event numbers of the pinned host interface.
#[derive(Clone, Copy, Debug, PartialEq, Eq, Structural)]
pub enum UmacEvent {
    Unspecified,
    ScanStarted,
    ScanAborted,
    ScanDone,
    ScanResult,
    Authenticate,
    Associate,
    Connect,
    Deauthenticate,
    Disassociate,
    NewStation,
    DeleteStation,
    GetStation,
    Disconnect,
    Frame,
    FrameCookie,
    FrameTxStatus,
    InterfaceFlagsStatus,
    NewInterface,
    GetInterfaceHardwareAddress,
    GetRegulatory,
    ScanDisplayResult,
    CommandStatus,
    BssInfo,
    TwtConfigured,
    TwtTornDown,
    TwtSleep,
}

impl UmacEvent {
    /// The wire value.
    pub open spec fn wire(self) -> u32 {
        match self {
            UmacEvent::Unspecified => 256,
            UmacEvent::ScanStarted => 257,
            UmacEvent::ScanAborted => 258,
            UmacEvent::ScanDone => 259,
            UmacEvent::ScanResult => 260,
            UmacEvent::Authenticate => 261,
            UmacEvent::Associate => 262,
            UmacEvent::Connect => 263,
            UmacEvent::Deauthenticate => 264,
            UmacEvent::Disassociate => 265,
            UmacEvent::NewStation => 266,
            UmacEvent::DeleteStation => 267,
            UmacEvent::GetStation => 268,
            UmacEvent::Disconnect => 271,
            UmacEvent::Frame => 272,
            UmacEvent::FrameCookie => 273,
            UmacEvent::FrameTxStatus => 274,
            UmacEvent::InterfaceFlagsStatus => 275,
            UmacEvent::NewInterface => 281,
            UmacEvent::GetInterfaceHardwareAddress => 283,
            UmacEvent::GetRegulatory => 284,
            UmacEvent::ScanDisplayResult => 291,
            UmacEvent::CommandStatus => 292,
            UmacEvent::BssInfo => 293,
            UmacEvent::TwtConfigured => 294,
            UmacEvent::TwtTornDown => 295,
            UmacEvent::TwtSleep => 296,
        }
    }

    /// Returns the wire value.
    pub fn code(self) -> (value: u32)
        ensures
            value == self.wire(),
    {
        match self {
            UmacEvent::Unspecified => 256,
            UmacEvent::ScanStarted => 257,
            UmacEvent::ScanAborted => 258,
            UmacEvent::ScanDone => 259,
            UmacEvent::ScanResult => 260,
            UmacEvent::Authenticate => 261,
            UmacEvent::Associate => 262,
            UmacEvent::Connect => 263,
            UmacEvent::Deauthenticate => 264,
            UmacEvent::Disassociate => 265,
            UmacEvent::NewStation => 266,
            UmacEvent::DeleteStation => 267,
            UmacEvent::GetStation => 268,
            UmacEvent::Disconnect => 271,
            UmacEvent::Frame => 272,
            UmacEvent::FrameCookie => 273,
            UmacEvent::FrameTxStatus => 274,
            UmacEvent::InterfaceFlagsStatus => 275,
            UmacEvent::NewInterface => 281,
            UmacEvent::GetInterfaceHardwareAddress => 283,
            UmacEvent::GetRegulatory => 284,
            UmacEvent::ScanDisplayResult => 291,
            UmacEvent::CommandStatus => 292,
            UmacEvent::BssInfo => 293,
            UmacEvent::TwtConfigured => 294,
            UmacEvent::TwtTornDown => 295,
            UmacEvent::TwtSleep => 296,
        }
    }
}

/// The wire image of a UMAC command header.
pub open spec fn umac_header(command: u32, ids: InterfaceIds) -> Seq<u8> {
    codec::le32(0) + codec::le32(0) + codec::le32(command) + codec::le32(0) + ids.image()
}

/// The wire image of a UMAC command.
pub open spec fn umac_command(command: UmacCommand, ids: InterfaceIds, body: Seq<u8>) -> Seq<u8> {
    host_message(HostMessageType::Umac, false, umac_header(command.wire(), ids) + body)
}

/// Why a command body of this length cannot be encoded, if it cannot.
pub open spec fn umac_fault(out_len: nat, body_len: nat) -> Option<ProtocolError> {
    if UMAC_HEADER_LEN + body_len > usize::MAX {
        Some(ProtocolError::InvalidLength)
    } else if UMAC_HEADER_LEN + body_len > MAX_UMAC_INNER_LEN {
        Some(ProtocolError::LimitExceeded)
    } else {
        framing_fault(out_len, UMAC_HEADER_LEN as nat + body_len)
    }
}

/// Encodes a raw UMAC command body behind the fixed header.
pub fn encode_umac_command(
    out: &mut [u8],
    command: UmacCommand,
    ids: InterfaceIds,
    body: &[u8],
) -> (result: Result<usize, ProtocolError>)
    ensures
        written_to(
            result,
            old(out)@,
            final(out)@,
            umac_command(command, ids, body@),
            umac_fault(old(out)@.len(), body@.len()),
        ),
{
    let inner_len: usize = validated_umac_inner_len(body.len())?;
    let mut inner = [0u8; MAX_UMAC_INNER_LEN];
    let mut writer = Writer::new(&mut inner);
    write_umac_header(&mut writer, command, ids)?;
    writer.bytes(body)?;
    assert(writer.written() =~= umac_header(command.wire(), ids) + body@);
    writer.finish();
    assert(inner@.subrange(0, inner_len as int) =~= umac_header(command.wire(), ids) + body@);
    let framed: &[u8] = &inner;
    encode_host_message(out, HostMessageType::Umac, false, &framed[0..inner_len])
}

/// Checks that a command body fits behind the UMAC header.
pub fn validated_umac_inner_len(body_len: usize) -> (result: Result<usize, ProtocolError>)
    ensures
        match result {
            Ok(len) => len == UMAC_HEADER_LEN + body_len && len <= MAX_UMAC_INNER_LEN,
            Err(error) => if UMAC_HEADER_LEN + body_len > usize::MAX {
                error == ProtocolError::InvalidLength
            } else {
                UMAC_HEADER_LEN + body_len > MAX_UMAC_INNER_LEN && error
                    == ProtocolError::LimitExceeded
            },
        },
{
    let inner_len: usize = match UMAC_HEADER_LEN.checked_add(body_len) {
        Some(inner_len) => inner_len,
        None => return Err(ProtocolError::InvalidLength),
    };
    if inner_len > MAX_UMAC_INNER_LEN {
        return Err(ProtocolError::LimitExceeded);
    }
    Ok(inner_len)
}

/// Writes the fixed header of a UMAC command.
pub fn write_umac_header(writer: &mut Writer<'_>, command: UmacCommand, ids: InterfaceIds) -> (result:
    Result<(), ProtocolError>)
    requires
        old(writer).wf(),
        old(writer).rest().len() >= UMAC_HEADER_LEN,
    ensures
        result is Ok,
        final(writer).wf(),
        final(final(writer).bytes)@ == final(old(writer).bytes)@,
        final(writer).written() == old(writer).written() + umac_header(command.wire(), ids),
        final(writer).rest() == old(writer).rest().skip(UMAC_HEADER_LEN as int),
{
    writer.u32(0)?;
    writer.u32(0)?;
    writer.u32(command.code())?;
    writer.u32(0)?;
    ids.encode(writer)
}

/// Parses a UMAC event and returns its body after the 36-byte header.
pub fn parse_umac_event<'a>(message: HostMessageRef<'a>) -> (result: Result<
    (UmacHeader, &'a [u8]),
    ProtocolError,
>)
    ensures
        match result {
            Ok((header, body)) => {
                &&& message.message_type is Umac
                &&& message.payload@.len() >= UMAC_HEADER_LEN
                &&& header == umac_header_of(message.payload@)
                &&& body@ == message.payload@.skip(UMAC_HEADER_LEN as int)
            },
            Err(error) => if !(message.message_type is Umac) {
                error == ProtocolError::WrongMessageType
            } else {
                message.payload@.len() < UMAC_HEADER_LEN && error == ProtocolError::InvalidLength
            },
        },
{
    if message.message_type != HostMessageType::Umac {
        return Err(ProtocolError::WrongMessageType);
    }
    let header = UmacHeader::parse(message.payload)?;
    let len: usize = message.payload.len();
    Ok((header, &message.payload[UMAC_HEADER_LEN..len]))
}

/// The header of an encoded command reads back as the command number and the
/// identifiers it was built from.
pub proof fn law_umac_header_round_trip(command: UmacCommand, ids: InterfaceIds, body: Seq<u8>)
    ensures
        umac_header_of(umac_header(command.wire(), ids) + body) == (UmacHeader {
            port_id: 0,
            sequence: 0,
            command_event: command.wire(),
            result: 0,
            valid_ids: ids.mask(),
            ifaceindex: (match ids.ifaceindex {
                Some(value) => value,
                None => 0,
            }),
            wiphy_index: (match ids.wiphy_index {
                Some(value) => value,
                None => 0,
            }),
            wdev_id: (match ids.wdev_id {
                Some(value) => value,
                None => 0,
            }),
        }),
        (umac_header(command.wire(), ids) + body).skip(UMAC_HEADER_LEN as int) == body,
{
    let bytes = umac_header(command.wire(), ids) + body;
    let ifaceindex: i32 = match ids.ifaceindex {
        Some(value) => value,
        None => 0,
    };
    let wiphy_index: i32 = match ids.wiphy_index {
        Some(value) => value,
        None => 0,
    };
    let wdev_id: u64 = match ids.wdev_id {
        Some(value) => value,
        None => 0,
    };
    assert(codec::u32_at(bytes, 0) == 0) by {
        assert(bytes.subrange(0, 4) =~= codec::le32(0));
        codec::law_u32_round_trip(bytes, 0, 0);
    }
    assert(codec::u32_at(bytes, 4) == 0) by {
        assert(bytes.subrange(4, 8) =~= codec::le32(0));
        codec::law_u32_round_trip(bytes, 4, 0);
    }
    assert(codec::u32_at(bytes, 8) == command.wire()) by {
        assert(bytes.subrange(8, 12) =~= codec::le32(command.wire()));
        codec::law_u32_round_trip(bytes, 8, command.wire());
    }
    assert(codec::i32_at(bytes, 12) == 0) by {
        assert(bytes.subrange(12, 16) =~= codec::le32(0));
        codec::law_i32_round_trip(bytes, 12, 0);
    }
    assert(codec::u32_at(bytes, 16) == ids.mask()) by {
        assert(bytes.subrange(16, 20) =~= codec::le32(ids.mask()));
        codec::law_u32_round_trip(bytes, 16, ids.mask());
    }
    assert(codec::i32_at(bytes, 20) == ifaceindex) by {
        assert(bytes.subrange(20, 24) =~= codec::le32(ifaceindex as u32));
        codec::law_i32_round_trip(bytes, 20, ifaceindex);
    }
    assert(codec::i32_at(bytes, 24) == wiphy_index) by {
        assert(bytes.subrange(24, 28) =~= codec::le32(wiphy_index as u32));
        codec::law_i32_round_trip(bytes, 24, wiphy_index);
    }
    assert(codec::u64_at(bytes, 28) == wdev_id) by {
        assert(bytes.subrange(28, 36) =~= codec::le64(wdev_id));
        codec::law_u64_round_trip(bytes, 28, wdev_id);
    }
    assert(bytes.skip(UMAC_HEADER_LEN as int) =~= body);
}

/// Firmware receive-buffer pool settings.
#[derive(Clone, Copy, Debug, PartialEq, Eq, Structural)]
pub struct RxPoolConfig {
    pub buffer_size: u16,
    pub buffer_count: u16,
}

impl Default for RxPoolConfig {
    fn default() -> (pool: Self)
        ensures
            pool == (RxPoolConfig { buffer_size: 0, buffer_count: 0 }),
    {
        RxPoolConfig { buffer_size: 0, buffer_count: 0 }
    }
}

impl RxPoolConfig {
    /// Bytes taken by the pool.
    pub open spec fn bytes(self) -> int {
        self.buffer_size * self.buffer_count
    }
}

/// UMAC data settings in the system init command.
#[derive(Clone, Copy, Debug, PartialEq, Eq, Structural)]
pub struct DataConfig {
    pub rate_protection_type: u8,
    pub aggregation: bool,
    pub wmm: bool,
    pub max_tx_aggregation_sessions: u8,
    pub max_rx_aggregation_sessions: u8,
    pub max_tx_aggregation: u8,
    pub reorder_buffer_size: u8,
    /// 0, 1, 2, or 3 for 8, 16, 32, or 64 KiB.
    pub max_rx_ampdu_size: i32,
}

/// The baseline data settings.
pub open spec fn default_data_config() -> DataConfig {
    DataConfig {
        rate_protection_type: 0,
        aggregation: true,
        wmm: true,
        max_tx_aggregation_sessions: 4,
        max_rx_aggregation_sessions: 4,
        max_tx_aggregation: 16,
        reorder_buffer_size: 16,
        max_rx_ampdu_size: 3,
    }
}

impl Default for DataConfig {
    fn default() -> (config: Self)
        ensures
            config == default_data_config(),
    {
        DataConfig {
            rate_protection_type: 0,
            aggregation: true,
            wmm: true,
            max_tx_aggregation_sessions: 4,
            max_rx_aggregation_sessions: 4,
            max_tx_aggregation: 16,
            reorder_buffer_size: 16,
            max_rx_ampdu_size: 3,
        }
    }
}

/// Temperature and battery-triggered calibration settings.
#[derive(Clone, Copy, Debug, PartialEq, Eq, Structural)]
pub struct TemperatureBatteryConfig {
    pub temperature_calibration_enabled: u32,
    pub temperature_calibration_bitmap: u32,
    pub battery_calibration_bitmap: u32,
    pub monitor_period_us: u32,
    pub very_low_voltage_threshold: i32,
    pub low_voltage_threshold: i32,
    pub high_voltage_threshold: i32,
    pub temperature_threshold: i32,
    pub battery_threshold: i32,
}

/// The baseline calibration settings.
pub open spec fn default_temperature_battery_config() -> TemperatureBatteryConfig {
    TemperatureBatteryConfig {
        temperature_calibration_enabled: 1,
        temperature_calibration_bitmap: 0x7b,
        battery_calibration_bitmap: 0x20,
        monitor_period_us: 0x10_0000,
        very_low_voltage_threshold: 8,
        low_voltage_threshold: 12,
        high_voltage_threshold: 14,
        temperature_threshold: 40,
        battery_threshold: 0,
    }
}

impl Default for TemperatureBatteryConfig {
    fn default() -> (config: Self)
        ensures
            config == default_temperature_battery_config(),
    {
        TemperatureBatteryConfig {
            temperature_calibration_enabled: 1,
            temperature_calibration_bitmap: 0x7b,
            battery_calibration_bitmap: 0x20,
            monitor_period_us: 0x10_0000,
            very_low_voltage_threshold: 8,
            low_voltage_threshold: 12,
            high_voltage_threshold: 14,
            temperature_threshold: 40,
            battery_threshold: 0,
        }
    }
}

/// Full packed `NRF_WIFI_CMD_INIT` configuration.
#[derive(Clone, Copy)]
pub struct SystemInitConfig {
    pub wdev_id: u32,
    pub sleep_enable: u32,
    pub hardware_bringup_time: u32,
    pub software_bringup_time: u32,
    pub beacon_timeout: u32,
    pub calibrate_sleep_clock: u32,
    pub phy_calibration_bitmap: u32,
    pub mac_address: [u8; 6],
    pub rf_params: [u8; RF_PARAMS_LEN],
    pub rf_params_valid: bool,
    pub rx_pools: [RxPoolConfig; RX_POOL_COUNT],
    pub data: DataConfig,
    pub temperature_battery: TemperatureBatteryConfig,
    pub tcp_ip_checksum_offload: bool,
    pub country_code: [u8; 2],
    /// 0 for all bands; 1 for 2.4 GHz only.
    pub operating_band: u32,
    pub management_buffer_offload: bool,
    pub feature_flags: u32,
    pub disable_beamforming: bool,
    pub disconnect_timeout: u32,
    pub power_save_exit_strategy: u8,
    pub watchdog_timer: u32,
    pub keep_alive_enabled: bool,
    pub keep_alive_period_s: u32,
    pub display_scan_bss_limit: u32,
    pub disable_coexistence_priority_window_for_scan: u32,
    pub raw_scan_enabled: bool,
    pub max_ps_poll_fail_count: u32,
    pub stbc_enabled_in_ht: u32,
    pub dynamic_bandwidth_signalling: u32,
    pub dynamic_energy_detection: u32,
    pub bluetooth_slot_time_ms: u32,
    pub bluetooth_coexistence_disabled: u32,
    pub abort_scan_on_bss_limit: bool,
}

impl SystemInitConfig {
    /// The system-mode baseline for one board.
    pub open spec fn baseline(
        self,
        mac_address: [u8; 6],
        rf_params: [u8; RF_PARAMS_LEN],
    ) -> bool {
        &&& self.wdev_id == 0
        &&& self.sleep_enable == 0
        &&& self.hardware_bringup_time == 7300
        &&& self.software_bringup_time == 5000
        &&& self.beacon_timeout == 20000
        &&& self.calibrate_sleep_clock == 1
        &&& self.phy_calibration_bitmap == 0x0003_007b
        &&& self.mac_address == mac_address
        &&& self.rf_params == rf_params
        &&& self.rf_params_valid
        &&& self.rx_pools@ == seq![
            RxPoolConfig { buffer_size: 1600, buffer_count: 8 },
            RxPoolConfig { buffer_size: 0, buffer_count: 0 },
            RxPoolConfig { buffer_size: 0, buffer_count: 0 },
        ]
        &&& self.data == default_data_config()
        &&& self.temperature_battery == default_temperature_battery_config()
        &&& !self.tcp_ip_checksum_offload
        &&& self.country_code@ == seq![0x30u8, 0x30u8]
        &&& self.operating_band == 0
        &&& self.management_buffer_offload
        &&& self.feature_flags == 0
        &&& !self.disable_beamforming
        &&& self.disconnect_timeout == 0
        &&& self.power_save_exit_strategy == 1
        &&& self.watchdog_timer == 0x00ff_ffff
        &&& !self.keep_alive_enabled
        &&& self.keep_alive_period_s == 0
        &&& self.display_scan_bss_limit == 150
        &&& self.disable_coexistence_priority_window_for_scan == 0
        &&& !self.raw_scan_enabled
        &&& self.max_ps_poll_fail_count == 10
        &&& self.stbc_enabled_in_ht == 0
        &&& self.dynamic_bandwidth_signalling == 0
        &&& self.dynamic_energy_detection == 0
        &&& self.bluetooth_slot_time_ms == 0
        &&& self.bluetooth_coexistence_disabled == 1
        &&& !self.abort_scan_on_bss_limit
    }

    /// Packet RAM taken by all pools.
    pub open spec fn total_rx(&self) -> int {
        self.rx_pools@[0].bytes() + self.rx_pools@[1].bytes() + self.rx_pools@[2].bytes()
    }

    /// Whether the settings stay inside the firmware limits.
    pub open spec fn within_limits(&self) -> bool {
        &&& self.total_rx() <= MAX_RX_POOL_BYTES
        &&& 1 <= self.data.reorder_buffer_size <= 64
        &&& 0 <= self.data.max_rx_ampdu_size <= 3
    }

    /// Creates a system-mode baseline. Board RF bytes must come from a Nordic
    /// generated or measured board configuration.
    pub fn new(mac_address: [u8; 6], rf_params: [u8; RF_PARAMS_LEN]) -> (config: Self)
        ensures
            config.baseline(mac_address, rf_params),
            config.within_limits(),
    {
        let config = SystemInitConfig {
            wdev_id: 0,
            sleep_enable: 0,
            hardware_bringup_time: 7300,
            software_bringup_time: 5000,
            beacon_timeout: 20000,
            calibrate_sleep_clock: 1,
            phy_calibration_bitmap: 0x0003_007b,
            mac_address,
            rf_params,
            rf_params_valid: true,
            rx_pools: [
                RxPoolConfig {
                    buffer_size: 1600,
                    buffer_count: 8,
                },
                RxPoolConfig {
                    buffer_size: 0,
                    buffer_count: 0,
                },
                RxPoolConfig {
                    buffer_size: 0,
                    buffer_count: 0,
                },
            ],
            data: DataConfig {
                rate_protection_type: 0,
                aggregation: true,
                wmm: true,
                max_tx_aggregation_sessions: 4,
                max_rx_aggregation_sessions: 4,
                max_tx_aggregation: 16,
                reorder_buffer_size: 16,
                max_rx_ampdu_size: 3,
            },
            temperature_battery: TemperatureBatteryConfig {
                temperature_calibration_enabled: 1,
                temperature_calibration_bitmap: 0x7b,
                battery_calibration_bitmap: 0x20,
                monitor_period_us: 0x10_0000,
                very_low_voltage_threshold: 8,
                low_voltage_threshold: 12,
                high_voltage_threshold: 14,
                temperature_threshold: 40,
                battery_threshold: 0,
            },
            tcp_ip_checksum_offload: false,
            country_code: [0x30, 0x30],
            operating_band: 0,
            // Firmware buffers management frames in system mode; WPA
            // authentication depends on it.
            management_buffer_offload: true,
            feature_flags: 0,
            disable_beamforming: false,
            disconnect_timeout: 0,
            power_save_exit_strategy: 1,
            watchdog_timer: 0x00ff_ffff,
            keep_alive_enabled: false,
            keep_alive_period_s: 0,
            display_scan_bss_limit: 150,
            disable_coexistence_priority_window_for_scan: 0,
            raw_scan_enabled: false,
            max_ps_poll_fail_count: 10,
            stbc_enabled_in_ht: 0,
            dynamic_bandwidth_signalling: 0,
            dynamic_energy_detection: 0,
            bluetooth_slot_time_ms: 0,
            bluetooth_coexistence_disabled: 1,
            abort_scan_on_bss_limit: false,
        };
        proof {
            let pool = config.rx_pools@[0];
            let empty = config.rx_pools@[1];
            assert(pool.bytes() == 12800) by (nonlinear_arith)
                requires
                    pool.buffer_size == 1600,
                    pool.buffer_count == 8,
            ;
            assert(empty.bytes() == 0) by (nonlinear_arith)
                requires
                    empty.buffer_size == 0,
            ;
            assert(config.rx_pools@[2] == empty);
        }
        config
    }

    /// Checks the firmware limits.
    pub fn validate(&self) -> (result: Result<(), ProtocolError>)
        ensures
            match result {
                Ok(()) => self.within_limits(),
                Err(error) => !self.within_limits() && error == ProtocolError::LimitExceeded,
            },
    {
        let first: u32 = pool_bytes(self.rx_pools[0]);
        let second: u32 = pool_bytes(self.rx_pools[1]);
        let third: u32 = pool_bytes(self.rx_pools[2]);
        let total_rx: u64 = first as u64 + second as u64 + third as u64;
        if total_rx > MAX_RX_POOL_BYTES as u64 || self.data.reorder_buffer_size == 0
            || self.data.reorder_buffer_size > 64 || self.data.max_rx_ampdu_size < 0
            || self.data.max_rx_ampdu_size > 3 {
            return Err(ProtocolError::LimitExceeded);
        }
        Ok(())
    }
}

/// Bytes taken by one pool.
pub fn pool_bytes(pool: RxPoolConfig) -> (bytes: u32)
    ensures
        bytes == pool.bytes(),
{
    assert(0 <= pool.buffer_size * pool.buffer_count <= 65535 * 65535) by (nonlinear_arith)
        requires
            0 <= pool.buffer_size <= 65535,
            0 <= pool.buffer_count <= 65535,
    ;
    pool.buffer_size as u32 * pool.buffer_count as u32
}

/// Command number, length and identity.
pub open spec fn system_init_identity_bytes(config: SystemInitConfig) -> Seq<u8> {
    codec::le32(0)
        + codec::le32(366)
        + codec::le32(config.wdev_id)
        + codec::le32(config.sleep_enable)
}

fn write_system_init_identity(
    writer: &mut Writer<'_>,
    config: &SystemInitConfig,
) -> (result: Result<(), ProtocolError>)
    requires
        old(writer).wf(),
        old(writer).rest().len() >= 16,
    ensures
        result is Ok,
        final(writer).wf(),
        final(final(writer).bytes)@ == final(old(writer).bytes)@,
        final(writer).written() == old(writer).written() + system_init_identity_bytes(*config),
        final(writer).rest() == old(writer).rest().skip(16),
{
    writer.u32(0)?;
    writer.u32(366)?;
    writer.u32(config.wdev_id)?;
    writer.u32(config.sleep_enable)
}

/// Bring-up times and the sleep clock.
pub open spec fn system_init_timing_bytes(config: SystemInitConfig) -> Seq<u8> {
    codec::le32(config.hardware_bringup_time)
        + codec::le32(config.software_bringup_time)
        + codec::le32(config.beacon_timeout)
        + codec::le32(config.calibrate_sleep_clock)
}

fn write_system_init_timing(
    writer: &mut Writer<'_>,
    config: &SystemInitConfig,
) -> (result: Result<(), ProtocolError>)
    requires
        old(writer).wf(),
        old(writer).rest().len() >= 16,
    ensures
        result is Ok,
        final(writer).wf(),
        final(final(writer).bytes)@ == final(old(writer).bytes)@,
        final(writer).written() == old(writer).written() + system_init_timing_bytes(*config),
        final(writer).rest() == old(writer).rest().skip(16),
{
    writer.u32(config.hardware_bringup_time)?;
    writer.u32(config.software_bringup_time)?;
    writer.u32(config.beacon_timeout)?;
    writer.u32(config.calibrate_sleep_clock)
}

/// Calibration, address and RF parameters.
pub open spec fn system_init_radio_bytes(config: SystemInitConfig) -> Seq<u8> {
    codec::le32(config.phy_calibration_bitmap)
        + config.mac_address@
        + config.rf_params@
        + seq![flag(config.rf_params_valid) as u8]
}

fn write_system_init_radio(
    writer: &mut Writer<'_>,
    config: &SystemInitConfig,
) -> (result: Result<(), ProtocolError>)
    requires
        old(writer).wf(),
        old(writer).rest().len() >= 211,
    ensures
        result is Ok,
        final(writer).wf(),
        final(final(writer).bytes)@ == final(old(writer).bytes)@,
        final(writer).written() == old(writer).written() + system_init_radio_bytes(*config),
        final(writer).rest() == old(writer).rest().skip(211),
{
    writer.u32(config.phy_calibration_bitmap)?;
    writer.bytes(&config.mac_address)?;
    writer.bytes(&config.rf_params)?;
    writer.u8(bool_u8(config.rf_params_valid))
}

/// One receive pool.
pub open spec fn system_init_pool_bytes(pool: RxPoolConfig) -> Seq<u8> {
    codec::le16(pool.buffer_size)
        + codec::le16(pool.buffer_count)
}

fn write_system_init_pool(
    writer: &mut Writer<'_>,
    pool: RxPoolConfig,
) -> (result: Result<(), ProtocolError>)
    requires
        old(writer).wf(),
        old(writer).rest().len() >= 4,
    ensures
        result is Ok,
        final(writer).wf(),
        final(final(writer).bytes)@ == final(old(writer).bytes)@,
        final(writer).written() == old(writer).written() + system_init_pool_bytes(pool),
        final(writer).rest() == old(writer).rest().skip(4),
{
    writer.u16(pool.buffer_size)?;
    writer.u16(pool.buffer_count)
}

/// Rates and transmit sessions.
pub open spec fn system_init_data_rates_bytes(data: DataConfig) -> Seq<u8> {
    seq![data.rate_protection_type]
        + seq![flag(data.aggregation) as u8]
        + seq![flag(data.wmm) as u8]
        + seq![data.max_tx_aggregation_sessions]
}

fn write_system_init_data_rates(
    writer: &mut Writer<'_>,
    data: DataConfig,
) -> (result: Result<(), ProtocolError>)
    requires
        old(writer).wf(),
        old(writer).rest().len() >= 4,
    ensures
        result is Ok,
        final(writer).wf(),
        final(final(writer).bytes)@ == final(old(writer).bytes)@,
        final(writer).written() == old(writer).written() + system_init_data_rates_bytes(data),
        final(writer).rest() == old(writer).rest().skip(4),
{
    writer.u8(data.rate_protection_type)?;
    writer.u8(bool_u8(data.aggregation))?;
    writer.u8(bool_u8(data.wmm))?;
    writer.u8(data.max_tx_aggregation_sessions)
}

/// Aggregation and reorder limits.
pub open spec fn system_init_data_limits_bytes(data: DataConfig) -> Seq<u8> {
    seq![data.max_rx_aggregation_sessions]
        + seq![data.max_tx_aggregation]
        + seq![data.reorder_buffer_size]
        + codec::le32(data.max_rx_ampdu_size as u32)
}

fn write_system_init_data_limits(
    writer: &mut Writer<'_>,
    data: DataConfig,
) -> (result: Result<(), ProtocolError>)
    requires
        old(writer).wf(),
        old(writer).rest().len() >= 7,
    ensures
        result is Ok,
        final(writer).wf(),
        final(final(writer).bytes)@ == final(old(writer).bytes)@,
        final(writer).written() == old(writer).written() + system_init_data_limits_bytes(data),
        final(writer).rest() == old(writer).rest().skip(7),
{
    writer.u8(data.max_rx_aggregation_sessions)?;
    writer.u8(data.max_tx_aggregation)?;
    writer.u8(data.reorder_buffer_size)?;
    writer.i32(data.max_rx_ampdu_size)
}

/// Calibration triggers.
pub open spec fn system_init_temperature_calibration_bytes(
    temp: TemperatureBatteryConfig,
) -> Seq<u8> {
    codec::le32(temp.temperature_calibration_enabled)
        + codec::le32(temp.temperature_calibration_bitmap)
        + codec::le32(temp.battery_calibration_bitmap)
        + codec::le32(temp.monitor_period_us)
}

fn write_system_init_temperature_calibration(
    writer: &mut Writer<'_>,
    temp: TemperatureBatteryConfig,
) -> (result: Result<(), ProtocolError>)
    requires
        old(writer).wf(),
        old(writer).rest().len() >= 16,
    ensures
        result is Ok,
        final(writer).wf(),
        final(final(writer).bytes)@ == final(old(writer).bytes)@,
        final(writer).written() == old(writer).written() + system_init_temperature_calibration_bytes(
            temp,
        ),
        final(writer).rest() == old(writer).rest().skip(16),
{
    writer.u32(temp.temperature_calibration_enabled)?;
    writer.u32(temp.temperature_calibration_bitmap)?;
    writer.u32(temp.battery_calibration_bitmap)?;
    writer.u32(temp.monitor_period_us)
}

/// Voltage and temperature thresholds.
pub open spec fn system_init_environment_thresholds_bytes(
    temp: TemperatureBatteryConfig,
) -> Seq<u8> {
    codec::le32(temp.very_low_voltage_threshold as u32)
        + codec::le32(temp.low_voltage_threshold as u32)
        + codec::le32(temp.high_voltage_threshold as u32)
        + codec::le32(temp.temperature_threshold as u32)
        + codec::le32(temp.battery_threshold as u32)
}

fn write_system_init_environment_thresholds(
    writer: &mut Writer<'_>,
    temp: TemperatureBatteryConfig,
) -> (result: Result<(), ProtocolError>)
    requires
        old(writer).wf(),
        old(writer).rest().len() >= 20,
    ensures
        result is Ok,
        final(writer).wf(),
        final(final(writer).bytes)@ == final(old(writer).bytes)@,
        final(writer).written() == old(writer).written() + system_init_environment_thresholds_bytes(
            temp,
        ),
        final(writer).rest() == old(writer).rest().skip(20),
{
    writer.i32(temp.very_low_voltage_threshold)?;
    writer.i32(temp.low_voltage_threshold)?;
    writer.i32(temp.high_voltage_threshold)?;
    writer.i32(temp.temperature_threshold)?;
    writer.i32(temp.battery_threshold)
}

/// Offload, country and band.
pub open spec fn system_init_network_bytes(config: SystemInitConfig) -> Seq<u8> {
    seq![flag(config.tcp_ip_checksum_offload) as u8]
        + config.country_code@
        + codec::le32(config.operating_band)
        + seq![flag(config.management_buffer_offload) as u8]
        + codec::le32(config.feature_flags)
}

fn write_system_init_network(
    writer: &mut Writer<'_>,
    config: &SystemInitConfig,
) -> (result: Result<(), ProtocolError>)
    requires
        old(writer).wf(),
        old(writer).rest().len() >= 12,
    ensures
        result is Ok,
        final(writer).wf(),
        final(final(writer).bytes)@ == final(old(writer).bytes)@,
        final(writer).written() == old(writer).written() + system_init_network_bytes(*config),
        final(writer).rest() == old(writer).rest().skip(12),
{
    writer.u8(bool_u8(config.tcp_ip_checksum_offload))?;
    writer.bytes(&config.country_code)?;
    writer.u32(config.operating_band)?;
    writer.u8(bool_u8(config.management_buffer_offload))?;
    writer.u32(config.feature_flags)
}

/// Beamforming, disconnect and watchdog settings.
pub open spec fn system_init_power_bytes(config: SystemInitConfig) -> Seq<u8> {
    codec::le32(flag(config.disable_beamforming) as u32)
        + codec::le32(config.disconnect_timeout)
        + seq![config.power_save_exit_strategy]
        + codec::le32(config.watchdog_timer)
}

fn write_system_init_power(
    writer: &mut Writer<'_>,
    config: &SystemInitConfig,
) -> (result: Result<(), ProtocolError>)
    requires
        old(writer).wf(),
        old(writer).rest().len() >= 13,
    ensures
        result is Ok,
        final(writer).wf(),
        final(final(writer).bytes)@ == final(old(writer).bytes)@,
        final(writer).written() == old(writer).written() + system_init_power_bytes(*config),
        final(writer).rest() == old(writer).rest().skip(13),
{
    writer.u32(bool_u32(config.disable_beamforming))?;
    writer.u32(config.disconnect_timeout)?;
    writer.u8(config.power_save_exit_strategy)?;
    writer.u32(config.watchdog_timer)
}

/// Keep-alive and scan policy.
pub open spec fn system_init_scan_policy_bytes(config: SystemInitConfig) -> Seq<u8> {
    seq![flag(config.keep_alive_enabled) as u8]
        + codec::le32(config.keep_alive_period_s)
        + codec::le32(config.display_scan_bss_limit)
        + codec::le32(config.disable_coexistence_priority_window_for_scan)
        + seq![flag(config.raw_scan_enabled) as u8]
        + codec::le32(config.max_ps_poll_fail_count)
}

fn write_system_init_scan_policy(
    writer: &mut Writer<'_>,
    config: &SystemInitConfig,
) -> (result: Result<(), ProtocolError>)
    requires
        old(writer).wf(),
        old(writer).rest().len() >= 18,
    ensures
        result is Ok,
        final(writer).wf(),
        final(final(writer).bytes)@ == final(old(writer).bytes)@,
        final(writer).written() == old(writer).written() + system_init_scan_policy_bytes(*config),
        final(writer).rest() == old(writer).rest().skip(18),
{
    writer.u8(bool_u8(config.keep_alive_enabled))?;
    writer.u32(config.keep_alive_period_s)?;
    writer.u32(config.display_scan_bss_limit)?;
    writer.u32(config.disable_coexistence_priority_window_for_scan)?;
    writer.u8(bool_u8(config.raw_scan_enabled))?;
    writer.u32(config.max_ps_poll_fail_count)
}

/// Signalling and coexistence settings.
pub open spec fn system_init_coexistence_bytes(config: SystemInitConfig) -> Seq<u8> {
    codec::le32(config.stbc_enabled_in_ht)
        + codec::le32(config.dynamic_bandwidth_signalling)
        + codec::le32(config.dynamic_energy_detection)
        + codec::le32(config.bluetooth_slot_time_ms)
        + codec::le32(config.bluetooth_coexistence_disabled)
        + seq![flag(config.abort_scan_on_bss_limit) as u8]
}

fn write_system_init_coexistence(
    writer: &mut Writer<'_>,
    config: &SystemInitConfig,
) -> (result: Result<(), ProtocolError>)
    requires
        old(writer).wf(),
        old(writer).rest().len() >= 21,
    ensures
        result is Ok,
        final(writer).wf(),
        final(final(writer).bytes)@ == final(old(writer).bytes)@,
        final(writer).written() == old(writer).written() + system_init_coexistence_bytes(*config),
        final(writer).rest() == old(writer).rest().skip(21),
{
    writer.u32(config.stbc_enabled_in_ht)?;
    writer.u32(config.dynamic_bandwidth_signalling)?;
    writer.u32(config.dynamic_energy_detection)?;
    writer.u32(config.bluetooth_slot_time_ms)?;
    writer.u32(config.bluetooth_coexistence_disabled)?;
    writer.u8(bool_u8(config.abort_scan_on_bss_limit))
}

/// All receive pools.
pub open spec fn system_init_rx_pools_bytes(config: SystemInitConfig) -> Seq<u8> {
    system_init_pool_bytes(config.rx_pools@[0])
        + system_init_pool_bytes(config.rx_pools@[1])
        + system_init_pool_bytes(config.rx_pools@[2])
}

fn write_system_init_rx_pools(writer: &mut Writer<'_>, config: &SystemInitConfig) -> (result: Result<
    (),
    ProtocolError,
>)
    requires
        old(writer).wf(),
        old(writer).rest().len() >= 12,
    ensures
        result is Ok,
        final(writer).wf(),
        final(final(writer).bytes)@ == final(old(writer).bytes)@,
        final(writer).written() == old(writer).written() + system_init_rx_pools_bytes(*config),
        final(writer).rest() == old(writer).rest().skip(12),
{
    write_system_init_pool(writer, config.rx_pools[0])?;
    write_system_init_pool(writer, config.rx_pools[1])?;
    write_system_init_pool(writer, config.rx_pools[2])
}

/// The part of the command up to the receive pools.
pub open spec fn system_init_front_bytes(config: SystemInitConfig) -> Seq<u8> {
    system_init_identity_bytes(config)
        + system_init_timing_bytes(config)
        + system_init_radio_bytes(config)
        + system_init_rx_pools_bytes(config)
}

fn write_system_init_front(writer: &mut Writer<'_>, config: &SystemInitConfig) -> (result: Result<
    (),
    ProtocolError,
>)
    requires
        old(writer).wf(),
        old(writer).rest().len() >= 255,
    ensures
        result is Ok,
        final(writer).wf(),
        final(final(writer).bytes)@ == final(old(writer).bytes)@,
        final(writer).written() == old(writer).written() + system_init_front_bytes(*config),
        final(writer).rest() == old(writer).rest().skip(255),
{
    write_system_init_identity(writer, config)?;
    write_system_init_timing(writer, config)?;
    write_system_init_radio(writer, config)?;
    write_system_init_rx_pools(writer, config)
}

/// The data and calibration settings.
pub open spec fn system_init_middle_bytes(config: SystemInitConfig) -> Seq<u8> {
    system_init_data_rates_bytes(config.data)
        + system_init_data_limits_bytes(config.data)
        + system_init_temperature_calibration_bytes(config.temperature_battery)
        + system_init_environment_thresholds_bytes(config.temperature_battery)
}

fn write_system_init_middle(writer: &mut Writer<'_>, config: &SystemInitConfig) -> (result: Result<
    (),
    ProtocolError,
>)
    requires
        old(writer).wf(),
        old(writer).rest().len() >= 47,
    ensures
        result is Ok,
        final(writer).wf(),
        final(final(writer).bytes)@ == final(old(writer).bytes)@,
        final(writer).written() == old(writer).written() + system_init_middle_bytes(*config),
        final(writer).rest() == old(writer).rest().skip(47),
{
    write_system_init_data_rates(writer, config.data)?;
    write_system_init_data_limits(writer, config.data)?;
    write_system_init_temperature_calibration(writer, config.temperature_battery)?;
    write_system_init_environment_thresholds(writer, config.temperature_battery)
}

/// The network, power, scan and coexistence settings.
pub open spec fn system_init_back_bytes(config: SystemInitConfig) -> Seq<u8> {
    system_init_network_bytes(config)
        + system_init_power_bytes(config)
        + system_init_scan_policy_bytes(config)
        + system_init_coexistence_bytes(config)
}

fn write_system_init_back(writer: &mut Writer<'_>, config: &SystemInitConfig) -> (result: Result<
    (),
    ProtocolError,
>)
    requires
        old(writer).wf(),
        old(writer).rest().len() >= 64,
    ensures
        result is Ok,
        final(writer).wf(),
        final(final(writer).bytes)@ == final(old(writer).bytes)@,
        final(writer).written() == old(writer).written() + system_init_back_bytes(*config),
        final(writer).rest() == old(writer).rest().skip(64),
{
    write_system_init_network(writer, config)?;
    write_system_init_power(writer, config)?;
    write_system_init_scan_policy(writer, config)?;
    write_system_init_coexistence(writer, config)
}

/// The packed system initialization command.
pub open spec fn system_init_bytes(config: SystemInitConfig) -> Seq<u8> {
    system_init_front_bytes(config)
        + system_init_middle_bytes(config)
        + system_init_back_bytes(config)
}

fn write_system_init_body(writer: &mut Writer<'_>, config: &SystemInitConfig) -> (result: Result<
    (),
    ProtocolError,
>)
    requires
        old(writer).wf(),
        old(writer).rest().len() >= 366,
    ensures
        result is Ok,
        final(writer).wf(),
        final(final(writer).bytes)@ == final(old(writer).bytes)@,
        final(writer).written() == old(writer).written() + system_init_bytes(*config),
        final(writer).rest() == old(writer).rest().skip(366),
{
    write_system_init_front(writer, config)?;
    write_system_init_middle(writer, config)?;
    write_system_init_back(writer, config)
}

/// The three parts of a system-init body and their lengths.
proof fn lemma_system_init_lengths(config: SystemInitConfig)
    ensures
        system_init_front_bytes(config).len() == 255,
        system_init_middle_bytes(config).len() == 47,
        system_init_back_bytes(config).len() == 64,
{
}

/// The body of a system-init message starts at byte 12 of the message: it names
/// itself and its length, then the clocks and bring-up times, four bytes each.
pub proof fn law_system_init_timing_layout(config: SystemInitConfig)
    ensures
        ({
            let message = host_message(HostMessageType::System, false, system_init_bytes(config));
            &&& message.len() == 378
            &&& codec::u32_at(message, 12) == 0
            &&& codec::u32_at(message, 16) == 366
            &&& codec::u32_at(message, 20) == config.wdev_id
            &&& codec::u32_at(message, 24) == config.sleep_enable
            &&& codec::u32_at(message, 28) == config.hardware_bringup_time
            &&& codec::u32_at(message, 32) == config.software_bringup_time
            &&& codec::u32_at(message, 36) == config.beacon_timeout
            &&& codec::u32_at(message, 40) == config.calibrate_sleep_clock
            &&& codec::u32_at(message, 44) == config.phy_calibration_bitmap
        }),
{
    let message = host_message(HostMessageType::System, false, system_init_bytes(config));
    lemma_system_init_lengths(config);
    assert(codec::u32_at(message, 12) == 0) by {
        assert(message.subrange(12, 16) =~= codec::le32(0));
        codec::law_u32_round_trip(message, 12, 0);
    }
    assert(codec::u32_at(message, 16) == 366) by {
        assert(message.subrange(16, 20) =~= codec::le32(366));
        codec::law_u32_round_trip(message, 16, 366);
    }
    assert(codec::u32_at(message, 20) == config.wdev_id) by {
        assert(message.subrange(20, 24) =~= codec::le32(config.wdev_id));
        codec::law_u32_round_trip(message, 20, config.wdev_id);
    }
    assert(codec::u32_at(message, 24) == config.sleep_enable) by {
        assert(message.subrange(24, 28) =~= codec::le32(config.sleep_enable));
        codec::law_u32_round_trip(message, 24, config.sleep_enable);
    }
    assert(codec::u32_at(message, 28) == config.hardware_bringup_time) by {
        assert(message.subrange(28, 32) =~= codec::le32(config.hardware_bringup_time));
        codec::law_u32_round_trip(message, 28, config.hardware_bringup_time);
    }
    assert(codec::u32_at(message, 32) == config.software_bringup_time) by {
        assert(message.subrange(32, 36) =~= codec::le32(config.software_bringup_time));
        codec::law_u32_round_trip(message, 32, config.software_bringup_time);
    }
    assert(codec::u32_at(message, 36) == config.beacon_timeout) by {
        assert(message.subrange(36, 40) =~= codec::le32(config.beacon_timeout));
        codec::law_u32_round_trip(message, 36, config.beacon_timeout);
    }
    assert(codec::u32_at(message, 40) == config.calibrate_sleep_clock) by {
        assert(message.subrange(40, 44) =~= codec::le32(config.calibrate_sleep_clock));
        codec::law_u32_round_trip(message, 40, config.calibrate_sleep_clock);
    }
    assert(codec::u32_at(message, 44) == config.phy_calibration_bitmap) by {
        assert(message.subrange(44, 48) =~= codec::le32(config.phy_calibration_bitmap));
        codec::law_u32_round_trip(message, 44, config.phy_calibration_bitmap);
    }
}

/// The body of a system-init message starts at byte 12 of the message and holds
/// the configured MAC address at body bytes 36 to 42, the RF parameters at body
/// bytes 42 to 242, whether they are valid, and the three RX pools behind them.
pub proof fn law_system_init_radio_layout(config: SystemInitConfig)
    ensures
        ({
            let message = host_message(HostMessageType::System, false, system_init_bytes(config));
            &&& message.len() == 378
            &&& message.subrange(48, 54) == config.mac_address@
            &&& message.subrange(54, 254) == config.rf_params@
            &&& message[254] == (if config.rf_params_valid { 1int } else { 0int })
            &&& codec::u16_at(message, 255) == config.rx_pools@[0].buffer_size
            &&& codec::u16_at(message, 257) == config.rx_pools@[0].buffer_count
            &&& codec::u16_at(message, 259) == config.rx_pools@[1].buffer_size
            &&& codec::u16_at(message, 261) == config.rx_pools@[1].buffer_count
            &&& codec::u16_at(message, 263) == config.rx_pools@[2].buffer_size
            &&& codec::u16_at(message, 265) == config.rx_pools@[2].buffer_count
        }),
{
    let message = host_message(HostMessageType::System, false, system_init_bytes(config));
    lemma_system_init_lengths(config);
    assert(message.subrange(48, 54) =~= config.mac_address@);
    assert(message.subrange(54, 254) =~= config.rf_params@);
    assert(codec::u16_at(message, 255) == config.rx_pools@[0].buffer_size) by {
        assert(message.subrange(255, 257) =~= codec::le16(config.rx_pools@[0].buffer_size));
        codec::law_u16_round_trip(message, 255, config.rx_pools@[0].buffer_size);
    }
    assert(codec::u16_at(message, 257) == config.rx_pools@[0].buffer_count) by {
        assert(message.subrange(257, 259) =~= codec::le16(config.rx_pools@[0].buffer_count));
        codec::law_u16_round_trip(message, 257, config.rx_pools@[0].buffer_count);
    }
    assert(codec::u16_at(message, 259) == config.rx_pools@[1].buffer_size) by {
        assert(message.subrange(259, 261) =~= codec::le16(config.rx_pools@[1].buffer_size));
        codec::law_u16_round_trip(message, 259, config.rx_pools@[1].buffer_size);
    }
    assert(codec::u16_at(message, 261) == config.rx_pools@[1].buffer_count) by {
        assert(message.subrange(261, 263) =~= codec::le16(config.rx_pools@[1].buffer_count));
        codec::law_u16_round_trip(message, 261, config.rx_pools@[1].buffer_count);
    }
    assert(codec::u16_at(message, 263) == config.rx_pools@[2].buffer_size) by {
        assert(message.subrange(263, 265) =~= codec::le16(config.rx_pools@[2].buffer_size));
        codec::law_u16_round_trip(message, 263, config.rx_pools@[2].buffer_size);
    }
    assert(codec::u16_at(message, 265) == config.rx_pools@[2].buffer_count) by {
        assert(message.subrange(265, 267) =~= codec::le16(config.rx_pools@[2].buffer_count));
        codec::law_u16_round_trip(message, 265, config.rx_pools@[2].buffer_count);
    }
}

/// The body of a system-init message starts at byte 12 of the message and holds
/// the data path limits from body byte 255 and the temperature and battery
/// monitoring from body byte 266 on.
pub proof fn law_system_init_data_layout(config: SystemInitConfig)
    ensures
        ({
            let message = host_message(HostMessageType::System, false, system_init_bytes(config));
            &&& message.len() == 378
            &&& message[267] == config.data.rate_protection_type
            &&& message[268] == (if config.data.aggregation { 1int } else { 0int })
            &&& message[269] == (if config.data.wmm { 1int } else { 0int })
            &&& message[270] == config.data.max_tx_aggregation_sessions
            &&& message[271] == config.data.max_rx_aggregation_sessions
            &&& message[272] == config.data.max_tx_aggregation
            &&& message[273] == config.data.reorder_buffer_size
            &&& codec::i32_at(message, 274) == config.data.max_rx_ampdu_size
            &&& codec::u32_at(message, 278) == config.temperature_battery.temperature_calibration_enabled
            &&& codec::u32_at(message, 282) == config.temperature_battery.temperature_calibration_bitmap
            &&& codec::u32_at(message, 286) == config.temperature_battery.battery_calibration_bitmap
            &&& codec::u32_at(message, 290) == config.temperature_battery.monitor_period_us
            &&& codec::i32_at(message, 294) == config.temperature_battery.very_low_voltage_threshold
            &&& codec::i32_at(message, 298) == config.temperature_battery.low_voltage_threshold
            &&& codec::i32_at(message, 302) == config.temperature_battery.high_voltage_threshold
            &&& codec::i32_at(message, 306) == config.temperature_battery.temperature_threshold
            &&& codec::i32_at(message, 310) == config.temperature_battery.battery_threshold
        }),
{
    let message = host_message(HostMessageType::System, false, system_init_bytes(config));
    lemma_system_init_lengths(config);
    assert(codec::i32_at(message, 274) == config.data.max_rx_ampdu_size) by {
        assert(message.subrange(274, 278) =~= codec::le32(config.data.max_rx_ampdu_size as u32));
        codec::law_i32_round_trip(message, 274, config.data.max_rx_ampdu_size);
    }
    assert(codec::u32_at(message, 278) == config.temperature_battery.temperature_calibration_enabled) by {
        assert(message.subrange(278, 282) =~= codec::le32(config.temperature_battery.temperature_calibration_enabled));
        codec::law_u32_round_trip(message, 278, config.temperature_battery.temperature_calibration_enabled);
    }
    assert(codec::u32_at(message, 282) == config.temperature_battery.temperature_calibration_bitmap) by {
        assert(message.subrange(282, 286) =~= codec::le32(config.temperature_battery.temperature_calibration_bitmap));
        codec::law_u32_round_trip(message, 282, config.temperature_battery.temperature_calibration_bitmap);
    }
    assert(codec::u32_at(message, 286) == config.temperature_battery.battery_calibration_bitmap) by {
        assert(message.subrange(286, 290) =~= codec::le32(config.temperature_battery.battery_calibration_bitmap));
        codec::law_u32_round_trip(message, 286, config.temperature_battery.battery_calibration_bitmap);
    }
    assert(codec::u32_at(message, 290) == config.temperature_battery.monitor_period_us) by {
        assert(message.subrange(290, 294) =~= codec::le32(config.temperature_battery.monitor_period_us));
        codec::law_u32_round_trip(message, 290, config.temperature_battery.monitor_period_us);
    }
    assert(codec::i32_at(message, 294) == config.temperature_battery.very_low_voltage_threshold) by {
        assert(message.subrange(294, 298) =~= codec::le32(config.temperature_battery.very_low_voltage_threshold as u32));
        codec::law_i32_round_trip(message, 294, config.temperature_battery.very_low_voltage_threshold);
    }
    assert(codec::i32_at(message, 298) == config.temperature_battery.low_voltage_threshold) by {
        assert(message.subrange(298, 302) =~= codec::le32(config.temperature_battery.low_voltage_threshold as u32));
        codec::law_i32_round_trip(message, 298, config.temperature_battery.low_voltage_threshold);
    }
    assert(codec::i32_at(message, 302) == config.temperature_battery.high_voltage_threshold) by {
        assert(message.subrange(302, 306) =~= codec::le32(config.temperature_battery.high_voltage_threshold as u32));
        codec::law_i32_round_trip(message, 302, config.temperature_battery.high_voltage_threshold);
    }
    assert(codec::i32_at(message, 306) == config.temperature_battery.temperature_threshold) by {
        assert(message.subrange(306, 310) =~= codec::le32(config.temperature_battery.temperature_threshold as u32));
        codec::law_i32_round_trip(message, 306, config.temperature_battery.temperature_threshold);
    }
    assert(codec::i32_at(message, 310) == config.temperature_battery.battery_threshold) by {
        assert(message.subrange(310, 314) =~= codec::le32(config.temperature_battery.battery_threshold as u32));
        codec::law_i32_round_trip(message, 310, config.temperature_battery.battery_threshold);
    }
}

/// The body of a system-init message starts at byte 12 of the message and holds
/// the network, power and scan policy from body byte 302 on.
pub proof fn law_system_init_network_layout(config: SystemInitConfig)
    ensures
        ({
            let message = host_message(HostMessageType::System, false, system_init_bytes(config));
            &&& message.len() == 378
            &&& message[314] == (if config.tcp_ip_checksum_offload { 1int } else { 0int })
            &&& message.subrange(315, 317) == config.country_code@
            &&& codec::u32_at(message, 317) == config.operating_band
            &&& message[321] == (if config.management_buffer_offload { 1int } else { 0int })
            &&& codec::u32_at(message, 322) == config.feature_flags
            &&& codec::u32_at(message, 326) == (if config.disable_beamforming { 1int } else { 0int })
            &&& codec::u32_at(message, 330) == config.disconnect_timeout
            &&& message[334] == config.power_save_exit_strategy
            &&& codec::u32_at(message, 335) == config.watchdog_timer
            &&& message[339] == (if config.keep_alive_enabled { 1int } else { 0int })
            &&& codec::u32_at(message, 340) == config.keep_alive_period_s
            &&& codec::u32_at(message, 344) == config.display_scan_bss_limit
            &&& codec::u32_at(message, 348) == config.disable_coexistence_priority_window_for_scan
            &&& message[352] == (if config.raw_scan_enabled { 1int } else { 0int })
            &&& codec::u32_at(message, 353) == config.max_ps_poll_fail_count
        }),
{
    let message = host_message(HostMessageType::System, false, system_init_bytes(config));
    lemma_system_init_lengths(config);
    assert(message.subrange(315, 317) =~= config.country_code@);
    assert(codec::u32_at(message, 317) == config.operating_band) by {
        assert(message.subrange(317, 321) =~= codec::le32(config.operating_band));
        codec::law_u32_round_trip(message, 317, config.operating_band);
    }
    assert(codec::u32_at(message, 322) == config.feature_flags) by {
        assert(message.subrange(322, 326) =~= codec::le32(config.feature_flags));
        codec::law_u32_round_trip(message, 322, config.feature_flags);
    }
    assert(codec::u32_at(message, 326) == flag(config.disable_beamforming) as u32) by {
        assert(message.subrange(326, 330) =~= codec::le32(flag(config.disable_beamforming) as u32));
        codec::law_u32_round_trip(message, 326, flag(config.disable_beamforming) as u32);
    }
    assert(codec::u32_at(message, 330) == config.disconnect_timeout) by {
        assert(message.subrange(330, 334) =~= codec::le32(config.disconnect_timeout));
        codec::law_u32_round_trip(message, 330, config.disconnect_timeout);
    }
    assert(codec::u32_at(message, 335) == config.watchdog_timer) by {
        assert(message.subrange(335, 339) =~= codec::le32(config.watchdog_timer));
        codec::law_u32_round_trip(message, 335, config.watchdog_timer);
    }
    assert(codec::u32_at(message, 340) == config.keep_alive_period_s) by {
        assert(message.subrange(340, 344) =~= codec::le32(config.keep_alive_period_s));
        codec::law_u32_round_trip(message, 340, config.keep_alive_period_s);
    }
    assert(codec::u32_at(message, 344) == config.display_scan_bss_limit) by {
        assert(message.subrange(344, 348) =~= codec::le32(config.display_scan_bss_limit));
        codec::law_u32_round_trip(message, 344, config.display_scan_bss_limit);
    }
    assert(codec::u32_at(message, 348) == config.disable_coexistence_priority_window_for_scan) by {
        assert(message.subrange(348, 352) =~= codec::le32(config.disable_coexistence_priority_window_for_scan));
        codec::law_u32_round_trip(message, 348, config.disable_coexistence_priority_window_for_scan);
    }
    assert(codec::u32_at(message, 353) == config.max_ps_poll_fail_count) by {
        assert(message.subrange(353, 357) =~= codec::le32(config.max_ps_poll_fail_count));
        codec::law_u32_round_trip(message, 353, config.max_ps_poll_fail_count);
    }
}

/// The body of a system-init message starts at byte 12 of the message and ends with
/// the coexistence settings.
pub proof fn law_system_init_coexistence_layout(config: SystemInitConfig)
    ensures
        ({
            let message = host_message(HostMessageType::System, false, system_init_bytes(config));
            &&& message.len() == 378
            &&& codec::u32_at(message, 357) == config.stbc_enabled_in_ht
            &&& codec::u32_at(message, 361) == config.dynamic_bandwidth_signalling
            &&& codec::u32_at(message, 365) == config.dynamic_energy_detection
            &&& codec::u32_at(message, 369) == config.bluetooth_slot_time_ms
            &&& codec::u32_at(message, 373) == config.bluetooth_coexistence_disabled
            &&& message[377] == (if config.abort_scan_on_bss_limit { 1int } else { 0int })
        }),
{
    let message = host_message(HostMessageType::System, false, system_init_bytes(config));
    lemma_system_init_lengths(config);
    assert(codec::u32_at(message, 357) == config.stbc_enabled_in_ht) by {
        assert(message.subrange(357, 361) =~= codec::le32(config.stbc_enabled_in_ht));
        codec::law_u32_round_trip(message, 357, config.stbc_enabled_in_ht);
    }
    assert(codec::u32_at(message, 361) == config.dynamic_bandwidth_signalling) by {
        assert(message.subrange(361, 365) =~= codec::le32(config.dynamic_bandwidth_signalling));
        codec::law_u32_round_trip(message, 361, config.dynamic_bandwidth_signalling);
    }
    assert(codec::u32_at(message, 365) == config.dynamic_energy_detection) by {
        assert(message.subrange(365, 369) =~= codec::le32(config.dynamic_energy_detection));
        codec::law_u32_round_trip(message, 365, config.dynamic_energy_detection);
    }
    assert(codec::u32_at(message, 369) == config.bluetooth_slot_time_ms) by {
        assert(message.subrange(369, 373) =~= codec::le32(config.bluetooth_slot_time_ms));
        codec::law_u32_round_trip(message, 369, config.bluetooth_slot_time_ms);
    }
    assert(codec::u32_at(message, 373) == config.bluetooth_coexistence_disabled) by {
        assert(message.subrange(373, 377) =~= codec::le32(config.bluetooth_coexistence_disabled));
        codec::law_u32_round_trip(message, 373, config.bluetooth_coexistence_disabled);
    }
}

/// Why a system init command cannot be encoded, if it cannot.
pub open spec fn system_init_fault(
    out_len: nat,
    config: SystemInitConfig,
) -> Option<ProtocolError> {
    if !config.within_limits() {
        Some(ProtocolError::LimitExceeded)
    } else {
        framing_fault(out_len, SYSTEM_INIT_LEN as nat)
    }
}

/// Encodes the packed 366-byte system initialization command.
pub fn encode_system_init(out: &mut [u8], config: &SystemInitConfig) -> (result: Result<
    usize,
    ProtocolError,
>)
    ensures
        written_to(
            result,
            old(out)@,
            final(out)@,
            host_message(HostMessageType::System, false, system_init_bytes(*config)),
            system_init_fault(old(out)@.len(), *config),
        ),
        system_init_bytes(*config).len() == SYSTEM_INIT_LEN,
{
    config.validate()?;
    let mut body = [0u8; SYSTEM_INIT_LEN];
    let mut writer = Writer::new(&mut body);
    write_system_init_body(&mut writer, config)?;
    assert(writer.written() =~= system_init_bytes(*config));
    assert(writer.rest() =~= Seq::<u8>::empty());
    let len: usize = writer.finish();
    assert(body@ =~= system_init_bytes(*config));
    if len != SYSTEM_INIT_LEN {
        return Err(ProtocolError::InvalidLength);
    }
    encode_host_message(out, HostMessageType::System, false, &body)
}

/// Interface type values shared with the firmware.
#[derive(Clone, Copy, Debug, PartialEq, Eq, Structural)]
pub enum InterfaceType {
    Unspecified,
    AdHoc,
    Station,
    AccessPoint,
    ApVlan,
    Wds,
    Monitor,
    Mesh,
    P2pClient,
    P2pGroupOwner,
    P2pDevice,
}

impl InterfaceType {
    /// The wire value.
    pub open spec fn wire(self) -> i32 {
        match self {
            InterfaceType::Unspecified => 0,
            InterfaceType::AdHoc => 1,
            InterfaceType::Station => 2,
            InterfaceType::AccessPoint => 3,
            InterfaceType::ApVlan => 4,
            InterfaceType::Wds => 5,
            InterfaceType::Monitor => 6,
            InterfaceType::Mesh => 7,
            InterfaceType::P2pClient => 8,
            InterfaceType::P2pGroupOwner => 9,
            InterfaceType::P2pDevice => 10,
        }
    }

    /// Returns the wire value.
    pub fn code(self) -> (value: i32)
        ensures
            value == self.wire(),
    {
        match self {
            InterfaceType::Unspecified => 0,
            InterfaceType::AdHoc => 1,
            InterfaceType::Station => 2,
            InterfaceType::AccessPoint => 3,
            InterfaceType::ApVlan => 4,
            InterfaceType::Wds => 5,
            InterfaceType::Monitor => 6,
            InterfaceType::Mesh => 7,
            InterfaceType::P2pClient => 8,
            InterfaceType::P2pGroupOwner => 9,
            InterfaceType::P2pDevice => 10,
        }
    }
}

/// Longest interface name.
pub const MAX_INTERFACE_NAME_LEN: usize = 16;

/// Body of the new-interface command.
pub open spec fn new_interface_body(
    interface_type: InterfaceType,
    mac_address: Seq<u8>,
    interface_name: Seq<u8>,
) -> Seq<u8> {
    codec::le32(14) + codec::le32(interface_type.wire() as u32) + codec::le32(0) + codec::le32(0)
        + mac_address + codec::padded(interface_name, MAX_INTERFACE_NAME_LEN as nat)
}

/// Encodes `NRF_WIFI_UMAC_CMD_NEW_INTERFACE`.
pub fn encode_new_interface(
    out: &mut [u8],
    wdev_id: u32,
    interface_type: InterfaceType,
    mac_address: [u8; 6],
    interface_name: &[u8],
) -> (result: Result<usize, ProtocolError>)
    ensures
        written_to(
            result,
            old(out)@,
            final(out)@,
            umac_command(
                UmacCommand::NewInterface,
                wdev_ids(wdev_id),
                new_interface_body(interface_type, mac_address@, interface_name@),
            ),
            if interface_name@.len() > MAX_INTERFACE_NAME_LEN {
                Some(ProtocolError::LimitExceeded)
            } else {
                umac_fault(old(out)@.len(), 38)
            },
        ),
        result is Ok ==> names_command(final(out)@, 15, wdev_id),
{
    broadcast use lemma_written_command;

    if interface_name.len() > MAX_INTERFACE_NAME_LEN {
        return Err(ProtocolError::LimitExceeded);
    }
    let ghost image = new_interface_body(interface_type, mac_address@, interface_name@);
    let mut body = [0u8; 38];
    let mut writer = Writer::new(&mut body);
    write_new_interface_metadata(&mut writer, interface_type)?;
    write_new_interface_identity(&mut writer, mac_address, interface_name)?;
    assert(writer.written() =~= image);
    assert(writer.rest() =~= Seq::<u8>::empty());
    writer.finish();
    assert(body@ =~= image);
    encode_umac_command(out, UmacCommand::NewInterface, InterfaceIds::wdev(wdev_id), &body)
}

fn write_new_interface_metadata(writer: &mut Writer<'_>, interface_type: InterfaceType) -> (result:
    Result<(), ProtocolError>)
    requires
        old(writer).wf(),
        old(writer).rest().len() >= 16,
    ensures
        result is Ok,
        final(writer).wf(),
        final(final(writer).bytes)@ == final(old(writer).bytes)@,
        final(writer).written() == old(writer).written() + (codec::le32(14) + codec::le32(
            interface_type.wire() as u32,
        ) + codec::le32(0) + codec::le32(0)),
        final(writer).rest() == old(writer).rest().skip(16),
{
    writer.u32(14)?;
    writer.i32(interface_type.code())?;
    writer.u32(0)?;
    writer.u32(0)
}

fn write_new_interface_identity(
    writer: &mut Writer<'_>,
    mac_address: [u8; 6],
    interface_name: &[u8],
) -> (result: Result<(), ProtocolError>)
    requires
        old(writer).wf(),
        old(writer).rest().len() >= 22,
        interface_name@.len() <= MAX_INTERFACE_NAME_LEN,
    ensures
        result is Ok,
        final(writer).wf(),
        final(final(writer).bytes)@ == final(old(writer).bytes)@,
        final(writer).written() == old(writer).written() + (mac_address@ + codec::padded(
            interface_name@,
            MAX_INTERFACE_NAME_LEN as nat,
        )),
        final(writer).rest() == old(writer).rest().skip(22),
{
    writer.bytes(&mac_address)?;
    writer.fixed(interface_name, MAX_INTERFACE_NAME_LEN)
}

/// Scan purpose.
#[derive(Clone, Copy, Debug, PartialEq, Eq, Structural)]
pub enum ScanReason {
    Display,
    Connect,
}

impl ScanReason {
    /// The wire value.
    pub open spec fn wire(self) -> i32 {
        match self {
            ScanReason::Display => 0,
            ScanReason::Connect => 1,
        }
    }

    /// Returns the wire value.
    pub fn code(self) -> (value: i32)
        ensures
            value == self.wire(),
    {
        match self {
            ScanReason::Display => 0,
            ScanReason::Connect => 1,
        }
    }
}

/// Borrowed scan request.
pub struct ScanRequest<'a> {
    pub reason: ScanReason,
    pub passive: bool,
    pub ssids: [&'a [u8]; MAX_SCAN_SSIDS],
    pub ssid_count: u8,
    /// Bit 0 is 2.4 GHz, bit 1 is 5 GHz. Zero asks for both.
    pub bands: u8,
    pub no_cck: bool,
    pub information_elements: &'a [u8],
    pub mac_address: [u8; 6],
    pub active_dwell_ms: u16,
    pub passive_dwell_ms: u16,
    pub skip_local_admin_macs: bool,
    pub center_frequencies_mhz: &'a [u32],
}

impl<'a> ScanRequest<'a> {
    /// The directed SSID of one wire slot; an unused slot is empty.
    pub open spec fn ssid(&self, index: int) -> Seq<u8> {
        if index < self.ssid_count {
            self.ssids@[index]@
        } else {
            Seq::empty()
        }
    }

    /// Whether every field fits its wire capacity.
    pub open spec fn within_limits(&self) -> bool {
        &&& self.ssid_count <= MAX_SCAN_SSIDS
        &&& self.center_frequencies_mhz@.len() <= MAX_SCAN_FREQUENCIES
        &&& self.information_elements@.len() <= MAX_SCAN_IE_LEN
        &&& self.ssid(0).len() <= MAX_SSID_LEN
        &&& self.ssid(1).len() <= MAX_SSID_LEN
    }

    /// Purpose, scan type and SSID count.
    pub open spec fn header_bytes(&self) -> Seq<u8> {
        codec::le32(self.reason.wire() as u32) + codec::le16(flag(self.passive) as u16)
            + seq![self.ssid_count]
    }

    /// One SSID slot.
    pub open spec fn ssid_bytes(&self, index: int) -> Seq<u8> {
        seq![self.ssid(index).len() as u8] + codec::padded(self.ssid(index), MAX_SSID_LEN as nat)
    }

    /// Scan options up to the frequency list.
    pub open spec fn option_bytes(&self) -> Seq<u8> {
        seq![flag(self.no_cck) as u8] + seq![self.bands] + codec::le16(
            self.information_elements@.len() as u16,
        ) + codec::padded(self.information_elements@, MAX_SCAN_IE_LEN as nat) + self.mac_address@
            + self.timing_bytes()
    }

    /// Dwell times, frequency count and address policy.
    pub open spec fn timing_bytes(&self) -> Seq<u8> {
        codec::le16(self.active_dwell_ms) + codec::le16(self.passive_dwell_ms) + codec::le16(
            self.center_frequencies_mhz@.len() as u16,
        ) + seq![flag(self.skip_local_admin_macs) as u8]
    }

    /// Body of the scan command.
    pub open spec fn body(&self) -> Seq<u8> {
        self.header_bytes() + self.ssid_bytes(0) + self.ssid_bytes(1) + self.option_bytes()
            + codec::le32_list(self.center_frequencies_mhz@)
    }

    /// Creates a full-band display scan with no directed SSID.
    pub fn all_bands() -> (request: Self)
        ensures
            request.reason == ScanReason::Display,
            !request.passive,
            request.ssids@[0]@.len() == 0,
            request.ssids@[1]@.len() == 0,
            request.ssid_count == 0,
            request.bands == 0,
            !request.no_cck,
            request.information_elements@.len() == 0,
            request.mac_address@ == Seq::new(6, |i: int| 0u8),
            request.active_dwell_ms == 0,
            request.passive_dwell_ms == 0,
            !request.skip_local_admin_macs,
            request.center_frequencies_mhz@.len() == 0,
            request.within_limits(),
    {
        ScanRequest {
            reason: ScanReason::Display,
            passive: false,
            ssids: [&[], &[]],
            ssid_count: 0,
            bands: 0,
            no_cck: false,
            information_elements: &[],
            mac_address: [0u8; 6],
            active_dwell_ms: 0,
            passive_dwell_ms: 0,
            skip_local_admin_macs: false,
            center_frequencies_mhz: &[],
        }
    }
}

/// Encodes `NRF_WIFI_UMAC_CMD_TRIGGER_SCAN`.
pub fn encode_scan(out: &mut [u8], wdev_id: u32, request: &ScanRequest<'_>) -> (result: Result<
    usize,
    ProtocolError,
>)
    ensures
        written_to(
            result,
            old(out)@,
            final(out)@,
            umac_command(UmacCommand::TriggerScan, wdev_ids(wdev_id), request.body()),
            if !request.within_limits() {
                Some(ProtocolError::LimitExceeded)
            } else {
                umac_fault(
                    old(out)@.len(),
                    (SCAN_FIXED_LEN + 4 * request.center_frequencies_mhz@.len()) as nat,
                )
            },
        ),
        result is Ok ==> names_command(final(out)@, 0, wdev_id),
{
    broadcast use lemma_written_command;

    validate_scan_request(request)?;
    let body_len: usize = scan_body_len(request.center_frequencies_mhz.len())?;
    let mut body = [0u8; MAX_SCAN_BODY_LEN];
    let mut writer = Writer::new(&mut body);
    write_scan_body(&mut writer, request)?;
    let len: usize = writer.finish();
    assert(body@.subrange(0, body_len as int) =~= request.body());
    if len != body_len {
        return Err(ProtocolError::InvalidLength);
    }
    let encoded: &[u8] = &body;
    encode_umac_command(
        out,
        UmacCommand::TriggerScan,
        InterfaceIds::wdev(wdev_id),
        &encoded[0..body_len],
    )
}

/// Checks every wire capacity of a scan request.
pub fn validate_scan_request(request: &ScanRequest<'_>) -> (result: Result<(), ProtocolError>)
    ensures
        match result {
            Ok(()) => request.within_limits(),
            Err(error) => !request.within_limits() && error == ProtocolError::LimitExceeded,
        },
{
    validate_scan_capacities(request)?;
    validate_scan_ssids(request)
}

fn validate_scan_capacities(request: &ScanRequest<'_>) -> (result: Result<(), ProtocolError>)
    ensures
        result == (if request.ssid_count > MAX_SCAN_SSIDS || request.center_frequencies_mhz@.len()
            > MAX_SCAN_FREQUENCIES || request.information_elements@.len() > MAX_SCAN_IE_LEN {
            Err(ProtocolError::LimitExceeded)
        } else {
            Ok(())
        }),
{
    if request.ssid_count as usize > MAX_SCAN_SSIDS {
        return Err(ProtocolError::LimitExceeded);
    }
    if request.center_frequencies_mhz.len() > MAX_SCAN_FREQUENCIES {
        return Err(ProtocolError::LimitExceeded);
    }
    if request.information_elements.len() > MAX_SCAN_IE_LEN {
        return Err(ProtocolError::LimitExceeded);
    }
    Ok(())
}

fn validate_scan_ssids(request: &ScanRequest<'_>) -> (result: Result<(), ProtocolError>)
    ensures
        result == (if request.ssid(0).len() > MAX_SSID_LEN || request.ssid(1).len()
            > MAX_SSID_LEN {
            Err(ProtocolError::LimitExceeded)
        } else {
            Ok(())
        }),
{
    if request.ssid_count > 0 && request.ssids[0].len() > MAX_SSID_LEN {
        return Err(ProtocolError::LimitExceeded);
    }
    if request.ssid_count > 1 && request.ssids[1].len() > MAX_SSID_LEN {
        return Err(ProtocolError::LimitExceeded);
    }
    Ok(())
}

/// Length of a scan body with this many frequencies.
pub fn scan_body_len(frequency_count: usize) -> (result: Result<usize, ProtocolError>)
    ensures
        match result {
            Ok(len) => len == SCAN_FIXED_LEN + 4 * frequency_count && len <= MAX_SCAN_BODY_LEN,
            Err(error) => if SCAN_FIXED_LEN + 4 * frequency_count > usize::MAX {
                error == ProtocolError::InvalidLength
            } else {
                SCAN_FIXED_LEN + 4 * frequency_count > MAX_SCAN_BODY_LEN && error
                    == ProtocolError::LimitExceeded
            },
        },
{
    let frequencies_len: usize = match frequency_count.checked_mul(4) {
        Some(len) => len,
        None => return Err(ProtocolError::InvalidLength),
    };
    let body_len: usize = match SCAN_FIXED_LEN.checked_add(frequencies_len) {
        Some(len) => len,
        None => return Err(ProtocolError::InvalidLength),
    };
    if body_len > MAX_SCAN_BODY_LEN {
        return Err(ProtocolError::LimitExceeded);
    }
    Ok(body_len)
}

fn write_scan_body(writer: &mut Writer<'_>, request: &ScanRequest<'_>) -> (result: Result<
    (),
    ProtocolError,
>)
    requires
        old(writer).wf(),
        old(writer).rest().len() >= SCAN_FIXED_LEN + 4 * request.center_frequencies_mhz@.len(),
        request.within_limits(),
    ensures
        result is Ok,
        final(writer).wf(),
        final(final(writer).bytes)@ == final(old(writer).bytes)@,
        final(writer).written() == old(writer).written() + request.body(),
        request.body().len() == SCAN_FIXED_LEN + 4 * request.center_frequencies_mhz@.len(),
{
    write_scan_header(writer, request)?;
    write_scan_ssids(writer, request)?;
    write_scan_options(writer, request)?;
    proof {
        codec::lemma_le32_list_len(request.center_frequencies_mhz@);
    }
    writer.u32_list(request.center_frequencies_mhz)
}

fn write_scan_header(writer: &mut Writer<'_>, request: &ScanRequest<'_>) -> (result: Result<
    (),
    ProtocolError,
>)
    requires
        old(writer).wf(),
        old(writer).rest().len() >= 7,
    ensures
        result is Ok,
        final(writer).wf(),
        final(final(writer).bytes)@ == final(old(writer).bytes)@,
        final(writer).written() == old(writer).written() + request.header_bytes(),
        final(writer).rest() == old(writer).rest().skip(7),
{
    writer.i32(request.reason.code())?;
    writer.u16(bool_u16(request.passive))?;
    writer.u8(request.ssid_count)
}

fn write_scan_ssid(writer: &mut Writer<'_>, ssid: &[u8]) -> (result: Result<(), ProtocolError>)
    requires
        old(writer).wf(),
        old(writer).rest().len() >= 33,
        ssid@.len() <= MAX_SSID_LEN,
    ensures
        result is Ok,
        final(writer).wf(),
        final(final(writer).bytes)@ == final(old(writer).bytes)@,
        final(writer).written() == old(writer).written() + (seq![ssid@.len() as u8]
            + codec::padded(ssid@, MAX_SSID_LEN as nat)),
        final(writer).rest() == old(writer).rest().skip(33),
{
    writer.u8(ssid.len() as u8)?;
    writer.fixed(ssid, MAX_SSID_LEN)
}

fn write_scan_ssids(writer: &mut Writer<'_>, request: &ScanRequest<'_>) -> (result: Result<
    (),
    ProtocolError,
>)
    requires
        old(writer).wf(),
        old(writer).rest().len() >= 66,
        request.within_limits(),
    ensures
        result is Ok,
        final(writer).wf(),
        final(final(writer).bytes)@ == final(old(writer).bytes)@,
        final(writer).written() == old(writer).written() + (request.ssid_bytes(0)
            + request.ssid_bytes(1)),
        final(writer).rest() == old(writer).rest().skip(66),
{
    let first: &[u8] = if request.ssid_count > 0 {
        request.ssids[0]
    } else {
        &[]
    };
    let second: &[u8] = if request.ssid_count > 1 {
        request.ssids[1]
    } else {
        &[]
    };
    assert(first@ =~= request.ssid(0));
    assert(second@ =~= request.ssid(1));
    write_scan_ssid(writer, first)?;
    write_scan_ssid(writer, second)
}

fn write_scan_options(writer: &mut Writer<'_>, request: &ScanRequest<'_>) -> (result: Result<
    (),
    ProtocolError,
>)
    requires
        old(writer).wf(),
        old(writer).rest().len() >= 417,
        request.within_limits(),
    ensures
        result is Ok,
        final(writer).wf(),
        final(final(writer).bytes)@ == final(old(writer).bytes)@,
        final(writer).written() == old(writer).written() + request.option_bytes(),
        final(writer).rest() == old(writer).rest().skip(417),
{
    writer.u8(bool_u8(request.no_cck))?;
    writer.u8(request.bands)?;
    writer.u16(request.information_elements.len() as u16)?;
    writer.fixed(request.information_elements, MAX_SCAN_IE_LEN)?;
    writer.bytes(&request.mac_address)?;
    write_scan_timing(writer, request)
}

fn write_scan_timing(writer: &mut Writer<'_>, request: &ScanRequest<'_>) -> (result: Result<
    (),
    ProtocolError,
>)
    requires
        old(writer).wf(),
        old(writer).rest().len() >= 7,
    ensures
        result is Ok,
        final(writer).wf(),
        final(final(writer).bytes)@ == final(old(writer).bytes)@,
        final(writer).written() == old(writer).written() + request.timing_bytes(),
        final(writer).rest() == old(writer).rest().skip(7),
{
    writer.u16(request.active_dwell_ms)?;
    writer.u16(request.passive_dwell_ms)?;
    writer.u16(request.center_frequencies_mhz.len() as u16)?;
    writer.u8(bool_u8(request.skip_local_admin_macs))
}

/// Encodes scan-result retrieval after `ScanDone`.
pub fn encode_get_scan_results(out: &mut [u8], wdev_id: u32, reason: ScanReason) -> (result: Result<
    usize,
    ProtocolError,
>)
    ensures
        written_to(
            result,
            old(out)@,
            final(out)@,
            umac_command(
                UmacCommand::GetScanResults,
                wdev_ids(wdev_id),
                codec::le32(reason.wire() as u32),
            ),
            umac_fault(old(out)@.len(), 4),
        ),
        result is Ok ==> names_command(final(out)@, 1, wdev_id),
        result is Ok ==> final(out)@.subrange(48, 52) == codec::le32(
            if reason is Display {
                0
            } else {
                1
            },
        ),
{
    broadcast use lemma_written_command;

    let body = codec::u32_bytes(reason.code() as u32);
    encode_umac_command(out, UmacCommand::GetScanResults, InterfaceIds::wdev(wdev_id), &body)
}

/// Body of the deauthentication command.
pub open spec fn deauthenticate_body(
    bssid: Seq<u8>,
    reason_code: u16,
    local_state_change: bool,
) -> Seq<u8> {
    codec::le32(1) + codec::le16(flag(local_state_change) as u16) + codec::le16(reason_code) + bssid
}

/// Encodes a station deauthentication command.
pub fn encode_deauthenticate(
    out: &mut [u8],
    wdev_id: u32,
    bssid: [u8; 6],
    reason_code: u16,
    local_state_change: bool,
) -> (result: Result<usize, ProtocolError>)
    ensures
        written_to(
            result,
            old(out)@,
            final(out)@,
            umac_command(
                UmacCommand::Deauthenticate,
                wdev_ids(wdev_id),
                deauthenticate_body(bssid@, reason_code, local_state_change),
            ),
            umac_fault(old(out)@.len(), 14),
        ),
        result is Ok ==> names_command(final(out)@, 4, wdev_id),
{
    broadcast use lemma_written_command;

    let ghost image = deauthenticate_body(bssid@, reason_code, local_state_change);
    let mut body = [0u8; 14];
    let mut writer = Writer::new(&mut body);
    write_deauthenticate_body(&mut writer, bssid, reason_code, local_state_change)?;
    assert(writer.written() =~= image);
    assert(writer.rest() =~= Seq::<u8>::empty());
    writer.finish();
    assert(body@ =~= image);
    encode_umac_command(out, UmacCommand::Deauthenticate, InterfaceIds::wdev(wdev_id), &body)
}

fn write_deauthenticate_body(
    writer: &mut Writer<'_>,
    bssid: [u8; 6],
    reason_code: u16,
    local_state_change: bool,
) -> (result: Result<(), ProtocolError>)
    requires
        old(writer).wf(),
        old(writer).rest().len() >= 14,
    ensures
        result is Ok,
        final(writer).wf(),
        final(final(writer).bytes)@ == final(old(writer).bytes)@,
        final(writer).written() == old(writer).written() + deauthenticate_body(
            bssid@,
            reason_code,
            local_state_change,
        ),
        final(writer).rest() == old(writer).rest().skip(14),
{
    writer.u32(1)?;
    writer.u16(bool_u16(local_state_change))?;
    writer.u16(reason_code)?;
    writer.bytes(&bssid)
}

/// Data command/event numbers.
#[derive(Clone, Copy, Debug, PartialEq, Eq, Structural)]
pub enum DataCommand {
    ManagementBufferConfig,
    TransmitBuffer,
    TransmitDone,
    ReceiveBuffer,
    CarrierOn,
    CarrierOff,
    PowerManagementMode,
    PowerSaveGetFrames,
}

impl DataCommand {
    /// The wire value.
    pub open spec fn wire(self) -> u32 {
        match self {
            DataCommand::ManagementBufferConfig => 0,
            DataCommand::TransmitBuffer => 1,
            DataCommand::TransmitDone => 2,
            DataCommand::ReceiveBuffer => 3,
            DataCommand::CarrierOn => 4,
            DataCommand::CarrierOff => 5,
            DataCommand::PowerManagementMode => 6,
            DataCommand::PowerSaveGetFrames => 7,
        }
    }

    /// Returns the wire value.
    pub fn code(self) -> (value: u32)
        ensures
            value == self.wire(),
    {
        match self {
            DataCommand::ManagementBufferConfig => 0,
            DataCommand::TransmitBuffer => 1,
            DataCommand::TransmitDone => 2,
            DataCommand::ReceiveBuffer => 3,
            DataCommand::CarrierOn => 4,
            DataCommand::CarrierOff => 5,
            DataCommand::PowerManagementMode => 6,
            DataCommand::PowerSaveGetFrames => 7,
        }
    }
}

/// Packed data-path command header.
#[derive(Clone, Copy, Debug, PartialEq, Eq, Structural)]
pub struct DataHeader {
    pub command: u32,
    pub length: u32,
}

impl DataHeader {
    /// Parses the fixed eight-byte data header.
    pub fn parse(bytes: &[u8]) -> (result: Result<Self, ProtocolError>)
        ensures
            match result {
                Ok(header) => {
                    &&& bytes@.len() >= 8
                    &&& header.command == codec::u32_at(bytes@, 0)
                    &&& header.length == codec::u32_at(bytes@, 4)
                },
                Err(error) => bytes@.len() < 8 && error == ProtocolError::InvalidLength,
            },
    {
        if bytes.len() < 8 {
            return Err(ProtocolError::InvalidLength);
        }
        Ok(DataHeader { command: codec::read_u32(bytes, 0), length: codec::read_u32(bytes, 4) })
    }
}

/// A framed message starts with its whole length, the resubmission flag and the
/// message type, each in four bytes; the payload follows unchanged.
pub proof fn law_host_message_layout(message_type: HostMessageType, resubmit: bool, payload: Seq<u8>)
    requires
        12 + payload.len() <= u32::MAX,
    ensures
        ({
            let message = host_message(message_type, resubmit, payload);
            &&& message.len() == 12 + payload.len()
            &&& codec::u32_at(message, 0) == 12 + payload.len()
            &&& codec::u32_at(message, 4) == (if resubmit { 1int } else { 0int })
            &&& codec::i32_at(message, 8) == (match message_type {
                HostMessageType::System => 0int,
                HostMessageType::Supplicant => 1,
                HostMessageType::Data => 2,
                HostMessageType::Umac => 3,
            })
            &&& message.skip(12) == payload
        }),
{
    let message = host_message(message_type, resubmit, payload);
    assert(codec::u32_at(message, 0) == (12 + payload.len()) as u32) by {
        assert(message.subrange(0, 4) =~= codec::le32((12 + payload.len()) as u32));
        codec::law_u32_round_trip(message, 0, (12 + payload.len()) as u32);
    }
    assert(codec::u32_at(message, 4) == flag(resubmit) as u32) by {
        assert(message.subrange(4, 8) =~= codec::le32(flag(resubmit) as u32));
        codec::law_u32_round_trip(message, 4, flag(resubmit) as u32);
    }
    assert(codec::i32_at(message, 8) == message_type.wire()) by {
        assert(message.subrange(8, 12) =~= codec::le32(message_type.wire() as u32));
        codec::law_i32_round_trip(message, 8, message_type.wire());
    }
    assert(message.skip(12) =~= payload);
}

/// A UMAC command carries its code and the identifiers it names at fixed byte
/// positions behind the message header, in front of the command body.
pub proof fn law_umac_command_layout(command: UmacCommand, ids: InterfaceIds, body: Seq<u8>)
    requires
        48 + body.len() <= u32::MAX,
    ensures
        ({
            let message = umac_command(command, ids, body);
            &&& message.len() == 48 + body.len()
            &&& codec::u32_at(message, 0) == 48 + body.len()
            &&& codec::u32_at(message, 4) == 0
            &&& codec::i32_at(message, 8) == 3
            &&& codec::u32_at(message, 12) == 0
            &&& codec::u32_at(message, 16) == 0
            &&& codec::u32_at(message, 20) == command.wire()
            &&& codec::i32_at(message, 24) == 0
            &&& codec::u32_at(message, 28) == (if ids.wdev_id is Some { 1int } else { 0int }) + 2 * (if ids.ifaceindex is Some { 1int } else { 0int }) + 4
                * (if ids.wiphy_index is Some { 1int } else { 0int })
            &&& codec::i32_at(message, 32) == (match ids.ifaceindex { Some(value) => value, None => 0i32 })
            &&& codec::i32_at(message, 36) == (match ids.wiphy_index { Some(value) => value, None => 0i32 })
            &&& codec::u64_at(message, 40) == (match ids.wdev_id { Some(value) => value, None => 0u64 })
            &&& message.skip(48) == body
        }),
{
    let message = umac_command(command, ids, body);
    assert(codec::u32_at(message, 0) == (48 + body.len()) as u32) by {
        assert(message.subrange(0, 4) =~= codec::le32((48 + body.len()) as u32));
        codec::law_u32_round_trip(message, 0, (48 + body.len()) as u32);
    }
    assert(codec::u32_at(message, 4) == 0) by {
        assert(message.subrange(4, 8) =~= codec::le32(0));
        codec::law_u32_round_trip(message, 4, 0);
    }
    assert(codec::i32_at(message, 8) == 3) by {
        assert(message.subrange(8, 12) =~= codec::le32(3 as u32));
        codec::law_i32_round_trip(message, 8, 3);
    }
    assert(codec::u32_at(message, 12) == 0) by {
        assert(message.subrange(12, 16) =~= codec::le32(0));
        codec::law_u32_round_trip(message, 12, 0);
    }
    assert(codec::u32_at(message, 16) == 0) by {
        assert(message.subrange(16, 20) =~= codec::le32(0));
        codec::law_u32_round_trip(message, 16, 0);
    }
    assert(codec::u32_at(message, 20) == command.wire()) by {
        assert(message.subrange(20, 24) =~= codec::le32(command.wire()));
        codec::law_u32_round_trip(message, 20, command.wire());
    }
    assert(codec::i32_at(message, 24) == 0) by {
        assert(message.subrange(24, 28) =~= codec::le32(0 as u32));
        codec::law_i32_round_trip(message, 24, 0);
    }
    assert(codec::u32_at(message, 28) == ids.mask()) by {
        assert(message.subrange(28, 32) =~= codec::le32(ids.mask()));
        codec::law_u32_round_trip(message, 28, ids.mask());
    }
    assert(codec::i32_at(message, 32) == (match ids.ifaceindex { Some(value) => value, None => 0i32 })) by {
        assert(message.subrange(32, 36) =~= codec::le32((match ids.ifaceindex { Some(value) => value, None => 0i32 }) as u32));
        codec::law_i32_round_trip(message, 32, (match ids.ifaceindex { Some(value) => value, None => 0i32 }));
    }
    assert(codec::i32_at(message, 36) == (match ids.wiphy_index { Some(value) => value, None => 0i32 })) by {
        assert(message.subrange(36, 40) =~= codec::le32((match ids.wiphy_index { Some(value) => value, None => 0i32 }) as u32));
        codec::law_i32_round_trip(message, 36, (match ids.wiphy_index { Some(value) => value, None => 0i32 }));
    }
    assert(codec::u64_at(message, 40) == (match ids.wdev_id { Some(value) => value, None => 0u64 })) by {
        assert(message.subrange(40, 48) =~= codec::le64((match ids.wdev_id { Some(value) => value, None => 0u64 })));
        codec::law_u64_round_trip(message, 40, (match ids.wdev_id { Some(value) => value, None => 0u64 }));
    }
    assert(message.skip(48) =~= body);
}

/// A new-interface body marks the type, address and name as valid and carries
/// them at fixed positions, the name filled up with zeros.
pub proof fn law_new_interface_layout(interface_type: InterfaceType, mac_address: Seq<u8>, interface_name: Seq<u8>)
    requires
        mac_address.len() == 6,
        interface_name.len() <= 16,
    ensures
        ({
            let body = new_interface_body(interface_type, mac_address, interface_name);
            &&& body.len() == 38
            &&& codec::u32_at(body, 0) == 14
            &&& codec::i32_at(body, 4) == interface_type.wire()
            &&& codec::i32_at(body, 8) == 0
            &&& codec::u32_at(body, 12) == 0
            &&& body.subrange(16, 22) == mac_address
            &&& body.subrange(22, 22 + interface_name.len() as int) == interface_name
            &&& forall|i: int| 22 + interface_name.len() <= i < 38 ==> #[trigger] body[i] == 0
        }),
{
    let body = new_interface_body(interface_type, mac_address, interface_name);
    assert(codec::u32_at(body, 0) == 14) by {
        assert(body.subrange(0, 4) =~= codec::le32(14));
        codec::law_u32_round_trip(body, 0, 14);
    }
    assert(codec::i32_at(body, 4) == interface_type.wire()) by {
        assert(body.subrange(4, 8) =~= codec::le32(interface_type.wire() as u32));
        codec::law_i32_round_trip(body, 4, interface_type.wire());
    }
    assert(codec::i32_at(body, 8) == 0) by {
        assert(body.subrange(8, 12) =~= codec::le32(0 as u32));
        codec::law_i32_round_trip(body, 8, 0);
    }
    assert(codec::u32_at(body, 12) == 0) by {
        assert(body.subrange(12, 16) =~= codec::le32(0));
        codec::law_u32_round_trip(body, 12, 0);
    }
    assert(body.subrange(16, 22) =~= mac_address);
    assert(body.subrange(22, 22 + interface_name.len() as int) =~= interface_name);
}

/// A new-interface body has 38 bytes.
pub proof fn lemma_new_interface_len(
    interface_type: InterfaceType,
    mac_address: Seq<u8>,
    interface_name: Seq<u8>,
)
    requires
        mac_address.len() == 6,
        interface_name.len() <= 16,
    ensures
        new_interface_body(interface_type, mac_address, interface_name).len() == 38,
{
}

/// A scan body names every wanted network, dwell time and center frequency at its
/// fixed position; a network slot that is not used is all zero.
pub proof fn law_scan_body_layout(request: &ScanRequest<'_>)
    requires
        request.within_limits(),
    ensures
        ({
            let body = request.body();
            &&& body.len() == 490 + 4 * request.center_frequencies_mhz@.len()
            &&& codec::i32_at(body, 0) == (if request.reason is Display { 0int } else { 1int })
            &&& codec::u16_at(body, 4) == (if request.passive { 1int } else { 0int })
            &&& body[6] == request.ssid_count
            &&& body[7] == request.ssid(0).len()
            &&& body.subrange(8, 8 + request.ssid(0).len() as int) == request.ssid(0)
            &&& forall|i: int| 8 + request.ssid(0).len() <= i < 40 ==> #[trigger] body[i] == 0
            &&& body[40] == request.ssid(1).len()
            &&& body.subrange(41, 41 + request.ssid(1).len() as int) == request.ssid(1)
            &&& forall|i: int| 41 + request.ssid(1).len() <= i < 73 ==> #[trigger] body[i] == 0
            &&& body[73] == (if request.no_cck { 1int } else { 0int })
            &&& body[74] == request.bands
            &&& codec::u16_at(body, 75) == request.information_elements@.len()
            &&& body.subrange(77, 77 + request.information_elements@.len() as int) == request.information_elements@
            &&& forall|i: int| 77 + request.information_elements@.len() <= i < 477 ==> #[trigger] body[i] == 0
            &&& body.subrange(477, 483) == request.mac_address@
            &&& codec::u16_at(body, 483) == request.active_dwell_ms
            &&& codec::u16_at(body, 485) == request.passive_dwell_ms
            &&& codec::u16_at(body, 487) == request.center_frequencies_mhz@.len()
            &&& body[489] == (if request.skip_local_admin_macs { 1int } else { 0int })
            &&& body.skip(490) == codec::le32_list(request.center_frequencies_mhz@)
        }),
{
    let body = request.body();
    codec::lemma_le32_list_len(request.center_frequencies_mhz@);
    assert(codec::i32_at(body, 0) == request.reason.wire()) by {
        assert(body.subrange(0, 4) =~= codec::le32(request.reason.wire() as u32));
        codec::law_i32_round_trip(body, 0, request.reason.wire());
    }
    assert(codec::u16_at(body, 4) == flag(request.passive) as u16) by {
        assert(body.subrange(4, 6) =~= codec::le16(flag(request.passive) as u16));
        codec::law_u16_round_trip(body, 4, flag(request.passive) as u16);
    }
    assert(body.subrange(8, 8 + request.ssid(0).len() as int) =~= request.ssid(0));
    assert(body.subrange(41, 41 + request.ssid(1).len() as int) =~= request.ssid(1));
    assert(codec::u16_at(body, 75) == request.information_elements@.len() as u16) by {
        assert(body.subrange(75, 77) =~= codec::le16(request.information_elements@.len() as u16));
        codec::law_u16_round_trip(body, 75, request.information_elements@.len() as u16);
    }
    assert(body.subrange(77, 77 + request.information_elements@.len() as int) =~= request.information_elements@);
    assert(body.subrange(477, 483) =~= request.mac_address@);
    assert(codec::u16_at(body, 483) == request.active_dwell_ms) by {
        assert(body.subrange(483, 485) =~= codec::le16(request.active_dwell_ms));
        codec::law_u16_round_trip(body, 483, request.active_dwell_ms);
    }
    assert(codec::u16_at(body, 485) == request.passive_dwell_ms) by {
        assert(body.subrange(485, 487) =~= codec::le16(request.passive_dwell_ms));
        codec::law_u16_round_trip(body, 485, request.passive_dwell_ms);
    }
    assert(codec::u16_at(body, 487) == request.center_frequencies_mhz@.len() as u16) by {
        assert(body.subrange(487, 489) =~= codec::le16(request.center_frequencies_mhz@.len() as u16));
        codec::law_u16_round_trip(body, 487, request.center_frequencies_mhz@.len() as u16);
    }
    assert(body.skip(490) =~= codec::le32_list(request.center_frequencies_mhz@));
}

/// The networks that a scan request names are the first of its list, in order.
pub proof fn law_scan_names_its_networks(request: &ScanRequest<'_>)
    requires
        request.ssid_count <= 2,
    ensures
        request.ssid(0) == (if request.ssid_count >= 1 {
            request.ssids@[0]@
        } else {
            Seq::<u8>::empty()
        }),
        request.ssid(1) == (if request.ssid_count == 2 {
            request.ssids@[1]@
        } else {
            Seq::<u8>::empty()
        }),
{
}

/// A deauthenticate body marks the address as valid and carries the local flag,
/// the reason code and the peer address, in this order.
pub proof fn law_deauthenticate_layout(bssid: Seq<u8>, reason_code: u16, local_state_change: bool)
    requires
        bssid.len() == 6,
    ensures
        ({
            let body = deauthenticate_body(bssid, reason_code, local_state_change);
            &&& body.len() == 14
            &&& codec::u32_at(body, 0) == 1
            &&& codec::u16_at(body, 4) == (if local_state_change { 1int } else { 0int })
            &&& codec::u16_at(body, 6) == reason_code
            &&& body.subrange(8, 14) == bssid
        }),
{
    let body = deauthenticate_body(bssid, reason_code, local_state_change);
    assert(codec::u32_at(body, 0) == 1) by {
        assert(body.subrange(0, 4) =~= codec::le32(1));
        codec::law_u32_round_trip(body, 0, 1);
    }
    assert(codec::u16_at(body, 4) == flag(local_state_change) as u16) by {
        assert(body.subrange(4, 6) =~= codec::le16(flag(local_state_change) as u16));
        codec::law_u16_round_trip(body, 4, flag(local_state_change) as u16);
    }
    assert(codec::u16_at(body, 6) == reason_code) by {
        assert(body.subrange(6, 8) =~= codec::le16(reason_code));
        codec::law_u16_round_trip(body, 6, reason_code);
    }
    assert(body.subrange(8, 14) =~= bssid);
}

/// The queue map holds seven pairs of registers, enqueue before dequeue: the event
/// queues, the command queues and one queue for each receive pool.
pub proof fn law_queue_map_layout(bytes: &[u8], info: HpqmInfo)
    requires
        call_ensures(HpqmInfo::parse, (bytes,), Ok::<HpqmInfo, ProtocolError>(info)),
    ensures
        bytes@.len() >= 56,
        info.event_busy.enqueue_address == codec::u32_at(bytes@, 0),
        info.event_busy.dequeue_address == codec::u32_at(bytes@, 4),
        info.event_available.enqueue_address == codec::u32_at(bytes@, 8),
        info.event_available.dequeue_address == codec::u32_at(bytes@, 12),
        info.command_busy.enqueue_address == codec::u32_at(bytes@, 16),
        info.command_busy.dequeue_address == codec::u32_at(bytes@, 20),
        info.command_available.enqueue_address == codec::u32_at(bytes@, 24),
        info.command_available.dequeue_address == codec::u32_at(bytes@, 28),
        info.rx_buffer_busy@[0].enqueue_address == codec::u32_at(bytes@, 32),
        info.rx_buffer_busy@[0].dequeue_address == codec::u32_at(bytes@, 36),
        info.rx_buffer_busy@[1].enqueue_address == codec::u32_at(bytes@, 40),
        info.rx_buffer_busy@[1].dequeue_address == codec::u32_at(bytes@, 44),
        info.rx_buffer_busy@[2].enqueue_address == codec::u32_at(bytes@, 48),
        info.rx_buffer_busy@[2].dequeue_address == codec::u32_at(bytes@, 52),
{
    let queues = info.queues();
    assert(queues[0] == hpq_at(bytes@, 0));
    assert(queues[1] == hpq_at(bytes@, 8));
    assert(queues[2] == hpq_at(bytes@, 16));
    assert(queues[3] == hpq_at(bytes@, 24));
    assert(queues[4] == hpq_at(bytes@, 32));
    assert(queues[5] == hpq_at(bytes@, 40));
    assert(queues[6] == hpq_at(bytes@, 48));
}

/// A UMAC header reads every field from its own place.
pub proof fn law_umac_header_layout(bytes: &[u8], header: UmacHeader)
    requires
        call_ensures(UmacHeader::parse, (bytes,), Ok::<UmacHeader, ProtocolError>(header)),
    ensures
        bytes@.len() >= 36,
        header.port_id == codec::u32_at(bytes@, 0),
        header.sequence == codec::u32_at(bytes@, 4),
        header.command_event == codec::u32_at(bytes@, 8),
        header.result == codec::i32_at(bytes@, 12),
        header.valid_ids == codec::u32_at(bytes@, 16),
        header.ifaceindex == codec::i32_at(bytes@, 20),
        header.wiphy_index == codec::i32_at(bytes@, 24),
        header.wdev_id == codec::u64_at(bytes@, 28),
{
}

/// A message is accepted exactly when its declared length covers the header and
/// stays inside the bytes, and its type is known; the payload is what the declared
/// length covers behind the header.
pub proof fn law_host_messages_are_framed(bytes: Seq<u8>)
    ensures
        parsed_host_message(bytes) is Ok <==> bytes.len() >= 12 && 12 <= codec::u32_at(bytes, 0)
            <= bytes.len() && 0 <= codec::i32_at(bytes, 8) <= 3,
        parsed_host_message(bytes) matches Ok((resubmit, message_type, payload)) ==> {
            &&& resubmit <==> codec::u32_at(bytes, 4) != 0
            &&& message_type.wire() == codec::i32_at(bytes, 8)
            &&& payload == bytes.subrange(12, codec::u32_at(bytes, 0) as int)
        },
        parsed_host_message(bytes) is Err ==> parsed_host_message(bytes) == Err::<
            (bool, HostMessageType, Seq<u8>),
            ProtocolError,
        >(
            if bytes.len() >= 12 && 12 <= codec::u32_at(bytes, 0) <= bytes.len() {
                ProtocolError::InvalidValue(codec::i32_at(bytes, 8) as u32)
            } else {
                ProtocolError::InvalidLength
            },
        ),
{
}

/// What fits is framed: a message is refused exactly when its length does not fit
/// the buffer or the bounds of its kind.
pub proof fn law_oversized_messages_are_refused(out_len: nat, len: nat)
    requires
        out_len <= usize::MAX,
    ensures
        framing_fault(out_len, len) is None <==> 12 + len <= out_len && 12 + len <= u32::MAX,
        framing_fault(out_len, len) == Some(ProtocolError::BufferTooSmall) <==> 12 + len
            <= usize::MAX && (12 + len > out_len || 12 + len > u32::MAX),
        umac_fault(out_len, len) is None <==> 48 + len <= 1024 && 48 + len <= out_len,
        umac_fault(out_len, len) == Some(ProtocolError::LimitExceeded) <==> 36 + len
            <= usize::MAX && 36 + len > 1012,
{
}

/// A system-init message is refused exactly when the receive pools take more than
/// 128 KiB, the reorder buffer holds no frame or more than 64, or the aggregate
/// size is unknown, and otherwise when it does not fit.
pub proof fn law_system_init_limits(out_len: nat, config: SystemInitConfig)
    requires
        out_len <= usize::MAX,
    ensures
        ({
            let pools = config.rx_pools@;
            let total = pools[0].buffer_size * pools[0].buffer_count + pools[1].buffer_size
                * pools[1].buffer_count + pools[2].buffer_size * pools[2].buffer_count;
            let accepted = total <= 128 * 1024 && 0 < config.data.reorder_buffer_size <= 64 && 0
                <= config.data.max_rx_ampdu_size < 4;
            &&& system_init_fault(out_len, config) == Some(ProtocolError::LimitExceeded)
                <==> !accepted
            &&& system_init_fault(out_len, config) is None <==> accepted && out_len >= 378
        }),
{
}

/// A baseline configuration is accepted, keeps its address and RF parameters and
/// starts the firmware with the settings that a station without Bluetooth needs.
pub proof fn law_baseline_is_accepted(
    config: SystemInitConfig,
    mac_address: [u8; 6],
    rf_params: [u8; RF_PARAMS_LEN],
)
    requires
        config.baseline(mac_address, rf_params),
    ensures
        system_init_fault(378, config) is None,
        ({
            let message = host_message(
                HostMessageType::System,
                false,
                system_init_bytes(config),
            );
            &&& message.subrange(48, 54) == mac_address@
            &&& message.subrange(54, 254) == rf_params@
            &&& message[254] == 1
            &&& codec::u32_at(message, 20) == 0
            &&& codec::u32_at(message, 24) == 0
            &&& codec::u32_at(message, 28) == 7300
            &&& codec::u32_at(message, 32) == 5000
            &&& codec::u32_at(message, 36) == 20000
            &&& codec::u32_at(message, 40) == 1
            &&& codec::u32_at(message, 44) == 0x3_007b
            &&& codec::u16_at(message, 255) == 1600
            &&& codec::u16_at(message, 257) == 8
            &&& codec::u16_at(message, 261) == 0
            &&& codec::u16_at(message, 265) == 0
        }),
{
    law_system_init_timing_layout(config);
    law_system_init_radio_layout(config);
}

/// A baseline message enables aggregation and WMM and monitors the temperature and
/// the battery.
pub proof fn law_baseline_data_settings(
    config: SystemInitConfig,
    mac_address: [u8; 6],
    rf_params: [u8; RF_PARAMS_LEN],
)
    requires
        config.baseline(mac_address, rf_params),
    ensures
        ({
            let message = host_message(
                HostMessageType::System,
                false,
                system_init_bytes(config),
            );
            &&& message[267] == 0 && message[268] == 1 && message[269] == 1 && message[270] == 4
            &&& message[271] == 4 && message[272] == 16 && message[273] == 16
            &&& codec::i32_at(message, 274) == 3
            &&& codec::u32_at(message, 278) == 1
            &&& codec::u32_at(message, 282) == 0x7b
            &&& codec::u32_at(message, 286) == 0x20
            &&& codec::u32_at(message, 290) == 0x10_0000
            &&& codec::i32_at(message, 294) == 8
            &&& codec::i32_at(message, 298) == 12
            &&& codec::i32_at(message, 302) == 14
            &&& codec::i32_at(message, 306) == 40
            &&& codec::i32_at(message, 310) == 0
        }),
{
    law_system_init_data_layout(config);
}

/// A baseline message stays in the world regulatory domain and configures no power
/// save or timeout beyond the watchdog.
pub proof fn law_baseline_network_settings(
    config: SystemInitConfig,
    mac_address: [u8; 6],
    rf_params: [u8; RF_PARAMS_LEN],
)
    requires
        config.baseline(mac_address, rf_params),
    ensures
        ({
            let message = host_message(
                HostMessageType::System,
                false,
                system_init_bytes(config),
            );
            &&& message[314] == 0 && message[315] == 0x30 && message[316] == 0x30
            &&& codec::u32_at(message, 317) == 0
            &&& message[321] == 1
            &&& codec::u32_at(message, 322) == 0
            &&& codec::u32_at(message, 326) == 0
            &&& codec::u32_at(message, 330) == 0
            &&& message[334] == 1
            &&& codec::u32_at(message, 335) == 0xff_ffff
        }),
{
    let message = host_message(HostMessageType::System, false, system_init_bytes(config));
    law_system_init_network_layout(config);
    assert(message.subrange(315, 317)[0] == message[315]);
    assert(message.subrange(315, 317)[1] == message[316]);
}

/// A baseline message sends no keep-alive frames and bounds what a scan displays.
pub proof fn law_baseline_scan_settings(
    config: SystemInitConfig,
    mac_address: [u8; 6],
    rf_params: [u8; RF_PARAMS_LEN],
)
    requires
        config.baseline(mac_address, rf_params),
    ensures
        ({
            let message = host_message(
                HostMessageType::System,
                false,
                system_init_bytes(config),
            );
            &&& message[339] == 0
            &&& codec::u32_at(message, 340) == 0
            &&& codec::u32_at(message, 344) == 150
            &&& codec::u32_at(message, 348) == 0
            &&& message[352] == 0
            &&& codec::u32_at(message, 353) == 10
        }),
{
    law_system_init_network_layout(config);
}

/// A baseline message leaves Bluetooth coexistence disabled.
pub proof fn law_baseline_coexistence_settings(
    config: SystemInitConfig,
    mac_address: [u8; 6],
    rf_params: [u8; RF_PARAMS_LEN],
)
    requires
        config.baseline(mac_address, rf_params),
    ensures
        ({
            let message = host_message(
                HostMessageType::System,
                false,
                system_init_bytes(config),
            );
            &&& codec::u32_at(message, 357) == 0
            &&& codec::u32_at(message, 361) == 0
            &&& codec::u32_at(message, 365) == 0
            &&& codec::u32_at(message, 369) == 0
            &&& codec::u32_at(message, 373) == 1
            &&& message[377] == 0
        }),
{
    law_system_init_coexistence_layout(config);
}

/// Every UMAC command has its own code, the one the firmware knows it by.
pub proof fn law_command_codes(left: UmacCommand, right: UmacCommand)
    ensures
        left.wire() == right.wire() <==> left == right,
        UmacCommand::TriggerScan.wire() == 0,
        UmacCommand::GetScanResults.wire() == 1,
        UmacCommand::Authenticate.wire() == 2,
        UmacCommand::Associate.wire() == 3,
        UmacCommand::Deauthenticate.wire() == 4,
        UmacCommand::SetWiphy.wire() == 5,
        UmacCommand::NewKey.wire() == 6,
        UmacCommand::DeleteKey.wire() == 7,
        UmacCommand::SetKey.wire() == 8,
        UmacCommand::NewInterface.wire() == 15,
        UmacCommand::SetInterface.wire() == 16,
        UmacCommand::DeleteInterface.wire() == 17,
        UmacCommand::SetInterfaceFlags.wire() == 18,
        UmacCommand::NewStation.wire() == 19,
        UmacCommand::DeleteStation.wire() == 20,
        UmacCommand::SetStation.wire() == 21,
        UmacCommand::GetStation.wire() == 22,
        UmacCommand::RegisterFrame.wire() == 29,
        UmacCommand::Frame.wire() == 30,
        UmacCommand::SetPowerSave.wire() == 33,
        UmacCommand::GetChannel.wire() == 38,
        UmacCommand::GetTxPower.wire() == 39,
        UmacCommand::GetInterface.wire() == 40,
        UmacCommand::GetWiphy.wire() == 41,
        UmacCommand::GetInterfaceHardwareAddress.wire() == 42,
        UmacCommand::SetInterfaceHardwareAddress.wire() == 43,
        UmacCommand::GetRegulatory.wire() == 44,
        UmacCommand::RequestSetRegulatory.wire() == 46,
        UmacCommand::ConfigureUapsd.wire() == 47,
        UmacCommand::ConfigureTwt.wire() == 48,
        UmacCommand::TeardownTwt.wire() == 49,
        UmacCommand::AbortScan.wire() == 50,
        UmacCommand::MulticastFilter.wire() == 51,
        UmacCommand::ChangeMacAddress.wire() == 52,
        UmacCommand::SetPowerSaveTimeout.wire() == 53,
        UmacCommand::GetConnectionInfo.wire() == 54,
        UmacCommand::GetPowerSaveInfo.wire() == 55,
        UmacCommand::SetListenInterval.wire() == 56,
        UmacCommand::ConfigureExtendedPowerSave.wire() == 57,
        UmacCommand::ConfigureQuietPeriod.wire() == 58,
        UmacCommand::PowerSaveExitStrategy.wire() == 59,
{
}

/// Every UMAC event has its own code, the one the firmware reports it with.
pub proof fn law_event_codes(left: UmacEvent, right: UmacEvent)
    ensures
        left.wire() == right.wire() <==> left == right,
        UmacEvent::Unspecified.wire() == 256,
        UmacEvent::ScanStarted.wire() == 257,
        UmacEvent::ScanAborted.wire() == 258,
        UmacEvent::ScanDone.wire() == 259,
        UmacEvent::ScanResult.wire() == 260,
        UmacEvent::Authenticate.wire() == 261,
        UmacEvent::Associate.wire() == 262,
        UmacEvent::Connect.wire() == 263,
        UmacEvent::Deauthenticate.wire() == 264,
        UmacEvent::Disassociate.wire() == 265,
        UmacEvent::NewStation.wire() == 266,
        UmacEvent::DeleteStation.wire() == 267,
        UmacEvent::GetStation.wire() == 268,
        UmacEvent::Disconnect.wire() == 271,
        UmacEvent::Frame.wire() == 272,
        UmacEvent::FrameCookie.wire() == 273,
        UmacEvent::FrameTxStatus.wire() == 274,
        UmacEvent::InterfaceFlagsStatus.wire() == 275,
        UmacEvent::NewInterface.wire() == 281,
        UmacEvent::GetInterfaceHardwareAddress.wire() == 283,
        UmacEvent::GetRegulatory.wire() == 284,
        UmacEvent::ScanDisplayResult.wire() == 291,
        UmacEvent::CommandStatus.wire() == 292,
        UmacEvent::BssInfo.wire() == 293,
        UmacEvent::TwtConfigured.wire() == 294,
        UmacEvent::TwtTornDown.wire() == 295,
        UmacEvent::TwtSleep.wire() == 296,
{
}

/// Every interface type has its own code.
pub proof fn law_interface_type_codes(left: InterfaceType, right: InterfaceType)
    ensures
        left.wire() == right.wire() <==> left == right,
        InterfaceType::Unspecified.wire() == 0,
        InterfaceType::AdHoc.wire() == 1,
        InterfaceType::Station.wire() == 2,
        InterfaceType::AccessPoint.wire() == 3,
        InterfaceType::ApVlan.wire() == 4,
        InterfaceType::Wds.wire() == 5,
        InterfaceType::Monitor.wire() == 6,
        InterfaceType::Mesh.wire() == 7,
        InterfaceType::P2pClient.wire() == 8,
        InterfaceType::P2pGroupOwner.wire() == 9,
        InterfaceType::P2pDevice.wire() == 10,
{
}

/// Every data command has its own code.
pub proof fn law_data_command_codes(left: DataCommand, right: DataCommand)
    ensures
        left.wire() == right.wire() <==> left == right,
        DataCommand::ManagementBufferConfig.wire() == 0,
        DataCommand::TransmitBuffer.wire() == 1,
        DataCommand::TransmitDone.wire() == 2,
        DataCommand::ReceiveBuffer.wire() == 3,
        DataCommand::CarrierOn.wire() == 4,
        DataCommand::CarrierOff.wire() == 5,
        DataCommand::PowerManagementMode.wire() == 6,
        DataCommand::PowerSaveGetFrames.wire() == 7,
{
}

/// Every message type has its own code.
pub proof fn law_message_type_codes(left: HostMessageType, right: HostMessageType)
    ensures
        left.wire() == right.wire() <==> left == right,
        HostMessageType::System.wire() == 0,
        HostMessageType::Supplicant.wire() == 1,
        HostMessageType::Data.wire() == 2,
        HostMessageType::Umac.wire() == 3,
{
}

/// The message names the command `code` and the wireless device `wdev_id` alone.
pub open spec fn names_command(message: Seq<u8>, code: int, wdev_id: u32) -> bool {
    &&& codec::i32_at(message, 8) == 3
    &&& codec::u32_at(message, 20) == code
    &&& codec::u32_at(message, 28) == 1
    &&& codec::i32_at(message, 32) == 0
    &&& codec::i32_at(message, 36) == 0
    &&& codec::u64_at(message, 40) == wdev_id
}

/// A buffer that starts with a command for one device names both, and carries the
/// command's body from byte 48 on.
pub broadcast proof fn lemma_written_command(
    command: UmacCommand,
    wdev_id: u32,
    body: Seq<u8>,
    rest: Seq<u8>,
)
    ensures
        #![trigger umac_command(command, wdev_ids(wdev_id), body) + rest]
        names_command(
            umac_command(command, wdev_ids(wdev_id), body) + rest,
            command.wire() as int,
            wdev_id,
        ),
        (umac_command(command, wdev_ids(wdev_id), body) + rest).subrange(
            48,
            48 + body.len() as int,
        ) == body,
{
    let ids = wdev_ids(wdev_id);
    let bytes = umac_command(command, ids, body) + rest;
    assert(bytes.subrange(8, 12) =~= codec::le32(3));
    codec::law_i32_round_trip(bytes, 8, 3);
    assert(bytes.subrange(20, 24) =~= codec::le32(command.wire()));
    codec::law_u32_round_trip(bytes, 20, command.wire());
    assert(bytes.subrange(28, 32) =~= codec::le32(1));
    codec::law_u32_round_trip(bytes, 28, 1);
    assert(bytes.subrange(32, 36) =~= codec::le32(0));
    codec::law_i32_round_trip(bytes, 32, 0);
    assert(bytes.subrange(36, 40) =~= codec::le32(0));
    codec::law_i32_round_trip(bytes, 36, 0);
    assert(bytes.subrange(40, 48) =~= codec::le64(wdev_id as u64));
    codec::law_u64_round_trip(bytes, 40, wdev_id as u64);
    assert(bytes.subrange(48, 48 + body.len() as int) =~= body);
}

/// A buffer that starts with a command names it and the identifiers it is for.
pub broadcast proof fn lemma_written_code(
    command: UmacCommand,
    ids: InterfaceIds,
    body: Seq<u8>,
    rest: Seq<u8>,
)
    ensures
        #![trigger umac_command(command, ids, body) + rest]
        codec::u32_at(umac_command(command, ids, body) + rest, 20) == command.wire(),
        codec::u32_at(umac_command(command, ids, body) + rest, 28) == ids.mask(),
{
    let bytes = umac_command(command, ids, body) + rest;
    assert(bytes.subrange(20, 24) =~= codec::le32(command.wire()));
    codec::law_u32_round_trip(bytes, 20, command.wire());
    assert(bytes.subrange(28, 32) =~= codec::le32(ids.mask()));
    codec::law_u32_round_trip(bytes, 28, ids.mask());
}

/// An encoded system-init message holds the configured MAC address at body bytes 36
/// to 42 and the RF parameters at body bytes 42 to 242; the body starts at message
/// byte 12.
pub proof fn law_encoded_system_init(config: &SystemInitConfig, len: usize)
    ensures
        forall|out: &mut [u8]| #[trigger]
            call_ensures(encode_system_init, (out, config), Ok::<usize, ProtocolError>(len)) ==> {
                let message = final(out)@.subrange(0, 378);
                &&& len == 378
                &&& codec::u32_at(message, 0) == 378
                &&& codec::i32_at(message, 8) == 0
                &&& message.subrange(48, 54) == config.mac_address@
                &&& message.subrange(54, 254) == config.rf_params@
                &&& codec::u32_at(message, 20) == config.wdev_id
                &&& message.subrange(315, 317) == config.country_code@
            },
{
    let image = host_message(HostMessageType::System, false, system_init_bytes(*config));
    lemma_system_init_lengths(*config);
    assert(image.len() == 378);
    assert forall|out: &mut [u8]| #[trigger]
        call_ensures(encode_system_init, (out, config), Ok::<usize, ProtocolError>(len)) implies {
        let message = final(out)@.subrange(0, 378);
        &&& len == 378
        &&& codec::u32_at(message, 0) == 378
        &&& codec::i32_at(message, 8) == 0
        &&& message.subrange(48, 54) == config.mac_address@
        &&& message.subrange(54, 254) == config.rf_params@
        &&& codec::u32_at(message, 20) == config.wdev_id
        &&& message.subrange(315, 317) == config.country_code@
    } by {
        assert(final(out)@.subrange(0, 378) =~= image);
        law_host_message_layout(HostMessageType::System, false, system_init_bytes(*config));
        law_system_init_timing_layout(*config);
        law_system_init_radio_layout(*config);
        law_system_init_network_layout(*config);
    }
}

/// A message that was written starts the buffer and leaves the rest of it alone; a
/// refused one leaves all of it alone.
pub proof fn law_encoders_write_the_message_alone(
    result: Result<usize, ProtocolError>,
    before: Seq<u8>,
    after: Seq<u8>,
    message: Seq<u8>,
    fault: Option<ProtocolError>,
)
    requires
        written_to(result, before, after, message, fault),
    ensures
        result matches Ok(len) ==> {
            &&& fault is None
            &&& len == message.len()
            &&& after.len() == before.len()
            &&& after.subrange(0, len as int) == message
            &&& after.skip(len as int) == before.skip(len as int)
        },
        result matches Err(error) ==> fault == Some(error) && after == before,
{
    if let Ok(len) = result {
        assert(after.subrange(0, len as int) =~= message);
        assert(after.skip(len as int) =~= before.skip(len as int));
    }
}

} // verus!
