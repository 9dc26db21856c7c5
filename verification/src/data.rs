//! Packet-RAM allocation, data descriptors and frame conversion.

use vstd::prelude::*;

use crate::bridge;
use crate::codec;
use crate::codec::Writer;
use crate::device;
use crate::device::{Device, DeviceError};
use crate::memory;
use crate::memory::{Processor, RpuError, RpuRequest};
use crate::protocol::{DataCommand, HostMessageRef, HostMessageType, Hpq};

verus! {

broadcast use crate::codec::group_image_lengths;

/// First packet byte available to the host driver.
pub const RPU_MEM_PACKET_BASE: u32 = 0xb000_5000;

/// Last byte in the nRF7002 packet RAM.
pub const RPU_MEM_PACKET_END: u32 = 0xb003_0fff;

/// Packet RAM bytes available to host RX and TX buffers.
pub const RPU_PACKET_RAM_SIZE: usize = 180_224;

/// Headroom stored before each RX packet.
pub const RX_BUFFER_HEADROOM: usize = 4;

/// Spacing reserved after each TX packet.
pub const TX_BUFFER_HEADROOM: usize = 52;

/// Bytes between LMAC RX command slots.
pub const RX_COMMAND_SLOT_SIZE: u32 = 8;

/// Bytes between UMAC TX command slots.
pub const TX_COMMAND_SLOT_SIZE: u32 = 148;

/// Maximum number of TX command slots before packet data starts.
pub const MAX_TX_TOKENS: usize = 137;

/// Ethernet header bytes.
pub const ETHERNET_HEADER_LEN: usize = 14;

/// EAPOL EtherType.
pub const EAPOL_ETHERTYPE: u16 = 0x888e;

/// Length of an RX event without its packet array.
pub const RX_EVENT_FIXED_LEN: usize = 20;

/// Length of one entry of the packet array.
pub const RX_INFO_LEN: usize = 17;

/// Length of a TX-done event without its status array.
pub const TX_DONE_FIXED_LEN: usize = 22;

/// Length of a TX command without the host header.
pub const TX_COMMAND_PAYLOAD_LEN: usize = 47;

/// Length of a TX command.
pub const TX_COMMAND_TOTAL_LEN: usize = 59;

/// RX payload representation selected by firmware.
#[derive(Clone, Copy, Debug, PartialEq, Eq, Structural)]
pub enum RxPayloadType {
    /// 802.11 MPDU with MAC and LLC headers.
    Mpdu,
    /// MSDU with a MAC header before the A-MSDU header.
    MsduWithMac,
    /// A-MSDU style Ethernet payload.
    Msdu,
}

/// The payload representation of a wire value.
pub open spec fn payload_type_of(value: u8) -> Option<RxPayloadType> {
    if value == 0 {
        Some(RxPayloadType::Mpdu)
    } else if value == 1 {
        Some(RxPayloadType::MsduWithMac)
    } else if value == 2 {
        Some(RxPayloadType::Msdu)
    } else {
        None
    }
}

impl RxPayloadType {
    /// Decodes a wire value.
    pub fn from_u8(value: u8) -> (result: Result<Self, DataProtocolError>)
        ensures
            match result {
                Ok(payload_type) => payload_type_of(value) == Some(payload_type),
                Err(error) => payload_type_of(value) is None && error
                    == DataProtocolError::InvalidRxPayloadType(value),
            },
    {
        match value {
            0 => Ok(RxPayloadType::Mpdu),
            1 => Ok(RxPayloadType::MsduWithMac),
            2 => Ok(RxPayloadType::Msdu),
            _ => Err(DataProtocolError::InvalidRxPayloadType(value)),
        }
    }
}

/// Data-path configuration error.
#[derive(Clone, Copy, Debug, PartialEq, Eq, Structural)]
pub enum DataLayoutError {
    /// A pool has zero capacity or exceeds a wire or command-area limit.
    InvalidCapacity,
    /// Configured TX and RX storage overlap in packet RAM.
    PacketRamExhausted,
}

/// Malformed data event or Ethernet frame.
#[derive(Clone, Copy, Debug, PartialEq, Eq, Structural)]
pub enum DataProtocolError {
    WrongMessageType,
    InvalidLength,
    InvalidCommand(u32),
    InvalidDescriptor(u16),
    InvalidPacketIndex,
    InvalidRxPayloadType(u8),
    FrameTooShort,
    FrameTooLarge,
}

/// Data operation failure.
#[derive(Debug)]
pub enum DataError<E> {
    Device(DeviceError<E>),
    Rpu(RpuError<E>),
    Protocol(DataProtocolError),
    /// A queue write failed after firmware ownership could have changed.
    QueueOwnershipUncertain(DeviceError<E>),
    NoTransmitToken,
    ReceiveDescriptorBusy(u16),
    OutputTooSmall { needed: usize, capacity: usize },
}

impl<E> vstd::std_specs::convert::FromSpecImpl<DeviceError<E>> for DataError<E> {
    open spec fn obeys_from_spec() -> bool {
        true
    }

    open spec fn from_spec(value: DeviceError<E>) -> Self {
        DataError::Device(value)
    }
}

impl<E> From<DeviceError<E>> for DataError<E> {
    fn from(value: DeviceError<E>) -> (error: Self) {
        DataError::Device(value)
    }
}

impl<E> vstd::std_specs::convert::FromSpecImpl<RpuError<E>> for DataError<E> {
    open spec fn obeys_from_spec() -> bool {
        true
    }

    open spec fn from_spec(value: RpuError<E>) -> Self {
        DataError::Rpu(value)
    }
}

impl<E> From<RpuError<E>> for DataError<E> {
    fn from(value: RpuError<E>) -> (error: Self) {
        DataError::Rpu(value)
    }
}

/// One RX packet reference inside a data event.
#[derive(Clone, Copy, Debug, PartialEq, Eq, Structural)]
pub struct RxPacketInfo {
    pub descriptor_id: u16,
    pub packet_len: u16,
    pub payload_type: RxPayloadType,
}

/// Why a data message with this command and minimum length is refused, if it
/// is.
pub open spec fn data_fault(
    message_type: HostMessageType,
    payload: Seq<u8>,
    command: DataCommand,
    minimum_len: int,
) -> Option<DataProtocolError> {
    if message_type != HostMessageType::Data {
        Some(DataProtocolError::WrongMessageType)
    } else if payload.len() < minimum_len {
        Some(DataProtocolError::InvalidLength)
    } else if codec::u32_at(payload, 0) != command.wire() {
        Some(DataProtocolError::InvalidCommand(codec::u32_at(payload, 0)))
    } else if codec::u32_at(payload, 4) < minimum_len || codec::u32_at(payload, 4)
        > payload.len() {
        Some(DataProtocolError::InvalidLength)
    } else {
        None
    }
}

fn validated_data_payload<'a>(
    message: HostMessageRef<'a>,
    expected_command: DataCommand,
    minimum_len: usize,
) -> (result: Result<(&'a [u8], usize), DataProtocolError>)
    requires
        minimum_len >= 8,
    ensures
        match result {
            Ok((payload, declared)) => {
                &&& data_fault(
                    message.message_type,
                    message.payload@,
                    expected_command,
                    minimum_len as int,
                ) is None
                &&& payload@ == message.payload@
                &&& declared == codec::u32_at(payload@, 4)
            },
            Err(error) => data_fault(
                message.message_type,
                message.payload@,
                expected_command,
                minimum_len as int,
            ) == Some(error),
        },
{
    if message.message_type != HostMessageType::Data {
        return Err(DataProtocolError::WrongMessageType);
    }
    let payload = message.payload;
    if payload.len() < minimum_len {
        return Err(DataProtocolError::InvalidLength);
    }
    let command: u32 = codec::read_u32(payload, 0);
    if command != expected_command.code() {
        return Err(DataProtocolError::InvalidCommand(command));
    }
    let declared: usize = codec::read_u32(payload, 4) as usize;
    if declared < minimum_len || declared > payload.len() {
        return Err(DataProtocolError::InvalidLength);
    }
    Ok((payload, declared))
}

/// Borrowed view of one firmware RX event.
#[derive(Clone, Copy, Debug, PartialEq, Eq)]
pub struct RxEventRef<'a> {
    pub payload: &'a [u8],
    pub rx_packet_type: i16,
    pub rate_flags: u8,
    pub rate: u8,
    pub wdev_id: u8,
    pub packet_count: u8,
    pub mac_header_len: u8,
    pub frequency_mhz: u16,
    pub signal_dbm: i16,
}

/// Why an RX event is refused, if it is: a malformed message, or a packet
/// array that is longer than the declared length.
pub open spec fn rx_event_fault(message_type: HostMessageType, payload: Seq<u8>) -> Option<
    DataProtocolError,
> {
    match data_fault(
        message_type,
        payload,
        DataCommand::ReceiveBuffer,
        RX_EVENT_FIXED_LEN as int,
    ) {
        Some(error) => Some(error),
        None => if RX_EVENT_FIXED_LEN + RX_INFO_LEN * payload[13] > codec::u32_at(payload, 4) {
            Some(DataProtocolError::InvalidLength)
        } else {
            None
        },
    }
}

impl<'a> RxEventRef<'a> {
    /// The packet array lies inside the payload.
    pub open spec fn wf(&self) -> bool {
        RX_EVENT_FIXED_LEN + RX_INFO_LEN * self.packet_count <= self.payload@.len()
    }

    /// Whether the event is the reading of a payload.
    pub open spec fn reads(&self, payload: Seq<u8>) -> bool {
        &&& self.payload@ == payload.subrange(0, codec::u32_at(payload, 4) as int)
        &&& self.rx_packet_type == codec::i16_at(payload, 8)
        &&& self.rate_flags == payload[10]
        &&& self.rate == payload[11]
        &&& self.wdev_id == payload[12]
        &&& self.packet_count == payload[13]
        &&& self.mac_header_len == payload[15]
        &&& self.frequency_mhz == codec::u16_at(payload, 16)
        &&& self.signal_dbm == codec::i16_at(payload, 18)
    }

    /// The descriptor of one packet.
    pub open spec fn packet_at(&self, index: int) -> Result<RxPacketInfo, DataProtocolError> {
        let offset = RX_EVENT_FIXED_LEN + index * RX_INFO_LEN;
        if index >= self.packet_count {
            Err(DataProtocolError::InvalidPacketIndex)
        } else if payload_type_of(self.payload@[offset + 4]) is None {
            Err(DataProtocolError::InvalidRxPayloadType(self.payload@[offset + 4]))
        } else {
            Ok(
                RxPacketInfo {
                    descriptor_id: codec::u16_at(self.payload@, offset),
                    packet_len: codec::u16_at(self.payload@, offset + 2),
                    payload_type: payload_type_of(self.payload@[offset + 4])->0,
                },
            )
        }
    }

    /// Parses `NRF_WIFI_CMD_RX_BUFF`.
    pub fn parse(message: HostMessageRef<'a>) -> (result: Result<Self, DataProtocolError>)
        ensures
            match result {
                Ok(event) => rx_event_fault(message.message_type, message.payload@) is None
                    && event.reads(message.payload@) && event.wf(),
                Err(error) => rx_event_fault(message.message_type, message.payload@) == Some(error),
            },
    {
        let (payload, declared) = validated_data_payload(
            message,
            DataCommand::ReceiveBuffer,
            RX_EVENT_FIXED_LEN,
        )?;
        let packet_count: u8 = payload[13];
        validate_rx_packet_array(declared, packet_count)?;
        Ok(
            RxEventRef {
                payload: &payload[0..declared],
                rx_packet_type: codec::read_i16(payload, 8),
                rate_flags: payload[10],
                rate: payload[11],
                wdev_id: payload[12],
                packet_count,
                mac_header_len: payload[15],
                frequency_mhz: codec::read_u16(payload, 16),
                signal_dbm: codec::read_i16(payload, 18),
            },
        )
    }

    /// Returns one packet descriptor.
    pub fn packet(&self, index: usize) -> (result: Result<RxPacketInfo, DataProtocolError>)
        requires
            self.wf(),
        ensures
            result == self.packet_at(index as int),
    {
        if index >= self.packet_count as usize {
            return Err(DataProtocolError::InvalidPacketIndex);
        }
        assert(self.payload.len() >= RX_EVENT_FIXED_LEN + RX_INFO_LEN * self.packet_count);
        let offset: usize = RX_EVENT_FIXED_LEN + index * RX_INFO_LEN;
        let payload_type = RxPayloadType::from_u8(self.payload[offset + 4])?;
        Ok(
            RxPacketInfo {
                descriptor_id: codec::read_u16(self.payload, offset),
                packet_len: codec::read_u16(self.payload, offset + 2),
                payload_type,
            },
        )
    }
}

fn validate_rx_packet_array(declared: usize, packet_count: u8) -> (result: Result<
    (),
    DataProtocolError,
>)
    ensures
        result == (if RX_EVENT_FIXED_LEN + RX_INFO_LEN * packet_count > declared {
            Err(DataProtocolError::InvalidLength)
        } else {
            Ok(())
        }),
{
    let required: usize = RX_EVENT_FIXED_LEN + packet_count as usize * RX_INFO_LEN;
    if required > declared {
        return Err(DataProtocolError::InvalidLength);
    }
    Ok(())
}

/// Borrowed view of one firmware TX-done event.
#[derive(Clone, Copy, Debug, PartialEq, Eq)]
pub struct TxDoneEventRef<'a> {
    /// Descriptor token released by firmware.
    pub token: u8,
    /// Per-packet firmware status bytes. Zero means success.
    pub statuses: &'a [u8],
}

/// Why a TX-done event is refused, if it is: a malformed message, or a status
/// array that does not end at the declared length.
pub open spec fn tx_done_fault(message_type: HostMessageType, payload: Seq<u8>) -> Option<
    DataProtocolError,
> {
    match data_fault(
        message_type,
        payload,
        DataCommand::TransmitDone,
        TX_DONE_FIXED_LEN as int,
    ) {
        Some(error) => Some(error),
        None => if codec::u32_at(payload, 4) != TX_DONE_FIXED_LEN + payload[9] {
            Some(DataProtocolError::InvalidLength)
        } else {
            None
        },
    }
}

impl<'a> TxDoneEventRef<'a> {
    /// Whether the event is the reading of a payload.
    pub open spec fn reads(&self, payload: Seq<u8>) -> bool {
        &&& self.token == payload[8]
        &&& self.statuses@ == payload.subrange(
            TX_DONE_FIXED_LEN as int,
            TX_DONE_FIXED_LEN + payload[9],
        )
    }

    /// Parses `NRF_WIFI_CMD_TX_BUFF_DONE` and validates its status array.
    pub fn parse(message: HostMessageRef<'a>) -> (result: Result<Self, DataProtocolError>)
        ensures
            match result {
                Ok(event) => tx_done_fault(message.message_type, message.payload@) is None
                    && event.reads(message.payload@) && event.statuses@.len() <= 255,
                Err(error) => tx_done_fault(message.message_type, message.payload@) == Some(error),
            },
    {
        let (payload, declared) = validated_data_payload(
            message,
            DataCommand::TransmitDone,
            TX_DONE_FIXED_LEN,
        )?;
        let required: usize = TX_DONE_FIXED_LEN + payload[9] as usize;
        if declared != required {
            return Err(DataProtocolError::InvalidLength);
        }
        Ok(TxDoneEventRef { token: payload[8], statuses: &payload[TX_DONE_FIXED_LEN..required] })
    }

    /// Returns true only when all packet status bytes report success.
    pub fn all_succeeded(&self) -> (succeeded: bool)
        ensures
            succeeded == (self.statuses@.len() > 0 && forall|i: int|
                0 <= i < self.statuses@.len() ==> self.statuses@[i] == 0),
    {
        if self.statuses.len() == 0 {
            return false;
        }
        let mut i: usize = 0;
        while i < self.statuses.len()
            invariant
                i <= self.statuses@.len(),
                forall|j: int| 0 <= j < i ==> self.statuses@[j] == 0,
            decreases self.statuses@.len() - i,
        {
            if self.statuses[i] != 0 {
                return false;
            }
            i = i + 1;
        }
        true
    }
}

/// Data event category that does not require an RX-packet parser.
#[derive(Clone, Copy, Debug, PartialEq, Eq, Structural)]
pub enum DataEvent {
    TransmitDone { token: u8, status_count: u8 },
    CarrierOn { wdev_id: u32 },
    CarrierOff { wdev_id: u32 },
    Receive,
    Other(u32),
}

/// The category of a data message.
pub open spec fn classified(message_type: HostMessageType, payload: Seq<u8>) -> Result<
    DataEvent,
    DataProtocolError,
> {
    let command = codec::u32_at(payload, 0);
    let declared = codec::u32_at(payload, 4);
    if message_type != HostMessageType::Data {
        Err(DataProtocolError::WrongMessageType)
    } else if payload.len() < 8 || declared < 8 || declared > payload.len() {
        Err(DataProtocolError::InvalidLength)
    } else if command == DataCommand::TransmitDone.wire() {
        match tx_done_fault(message_type, payload) {
            Some(error) => Err(error),
            None => Ok(DataEvent::TransmitDone { token: payload[8], status_count: payload[9] }),
        }
    } else if command == DataCommand::ReceiveBuffer.wire() {
        Ok(DataEvent::Receive)
    } else if command == DataCommand::CarrierOn.wire() || command
        == DataCommand::CarrierOff.wire() {
        if declared < 12 {
            Err(DataProtocolError::InvalidLength)
        } else if command == DataCommand::CarrierOn.wire() {
            Ok(DataEvent::CarrierOn { wdev_id: codec::u32_at(payload, 8) })
        } else {
            Ok(DataEvent::CarrierOff { wdev_id: codec::u32_at(payload, 8) })
        }
    } else {
        Ok(DataEvent::Other(command))
    }
}

/// Classifies one data event.
pub fn classify_data_event(message: HostMessageRef<'_>) -> (result: Result<
    DataEvent,
    DataProtocolError,
>)
    ensures
        result == classified(message.message_type, message.payload@),
{
    if message.message_type != HostMessageType::Data {
        return Err(DataProtocolError::WrongMessageType);
    }
    if message.payload.len() < 8 {
        return Err(DataProtocolError::InvalidLength);
    }
    let command: u32 = codec::read_u32(message.payload, 0);
    let declared: usize = codec::read_u32(message.payload, 4) as usize;
    if declared < 8 || declared > message.payload.len() {
        return Err(DataProtocolError::InvalidLength);
    }
    match command {
        2 => {
            let event = TxDoneEventRef::parse(message)?;
            Ok(
                DataEvent::TransmitDone {
                    token: event.token,
                    status_count: event.statuses.len() as u8,
                },
            )
        },
        3 => Ok(DataEvent::Receive),
        4 => classify_carrier(message.payload, declared, true),
        5 => classify_carrier(message.payload, declared, false),
        other => Ok(DataEvent::Other(other)),
    }
}

fn classify_carrier(payload: &[u8], declared: usize, on: bool) -> (result: Result<
    DataEvent,
    DataProtocolError,
>)
    requires
        declared <= payload@.len(),
    ensures
        result == (if declared < 12 {
            Err(DataProtocolError::InvalidLength)
        } else if on {
            Ok(DataEvent::CarrierOn { wdev_id: codec::u32_at(payload@, 8) })
        } else {
            Ok(DataEvent::CarrierOff { wdev_id: codec::u32_at(payload@, 8) })
        }),
{
    if declared < 12 {
        return Err(DataProtocolError::InvalidLength);
    }
    let wdev_id: u32 = codec::read_u32(payload, 8);
    if on {
        Ok(DataEvent::CarrierOn { wdev_id })
    } else {
        Ok(DataEvent::CarrierOff { wdev_id })
    }
}

/// The EtherType behind an LLC header at `offset`.
pub open spec fn llc_type(frame: Seq<u8>, offset: int) -> Result<u16, DataProtocolError> {
    if offset + 8 > usize::MAX {
        Err(DataProtocolError::InvalidLength)
    } else if offset + 8 > frame.len() {
        Err(DataProtocolError::FrameTooShort)
    } else {
        Ok(codec::be16_at(frame, offset + 6))
    }
}

/// Reads the EtherType behind an LLC header at `offset`.
pub fn llc_ether_type(frame: &[u8], offset: usize) -> (result: Result<u16, DataProtocolError>)
    ensures
        result == llc_type(frame@, offset as int),
{
    let end: usize = match offset.checked_add(8) {
        Some(end) => end,
        None => return Err(DataProtocolError::InvalidLength),
    };
    if end > frame.len() {
        return Err(DataProtocolError::FrameTooShort);
    }
    Ok(codec::read_be16(frame, offset + 6))
}

/// Bytes between the start of the LLC header and the payload: the whole
/// header in front of an EtherType, only the length field in front of an
/// 802.3 length.
pub open spec fn llc_skip_of(ether_type: u16) -> int {
    if ether_type >= 0x0600 {
        8
    } else {
        2
    }
}

/// Returns the bytes between the start of the LLC header and the payload.
pub fn llc_skip(ether_type: u16) -> (skip: usize)
    ensures
        skip == llc_skip_of(ether_type),
{
    if ether_type >= 0x0600 {
        8
    } else {
        2
    }
}

/// Whether a frame control field has the to-DS bit.
pub open spec fn to_ds(frame_control: u16) -> bool {
    frame_control / 0x0100 % 2 == 1
}

/// Whether a frame control field has the from-DS bit.
pub open spec fn from_ds(frame_control: u16) -> bool {
    frame_control / 0x0200 % 2 == 1
}

/// The destination and source addresses of an 802.11 data frame.
pub open spec fn addresses_of(frame: Seq<u8>, frame_control: u16) -> Result<
    (Seq<u8>, Seq<u8>),
    DataProtocolError,
> {
    let address1 = frame.subrange(4, 10);
    let address2 = frame.subrange(10, 16);
    let address3 = frame.subrange(16, 22);
    if frame.len() < 24 {
        Err(DataProtocolError::FrameTooShort)
    } else if to_ds(frame_control) && from_ds(frame_control) {
        if frame.len() < 30 {
            Err(DataProtocolError::FrameTooShort)
        } else {
            Ok((address3, frame.subrange(24, 30)))
        }
    } else if to_ds(frame_control) {
        Ok((address3, address2))
    } else if from_ds(frame_control) {
        Ok((address1, address3))
    } else {
        Ok((address1, address2))
    }
}

/// Reads the destination and source addresses of an 802.11 data frame.
pub fn ieee80211_addresses(frame: &[u8], frame_control: u16) -> (result: Result<
    ([u8; 6], [u8; 6]),
    DataProtocolError,
>)
    ensures
        match result {
            Ok((destination, source)) => addresses_of(frame@, frame_control) == Ok::<
                (Seq<u8>, Seq<u8>),
                DataProtocolError,
            >((destination@, source@)),
            Err(error) => addresses_of(frame@, frame_control) == Err::<
                (Seq<u8>, Seq<u8>),
                DataProtocolError,
            >(error),
        },
{
    if frame.len() < 24 {
        return Err(DataProtocolError::FrameTooShort);
    }
    let address1 = bridge::mac_at(frame, 4);
    let address2 = bridge::mac_at(frame, 10);
    let address3 = bridge::mac_at(frame, 16);
    let to: bool = frame_control / 0x0100 % 2 == 1;
    let from: bool = frame_control / 0x0200 % 2 == 1;
    if to && from {
        if frame.len() < 30 {
            return Err(DataProtocolError::FrameTooShort);
        }
        return Ok((address3, bridge::mac_at(frame, 24)));
    }
    if to {
        Ok((address3, address2))
    } else if from {
        Ok((address1, address3))
    } else {
        Ok((address1, address2))
    }
}

/// An Ethernet frame.
pub open spec fn ethernet_frame(
    destination: Seq<u8>,
    source: Seq<u8>,
    ether_type: u16,
    payload: Seq<u8>,
) -> Seq<u8> {
    destination + source + codec::be16(ether_type) + payload
}

/// The Ethernet frame that replaces a received one whose payload starts at
/// `payload_offset`. It must not be longer.
pub open spec fn rebuilt(
    frame: Seq<u8>,
    payload_offset: int,
    destination: Seq<u8>,
    source: Seq<u8>,
    ether_type: u16,
) -> Result<Seq<u8>, DataProtocolError> {
    if payload_offset > frame.len() {
        Err(DataProtocolError::FrameTooShort)
    } else if ETHERNET_HEADER_LEN + frame.len() - payload_offset > usize::MAX {
        Err(DataProtocolError::InvalidLength)
    } else if payload_offset < ETHERNET_HEADER_LEN {
        Err(DataProtocolError::FrameTooLarge)
    } else {
        Ok(ethernet_frame(destination, source, ether_type, frame.skip(payload_offset)))
    }
}

/// The outcome of converting a frame in place: the new frame stands at the
/// front, the bytes behind it and a refused frame are as they were.
pub open spec fn converted(
    result: Result<usize, DataProtocolError>,
    before: Seq<u8>,
    after: Seq<u8>,
    expected: Result<Seq<u8>, DataProtocolError>,
) -> bool {
    match expected {
        Ok(frame) => {
            &&& result == Ok::<usize, DataProtocolError>(frame.len() as usize)
            &&& ETHERNET_HEADER_LEN <= frame.len() <= before.len()
            &&& after == frame + before.skip(frame.len() as int)
        },
        Err(error) => result == Err::<usize, DataProtocolError>(error) && after == before,
    }
}

/// Moves the payload behind a fresh Ethernet header.
pub fn rebuild_ethernet(
    frame: &mut [u8],
    payload_offset: usize,
    destination: [u8; 6],
    source: [u8; 6],
    ether_type: u16,
) -> (result: Result<usize, DataProtocolError>)
    ensures
        converted(
            result,
            old(frame)@,
            final(frame)@,
            rebuilt(old(frame)@, payload_offset as int, destination@, source@, ether_type),
        ),
{
    let len: usize = frame.len();
    if payload_offset > len {
        return Err(DataProtocolError::FrameTooShort);
    }
    let payload_len: usize = len - payload_offset;
    let new_len: usize = match ETHERNET_HEADER_LEN.checked_add(payload_len) {
        Some(new_len) => new_len,
        None => return Err(DataProtocolError::InvalidLength),
    };
    if new_len > len {
        return Err(DataProtocolError::FrameTooLarge);
    }
    let ghost before = frame@;
    let mut i: usize = 0;
    while i < payload_len
        invariant
            i <= payload_len,
            len == before.len(),
            payload_len == len - payload_offset,
            ETHERNET_HEADER_LEN <= payload_offset <= len,
            frame@.len() == len,
            frame@ =~= before.subrange(0, 14) + before.subrange(
                payload_offset as int,
                payload_offset + i,
            ) + before.skip(14 + i),
        decreases payload_len - i,
    {
        frame[ETHERNET_HEADER_LEN + i] = frame[payload_offset + i];
        i = i + 1;
    }
    write_ethernet_header(frame, destination, source, ether_type);
    assert(frame@ =~= ethernet_frame(
        destination@,
        source@,
        ether_type,
        before.skip(payload_offset as int),
    ) + before.skip(new_len as int));
    Ok(new_len)
}

fn write_ethernet_header(
    frame: &mut [u8],
    destination: [u8; 6],
    source: [u8; 6],
    ether_type: u16,
)
    requires
        old(frame)@.len() >= ETHERNET_HEADER_LEN,
    ensures
        final(frame)@ == destination@ + source@ + codec::be16(ether_type) + old(frame)@.skip(14),
{
    let ghost before = frame@;
    let mut i: usize = 0;
    while i < 6
        invariant
            i <= 6,
            frame@.len() == before.len(),
            before.len() >= 14,
            forall|j: int| 0 <= j < i ==> frame@[j] == destination@[j] && frame@[6 + j]
                == source@[j],
            forall|j: int| 12 <= j < before.len() ==> frame@[j] == before[j],
        decreases 6 - i,
    {
        frame[i] = destination[i];
        frame[6 + i] = source[i];
        i = i + 1;
    }
    frame[12] = (ether_type / 256) as u8;
    frame[13] = (ether_type % 256) as u8;
    assert(frame@ =~= destination@ + source@ + codec::be16(ether_type) + before.skip(14));
}

/// The Ethernet frame of an 802.11 MPDU.
pub open spec fn mpdu_ethernet(frame: Seq<u8>, mac_header_len: int) -> Result<
    Seq<u8>,
    DataProtocolError,
> {
    if mac_header_len < 24 || frame.len() < 2 {
        Err(DataProtocolError::FrameTooShort)
    } else {
        match addresses_of(frame, codec::u16_at(frame, 0)) {
            Err(error) => Err(error),
            Ok((destination, source)) => match llc_type(frame, mac_header_len) {
                Err(error) => Err(error),
                Ok(ether_type) => rebuilt(
                    frame,
                    mac_header_len + llc_skip_of(ether_type),
                    destination,
                    source,
                    ether_type,
                ),
            },
        }
    }
}

/// Converts an 802.11 MPDU to an Ethernet frame in place.
pub fn convert_mpdu(frame: &mut [u8], mac_header_len: usize) -> (result: Result<
    usize,
    DataProtocolError,
>)
    ensures
        converted(
            result,
            old(frame)@,
            final(frame)@,
            mpdu_ethernet(old(frame)@, mac_header_len as int),
        ),
{
    if mac_header_len < 24 || frame.len() < 2 {
        return Err(DataProtocolError::FrameTooShort);
    }
    let frame_control: u16 = codec::read_u16(frame, 0);
    let (destination, source) = ieee80211_addresses(frame, frame_control)?;
    let ether_type: u16 = llc_ether_type(frame, mac_header_len)?;
    let payload_offset: usize = mac_header_len + llc_skip(ether_type);
    rebuild_ethernet(frame, payload_offset, destination, source, ether_type)
}

/// The Ethernet frame of an A-MSDU subframe behind a MAC header.
pub open spec fn msdu_ethernet(frame: Seq<u8>, mac_header_len: int) -> Result<
    Seq<u8>,
    DataProtocolError,
> {
    let llc = mac_header_len + 14;
    if llc > usize::MAX {
        Err(DataProtocolError::InvalidLength)
    } else if frame.len() < llc {
        Err(DataProtocolError::FrameTooShort)
    } else {
        match llc_type(frame, llc) {
            Err(error) => Err(error),
            Ok(ether_type) => rebuilt(
                frame,
                llc + llc_skip_of(ether_type),
                frame.subrange(mac_header_len, mac_header_len + 6),
                frame.subrange(mac_header_len + 6, mac_header_len + 12),
                ether_type,
            ),
        }
    }
}

/// Converts an A-MSDU subframe to an Ethernet frame in place.
pub fn convert_msdu(frame: &mut [u8], mac_header_len: usize) -> (result: Result<
    usize,
    DataProtocolError,
>)
    ensures
        converted(
            result,
            old(frame)@,
            final(frame)@,
            msdu_ethernet(old(frame)@, mac_header_len as int),
        ),
{
    let header_end: usize = match mac_header_len.checked_add(14) {
        Some(header_end) => header_end,
        None => return Err(DataProtocolError::InvalidLength),
    };
    if frame.len() < header_end {
        return Err(DataProtocolError::FrameTooShort);
    }
    let destination = bridge::mac_at(frame, mac_header_len);
    let source = bridge::mac_at(frame, mac_header_len + 6);
    let ether_type: u16 = llc_ether_type(frame, header_end)?;
    let payload_offset: usize = header_end + llc_skip(ether_type);
    rebuild_ethernet(frame, payload_offset, destination, source, ether_type)
}

/// The Ethernet frame of a received packet.
pub open spec fn ethernet_of(
    frame: Seq<u8>,
    payload_type: RxPayloadType,
    mac_header_len: int,
) -> Result<Seq<u8>, DataProtocolError> {
    match payload_type {
        RxPayloadType::Mpdu => mpdu_ethernet(frame, mac_header_len),
        RxPayloadType::MsduWithMac => msdu_ethernet(frame, mac_header_len),
        RxPayloadType::Msdu => msdu_ethernet(frame, 0),
    }
}

/// Converts a received packet to an Ethernet frame in place and returns its
/// length.
pub fn convert_to_ethernet(
    frame: &mut [u8],
    payload_type: RxPayloadType,
    mac_header_len: usize,
) -> (result: Result<usize, DataProtocolError>)
    ensures
        converted(
            result,
            old(frame)@,
            final(frame)@,
            ethernet_of(old(frame)@, payload_type, mac_header_len as int),
        ),
{
    match payload_type {
        RxPayloadType::Mpdu => convert_mpdu(frame, mac_header_len),
        RxPayloadType::MsduWithMac => convert_msdu(frame, mac_header_len),
        RxPayloadType::Msdu => convert_msdu(frame, 0),
    }
}

/// The wire image of a TX command.
pub open spec fn tx_command_bytes(
    wdev_id: u8,
    token: u8,
    frame: Seq<u8>,
    dscp_tos: u16,
    dma_pointer: u32,
) -> Seq<u8> {
    (codec::le32(TX_COMMAND_TOTAL_LEN as u32) + codec::le32(0) + codec::le32(
        HostMessageType::Data.wire() as u32,
    )) + (codec::le32(DataCommand::TransmitBuffer.wire()) + codec::le32(
        TX_COMMAND_PAYLOAD_LEN as u32,
    ) + seq![wdev_id] + seq![token] + codec::le32(0) + codec::le16(0)) + (frame.subrange(0, 6)
        + frame.subrange(6, 12) + codec::le16(codec::be16_at(frame, 12)) + codec::le32(
        dscp_tos as u32,
    )) + (seq![0u8] + seq![0u8] + codec::le32(0) + seq![1u8] + codec::le16(frame.len() as u16)
        + codec::le32(dma_pointer))
}

/// Encodes a TX command for one Ethernet frame.
pub fn encode_tx_command(
    wdev_id: u8,
    token: u8,
    frame: &[u8],
    dscp_tos: u16,
    dma_pointer: u32,
) -> (command: [u8; TX_COMMAND_TOTAL_LEN])
    requires
        ETHERNET_HEADER_LEN <= frame@.len() <= u16::MAX,
    ensures
        command@ == tx_command_bytes(wdev_id, token, frame@, dscp_tos, dma_pointer),
{
    let mut out = [0u8; TX_COMMAND_TOTAL_LEN];
    let mut writer = Writer::new(&mut out);
    let _ = writer.u32(TX_COMMAND_TOTAL_LEN as u32);
    let _ = writer.u32(0);
    let _ = writer.i32(HostMessageType::Data.code());
    let _ = writer.u32(DataCommand::TransmitBuffer.code());
    let _ = writer.u32(TX_COMMAND_PAYLOAD_LEN as u32);
    let _ = writer.u8(wdev_id);
    let _ = writer.u8(token);
    let _ = writer.u32(0);
    let _ = writer.u16(0);
    let _ = writer.bytes(&frame[0..6]);
    let _ = writer.bytes(&frame[6..12]);
    let _ = writer.u16(codec::read_be16(frame, 12));
    let _ = writer.u32(dscp_tos as u32);
    let _ = writer.u8(0);
    let _ = writer.u8(0);
    let _ = writer.u32(0);
    let _ = writer.u8(1);
    let _ = writer.u16(frame.len() as u16);
    let _ = writer.u32(dma_pointer);
    assert(writer.written() =~= tx_command_bytes(wdev_id, token, frame@, dscp_tos, dma_pointer));
    assert(writer.rest() =~= Seq::<u8>::empty());
    writer.finish();
    assert(out@ =~= tx_command_bytes(wdev_id, token, frame@, dscp_tos, dma_pointer));
    out
}

/// A packed TX command describes its frame at fixed byte positions: the frame's
/// destination and source addresses, its type in host order and its length, behind
/// the slot's token and in front of the DMA pointer to the frame data.
pub proof fn law_tx_command_layout(wdev_id: u8, token: u8, frame: Seq<u8>, dscp_tos: u16, dma_pointer: u32)
    requires
        14 <= frame.len() <= 0xffff,
    ensures
        ({
            let command = tx_command_bytes(wdev_id, token, frame, dscp_tos, dma_pointer);
            &&& command.len() == 59
            &&& codec::u32_at(command, 0) == 59
            &&& codec::u32_at(command, 4) == 0
            &&& codec::i32_at(command, 8) == 2
            &&& codec::u32_at(command, 12) == 1
            &&& codec::u32_at(command, 16) == 47
            &&& command[20] == wdev_id
            &&& command[21] == token
            &&& codec::u32_at(command, 22) == 0
            &&& codec::u16_at(command, 26) == 0
            &&& command.subrange(28, 34) == frame.subrange(0, 6)
            &&& command.subrange(34, 40) == frame.subrange(6, 12)
            &&& codec::u16_at(command, 40) == 0x100 * frame[12] + frame[13]
            &&& codec::u32_at(command, 42) == dscp_tos
            &&& command[46] == 0
            &&& command[47] == 0
            &&& codec::u32_at(command, 48) == 0
            &&& command[52] == 1
            &&& codec::u16_at(command, 53) == frame.len()
            &&& codec::u32_at(command, 55) == dma_pointer
        }),
{
    let command = tx_command_bytes(wdev_id, token, frame, dscp_tos, dma_pointer);
    assert(codec::u32_at(command, 0) == 59) by {
        assert(command.subrange(0, 4) =~= codec::le32(59));
        codec::law_u32_round_trip(command, 0, 59);
    }
    assert(codec::u32_at(command, 4) == 0) by {
        assert(command.subrange(4, 8) =~= codec::le32(0));
        codec::law_u32_round_trip(command, 4, 0);
    }
    assert(codec::i32_at(command, 8) == 2) by {
        assert(command.subrange(8, 12) =~= codec::le32(2 as u32));
        codec::law_i32_round_trip(command, 8, 2);
    }
    assert(codec::u32_at(command, 12) == 1) by {
        assert(command.subrange(12, 16) =~= codec::le32(1));
        codec::law_u32_round_trip(command, 12, 1);
    }
    assert(codec::u32_at(command, 16) == 47) by {
        assert(command.subrange(16, 20) =~= codec::le32(47));
        codec::law_u32_round_trip(command, 16, 47);
    }
    assert(codec::u32_at(command, 22) == 0) by {
        assert(command.subrange(22, 26) =~= codec::le32(0));
        codec::law_u32_round_trip(command, 22, 0);
    }
    assert(codec::u16_at(command, 26) == 0) by {
        assert(command.subrange(26, 28) =~= codec::le16(0));
        codec::law_u16_round_trip(command, 26, 0);
    }
    assert(command.subrange(28, 34) =~= frame.subrange(0, 6));
    assert(command.subrange(34, 40) =~= frame.subrange(6, 12));
    assert(codec::u16_at(command, 40) == codec::be16_at(frame, 12)) by {
        assert(command.subrange(40, 42) =~= codec::le16(codec::be16_at(frame, 12)));
        codec::law_u16_round_trip(command, 40, codec::be16_at(frame, 12));
    }
    assert(codec::u32_at(command, 42) == dscp_tos as u32) by {
        assert(command.subrange(42, 46) =~= codec::le32(dscp_tos as u32));
        codec::law_u32_round_trip(command, 42, dscp_tos as u32);
    }
    assert(codec::u32_at(command, 48) == 0) by {
        assert(command.subrange(48, 52) =~= codec::le32(0));
        codec::law_u32_round_trip(command, 48, 0);
    }
    assert(codec::u16_at(command, 53) == frame.len() as u16) by {
        assert(command.subrange(53, 55) =~= codec::le16(frame.len() as u16));
        codec::law_u16_round_trip(command, 53, frame.len() as u16);
    }
    assert(codec::u32_at(command, 55) == dma_pointer) by {
        assert(command.subrange(55, 59) =~= codec::le32(dma_pointer));
        codec::law_u32_round_trip(command, 55, dma_pointer);
    }
}

/// Rounds a length up to whole words.
pub fn align4(value: usize) -> (padded: usize)
    requires
        value + 3 <= usize::MAX,
    ensures
        padded == memory::word_padded(value as int),
{
    (value + 3) / 4 * 4
}

/// Bytes from one RX slot to the next.
pub open spec fn rx_stride_of(rx_buffer_size: int) -> int {
    memory::word_padded(rx_buffer_size + RX_BUFFER_HEADROOM)
}

/// Bytes from one TX slot to the next.
pub open spec fn tx_stride_of(tx_buffer_size: int) -> int {
    memory::word_padded(tx_buffer_size + TX_BUFFER_HEADROOM)
}

/// Why a layout of `rx` receive and `tx` transmit slots is refused, if it is.
pub open spec fn layout_fault(
    rx: int,
    tx: int,
    rx_buffer_size: int,
    tx_buffer_size: int,
) -> Option<DataLayoutError> {
    if !(1 <= rx <= u16::MAX && 1 <= tx <= MAX_TX_TOKENS && 1 <= rx_buffer_size <= u16::MAX
        && ETHERNET_HEADER_LEN <= tx_buffer_size <= u16::MAX) {
        Some(DataLayoutError::InvalidCapacity)
    } else if rx_stride_of(rx_buffer_size) * rx + tx_stride_of(tx_buffer_size) * tx
        > RPU_PACKET_RAM_SIZE {
        Some(DataLayoutError::PacketRamExhausted)
    } else {
        None
    }
}

/// Computes the slot strides of two buffer sizes: headroom included, rounded
/// up to whole words.
pub fn layout_strides(rx_buffer_size: usize, tx_buffer_size: usize) -> (result: Result<
    (usize, usize),
    DataLayoutError,
>)
    requires
        rx_buffer_size + RX_BUFFER_HEADROOM <= usize::MAX ==> rx_buffer_size + RX_BUFFER_HEADROOM
            + 3 <= usize::MAX,
        tx_buffer_size + TX_BUFFER_HEADROOM <= usize::MAX ==> tx_buffer_size + TX_BUFFER_HEADROOM
            + 3 <= usize::MAX,
    ensures
        match result {
            Ok((rx_stride, tx_stride)) => rx_stride == rx_stride_of(rx_buffer_size as int)
                && tx_stride == tx_stride_of(tx_buffer_size as int),
            Err(error) => (rx_buffer_size + RX_BUFFER_HEADROOM > usize::MAX || tx_buffer_size
                + TX_BUFFER_HEADROOM > usize::MAX) && error == DataLayoutError::InvalidCapacity,
        },
{
    let rx_with_headroom: usize = match rx_buffer_size.checked_add(RX_BUFFER_HEADROOM) {
        Some(rx_with_headroom) => rx_with_headroom,
        None => return Err(DataLayoutError::InvalidCapacity),
    };
    let tx_with_headroom: usize = match tx_buffer_size.checked_add(TX_BUFFER_HEADROOM) {
        Some(tx_with_headroom) => tx_with_headroom,
        None => return Err(DataLayoutError::InvalidCapacity),
    };
    Ok((align4(rx_with_headroom), align4(tx_with_headroom)))
}

/// Checks that slots with these strides fit packet RAM, and returns the bytes
/// that the RX slots take.
pub fn validated_layout_bytes<const RX: usize, const TX: usize>(
    rx_stride: usize,
    tx_stride: usize,
) -> (result: Result<usize, DataLayoutError>)
    ensures
        match result {
            Ok(rx_bytes) => rx_bytes == rx_stride * RX && rx_stride * RX + tx_stride * TX
                <= RPU_PACKET_RAM_SIZE,
            Err(error) => rx_stride * RX + tx_stride * TX > RPU_PACKET_RAM_SIZE && error
                == DataLayoutError::PacketRamExhausted,
        },
{
    let rx: usize = RX;
    let tx: usize = TX;
    assert(rx_stride * rx >= 0 && tx_stride * tx >= 0) by (nonlinear_arith)
        requires
            rx_stride >= 0,
            tx_stride >= 0,
            rx >= 0,
            tx >= 0,
    ;
    let rx_bytes: usize = match rx_stride.checked_mul(rx) {
        Some(rx_bytes) => rx_bytes,
        None => return Err(DataLayoutError::PacketRamExhausted),
    };
    let tx_bytes: usize = match tx_stride.checked_mul(tx) {
        Some(tx_bytes) => tx_bytes,
        None => return Err(DataLayoutError::PacketRamExhausted),
    };
    let total: usize = match rx_bytes.checked_add(tx_bytes) {
        Some(total) => total,
        None => return Err(DataLayoutError::PacketRamExhausted),
    };
    if total > RPU_PACKET_RAM_SIZE {
        return Err(DataLayoutError::PacketRamExhausted);
    }
    Ok(rx_bytes)
}

/// Static packet-RAM ownership for RX and TX descriptors.
pub struct DataPath<const RX: usize, const TX: usize> {
    pub rx_buffer_size: usize,
    pub tx_buffer_size: usize,
    pub rx_stride: usize,
    pub tx_stride: usize,
    /// Address of the first RX slot.
    pub rx_base: u32,
    pub tx_in_flight: [bool; TX],
    pub rx_posted: [bool; RX],
    /// Token that the next reservation looks at first.
    pub next_tx: usize,
}

/// The free token that a reservation takes: the first one from `from` on,
/// around the end.
pub open spec fn takes_token(in_flight: Seq<bool>, from: int, token: int) -> bool {
    &&& 0 <= token < in_flight.len()
    &&& !in_flight[token]
    &&& from <= token ==> forall|i: int| from <= i < token ==> in_flight[i]
    &&& token < from ==> (forall|i: int| from <= i < in_flight.len() ==> in_flight[i]) && (forall|
        i: int,
    |
        0 <= i < token ==> in_flight[i])
}

impl<const RX: usize, const TX: usize> DataPath<RX, TX> {
    /// The layout is legal and the slots end at the end of packet RAM.
    pub open spec fn wf(&self) -> bool {
        &&& layout_fault(
            RX as int,
            TX as int,
            self.rx_buffer_size as int,
            self.tx_buffer_size as int,
        ) is None
        &&& self.rx_stride == rx_stride_of(self.rx_buffer_size as int)
        &&& self.tx_stride == tx_stride_of(self.tx_buffer_size as int)
        &&& self.rx_base == RPU_MEM_PACKET_END + 1 - self.rx_stride * RX
        &&& self.next_tx < TX
    }

    /// Address of an RX slot, headroom included.
    pub open spec fn rx_slot(&self, descriptor: int) -> int {
        self.rx_base + descriptor * self.rx_stride
    }

    /// Address of a TX slot.
    pub open spec fn tx_slot(&self, token: int) -> int {
        RPU_MEM_PACKET_BASE + token * self.tx_stride
    }

    /// The same path with other ownership flags of one kind.
    pub open spec fn same_layout(&self, before: &Self) -> bool {
        &&& self.rx_buffer_size == before.rx_buffer_size
        &&& self.tx_buffer_size == before.tx_buffer_size
        &&& self.rx_stride == before.rx_stride
        &&& self.tx_stride == before.tx_stride
        &&& self.rx_base == before.rx_base
    }

    /// Only RX ownership differs.
    pub open spec fn rx_changed(&self, before: &Self, posted: Seq<bool>) -> bool {
        &&& self.same_layout(before)
        &&& self.tx_in_flight@ == before.tx_in_flight@
        &&& self.next_tx == before.next_tx
        &&& self.rx_posted@ == posted
    }

    /// Only TX ownership differs.
    pub open spec fn tx_changed(&self, before: &Self, in_flight: Seq<bool>) -> bool {
        &&& self.same_layout(before)
        &&& self.rx_posted@ == before.rx_posted@
        &&& self.tx_in_flight@ == in_flight
    }

    /// Builds a non-overlapping packet-RAM layout with nothing posted or in
    /// flight.
    pub fn new(rx_buffer_size: usize, tx_buffer_size: usize) -> (result: Result<
        Self,
        DataLayoutError,
    >)
        ensures
            match result {
                Ok(path) => {
                    &&& layout_fault(
                        RX as int,
                        TX as int,
                        rx_buffer_size as int,
                        tx_buffer_size as int,
                    ) is None
                    &&& path.wf()
                    &&& path.rx_buffer_size == rx_buffer_size
                    &&& path.tx_buffer_size == tx_buffer_size
                    &&& path.tx_in_flight@ == Seq::new(TX as nat, |i: int| false)
                    &&& path.rx_posted@ == Seq::new(RX as nat, |i: int| false)
                    &&& path.next_tx == 0
                },
                Err(error) => layout_fault(
                    RX as int,
                    TX as int,
                    rx_buffer_size as int,
                    tx_buffer_size as int,
                ) == Some(error),
            },
    {
        if RX == 0 || TX == 0 || RX > u16::MAX as usize || TX > MAX_TX_TOKENS {
            return Err(DataLayoutError::InvalidCapacity);
        }
        if rx_buffer_size == 0 || tx_buffer_size < ETHERNET_HEADER_LEN || rx_buffer_size
            > u16::MAX as usize || tx_buffer_size > u16::MAX as usize {
            return Err(DataLayoutError::InvalidCapacity);
        }
        let (rx_stride, tx_stride) = layout_strides(rx_buffer_size, tx_buffer_size)?;
        let rx_bytes: usize = validated_layout_bytes::<RX, TX>(rx_stride, tx_stride)?;
        assert(tx_stride * TX >= 0) by (nonlinear_arith)
            requires
                tx_stride >= 0,
                TX >= 0,
        ;
        let rx_base: u32 = RPU_MEM_PACKET_END + 1 - rx_bytes as u32;
        let path = DataPath {
            rx_buffer_size,
            tx_buffer_size,
            rx_stride,
            tx_stride,
            rx_base,
            tx_in_flight: [false; TX],
            rx_posted: [false; RX],
            next_tx: 0,
        };
        assert(path.tx_in_flight@ =~= Seq::new(TX as nat, |i: int| false));
        assert(path.rx_posted@ =~= Seq::new(RX as nat, |i: int| false));
        Ok(path)
    }

    /// Returns the RX payload capacity.
    pub fn rx_buffer_size(&self) -> (size: usize)
        ensures
            size == self.rx_buffer_size,
    {
        self.rx_buffer_size
    }

    /// Returns the TX frame capacity.
    pub fn tx_buffer_size(&self) -> (size: usize)
        ensures
            size == self.tx_buffer_size,
    {
        self.tx_buffer_size
    }

    /// Returns one RX packet-RAM slot, including the four-byte headroom.
    pub fn rx_slot_address(&self, descriptor: usize) -> (address: Option<u32>)
        requires
            self.wf(),
        ensures
            match address {
                Some(address) => descriptor < RX && address == self.rx_slot(descriptor as int)
                    && address + self.rx_stride <= RPU_MEM_PACKET_END + 1 && address % 4 == 0,
                None => descriptor >= RX,
            },
    {
        if descriptor >= RX {
            return None;
        }
        proof {
            lemma_slots(self, descriptor as int, 0);
        }
        Some(self.rx_base + descriptor as u32 * self.rx_stride as u32)
    }

    /// Returns one TX packet-RAM slot.
    pub fn tx_slot_address(&self, token: usize) -> (address: Option<u32>)
        requires
            self.wf(),
        ensures
            match address {
                Some(address) => token < TX && address == self.tx_slot(token as int) && address
                    + self.tx_stride <= self.rx_base && address % 4 == 0,
                None => token >= TX,
            },
    {
        if token >= TX {
            return None;
        }
        proof {
            lemma_slots(self, 0, token as int);
        }
        Some(RPU_MEM_PACKET_BASE + token as u32 * self.tx_stride as u32)
    }

    /// Releases local ownership state after a confirmed RPU reset.
    ///
    /// Call this only after the RPU can no longer access packet RAM and after
    /// its hardware queues are reset. RX descriptors must be posted again.
    pub fn reset_after_rpu_reset(&mut self)
        requires
            old(self).wf(),
        ensures
            final(self).wf(),
            final(self).same_layout(old(self)),
            final(self).tx_in_flight@ == Seq::new(TX as nat, |i: int| false),
            final(self).rx_posted@ == Seq::new(RX as nat, |i: int| false),
            final(self).next_tx == 0,
    {
        self.tx_in_flight = [false; TX];
        self.rx_posted = [false; RX];
        self.next_tx = 0;
        assert(self.tx_in_flight@ =~= Seq::new(TX as nat, |i: int| false));
        assert(self.rx_posted@ =~= Seq::new(RX as nat, |i: int| false));
    }

    /// Releases a token after `NRF_WIFI_CMD_TX_BUFF_DONE`.
    pub fn complete_tx(&mut self, token: u8) -> (result: Result<(), DataProtocolError>)
        ensures
            if token < TX && old(self).tx_in_flight@[token as int] {
                &&& result is Ok
                &&& final(self).tx_changed(old(self), old(self).tx_in_flight@.update(
                    token as int,
                    false,
                ))
                &&& final(self).next_tx == old(self).next_tx
            } else {
                &&& result == Err::<(), DataProtocolError>(
                    DataProtocolError::InvalidDescriptor(token as u16),
                )
                &&& *final(self) == *old(self)
            },
            old(self).wf() ==> final(self).wf(),
    {
        let index: usize = token as usize;
        if index >= TX {
            return Err(DataProtocolError::InvalidDescriptor(token as u16));
        }
        if !self.tx_in_flight[index] {
            return Err(DataProtocolError::InvalidDescriptor(token as u16));
        }
        self.tx_in_flight[index] = false;
        Ok(())
    }

    /// Reserves the next free token, going around from the last reservation.
    pub fn reserve_tx(&mut self) -> (token: Option<u8>)
        requires
            old(self).wf(),
        ensures
            final(self).wf(),
            match token {
                Some(token) => {
                    &&& takes_token(
                        old(self).tx_in_flight@,
                        old(self).next_tx as int,
                        token as int,
                    )
                    &&& final(self).tx_changed(old(self), old(self).tx_in_flight@.update(
                        token as int,
                        true,
                    ))
                    &&& final(self).next_tx == (if token + 1 == TX {
                        0
                    } else {
                        token + 1
                    })
                },
                None => {
                    &&& forall|i: int| 0 <= i < TX ==> old(self).tx_in_flight@[i]
                    &&& *final(self) == *old(self)
                },
            },
    {
        let mut offset: usize = 0;
        while offset < TX
            invariant
                offset <= TX,
                self.wf(),
                *self == *old(self),
                forall|i: int|
                    0 <= i < TX && (self.next_tx <= i < self.next_tx + offset || i + TX
                        < self.next_tx + offset) ==> self.tx_in_flight@[i],
            decreases TX - offset,
        {
            let sum: usize = self.next_tx + offset;
            let index: usize = if sum < TX {
                sum
            } else {
                sum - TX
            };
            if !self.tx_in_flight[index] {
                self.tx_in_flight[index] = true;
                self.next_tx =
                if index + 1 == TX {
                    0
                } else {
                    index + 1
                };
                return Some(index as u8);
            }
            offset = offset + 1;
        }
        None
    }

    /// Returns the first RX descriptor from `from` on that is not posted.
    pub fn unposted_from(&self, from: usize) -> (descriptor: Option<u16>)
        requires
            self.wf(),
        ensures
            match descriptor {
                Some(descriptor) => {
                    &&& from <= descriptor < RX
                    &&& !self.rx_posted@[descriptor as int]
                    &&& forall|i: int| from <= i < descriptor ==> self.rx_posted@[i]
                },
                None => forall|i: int| from <= i < RX ==> self.rx_posted@[i],
            },
    {
        let mut index: usize = from;
        while index < RX
            invariant
                from <= index,
                index <= RX || index == from,
                RX <= u16::MAX,
                forall|i: int| from <= i < index && i < RX ==> self.rx_posted@[i],
            decreases RX - index,
        {
            if !self.rx_posted[index] {
                return Some(index as u16);
            }
            index = index + 1;
        }
        None
    }
}

proof fn lemma_slots<const RX: usize, const TX: usize>(
    path: &DataPath<RX, TX>,
    descriptor: int,
    token: int,
)
    requires
        path.wf(),
        0 <= descriptor < RX,
        0 <= token < TX,
    ensures
        path.rx_base <= path.rx_slot(descriptor),
        path.rx_slot(descriptor) + path.rx_stride <= RPU_MEM_PACKET_END + 1,
        path.rx_slot(descriptor) % 4 == 0,
        0 <= descriptor * path.rx_stride <= RPU_PACKET_RAM_SIZE,
        RPU_MEM_PACKET_BASE <= path.tx_slot(token),
        path.tx_slot(token) + path.tx_stride <= path.rx_base,
        path.tx_slot(token) % 4 == 0,
        0 <= token * path.tx_stride <= RPU_PACKET_RAM_SIZE,
{
    let rx = path.rx_stride as int;
    let tx = path.tx_stride as int;
    assert(rx * RX >= descriptor * rx + rx && descriptor * rx >= 0) by (nonlinear_arith)
        requires
            0 <= descriptor < RX,
            rx >= 0,
    ;
    assert(tx * TX >= token * tx + tx && token * tx >= 0) by (nonlinear_arith)
        requires
            0 <= token < TX,
            tx >= 0,
    ;
    let rx_words = rx / 4;
    let tx_words = tx / 4;
    assert(rx == 4 * rx_words);
    assert(tx == 4 * tx_words);
    assert(descriptor * rx == 4 * (descriptor * rx_words)) by (nonlinear_arith)
        requires
            rx == 4 * rx_words,
    ;
    assert(rx * RX == 4 * (rx_words * RX)) by (nonlinear_arith)
        requires
            rx == 4 * rx_words,
    ;
    assert(token * tx == 4 * (token * tx_words)) by (nonlinear_arith)
        requires
            tx == 4 * tx_words,
    ;
}

/// Packet RAM is never shared: every slot lies inside it, the TX slots lie
/// before the RX slots, and two slots of one kind do not overlap.
pub proof fn law_packet_slots_do_not_overlap<const RX: usize, const TX: usize>(
    path: &DataPath<RX, TX>,
    descriptor: int,
    other_descriptor: int,
    token: int,
    other_token: int,
)
    requires
        path.wf(),
        0 <= descriptor < other_descriptor < RX || (descriptor == other_descriptor && 0
            <= descriptor < RX),
        0 <= token < other_token < TX || (token == other_token && 0 <= token < TX),
    ensures
        RPU_MEM_PACKET_BASE <= path.tx_slot(token),
        path.tx_slot(token) + path.tx_buffer_size + TX_BUFFER_HEADROOM <= path.rx_slot(descriptor),
        path.rx_slot(descriptor) + RX_BUFFER_HEADROOM + path.rx_buffer_size <= RPU_MEM_PACKET_END
            + 1,
        token < other_token ==> path.tx_slot(token) + path.tx_buffer_size + TX_BUFFER_HEADROOM
            <= path.tx_slot(other_token),
        descriptor < other_descriptor ==> path.rx_slot(descriptor) + RX_BUFFER_HEADROOM
            + path.rx_buffer_size <= path.rx_slot(other_descriptor),
{
    lemma_slots(path, descriptor, token);
    lemma_slots(path, other_descriptor, other_token);
    let rx = path.rx_stride as int;
    let tx = path.tx_stride as int;
    assert(token < other_token ==> token * tx + tx <= other_token * tx) by (nonlinear_arith)
        requires
            tx >= 0,
    ;
    assert(descriptor < other_descriptor ==> descriptor * rx + rx <= other_descriptor * rx)
        by (nonlinear_arith)
        requires
            rx >= 0,
    ;
}

/// The TX command slots of every legal layout end before packet data starts.
pub proof fn law_tx_command_slots_stop_before_packet_data(token: int)
    requires
        0 <= token < MAX_TX_TOKENS,
    ensures
        device::RPU_MEM_TX_CMD_BASE + TX_COMMAND_SLOT_SIZE * token + TX_COMMAND_SLOT_SIZE
            <= RPU_MEM_PACKET_BASE,
{
}

/// The stages of posting one RX descriptor.
#[derive(Clone, Copy, Debug, PartialEq, Eq, Structural)]
pub enum PostState {
    /// Write the descriptor into the headroom of its slot.
    Descriptor,
    /// Write the DMA pointer into the command slot.
    Pointer,
    /// Queue the command slot for firmware.
    Enqueue,
    /// Firmware owns the descriptor.
    Posted,
}

/// Posting of one RX descriptor to a firmware RX queue.
#[derive(Clone, Copy, Debug, PartialEq, Eq, Structural)]
pub struct RxPost {
    pub descriptor: u16,
    /// Address of the descriptor's packet-RAM slot.
    pub slot: u32,
    /// Address of the descriptor's command slot.
    pub command_address: u32,
    /// Register of the RX queue.
    pub queue_register: u32,
    pub state: PostState,
}

impl RxPost {
    /// The access that comes next, `None` once the descriptor is posted.
    ///
    /// Firmware writes at the DMA pointer; the four bytes before it stay with
    /// the host.
    pub open spec fn next(self) -> Option<RpuRequest> {
        match self.state {
            PostState::Descriptor => Some(
                RpuRequest::WriteWord {
                    processor: Processor::Lmac,
                    address: self.slot,
                    value: self.descriptor as u32,
                },
            ),
            PostState::Pointer => Some(
                RpuRequest::WriteIndirectWord {
                    processor: Processor::Lmac,
                    address: (memory::RPU_MCU_CORE_INDIRECT_BASE + self.command_address
                        % memory::RPU_WINDOW) as u32,
                    value: ((self.slot + RX_BUFFER_HEADROOM) % (memory::RPU_WINDOW as int)) as u32,
                },
            ),
            PostState::Enqueue => Some(
                memory::write_register_request(self.queue_register, self.command_address),
            ),
            PostState::Posted => None,
        }
    }

    /// The stage behind a successful access.
    pub open spec fn advanced(self) -> RxPost {
        RxPost {
            state: match self.state {
                PostState::Descriptor => PostState::Pointer,
                PostState::Pointer => PostState::Enqueue,
                _ => PostState::Posted,
            },
            ..self
        }
    }

    /// Returns the next access, `None` once the descriptor is posted.
    pub fn request(&self) -> (request: Option<RpuRequest>)
        requires
            self.slot + RX_BUFFER_HEADROOM <= u32::MAX,
        ensures
            request == self.next(),
    {
        match self.state {
            PostState::Descriptor => Some(
                RpuRequest::WriteWord {
                    processor: Processor::Lmac,
                    address: self.slot,
                    value: self.descriptor as u32,
                },
            ),
            PostState::Pointer => Some(
                RpuRequest::WriteIndirectWord {
                    processor: Processor::Lmac,
                    address: memory::RPU_MCU_CORE_INDIRECT_BASE + self.command_address
                        % memory::RPU_WINDOW,
                    value: (self.slot + RX_BUFFER_HEADROOM as u32) % memory::RPU_WINDOW,
                },
            ),
            PostState::Enqueue => Some(
                memory::write_register(self.queue_register, self.command_address),
            ),
            PostState::Posted => None,
        }
    }
}

/// The RX queue and the command base that a device offers for a pool.
pub open spec fn rx_context<B, E>(device: Device<B>, pool_id: int, descriptor: u16) -> Result<
    (Hpq, u32),
    DataError<E>,
> {
    if device.queues is None {
        Err(DataError::Device(DeviceError::NotInitialized))
    } else if pool_id >= 3 {
        Err(DataError::Protocol(DataProtocolError::InvalidDescriptor(descriptor)))
    } else if device.rx_command_base == 0 {
        Err(DataError::Device(DeviceError::NotInitialized))
    } else {
        Ok((device.queues->0.rx_buffer_busy@[pool_id], device.rx_command_base))
    }
}

fn rx_queue_context<B, E>(device: &Device<B>, pool_id: usize, descriptor: u16) -> (result: Result<
    (Hpq, u32),
    DataError<E>,
>)
    ensures
        result == rx_context::<B, E>(*device, pool_id as int, descriptor),
{
    let queues = match device.queues() {
        Some(queues) => queues,
        None => return Err(DataError::Device(DeviceError::NotInitialized)),
    };
    if pool_id >= 3 {
        return Err(DataError::Protocol(DataProtocolError::InvalidDescriptor(descriptor)));
    }
    let command_base: u32 = match device.rx_command_base() {
        Some(command_base) => command_base,
        None => return Err(DataError::Device(DeviceError::NotInitialized)),
    };
    Ok((queues.rx_buffer_busy[pool_id], command_base))
}

impl<const RX: usize, const TX: usize> DataPath<RX, TX> {
    /// Whether every command slot of the path has a 32-bit address.
    pub open spec fn slots_addressable<B>(device: Device<B>) -> bool {
        device.rx_command_base + RX_COMMAND_SLOT_SIZE * (RX - 1) <= u32::MAX
    }

    /// The outcome of starting to post a descriptor.
    pub open spec fn post_start<B, E>(
        &self,
        device: Device<B>,
        descriptor: u16,
        pool_id: int,
    ) -> Result<RxPost, DataError<E>> {
        if descriptor >= RX {
            Err(DataError::Protocol(DataProtocolError::InvalidDescriptor(descriptor)))
        } else if self.rx_posted@[descriptor as int] {
            Err(DataError::ReceiveDescriptorBusy(descriptor))
        } else {
            match rx_context::<B, E>(device, pool_id, descriptor) {
                Err(error) => Err(error),
                Ok((queue, command_base)) => Ok(
                    RxPost {
                        descriptor,
                        slot: self.rx_slot(descriptor as int) as u32,
                        command_address: (command_base + RX_COMMAND_SLOT_SIZE * descriptor) as u32,
                        queue_register: queue.enqueue_address,
                        state: PostState::Descriptor,
                    },
                ),
            }
        }
    }

    /// A posting of this path: its descriptor is not posted until the command
    /// slot is about to be queued.
    pub open spec fn post_wf(&self, post: RxPost) -> bool {
        &&& post.descriptor < RX
        &&& post.slot == self.rx_slot(post.descriptor as int)
        &&& self.rx_posted@[post.descriptor as int] == (post.state == PostState::Enqueue
            || post.state == PostState::Posted)
    }

    /// Starts to post one RX descriptor to a firmware RX queue.
    pub fn post_rx<B, E>(&self, device: &Device<B>, descriptor: u16, pool_id: usize) -> (result:
        Result<RxPost, DataError<E>>)
        requires
            self.wf(),
            self.post_start::<B, E>(*device, descriptor, pool_id as int) is Ok
                ==> device.rx_command_base + RX_COMMAND_SLOT_SIZE * descriptor <= u32::MAX,
        ensures
            result == self.post_start::<B, E>(*device, descriptor, pool_id as int),
            result matches Ok(post) ==> self.post_wf(post) && post.slot + RX_BUFFER_HEADROOM
                <= u32::MAX,
    {
        let index: usize = descriptor as usize;
        if index >= RX {
            return Err(DataError::Protocol(DataProtocolError::InvalidDescriptor(descriptor)));
        }
        if self.rx_posted[index] {
            return Err(DataError::ReceiveDescriptorBusy(descriptor));
        }
        let (queue, command_base) = match rx_queue_context::<B, E>(device, pool_id, descriptor) {
            Ok(context) => context,
            Err(error) => return Err(error),
        };
        proof {
            lemma_slots(self, index as int, 0);
        }
        let slot: u32 = match self.rx_slot_address(index) {
            Some(slot) => slot,
            None => return Err(
                DataError::Protocol(DataProtocolError::InvalidDescriptor(descriptor)),
            ),
        };
        Ok(
            RxPost {
                descriptor,
                slot,
                command_address: command_base + RX_COMMAND_SLOT_SIZE * descriptor as u32,
                queue_register: queue.enqueue_address,
                state: PostState::Descriptor,
            },
        )
    }

    /// The error of a failed posting access: ownership is uncertain only once
    /// the queue write was tried.
    pub open spec fn post_error<E>(post: RxPost, error: RpuError<E>) -> DataError<E> {
        if post.state == PostState::Enqueue {
            DataError::QueueOwnershipUncertain(DeviceError::Rpu(error))
        } else {
            DataError::Rpu(error)
        }
    }

    /// RX ownership behind a successful posting access. The descriptor counts
    /// as posted before the queue write: a failed write does not prove that
    /// firmware cannot own it.
    pub open spec fn posted_after(&self, post: RxPost) -> Seq<bool> {
        if post.state == PostState::Pointer {
            self.rx_posted@.update(post.descriptor as int, true)
        } else {
            self.rx_posted@
        }
    }

    /// The outcome of one access of a posting.
    pub open spec fn post_resumed<E>(
        before: Self,
        after: Self,
        from: RxPost,
        to: RxPost,
        reply: Result<&[u8], RpuError<E>>,
        result: Result<(), DataError<E>>,
    ) -> bool {
        match reply {
            Ok(_) => {
                &&& result is Ok
                &&& to == from.advanced()
                &&& after.rx_changed(&before, before.posted_after(from))
            },
            Err(error) => {
                &&& result == Err::<(), DataError<E>>(Self::post_error(from, error))
                &&& to == from
                &&& after == before
            },
        }
    }

    /// Takes the outcome of the access that [`RxPost::request`] asked for.
    pub fn resume_post<E>(&mut self, post: &mut RxPost, reply: Result<&[u8], RpuError<E>>) -> (
    result: Result<(), DataError<E>>)
        requires
            old(self).wf(),
            old(self).post_wf(*old(post)),
            old(post).state != PostState::Posted,
        ensures
            final(self).wf(),
            final(self).post_wf(*final(post)),
            Self::post_resumed(*old(self), *final(self), *old(post), *final(post), reply, result),
    {
        match reply {
            Ok(_) => {},
            Err(error) => {
                return Err(
                    if post.state == PostState::Enqueue {
                        DataError::QueueOwnershipUncertain(DeviceError::Rpu(error))
                    } else {
                        DataError::Rpu(error)
                    },
                );
            },
        }
        match post.state {
            PostState::Descriptor => {
                post.state = PostState::Pointer;
            },
            PostState::Pointer => {
                self.rx_posted[post.descriptor as usize] = true;
                post.state = PostState::Enqueue;
            },
            _ => {
                post.state = PostState::Posted;
            },
        }
        Ok(())
    }
}

/// Metadata for one delivered Ethernet frame.
#[derive(Clone, Copy, Debug, PartialEq, Eq, Structural)]
pub struct ReceivedFrame {
    pub len: usize,
    pub ether_type: u16,
    pub descriptor_id: u16,
    pub signal_dbm: i16,
    pub frequency_mhz: u16,
}

/// How a receive ends once its descriptor is posted again.
#[derive(Debug)]
pub enum ReceiveVerdict<E> {
    /// The packet is larger than an RX buffer.
    TooLarge,
    /// The packet is larger than the caller's storage.
    OutputTooSmall { needed: usize, capacity: usize },
    /// The packet could not be read.
    ReadFailed(RpuError<E>),
    /// The packet could not be converted.
    Malformed(DataProtocolError),
    /// The caller's storage holds the frame.
    Delivered(ReceivedFrame),
}

impl<E> ReceiveVerdict<E> {
    /// The result that the verdict stands for.
    pub open spec fn result(self) -> Result<ReceivedFrame, DataError<E>> {
        match self {
            ReceiveVerdict::TooLarge => Err(DataError::Protocol(DataProtocolError::FrameTooLarge)),
            ReceiveVerdict::OutputTooSmall { needed, capacity } => Err(
                DataError::OutputTooSmall { needed, capacity },
            ),
            ReceiveVerdict::ReadFailed(error) => Err(DataError::Rpu(error)),
            ReceiveVerdict::Malformed(error) => Err(DataError::Protocol(error)),
            ReceiveVerdict::Delivered(frame) => Ok(frame),
        }
    }

    /// Returns the result that the verdict stands for.
    pub fn into_result(self) -> (result: Result<ReceivedFrame, DataError<E>>)
        ensures
            result == self.result(),
    {
        match self {
            ReceiveVerdict::TooLarge => Err(DataError::Protocol(DataProtocolError::FrameTooLarge)),
            ReceiveVerdict::OutputTooSmall { needed, capacity } => Err(
                DataError::OutputTooSmall { needed, capacity },
            ),
            ReceiveVerdict::ReadFailed(error) => Err(DataError::Rpu(error)),
            ReceiveVerdict::Malformed(error) => Err(DataError::Protocol(error)),
            ReceiveVerdict::Delivered(frame) => Ok(frame),
        }
    }
}

/// A taken RX descriptor whose packet is being received.
#[derive(Clone, Copy, Debug, PartialEq, Eq, Structural)]
pub struct RxPacket {
    pub info: RxPacketInfo,
    pub mac_header_len: u8,
    pub signal_dbm: i16,
    pub frequency_mhz: u16,
    /// Address of the packet bytes.
    pub data_address: u32,
}

impl RxPacket {
    /// The copy of the packet to the front of the caller's storage.
    pub open spec fn copy_request(self) -> RpuRequest {
        RpuRequest::ReadInto {
            processor: Processor::Lmac,
            address: self.data_address,
            start: 0,
            len: self.info.packet_len as usize,
        }
    }

    /// The verdict on a copied packet and the storage that then holds it.
    pub open spec fn verdict<E>(self, output: Seq<u8>) -> (ReceiveVerdict<E>, Seq<u8>) {
        let raw_len = self.info.packet_len as int;
        match ethernet_of(
            output.subrange(0, raw_len),
            self.info.payload_type,
            self.mac_header_len as int,
        ) {
            Err(error) => (ReceiveVerdict::Malformed(error), output),
            Ok(frame) => (
                ReceiveVerdict::Delivered(
                    ReceivedFrame {
                        len: frame.len() as usize,
                        ether_type: codec::be16_at(frame, 12),
                        descriptor_id: self.info.descriptor_id,
                        signal_dbm: self.signal_dbm,
                        frequency_mhz: self.frequency_mhz,
                    },
                ),
                frame + output.skip(frame.len() as int),
            ),
        }
    }

    /// Asks for the copy of the packet to the front of the caller's storage.
    pub fn request(&self) -> (request: RpuRequest)
        ensures
            request == self.copy_request(),
    {
        RpuRequest::ReadInto {
            processor: Processor::Lmac,
            address: self.data_address,
            start: 0,
            len: self.info.packet_len as usize,
        }
    }

    /// Takes the outcome of the copy: converts the packet in place, or keeps
    /// the error until the descriptor is posted again.
    pub fn finish_copy<E>(&self, output: &mut [u8], reply: Result<&[u8], RpuError<E>>) -> (verdict:
        ReceiveVerdict<E>)
        requires
            self.info.packet_len <= old(output)@.len(),
        ensures
            match reply {
                Ok(_) => (verdict, final(output)@) == self.verdict::<E>(old(output)@),
                Err(error) => verdict == ReceiveVerdict::ReadFailed(error) && final(output)@
                    == old(output)@,
            },
    {
        match reply {
            Ok(_) => {},
            Err(error) => return ReceiveVerdict::ReadFailed(error),
        }
        let raw_len: usize = self.info.packet_len as usize;
        let ghost before = output@;
        let (raw, rest) = output.split_at_mut(raw_len);
        let conversion = convert_to_ethernet(
            raw,
            self.info.payload_type,
            self.mac_header_len as usize,
        );
        let len: usize = match conversion {
            Ok(len) => len,
            Err(error) => return ReceiveVerdict::Malformed(error),
        };
        let ether_type: u16 = codec::read_be16(raw, 12);
        ReceiveVerdict::Delivered(
            ReceivedFrame {
                len,
                ether_type,
                descriptor_id: self.info.descriptor_id,
                signal_dbm: self.signal_dbm,
                frequency_mhz: self.frequency_mhz,
            },
        )
    }
}

/// How a receive starts.
#[derive(Debug)]
pub enum ReceiveStart<E> {
    /// Copy the packet.
    Copy(RxPacket),
    /// Post the descriptor again; the packet cannot be delivered.
    Refuse(RxPacket, ReceiveVerdict<E>),
}

impl<const RX: usize, const TX: usize> DataPath<RX, TX> {
    /// The descriptor of a packet that firmware hands over: it must be one
    /// that firmware owns.
    pub open spec fn taken(&self, event: RxEventRef<'_>, packet_index: int) -> Result<
        RxPacketInfo,
        DataProtocolError,
    > {
        match event.packet_at(packet_index) {
            Err(error) => Err(error),
            Ok(info) => if info.descriptor_id >= RX || !self.rx_posted@[info.descriptor_id as int] {
                Err(DataProtocolError::InvalidDescriptor(info.descriptor_id))
            } else {
                Ok(info)
            },
        }
    }

    /// How the receive of a taken packet starts.
    pub open spec fn receive_start<E>(
        &self,
        event: RxEventRef<'_>,
        info: RxPacketInfo,
        output_len: usize,
    ) -> ReceiveStart<E> {
        let packet = RxPacket {
            info,
            mac_header_len: event.mac_header_len,
            signal_dbm: event.signal_dbm,
            frequency_mhz: event.frequency_mhz,
            data_address: (self.rx_slot(info.descriptor_id as int) + RX_BUFFER_HEADROOM) as u32,
        };
        if info.packet_len > self.rx_buffer_size {
            ReceiveStart::Refuse(packet, ReceiveVerdict::TooLarge)
        } else if info.packet_len > output_len {
            ReceiveStart::Refuse(
                packet,
                ReceiveVerdict::OutputTooSmall {
                    needed: info.packet_len as usize,
                    capacity: output_len,
                },
            )
        } else {
            ReceiveStart::Copy(packet)
        }
    }

    /// Takes the descriptor of one received packet and decides whether its
    /// packet can be copied into caller storage of this length.
    ///
    /// Either way the descriptor must be posted again before the receive
    /// ends: after the copy, or at once where the packet is refused.
    pub fn receive_packet<E>(
        &mut self,
        event: &RxEventRef<'_>,
        packet_index: usize,
        output_len: usize,
    ) -> (result: Result<ReceiveStart<E>, DataError<E>>)
        requires
            old(self).wf(),
            event.wf(),
        ensures
            final(self).wf(),
            match old(self).taken(*event, packet_index as int) {
                Err(error) => {
                    &&& result == Err::<ReceiveStart<E>, DataError<E>>(DataError::Protocol(error))
                    &&& *final(self) == *old(self)
                },
                Ok(info) => {
                    &&& final(self).rx_changed(
                        old(self),
                        old(self).rx_posted@.update(info.descriptor_id as int, false),
                    )
                    &&& result == Ok::<ReceiveStart<E>, DataError<E>>(
                        old(self).receive_start(*event, info, output_len),
                    )
                },
            },
    {
        let info = match event.packet(packet_index) {
            Ok(info) => info,
            Err(error) => return Err(DataError::Protocol(error)),
        };
        let descriptor: usize = info.descriptor_id as usize;
        if descriptor >= RX || !self.rx_posted[descriptor] {
            return Err(
                DataError::Protocol(DataProtocolError::InvalidDescriptor(info.descriptor_id)),
            );
        }
        proof {
            lemma_slots(self, descriptor as int, 0);
        }
        let slot: u32 = match self.rx_slot_address(descriptor) {
            Some(slot) => slot,
            None => return Err(
                DataError::Protocol(DataProtocolError::InvalidDescriptor(info.descriptor_id)),
            ),
        };
        self.rx_posted[descriptor] = false;
        let packet = RxPacket {
            info,
            mac_header_len: event.mac_header_len,
            signal_dbm: event.signal_dbm,
            frequency_mhz: event.frequency_mhz,
            data_address: slot + RX_BUFFER_HEADROOM as u32,
        };
        let raw_len: usize = info.packet_len as usize;
        if raw_len > self.rx_buffer_size {
            return Ok(ReceiveStart::Refuse(packet, ReceiveVerdict::TooLarge));
        }
        if raw_len > output_len {
            return Ok(
                ReceiveStart::Refuse(
                    packet,
                    ReceiveVerdict::OutputTooSmall { needed: raw_len, capacity: output_len },
                ),
            );
        }
        Ok(ReceiveStart::Copy(packet))
    }
}

/// Why an Ethernet frame cannot be sent, if it cannot.
pub open spec fn transmit_fault(frame_len: int, capacity: int) -> Option<DataProtocolError> {
    if frame_len < ETHERNET_HEADER_LEN {
        Some(DataProtocolError::FrameTooShort)
    } else if frame_len > capacity || frame_len > u16::MAX {
        Some(DataProtocolError::FrameTooLarge)
    } else {
        None
    }
}

/// Checks the length of an Ethernet frame to be sent.
pub fn validate_transmit_frame<E>(frame: &[u8], capacity: usize) -> (result: Result<
    (),
    DataError<E>,
>)
    ensures
        match transmit_fault(frame@.len() as int, capacity as int) {
            Some(error) => result == Err::<(), DataError<E>>(DataError::Protocol(error)),
            None => result == Ok::<(), DataError<E>>(()),
        },
{
    if frame.len() < ETHERNET_HEADER_LEN {
        return Err(DataError::Protocol(DataProtocolError::FrameTooShort));
    }
    if frame.len() > capacity || frame.len() > u16::MAX as usize {
        return Err(DataError::Protocol(DataProtocolError::FrameTooLarge));
    }
    Ok(())
}

/// The stages of sending one frame.
#[derive(Clone, Copy, Debug, PartialEq, Eq, Structural)]
pub enum TransmitState {
    /// Copy the whole words of the frame.
    Packet,
    /// Copy the zero-padded last word.
    Tail,
    /// Copy the command.
    Command,
    /// Queue the command for firmware.
    Enqueue,
    /// Trigger the command queue.
    Trigger,
    /// Firmware owns the token.
    Sent,
}

/// Sending of one Ethernet frame through one TX token.
///
/// The data of the packet and tail requests is the frame, that of the command
/// request is `command`.
#[derive(Clone, Copy)]
pub struct Transmit {
    pub token: u8,
    pub frame_len: usize,
    pub packet_address: u32,
    pub command: [u8; TX_COMMAND_TOTAL_LEN],
    /// Address of the token's command slot.
    pub command_address: u32,
    /// Register of the command queue.
    pub queue_register: u32,
    pub state: TransmitState,
}

impl Transmit {
    /// The frame fits behind the packet address.
    pub open spec fn wf(&self) -> bool {
        &&& ETHERNET_HEADER_LEN <= self.frame_len <= u16::MAX
        &&& self.packet_address + self.frame_len <= u32::MAX
    }

    /// The access that comes next, `None` once the frame is sent.
    pub open spec fn next(&self, trigger: u32) -> Option<RpuRequest> {
        let aligned = memory::whole_words(self.frame_len as int);
        match self.state {
            TransmitState::Packet => Some(
                RpuRequest::WriteFrom {
                    processor: Processor::Umac,
                    address: self.packet_address,
                    start: 0,
                    len: aligned as usize,
                },
            ),
            TransmitState::Tail => Some(
                RpuRequest::WriteFrom {
                    processor: Processor::Umac,
                    address: (self.packet_address + aligned) as u32,
                    start: aligned as usize,
                    len: (self.frame_len - aligned) as usize,
                },
            ),
            TransmitState::Command => Some(
                RpuRequest::WriteFrom {
                    processor: Processor::Umac,
                    address: self.command_address,
                    start: 0,
                    len: TX_COMMAND_TOTAL_LEN,
                },
            ),
            TransmitState::Enqueue => Some(
                memory::write_register_request(self.queue_register, self.command_address),
            ),
            TransmitState::Trigger => Some(
                memory::write_register_request(device::RPU_REG_INT_TO_MCU_CTRL, trigger),
            ),
            TransmitState::Sent => None,
        }
    }

    /// Whether the data of the next request is the command.
    pub fn sends_command(&self) -> (command: bool)
        ensures
            command == (self.state == TransmitState::Command),
    {
        self.state == TransmitState::Command
    }

    /// Returns the next access, `None` once the frame is sent.
    pub fn request<B>(&self, device: &Device<B>) -> (request: Option<RpuRequest>)
        requires
            self.wf(),
        ensures
            request == self.next(device.trigger_value()),
    {
        let aligned: usize = self.frame_len / 4 * 4;
        match self.state {
            TransmitState::Packet => Some(
                RpuRequest::WriteFrom {
                    processor: Processor::Umac,
                    address: self.packet_address,
                    start: 0,
                    len: aligned,
                },
            ),
            TransmitState::Tail => Some(
                RpuRequest::WriteFrom {
                    processor: Processor::Umac,
                    address: self.packet_address + aligned as u32,
                    start: aligned,
                    len: self.frame_len - aligned,
                },
            ),
            TransmitState::Command => Some(
                RpuRequest::WriteFrom {
                    processor: Processor::Umac,
                    address: self.command_address,
                    start: 0,
                    len: TX_COMMAND_TOTAL_LEN,
                },
            ),
            TransmitState::Enqueue => Some(
                memory::write_register(self.queue_register, self.command_address),
            ),
            TransmitState::Trigger => Some(device.trigger_command()),
            TransmitState::Sent => None,
        }
    }
}

impl<const RX: usize, const TX: usize> DataPath<RX, TX> {
    /// A sending of this path: its token is in flight.
    pub open spec fn transmit_wf(&self, transmit: Transmit) -> bool {
        &&& transmit.wf()
        &&& transmit.token < TX
        &&& self.tx_in_flight@[transmit.token as int]
    }

    /// The start of sending a frame: a free token is taken and its command is
    /// prepared.
    pub open spec fn transmit_begun(
        before: Self,
        after: Self,
        wdev_id: u8,
        frame: Seq<u8>,
        dscp_tos: u16,
        transmit: Transmit,
    ) -> bool {
        let token = transmit.token;
        &&& transmit_fault(frame.len() as int, before.tx_buffer_size as int) is None
        &&& takes_token(before.tx_in_flight@, before.next_tx as int, token as int)
        &&& after.tx_changed(&before, before.tx_in_flight@.update(token as int, true))
        &&& after.next_tx == (if token + 1 == TX {
            0
        } else {
            token + 1
        })
        &&& after.transmit_wf(transmit)
        &&& transmit.state == TransmitState::Packet
        &&& transmit.frame_len == frame.len()
        &&& transmit.packet_address == before.tx_slot(token as int)
        &&& transmit.command@ == tx_command_bytes(
            wdev_id,
            token,
            frame,
            dscp_tos,
            transmit.packet_address % memory::RPU_WINDOW,
        )
    }

    /// Starts to send one complete Ethernet frame through one TX token.
    pub fn transmit<E>(&mut self, wdev_id: u8, frame: &[u8], dscp_tos: u16) -> (result: Result<
        Transmit,
        DataError<E>,
    >)
        requires
            old(self).wf(),
        ensures
            final(self).wf(),
            match result {
                Ok(transmit) => Self::transmit_begun(
                    *old(self),
                    *final(self),
                    wdev_id,
                    frame@,
                    dscp_tos,
                    transmit,
                ),
                Err(error) => {
                    &&& *final(self) == *old(self)
                    &&& match transmit_fault(frame@.len() as int, old(self).tx_buffer_size as int) {
                        Some(fault) => error == DataError::<E>::Protocol(fault),
                        None => error == DataError::<E>::NoTransmitToken && forall|i: int|
                            0 <= i < TX ==> old(self).tx_in_flight@[i],
                    }
                },
            },
    {
        validate_transmit_frame::<E>(frame, self.tx_buffer_size)?;
        let token: u8 = match self.reserve_tx() {
            Some(token) => token,
            None => return Err(DataError::NoTransmitToken),
        };
        proof {
            lemma_slots(self, 0, token as int);
        }
        let packet_address: u32 = match self.tx_slot_address(token as usize) {
            Some(packet_address) => packet_address,
            None => return Err(
                DataError::Protocol(DataProtocolError::InvalidDescriptor(token as u16)),
            ),
        };
        let command = encode_tx_command(
            wdev_id,
            token,
            frame,
            dscp_tos,
            packet_address % memory::RPU_WINDOW,
        );
        Ok(
            Transmit {
                token,
                frame_len: frame.len(),
                packet_address,
                command,
                command_address: 0,
                queue_register: 0,
                state: TransmitState::Packet,
            },
        )
    }

    /// What a copied packet leads to: the command slot and queue of an
    /// initialized device.
    pub open spec fn command_context<B, E>(device: Device<B>, token: u8) -> Result<
        (u32, u32),
        DataError<E>,
    > {
        if device.tx_command_base == 0 || device.queues is None {
            Err(DataError::Device(DeviceError::NotInitialized))
        } else {
            Ok(
                (
                    (device.tx_command_base + TX_COMMAND_SLOT_SIZE * token) as u32,
                    device.queues->0.command_busy.enqueue_address,
                ),
            )
        }
    }

    /// The outcome of one access of a sending.
    pub open spec fn transmit_resumed<B, E>(
        before: Self,
        after: Self,
        device: Device<B>,
        device_after: Device<B>,
        from: Transmit,
        to: Transmit,
        reply: Result<&[u8], RpuError<E>>,
        result: Result<(), DataError<E>>,
    ) -> bool {
        match reply {
            Err(error) => {
                &&& to == from
                &&& device_after == device
                &&& if from.state == TransmitState::Enqueue || from.state
                    == TransmitState::Trigger {
                    &&& result == Err::<(), DataError<E>>(
                        DataError::QueueOwnershipUncertain(DeviceError::Rpu(error)),
                    )
                    &&& after == before
                } else {
                    &&& result == Err::<(), DataError<E>>(DataError::Rpu(error))
                    &&& after.tx_changed(
                        &before,
                        before.tx_in_flight@.update(from.token as int, false),
                    )
                    &&& after.next_tx == before.next_tx
                }
            },
            Ok(_) => {
                &&& after == before
                &&& match from.state {
                    TransmitState::Packet => if from.frame_len % 4 != 0 {
                        &&& result is Ok
                        &&& to == (Transmit {
                            state: TransmitState::Tail,
                            ..from
                        })
                        &&& device_after == device
                    } else {
                        Self::packet_copied(
                            result,
                            device,
                            device_after,
                            from,
                            to,
                        )
                    },
                    TransmitState::Tail => Self::packet_copied(
                        result,
                        device,
                        device_after,
                        from,
                        to,
                    ),
                    TransmitState::Command => {
                        &&& result is Ok
                        &&& to == (Transmit {
                            state: TransmitState::Enqueue,
                            ..from
                        })
                        &&& device_after == device
                    },
                    TransmitState::Enqueue => {
                        &&& result is Ok
                        &&& to == (Transmit {
                            state: TransmitState::Trigger,
                            ..from
                        })
                        &&& device_after == device
                    },
                    TransmitState::Trigger => {
                        &&& result is Ok
                        &&& to == (Transmit {
                            state: TransmitState::Sent,
                            ..from
                        })
                        &&& device_after == (Device {
                            command_counter: device::next_counter(device.command_counter),
                            ..device
                        })
                    },
                    TransmitState::Sent => false,
                }
            },
        }
    }

    /// Takes the outcome of the access that [`Transmit::request`] asked for.
    ///
    /// A failed copy releases the token. Once the queue write was tried, the
    /// token stays in flight: firmware may own it. It also stays in flight
    /// where the queues are not initialized.
    pub fn resume_transmit<B, E>(
        &mut self,
        device: &mut Device<B>,
        transmit: &mut Transmit,
        reply: Result<&[u8], RpuError<E>>,
    ) -> (result: Result<(), DataError<E>>)
        requires
            old(self).wf(),
            old(device).wf(),
            old(self).transmit_wf(*old(transmit)),
            old(transmit).state != TransmitState::Sent,
        ensures
            final(self).wf(),
            final(device).wf(),
            final(transmit).wf(),
            final(transmit).token == old(transmit).token,
            Self::transmit_resumed(
                *old(self),
                *final(self),
                *old(device),
                *final(device),
                *old(transmit),
                *final(transmit),
                reply,
                result,
            ),
    {
        match reply {
            Ok(_) => {},
            Err(error) => {
                if transmit.state == TransmitState::Enqueue || transmit.state
                    == TransmitState::Trigger {
                    return Err(DataError::QueueOwnershipUncertain(DeviceError::Rpu(error)));
                }
                self.tx_in_flight[transmit.token as usize] = false;
                return Err(DataError::Rpu(error));
            },
        }
        match transmit.state {
            TransmitState::Packet => {
                if transmit.frame_len % 4 != 0 {
                    transmit.state = TransmitState::Tail;
                    return Ok(());
                }
                self.start_command(device, transmit)
            },
            TransmitState::Tail => self.start_command(device, transmit),
            TransmitState::Command => {
                transmit.state = TransmitState::Enqueue;
                Ok(())
            },
            TransmitState::Enqueue => {
                transmit.state = TransmitState::Trigger;
                Ok(())
            },
            TransmitState::Trigger => {
                device.command_triggered();
                transmit.state = TransmitState::Sent;
                Ok(())
            },
            TransmitState::Sent => Ok(()),
        }
    }

    /// The outcome of a copied packet.
    pub open spec fn packet_copied<B, E>(
        result: Result<(), DataError<E>>,
        device: Device<B>,
        device_after: Device<B>,
        transmit: Transmit,
        after: Transmit,
    ) -> bool {
        &&& device_after == device
        &&& match Self::command_context::<B, E>(device, transmit.token) {
            Err(error) => result == Err::<(), DataError<E>>(error) && after == transmit,
            Ok((command_address, queue_register)) => result is Ok && after == (Transmit {
                command_address,
                queue_register,
                state: TransmitState::Command,
                ..transmit
            }),
        }
    }

    fn start_command<B, E>(&self, device: &Device<B>, transmit: &mut Transmit) -> (result: Result<
        (),
        DataError<E>,
    >)
        requires
            self.wf(),
            device.wf(),
            old(transmit).token < TX,
        ensures
            Self::packet_copied(result, *device, *device, *old(transmit), *final(transmit)),
    {
        let command_base: u32 = match device.tx_command_base() {
            Some(command_base) => command_base,
            None => return Err(DataError::Device(DeviceError::NotInitialized)),
        };
        let queues = match device.queues() {
            Some(queues) => queues,
            None => return Err(DataError::Device(DeviceError::NotInitialized)),
        };
        transmit.command_address = command_base + TX_COMMAND_SLOT_SIZE * transmit.token as u32;
        transmit.queue_register = queues.command_busy.enqueue_address;
        transmit.state = TransmitState::Command;
        Ok(())
    }
}

/// A token is never handed to a second frame while it is in flight: the token
/// that a reservation takes was free.
pub proof fn law_tokens_are_exclusive(in_flight: Seq<bool>, from: int, token: int, other: int)
    requires
        takes_token(in_flight, from, token),
        0 <= other < in_flight.len(),
        in_flight[other],
    ensures
        other != token,
        in_flight.update(token, true)[other],
{
}

/// A received descriptor can always be posted again on a device with queues,
/// whatever became of its packet, and firmware then owns the same descriptors
/// as before.
pub proof fn law_received_descriptor_returns_to_firmware<
    B,
    E,
    const RX: usize,
    const TX: usize,
>(
    before: DataPath<RX, TX>,
    after: DataPath<RX, TX>,
    device: Device<B>,
    event: RxEventRef<'_>,
    packet_index: int,
)
    requires
        before.taken(event, packet_index) is Ok,
        after.rx_changed(
            &before,
            before.rx_posted@.update(
                before.taken(event, packet_index)->Ok_0.descriptor_id as int,
                false,
            ),
        ),
        device.queues is Some,
        device.rx_command_base != 0,
    ensures
        ({
            let descriptor = before.taken(event, packet_index)->Ok_0.descriptor_id;
            let start = after.post_start::<B, E>(device, descriptor, 0);
            &&& start matches Ok(post) && after.posted_after(post.advanced()) == before.rx_posted@
        }),
{
    let descriptor = before.taken(event, packet_index)->Ok_0.descriptor_id;
    assert(before.rx_posted@.update(descriptor as int, false).update(descriptor as int, true)
        =~= before.rx_posted@);
}

/// A receive event reads every field from its own place in the payload, and the
/// packets it announces lie inside the declared length.
pub proof fn law_rx_event_layout(message: HostMessageRef<'_>, event: RxEventRef<'_>)
    requires
        call_ensures(
            RxEventRef::parse,
            (message,),
            Ok::<RxEventRef<'_>, DataProtocolError>(event),
        ),
    ensures
        ({
            let payload = message.payload@;
            let declared = codec::u32_at(payload, 4) as int;
            &&& message.message_type == HostMessageType::Data
            &&& codec::u32_at(payload, 0) == 3
            &&& 20 + 17 * event.packet_count <= declared <= payload.len()
            &&& event.payload@ == payload.subrange(0, declared)
            &&& event.rx_packet_type == codec::i16_at(payload, 8)
            &&& event.rate_flags == payload[10]
            &&& event.rate == payload[11]
            &&& event.wdev_id == payload[12]
            &&& event.packet_count == payload[13]
            &&& event.mac_header_len == payload[15]
            &&& event.frequency_mhz == codec::u16_at(payload, 16)
            &&& event.signal_dbm == codec::i16_at(payload, 18)
        }),
{
}

/// Packet `index` of a receive event takes seventeen bytes behind the fixed part:
/// its descriptor, its length and its payload type.
pub proof fn law_rx_packet_layout(event: &RxEventRef<'_>, index: int)
    requires
        event.wf(),
        0 <= index,
    ensures
        event.packet_at(index) is Ok <==> index < event.packet_count && event.payload@[24 + 17
            * index] <= 2,
        event.packet_at(index) matches Ok(info) ==> {
            &&& info.descriptor_id == codec::u16_at(event.payload@, 20 + 17 * index)
            &&& info.packet_len == codec::u16_at(event.payload@, 22 + 17 * index)
            &&& event.payload@[24 + 17 * index] == (match info.payload_type {
                RxPayloadType::Mpdu => 0int,
                RxPayloadType::MsduWithMac => 1,
                RxPayloadType::Msdu => 2,
            })
        },
        event.packet_at(index) matches Err(error) ==> error == (if index >= event.packet_count {
            DataProtocolError::InvalidPacketIndex
        } else {
            DataProtocolError::InvalidRxPayloadType(event.payload@[24 + 17 * index])
        }),
{
    assert(20 + index * 17 + 4 == 24 + 17 * index) by (nonlinear_arith);
}

/// A transmit completion names its token in payload byte 8 and one status for each
/// frame, the count in byte 9 and the statuses from byte 22 on.
pub proof fn law_tx_done_layout(message: HostMessageRef<'_>, event: TxDoneEventRef<'_>)
    requires
        call_ensures(
            TxDoneEventRef::parse,
            (message,),
            Ok::<TxDoneEventRef<'_>, DataProtocolError>(event),
        ),
    ensures
        ({
            let payload = message.payload@;
            &&& message.message_type == HostMessageType::Data
            &&& codec::u32_at(payload, 0) == 2
            &&& codec::u32_at(payload, 4) == 22 + event.statuses@.len()
            &&& payload.len() >= 22 + event.statuses@.len()
            &&& event.token == payload[8]
            &&& event.statuses@.len() == payload[9]
            &&& forall|i: int|
                0 <= i < event.statuses@.len() ==> event.statuses@[i] == #[trigger] payload.skip(
                    22,
                )[i]
        }),
{
}

/// A transmission succeeded exactly when it reports a status and every status is
/// zero.
pub proof fn law_success_needs_every_status(event: &TxDoneEventRef<'_>, succeeded: bool)
    requires
        call_ensures(TxDoneEventRef::all_succeeded, (event,), succeeded),
    ensures
        succeeded <==> event.statuses@.len() > 0 && event.statuses@ == codec::zero_bytes(
            event.statuses@.len(),
        ),
{
    assert(succeeded ==> event.statuses@ =~= codec::zero_bytes(event.statuses@.len()));
}

/// A data event is what its command code says, for the device or token that its
/// payload names from byte 8 on, and needs the bytes that its kind is read from.
pub proof fn law_data_events_follow_their_code(message_type: HostMessageType, payload: Seq<u8>)
    requires
        message_type == HostMessageType::Data,
        payload.len() >= 12,
        12 <= codec::u32_at(payload, 4) <= payload.len(),
    ensures
        ({
            let code = codec::u32_at(payload, 0);
            let event = classified(message_type, payload);
            &&& code == 2 && payload.len() >= 22 && codec::u32_at(payload, 4) == 22 + payload[9]
                ==> event == Ok::<DataEvent, DataProtocolError>(
                DataEvent::TransmitDone { token: payload[8], status_count: payload[9] },
            )
            &&& code == 2 && codec::u32_at(payload, 4) != 22 + payload[9] ==> event == Err::<
                DataEvent,
                DataProtocolError,
            >(DataProtocolError::InvalidLength)
            &&& code == 3 ==> event == Ok::<DataEvent, DataProtocolError>(DataEvent::Receive)
            &&& code == 4 ==> event == Ok::<DataEvent, DataProtocolError>(
                DataEvent::CarrierOn { wdev_id: codec::u32_at(payload, 8) },
            )
            &&& code == 5 ==> event == Ok::<DataEvent, DataProtocolError>(
                DataEvent::CarrierOff { wdev_id: codec::u32_at(payload, 8) },
            )
            &&& code < 2 || code > 5 ==> event == Ok::<DataEvent, DataProtocolError>(
                DataEvent::Other(code),
            )
        }),
{
}

/// Messages of another type, and payloads shorter than they declare or than their
/// kind needs, are no data events.
pub proof fn law_malformed_data_events_are_refused(message_type: HostMessageType, payload: Seq<u8>)
    ensures
        message_type != HostMessageType::Data ==> classified(message_type, payload) == Err::<
            DataEvent,
            DataProtocolError,
        >(DataProtocolError::WrongMessageType),
        message_type == HostMessageType::Data && (payload.len() < 8 || codec::u32_at(payload, 4) < 8
            || codec::u32_at(payload, 4) > payload.len()) ==> classified(message_type, payload)
            == Err::<DataEvent, DataProtocolError>(DataProtocolError::InvalidLength),
        message_type == HostMessageType::Data && payload.len() >= 8 && 8 <= codec::u32_at(
            payload,
            4,
        ) < 12 && codec::u32_at(payload, 4) <= payload.len() && (codec::u32_at(payload, 0) == 4
            || codec::u32_at(payload, 0) == 5) ==> classified(message_type, payload) == Err::<
            DataEvent,
            DataProtocolError,
        >(DataProtocolError::InvalidLength),
{
}

/// An 802.11 data frame becomes an Ethernet frame between its outer addresses: the
/// distribution bits choose them, the type is the one behind the LLC header, and
/// the rest of the frame follows.
pub proof fn law_mpdu_becomes_ethernet(frame: Seq<u8>, mac_header_len: int)
    requires
        24 <= mac_header_len,
        frame.len() <= 0xffff,
        mac_header_len + 8 <= frame.len(),
        frame.len() >= 30,
    ensures
        ({
            let to_ds = frame[1] % 2 == 1;
            let from_ds = frame[1] / 2 % 2 == 1;
            let ether_type = 0x100 * frame[mac_header_len + 6] + frame[mac_header_len + 7];
            let payload = mac_header_len + (if ether_type >= 0x600 {
                8int
            } else {
                2
            });
            &&& mpdu_ethernet(frame, mac_header_len) matches Ok(ethernet) && {
                &&& ethernet.len() == 14 + frame.len() - payload
                &&& ethernet.subrange(0, 6) == (if to_ds {
                    frame.subrange(16, 22)
                } else {
                    frame.subrange(4, 10)
                })
                &&& ethernet.subrange(6, 12) == (if !from_ds {
                    frame.subrange(10, 16)
                } else if to_ds {
                    frame.subrange(24, 30)
                } else {
                    frame.subrange(16, 22)
                })
                &&& ethernet[12] == frame[mac_header_len + 6]
                &&& ethernet[13] == frame[mac_header_len + 7]
                &&& ethernet.skip(14) == frame.skip(payload)
            }
        }),
{
    let ethernet = mpdu_ethernet(frame, mac_header_len)->Ok_0;
    let (destination, source) = addresses_of(frame, codec::u16_at(frame, 0))->Ok_0;
    let ether_type = codec::be16_at(frame, mac_header_len + 6);
    let payload = frame.skip(mac_header_len + llc_skip_of(ether_type));
    lemma_distribution_bits(frame[0], frame[1]);
    lemma_ethernet_parts(destination, source, ether_type, payload);
}

/// An A-MSDU subframe becomes an Ethernet frame between the addresses of its own
/// header, which follows the 802.11 header where there is one.
pub proof fn law_msdu_becomes_ethernet(frame: Seq<u8>, mac_header_len: int)
    requires
        0 <= mac_header_len,
        frame.len() <= 0xffff,
        mac_header_len + 22 <= frame.len(),
    ensures
        ({
            let ether_type = 0x100 * frame[mac_header_len + 20] + frame[mac_header_len + 21];
            let payload = mac_header_len + (if ether_type >= 0x600 {
                22int
            } else {
                16
            });
            &&& msdu_ethernet(frame, mac_header_len) matches Ok(ethernet) && {
                &&& ethernet.len() == 14 + frame.len() - payload
                &&& ethernet.subrange(0, 6) == frame.subrange(mac_header_len, mac_header_len + 6)
                &&& ethernet.subrange(6, 12) == frame.subrange(
                    mac_header_len + 6,
                    mac_header_len + 12,
                )
                &&& ethernet[12] == frame[mac_header_len + 20]
                &&& ethernet[13] == frame[mac_header_len + 21]
                &&& ethernet.skip(14) == frame.skip(payload)
            }
        }),
{
    let ether_type = codec::be16_at(frame, mac_header_len + 20);
    let payload = frame.skip(mac_header_len + 14 + llc_skip_of(ether_type));
    lemma_ethernet_parts(
        frame.subrange(mac_header_len, mac_header_len + 6),
        frame.subrange(mac_header_len + 6, mac_header_len + 12),
        ether_type,
        payload,
    );
}

/// Frames that end before their headers do are refused as too short.
pub proof fn law_short_frames_are_refused(frame: Seq<u8>, mac_header_len: int)
    requires
        0 <= mac_header_len <= 0xffff,
        frame.len() <= 0xffff,
    ensures
        mac_header_len < 24 || frame.len() < 24 || frame.len() < mac_header_len + 8
            ==> mpdu_ethernet(frame, mac_header_len) == Err::<Seq<u8>, DataProtocolError>(
            DataProtocolError::FrameTooShort,
        ),
        frame.len() < mac_header_len + 22 ==> msdu_ethernet(frame, mac_header_len) == Err::<
            Seq<u8>,
            DataProtocolError,
        >(DataProtocolError::FrameTooShort),
        ethernet_of(frame, RxPayloadType::Mpdu, mac_header_len) == mpdu_ethernet(
            frame,
            mac_header_len,
        ),
        ethernet_of(frame, RxPayloadType::MsduWithMac, mac_header_len) == msdu_ethernet(
            frame,
            mac_header_len,
        ),
        ethernet_of(frame, RxPayloadType::Msdu, mac_header_len) == msdu_ethernet(frame, 0),
{
}

/// The distribution bits are the two low bits of the second frame control byte.
proof fn lemma_distribution_bits(low: u8, high: u8)
    ensures
        to_ds((low + 256 * high) as u16) <==> high % 2 == 1,
        from_ds((low + 256 * high) as u16) <==> high / 2 % 2 == 1,
{
}

/// The four parts of an Ethernet frame stand at their places.
proof fn lemma_ethernet_parts(
    destination: Seq<u8>,
    source: Seq<u8>,
    ether_type: u16,
    payload: Seq<u8>,
)
    requires
        destination.len() == 6,
        source.len() == 6,
    ensures
        ({
            let frame = ethernet_frame(destination, source, ether_type, payload);
            &&& frame.len() == 14 + payload.len()
            &&& frame.subrange(0, 6) == destination
            &&& frame.subrange(6, 12) == source
            &&& 0x100 * frame[12] + frame[13] == ether_type
            &&& frame.skip(14) == payload
        }),
{
    let frame = ethernet_frame(destination, source, ether_type, payload);
    assert(frame.subrange(0, 6) =~= destination);
    assert(frame.subrange(6, 12) =~= source);
    assert(frame.skip(14) =~= payload);
}

/// A transmission takes the free token that comes first when the tokens are walked
/// in a circle from the last one handed out.
pub proof fn law_tokens_rotate(in_flight: Seq<bool>, from: int, token: int, other: int)
    requires
        0 <= from < in_flight.len(),
        takes_token(in_flight, from, token),
        0 <= other < in_flight.len(),
        !in_flight[other],
    ensures
        !in_flight[token],
        (token - from) % (in_flight.len() as int) <= (other - from) % (in_flight.len() as int),
{
    let n = in_flight.len() as int;
    lemma_distance(n, from, token);
    lemma_distance(n, from, other);
}

/// The distance from `from` to `token` around a circle of `n` places.
proof fn lemma_distance(n: int, from: int, token: int)
    requires
        0 <= from < n,
        0 <= token < n,
    ensures
        (token - from) % n == (if from <= token {
            token - from
        } else {
            token - from + n
        }),
{
    if from <= token {
        vstd::arithmetic::div_mod::lemma_small_mod((token - from) as nat, n as nat);
    } else {
        vstd::arithmetic::div_mod::lemma_mod_add_multiples_vanish(token - from, n);
        vstd::arithmetic::div_mod::lemma_small_mod((token - from + n) as nat, n as nat);
    }
}

/// A transmission that begins marks its token alone, moves on to the next token,
/// and describes the frame that its packet slot will hold: the DMA pointer is the
/// slot's offset in packet memory.
pub proof fn law_transmission_describes_its_slot<const RX: usize, const TX: usize>(
    before: DataPath<RX, TX>,
    after: DataPath<RX, TX>,
    wdev_id: u8,
    frame: Seq<u8>,
    dscp_tos: u16,
    transmit: Transmit,
)
    requires
        before.wf(),
        DataPath::transmit_begun(before, after, wdev_id, frame, dscp_tos, transmit),
    ensures
        14 <= frame.len() <= before.tx_buffer_size,
        !before.tx_in_flight@[transmit.token as int],
        after.tx_in_flight@ == before.tx_in_flight@.update(transmit.token as int, true),
        after.rx_posted@ == before.rx_posted@,
        after.next_tx == (transmit.token + 1) % (TX as int),
        transmit.frame_len == frame.len(),
        transmit.packet_address == 0xb000_5000 + transmit.token * before.tx_stride,
        transmit.packet_address + frame.len() <= 0xb003_1000,
        transmit.command@[20] == wdev_id,
        transmit.command@[21] == transmit.token,
        transmit.command@.subrange(28, 34) == frame.subrange(0, 6),
        transmit.command@.subrange(34, 40) == frame.subrange(6, 12),
        codec::u16_at(transmit.command@, 53) == frame.len(),
        0xb000_0000 + codec::u32_at(transmit.command@, 55) == transmit.packet_address,
{
    let token = transmit.token as int;
    let pointer = (transmit.packet_address % memory::RPU_WINDOW) as u32;
    law_tx_command_layout(wdev_id, transmit.token, frame, dscp_tos, pointer);
    law_packet_slots_do_not_overlap(&before, 0, 0, token, token);
    if token + 1 < TX {
        vstd::arithmetic::div_mod::lemma_small_mod((token + 1) as nat, TX as nat);
    }
}

/// A transmission first writes the whole frame into its packet slot, in whole words
/// and then the odd bytes, next the command, and only then publishes the command
/// and rings the doorbell.
pub proof fn law_transmission_publishes_last(transmit: Transmit, trigger: u32)
    requires
        transmit.wf(),
    ensures
        ({
            let words = transmit.frame_len / 4 * 4;
            let request = transmit.next(trigger);
            match transmit.state {
                TransmitState::Packet => request == Some(
                    RpuRequest::WriteFrom {
                        processor: Processor::Umac,
                        address: transmit.packet_address,
                        start: 0,
                        len: words as usize,
                    },
                ),
                TransmitState::Tail => request == Some(
                    RpuRequest::WriteFrom {
                        processor: Processor::Umac,
                        address: (transmit.packet_address + words) as u32,
                        start: words as usize,
                        len: (transmit.frame_len - words) as usize,
                    },
                ),
                TransmitState::Command => request == Some(
                    RpuRequest::WriteFrom {
                        processor: Processor::Umac,
                        address: transmit.command_address,
                        start: 0,
                        len: 59,
                    },
                ),
                TransmitState::Enqueue => request == Some(
                    RpuRequest::WriteWord {
                        processor: Processor::Lmac,
                        address: transmit.queue_register,
                        value: transmit.command_address,
                    },
                ),
                TransmitState::Trigger => request == Some(
                    RpuRequest::WriteWord {
                        processor: Processor::Lmac,
                        address: 0xa400_0480,
                        value: trigger,
                    },
                ),
                TransmitState::Sent => request is None,
            }
        }),
{
}

/// A failed access gives the token back while the command is not published, and
/// keeps it and reports the doubt once it may be; a transmission that was answered
/// keeps its token.
pub proof fn law_published_transmissions_keep_their_token<
    B,
    E,
    const RX: usize,
    const TX: usize,
>(
    before: DataPath<RX, TX>,
    after: DataPath<RX, TX>,
    device: Device<B>,
    device_after: Device<B>,
    from: Transmit,
    to: Transmit,
    reply: Result<&[u8], RpuError<E>>,
    result: Result<(), DataError<E>>,
)
    requires
        DataPath::transmit_resumed(before, after, device, device_after, from, to, reply, result),
        before.transmit_wf(from),
        device.wf(),
    ensures
        ({
            let published = from.state == TransmitState::Enqueue || from.state
                == TransmitState::Trigger;
            let token = from.token as int;
            &&& reply is Err && !published ==> !after.tx_in_flight@[token] && result
                == Err::<(), DataError<E>>(DataError::Rpu(reply->Err_0))
            &&& reply is Err && published ==> after.tx_in_flight@[token] && result
                == Err::<(), DataError<E>>(
                DataError::QueueOwnershipUncertain(DeviceError::Rpu(reply->Err_0)),
            )
            &&& reply is Ok ==> after.tx_in_flight@ == before.tx_in_flight@
            &&& to.state == TransmitState::Enqueue && from.state != TransmitState::Enqueue
                ==> from.state == TransmitState::Command
            &&& to.state == TransmitState::Command && from.state != TransmitState::Command ==> (
            from.state == TransmitState::Tail || (from.state == TransmitState::Packet
                && from.frame_len % 4 == 0)) && to.command_address == device.tx_command_base + 148
                * from.token && to.queue_register
                == device.queues->0.command_busy.enqueue_address
            &&& to.state == TransmitState::Sent && from.state != TransmitState::Sent ==> from.state
                == TransmitState::Trigger
            &&& device_after.command_counter != device.command_counter ==> to.state
                == TransmitState::Sent && device_after.command_counter == (
            device.command_counter + 1) % 0x1_0000_0000
        }),
{
}

/// Posting a receive buffer writes the descriptor number into the buffer's slot,
/// then the buffer pointer into the descriptor's command slot, and only then hands
/// the command slot to the queue of the pool.
pub proof fn law_receive_post_publishes_last<B, E, const RX: usize, const TX: usize>(
    path: DataPath<RX, TX>,
    device: Device<B>,
    descriptor: u16,
    pool_id: int,
    post: RxPost,
)
    requires
        path.wf(),
        0 <= pool_id,
        DataPath::<RX, TX>::slots_addressable(device),
        path.post_start::<B, E>(device, descriptor, pool_id) == Ok::<RxPost, DataError<E>>(post),
    ensures
        descriptor < RX,
        !path.rx_posted@[descriptor as int],
        post.next() == Some(
            RpuRequest::WriteWord {
                processor: Processor::Lmac,
                address: path.rx_slot(descriptor as int) as u32,
                value: descriptor as u32,
            },
        ),
        post.advanced().next() == Some(
            RpuRequest::WriteIndirectWord {
                processor: Processor::Lmac,
                address: (0xc000_0000 + (device.rx_command_base + 8 * descriptor)
                    % 0x100_0000) as u32,
                value: ((path.rx_slot(descriptor as int) + 4) % 0x100_0000) as u32,
            },
        ),
        post.advanced().advanced().next() == Some(
            RpuRequest::WriteWord {
                processor: Processor::Lmac,
                address: device.queues->0.rx_buffer_busy@[pool_id].enqueue_address,
                value: (device.rx_command_base + 8 * descriptor) as u32,
            },
        ),
        post.advanced().advanced().advanced().next() is None,
{
    law_packet_slots_do_not_overlap(&path, descriptor as int, descriptor as int, 0, 0);
}

/// A descriptor counts as posted as soon as its buffer pointer is written, so a
/// failed hand-over leaves it posted and in doubt; an earlier failure leaves it
/// free.
pub proof fn law_receive_post_ownership<E, const RX: usize, const TX: usize>(
    before: DataPath<RX, TX>,
    after: DataPath<RX, TX>,
    from: RxPost,
    to: RxPost,
    reply: Result<&[u8], RpuError<E>>,
    result: Result<(), DataError<E>>,
)
    requires
        before.post_wf(from),
        DataPath::<RX, TX>::post_resumed(before, after, from, to, reply, result),
    ensures
        reply is Err ==> after == before && to == from && result == Err::<(), DataError<E>>(
            if from.state == PostState::Enqueue {
                DataError::QueueOwnershipUncertain(DeviceError::Rpu(reply->Err_0))
            } else {
                DataError::Rpu(reply->Err_0)
            },
        ),
        reply is Ok ==> result is Ok && after.rx_posted@[from.descriptor as int] == (from.state
            != PostState::Descriptor),
        reply is Ok ==> to.state == (match from.state {
            PostState::Descriptor => PostState::Pointer,
            PostState::Pointer => PostState::Enqueue,
            _ => PostState::Posted,
        }),
        after.tx_in_flight@ == before.tx_in_flight@,
        forall|other: int|
            0 <= other < RX && other != from.descriptor ==> after.rx_posted@[other]
                == before.rx_posted@[other],
{
}

/// A received packet is read from behind the headroom of the slot that its posted
/// descriptor names, and only when it fits the slot and the output.
pub proof fn law_packets_are_read_from_their_slot<E, const RX: usize, const TX: usize>(
    path: DataPath<RX, TX>,
    event: RxEventRef<'_>,
    packet_index: int,
    output_len: usize,
)
    requires
        path.wf(),
        path.taken(event, packet_index) is Ok,
    ensures
        ({
            let info = path.taken(event, packet_index)->Ok_0;
            let start = path.receive_start::<E>(event, info, output_len);
            let packet = match start {
                ReceiveStart::Refuse(packet, _) => packet,
                ReceiveStart::Copy(packet) => packet,
            };
            &&& event.packet_at(packet_index) == Ok::<RxPacketInfo, DataProtocolError>(info)
            &&& info.descriptor_id < RX && path.rx_posted@[info.descriptor_id as int]
            &&& start is Copy <==> info.packet_len <= path.rx_buffer_size && info.packet_len
                <= output_len
            &&& start matches ReceiveStart::Refuse(_, verdict) ==> (verdict is TooLarge
                <==> info.packet_len > path.rx_buffer_size)
            &&& packet.copy_request() == (RpuRequest::ReadInto {
                processor: Processor::Lmac,
                address: (path.rx_slot(info.descriptor_id as int) + 4) as u32,
                start: 0,
                len: info.packet_len as usize,
            })
            &&& packet.mac_header_len == event.mac_header_len
            &&& packet.signal_dbm == event.signal_dbm
            &&& packet.frequency_mhz == event.frequency_mhz
        }),
{
}

/// A delivered frame reports its own length and type, the descriptor it came in and
/// the signal of the event that announced it.
pub proof fn law_delivered_frames_describe_themselves<E>(packet: RxPacket, output: Seq<u8>)
    requires
        packet.info.packet_len <= output.len(),
    ensures
        ({
            let raw = output.subrange(0, packet.info.packet_len as int);
            let converted = ethernet_of(
                raw,
                packet.info.payload_type,
                packet.mac_header_len as int,
            );
            let (verdict, after) = packet.verdict::<E>(output);
            match converted {
                Ok(frame) => {
                    &&& verdict matches ReceiveVerdict::Delivered(received) && {
                        &&& received.len == frame.len() as usize
                        &&& received.ether_type == 0x100 * frame[12] + frame[13]
                        &&& received.descriptor_id == packet.info.descriptor_id
                        &&& received.signal_dbm == packet.signal_dbm
                        &&& received.frequency_mhz == packet.frequency_mhz
                    }
                    &&& after == frame + output.skip(frame.len() as int)
                },
                Err(error) => verdict == ReceiveVerdict::<E>::Malformed(error) && after == output,
            }
        }),
{
}

/// A frame is refused for transmission exactly when it is shorter than an Ethernet
/// header or longer than its slot.
pub proof fn law_transmit_bounds(frame_len: int, capacity: int)
    requires
        0 <= frame_len,
        capacity <= 0xffff,
    ensures
        transmit_fault(frame_len, capacity) is None <==> 14 <= frame_len <= capacity,
        transmit_fault(frame_len, capacity) == Some(DataProtocolError::FrameTooShort)
            <==> frame_len < 14,
        transmit_fault(frame_len, capacity) == Some(DataProtocolError::FrameTooLarge) <==> 14
            <= frame_len && capacity < frame_len,
{
}

/// Slots are whole words with their headroom: four bytes before a received packet,
/// 52 behind a sent one; a layout is accepted exactly when all slots fit packet
/// memory.
pub proof fn law_layouts_fit_packet_memory(
    rx: int,
    tx: int,
    rx_buffer_size: int,
    tx_buffer_size: int,
)
    requires
        1 <= rx <= 0xffff,
        1 <= tx <= 137,
        1 <= rx_buffer_size <= 0xffff,
        14 <= tx_buffer_size <= 0xffff,
    ensures
        rx_stride_of(rx_buffer_size) % 4 == 0,
        rx_buffer_size + 4 <= rx_stride_of(rx_buffer_size) < rx_buffer_size + 8,
        tx_stride_of(tx_buffer_size) % 4 == 0,
        tx_buffer_size + 52 <= tx_stride_of(tx_buffer_size) < tx_buffer_size + 56,
        layout_fault(rx, tx, rx_buffer_size, tx_buffer_size) == (if rx_stride_of(rx_buffer_size)
            * rx + tx_stride_of(tx_buffer_size) * tx <= 0xb003_1000 - 0xb000_5000 {
            None::<DataLayoutError>
        } else {
            Some(DataLayoutError::PacketRamExhausted)
        }),
{
}

/// Receive slots end where packet memory ends, transmit slots start where it
/// starts, and each slot follows the one before it.
pub proof fn law_slots_are_laid_out_in_order<const RX: usize, const TX: usize>(
    path: &DataPath<RX, TX>,
    index: int,
)
    requires
        path.wf(),
    ensures
        path.rx_slot(RX as int) == 0xb003_1000,
        path.rx_slot(index + 1) == path.rx_slot(index) + rx_stride_of(path.rx_buffer_size as int),
        path.tx_slot(0) == 0xb000_5000,
        path.tx_slot(index + 1) == path.tx_slot(index) + tx_stride_of(path.tx_buffer_size as int),
{
    let rx = path.rx_stride as int;
    let tx = path.tx_stride as int;
    assert(rx * (RX as int) == (RX as int) * rx) by (nonlinear_arith);
    assert((index + 1) * rx == index * rx + rx) by (nonlinear_arith);
    assert((index + 1) * tx == index * tx + tx) by (nonlinear_arith);
}

/// An encoded TX command holds the frame's destination in command bytes 28 to 34 and
/// its source in command bytes 34 to 40.
pub proof fn law_encoded_tx_commands(
    wdev_id: u8,
    token: u8,
    frame: &[u8],
    dscp_tos: u16,
    dma_pointer: u32,
    command: [u8; TX_COMMAND_TOTAL_LEN],
    i: int,
)
    requires
        14 <= frame@.len() <= 0xffff,
        call_ensures(
            encode_tx_command,
            (wdev_id, token, frame, dscp_tos, dma_pointer),
            command,
        ),
        0 <= i < 6,
    ensures
        command@.len() == 59,
        command@[20] == wdev_id,
        command@[21] == token,
        command@[28 + i] == frame@[i],
        command@[34 + i] == frame@[6 + i],
        codec::u16_at(command@, 40) == 0x100 * frame@[12] + frame@[13],
        codec::u32_at(command@, 42) == dscp_tos,
        codec::u16_at(command@, 53) == frame@.len(),
        codec::u32_at(command@, 55) == dma_pointer,
{
    law_tx_command_layout(wdev_id, token, frame@, dscp_tos, dma_pointer);
    assert(command@.subrange(28, 34)[i] == command@[28 + i]);
    assert(command@.subrange(34, 40)[i] == command@[34 + i]);
}

/// Converting a received MPDU rewrites the buffer: destination and source of the
/// 802.11 header first, then the type, then the rest of the packet.
pub proof fn law_converted_mpdus(mac_header_len: usize, len: usize)
    requires
        24 <= mac_header_len <= 0xff,
    ensures
        forall|frame: &mut [u8]| #[trigger]
            call_ensures(
                convert_to_ethernet,
                (frame, RxPayloadType::Mpdu, mac_header_len),
                Ok::<usize, DataProtocolError>(len),
            ) && mac_header_len + 8 <= frame@.len() <= 0xffff && frame@.len() >= 30 ==> {
                let to_ds = frame@[1] % 2 == 1;
                let from_ds = frame@[1] / 2 % 2 == 1;
                &&& final(frame)@.len() == frame@.len()
                &&& 14 <= len <= frame@.len()
                &&& final(frame)@.subrange(0, 6) == (if to_ds {
                    frame@.subrange(16, 22)
                } else {
                    frame@.subrange(4, 10)
                })
                &&& final(frame)@.subrange(6, 12) == (if !from_ds {
                    frame@.subrange(10, 16)
                } else if to_ds {
                    frame@.subrange(24, 30)
                } else {
                    frame@.subrange(16, 22)
                })
                &&& final(frame)@[12] == frame@[mac_header_len + 6]
                &&& final(frame)@[13] == frame@[mac_header_len + 7]
            },
{
    assert forall|frame: &mut [u8]| #[trigger]
        call_ensures(
            convert_to_ethernet,
            (frame, RxPayloadType::Mpdu, mac_header_len),
            Ok::<usize, DataProtocolError>(len),
        ) && mac_header_len + 8 <= frame@.len() <= 0xffff && frame@.len() >= 30 implies {
        let to_ds = frame@[1] % 2 == 1;
        let from_ds = frame@[1] / 2 % 2 == 1;
        &&& final(frame)@.len() == frame@.len()
        &&& 14 <= len <= frame@.len()
        &&& final(frame)@.subrange(0, 6) == (if to_ds {
            frame@.subrange(16, 22)
        } else {
            frame@.subrange(4, 10)
        })
        &&& final(frame)@.subrange(6, 12) == (if !from_ds {
            frame@.subrange(10, 16)
        } else if to_ds {
            frame@.subrange(24, 30)
        } else {
            frame@.subrange(16, 22)
        })
        &&& final(frame)@[12] == frame@[mac_header_len + 6]
        &&& final(frame)@[13] == frame@[mac_header_len + 7]
    } by {
        law_mpdu_becomes_ethernet(frame@, mac_header_len as int);
        let ethernet = mpdu_ethernet(frame@, mac_header_len as int)->Ok_0;
        assert(final(frame)@.subrange(0, 6) =~= ethernet.subrange(0, 6));
        assert(final(frame)@.subrange(6, 12) =~= ethernet.subrange(6, 12));
    }
}

/// A completed token is free again and can be told from one that was never sent; a
/// token that is handed out was free.
pub proof fn law_tokens_return<const RX: usize, const TX: usize>(
    token: u8,
    result: Result<(), DataProtocolError>,
    reserved: Option<u8>,
)
    ensures
        forall|path: &mut DataPath<RX, TX>| #[trigger]
            call_ensures(DataPath::<RX, TX>::complete_tx, (path, token), result) ==> {
                &&& result is Ok <==> token < TX && path.tx_in_flight@[token as int]
                &&& result is Ok ==> !final(path).tx_in_flight@[token as int] && final(path).rx_posted@ == path.rx_posted@
                &&& result is Err ==> *final(path) == *path && result == Err::<
                    (),
                    DataProtocolError,
                >(DataProtocolError::InvalidDescriptor(token as u16))
            },
        forall|path: &mut DataPath<RX, TX>| #[trigger]
            call_ensures(DataPath::<RX, TX>::reserve_tx, (path,), reserved) ==> {
                &&& reserved matches Some(own) ==> own < TX && !path.tx_in_flight@[own as int]
                    && final(path).tx_in_flight@ == path.tx_in_flight@.update(own as int, true)
                    && final(path).next_tx == (if own + 1 == TX {
                    0
                } else {
                    own + 1
                })
                &&& reserved is None ==> *final(path) == *path && (forall|i: int|
                    0 <= i < TX ==> path.tx_in_flight@[i])
            },
{
}

} // verus!
