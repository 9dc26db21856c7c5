//! Top-level boot, event dispatch, watchdog, recovery, and controlled-port
//! runtime.

use vstd::prelude::*;

use crate::bridge;
use crate::codec;
use crate::control;
use crate::control::{
    AssociationRequest, AuthenticationRequest, ControlEvent, PowerSaveState,
};
use crate::data;
use crate::data::{
    DataError, DataEvent, DataLayoutError, DataPath, DataProtocolError, PostState, ReceiveStart,
    ReceiveVerdict, ReceivedFrame, RxEventRef, RxPost, Transmit, TxDoneEventRef, EAPOL_ETHERTYPE,
    ETHERNET_HEADER_LEN,
};
use crate::device;
use crate::device::{
    CommandSend, Device, DeviceError, EventRead, InterruptSwitch, QueueInit, SendOutcome,
    SendState, SYSTEM_INIT_MESSAGE_LEN,
};
use crate::firmware;
use crate::firmware::{
    FirmwareBundle, FirmwareError, FirmwareLoad, FirmwareReport, FirmwareTrustPolicy, LoadError,
    LoadPhase,
};
use crate::memory;
use crate::memory::{Processor, ProcessorReset, ResetStage, RpuError, RpuRequest, Wake, WakeStage};
use crate::protocol;
use crate::protocol::{
    HostMessageRef, HostMessageType, ProtocolError, ScanReason, ScanRequest, SystemInitConfig,
    UMAC_HEADER_LEN,
};
use crate::station;
use crate::station::{
    Commit, InterfaceCreation, StationController, StationError, StationFault, StationState, Submission,
};
use crate::system;
use crate::system::SystemEvent;

verus! {

broadcast use crate::codec::group_image_lengths;

/// Default wake-status polls after a board reset.
pub const DEFAULT_WAKE_ATTEMPTS: u16 = 1000;

/// LMAC watchdog status register.
pub const RPU_REG_WATCHDOG_STATUS: u32 = 0xa400_0004;

/// LMAC watchdog clear register.
pub const RPU_REG_WATCHDOG_CLEAR: u32 = 0xa400_000c;

/// LMAC watchdog timer register.
pub const RPU_REG_WATCHDOG_TIMER: u32 = 0xa400_004c;

/// Watchdog status and clear bit.
pub const RPU_WATCHDOG_BIT: u32 = 2;

/// Watchdog timer reload value.
pub const RPU_WATCHDOG_RELOAD: u32 = 0x00ff_ffff;

/// Value of the status register while it cannot be read.
pub const WATCHDOG_SENTINEL: u32 = 0xaaaa_aaaa;

/// Reads of the status register before its value counts as invalid.
pub const WATCHDOG_READS: u8 = 10;

/// Top-level driver lifecycle.
#[derive(Clone, Copy, Debug, PartialEq, Eq, Structural)]
pub enum DriverState {
    Cold,
    Recovering,
    WaitingForSystemInit,
    Ready,
    Fault,
}

/// Event returned after host-message dispatch.
#[derive(Clone, Copy, Debug, PartialEq, Eq)]
pub enum DriverEvent<'a> {
    System(SystemEvent<'a>),
    Control(ControlEvent<'a>),
    Data(DataEvent),
    TransmitDone(TxDoneEventRef<'a>),
    Receive(RxEventRef<'a>),
    Supplicant(&'a [u8]),
}

/// Runtime operation failure.
#[derive(Debug)]
pub enum DriverError<E> {
    Device(DeviceError<E>),
    Data(DataError<E>),
    DataProtocol(DataProtocolError),
    Firmware(LoadError<E>),
    Protocol(ProtocolError),
    Station(StationError<E>),
    InvalidState { current: DriverState, required: DriverState },
    InvalidStationState { current: StationState, required: StationState },
    ConfigurationMismatch,
    WrongInterface { expected: u8, received: u8 },
    FrameTooShort,
    ControlledPortClosed { state: StationState, ether_type: u16 },
    UnexpectedEventForState { state: DriverState },
    InvalidWatchdogStatus,
}

impl<E> vstd::std_specs::convert::FromSpecImpl<DeviceError<E>> for DriverError<E> {
    open spec fn obeys_from_spec() -> bool {
        true
    }

    open spec fn from_spec(value: DeviceError<E>) -> Self {
        DriverError::Device(value)
    }
}

impl<E> From<DeviceError<E>> for DriverError<E> {
    fn from(value: DeviceError<E>) -> (error: Self) {
        DriverError::Device(value)
    }
}

impl<E> vstd::std_specs::convert::FromSpecImpl<DataError<E>> for DriverError<E> {
    open spec fn obeys_from_spec() -> bool {
        true
    }

    open spec fn from_spec(value: DataError<E>) -> Self {
        DriverError::Data(value)
    }
}

impl<E> From<DataError<E>> for DriverError<E> {
    fn from(value: DataError<E>) -> (error: Self) {
        DriverError::Data(value)
    }
}

impl<E> vstd::std_specs::convert::FromSpecImpl<LoadError<E>> for DriverError<E> {
    open spec fn obeys_from_spec() -> bool {
        true
    }

    open spec fn from_spec(value: LoadError<E>) -> Self {
        DriverError::Firmware(value)
    }
}

impl<E> From<LoadError<E>> for DriverError<E> {
    fn from(value: LoadError<E>) -> (error: Self) {
        DriverError::Firmware(value)
    }
}

impl<E> vstd::std_specs::convert::FromSpecImpl<ProtocolError> for DriverError<E> {
    open spec fn obeys_from_spec() -> bool {
        true
    }

    open spec fn from_spec(value: ProtocolError) -> Self {
        DriverError::Protocol(value)
    }
}

impl<E> From<ProtocolError> for DriverError<E> {
    fn from(value: ProtocolError) -> (error: Self) {
        DriverError::Protocol(value)
    }
}

impl<E> vstd::std_specs::convert::FromSpecImpl<StationError<E>> for DriverError<E> {
    open spec fn obeys_from_spec() -> bool {
        true
    }

    open spec fn from_spec(value: StationError<E>) -> Self {
        DriverError::Station(value)
    }
}

impl<E> From<StationError<E>> for DriverError<E> {
    fn from(value: StationError<E>) -> (error: Self) {
        DriverError::Station(value)
    }
}

/// Board or driver recovery failure.
#[derive(Debug)]
pub enum RecoveryError<E, P> {
    Platform(P),
    Driver(DriverError<E>),
}

impl<E, P> vstd::std_specs::convert::FromSpecImpl<DriverError<E>> for RecoveryError<E, P> {
    open spec fn obeys_from_spec() -> bool {
        true
    }

    open spec fn from_spec(value: DriverError<E>) -> Self {
        RecoveryError::Driver(value)
    }
}

impl<E, P> From<DriverError<E>> for RecoveryError<E, P> {
    fn from(value: DriverError<E>) -> (error: Self) {
        RecoveryError::Driver(value)
    }
}

/// Owns one complete native nRF7002 driver instance.
pub struct NativeDriver<B, const RX: usize, const TX: usize> {
    pub device: Device<B>,
    pub data: DataPath<RX, TX>,
    pub station: StationController,
    pub state: DriverState,
    pub ifaceindex: i32,
    pub wdev_id: u8,
    pub configured_mac: Option<[u8; 6]>,
}

/// The EtherType of an Ethernet frame.
pub open spec fn ether_type_of(frame: Seq<u8>) -> Option<u16> {
    if frame.len() < ETHERNET_HEADER_LEN {
        None
    } else {
        Some(codec::be16_at(frame, 12))
    }
}

/// Reads the EtherType of an Ethernet frame.
pub fn ethernet_type(frame: &[u8]) -> (ether_type: Option<u16>)
    ensures
        ether_type == ether_type_of(frame@),
{
    if frame.len() < ETHERNET_HEADER_LEN {
        return None;
    }
    Some(codec::read_be16(frame, 12))
}

impl<B, const RX: usize, const TX: usize> NativeDriver<B, RX, TX> {
    /// The queues and the packet layout are well-formed, and every RX command
    /// slot has an address.
    pub open spec fn wf(&self) -> bool {
        &&& self.device.wf()
        &&& self.data.wf()
        &&& DataPath::<RX, TX>::slots_addressable(self.device)
    }

    /// The driver in recovery, with its station detached.
    pub open spec fn recovering(self) -> Self {
        NativeDriver {
            station: self.station.detached().moved(StationState::Recovering),
            configured_mac: None,
            state: DriverState::Recovering,
            ..self
        }
    }

    /// The driver in its fault state.
    pub open spec fn faulted(self) -> Self {
        NativeDriver { state: DriverState::Fault, ..self }
    }

    /// The controlled port: EAPOL passes while a supplicant needs it, anything
    /// else only while the port is open.
    pub open spec fn port_allows(&self, ether_type: u16) -> bool {
        if ether_type == EAPOL_ETHERTYPE {
            self.station.wants_eapol()
        } else {
            self.station.port_open()
        }
    }

    /// Creates one cold driver instance.
    pub fn new(
        bus: B,
        rx_buffer_size: usize,
        tx_buffer_size: usize,
        ifaceindex: i32,
        firmware_index: i8,
        wdev_id: u32,
    ) -> (result: Result<Self, DataLayoutError>)
        ensures
            ({
                let fault = data::layout_fault(
                    RX as int,
                    TX as int,
                    rx_buffer_size as int,
                    tx_buffer_size as int,
                );
                match result {
                    Ok(driver) => {
                        &&& wdev_id <= u8::MAX
                        &&& fault is None
                        &&& driver.wf()
                        &&& driver.device.rpu.bus == bus
                        &&& driver.device.queues is None
                        &&& !driver.device.recovery_required
                        &&& driver.data.rx_buffer_size == rx_buffer_size
                        &&& driver.data.tx_buffer_size == tx_buffer_size
                        &&& driver.data.tx_in_flight@ == Seq::new(TX as nat, |i: int| false)
                        &&& driver.data.rx_posted@ == Seq::new(RX as nat, |i: int| false)
                        &&& driver.station.ifaceindex == ifaceindex
                        &&& driver.station.firmware_index == firmware_index
                        &&& driver.station.wdev_id == wdev_id
                        &&& driver.station.state == StationState::Down
                        &&& !driver.station.port_open()
                        &&& !driver.station.wants_eapol()
                        &&& driver.state == DriverState::Cold
                        &&& driver.ifaceindex == ifaceindex
                        &&& driver.wdev_id == wdev_id
                        &&& driver.configured_mac is None
                    },
                    Err(error) => if wdev_id > u8::MAX {
                        error == DataLayoutError::InvalidCapacity
                    } else {
                        fault == Some(error)
                    },
                }
            }),
    {
        if wdev_id > u8::MAX as u32 {
            return Err(DataLayoutError::InvalidCapacity);
        }
        let data = DataPath::new(rx_buffer_size, tx_buffer_size)?;
        Ok(
            NativeDriver {
                device: Device::new(bus),
                data,
                station: StationController::new(ifaceindex, firmware_index, wdev_id),
                state: DriverState::Cold,
                ifaceindex,
                wdev_id: wdev_id as u8,
                configured_mac: None,
            },
        )
    }

    /// Returns the current top-level state.
    pub fn state(&self) -> (state: DriverState)
        ensures
            state == self.state,
    {
        self.state
    }

    /// Returns the configured Linux-style interface index.
    pub fn ifaceindex(&self) -> (ifaceindex: i32)
        ensures
            ifaceindex == self.ifaceindex,
    {
        self.ifaceindex
    }

    /// Returns the firmware data-path interface identifier.
    pub fn wdev_id(&self) -> (wdev_id: u8)
        ensures
            wdev_id == self.wdev_id,
    {
        self.wdev_id
    }

    /// Borrows the low-level device.
    pub fn device_mut(&mut self) -> (device: &mut Device<B>)
        ensures
            *device == old(self).device,
            *final(self) == (NativeDriver { device: *final(device), ..*old(self) }),
    {
        &mut self.device
    }

    /// Borrows packet-RAM ownership state.
    pub fn data_mut(&mut self) -> (data: &mut DataPath<RX, TX>)
        ensures
            *data == old(self).data,
            *final(self) == (NativeDriver { data: *final(data), ..*old(self) }),
    {
        &mut self.data
    }

    /// Borrows the station state machine.
    pub fn station(&self) -> (station: &StationController)
        ensures
            *station == self.station,
    {
        &self.station
    }

    /// Mutably borrows the station state machine.
    pub fn station_mut(&mut self) -> (station: &mut StationController)
        ensures
            *station == old(self).station,
            *final(self) == (NativeDriver { station: *final(station), ..*old(self) }),
    {
        &mut self.station
    }

    /// Moves the complete runtime into recovery.
    pub fn enter_recovery(&mut self)
        ensures
            *final(self) == old(self).recovering(),
    {
        self.station.begin_recovery();
        self.configured_mac = None;
        self.state = DriverState::Recovering;
    }

    /// Releases the low-level bus.
    pub fn into_inner(self) -> (bus: B)
        ensures
            bus == self.device.rpu.bus,
    {
        self.device.into_inner()
    }

    /// The refusal of an operation outside a state.
    pub open spec fn state_error<E>(&self, required: DriverState) -> DriverError<E> {
        DriverError::InvalidState { current: self.state, required }
    }

    /// Requires a top-level state.
    pub fn require_state<E>(&self, required: DriverState) -> (result: Result<(), DriverError<E>>)
        ensures
            result == (if self.state == required {
                Ok::<(), DriverError<E>>(())
            } else {
                Err::<(), DriverError<E>>(self.state_error(required))
            }),
    {
        if self.state == required {
            Ok(())
        } else {
            Err(DriverError::InvalidState { current: self.state, required })
        }
    }

    /// Requires that the controlled port lets an EtherType pass.
    pub fn require_controlled_port<E>(&self, ether_type: u16) -> (result: Result<
        (),
        DriverError<E>,
    >)
        ensures
            result == (if self.port_allows(ether_type) {
                Ok::<(), DriverError<E>>(())
            } else {
                Err::<(), DriverError<E>>(
                    DriverError::ControlledPortClosed { state: self.station.state, ether_type },
                )
            }),
    {
        let state = self.station.state();
        let allowed: bool = if ether_type == EAPOL_ETHERTYPE {
            self.station.eapol_required()
        } else {
            self.station.controlled_port_open()
        };
        if allowed {
            Ok(())
        } else {
            Err(DriverError::ControlledPortClosed { state, ether_type })
        }
    }

    /// Whether a configuration fits the driver: its interface, a unicast
    /// address that is not all zero, and exactly the driver's RX pool.
    pub open spec fn config_matches(&self, config: SystemInitConfig) -> bool {
        &&& config.wdev_id == self.wdev_id
        &&& config.mac_address@ != seq![0u8, 0u8, 0u8, 0u8, 0u8, 0u8]
        &&& config.mac_address@ != seq![0xffu8, 0xffu8, 0xffu8, 0xffu8, 0xffu8, 0xffu8]
        &&& config.mac_address@[0] & 1 == 0
        &&& config.rx_pools@[0].buffer_size == self.data.rx_buffer_size
        &&& config.rx_pools@[0].buffer_count == RX
        &&& config.rx_pools@[1].buffer_size == 0 && config.rx_pools@[1].buffer_count == 0
        &&& config.rx_pools@[2].buffer_size == 0 && config.rx_pools@[2].buffer_count == 0
    }

    /// Checks that a configuration fits the driver.
    pub fn validate_system_config<E>(&self, config: &SystemInitConfig) -> (result: Result<
        (),
        DriverError<E>,
    >)
        ensures
            result == (if self.config_matches(*config) {
                Ok::<(), DriverError<E>>(())
            } else {
                Err::<(), DriverError<E>>(DriverError::ConfigurationMismatch)
            }),
    {
        let mac = config.mac_address;
        let zero: [u8; 6] = [0, 0, 0, 0, 0, 0];
        let broadcast: [u8; 6] = [0xff, 0xff, 0xff, 0xff, 0xff, 0xff];
        assert(zero@ =~= seq![0u8, 0u8, 0u8, 0u8, 0u8, 0u8]);
        assert(broadcast@ =~= seq![0xffu8, 0xffu8, 0xffu8, 0xffu8, 0xffu8, 0xffu8]);
        let mac_is_valid: bool = !bridge::same_mac(&mac, &zero) && !bridge::same_mac(
            &mac,
            &broadcast,
        ) && mac[0] & 1 == 0;
        let pool0 = config.rx_pools[0];
        let pool1 = config.rx_pools[1];
        let pool2 = config.rx_pools[2];
        let extra_pools_are_empty: bool = pool1.buffer_size == 0 && pool1.buffer_count == 0
            && pool2.buffer_size == 0 && pool2.buffer_count == 0;
        let valid: bool = config.wdev_id == self.wdev_id as u32 && mac_is_valid
            && pool0.buffer_size as usize == self.data.rx_buffer_size && pool0.buffer_count as usize
            == RX && extra_pools_are_empty;
        assert(config.rx_pools@[0] == pool0 && config.rx_pools@[1] == pool1 && config.rx_pools@[2]
            == pool2);
        if valid {
            Ok(())
        } else {
            Err(DriverError::ConfigurationMismatch)
        }
    }

    /// Advances station-control deadlines. An expired one starts recovery.
    pub fn advance_time<E>(&mut self, elapsed_ms: u32) -> (result: Result<(), DriverError<E>>)
        ensures
            ({
                let (station, fault) = old(self).station.time_outcome(elapsed_ms);
                let moved = NativeDriver { station, ..*old(self) };
                match fault {
                    None => result == Ok::<(), DriverError<E>>(()) && *final(self) == moved,
                    Some(fault) => {
                        &&& result == Err::<(), DriverError<E>>(
                            DriverError::Station(StationError::Fault(fault)),
                        )
                        &&& *final(self) == moved.recovering()
                    },
                }
            }),
    {
        match self.station.advance_time(elapsed_ms) {
            Ok(()) => Ok(()),
            Err(fault) => {
                self.enter_recovery();
                Err(DriverError::Station(StationError::Fault(fault)))
            },
        }
    }
}

/// Why a system payload cannot be read, if it cannot.
pub open spec fn system_payload_fault(payload: Seq<u8>) -> Option<ProtocolError> {
    if !system::framed(payload) || (system::bodiless(codec::u32_at(payload, 0))
        && system::declared_body(payload).len() > 0) {
        Some(ProtocolError::InvalidLength)
    } else {
        None
    }
}

/// Why a control payload cannot be read, if it cannot.
pub open spec fn control_payload_fault(payload: Seq<u8>) -> Option<ProtocolError> {
    if payload.len() < UMAC_HEADER_LEN || !control::control_body_complete(
        protocol::umac_header_of(payload).command_event,
        payload.skip(UMAC_HEADER_LEN as int),
    ) {
        Some(ProtocolError::InvalidLength)
    } else {
        None
    }
}

/// Whether a control event is the reading of a payload.
pub open spec fn control_reads(event: ControlEvent<'_>, payload: Seq<u8>) -> bool {
    event.reads(protocol::umac_header_of(payload), payload.skip(UMAC_HEADER_LEN as int))
}

impl<B, const RX: usize, const TX: usize> NativeDriver<B, RX, TX> {
    /// The driver with another station.
    pub open spec fn with_station(self, station: StationController) -> Self {
        NativeDriver { station, ..self }
    }

    /// The outcome of a system message: the initialization that was waited for
    /// makes the driver ready, any other end or start of the firmware starts
    /// recovery.
    pub open spec fn system_dispatched<'a, E>(
        before: Self,
        after: Self,
        payload: Seq<u8>,
        result: Result<DriverEvent<'a>, DriverError<E>>,
    ) -> bool {
        let id = codec::u32_at(payload, 0);
        match system_payload_fault(payload) {
            Some(error) => {
                &&& result == Err::<DriverEvent<'a>, DriverError<E>>(DriverError::Protocol(error))
                &&& after == before
            },
            None => if id == system::SystemEventId::InitDone.wire() && before.state
                == DriverState::WaitingForSystemInit {
                &&& result == Ok::<DriverEvent<'a>, DriverError<E>>(
                    DriverEvent::System(SystemEvent::InitDone),
                )
                &&& after == (NativeDriver {
                    state: DriverState::Ready,
                    ..before.with_station(before.station.recovered())
                })
            } else if system::bodiless(id) {
                &&& result == Err::<DriverEvent<'a>, DriverError<E>>(
                    DriverError::UnexpectedEventForState { state: before.state },
                )
                &&& after == before.recovering()
            } else {
                &&& result matches Ok(DriverEvent::System(event)) && system::event_reads(
                    event,
                    id,
                    system::declared_body(payload),
                )
                &&& after == before
            },
        }
    }

    /// The outcome of a control message: a fault of the station starts
    /// recovery.
    pub open spec fn control_dispatched<'a, E>(
        before: Self,
        after: Self,
        payload: Seq<u8>,
        result: Result<DriverEvent<'a>, DriverError<E>>,
    ) -> bool {
        if before.state != DriverState::Ready {
            &&& result == Err::<DriverEvent<'a>, DriverError<E>>(
                before.state_error(DriverState::Ready),
            )
            &&& after == before
        } else {
            match control_payload_fault(payload) {
                Some(error) => {
                    &&& result == Err::<DriverEvent<'a>, DriverError<E>>(
                        DriverError::Protocol(error),
                    )
                    &&& after == before
                },
                None => exists|event: ControlEvent<'a>|
                    {
                        &&& #[trigger] control_reads(event, payload)
                        &&& before.station_outcome(
                            after,
                            before.station.control_outcome(event),
                            result,
                            DriverEvent::Control(event),
                        )
                    },
            }
        }
    }

    /// The outcome of an event that the station has handled.
    pub open spec fn station_outcome<'a, E>(
        self,
        after: Self,
        outcome: (StationController, Option<StationFault>),
        result: Result<DriverEvent<'a>, DriverError<E>>,
        event: DriverEvent<'a>,
    ) -> bool {
        match outcome.1 {
            Some(fault) => {
                &&& result == Err::<DriverEvent<'a>, DriverError<E>>(
                    DriverError::Station(StationError::Fault(fault)),
                )
                &&& after == self.with_station(outcome.0).recovering()
            },
            None => {
                &&& result == Ok::<DriverEvent<'a>, DriverError<E>>(event)
                &&& after == self.with_station(outcome.0)
            },
        }
    }

    /// The outcome of a data message: a completed transmission releases its
    /// token, a received packet is handed on, anything else goes to the
    /// station.
    pub open spec fn data_dispatched<'a, E>(
        before: Self,
        after: Self,
        payload: Seq<u8>,
        result: Result<DriverEvent<'a>, DriverError<E>>,
    ) -> bool {
        if before.state != DriverState::Ready {
            &&& result == Err::<DriverEvent<'a>, DriverError<E>>(
                before.state_error(DriverState::Ready),
            )
            &&& after == before
        } else {
            match data::classified(HostMessageType::Data, payload) {
                Err(error) => {
                    &&& result == Err::<DriverEvent<'a>, DriverError<E>>(
                        DriverError::DataProtocol(error),
                    )
                    &&& after == before
                },
                Ok(DataEvent::TransmitDone { token, .. }) => if token < TX
                    && before.data.tx_in_flight@[token as int] {
                    &&& result matches Ok(DriverEvent::TransmitDone(event)) && event.reads(payload)
                    &&& after == (NativeDriver { data: after.data, ..before })
                    &&& after.data.tx_changed(
                        &before.data,
                        before.data.tx_in_flight@.update(token as int, false),
                    )
                    &&& after.data.next_tx == before.data.next_tx
                } else {
                    &&& result == Err::<DriverEvent<'a>, DriverError<E>>(
                        DriverError::DataProtocol(
                            DataProtocolError::InvalidDescriptor(token as u16),
                        ),
                    )
                    &&& after == before
                },
                Ok(DataEvent::Receive) => {
                    &&& after == before
                    &&& match data::rx_event_fault(HostMessageType::Data, payload) {
                        Some(error) => result == Err::<DriverEvent<'a>, DriverError<E>>(
                            DriverError::DataProtocol(error),
                        ),
                        None => result matches Ok(DriverEvent::Receive(event)) && event.reads(
                            payload,
                        ) && event.wf(),
                    }
                },
                Ok(event) => before.station_outcome(
                    after,
                    before.station.data_outcome(event),
                    result,
                    DriverEvent::Data(event),
                ),
            }
        }
    }

    /// The outcome of a host message.
    pub open spec fn dispatched<'a, E>(
        before: Self,
        after: Self,
        message: HostMessageRef<'a>,
        result: Result<DriverEvent<'a>, DriverError<E>>,
    ) -> bool {
        match message.message_type {
            HostMessageType::System => Self::system_dispatched(
                before,
                after,
                message.payload@,
                result,
            ),
            HostMessageType::Umac => Self::control_dispatched(
                before,
                after,
                message.payload@,
                result,
            ),
            HostMessageType::Data => Self::data_dispatched(before, after, message.payload@, result),
            HostMessageType::Supplicant => {
                &&& after == before
                &&& result == (if before.state == DriverState::Ready {
                    Ok::<DriverEvent<'a>, DriverError<E>>(DriverEvent::Supplicant(message.payload))
                } else {
                    Err::<DriverEvent<'a>, DriverError<E>>(before.state_error(DriverState::Ready))
                })
            },
        }
    }

    /// Dispatches one already parsed host message.
    pub fn dispatch_message<'a, E>(&mut self, message: HostMessageRef<'a>) -> (result: Result<
        DriverEvent<'a>,
        DriverError<E>,
    >)
        ensures
            Self::dispatched(*old(self), *final(self), message, result),
            old(self).wf() ==> final(self).wf(),
    {
        match message.message_type {
            HostMessageType::System => self.dispatch_system_message(message),
            HostMessageType::Umac => self.dispatch_control_message(message),
            HostMessageType::Data => self.dispatch_data_message(message),
            HostMessageType::Supplicant => self.dispatch_supplicant_message(message),
        }
    }

    fn dispatch_system_message<'a, E>(&mut self, message: HostMessageRef<'a>) -> (result: Result<
        DriverEvent<'a>,
        DriverError<E>,
    >)
        requires
            message.message_type is System,
        ensures
            Self::system_dispatched(*old(self), *final(self), message.payload@, result),
            old(self).wf() ==> final(self).wf(),
    {
        let event = match system::parse_system_event(message) {
            Ok(event) => event,
            Err(error) => return Err(DriverError::Protocol(error)),
        };
        let state = self.state;
        match event {
            SystemEvent::InitDone => {
                if state != DriverState::WaitingForSystemInit {
                    self.enter_recovery();
                    return Err(DriverError::UnexpectedEventForState { state });
                }
                self.station.recovery_complete();
                self.state = DriverState::Ready;
            },
            SystemEvent::DeinitDone => {
                self.enter_recovery();
                return Err(DriverError::UnexpectedEventForState { state });
            },
            _ => {},
        }
        Ok(DriverEvent::System(event))
    }

    fn dispatch_control_message<'a, E>(&mut self, message: HostMessageRef<'a>) -> (result: Result<
        DriverEvent<'a>,
        DriverError<E>,
    >)
        requires
            message.message_type is Umac,
        ensures
            Self::control_dispatched(*old(self), *final(self), message.payload@, result),
            old(self).wf() ==> final(self).wf(),
    {
        self.require_state::<E>(DriverState::Ready)?;
        let event = match control::parse_control_event(message) {
            Ok(event) => event,
            Err(error) => return Err(DriverError::Protocol(error)),
        };
        assert(control_reads(event, message.payload@));
        let handled: Result<(), StationError<E>> = self.station.handle_control_event(event);
        if let Err(error) = handled {
            self.enter_recovery();
            return Err(DriverError::Station(error));
        }
        Ok(DriverEvent::Control(event))
    }

    fn dispatch_data_message<'a, E>(&mut self, message: HostMessageRef<'a>) -> (result: Result<
        DriverEvent<'a>,
        DriverError<E>,
    >)
        requires
            message.message_type is Data,
        ensures
            Self::data_dispatched(*old(self), *final(self), message.payload@, result),
            old(self).wf() ==> final(self).wf(),
    {
        self.require_state::<E>(DriverState::Ready)?;
        let event = match data::classify_data_event(message) {
            Ok(event) => event,
            Err(error) => return Err(DriverError::DataProtocol(error)),
        };
        match event {
            DataEvent::TransmitDone { .. } => self.dispatch_transmit_done(message),
            DataEvent::Receive => self.dispatch_receive(message),
            _ => self.dispatch_station_data(event),
        }
    }

    fn dispatch_transmit_done<'a, E>(&mut self, message: HostMessageRef<'a>) -> (result: Result<
        DriverEvent<'a>,
        DriverError<E>,
    >)
        requires
            message.message_type is Data,
            old(self).state == DriverState::Ready,
            data::classified(HostMessageType::Data, message.payload@) matches Ok(
                DataEvent::TransmitDone { .. },
            ),
        ensures
            Self::data_dispatched(*old(self), *final(self), message.payload@, result),
            old(self).wf() ==> final(self).wf(),
    {
        let event = match TxDoneEventRef::parse(message) {
            Ok(event) => event,
            Err(error) => return Err(DriverError::DataProtocol(error)),
        };
        match self.data.complete_tx(event.token) {
            Ok(()) => Ok(DriverEvent::TransmitDone(event)),
            Err(error) => Err(DriverError::DataProtocol(error)),
        }
    }

    fn dispatch_receive<'a, E>(&mut self, message: HostMessageRef<'a>) -> (result: Result<
        DriverEvent<'a>,
        DriverError<E>,
    >)
        requires
            message.message_type is Data,
            old(self).state == DriverState::Ready,
            data::classified(HostMessageType::Data, message.payload@) == Ok::<
                DataEvent,
                DataProtocolError,
            >(DataEvent::Receive),
        ensures
            Self::data_dispatched(*old(self), *final(self), message.payload@, result),
            *final(self) == *old(self),
    {
        match RxEventRef::parse(message) {
            Ok(event) => Ok(DriverEvent::Receive(event)),
            Err(error) => Err(DriverError::DataProtocol(error)),
        }
    }

    fn dispatch_station_data<'a, E>(&mut self, event: DataEvent) -> (result: Result<
        DriverEvent<'a>,
        DriverError<E>,
    >)
        ensures
            old(self).station_outcome(
                *final(self),
                old(self).station.data_outcome(event),
                result,
                DriverEvent::Data(event),
            ),
            old(self).wf() ==> final(self).wf(),
    {
        let handled: Result<(), StationError<E>> = self.station.handle_data_event(event);
        if let Err(error) = handled {
            self.enter_recovery();
            return Err(DriverError::Station(error));
        }
        Ok(DriverEvent::Data(event))
    }

    fn dispatch_supplicant_message<'a, E>(&self, message: HostMessageRef<'a>) -> (result: Result<
        DriverEvent<'a>,
        DriverError<E>,
    >)
        ensures
            result == (if self.state == DriverState::Ready {
                Ok::<DriverEvent<'a>, DriverError<E>>(DriverEvent::Supplicant(message.payload))
            } else {
                Err::<DriverEvent<'a>, DriverError<E>>(self.state_error(DriverState::Ready))
            }),
    {
        self.require_state::<E>(DriverState::Ready)?;
        Ok(DriverEvent::Supplicant(message.payload))
    }
}

/// The driver becomes ready only through the initialization event that it
/// waits for.
pub proof fn law_only_awaited_initialization_makes_ready<
    'a,
    B,
    E,
    const RX: usize,
    const TX: usize,
>(
    before: NativeDriver<B, RX, TX>,
    after: NativeDriver<B, RX, TX>,
    message: HostMessageRef<'a>,
    result: Result<DriverEvent<'a>, DriverError<E>>,
)
    requires
        NativeDriver::dispatched(before, after, message, result),
        before.state != DriverState::Ready,
        after.state == DriverState::Ready,
    ensures
        before.state == DriverState::WaitingForSystemInit,
        message.message_type is System,
        codec::u32_at(message.payload@, 0) == system::SystemEventId::InitDone.wire(),
        !after.station.port_open(),
{
}

/// A message that the driver answers with a station fault or as unexpected
/// leaves it in recovery, with the controlled port closed to all traffic.
pub proof fn law_dispatch_faults_fail_closed<'a, B, E, const RX: usize, const TX: usize>(
    before: NativeDriver<B, RX, TX>,
    after: NativeDriver<B, RX, TX>,
    message: HostMessageRef<'a>,
    result: Result<DriverEvent<'a>, DriverError<E>>,
    ether_type: u16,
)
    requires
        NativeDriver::dispatched(before, after, message, result),
        result matches Err(error) && (error is Station || error is UnexpectedEventForState),
    ensures
        after.state == DriverState::Recovering,
        !after.port_allows(ether_type),
{
}

/// The answer of the station that a driver result passes on.
pub open spec fn station_outcome<T, E>(result: Result<T, DriverError<E>>) -> Result<
    T,
    StationError<E>,
> {
    match result {
        Ok(value) => Ok(value),
        Err(DriverError::Station(error)) => Err(error),
        Err(_) => arbitrary(),
    }
}

impl<B, const RX: usize, const TX: usize> NativeDriver<B, RX, TX> {
    /// How a station command starts: only a ready driver takes one, and the
    /// station alone answers it. `started` is what the station did.
    pub open spec fn commanded<T, E>(
        before: Self,
        after: Self,
        result: Result<T, DriverError<E>>,
        started: bool,
    ) -> bool {
        if before.state != DriverState::Ready {
            &&& result == Err::<T, DriverError<E>>(before.state_error(DriverState::Ready))
            &&& after == before
        } else {
            &&& after == before.with_station(after.station)
            &&& result matches Err(error) ==> error is Station
            &&& started
        }
    }

    /// Starts to create the configured station interface after system
    /// initialization succeeds.
    pub fn create_station_interface<E>(
        &mut self,
        ifaceindex: i32,
        mac_address: [u8; 6],
        interface_name: &[u8],
    ) -> (result: Result<InterfaceCreation, DriverError<E>>)
        requires
            old(self).wf(),
        ensures
            final(self).wf(),
            result matches Ok(InterfaceCreation::Submit(submission)) ==> submission.send.wf()
                && submission.send.attempts > 0,
            if old(self).state == DriverState::Ready && (ifaceindex != old(self).ifaceindex || !old(
                self).mac_configured(mac_address@)) {
                &&& result == Err::<InterfaceCreation, DriverError<E>>(
                    DriverError::ConfigurationMismatch,
                )
                &&& *final(self) == *old(self)
            } else {
                Self::commanded(
                    *old(self),
                    *final(self),
                    result,
                    StationController::create_interface_started(
                        old(self).station,
                        final(self).station,
                        old(self).device,
                        mac_address,
                        interface_name,
                        station_outcome(result),
                    ),
                )
            },
    {
        self.require_state::<E>(DriverState::Ready)?;
        let configured: bool = match &self.configured_mac {
            Some(configured) => bridge::same_mac(configured, &mac_address),
            None => false,
        };
        if ifaceindex != self.ifaceindex || !configured {
            return Err(DriverError::ConfigurationMismatch);
        }
        match self.station.create_interface(&self.device, mac_address, interface_name) {
            Ok(creation) => Ok(creation),
            Err(error) => Err(DriverError::Station(error)),
        }
    }

    /// Whether recovery was completed with this address.
    pub open spec fn mac_configured(&self, mac_address: Seq<u8>) -> bool {
        self.configured_mac matches Some(configured) && configured@ == mac_address
    }

    /// Starts to request one regulatory country code.
    pub fn set_regulatory<E>(
        &mut self,
        country: [u8; 2],
        user_hint_type: u32,
        force: bool,
    ) -> (result: Result<Submission, DriverError<E>>)
        requires
            old(self).wf(),
        ensures
            final(self).wf(),
            result matches Ok(submission) ==> submission.send.wf() && submission.send.attempts > 0,
            Self::commanded(
                *old(self),
                *final(self),
                result,
                StationController::set_regulatory_started(
                    old(self).station,
                    final(self).station,
                    old(self).device,
                    country,
                    user_hint_type,
                    force,
                    station_outcome(result),
                ),
            ),
    {
        self.require_state::<E>(DriverState::Ready)?;
        match self.station.set_regulatory(&self.device, country, user_hint_type, force) {
            Ok(submission) => Ok(submission),
            Err(error) => Err(DriverError::Station(error)),
        }
    }

    /// Starts to bring the firmware interface up.
    pub fn bring_up<E>(
        &mut self,
    ) -> (result: Result<Submission, DriverError<E>>)
        requires
            old(self).wf(),
        ensures
            final(self).wf(),
            result matches Ok(submission) ==> submission.send.wf() && submission.send.attempts > 0,
            Self::commanded(
                *old(self),
                *final(self),
                result,
                StationController::bring_up_started(
                    old(self).station,
                    final(self).station,
                    old(self).device,
                    station_outcome(result),
                ),
            ),
    {
        self.require_state::<E>(DriverState::Ready)?;
        match self.station.bring_up(&self.device) {
            Ok(submission) => Ok(submission),
            Err(error) => Err(DriverError::Station(error)),
        }
    }

    /// Starts to bring the firmware interface down.
    pub fn bring_down<E>(
        &mut self,
    ) -> (result: Result<Submission, DriverError<E>>)
        requires
            old(self).wf(),
        ensures
            final(self).wf(),
            result matches Ok(submission) ==> submission.send.wf() && submission.send.attempts > 0,
            Self::commanded(
                *old(self),
                *final(self),
                result,
                StationController::bring_down_started(
                    old(self).station,
                    final(self).station,
                    old(self).device,
                    station_outcome(result),
                ),
            ),
    {
        self.require_state::<E>(DriverState::Ready)?;
        match self.station.bring_down(&self.device) {
            Ok(submission) => Ok(submission),
            Err(error) => Err(DriverError::Station(error)),
        }
    }

    /// Starts one scan.
    pub fn start_scan<E>(
        &mut self,
        request: &ScanRequest<'_>,
    ) -> (result: Result<Submission, DriverError<E>>)
        requires
            old(self).wf(),
        ensures
            final(self).wf(),
            result matches Ok(submission) ==> submission.send.wf() && submission.send.attempts > 0,
            Self::commanded(
                *old(self),
                *final(self),
                result,
                StationController::start_scan_started(
                    old(self).station,
                    final(self).station,
                    old(self).device,
                    request,
                    station_outcome(result),
                ),
            ),
    {
        self.require_state::<E>(DriverState::Ready)?;
        match self.station.start_scan(&self.device, request) {
            Ok(submission) => Ok(submission),
            Err(error) => Err(DriverError::Station(error)),
        }
    }

    /// Starts to request the result stream after a scan-done event.
    pub fn request_scan_results<E>(
        &mut self,
        reason: ScanReason,
    ) -> (result: Result<Submission, DriverError<E>>)
        requires
            old(self).wf(),
        ensures
            final(self).wf(),
            result matches Ok(submission) ==> submission.send.wf() && submission.send.attempts > 0,
            Self::commanded(
                *old(self),
                *final(self),
                result,
                StationController::request_scan_results_started(
                    old(self).station,
                    final(self).station,
                    old(self).device,
                    reason,
                    station_outcome(result),
                ),
            ),
    {
        self.require_state::<E>(DriverState::Ready)?;
        match self.station.request_scan_results(&self.device, reason) {
            Ok(submission) => Ok(submission),
            Err(error) => Err(DriverError::Station(error)),
        }
    }

    /// Starts to send an authentication request.
    pub fn authenticate<E>(
        &mut self,
        request: &AuthenticationRequest<'_>,
    ) -> (result: Result<Submission, DriverError<E>>)
        requires
            old(self).wf(),
        ensures
            final(self).wf(),
            result matches Ok(submission) ==> submission.send.wf() && submission.send.attempts > 0,
            Self::commanded(
                *old(self),
                *final(self),
                result,
                StationController::authenticate_started(
                    old(self).station,
                    final(self).station,
                    old(self).device,
                    request,
                    station_outcome(result),
                ),
            ),
    {
        self.require_state::<E>(DriverState::Ready)?;
        match self.station.authenticate(&self.device, request) {
            Ok(submission) => Ok(submission),
            Err(error) => Err(DriverError::Station(error)),
        }
    }

    /// Starts to send an association request after authentication succeeds. A
    /// request for another peer than the authenticated one is a fault.
    pub fn associate<E>(
        &mut self,
        request: &AssociationRequest<'_>,
    ) -> (result: Result<Submission, DriverError<E>>)
        requires
            old(self).wf(),
        ensures
            final(self).wf(),
            result matches Ok(submission) ==> submission.send.wf() && submission.send.attempts > 0,
            Self::commanded(
                *old(self),
                *final(self),
                result,
                StationController::associate_started(
                    old(self).station,
                    final(self).station,
                    old(self).device,
                    request,
                    station_outcome(result),
                ),
            ),
    {
        self.require_state::<E>(DriverState::Ready)?;
        match self.station.associate(&self.device, request) {
            Ok(submission) => Ok(submission),
            Err(error) => Err(DriverError::Station(error)),
        }
    }

    /// Starts to enable or disable firmware power save.
    pub fn set_power_save<E>(
        &mut self,
        state: PowerSaveState,
    ) -> (result: Result<Submission, DriverError<E>>)
        requires
            old(self).wf(),
        ensures
            final(self).wf(),
            result matches Ok(submission) ==> submission.send.wf() && submission.send.attempts > 0,
            Self::commanded(
                *old(self),
                *final(self),
                result,
                StationController::set_power_save_started(
                    old(self).station,
                    final(self).station,
                    old(self).device,
                    state,
                    station_outcome(result),
                ),
            ),
    {
        self.require_state::<E>(DriverState::Ready)?;
        match self.station.set_power_save(&self.device, state) {
            Ok(submission) => Ok(submission),
            Err(error) => Err(DriverError::Station(error)),
        }
    }

    /// Starts to change the firmware power-save timeout.
    ///
    /// Wait for its command-status event before a power-save state command is
    /// sent.
    pub fn set_power_save_timeout<E>(
        &mut self,
        timeout_ms: i32,
    ) -> (result: Result<Submission, DriverError<E>>)
        requires
            old(self).wf(),
        ensures
            final(self).wf(),
            result matches Ok(submission) ==> submission.send.wf() && submission.send.attempts > 0,
            Self::commanded(
                *old(self),
                *final(self),
                result,
                StationController::set_power_save_timeout_started(
                    old(self).station,
                    final(self).station,
                    old(self).device,
                    timeout_ms,
                    station_outcome(result),
                ),
            ),
    {
        self.require_state::<E>(DriverState::Ready)?;
        match self.station.set_power_save_timeout(&self.device, timeout_ms) {
            Ok(submission) => Ok(submission),
            Err(error) => Err(DriverError::Station(error)),
        }
    }

    /// Starts a deauthentication sequence.
    pub fn disconnect<E>(
        &mut self,
        reason_code: u16,
    ) -> (result: Result<Submission, DriverError<E>>)
        requires
            old(self).wf(),
        ensures
            final(self).wf(),
            result matches Ok(submission) ==> submission.send.wf() && submission.send.attempts > 0,
            Self::commanded(
                *old(self),
                *final(self),
                result,
                StationController::disconnect_started(
                    old(self).station,
                    final(self).station,
                    old(self).device,
                    reason_code,
                    station_outcome(result),
                ),
            ),
    {
        self.require_state::<E>(DriverState::Ready)?;
        match self.station.disconnect(&self.device, reason_code) {
            Ok(submission) => Ok(submission),
            Err(error) => Err(DriverError::Station(error)),
        }
    }

    /// Takes the end of a command's delivery: the station changes state only
    /// once its command is delivered.
    pub fn finish_command<E>(
        &mut self,
        commit: Commit,
        delivery: Result<(), DeviceError<E>>,
    ) -> (result: Result<(), DriverError<E>>)
        ensures
            match delivery {
                Ok(()) => {
                    &&& result == Ok::<(), DriverError<E>>(())
                    &&& *final(self) == old(self).with_station(old(self).station.committed(commit))
                },
                Err(error) => {
                    &&& result == Err::<(), DriverError<E>>(
                        DriverError::Station(StationError::Device(error)),
                    )
                    &&& *final(self) == *old(self)
                },
            },
    {
        match delivery {
            Ok(()) => {
                self.station.delivered(commit);
                Ok(())
            },
            Err(error) => Err(DriverError::Station(StationError::Device(error))),
        }
    }

    /// The outcome of starting to poll an event.
    pub open spec fn poll_started<E>(
        before: Self,
        after: Self,
        capacity: usize,
        scratch_address: usize,
        result: Result<EventRead, DriverError<E>>,
    ) -> bool {
        if before.device.recovery_required {
            &&& result == Err::<EventRead, DriverError<E>>(
                DriverError::Device(DeviceError::RecoveryRequired),
            )
            &&& after == before.recovering()
        } else {
            &&& after == (NativeDriver { device: after.device, ..before })
            &&& match result {
                Ok(read) => Device::read_started(
                    before.device,
                    after.device,
                    capacity,
                    scratch_address,
                    Ok::<EventRead, DeviceError<E>>(read),
                ),
                Err(DriverError::Device(error)) => Device::read_started(
                    before.device,
                    after.device,
                    capacity,
                    scratch_address,
                    Err::<EventRead, DeviceError<E>>(error),
                ),
                Err(_) => false,
            }
        }
    }

    /// Starts to poll one RPU event into caller storage of this length and
    /// address. A device that needs a reset starts recovery instead.
    pub fn poll_event<E>(&mut self, capacity: usize, scratch_address: usize) -> (result: Result<
        EventRead,
        DriverError<E>,
    >)
        requires
            old(self).wf(),
        ensures
            final(self).wf(),
            result matches Ok(read) ==> read.wf() && read.capacity == capacity,
            Self::poll_started(*old(self), *final(self), capacity, scratch_address, result),
    {
        if self.device.recovery_required() {
            self.enter_recovery();
            return Err(DriverError::Device(DeviceError::RecoveryRequired));
        }
        match self.device.try_read_event(capacity, scratch_address) {
            Ok(read) => Ok(read),
            Err(error) => Err(DriverError::Device(error)),
        }
    }

    /// The outcome of a complete event.
    pub open spec fn poll_finished<'a, E>(
        before: Self,
        after: Self,
        bytes: Seq<u8>,
        result: Result<DriverEvent<'a>, DriverError<E>>,
    ) -> bool {
        match protocol::parsed_host_message(bytes) {
            Ok((resubmit, message_type, payload)) => exists|message: HostMessageRef<'a>|
                {
                    &&& message.resubmit == resubmit
                    &&& message.message_type == message_type
                    &&& message.payload@ == payload
                    &&& #[trigger] Self::dispatched(before, after, message, result)
                },
            Err(cause) => {
                &&& result == Err::<DriverEvent<'a>, DriverError<E>>(
                    DriverError::Device(DeviceError::Protocol(cause)),
                )
                &&& after == before
            },
        }
    }

    /// Parses and applies the complete event at the front of the storage.
    pub fn finish_poll<'a, E>(&mut self, scratch: &'a [u8], len: usize) -> (result: Result<
        DriverEvent<'a>,
        DriverError<E>,
    >)
        requires
            len <= scratch@.len(),
        ensures
            old(self).wf() ==> final(self).wf(),
            Self::poll_finished(
                *old(self),
                *final(self),
                scratch@.subrange(0, len as int),
                result,
            ),
    {
        let message = match device::finish_event(scratch, len) {
            Ok(message) => message,
            Err(error) => return Err(DriverError::Device(error)),
        };
        let result = self.dispatch_message(message);
        assert(Self::dispatched(*old(self), *self, message, result));
        result
    }

    /// The outcome of taking a received packet.
    pub open spec fn receive_started<E>(
        before: Self,
        after: Self,
        event: RxEventRef<'_>,
        packet_index: int,
        output_len: usize,
        result: Result<ReceiveStart<E>, DriverError<E>>,
    ) -> bool {
        match before.data.taken(event, packet_index) {
            Err(error) => {
                &&& result == Err::<ReceiveStart<E>, DriverError<E>>(
                    DriverError::Data(DataError::Protocol(error)),
                )
                &&& after == before
            },
            Ok(info) => {
                &&& after == (NativeDriver { data: after.data, ..before })
                &&& after.data.rx_changed(
                    &before.data,
                    before.data.rx_posted@.update(info.descriptor_id as int, false),
                )
                &&& result == Ok::<ReceiveStart<E>, DriverError<E>>(
                    before.data.receive_start(event, info, output_len),
                )
            },
        }
    }

    /// Takes one received packet for caller storage of this length.
    pub fn receive_packet<E>(
        &mut self,
        event: &RxEventRef<'_>,
        packet_index: usize,
        output_len: usize,
    ) -> (result: Result<ReceiveStart<E>, DriverError<E>>)
        requires
            old(self).wf(),
            event.wf(),
        ensures
            final(self).wf(),
            Self::receive_started(
                *old(self),
                *final(self),
                *event,
                packet_index as int,
                output_len,
                result,
            ),
    {
        match self.data.receive_packet(event, packet_index, output_len) {
            Ok(start) => Ok(start),
            Err(error) => Err(DriverError::Data(error)),
        }
    }

    /// The outcome of a delivered frame: one of another interface starts
    /// recovery, one that the controlled port refuses is reported.
    pub open spec fn frame_validated<E>(
        before: Self,
        after: Self,
        wdev_id: u8,
        frame: ReceivedFrame,
        result: Result<ReceivedFrame, DriverError<E>>,
    ) -> bool {
        if wdev_id != before.wdev_id {
            &&& result == Err::<ReceivedFrame, DriverError<E>>(
                DriverError::WrongInterface { expected: before.wdev_id, received: wdev_id },
            )
            &&& after == before.recovering()
        } else {
            &&& result == (if before.port_allows(frame.ether_type) {
                Ok::<ReceivedFrame, DriverError<E>>(frame)
            } else {
                Err::<ReceivedFrame, DriverError<E>>(
                    DriverError::ControlledPortClosed {
                        state: before.station.state,
                        ether_type: frame.ether_type,
                    },
                )
            })
            &&& after == before
        }
    }

    /// Checks the interface and the controlled port for a delivered frame.
    pub fn validate_received_frame<E>(&mut self, event: &RxEventRef<'_>, frame: ReceivedFrame) -> (
    result: Result<ReceivedFrame, DriverError<E>>)
        ensures
            Self::frame_validated(*old(self), *final(self), event.wdev_id, frame, result),
            old(self).wf() ==> final(self).wf(),
    {
        if event.wdev_id != self.wdev_id {
            let received: u8 = event.wdev_id;
            self.enter_recovery();
            return Err(DriverError::WrongInterface { expected: self.wdev_id, received });
        }
        self.require_controlled_port::<E>(frame.ether_type)?;
        Ok(frame)
    }

    /// The outcome of a receive whose descriptor is posted again.
    pub open spec fn receive_finished<E>(
        before: Self,
        after: Self,
        wdev_id: u8,
        verdict: ReceiveVerdict<E>,
        result: Result<ReceivedFrame, DriverError<E>>,
    ) -> bool {
        match verdict.result() {
            Ok(frame) => Self::frame_validated(
                before,
                after,
                wdev_id,
                frame,
                result,
            ),
            Err(error) => {
                &&& result == Err::<ReceivedFrame, DriverError<E>>(DriverError::Data(error))
                &&& after == before
            },
        }
    }

    /// Ends the receive of one packet whose descriptor is posted again.
    pub fn finish_receive<E>(&mut self, event: &RxEventRef<'_>, verdict: ReceiveVerdict<E>) -> (
    result: Result<ReceivedFrame, DriverError<E>>)
        ensures
            old(self).wf() ==> final(self).wf(),
            Self::receive_finished(*old(self), *final(self), event.wdev_id, verdict, result),
    {
        match verdict.into_result() {
            Ok(frame) => self.validate_received_frame(event, frame),
            Err(error) => Err(DriverError::Data(error)),
        }
    }

    /// Why a frame is not even handed to the data path, if it is not.
    pub open spec fn transmit_refusal<E>(&self, wdev_id: u8, frame: Seq<u8>) -> Option<
        DriverError<E>,
    > {
        if wdev_id != self.wdev_id {
            Some(DriverError::WrongInterface { expected: self.wdev_id, received: wdev_id })
        } else {
            match ether_type_of(frame) {
                None => Some(DriverError::FrameTooShort),
                Some(ether_type) => if self.port_allows(ether_type) {
                    None
                } else {
                    Some(
                        DriverError::ControlledPortClosed {
                            state: self.station.state,
                            ether_type,
                        },
                    )
                },
            }
        }
    }

    /// The outcome of starting to send a frame.
    pub open spec fn transmit_started<E>(
        before: Self,
        after: Self,
        wdev_id: u8,
        frame: Seq<u8>,
        dscp_tos: u16,
        result: Result<Transmit, DriverError<E>>,
    ) -> bool {
        match before.transmit_refusal::<E>(wdev_id, frame) {
            Some(error) => {
                &&& result == Err::<Transmit, DriverError<E>>(error)
                &&& after == before
            },
            None => match result {
                Ok(transmit) => {
                    &&& after == (NativeDriver { data: after.data, ..before })
                    &&& DataPath::transmit_begun(
                        before.data,
                        after.data,
                        wdev_id,
                        frame,
                        dscp_tos,
                        transmit,
                    )
                },
                Err(error) => {
                    &&& after == before
                    &&& match data::transmit_fault(
                        frame.len() as int,
                        before.data.tx_buffer_size as int,
                    ) {
                        Some(fault) => error == DriverError::<E>::Data(DataError::Protocol(fault)),
                        None => error == DriverError::<E>::Data(DataError::NoTransmitToken)
                            && forall|i: int| 0 <= i < TX ==> before.data.tx_in_flight@[i],
                    }
                },
            },
        }
    }

    /// Starts to send one Ethernet frame and enforces the controlled port.
    pub fn transmit<E>(&mut self, wdev_id: u8, frame: &[u8], dscp_tos: u16) -> (result: Result<
        Transmit,
        DriverError<E>,
    >)
        requires
            old(self).wf(),
        ensures
            final(self).wf(),
            Self::transmit_started(*old(self), *final(self), wdev_id, frame@, dscp_tos, result),
            result matches Ok(transmit) ==> final(self).data.transmit_wf(transmit),
    {
        if wdev_id != self.wdev_id {
            return Err(
                DriverError::WrongInterface { expected: self.wdev_id, received: wdev_id },
            );
        }
        let ether_type: u16 = match ethernet_type(frame) {
            Some(ether_type) => ether_type,
            None => return Err(DriverError::FrameTooShort),
        };
        self.require_controlled_port::<E>(ether_type)?;
        match self.data.transmit(wdev_id, frame, dscp_tos) {
            Ok(transmit) => Ok(transmit),
            Err(error) => Err(DriverError::Data(error)),
        }
    }

    /// Starts to send one Ethernet frame on the configured station interface.
    pub fn transmit_frame<E>(&mut self, frame: &[u8], dscp_tos: u16) -> (result: Result<
        Transmit,
        DriverError<E>,
    >)
        requires
            old(self).wf(),
        ensures
            final(self).wf(),
            Self::transmit_started(
                *old(self),
                *final(self),
                old(self).wdev_id,
                frame@,
                dscp_tos,
                result,
            ),
            result matches Ok(transmit) ==> final(self).data.transmit_wf(transmit),
    {
        self.transmit(self.wdev_id, frame, dscp_tos)
    }
}

/// No frame passes a closed port: while the port refuses its EtherType, a
/// frame is neither delivered nor sent, and no token is spent on it.
pub proof fn law_closed_port_passes_nothing<B, E, const RX: usize, const TX: usize>(
    before: NativeDriver<B, RX, TX>,
    after: NativeDriver<B, RX, TX>,
    wdev_id: u8,
    frame: Seq<u8>,
    dscp_tos: u16,
    sent: Result<Transmit, DriverError<E>>,
    received: ReceivedFrame,
    delivered: Result<ReceivedFrame, DriverError<E>>,
    after_receive: NativeDriver<B, RX, TX>,
)
    requires
        NativeDriver::transmit_started(before, after, wdev_id, frame, dscp_tos, sent),
        NativeDriver::frame_validated(before, after_receive, wdev_id, received, delivered),
    ensures
        ether_type_of(frame) matches Some(ether_type) ==> !before.port_allows(ether_type)
            ==> sent is Err && after == before,
        !before.port_allows(received.ether_type) ==> delivered is Err,
{
}

/// Reading of the watchdog status.
#[derive(Clone, Copy, Debug, PartialEq, Eq, Structural)]
pub struct WatchdogRead {
    /// Reads left.
    pub left: u8,
}

impl WatchdogRead {
    /// Asks for the watchdog status.
    pub fn request(&self) -> (request: RpuRequest)
        ensures
            request == memory::read_register_request(RPU_REG_WATCHDOG_STATUS),
    {
        memory::read_register(RPU_REG_WATCHDOG_STATUS)
    }
}

/// Acknowledgement of a watchdog interrupt.
#[derive(Clone, Copy, Debug, PartialEq, Eq, Structural)]
pub enum WatchdogAck {
    /// Clear the interrupt.
    Clear,
    /// Reload the timer.
    Rearm,
    /// The watchdog runs again.
    Rearmed,
}

impl WatchdogAck {
    /// The access that comes next, `None` once the watchdog runs again.
    pub open spec fn next(self) -> Option<RpuRequest> {
        match self {
            WatchdogAck::Clear => Some(
                memory::write_register_request(RPU_REG_WATCHDOG_CLEAR, RPU_WATCHDOG_BIT),
            ),
            WatchdogAck::Rearm => Some(
                memory::write_register_request(RPU_REG_WATCHDOG_TIMER, RPU_WATCHDOG_RELOAD),
            ),
            WatchdogAck::Rearmed => None,
        }
    }

    /// Returns the next access, `None` once the watchdog runs again.
    pub fn request(&self) -> (request: Option<RpuRequest>)
        ensures
            request == self.next(),
    {
        match self {
            WatchdogAck::Clear => Some(
                memory::write_register(RPU_REG_WATCHDOG_CLEAR, RPU_WATCHDOG_BIT),
            ),
            WatchdogAck::Rearm => Some(
                memory::write_register(RPU_REG_WATCHDOG_TIMER, RPU_WATCHDOG_RELOAD),
            ),
            WatchdogAck::Rearmed => None,
        }
    }
}

impl<B, const RX: usize, const TX: usize> NativeDriver<B, RX, TX> {
    /// Starts to check the watchdog status.
    pub fn watchdog_pending(&self) -> (read: WatchdogRead)
        ensures
            read.left == WATCHDOG_READS,
    {
        WatchdogRead { left: WATCHDOG_READS }
    }

    /// The outcome of one read of the watchdog status.
    pub open spec fn watchdog_resumed<E>(
        before: Self,
        after: Self,
        from: WatchdogRead,
        to: WatchdogRead,
        reply: Result<&[u8], RpuError<E>>,
        result: Result<Option<bool>, DriverError<E>>,
    ) -> bool {
        match reply {
            Err(error) => {
                &&& result == Err::<Option<bool>, DriverError<E>>(
                    DriverError::Device(DeviceError::Rpu(error)),
                )
                &&& after == before
                &&& to == from
            },
            Ok(bytes) => {
                let value = codec::u32_at(bytes@, 0);
                if value != WATCHDOG_SENTINEL {
                    &&& result == Ok::<Option<bool>, DriverError<E>>(
                        Some(value & RPU_WATCHDOG_BIT != 0),
                    )
                    &&& after == before
                    &&& to == from
                } else {
                    &&& to.left == from.left - 1
                    &&& if from.left == 1 {
                        &&& result == Err::<Option<bool>, DriverError<E>>(
                            DriverError::InvalidWatchdogStatus,
                        )
                        &&& after == before.faulted()
                    } else {
                        &&& result == Ok::<Option<bool>, DriverError<E>>(None)
                        &&& after == before
                    }
                }
            },
        }
    }

    /// Takes one read of the watchdog status and returns whether the watchdog
    /// is pending, once that is known. A status that only ever reads as the
    /// sentinel is a fault.
    pub fn resume_watchdog<E>(
        &mut self,
        read: &mut WatchdogRead,
        reply: Result<&[u8], RpuError<E>>,
    ) -> (result: Result<Option<bool>, DriverError<E>>)
        requires
            old(read).left > 0,
            memory::read_register_request(RPU_REG_WATCHDOG_STATUS).answered_by(reply),
        ensures
            old(self).wf() ==> final(self).wf(),
            Self::watchdog_resumed(
                *old(self),
                *final(self),
                *old(read),
                *final(read),
                reply,
                result,
            ),
    {
        let bytes: &[u8] = match reply {
            Ok(bytes) => bytes,
            Err(error) => return Err(DriverError::Device(DeviceError::Rpu(error))),
        };
        let value: u32 = codec::read_u32(bytes, 0);
        if value != WATCHDOG_SENTINEL {
            return Ok(Some(value & RPU_WATCHDOG_BIT != 0));
        }
        read.left = read.left - 1;
        if read.left == 0 {
            self.state = DriverState::Fault;
            return Err(DriverError::InvalidWatchdogStatus);
        }
        Ok(None)
    }

    /// Starts to acknowledge and rearm a watchdog interrupt.
    pub fn acknowledge_watchdog(&self) -> (stage: WatchdogAck)
        ensures
            stage == WatchdogAck::Clear,
    {
        WatchdogAck::Clear
    }

    /// The outcome of one access of an acknowledgement.
    pub open spec fn acknowledgement_resumed<E>(
        before: Self,
        after: Self,
        stage: WatchdogAck,
        reply: Result<&[u8], RpuError<E>>,
        result: Result<WatchdogAck, DriverError<E>>,
    ) -> bool {
        match reply {
            Err(error) => {
                &&& result == Err::<WatchdogAck, DriverError<E>>(
                    DriverError::Device(DeviceError::Rpu(error)),
                )
                &&& after == before
            },
            Ok(_) => if stage == WatchdogAck::Clear {
                &&& result == Ok::<WatchdogAck, DriverError<E>>(WatchdogAck::Rearm)
                &&& after == before
            } else {
                &&& result == Ok::<WatchdogAck, DriverError<E>>(WatchdogAck::Rearmed)
                &&& after == before.recovering()
            },
        }
    }

    /// Takes the outcome of the access that [`WatchdogAck::request`] asked
    /// for. A rearmed watchdog requires recovery.
    pub fn resume_acknowledgement<E>(
        &mut self,
        stage: WatchdogAck,
        reply: Result<&[u8], RpuError<E>>,
    ) -> (result: Result<WatchdogAck, DriverError<E>>)
        requires
            stage != WatchdogAck::Rearmed,
        ensures
            old(self).wf() ==> final(self).wf(),
            Self::acknowledgement_resumed(*old(self), *final(self), stage, reply, result),
    {
        match reply {
            Ok(_) => {},
            Err(error) => return Err(DriverError::Device(DeviceError::Rpu(error))),
        }
        if stage == WatchdogAck::Clear {
            return Ok(WatchdogAck::Rearm);
        }
        self.enter_recovery();
        Ok(WatchdogAck::Rearmed)
    }
}

/// What a recovery is doing.
pub enum RecoveryStage<'a> {
    /// Disable the interrupt lines; failures do not matter.
    Disable(InterruptSwitch),
    /// Power-cycle and reset the board.
    HardReset,
    /// Select the slow bus for the wake.
    PrepareWakeBus,
    /// Wake the RPU.
    WakeRpu(Wake),
    /// Select the bus for normal traffic.
    PrepareDataBus,
    /// Enable the RPU clocks.
    EnableClocks,
    /// Load and boot the firmware.
    Load(FirmwareLoad<'a>),
    /// Read the queue map.
    Queues(QueueInit),
    /// Post an RX descriptor.
    Post(RxPost),
    /// Enable the interrupt lines.
    Enable(InterruptSwitch),
    /// Send the system initialization.
    Send(CommandSend),
    /// Firmware has the system initialization.
    Done,
}

/// What a recovery asks for.
#[derive(Clone, Copy, Debug, PartialEq, Eq, Structural)]
pub enum RecoveryRequest {
    /// Perform the complete power and hard-reset sequence.
    HardReset,
    /// Select a bus configuration of 8 MHz or less for wake access.
    PrepareWakeBus,
    /// Select the board-qualified bus configuration for normal traffic.
    PrepareDataBus,
    /// Access the RPU. The data of a write is the bundle's file while firmware
    /// is loaded, and [`Recovery::message`] behind that.
    Access(RpuRequest),
}

/// The outcome of what a recovery asked for.
pub enum RecoveryReply<'r, E, P> {
    /// Outcome of a board service.
    Board(Result<(), P>),
    /// Outcome of an RPU access.
    Access(Result<&'r [u8], RpuError<E>>),
}

/// A hard reset with everything behind it up to the system initialization.
pub struct Recovery<'a> {
    pub bundle: FirmwareBundle<'a>,
    pub config: &'a SystemInitConfig,
    /// The encoded system initialization.
    pub message: [u8; SYSTEM_INIT_MESSAGE_LEN],
    /// The report of the loaded firmware.
    pub report: Option<FirmwareReport>,
    pub stage: RecoveryStage<'a>,
}

impl<'a> RecoveryStage<'a> {
    /// The running part of a stage has not reached its end.
    pub open spec fn wf(&self) -> bool {
        match self {
            RecoveryStage::Disable(switch) => *switch != InterruptSwitch::Switched,
            RecoveryStage::WakeRpu(wake) => wake.wf() && wake.stage != WakeStage::Awake,
            RecoveryStage::Queues(queues) => !(queues is Ready),
            RecoveryStage::Enable(switch) => *switch != InterruptSwitch::Switched,
            RecoveryStage::Send(send) => send.wf() && send.attempts > 0 && send.state
                != SendState::Sent && send.waits,
            _ => true,
        }
    }

    /// Place of the stage in the fixed order.
    pub open spec fn rank(&self) -> nat {
        match self {
            RecoveryStage::Disable(_) => 0,
            RecoveryStage::HardReset => 1,
            RecoveryStage::PrepareWakeBus => 2,
            RecoveryStage::WakeRpu(_) => 3,
            RecoveryStage::PrepareDataBus => 4,
            RecoveryStage::EnableClocks => 5,
            RecoveryStage::Load(_) => 6,
            RecoveryStage::Queues(_) => 7,
            RecoveryStage::Post(_) => 8,
            RecoveryStage::Enable(_) => 9,
            RecoveryStage::Send(_) => 10,
            RecoveryStage::Done => 11,
        }
    }

    /// What comes next; an error where a bounded wait is over.
    pub open spec fn next<E>(&self, trigger: u32) -> Result<
        Option<RecoveryRequest>,
        DriverError<E>,
    > {
        match self {
            RecoveryStage::Disable(switch) => Ok(access_of(switch.next())),
            RecoveryStage::HardReset => Ok(Some(RecoveryRequest::HardReset)),
            RecoveryStage::PrepareWakeBus => Ok(Some(RecoveryRequest::PrepareWakeBus)),
            RecoveryStage::WakeRpu(wake) => match wake.next::<E>() {
                Ok(request) => Ok(access_of(request)),
                Err(error) => Err(DriverError::Device(DeviceError::Rpu(error))),
            },
            RecoveryStage::PrepareDataBus => Ok(Some(RecoveryRequest::PrepareDataBus)),
            RecoveryStage::EnableClocks => Ok(
                Some(
                    RecoveryRequest::Access(
                        memory::write_register_request(
                            memory::RPU_REG_CLOCK_ENABLE,
                            memory::RPU_CLOCK_ENABLE,
                        ),
                    ),
                ),
            ),
            RecoveryStage::Load(load) => match load.current().next::<E>(load.file()) {
                Ok(request) => Ok(access_of(request)),
                Err(error) => Err(DriverError::Firmware(error)),
            },
            RecoveryStage::Queues(queues) => Ok(access_of(queues.next())),
            RecoveryStage::Post(post) => Ok(access_of(post.next())),
            RecoveryStage::Enable(switch) => Ok(access_of(switch.next())),
            RecoveryStage::Send(send) => Ok(access_of(send.next(trigger))),
            RecoveryStage::Done => Ok(None),
        }
    }

    /// Whether a reply answers what the stage asked for. The RX command base
    /// that firmware publishes must leave room for every command slot.
    pub open spec fn answered_by<E, P>(
        &self,
        trigger: u32,
        reply: RecoveryReply<'_, E, P>,
        rx_slots: int,
    ) -> bool {
        match self.next::<E>(trigger) {
            Ok(Some(RecoveryRequest::Access(request))) => {
                &&& reply matches RecoveryReply::Access(access) && request.answered_by(access)
                &&& self matches RecoveryStage::Queues(QueueInit::ReadBase(_))
                    ==> reply matches RecoveryReply::Access(Ok(bytes)) ==> codec::u32_at(bytes@, 0)
                    + data::RX_COMMAND_SLOT_SIZE * (rx_slots - 1) <= u32::MAX
            },
            Ok(Some(_)) => reply is Board,
            _ => false,
        }
    }
}

/// An access as a recovery asks for it.
pub open spec fn access_of(request: Option<RpuRequest>) -> Option<RecoveryRequest> {
    match request {
        Some(request) => Some(RecoveryRequest::Access(request)),
        None => None,
    }
}

fn asked(request: Option<RpuRequest>) -> (asked: Option<RecoveryRequest>)
    ensures
        asked == access_of(request),
{
    match request {
        Some(request) => Some(RecoveryRequest::Access(request)),
        None => None,
    }
}

impl<'a> Recovery<'a> {
    /// The stage is well-formed.
    pub open spec fn wf(&self) -> bool {
        self.stage.wf()
    }

    /// Only the stage differs.
    pub open spec fn at(&self, before: &Self) -> bool {
        &&& self.bundle == before.bundle
        &&& self.config == before.config
        &&& self.message@ == before.message@
        &&& self.report == before.report
    }
}

/// The system initialization message of a configuration.
pub open spec fn system_init_message(config: SystemInitConfig) -> Seq<u8> {
    protocol::host_message(HostMessageType::System, false, protocol::system_init_bytes(config))
}

/// The reset that a load begins with.
pub open spec fn first_load_phase() -> LoadPhase {
    LoadPhase::Reset(
        ProcessorReset {
            processor: Processor::Lmac,
            stage: ResetStage::Assert,
            poll: ProcessorReset::clear_poll(Processor::Lmac),
        },
    )
}

/// Whether a bundle passed its trust policy and its stored digest.
pub open spec fn bundle_accepted<T: FirmwareTrustPolicy + ?Sized>(
    trust: &T,
    bundle: FirmwareBundle<'_>,
) -> bool {
    &&& call_ensures(T::verify, (trust, &bundle), Ok(()))
    &&& firmware::sha256(bundle.payload()) == firmware::stored_hash(bundle.file())
}

/// Whether this error is why a bundle was refused.
pub open spec fn bundle_refused<T: FirmwareTrustPolicy + ?Sized>(
    trust: &T,
    bundle: FirmwareBundle<'_>,
    error: FirmwareError,
) -> bool {
    ||| call_ensures(T::verify, (trust, &bundle), Err(error))
    ||| {
        &&& call_ensures(T::verify, (trust, &bundle), Ok(()))
        &&& firmware::sha256(bundle.payload()) != firmware::stored_hash(bundle.file())
        &&& error == FirmwareError::HashMismatch
    }
}

impl<B, const RX: usize, const TX: usize> NativeDriver<B, RX, TX> {
    /// A recovery of this driver: a posting is one of its data path.
    pub open spec fn recovery_wf(&self, recovery: Recovery<'_>) -> bool {
        &&& recovery.wf()
        &&& recovery.stage matches RecoveryStage::Post(post) ==> self.data.post_wf(post)
            && post.state != PostState::Posted && post.slot + data::RX_BUFFER_HEADROOM <= u32::MAX
    }

    /// A stage failed: the driver is in its fault state.
    pub open spec fn stopped<E, P>(
        before: Self,
        after: Self,
        result: Result<(), RecoveryError<E, P>>,
        error: RecoveryError<E, P>,
    ) -> bool {
        &&& after == before.faulted()
        &&& result == Err::<(), RecoveryError<E, P>>(error)
    }

    /// The recovery went on to a stage without a change of the driver.
    pub open spec fn went_on<E, P>(
        before: Self,
        after: Self,
        from: Recovery<'_>,
        to: Recovery<'_>,
        result: Result<(), RecoveryError<E, P>>,
        stage: RecoveryStage<'_>,
    ) -> bool {
        &&& after == before
        &&& to.at(&from)
        &&& to.stage == stage
        &&& result == Ok::<(), RecoveryError<E, P>>(())
    }

    /// What follows the posted descriptors before `first`: the next descriptor
    /// that is not posted, or the interrupt lines.
    pub open spec fn posting_next<E, P>(
        before: Self,
        after: Self,
        from: Recovery<'_>,
        to: Recovery<'_>,
        result: Result<(), RecoveryError<E, P>>,
        first: int,
    ) -> bool {
        if forall|i: int| first <= i < RX ==> before.data.rx_posted@[i] {
            if before.device.recovery_required {
                Self::stopped(
                    before,
                    after,
                    result,
                    RecoveryError::Driver(DriverError::Device(DeviceError::RecoveryRequired)),
                )
            } else {
                Self::went_on(
                    before,
                    after,
                    from,
                    to,
                    result,
                    RecoveryStage::Enable(InterruptSwitch::ReadRoot { enable: true }),
                )
            }
        } else {
            exists|descriptor: u16|
                {
                    &&& first <= descriptor < RX
                    &&& !before.data.rx_posted@[descriptor as int]
                    &&& forall|i: int| first <= i < descriptor ==> before.data.rx_posted@[i]
                    &&& match #[trigger] before.data.post_start::<B, E>(
                        before.device,
                        descriptor,
                        0,
                    ) {
                        Ok(post) => Self::went_on(
                            before,
                            after,
                            from,
                            to,
                            result,
                            RecoveryStage::Post(post),
                        ),
                        Err(error) => Self::stopped(
                            before,
                            after,
                            result,
                            RecoveryError::Driver(DriverError::Data(error)),
                        ),
                    }
                }
        }
    }

    /// What follows the enabled interrupt lines: the system initialization is
    /// encoded and its delivery starts.
    pub open spec fn sending_next<E, P>(
        before: Self,
        after: Self,
        from: Recovery<'_>,
        to: Recovery<'_>,
        result: Result<(), RecoveryError<E, P>>,
    ) -> bool {
        match protocol::system_init_fault(SYSTEM_INIT_MESSAGE_LEN as nat, *from.config) {
            Some(error) => Self::stopped(
                before,
                after,
                result,
                RecoveryError::Driver(DriverError::Protocol(error)),
            ),
            None => match before.device.waiting_delivery::<E>(
                system_init_message(*from.config),
                device::DEFAULT_COMMAND_WAIT_ATTEMPTS,
                device::DEFAULT_COMMAND_WAIT_DELAY_MS,
            ) {
                Err(error) => Self::stopped(
                    before,
                    after,
                    result,
                    RecoveryError::Driver(DriverError::Device(error)),
                ),
                Ok(send) => {
                    &&& after == before
                    &&& to.bundle == from.bundle
                    &&& to.config == from.config
                    &&& to.report == from.report
                    &&& to.message@ == system_init_message(*from.config) + from.message@.skip(
                        system_init_message(*from.config).len() as int,
                    )
                    &&& to.stage == RecoveryStage::<'_>::Send(send)
                    &&& result == Ok::<(), RecoveryError<E, P>>(())
                },
            },
        }
    }

    /// The outcome of a board service.
    pub open spec fn board_stepped<E, P>(
        before: Self,
        after: Self,
        from: Recovery<'_>,
        to: Recovery<'_>,
        reply: Result<(), P>,
        result: Result<(), RecoveryError<E, P>>,
    ) -> bool {
        match reply {
            Err(error) => Self::stopped(before, after, result, RecoveryError::Platform(error)),
            Ok(()) => match from.stage {
                RecoveryStage::HardReset => {
                    &&& after == (NativeDriver {
                        device: before.device.queues_reset(),
                        data: after.data,
                        ..before
                    })
                    &&& after.data.same_layout(&before.data)
                    &&& after.data.tx_in_flight@ == Seq::new(TX as nat, |i: int| false)
                    &&& after.data.rx_posted@ == Seq::new(RX as nat, |i: int| false)
                    &&& after.data.next_tx == 0
                    &&& to.at(&from)
                    &&& to.stage is PrepareWakeBus
                    &&& result == Ok::<(), RecoveryError<E, P>>(())
                },
                RecoveryStage::PrepareWakeBus => Self::went_on(
                    before,
                    after,
                    from,
                    to,
                    result,
                    RecoveryStage::WakeRpu(Wake::fresh(DEFAULT_WAKE_ATTEMPTS)),
                ),
                _ => Self::went_on(before, after, from, to, result, RecoveryStage::EnableClocks),
            },
        }
    }

    /// The outcome of a failed access: only the first interrupt switch may
    /// fail.
    pub open spec fn access_failed<E, P>(
        before: Self,
        after: Self,
        from: Recovery<'_>,
        to: Recovery<'_>,
        error: RpuError<E>,
        result: Result<(), RecoveryError<E, P>>,
    ) -> bool {
        match from.stage {
            RecoveryStage::Disable(_) => Self::went_on(
                before,
                after,
                from,
                to,
                result,
                RecoveryStage::HardReset,
            ),
            RecoveryStage::Load(load) => Self::stopped(
                before,
                after,
                result,
                RecoveryError::Driver(
                    DriverError::Firmware(
                        LoadError::Rpu { stage: load.current().stage(), error },
                    ),
                ),
            ),
            RecoveryStage::Post(post) => Self::stopped(
                before,
                after,
                result,
                RecoveryError::Driver(
                    DriverError::Data(DataPath::<RX, TX>::post_error(post, error)),
                ),
            ),
            RecoveryStage::Send(_) => Self::stopped(
                NativeDriver {
                    device: Device { recovery_required: true, ..before.device },
                    ..before
                },
                after,
                result,
                RecoveryError::Driver(DriverError::Device(DeviceError::CommandDeliveryUncertain)),
            ),
            _ => Self::stopped(
                before,
                after,
                result,
                RecoveryError::Driver(DriverError::Device(DeviceError::Rpu(error))),
            ),
        }
    }

    /// The outcome of a successful access while the RPU comes up.
    pub open spec fn boot_stepped<T: FirmwareTrustPolicy + ?Sized, E, P>(
        before: Self,
        after: Self,
        from: Recovery<'_>,
        to: Recovery<'_>,
        trust: &T,
        bytes: Seq<u8>,
        result: Result<(), RecoveryError<E, P>>,
    ) -> bool {
        match from.stage {
            RecoveryStage::Disable(switch) => Self::went_on(
                before,
                after,
                from,
                to,
                result,
                if switch.after(bytes) == InterruptSwitch::Switched {
                    RecoveryStage::HardReset
                } else {
                    RecoveryStage::Disable(switch.after(bytes))
                },
            ),
            RecoveryStage::WakeRpu(wake) => Self::went_on(
                before,
                after,
                from,
                to,
                result,
                if wake.after(bytes).stage == WakeStage::Awake {
                    RecoveryStage::PrepareDataBus
                } else {
                    RecoveryStage::WakeRpu(wake.after(bytes))
                },
            ),
            RecoveryStage::EnableClocks => match result {
                Ok(()) => {
                    &&& after == before
                    &&& to.at(&from)
                    &&& bundle_accepted(trust, from.bundle)
                    &&& to.stage matches RecoveryStage::Load(load) && load.file()
                        == from.bundle.file() && load.current() == first_load_phase()
                },
                Err(error) => {
                    &&& after == before.faulted()
                    &&& error matches RecoveryError::Driver(
                        DriverError::Firmware(LoadError::Firmware(cause)),
                    ) && bundle_refused(trust, from.bundle, cause)
                },
            },
            RecoveryStage::Load(load) => {
                let phase = load.current().after(bytes);
                &&& after == before
                &&& result == Ok::<(), RecoveryError<E, P>>(())
                &&& to.bundle == from.bundle
                &&& to.config == from.config
                &&& to.message@ == from.message@
                &&& if phase == LoadPhase::Loaded {
                    &&& to.stage == RecoveryStage::<'_>::Queues(QueueInit::ReadMap)
                    &&& to.report == Some(
                        FirmwareReport {
                            version: firmware::PINNED_PATCH_VERSION,
                            feature_flags: firmware::FEATURE_SYSTEM_MODE,
                        },
                    )
                } else {
                    &&& to.stage matches RecoveryStage::Load(next) && next.file() == load.file()
                        && next.current() == phase
                    &&& to.report == from.report
                }
            },
            _ => false,
        }
    }

    /// The outcome of a successful access while the queues come up.
    pub open spec fn queue_stepped<E, P>(
        before: Self,
        after: Self,
        from: Recovery<'_>,
        to: Recovery<'_>,
        bytes: Seq<u8>,
        result: Result<(), RecoveryError<E, P>>,
    ) -> bool {
        let bad_map = RecoveryError::Driver(DriverError::Device(DeviceError::InvalidQueueMap));
        match from.stage {
            RecoveryStage::Queues(QueueInit::ReadMap) => if exists|i: int|
                0 <= i < 7 && !device::queue_usable(#[trigger] protocol::hpq_at(bytes, 8 * i)) {
                Self::stopped(before, after, result, bad_map)
            } else {
                &&& after == before
                &&& to.at(&from)
                &&& to.stage matches RecoveryStage::Queues(QueueInit::ReadBase(queues))
                    && queues.queues() == Seq::new(7, |i: int| protocol::hpq_at(bytes, 8 * i))
                &&& result == Ok::<(), RecoveryError<E, P>>(())
            },
            RecoveryStage::Queues(QueueInit::ReadBase(queues)) => {
                let base = codec::u32_at(bytes, 0);
                if base == 0 || base == device::QUEUE_SENTINEL {
                    Self::stopped(before, after, result, bad_map)
                } else {
                    Self::posting_next(
                        NativeDriver {
                            device: before.device.queues_published(queues, base),
                            ..before
                        },
                        after,
                        from,
                        to,
                        result,
                        0,
                    )
                }
            },
            RecoveryStage::Post(post) => exists|data: DataPath<RX, TX>|
                {
                    &&& #[trigger] data.rx_changed(&before.data, before.data.posted_after(post))
                    &&& if post.advanced().state == PostState::Posted {
                        Self::posting_next(
                            NativeDriver { data, ..before },
                            after,
                            from,
                            to,
                            result,
                            post.descriptor + 1,
                        )
                    } else {
                        Self::went_on(
                            NativeDriver { data, ..before },
                            after,
                            from,
                            to,
                            result,
                            RecoveryStage::Post(post.advanced()),
                        )
                    }
                },
            RecoveryStage::Enable(switch) => if switch.after(bytes) == InterruptSwitch::Switched {
                Self::sending_next(before, after, from, to, result)
            } else {
                Self::went_on(
                    before,
                    after,
                    from,
                    to,
                    result,
                    RecoveryStage::Enable(switch.after(bytes)),
                )
            },
            RecoveryStage::Send(send) => Self::send_stepped(
                before,
                after,
                from,
                to,
                send,
                bytes,
                result,
            ),
            _ => false,
        }
    }

    /// The outcome of a successful access of the delivery: the last one ends
    /// the recovery, and the driver waits for the firmware.
    pub open spec fn send_stepped<E, P>(
        before: Self,
        after: Self,
        from: Recovery<'_>,
        to: Recovery<'_>,
        send: CommandSend,
        bytes: Seq<u8>,
        result: Result<(), RecoveryError<E, P>>,
    ) -> bool {
        match send.after(Some(bytes)) {
            SendOutcome::Continue(next) => {
                let counted = NativeDriver {
                    device: Device {
                        command_counter: if send.state == SendState::Trigger {
                            device::next_counter(before.device.command_counter)
                        } else {
                            before.device.command_counter
                        },
                        ..before.device
                    },
                    ..before
                };
                if next.state == SendState::Sent {
                    Self::went_on(
                        NativeDriver {
                            configured_mac: Some(from.config.mac_address),
                            state: DriverState::WaitingForSystemInit,
                            ..counted
                        },
                        after,
                        from,
                        to,
                        result,
                        RecoveryStage::Done,
                    )
                } else {
                    Self::went_on(counted, after, from, to, result, RecoveryStage::Send(next))
                }
            },
            SendOutcome::Empty => Self::stopped(
                before,
                after,
                result,
                RecoveryError::Driver(DriverError::Device(DeviceError::CommandQueueEmpty)),
            ),
            SendOutcome::TimedOut => Self::stopped(
                before,
                after,
                result,
                RecoveryError::Driver(DriverError::Device(DeviceError::CommandQueueTimeout)),
            ),
            SendOutcome::Uncertain => Self::stopped(
                NativeDriver {
                    device: Device { recovery_required: true, ..before.device },
                    ..before
                },
                after,
                result,
                RecoveryError::Driver(DriverError::Device(DeviceError::CommandDeliveryUncertain)),
            ),
        }
    }

    /// The outcome of one step of a recovery.
    pub open spec fn recovery_stepped<T: FirmwareTrustPolicy + ?Sized, E, P>(
        before: Self,
        after: Self,
        from: Recovery<'_>,
        to: Recovery<'_>,
        trust: &T,
        reply: RecoveryReply<'_, E, P>,
        result: Result<(), RecoveryError<E, P>>,
    ) -> bool {
        match reply {
            RecoveryReply::Board(reply) => Self::board_stepped(
                before,
                after,
                from,
                to,
                reply,
                result,
            ),
            RecoveryReply::Access(Err(error)) => Self::access_failed(
                before,
                after,
                from,
                to,
                error,
                result,
            ),
            RecoveryReply::Access(Ok(bytes)) => if from.stage.rank() <= 6 {
                Self::boot_stepped(before, after, from, to, trust, bytes@, result)
            } else {
                Self::queue_stepped(before, after, from, to, bytes@, result)
            },
        }
    }

    /// The outcome of starting a recovery: a configuration that does not fit
    /// is a fault before the board is touched.
    pub open spec fn recovery_begun<'a, E>(
        before: Self,
        after: Self,
        bundle: FirmwareBundle<'a>,
        config: &'a SystemInitConfig,
        result: Result<Recovery<'a>, DriverError<E>>,
    ) -> bool {
        if before.config_matches(*config) {
            &&& after == before.recovering()
            &&& result matches Ok(recovery) && recovery.bundle == bundle && recovery.config
                == config && recovery.report is None && recovery.stage
                == RecoveryStage::<'a>::Disable(InterruptSwitch::ReadRoot { enable: false })
        } else {
            &&& after == before.recovering().faulted()
            &&& result == Err::<Recovery<'a>, DriverError<E>>(DriverError::ConfigurationMismatch)
        }
    }

    /// Starts a hard reset, firmware load, queue initialization and system
    /// initialization.
    ///
    /// The driver ends in [`DriverState::WaitingForSystemInit`]. It becomes
    /// ready only after [`SystemEvent::InitDone`] is received and dispatched.
    pub fn recover<'a, E>(
        &mut self,
        bundle: &FirmwareBundle<'a>,
        config: &'a SystemInitConfig,
    ) -> (result: Result<Recovery<'a>, DriverError<E>>)
        requires
            old(self).wf(),
        ensures
            final(self).wf(),
            Self::recovery_begun(*old(self), *final(self), *bundle, config, result),
            result matches Ok(recovery) ==> final(self).recovery_wf(recovery),
    {
        self.enter_recovery();
        match self.validate_system_config::<E>(config) {
            Ok(()) => {},
            Err(error) => {
                self.state = DriverState::Fault;
                return Err(error);
            },
        }
        Ok(
            Recovery {
                bundle: *bundle,
                config,
                message: [0u8; SYSTEM_INIT_MESSAGE_LEN],
                report: None,
                stage: RecoveryStage::Disable(self.device.disable_interrupts()),
            },
        )
    }

    /// What a recovery asks for, or the fault that it ends with.
    pub open spec fn recovery_asked<E, P>(
        before: Self,
        after: Self,
        recovery: Recovery<'_>,
        result: Result<Option<RecoveryRequest>, RecoveryError<E, P>>,
    ) -> bool {
        match recovery.stage.next::<E>(before.device.trigger_value()) {
            Ok(request) => {
                &&& result == Ok::<Option<RecoveryRequest>, RecoveryError<E, P>>(request)
                &&& after == before
            },
            Err(error) => {
                &&& result == Err::<Option<RecoveryRequest>, RecoveryError<E, P>>(
                    RecoveryError::Driver(error),
                )
                &&& after == before.faulted()
            },
        }
    }

    /// Returns what the recovery asks for, `None` once it is done. A bounded
    /// wait that is over is a fault.
    pub fn recovery_request<E, P>(&mut self, recovery: &Recovery<'_>) -> (result: Result<
        Option<RecoveryRequest>,
        RecoveryError<E, P>,
    >)
        requires
            old(self).wf(),
            old(self).recovery_wf(*recovery),
        ensures
            final(self).wf(),
            final(self).recovery_wf(*recovery),
            Self::recovery_asked(*old(self), *final(self), *recovery, result),
    {
        match &recovery.stage {
            RecoveryStage::Disable(switch) => Ok(asked(switch.request())),
            RecoveryStage::HardReset => Ok(Some(RecoveryRequest::HardReset)),
            RecoveryStage::PrepareWakeBus => Ok(Some(RecoveryRequest::PrepareWakeBus)),
            RecoveryStage::WakeRpu(wake) => match wake.request() {
                Ok(request) => Ok(asked(request)),
                Err(error) => {
                    self.state = DriverState::Fault;
                    Err(RecoveryError::Driver(DriverError::Device(DeviceError::Rpu(error))))
                },
            },
            RecoveryStage::PrepareDataBus => Ok(Some(RecoveryRequest::PrepareDataBus)),
            RecoveryStage::EnableClocks => Ok(
                Some(RecoveryRequest::Access(memory::enable_clocks())),
            ),
            RecoveryStage::Load(load) => match load.request() {
                Ok(request) => Ok(asked(request)),
                Err(error) => {
                    self.state = DriverState::Fault;
                    Err(RecoveryError::Driver(DriverError::Firmware(error)))
                },
            },
            RecoveryStage::Queues(queues) => Ok(asked(queues.request())),
            RecoveryStage::Post(post) => Ok(asked(post.request())),
            RecoveryStage::Enable(switch) => Ok(asked(switch.request())),
            RecoveryStage::Send(send) => Ok(asked(self.device.send_request(send))),
            RecoveryStage::Done => Ok(None),
        }
    }
}

impl<B, const RX: usize, const TX: usize> NativeDriver<B, RX, TX> {
    fn stop<E, P>(&mut self, error: RecoveryError<E, P>) -> (result: Result<
        (),
        RecoveryError<E, P>,
    >)
        ensures
            Self::stopped(*old(self), *final(self), result, error),
    {
        self.state = DriverState::Fault;
        Err(error)
    }

    fn resume_board<'a, E, P>(&mut self, recovery: &mut Recovery<'a>, reply: Result<(), P>) -> (
    result: Result<(), RecoveryError<E, P>>)
        requires
            old(self).wf(),
            old(self).recovery_wf(*old(recovery)),
            old(recovery).stage is HardReset || old(recovery).stage is PrepareWakeBus || old(
                recovery,
            ).stage is PrepareDataBus,
        ensures
            final(self).wf(),
            result is Ok ==> final(self).recovery_wf(*final(recovery)),
            Self::board_stepped(
                *old(self),
                *final(self),
                *old(recovery),
                *final(recovery),
                reply,
                result,
            ),
    {
        match reply {
            Ok(()) => {},
            Err(error) => return self.stop(RecoveryError::Platform(error)),
        }
        match &recovery.stage {
            RecoveryStage::HardReset => {
                self.device.reset_queue_state();
                self.data.reset_after_rpu_reset();
                recovery.stage = RecoveryStage::PrepareWakeBus;
            },
            RecoveryStage::PrepareWakeBus => {
                recovery.stage = RecoveryStage::WakeRpu(Wake::new(DEFAULT_WAKE_ATTEMPTS));
            },
            _ => {
                recovery.stage = RecoveryStage::EnableClocks;
            },
        }
        Ok(())
    }

    fn fail_access<'a, E, P>(&mut self, recovery: &mut Recovery<'a>, error: RpuError<E>) -> (
    result: Result<(), RecoveryError<E, P>>)
        requires
            old(self).wf(),
            old(self).recovery_wf(*old(recovery)),
        ensures
            final(self).wf(),
            result is Ok ==> final(self).recovery_wf(*final(recovery)),
            Self::access_failed(
                *old(self),
                *final(self),
                *old(recovery),
                *final(recovery),
                error,
                result,
            ),
    {
        let failure = match &recovery.stage {
            RecoveryStage::Disable(_) => {
                recovery.stage = RecoveryStage::HardReset;
                return Ok(());
            },
            RecoveryStage::Load(load) => DriverError::Firmware(
                LoadError::Rpu { stage: load.stage(), error },
            ),
            RecoveryStage::Post(post) => DriverError::Data(
                if post.state == PostState::Enqueue {
                    DataError::QueueOwnershipUncertain(DeviceError::Rpu(error))
                } else {
                    DataError::Rpu(error)
                },
            ),
            RecoveryStage::Send(_) => {
                self.device.recovery_required = true;
                DriverError::Device(DeviceError::CommandDeliveryUncertain)
            },
            _ => DriverError::Device(DeviceError::Rpu(error)),
        };
        self.stop(RecoveryError::Driver(failure))
    }

    fn resume_boot<'a, T: FirmwareTrustPolicy + ?Sized, E, P>(
        &mut self,
        recovery: &mut Recovery<'a>,
        trust: &T,
        bytes: &[u8],
    ) -> (result: Result<(), RecoveryError<E, P>>)
        requires
            old(self).wf(),
            old(self).recovery_wf(*old(recovery)),
            old(recovery).stage.rank() <= 6,
            old(recovery).stage.next::<E>(old(self).device.trigger_value()) matches Ok(
                Some(RecoveryRequest::Access(request)),
            ) && bytes@.len() == request.reply_len(),
        ensures
            final(self).wf(),
            result is Ok ==> final(self).recovery_wf(*final(recovery)),
            Self::boot_stepped(
                *old(self),
                *final(self),
                *old(recovery),
                *final(recovery),
                trust,
                bytes@,
                result,
            ),
    {
        let mut loaded: Option<FirmwareReport> = None;
        match &mut recovery.stage {
            RecoveryStage::Disable(switch) => {
                let switched: Result<InterruptSwitch, DeviceError<E>> = switch.resume(Ok(bytes));
                let next = match switched {
                    Ok(next) => next,
                    Err(_) => InterruptSwitch::Switched,
                };
                recovery.stage =
                if next == InterruptSwitch::Switched {
                    RecoveryStage::HardReset
                } else {
                    RecoveryStage::Disable(next)
                };
                return Ok(());
            },
            RecoveryStage::WakeRpu(wake) => {
                let mut next = *wake;
                let resumed: Result<(), RpuError<E>> = next.resume(Ok(bytes));
                if let Err(error) = resumed {
                    return self.stop(
                        RecoveryError::Driver(DriverError::Device(DeviceError::Rpu(error))),
                    );
                }
                recovery.stage =
                if next.stage == WakeStage::Awake {
                    RecoveryStage::PrepareDataBus
                } else {
                    RecoveryStage::WakeRpu(next)
                };
                return Ok(());
            },
            RecoveryStage::EnableClocks => {
                match FirmwareLoad::begin(&recovery.bundle, trust) {
                    Ok(load) => {
                        recovery.stage = RecoveryStage::Load(load);
                        return Ok(());
                    },
                    Err(error) => {
                        return self.stop(
                            RecoveryError::Driver(
                                DriverError::Firmware(LoadError::Firmware(error)),
                            ),
                        );
                    },
                }
            },
            RecoveryStage::Load(load) => {
                let resumed: Result<(), LoadError<E>> = load.resume(Ok(bytes));
                if let Err(error) = resumed {
                    return self.stop(RecoveryError::Driver(DriverError::Firmware(error)));
                }
                loaded = load.report();
            },
            _ => {},
        }
        if let Some(report) = loaded {
            recovery.report = Some(report);
            recovery.stage = RecoveryStage::Queues(self.device.initialize_queues());
        }
        Ok(())
    }

    fn next_posting<'a, E, P>(&mut self, recovery: &mut Recovery<'a>, first: usize) -> (result:
        Result<(), RecoveryError<E, P>>)
        requires
            old(self).wf(),
        ensures
            final(self).wf(),
            result is Ok ==> final(self).recovery_wf(*final(recovery)),
            Self::posting_next(
                *old(self),
                *final(self),
                *old(recovery),
                *final(recovery),
                result,
                first as int,
            ),
    {
        match self.data.unposted_from(first) {
            Some(descriptor) => {
                let started: Result<RxPost, DataError<E>> = self.data.post_rx(
                    &self.device,
                    descriptor,
                    0,
                );
                match started {
                    Ok(post) => {
                        recovery.stage = RecoveryStage::Post(post);
                        Ok(())
                    },
                    Err(error) => self.stop(RecoveryError::Driver(DriverError::Data(error))),
                }
            },
            None => {
                let started: Result<InterruptSwitch, DeviceError<E>> =
                    self.device.enable_interrupts();
                match started {
                    Ok(switch) => {
                        recovery.stage = RecoveryStage::Enable(switch);
                        Ok(())
                    },
                    Err(error) => self.stop(RecoveryError::Driver(DriverError::Device(error))),
                }
            },
        }
    }

    fn next_sending<'a, E, P>(&mut self, recovery: &mut Recovery<'a>) -> (result: Result<
        (),
        RecoveryError<E, P>,
    >)
        requires
            old(self).wf(),
        ensures
            final(self).wf(),
            result is Ok ==> final(self).recovery_wf(*final(recovery)),
            Self::sending_next(
                *old(self),
                *final(self),
                *old(recovery),
                *final(recovery),
                result,
            ),
    {
        let config = recovery.config;
        let len: usize = match protocol::encode_system_init(&mut recovery.message, config) {
            Ok(len) => len,
            Err(error) => return self.stop(RecoveryError::Driver(DriverError::Protocol(error))),
        };
        assert(recovery.message@.subrange(0, len as int) =~= system_init_message(*config));
        let message: &[u8] = &recovery.message;
        let started: Result<CommandSend, DeviceError<E>> = self.device.send_control_reliable(
            &message[0..len],
        );
        match started {
            Ok(send) => {
                recovery.stage = RecoveryStage::Send(send);
                Ok(())
            },
            Err(error) => self.stop(RecoveryError::Driver(DriverError::Device(error))),
        }
    }

    fn resume_queues<'a, E, P>(&mut self, recovery: &mut Recovery<'a>, bytes: &[u8]) -> (result:
        Result<(), RecoveryError<E, P>>)
        requires
            old(self).wf(),
            old(self).recovery_wf(*old(recovery)),
            old(recovery).stage.rank() > 6,
            old(recovery).stage.next::<E>(old(self).device.trigger_value()) matches Ok(
                Some(RecoveryRequest::Access(request)),
            ) && bytes@.len() == request.reply_len(),
            old(recovery).stage matches RecoveryStage::Queues(QueueInit::ReadBase(_))
                ==> codec::u32_at(bytes@, 0) + data::RX_COMMAND_SLOT_SIZE * (RX - 1) <= u32::MAX,
        ensures
            final(self).wf(),
            result is Ok ==> final(self).recovery_wf(*final(recovery)),
            Self::queue_stepped(
                *old(self),
                *final(self),
                *old(recovery),
                *final(recovery),
                bytes@,
                result,
            ),
    {
        match &recovery.stage {
            RecoveryStage::Queues(queues) => {
                let queues = *queues;
                let resumed: Result<QueueInit, DeviceError<E>> = self.device.resume_initialization(
                    queues,
                    Ok(bytes),
                );
                match resumed {
                    Ok(QueueInit::Ready(_)) => self.next_posting(recovery, 0),
                    Ok(next) => {
                        recovery.stage = RecoveryStage::Queues(next);
                        Ok(())
                    },
                    Err(error) => self.stop(RecoveryError::Driver(DriverError::Device(error))),
                }
            },
            RecoveryStage::Post(post) => {
                let mut post = *post;
                let resumed: Result<(), DataError<E>> = self.data.resume_post(&mut post, Ok(bytes));
                if let Err(error) = resumed {
                    return self.stop(RecoveryError::Driver(DriverError::Data(error)));
                }
                if post.state == PostState::Posted {
                    return self.next_posting(recovery, post.descriptor as usize + 1);
                }
                recovery.stage = RecoveryStage::Post(post);
                Ok(())
            },
            RecoveryStage::Enable(switch) => {
                let resumed: Result<InterruptSwitch, DeviceError<E>> = switch.resume(Ok(bytes));
                match resumed {
                    Ok(InterruptSwitch::Switched) => self.next_sending(recovery),
                    Ok(next) => {
                        recovery.stage = RecoveryStage::Enable(next);
                        Ok(())
                    },
                    Err(error) => self.stop(RecoveryError::Driver(DriverError::Device(error))),
                }
            },
            RecoveryStage::Send(send) => {
                let mut send = *send;
                let resumed: Result<(), DeviceError<E>> = self.device.resume_send(
                    &mut send,
                    Ok(bytes),
                );
                if let Err(error) = resumed {
                    return self.stop(RecoveryError::Driver(DriverError::Device(error)));
                }
                if send.state == SendState::Sent {
                    self.configured_mac = Some(recovery.config.mac_address);
                    self.state = DriverState::WaitingForSystemInit;
                    recovery.stage = RecoveryStage::Done;
                } else {
                    recovery.stage = RecoveryStage::Send(send);
                }
                Ok(())
            },
            _ => Ok(()),
        }
    }

    /// Takes the outcome of what [`NativeDriver::recovery_request`] asked for.
    /// Any failure but that of the first interrupt switch leaves the driver in
    /// its fault state.
    pub fn resume_recovery<'a, T: FirmwareTrustPolicy + ?Sized, E, P>(
        &mut self,
        recovery: &mut Recovery<'a>,
        trust: &T,
        reply: RecoveryReply<'_, E, P>,
    ) -> (result: Result<(), RecoveryError<E, P>>)
        requires
            old(self).wf(),
            old(self).recovery_wf(*old(recovery)),
            old(recovery).stage.answered_by(
                old(self).device.trigger_value(),
                reply,
                RX as int,
            ),
        ensures
            final(self).wf(),
            result is Ok ==> final(self).recovery_wf(*final(recovery)),
            Self::recovery_stepped(
                *old(self),
                *final(self),
                *old(recovery),
                *final(recovery),
                trust,
                reply,
                result,
            ),
    {
        match reply {
            RecoveryReply::Board(reply) => self.resume_board(recovery, reply),
            RecoveryReply::Access(Err(error)) => self.fail_access(recovery, error),
            RecoveryReply::Access(Ok(bytes)) => {
                let booting: bool = match &recovery.stage {
                    RecoveryStage::Disable(_) => true,
                    RecoveryStage::WakeRpu(_) => true,
                    RecoveryStage::EnableClocks => true,
                    RecoveryStage::Load(_) => true,
                    _ => false,
                };
                if booting {
                    self.resume_boot(recovery, trust, bytes)
                } else {
                    self.resume_queues(recovery, bytes)
                }
            },
        }
    }
}

/// A recovery never skips a stage, and it never goes back: a step leaves it in
/// its stage or moves it to a later one, and only the posting of descriptors
/// can be passed over, where all are posted.
pub proof fn law_recovery_keeps_its_order<
    T: FirmwareTrustPolicy + ?Sized,
    B,
    E,
    P,
    const RX: usize,
    const TX: usize,
>(
    before: NativeDriver<B, RX, TX>,
    after: NativeDriver<B, RX, TX>,
    from: Recovery<'_>,
    to: Recovery<'_>,
    trust: &T,
    reply: RecoveryReply<'_, E, P>,
)
    requires
        from.stage.answered_by(before.device.trigger_value(), reply, RX as int),
        NativeDriver::recovery_stepped(
            before,
            after,
            from,
            to,
            trust,
            reply,
            Ok::<(), RecoveryError<E, P>>(()),
        ),
    ensures
        from.stage.rank() <= to.stage.rank() <= from.stage.rank() + 1 || (from.stage is Queues
            && to.stage is Enable),
{
}

/// Recovery ends in exactly two ways: a failed step leaves the driver in its
/// fault state, and the driver waits for the firmware only behind the last
/// stage. No step makes the driver ready.
pub proof fn law_recovery_ends_in_fault_or_waiting<
    T: FirmwareTrustPolicy + ?Sized,
    B,
    E,
    P,
    const RX: usize,
    const TX: usize,
>(
    before: NativeDriver<B, RX, TX>,
    after: NativeDriver<B, RX, TX>,
    from: Recovery<'_>,
    to: Recovery<'_>,
    trust: &T,
    reply: RecoveryReply<'_, E, P>,
    result: Result<(), RecoveryError<E, P>>,
)
    requires
        from.stage.answered_by(before.device.trigger_value(), reply, RX as int),
        before.state == DriverState::Recovering,
        NativeDriver::recovery_stepped(before, after, from, to, trust, reply, result),
    ensures
        result is Err ==> after.state == DriverState::Fault,
        result is Ok && to.stage is Done ==> after.state == DriverState::WaitingForSystemInit,
        result is Ok && !(to.stage is Done) ==> after.state == DriverState::Recovering,
{
}

/// No byte of a bundle reaches the RPU unless its trust policy and its stored
/// digest accepted it: the load stage is entered only behind both.
pub proof fn law_only_accepted_bundles_are_loaded<
    T: FirmwareTrustPolicy + ?Sized,
    B,
    E,
    P,
    const RX: usize,
    const TX: usize,
>(
    before: NativeDriver<B, RX, TX>,
    after: NativeDriver<B, RX, TX>,
    from: Recovery<'_>,
    to: Recovery<'_>,
    trust: &T,
    reply: RecoveryReply<'_, E, P>,
)
    requires
        from.stage.answered_by(before.device.trigger_value(), reply, RX as int),
        !(from.stage is Load),
        to.stage is Load,
        NativeDriver::recovery_stepped(
            before,
            after,
            from,
            to,
            trust,
            reply,
            Ok::<(), RecoveryError<E, P>>(()),
        ),
    ensures
        bundle_accepted(trust, from.bundle),
{
}

/// The port lets key frames pass while the link wants them and every other frame
/// while it is open; the type of a frame stands in its bytes 12 and 13.
pub proof fn law_port_admits<B, const RX: usize, const TX: usize>(
    driver: NativeDriver<B, RX, TX>,
    ether_type: u16,
    frame: Seq<u8>,
)
    ensures
        driver.port_allows(0x888e) == driver.station.wants_eapol(),
        ether_type != 0x888e ==> driver.port_allows(ether_type) == driver.station.port_open(),
        frame.len() < 14 ==> ether_type_of(frame) is None,
        frame.len() >= 14 ==> (ether_type_of(frame) matches Some(own) && own == 0x100 * frame[12]
            + frame[13]),
{
}

/// A frame is refused for transmission for another interface, without a whole header
/// or behind a closed port, in this order.
pub proof fn law_transmit_refusals<B, E, const RX: usize, const TX: usize>(
    driver: NativeDriver<B, RX, TX>,
    wdev_id: u8,
    frame: Seq<u8>,
)
    ensures
        ({
            let refusal = driver.transmit_refusal::<E>(wdev_id, frame);
            let ether_type = (0x100 * frame[12] + frame[13]) as u16;
            &&& wdev_id != driver.wdev_id ==> refusal == Some(
                DriverError::<E>::WrongInterface { expected: driver.wdev_id, received: wdev_id },
            )
            &&& wdev_id == driver.wdev_id && frame.len() < 14 ==> refusal == Some(
                DriverError::<E>::FrameTooShort,
            )
            &&& wdev_id == driver.wdev_id && frame.len() >= 14 && !driver.port_allows(ether_type)
                ==> refusal == Some(
                DriverError::<E>::ControlledPortClosed { state: driver.station.state, ether_type },
            )
            &&& refusal is None <==> wdev_id == driver.wdev_id && frame.len() >= 14
                && driver.port_allows(ether_type)
        }),
{
}

/// A received frame is handed out exactly when it came in on this interface and its
/// type may pass the port; a frame of another interface asks for recovery.
pub proof fn law_received_frames_pass_the_port<B, E, const RX: usize, const TX: usize>(
    before: NativeDriver<B, RX, TX>,
    after: NativeDriver<B, RX, TX>,
    wdev_id: u8,
    frame: ReceivedFrame,
    result: Result<ReceivedFrame, DriverError<E>>,
)
    requires
        NativeDriver::frame_validated(before, after, wdev_id, frame, result),
    ensures
        result is Ok <==> wdev_id == before.wdev_id && before.port_allows(frame.ether_type),
        result matches Ok(delivered) ==> delivered == frame,
        wdev_id != before.wdev_id ==> after.state == DriverState::Recovering && result == Err::<
            ReceivedFrame,
            DriverError<E>,
        >(DriverError::WrongInterface { expected: before.wdev_id, received: wdev_id }),
        wdev_id == before.wdev_id ==> after == before,
{
}

/// Entering recovery forgets the link and the configured address and keeps the
/// device as it is.
pub proof fn law_recovery_forgets_the_link<B, const RX: usize, const TX: usize>(
    driver: NativeDriver<B, RX, TX>,
)
    ensures
        ({
            let after = driver.recovering();
            &&& after.state == DriverState::Recovering
            &&& after.configured_mac is None
            &&& after.station.state == StationState::Recovering
            &&& after.station.peer is None && !after.station.interface_created
            &&& !after.station.controlled_port_authorized && !after.station.carrier_on
            &&& after.device == driver.device && after.data == driver.data
            &&& after.wdev_id == driver.wdev_id
        }),
        driver.faulted().state == DriverState::Fault,
{
}

/// A configuration fits the driver exactly when it names its interface, a station
/// address, and one receive pool that is the driver's own.
pub proof fn law_configurations_that_fit<B, const RX: usize, const TX: usize>(
    driver: NativeDriver<B, RX, TX>,
    config: SystemInitConfig,
)
    ensures
        driver.config_matches(config) <==> {
            &&& config.wdev_id == driver.wdev_id
            &&& config.mac_address@[0] & 1 == 0
            &&& config.mac_address@ != codec::zero_bytes(6)
            &&& config.mac_address@ != Seq::new(6, |i: int| 0xffu8)
            &&& config.rx_pools@[0].buffer_size == driver.data.rx_buffer_size
            &&& config.rx_pools@[0].buffer_count == RX
            &&& config.rx_pools@[1].buffer_size == 0 && config.rx_pools@[1].buffer_count == 0
            &&& config.rx_pools@[2].buffer_size == 0 && config.rx_pools@[2].buffer_count == 0
        },
{
    assert(seq![0u8, 0u8, 0u8, 0u8, 0u8, 0u8] =~= codec::zero_bytes(6));
    assert(seq![0xffu8, 0xffu8, 0xffu8, 0xffu8, 0xffu8, 0xffu8] =~= Seq::new(6, |i: int| 0xffu8));
}

/// A completed system initialization makes a waiting driver ready with a fresh link;
/// at any other time, and for a deinitialization, it asks for recovery. Other system
/// events are only reported.
pub proof fn law_system_events_are_dispatched<'a, B, E, const RX: usize, const TX: usize>(
    before: NativeDriver<B, RX, TX>,
    after: NativeDriver<B, RX, TX>,
    payload: Seq<u8>,
    result: Result<DriverEvent<'a>, DriverError<E>>,
)
    requires
        NativeDriver::system_dispatched(before, after, payload, result),
        payload.len() >= 8,
        8 <= codec::u32_at(payload, 4) <= payload.len(),
    ensures
        ({
            let id = codec::u32_at(payload, 0);
            let bare = codec::u32_at(payload, 4) == 8;
            &&& id == 1 && bare && before.state == DriverState::WaitingForSystemInit ==> {
                &&& after.state == DriverState::Ready
                &&& after.station == before.station.recovered()
                &&& after.device == before.device && after.data == before.data
                &&& result is Ok
            }
            &&& (id == 3 && bare) || (id == 1 && bare && before.state
                != DriverState::WaitingForSystemInit) ==> {
                &&& after == before.recovering()
                &&& result == Err::<DriverEvent<'a>, DriverError<E>>(
                    DriverError::UnexpectedEventForState { state: before.state },
                )
            }
            &&& (id == 1 || id == 3) && !bare ==> after == before && result == Err::<
                DriverEvent<'a>,
                DriverError<E>,
            >(DriverError::Protocol(ProtocolError::InvalidLength))
            &&& id != 1 && id != 3 ==> after == before && result is Ok
        }),
{
}

/// A completed transmission frees its token, one that nobody sent is refused, and
/// receive events and other data leave the queues alone.
pub proof fn law_data_events_are_dispatched<'a, B, E, const RX: usize, const TX: usize>(
    before: NativeDriver<B, RX, TX>,
    after: NativeDriver<B, RX, TX>,
    payload: Seq<u8>,
    result: Result<DriverEvent<'a>, DriverError<E>>,
)
    requires
        NativeDriver::data_dispatched(before, after, payload, result),
        before.state == DriverState::Ready,
        payload.len() >= 22,
        12 <= codec::u32_at(payload, 4) <= payload.len(),
    ensures
        ({
            let code = codec::u32_at(payload, 0);
            let token = payload[8] as int;
            let done = code == 2 && codec::u32_at(payload, 4) == 22 + payload[9];
            &&& done && token < TX && before.data.tx_in_flight@[token] ==> {
                &&& result matches Ok(DriverEvent::TransmitDone(event)) && event.token == payload[8]
                &&& after.data.tx_in_flight@ == before.data.tx_in_flight@.update(token, false)
                &&& after.data.rx_posted@ == before.data.rx_posted@
                &&& after.station == before.station && after.device == before.device
            }
            &&& done && (token >= TX || !before.data.tx_in_flight@[token]) ==> {
                &&& after == before
                &&& result == Err::<DriverEvent<'a>, DriverError<E>>(
                    DriverError::DataProtocol(
                        DataProtocolError::InvalidDescriptor(payload[8] as u16),
                    ),
                )
            }
            &&& code == 3 ==> after == before
            &&& code == 4 && payload.len() >= 12 ==> before.station_outcome(
                after,
                before.station.data_outcome(
                    DataEvent::CarrierOn { wdev_id: codec::u32_at(payload, 8) },
                ),
                result,
                DriverEvent::Data(DataEvent::CarrierOn { wdev_id: codec::u32_at(payload, 8) }),
            )
            &&& code == 5 && payload.len() >= 12 ==> before.station_outcome(
                after,
                before.station.data_outcome(
                    DataEvent::CarrierOff { wdev_id: codec::u32_at(payload, 8) },
                ),
                result,
                DriverEvent::Data(DataEvent::CarrierOff { wdev_id: codec::u32_at(payload, 8) }),
            )
        }),
{
}

/// Until the driver is ready, only system messages change it or are answered.
pub proof fn law_unready_drivers_take_system_messages_only<
    'a,
    B,
    E,
    const RX: usize,
    const TX: usize,
>(
    before: NativeDriver<B, RX, TX>,
    after: NativeDriver<B, RX, TX>,
    message: HostMessageRef<'a>,
    result: Result<DriverEvent<'a>, DriverError<E>>,
)
    requires
        NativeDriver::dispatched(before, after, message, result),
        before.state != DriverState::Ready,
        !(message.message_type is System),
    ensures
        after == before,
        result == Err::<DriverEvent<'a>, DriverError<E>>(
            DriverError::InvalidState { current: before.state, required: DriverState::Ready },
        ),
{
}

/// The watchdog status is read again while it shows the sentinel, ten times in all;
/// its second bit says whether the watchdog fired.
pub proof fn law_watchdog_status<B, E, const RX: usize, const TX: usize>(
    before: NativeDriver<B, RX, TX>,
    after: NativeDriver<B, RX, TX>,
    from: WatchdogRead,
    to: WatchdogRead,
    bytes: &[u8],
    result: Result<Option<bool>, DriverError<E>>,
    request: RpuRequest,
    started: WatchdogRead,
)
    requires
        from.left > 0,
        NativeDriver::watchdog_resumed(
            before,
            after,
            from,
            to,
            Ok::<&[u8], RpuError<E>>(bytes),
            result,
        ),
        call_ensures(WatchdogRead::request, (&from,), request),
        call_ensures(NativeDriver::<B, RX, TX>::watchdog_pending, (&before,), started),
    ensures
        request == (RpuRequest::Read {
            processor: Processor::Lmac,
            address: 0xa400_0004,
            len: 4,
        }),
        started.left == 10,
        ({
            let value = codec::u32_at(bytes@, 0);
            &&& value != 0xaaaa_aaaa ==> after == before && result == Ok::<
                Option<bool>,
                DriverError<E>,
            >(Some(value & 2 != 0))
            &&& value == 0xaaaa_aaaa && from.left > 1 ==> after == before && result == Ok::<
                Option<bool>,
                DriverError<E>,
            >(None) && to.left == from.left - 1
            &&& value == 0xaaaa_aaaa && from.left == 1 ==> after.state == DriverState::Fault
                && result == Err::<Option<bool>, DriverError<E>>(
                DriverError::InvalidWatchdogStatus,
            )
        }),
{
}

/// An acknowledged watchdog is cleared, reloaded and asks for recovery.
pub proof fn law_watchdog_acknowledgement<B, E, const RX: usize, const TX: usize>(
    before: NativeDriver<B, RX, TX>,
    after: NativeDriver<B, RX, TX>,
    stage: WatchdogAck,
    reply: Result<&[u8], RpuError<E>>,
    result: Result<WatchdogAck, DriverError<E>>,
)
    requires
        stage != WatchdogAck::Rearmed,
        NativeDriver::acknowledgement_resumed(before, after, stage, reply, result),
    ensures
        WatchdogAck::Clear.next() == Some(
            RpuRequest::WriteWord {
                processor: Processor::Lmac,
                address: 0xa400_000c,
                value: 2,
            },
        ),
        WatchdogAck::Rearm.next() == Some(
            RpuRequest::WriteWord {
                processor: Processor::Lmac,
                address: 0xa400_004c,
                value: 0xff_ffff,
            },
        ),
        WatchdogAck::Rearmed.next() is None,
        reply is Ok && stage == WatchdogAck::Clear ==> after == before && result == Ok::<
            WatchdogAck,
            DriverError<E>,
        >(WatchdogAck::Rearm),
        reply is Ok && stage == WatchdogAck::Rearm ==> after == before.recovering() && result
            == Ok::<WatchdogAck, DriverError<E>>(WatchdogAck::Rearmed),
        reply is Err ==> after == before && result is Err,
{
}

/// What each stage of a recovery asks for, in its order: interrupts off, a hard
/// reset, the bus for waking, the RPU awake, the bus for data, the clocks.
pub proof fn law_recovery_program<E>(stage: RecoveryStage<'_>, trigger: u32)
    ensures
        stage is HardReset ==> stage.next::<E>(trigger) == Ok::<
            Option<RecoveryRequest>,
            DriverError<E>,
        >(Some(RecoveryRequest::HardReset)),
        stage is PrepareWakeBus ==> stage.next::<E>(trigger) == Ok::<
            Option<RecoveryRequest>,
            DriverError<E>,
        >(Some(RecoveryRequest::PrepareWakeBus)),
        stage is PrepareDataBus ==> stage.next::<E>(trigger) == Ok::<
            Option<RecoveryRequest>,
            DriverError<E>,
        >(Some(RecoveryRequest::PrepareDataBus)),
        stage is EnableClocks ==> stage.next::<E>(trigger) == Ok::<
            Option<RecoveryRequest>,
            DriverError<E>,
        >(
            Some(
                RecoveryRequest::Access(
                    RpuRequest::WriteWord {
                        processor: Processor::Lmac,
                        address: 0xa500_8c20,
                        value: 0x100,
                    },
                ),
            ),
        ),
        stage is Done ==> stage.next::<E>(trigger) == Ok::<Option<RecoveryRequest>, DriverError<E>>(
            None,
        ),
        stage matches RecoveryStage::Send(send) ==> stage.next::<E>(trigger) == Ok::<
            Option<RecoveryRequest>,
            DriverError<E>,
        >(
            match send.next(trigger) {
                Some(request) => Some(RecoveryRequest::Access(request)),
                None => None,
            },
        ),
{
}

/// What follows each answered stage of a recovery: a hard reset clears every queue
/// and slot, a stage that is done hands over to the next one, and the recovery ends
/// waiting for the firmware with the configured address.
pub proof fn law_recovery_steps<
    T: FirmwareTrustPolicy + ?Sized,
    B,
    E,
    P,
    const RX: usize,
    const TX: usize,
>(
    before: NativeDriver<B, RX, TX>,
    after: NativeDriver<B, RX, TX>,
    from: Recovery<'_>,
    to: Recovery<'_>,
    trust: &T,
    reply: RecoveryReply<'_, E, P>,
)
    requires
        from.stage.answered_by(before.device.trigger_value(), reply, RX as int),
        NativeDriver::recovery_stepped(
            before,
            after,
            from,
            to,
            trust,
            reply,
            Ok::<(), RecoveryError<E, P>>(()),
        ),
    ensures
        from.stage is HardReset ==> {
            &&& to.stage is PrepareWakeBus
            &&& after.device.queues is None && after.device.pending_event is None
            &&& !after.device.recovery_required
            &&& forall|i: int| 0 <= i < TX ==> !after.data.tx_in_flight@[i]
            &&& forall|i: int| 0 <= i < RX ==> !after.data.rx_posted@[i]
            &&& after.data.next_tx == 0
        },
        from.stage is PrepareWakeBus ==> (to.stage matches RecoveryStage::WakeRpu(wake)
            && wake.stage == WakeStage::Request && wake.attempts == 1000) && after == before,
        from.stage is PrepareDataBus ==> to.stage is EnableClocks && after == before,
        from.stage is WakeRpu && !(to.stage is WakeRpu) ==> to.stage is PrepareDataBus,
        from.stage is Disable && !(to.stage is Disable) ==> to.stage is HardReset,
        from.stage is Enable && !(to.stage is Enable) ==> (to.stage matches RecoveryStage::Send(
            send,
        ) && send.len == 378 && send.sent == 0 && to.message@.subrange(0, 378)
            == system_init_message(*from.config)),
        from.stage is Send && !(to.stage is Send) ==> to.stage is Done && after.state
            == DriverState::WaitingForSystemInit && after.configured_mac == Some(
            from.config.mac_address,
        ),
        !(from.stage is Done) && to.stage is Done ==> from.stage is Send,
{
    protocol::law_system_init_radio_layout(*from.config);
    let message = system_init_message(*from.config);
    let rest = from.message@.skip(message.len() as int);
    assert((message + rest).subrange(0, 378) =~= message);
}

/// Recovery starts only with a configuration that fits; any other one leaves the
/// driver faulted.
pub proof fn law_recovery_needs_a_fitting_configuration<
    'a,
    B,
    E,
    const RX: usize,
    const TX: usize,
>(
    before: NativeDriver<B, RX, TX>,
    after: NativeDriver<B, RX, TX>,
    bundle: FirmwareBundle<'a>,
    config: &'a SystemInitConfig,
    result: Result<Recovery<'a>, DriverError<E>>,
)
    requires
        NativeDriver::recovery_begun(before, after, bundle, config, result),
    ensures
        result is Ok <==> before.config_matches(*config),
        result matches Ok(recovery) ==> after == before.recovering() && recovery.stage
            == RecoveryStage::<'a>::Disable(InterruptSwitch::ReadRoot { enable: false })
            && recovery.bundle == bundle && recovery.config == config,
        result is Err ==> after.state == DriverState::Fault && result == Err::<
            Recovery<'a>,
            DriverError<E>,
        >(DriverError::ConfigurationMismatch),
{
}

/// A recovery that cannot go on leaves the driver faulted; one that asks for an
/// access changes nothing before the answer.
pub proof fn law_recovery_requests_change_nothing<B, E, P, const RX: usize, const TX: usize>(
    before: NativeDriver<B, RX, TX>,
    after: NativeDriver<B, RX, TX>,
    recovery: Recovery<'_>,
    result: Result<Option<RecoveryRequest>, RecoveryError<E, P>>,
)
    requires
        NativeDriver::recovery_asked(before, after, recovery, result),
    ensures
        result is Ok ==> after == before,
        result is Err ==> after.state == DriverState::Fault,
        recovery.stage is HardReset ==> result == Ok::<
            Option<RecoveryRequest>,
            RecoveryError<E, P>,
        >(Some(RecoveryRequest::HardReset)),
{
}

/// An event that was read whole is dispatched; bytes that are no message are refused
/// and change nothing.
pub proof fn law_polled_events_are_dispatched<'a, B, E, const RX: usize, const TX: usize>(
    before: NativeDriver<B, RX, TX>,
    after: NativeDriver<B, RX, TX>,
    bytes: Seq<u8>,
    result: Result<DriverEvent<'a>, DriverError<E>>,
)
    requires
        NativeDriver::poll_finished(before, after, bytes, result),
    ensures
        bytes.len() < 12 || codec::u32_at(bytes, 0) < 12 || codec::u32_at(bytes, 0) > bytes.len()
            ==> after == before && result == Err::<DriverEvent<'a>, DriverError<E>>(
            DriverError::Device(DeviceError::Protocol(ProtocolError::InvalidLength)),
        ),
        bytes.len() >= 12 && 12 <= codec::u32_at(bytes, 0) <= bytes.len() && codec::i32_at(bytes, 8)
            == 1 && before.state != DriverState::Ready ==> after == before && result is Err,
{
}

/// A device in doubt leaves the driver recovering instead of reading an event.
pub proof fn law_doubtful_devices_are_not_polled<B, E, const RX: usize, const TX: usize>(
    before: NativeDriver<B, RX, TX>,
    after: NativeDriver<B, RX, TX>,
    capacity: usize,
    scratch_address: usize,
    result: Result<EventRead, DriverError<E>>,
)
    requires
        NativeDriver::poll_started(before, after, capacity, scratch_address, result),
    ensures
        before.device.recovery_required ==> after.state == DriverState::Recovering && result
            == Err::<EventRead, DriverError<E>>(DriverError::Device(DeviceError::RecoveryRequired)),
        !before.device.recovery_required ==> after.state == before.state && after.station
            == before.station && after.data == before.data,
        result is Ok ==> !before.device.recovery_required && before.device.queues is Some,
{
}

/// A received packet takes its descriptor back from the firmware before it is read;
/// an event that names no posted descriptor changes nothing.
pub proof fn law_received_packets_free_their_descriptor<B, E, const RX: usize, const TX: usize>(
    before: NativeDriver<B, RX, TX>,
    after: NativeDriver<B, RX, TX>,
    event: RxEventRef<'_>,
    packet_index: int,
    output_len: usize,
    result: Result<ReceiveStart<E>, DriverError<E>>,
)
    requires
        NativeDriver::receive_started(before, after, event, packet_index, output_len, result),
    ensures
        result is Err ==> after == before,
        result is Ok ==> {
            let descriptor = event.packet_at(packet_index)->Ok_0.descriptor_id;
            &&& event.packet_at(packet_index) is Ok
            &&& descriptor < RX && before.data.rx_posted@[descriptor as int]
            &&& after.data.rx_posted@ == before.data.rx_posted@.update(descriptor as int, false)
            &&& after.data.tx_in_flight@ == before.data.tx_in_flight@
            &&& after.station == before.station && after.state == before.state
        },
{
}

/// A delivered command is recorded in the link; one that was not delivered leaves the
/// link as it was.
pub proof fn law_delivered_commands_are_recorded<B, E, const RX: usize, const TX: usize>(
    commit: Commit,
    delivery: Result<(), DeviceError<E>>,
    result: Result<(), DriverError<E>>,
)
    ensures
        forall|driver: &mut NativeDriver<B, RX, TX>| #[trigger]
            call_ensures(
                NativeDriver::<B, RX, TX>::finish_command::<E>,
                (driver, commit, delivery),
                result,
            ) ==> {
                &&& delivery is Ok ==> result is Ok && final(driver).station.state == commit.state
                    && final(driver).station.pending_command == Some(commit.command)
                &&& delivery matches Err(error) ==> *final(driver) == *driver && result == Err::<
                    (),
                    DriverError<E>,
                >(DriverError::Station(StationError::Device(error)))
            },
{
}

/// Only the address that the firmware was configured with and the driver's own
/// interface are created.
pub proof fn law_created_interfaces_are_the_configured_one<
    B,
    E,
    const RX: usize,
    const TX: usize,
>(
    ifaceindex: i32,
    mac_address: [u8; 6],
    interface_name: &[u8],
    result: Result<InterfaceCreation, DriverError<E>>,
)
    ensures
        forall|driver: &mut NativeDriver<B, RX, TX>| #[trigger]
            call_ensures(
                NativeDriver::<B, RX, TX>::create_station_interface::<E>,
                (driver, ifaceindex, mac_address, interface_name),
                result,
            ) ==> {
                &&& result is Ok ==> driver.state == DriverState::Ready && ifaceindex
                    == driver.ifaceindex && (driver.configured_mac matches Some(own) && own@
                    == mac_address@)
                &&& driver.state == DriverState::Ready && ifaceindex != driver.ifaceindex ==> result
                    == Err::<InterfaceCreation, DriverError<E>>(
                    DriverError::ConfigurationMismatch,
                ) && *final(driver) == *driver
            },
{
}

/// A ready driver sends this command only where its link allows it.
pub proof fn law_driver_set_regulatory_follows_the_link<B, E, const RX: usize, const TX: usize>(
    country: [u8; 2],
    user_hint_type: u32,
    force: bool,
    submission: Submission,
)
    ensures
        forall|driver: &mut NativeDriver<B, RX, TX>| #[trigger]
            call_ensures(
                NativeDriver::<B, RX, TX>::set_regulatory::<E>,
                (driver, country, user_hint_type, force),
                Ok::<Submission, DriverError<E>>(submission),
            ) ==> {
                &&& driver.state == DriverState::Ready
                &&& driver.station.state == StationState::Down || driver.station.state == StationState::Idle
                &&& submission.commit.state == StationState::RegulatoryPending
                &&& submission.commit.command == crate::protocol::UmacCommand::RequestSetRegulatory
                &&& codec::u32_at(final(driver).station.command@, 20) == 46
            },
{
    assert forall|driver: &mut NativeDriver<B, RX, TX>| #[trigger]
            call_ensures(
                NativeDriver::<B, RX, TX>::set_regulatory::<E>,
                (driver, country, user_hint_type, force),
                Ok::<Submission, DriverError<E>>(submission),
            ) implies {
                &&& driver.state == DriverState::Ready
                &&& driver.station.state == StationState::Down || driver.station.state == StationState::Idle
                &&& submission.commit.state == StationState::RegulatoryPending
                &&& submission.commit.command == crate::protocol::UmacCommand::RequestSetRegulatory
                &&& codec::u32_at(final(driver).station.command@, 20) == 46
            } by {
        station::law_set_regulatory_is_sent_in_its_state::<B, E>(
            driver.station,
            final(driver).station,
            driver.device,
            country,
            user_hint_type,
            force,
            Ok::<Submission, StationError<E>>(submission),
        );
    }
}

/// A ready driver sends this command only where its link allows it.
pub proof fn law_driver_bring_up_follows_the_link<B, E, const RX: usize, const TX: usize>(
    submission: Submission,
)
    ensures
        forall|driver: &mut NativeDriver<B, RX, TX>| #[trigger]
            call_ensures(
                NativeDriver::<B, RX, TX>::bring_up::<E>,
                (driver,),
                Ok::<Submission, DriverError<E>>(submission),
            ) ==> {
                &&& driver.state == DriverState::Ready
                &&& driver.station.state == StationState::Down
                &&& submission.commit.state == StationState::InterfaceUpPending
                &&& submission.commit.command == crate::protocol::UmacCommand::SetInterfaceFlags
                &&& protocol::names_command(
                    final(driver).station.command@,
                    18,
                    driver.station.wdev_id,
                )
            },
{
    assert forall|driver: &mut NativeDriver<B, RX, TX>| #[trigger]
            call_ensures(
                NativeDriver::<B, RX, TX>::bring_up::<E>,
                (driver,),
                Ok::<Submission, DriverError<E>>(submission),
            ) implies {
                &&& driver.state == DriverState::Ready
                &&& driver.station.state == StationState::Down
                &&& submission.commit.state == StationState::InterfaceUpPending
                &&& submission.commit.command == crate::protocol::UmacCommand::SetInterfaceFlags
                &&& protocol::names_command(
                    final(driver).station.command@,
                    18,
                    driver.station.wdev_id,
                )
            } by {
        station::law_bring_up_is_sent_in_its_state::<B, E>(
            driver.station,
            final(driver).station,
            driver.device,
            Ok::<Submission, StationError<E>>(submission),
        );
    }
}

/// A ready driver sends this command only where its link allows it.
pub proof fn law_driver_bring_down_follows_the_link<B, E, const RX: usize, const TX: usize>(
    submission: Submission,
)
    ensures
        forall|driver: &mut NativeDriver<B, RX, TX>| #[trigger]
            call_ensures(
                NativeDriver::<B, RX, TX>::bring_down::<E>,
                (driver,),
                Ok::<Submission, DriverError<E>>(submission),
            ) ==> {
                &&& driver.state == DriverState::Ready
                &&& driver.station.state == StationState::Idle || driver.station.state == StationState::Connected || driver.station.state == StationState::Fault
                &&& submission.commit.state == StationState::InterfaceDownPending
                &&& submission.commit.command == crate::protocol::UmacCommand::SetInterfaceFlags
                &&& protocol::names_command(
                    final(driver).station.command@,
                    18,
                    driver.station.wdev_id,
                )
            },
{
    assert forall|driver: &mut NativeDriver<B, RX, TX>| #[trigger]
            call_ensures(
                NativeDriver::<B, RX, TX>::bring_down::<E>,
                (driver,),
                Ok::<Submission, DriverError<E>>(submission),
            ) implies {
                &&& driver.state == DriverState::Ready
                &&& driver.station.state == StationState::Idle || driver.station.state == StationState::Connected || driver.station.state == StationState::Fault
                &&& submission.commit.state == StationState::InterfaceDownPending
                &&& submission.commit.command == crate::protocol::UmacCommand::SetInterfaceFlags
                &&& protocol::names_command(
                    final(driver).station.command@,
                    18,
                    driver.station.wdev_id,
                )
            } by {
        station::law_bring_down_is_sent_in_its_state::<B, E>(
            driver.station,
            final(driver).station,
            driver.device,
            Ok::<Submission, StationError<E>>(submission),
        );
    }
}

/// A ready driver sends this command only where its link allows it.
pub proof fn law_driver_start_scan_follows_the_link<B, E, const RX: usize, const TX: usize>(
    request: &ScanRequest<'_>,
    submission: Submission,
)
    ensures
        forall|driver: &mut NativeDriver<B, RX, TX>| #[trigger]
            call_ensures(
                NativeDriver::<B, RX, TX>::start_scan::<E>,
                (driver, request),
                Ok::<Submission, DriverError<E>>(submission),
            ) ==> {
                &&& driver.state == DriverState::Ready
                &&& driver.station.state == StationState::Idle
                &&& submission.commit.state == StationState::Scanning
                &&& submission.commit.command == crate::protocol::UmacCommand::TriggerScan
                &&& protocol::names_command(
                    final(driver).station.command@,
                    0,
                    driver.station.wdev_id,
                )
            },
{
    assert forall|driver: &mut NativeDriver<B, RX, TX>| #[trigger]
            call_ensures(
                NativeDriver::<B, RX, TX>::start_scan::<E>,
                (driver, request),
                Ok::<Submission, DriverError<E>>(submission),
            ) implies {
                &&& driver.state == DriverState::Ready
                &&& driver.station.state == StationState::Idle
                &&& submission.commit.state == StationState::Scanning
                &&& submission.commit.command == crate::protocol::UmacCommand::TriggerScan
                &&& protocol::names_command(
                    final(driver).station.command@,
                    0,
                    driver.station.wdev_id,
                )
            } by {
        station::law_start_scan_is_sent_in_its_state::<B, E>(
            driver.station,
            final(driver).station,
            driver.device,
            request,
            Ok::<Submission, StationError<E>>(submission),
        );
    }
}

/// A ready driver sends this command only where its link allows it.
pub proof fn law_driver_request_scan_results_follows_the_link<B, E, const RX: usize, const TX: usize>(
    reason: ScanReason,
    submission: Submission,
)
    ensures
        forall|driver: &mut NativeDriver<B, RX, TX>| #[trigger]
            call_ensures(
                NativeDriver::<B, RX, TX>::request_scan_results::<E>,
                (driver, reason),
                Ok::<Submission, DriverError<E>>(submission),
            ) ==> {
                &&& driver.state == DriverState::Ready
                &&& driver.station.state == StationState::ScanComplete
                &&& submission.commit.state == StationState::ReadingScanResults
                &&& submission.commit.command == crate::protocol::UmacCommand::GetScanResults
                &&& protocol::names_command(
                    final(driver).station.command@,
                    1,
                    driver.station.wdev_id,
                )
            },
{
    assert forall|driver: &mut NativeDriver<B, RX, TX>| #[trigger]
            call_ensures(
                NativeDriver::<B, RX, TX>::request_scan_results::<E>,
                (driver, reason),
                Ok::<Submission, DriverError<E>>(submission),
            ) implies {
                &&& driver.state == DriverState::Ready
                &&& driver.station.state == StationState::ScanComplete
                &&& submission.commit.state == StationState::ReadingScanResults
                &&& submission.commit.command == crate::protocol::UmacCommand::GetScanResults
                &&& protocol::names_command(
                    final(driver).station.command@,
                    1,
                    driver.station.wdev_id,
                )
            } by {
        station::law_request_scan_results_is_sent_in_its_state::<B, E>(
            driver.station,
            final(driver).station,
            driver.device,
            reason,
            Ok::<Submission, StationError<E>>(submission),
        );
    }
}

/// A ready driver sends this command only where its link allows it.
pub proof fn law_driver_authenticate_follows_the_link<B, E, const RX: usize, const TX: usize>(
    request: &AuthenticationRequest<'_>,
    submission: Submission,
)
    ensures
        forall|driver: &mut NativeDriver<B, RX, TX>| #[trigger]
            call_ensures(
                NativeDriver::<B, RX, TX>::authenticate::<E>,
                (driver, request),
                Ok::<Submission, DriverError<E>>(submission),
            ) ==> {
                &&& driver.state == DriverState::Ready
                &&& driver.station.state == StationState::Idle
                &&& submission.commit.state == StationState::Authenticating
                &&& submission.commit.command == crate::protocol::UmacCommand::Authenticate
                &&& protocol::names_command(
                    final(driver).station.command@,
                    2,
                    driver.station.wdev_id,
                )
            },
{
    assert forall|driver: &mut NativeDriver<B, RX, TX>| #[trigger]
            call_ensures(
                NativeDriver::<B, RX, TX>::authenticate::<E>,
                (driver, request),
                Ok::<Submission, DriverError<E>>(submission),
            ) implies {
                &&& driver.state == DriverState::Ready
                &&& driver.station.state == StationState::Idle
                &&& submission.commit.state == StationState::Authenticating
                &&& submission.commit.command == crate::protocol::UmacCommand::Authenticate
                &&& protocol::names_command(
                    final(driver).station.command@,
                    2,
                    driver.station.wdev_id,
                )
            } by {
        station::law_authenticate_is_sent_in_its_state::<B, E>(
            driver.station,
            final(driver).station,
            driver.device,
            request,
            Ok::<Submission, StationError<E>>(submission),
        );
    }
}

/// A ready driver sends this command only where its link allows it.
pub proof fn law_driver_associate_follows_the_link<B, E, const RX: usize, const TX: usize>(
    request: &AssociationRequest<'_>,
    submission: Submission,
)
    ensures
        forall|driver: &mut NativeDriver<B, RX, TX>| #[trigger]
            call_ensures(
                NativeDriver::<B, RX, TX>::associate::<E>,
                (driver, request),
                Ok::<Submission, DriverError<E>>(submission),
            ) ==> {
                &&& driver.state == DriverState::Ready
                &&& driver.station.state == StationState::Authenticated
                &&& submission.commit.state == StationState::Associating
                &&& submission.commit.command == crate::protocol::UmacCommand::Associate
                &&& protocol::names_command(
                    final(driver).station.command@,
                    3,
                    driver.station.wdev_id,
                )
            },
{
    assert forall|driver: &mut NativeDriver<B, RX, TX>| #[trigger]
            call_ensures(
                NativeDriver::<B, RX, TX>::associate::<E>,
                (driver, request),
                Ok::<Submission, DriverError<E>>(submission),
            ) implies {
                &&& driver.state == DriverState::Ready
                &&& driver.station.state == StationState::Authenticated
                &&& submission.commit.state == StationState::Associating
                &&& submission.commit.command == crate::protocol::UmacCommand::Associate
                &&& protocol::names_command(
                    final(driver).station.command@,
                    3,
                    driver.station.wdev_id,
                )
            } by {
        station::law_associate_is_sent_in_its_state::<B, E>(
            driver.station,
            final(driver).station,
            driver.device,
            request,
            Ok::<Submission, StationError<E>>(submission),
        );
    }
}

/// A ready driver sends this command only where its link allows it.
pub proof fn law_driver_set_power_save_follows_the_link<B, E, const RX: usize, const TX: usize>(
    state: PowerSaveState,
    submission: Submission,
)
    ensures
        forall|driver: &mut NativeDriver<B, RX, TX>| #[trigger]
            call_ensures(
                NativeDriver::<B, RX, TX>::set_power_save::<E>,
                (driver, state),
                Ok::<Submission, DriverError<E>>(submission),
            ) ==> {
                &&& driver.state == DriverState::Ready
                &&& driver.station.state == StationState::Idle || driver.station.state == StationState::Connected
                &&& submission.commit.state == StationState::PowerSavePending
                &&& submission.commit.command == crate::protocol::UmacCommand::SetPowerSave
                &&& protocol::names_command(
                    final(driver).station.command@,
                    33,
                    driver.station.wdev_id,
                )
            },
{
    assert forall|driver: &mut NativeDriver<B, RX, TX>| #[trigger]
            call_ensures(
                NativeDriver::<B, RX, TX>::set_power_save::<E>,
                (driver, state),
                Ok::<Submission, DriverError<E>>(submission),
            ) implies {
                &&& driver.state == DriverState::Ready
                &&& driver.station.state == StationState::Idle || driver.station.state == StationState::Connected
                &&& submission.commit.state == StationState::PowerSavePending
                &&& submission.commit.command == crate::protocol::UmacCommand::SetPowerSave
                &&& protocol::names_command(
                    final(driver).station.command@,
                    33,
                    driver.station.wdev_id,
                )
            } by {
        station::law_set_power_save_is_sent_in_its_state::<B, E>(
            driver.station,
            final(driver).station,
            driver.device,
            state,
            Ok::<Submission, StationError<E>>(submission),
        );
    }
}

/// A ready driver sends this command only where its link allows it.
pub proof fn law_driver_set_power_save_timeout_follows_the_link<B, E, const RX: usize, const TX: usize>(
    timeout_ms: i32,
    submission: Submission,
)
    ensures
        forall|driver: &mut NativeDriver<B, RX, TX>| #[trigger]
            call_ensures(
                NativeDriver::<B, RX, TX>::set_power_save_timeout::<E>,
                (driver, timeout_ms),
                Ok::<Submission, DriverError<E>>(submission),
            ) ==> {
                &&& driver.state == DriverState::Ready
                &&& driver.station.state == StationState::Idle || driver.station.state == StationState::Connected
                &&& submission.commit.state == StationState::PowerSavePending
                &&& submission.commit.command == crate::protocol::UmacCommand::SetPowerSaveTimeout
                &&& protocol::names_command(
                    final(driver).station.command@,
                    53,
                    driver.station.wdev_id,
                )
            },
{
    assert forall|driver: &mut NativeDriver<B, RX, TX>| #[trigger]
            call_ensures(
                NativeDriver::<B, RX, TX>::set_power_save_timeout::<E>,
                (driver, timeout_ms),
                Ok::<Submission, DriverError<E>>(submission),
            ) implies {
                &&& driver.state == DriverState::Ready
                &&& driver.station.state == StationState::Idle || driver.station.state == StationState::Connected
                &&& submission.commit.state == StationState::PowerSavePending
                &&& submission.commit.command == crate::protocol::UmacCommand::SetPowerSaveTimeout
                &&& protocol::names_command(
                    final(driver).station.command@,
                    53,
                    driver.station.wdev_id,
                )
            } by {
        station::law_set_power_save_timeout_is_sent_in_its_state::<B, E>(
            driver.station,
            final(driver).station,
            driver.device,
            timeout_ms,
            Ok::<Submission, StationError<E>>(submission),
        );
    }
}

/// A ready driver sends this command only where its link allows it.
pub proof fn law_driver_disconnect_follows_the_link<B, E, const RX: usize, const TX: usize>(
    reason_code: u16,
    submission: Submission,
)
    ensures
        forall|driver: &mut NativeDriver<B, RX, TX>| #[trigger]
            call_ensures(
                NativeDriver::<B, RX, TX>::disconnect::<E>,
                (driver, reason_code),
                Ok::<Submission, DriverError<E>>(submission),
            ) ==> {
                &&& driver.state == DriverState::Ready
                &&& driver.station.state == StationState::Authenticated || driver.station.state == StationState::Associating || driver.station.state == StationState::Securing || driver.station.state == StationState::Authorizing || driver.station.state == StationState::AwaitingCarrier || driver.station.state == StationState::Connected
                &&& submission.commit.state == StationState::Disconnecting
                &&& submission.commit.command == crate::protocol::UmacCommand::Deauthenticate
                &&& protocol::names_command(
                    final(driver).station.command@,
                    4,
                    driver.station.wdev_id,
                )
            },
{
    assert forall|driver: &mut NativeDriver<B, RX, TX>| #[trigger]
            call_ensures(
                NativeDriver::<B, RX, TX>::disconnect::<E>,
                (driver, reason_code),
                Ok::<Submission, DriverError<E>>(submission),
            ) implies {
                &&& driver.state == DriverState::Ready
                &&& driver.station.state == StationState::Authenticated || driver.station.state == StationState::Associating || driver.station.state == StationState::Securing || driver.station.state == StationState::Authorizing || driver.station.state == StationState::AwaitingCarrier || driver.station.state == StationState::Connected
                &&& submission.commit.state == StationState::Disconnecting
                &&& submission.commit.command == crate::protocol::UmacCommand::Deauthenticate
                &&& protocol::names_command(
                    final(driver).station.command@,
                    4,
                    driver.station.wdev_id,
                )
            } by {
        station::law_disconnect_is_sent_in_its_state::<B, E>(
            driver.station,
            final(driver).station,
            driver.device,
            reason_code,
            Ok::<Submission, StationError<E>>(submission),
        );
    }
}

/// What a recovery carries from stage to stage: its firmware and configuration stay,
/// only doorbells are counted, the firmware that is loaded was trusted and hashes to
/// the value in bytes 20 to 52 of its file, and the report names the pinned patch.
pub proof fn law_recovery_keeps_its_inputs<
    T: FirmwareTrustPolicy + ?Sized,
    B,
    E,
    P,
    const RX: usize,
    const TX: usize,
>(
    before: NativeDriver<B, RX, TX>,
    after: NativeDriver<B, RX, TX>,
    from: Recovery<'_>,
    to: Recovery<'_>,
    trust: &T,
    bytes: &[u8],
)
    requires
        NativeDriver::recovery_stepped(
            before,
            after,
            from,
            to,
            trust,
            RecoveryReply::<'_, E, P>::Access(Ok(bytes)),
            Ok::<(), RecoveryError<E, P>>(()),
        ),
    ensures
        to.bundle == from.bundle && to.config == from.config,
        from.stage matches RecoveryStage::Send(send) ==> after.device.command_counter == (
        if send.state == SendState::Trigger {
            (before.device.command_counter + 1) % 0x1_0000_0000
        } else {
            before.device.command_counter as int
        }),
        from.stage is EnableClocks ==> call_ensures(T::verify, (trust, &from.bundle), Ok(()))
            && firmware::sha256(from.bundle.payload()) == from.bundle.file().subrange(20, 52) && (
        to.stage matches RecoveryStage::Load(load) && load.file() == from.bundle.file()),
        from.stage is Load && !(to.stage is Load) ==> to.stage == RecoveryStage::<'_>::Queues(
            QueueInit::ReadMap,
        ) && (to.report matches Some(report) && report.version == 0x0102_0e09
            && report.feature_flags == 1),
        !(from.stage is Load) ==> to.report == from.report,
{
}

/// A board service or an access that fails stops the recovery with the driver
/// faulted; only the interrupt lines may stay on before the hard reset.
pub proof fn law_failed_recoveries_fault_the_driver<
    T: FirmwareTrustPolicy + ?Sized,
    B,
    E,
    P,
    const RX: usize,
    const TX: usize,
>(
    before: NativeDriver<B, RX, TX>,
    after: NativeDriver<B, RX, TX>,
    from: Recovery<'_>,
    to: Recovery<'_>,
    trust: &T,
    cause: P,
    error: RpuError<E>,
    reply: RecoveryReply<'_, E, P>,
    result: Result<(), RecoveryError<E, P>>,
)
    requires
        NativeDriver::recovery_stepped(before, after, from, to, trust, reply, result),
    ensures
        reply == RecoveryReply::<'_, E, P>::Board(Err(cause)) ==> after.state == DriverState::Fault
            && result == Err::<(), RecoveryError<E, P>>(RecoveryError::Platform(cause)),
        reply == RecoveryReply::<'_, E, P>::Access(Err(error)) && from.stage is Disable
            ==> to.stage is HardReset && result is Ok && after == before,
        reply == RecoveryReply::<'_, E, P>::Access(Err(error)) && !(from.stage is Disable)
            ==> after.state == DriverState::Fault && result is Err,
        reply == RecoveryReply::<'_, E, P>::Access(Err(error)) && from.stage is Send
            ==> after.device.recovery_required && result == Err::<(), RecoveryError<E, P>>(
            RecoveryError::Driver(DriverError::Device(DeviceError::CommandDeliveryUncertain)),
        ),
{
}

/// A packet that could not be converted is reported as it failed and changes nothing.
pub proof fn law_malformed_packets_are_reported<B, E, const RX: usize, const TX: usize>(
    before: NativeDriver<B, RX, TX>,
    after: NativeDriver<B, RX, TX>,
    wdev_id: u8,
    error: DataProtocolError,
    result: Result<ReceivedFrame, DriverError<E>>,
)
    requires
        NativeDriver::receive_finished(
            before,
            after,
            wdev_id,
            ReceiveVerdict::<E>::Malformed(error),
            result,
        ),
    ensures
        after == before,
        result == Err::<ReceivedFrame, DriverError<E>>(
            DriverError::Data(DataError::Protocol(error)),
        ),
{
}

/// Receive descriptors are posted from the lowest free one upwards, and interrupts
/// are enabled only when none is left.
pub proof fn law_recovery_posts_every_descriptor<
    T: FirmwareTrustPolicy + ?Sized,
    B,
    E,
    P,
    const RX: usize,
    const TX: usize,
>(
    before: NativeDriver<B, RX, TX>,
    after: NativeDriver<B, RX, TX>,
    from: Recovery<'_>,
    to: Recovery<'_>,
    trust: &T,
    bytes: &[u8],
    index: int,
)
    requires
        NativeDriver::recovery_stepped(
            before,
            after,
            from,
            to,
            trust,
            RecoveryReply::<'_, E, P>::Access(Ok(bytes)),
            Ok::<(), RecoveryError<E, P>>(()),
        ),
        0 <= index < RX,
    ensures
        from.stage is Queues && to.stage is Enable ==> after.data.rx_posted@[index],
        from.stage is Queues ==> (to.stage matches RecoveryStage::Post(post) ==> {
            &&& index < post.descriptor ==> after.data.rx_posted@[index]
            &&& index == post.descriptor ==> !after.data.rx_posted@[index]
        }),
        from.stage matches RecoveryStage::Post(done) ==> {
            &&& to.stage is Enable && done.descriptor < index ==> after.data.rx_posted@[index]
            &&& to.stage matches RecoveryStage::Post(post) ==> post.descriptor == done.descriptor
                || (done.descriptor < post.descriptor && (done.descriptor < index < post.descriptor
                ==> after.data.rx_posted@[index]) && (index == post.descriptor
                ==> !after.data.rx_posted@[index]))
        },
{
}

} // verus!
