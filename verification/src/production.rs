//! Fail-closed high-level runtime for production integration.
//!
//! This module provides one controlled API that closes the data port before
//! authorization, routes uncertain ownership to recovery, and does not expose
//! mutable low-level device state.

use vstd::prelude::*;

use crate::codec;
use crate::control::{AssociationRequest, AuthenticationRequest, PowerSaveState};
use crate::data;
use crate::data::{
    DataError, DataLayoutError, DataPath, PostState, ReceiveStart, ReceiveVerdict, ReceivedFrame,
    RxEventRef, RxPost, Transmit, TransmitState, EAPOL_ETHERTYPE,
};
use crate::device;
use crate::device::{
    CommandSend, Device, DeviceError, EventProgress, EventRead, FragmentLimitError, SendState,
};
use crate::embassy::NetworkState;
use crate::firmware::{FirmwareBundle, FirmwareTrustPolicy};
use crate::memory;
use crate::memory::{RpuError, RpuRequest};
use crate::protocol::{ScanReason, ScanRequest, SystemInitConfig};
use crate::runtime;
use crate::runtime::{
    DriverError, DriverEvent, DriverState, NativeDriver, Recovery, RecoveryError, RecoveryReply,
    RecoveryRequest, WatchdogAck, WatchdogRead, RPU_REG_WATCHDOG_STATUS, WATCHDOG_READS,
};
use crate::station::{
    InterfaceCreation, StationController, StationError, StationState, StationTimeouts, Submission,
};

verus! {

/// Fail-closed production API error.
#[derive(Debug)]
pub enum ProductionError<E> {
    /// The portable driver reported an error.
    Driver(DriverError<E>),
    /// The station command or state machine reported an error.
    Station(StationError<E>),
    /// The Ethernet frame is shorter than its fixed header.
    InvalidEthernetFrame,
    /// The controlled port does not permit this EtherType.
    ControlledPortClosed { ether_type: u16 },
}

impl<E> vstd::std_specs::convert::FromSpecImpl<DriverError<E>> for ProductionError<E> {
    open spec fn obeys_from_spec() -> bool {
        true
    }

    open spec fn from_spec(value: DriverError<E>) -> Self {
        ProductionError::Driver(value)
    }
}

impl<E> From<DriverError<E>> for ProductionError<E> {
    fn from(value: DriverError<E>) -> (error: Self) {
        ProductionError::Driver(value)
    }
}

impl<E> vstd::std_specs::convert::FromSpecImpl<StationError<E>> for ProductionError<E> {
    open spec fn obeys_from_spec() -> bool {
        true
    }

    open spec fn from_spec(value: StationError<E>) -> Self {
        ProductionError::Station(value)
    }
}

impl<E> From<StationError<E>> for ProductionError<E> {
    fn from(value: StationError<E>) -> (error: Self) {
        ProductionError::Station(value)
    }
}

/// The operation that an error came from.
#[derive(Clone, Copy, Debug, PartialEq, Eq, Structural)]
pub enum DriverOperation {
    Control,
    Event,
    Receive,
    Transmit,
    Watchdog,
}

/// Reads the EtherType of a frame that must hold an Ethernet header.
pub fn ethernet_type<E>(frame: &[u8]) -> (result: Result<u16, ProductionError<E>>)
    ensures
        result == (match runtime::ether_type_of(frame@) {
            Some(ether_type) => Ok::<u16, ProductionError<E>>(ether_type),
            None => Err::<u16, ProductionError<E>>(ProductionError::InvalidEthernetFrame),
        }),
{
    if frame.len() < 14 {
        return Err(ProductionError::InvalidEthernetFrame);
    }
    Ok(codec::read_be16(frame, 12))
}

/// Device errors that only a reset can clear.
pub open spec fn device_recovery<E>(error: DeviceError<E>) -> bool {
    match error {
        DeviceError::Rpu(_) => true,
        DeviceError::NotInitialized => true,
        DeviceError::InvalidQueueMap => true,
        DeviceError::CommandDeliveryUncertain => true,
        DeviceError::RecoveryRequired => true,
        DeviceError::EventTooLarge { .. } => true,
        _ => false,
    }
}

/// Station errors that only a reset can clear: device errors of that kind and
/// every fault.
pub open spec fn station_recovery<E>(error: StationError<E>) -> bool {
    match error {
        StationError::Device(error) => device_recovery(error),
        StationError::Fault(_) => true,
        _ => false,
    }
}

/// Malformed input comes from firmware only where an event or a packet is
/// read.
pub open spec fn input_recovery(operation: DriverOperation) -> bool {
    operation == DriverOperation::Receive || operation == DriverOperation::Event
}

/// Data errors that only a reset can clear.
pub open spec fn data_recovery<E>(error: DataError<E>, operation: DriverOperation) -> bool {
    match error {
        DataError::Device(error) => device_recovery(error),
        DataError::Rpu(_) => true,
        DataError::QueueOwnershipUncertain(_) => true,
        DataError::ReceiveDescriptorBusy(_) => true,
        DataError::Protocol(_) => input_recovery(operation),
        DataError::NoTransmitToken => false,
        DataError::OutputTooSmall { .. } => false,
    }
}

/// Driver errors that only a reset can clear.
pub open spec fn driver_recovery<E>(error: DriverError<E>, operation: DriverOperation) -> bool {
    match error {
        DriverError::Device(error) => device_recovery(error),
        DriverError::Data(error) => data_recovery(error, operation),
        DriverError::Station(error) => station_recovery(error),
        DriverError::DataProtocol(_) => true,
        DriverError::Firmware(_) => true,
        DriverError::Protocol(_) => true,
        DriverError::UnexpectedEventForState { .. } => true,
        DriverError::InvalidWatchdogStatus => true,
        DriverError::WrongInterface { .. } => input_recovery(operation),
        _ => false,
    }
}

/// Returns whether a device error needs a reset.
pub fn device_error_requires_recovery<E>(error: &DeviceError<E>) -> (required: bool)
    ensures
        required == device_recovery(*error),
{
    match error {
        DeviceError::Rpu(_) => true,
        DeviceError::NotInitialized => true,
        DeviceError::InvalidQueueMap => true,
        DeviceError::CommandDeliveryUncertain => true,
        DeviceError::RecoveryRequired => true,
        DeviceError::EventTooLarge { .. } => true,
        _ => false,
    }
}

/// Returns whether a station error needs a reset.
pub fn station_error_requires_recovery<E>(error: &StationError<E>) -> (required: bool)
    ensures
        required == station_recovery(*error),
{
    match error {
        StationError::Device(error) => device_error_requires_recovery(error),
        StationError::Fault(_) => true,
        _ => false,
    }
}

fn input_protocol_error_requires_recovery(operation: DriverOperation) -> (required: bool)
    ensures
        required == input_recovery(operation),
{
    operation == DriverOperation::Receive || operation == DriverOperation::Event
}

/// Returns whether a data error of an operation needs a reset.
pub fn data_error_requires_recovery<E>(error: &DataError<E>, operation: DriverOperation) -> (
required: bool)
    ensures
        required == data_recovery(*error, operation),
{
    match error {
        DataError::Device(error) => device_error_requires_recovery(error),
        DataError::Rpu(_) => true,
        DataError::QueueOwnershipUncertain(_) => true,
        DataError::ReceiveDescriptorBusy(_) => true,
        DataError::Protocol(_) => input_protocol_error_requires_recovery(operation),
        DataError::NoTransmitToken => false,
        DataError::OutputTooSmall { .. } => false,
    }
}

/// Returns whether a driver error of an operation needs a reset.
pub fn driver_error_requires_recovery<E>(error: &DriverError<E>, operation: DriverOperation) -> (
required: bool)
    ensures
        required == driver_recovery(*error, operation),
{
    match error {
        DriverError::Device(error) => device_error_requires_recovery(error),
        DriverError::Data(error) => data_error_requires_recovery(error, operation),
        DriverError::Station(error) => station_error_requires_recovery(error),
        other => simple_driver_error_requires_recovery(other, operation),
    }
}

/// Returns whether a driver error that holds no error of another layer needs a
/// reset.
pub fn simple_driver_error_requires_recovery<E>(
    error: &DriverError<E>,
    operation: DriverOperation,
) -> (required: bool)
    requires
        !(error is Device || error is Data || error is Station),
    ensures
        required == driver_recovery(*error, operation),
{
    match error {
        DriverError::DataProtocol(_) => true,
        DriverError::Firmware(_) => true,
        DriverError::Protocol(_) => true,
        DriverError::UnexpectedEventForState { .. } => true,
        DriverError::InvalidWatchdogStatus => true,
        DriverError::WrongInterface { .. } => input_protocol_error_requires_recovery(operation),
        _ => false,
    }
}

/// Returns whether an error of a receive needs a reset.
pub fn receive_error_requires_recovery<E>(error: &DriverError<E>) -> (required: bool)
    ensures
        required == driver_recovery(*error, DriverOperation::Receive),
{
    driver_error_requires_recovery(error, DriverOperation::Receive)
}

/// Uncertain ownership always needs a reset, in whatever operation and layer
/// it shows.
pub proof fn law_uncertain_ownership_needs_recovery<E>(
    error: DeviceError<E>,
    operation: DriverOperation,
)
    ensures
        data_recovery(DataError::QueueOwnershipUncertain(error), operation),
        driver_recovery(
            DriverError::Data(DataError::QueueOwnershipUncertain(error)),
            operation,
        ),
        driver_recovery(
            DriverError::<E>::Device(DeviceError::CommandDeliveryUncertain),
            operation,
        ),
        station_recovery(StationError::<E>::Device(DeviceError::CommandDeliveryUncertain)),
{
}

/// Overwrites the front of a buffer with zeros.
pub fn wipe(output: &mut [u8], len: usize)
    requires
        len <= old(output)@.len(),
    ensures
        final(output)@ == Seq::new(len as nat, |i: int| 0u8) + old(output)@.skip(len as int),
{
    let ghost before = output@;
    let mut i: usize = 0;
    while i < len
        invariant
            i <= len <= before.len(),
            output@.len() == before.len(),
            forall|j: int| 0 <= j < i ==> output@[j] == 0,
            forall|j: int| i <= j < before.len() ==> output@[j] == before[j],
        decreases len - i,
    {
        output[i] = 0;
        i = i + 1;
    }
    assert(output@ =~= Seq::new(len as nat, |i: int| 0u8) + before.skip(len as int));
}

/// High-level driver that keeps low-level mutable state private.
pub struct MissionCriticalDriver<B, const RX: usize, const TX: usize> {
    inner: NativeDriver<B, RX, TX>,
}

/// The end of a station operation: an error that needs a reset starts
/// recovery.
pub open spec fn station_finished<B, T, E, const RX: usize, const TX: usize>(
    before: NativeDriver<B, RX, TX>,
    after: NativeDriver<B, RX, TX>,
    outcome: Result<T, StationError<E>>,
    result: Result<T, ProductionError<E>>,
) -> bool {
    match outcome {
        Ok(value) => {
            &&& result == Ok::<T, ProductionError<E>>(value)
            &&& after == before
        },
        Err(error) => {
            &&& result == Err::<T, ProductionError<E>>(ProductionError::Station(error))
            &&& after == (if station_recovery(error) {
                before.recovering()
            } else {
                before
            })
        },
    }
}

/// How a station command of the fail-closed driver starts: only a ready driver
/// takes one, and an answer of the station that needs a reset starts recovery.
/// `started` says which states and answers the station can come to.
pub open spec fn command_finished<B, T, E, const RX: usize, const TX: usize>(
    before: NativeDriver<B, RX, TX>,
    after: NativeDriver<B, RX, TX>,
    result: Result<T, ProductionError<E>>,
    started: spec_fn(StationController, Result<T, StationError<E>>) -> bool,
) -> bool {
    if before.state != DriverState::Ready {
        &&& result == Err::<T, ProductionError<E>>(
            ProductionError::Driver(before.state_error(DriverState::Ready)),
        )
        &&& after == before
    } else {
        exists|station: StationController, outcome: Result<T, StationError<E>>|
            {
                &&& started(station, outcome)
                &&& #[trigger] station_finished(
                    before.with_station(station),
                    after,
                    outcome,
                    result,
                )
            }
    }
}

/// The end of a driver operation: an error that needs a reset starts recovery.
pub open spec fn driver_finished<B, T, E, const RX: usize, const TX: usize>(
    before: NativeDriver<B, RX, TX>,
    after: NativeDriver<B, RX, TX>,
    outcome: Result<T, DriverError<E>>,
    operation: DriverOperation,
    result: Result<T, ProductionError<E>>,
) -> bool {
    match outcome {
        Ok(value) => {
            &&& result == Ok::<T, ProductionError<E>>(value)
            &&& after == before
        },
        Err(error) => {
            &&& result == Err::<T, ProductionError<E>>(ProductionError::Driver(error))
            &&& after == (if driver_recovery(error, operation) {
                before.recovering()
            } else {
                before
            })
        },
    }
}

/// The end of a receive: a frame that the closed port refused is wiped.
pub open spec fn receive_ended<B, E, const RX: usize, const TX: usize>(
    before: NativeDriver<B, RX, TX>,
    after: NativeDriver<B, RX, TX>,
    outcome: Result<ReceivedFrame, DriverError<E>>,
    output: Seq<u8>,
    output_after: Seq<u8>,
    result: Result<ReceivedFrame, ProductionError<E>>,
) -> bool {
    if outcome matches Err(DriverError::ControlledPortClosed { ether_type, .. }) {
        &&& result == Err::<ReceivedFrame, ProductionError<E>>(
            ProductionError::ControlledPortClosed {
                ether_type: outcome->Err_0->ControlledPortClosed_ether_type,
            },
        )
        &&& output_after == Seq::new(output.len(), |i: int| 0u8)
        &&& after == before
    } else {
        &&& driver_finished(before, after, outcome, DriverOperation::Receive, result)
        &&& output_after == output
    }
}

/// Whether the production policy lets an EtherType pass.
pub open spec fn passes<B, const RX: usize, const TX: usize>(
    driver: NativeDriver<B, RX, TX>,
    ether_type: u16,
) -> bool {
    driver.station.port_open() || (ether_type == EAPOL_ETHERTYPE && driver.station.wants_eapol())
}

impl<B, const RX: usize, const TX: usize> MissionCriticalDriver<B, RX, TX> {
    /// The native driver inside.
    pub closed spec fn native(&self) -> NativeDriver<B, RX, TX> {
        self.inner
    }

    /// The native driver is well-formed.
    pub open spec fn wf(&self) -> bool {
        self.native().wf()
    }

    /// The refusal of an operation outside the ready state.
    pub open spec fn not_ready<E>(&self) -> ProductionError<E> {
        ProductionError::Driver(self.native().state_error(DriverState::Ready))
    }

    /// Creates one cold fail-closed driver.
    pub fn new(
        bus: B,
        rx_buffer_size: usize,
        tx_buffer_size: usize,
        ifaceindex: i32,
        firmware_index: i8,
        wdev_id: u32,
    ) -> (result: Result<Self, DataLayoutError>)
        ensures
            match result {
                Ok(driver) => {
                    let native = driver.native();
                    &&& driver.wf()
                    &&& wdev_id <= u8::MAX
                    &&& data::layout_fault(
                        RX as int,
                        TX as int,
                        rx_buffer_size as int,
                        tx_buffer_size as int,
                    ) is None
                    &&& native.state == DriverState::Cold
                    &&& native.wdev_id == wdev_id
                    &&& native.ifaceindex == ifaceindex
                    &&& native.configured_mac is None
                    &&& native.device.rpu.bus == bus
                    &&& native.device.queues is None
                    &&& !native.device.recovery_required
                    &&& native.data.rx_buffer_size == rx_buffer_size
                    &&& native.data.tx_buffer_size == tx_buffer_size
                    &&& native.station.ifaceindex == ifaceindex
                    &&& native.station.firmware_index == firmware_index
                    &&& native.station.wdev_id == wdev_id
                    &&& native.station.state == StationState::Down
                    &&& forall|ether_type: u16| !#[trigger] passes(native, ether_type)
                },
                Err(error) => if wdev_id > u8::MAX {
                    error == DataLayoutError::InvalidCapacity
                } else {
                    data::layout_fault(
                        RX as int,
                        TX as int,
                        rx_buffer_size as int,
                        tx_buffer_size as int,
                    ) == Some(error)
                },
            },
    {
        let inner = NativeDriver::new(
            bus,
            rx_buffer_size,
            tx_buffer_size,
            ifaceindex,
            firmware_index,
            wdev_id,
        )?;
        Ok(MissionCriticalDriver { inner })
    }

    /// Wraps an existing cold or recovered native driver.
    pub fn from_native(inner: NativeDriver<B, RX, TX>) -> (driver: Self)
        ensures
            driver.native() == inner,
    {
        MissionCriticalDriver { inner }
    }

    /// Returns the top-level lifecycle state.
    pub fn state(&self) -> (state: DriverState)
        ensures
            state == self.native().state,
    {
        self.inner.state()
    }

    /// Returns the station lifecycle state.
    pub fn station_state(&self) -> (state: StationState)
        ensures
            state == self.native().station.state,
    {
        self.inner.station.state()
    }

    /// Returns true only when normal network traffic is permitted.
    pub fn controlled_port_open(&self) -> (open: bool)
        ensures
            open == self.native().station.port_open(),
    {
        self.inner.station.controlled_port_open()
    }

    /// Sets bounded station-operation deadlines.
    pub fn set_station_timeouts(&mut self, timeouts: StationTimeouts)
        ensures
            final(self).native() == old(self).native().with_station(
                old(self).native().station.retimed(timeouts),
            ),
    {
        self.inner.station.set_timeouts(timeouts);
    }

    /// Sets protocol fragment limits within the Nordic limits.
    pub fn set_fragment_limits(&mut self, command_len: usize, event_len: usize) -> (result: Result<
        (),
        FragmentLimitError,
    >)
        ensures
            match result {
                Ok(()) => device::fragment_limits(command_len, event_len) && final(self).native()
                    == (NativeDriver {
                    device: Device {
                        command_fragment_len: command_len,
                        event_fragment_len: event_len,
                        ..old(self).native().device
                    },
                    ..old(self).native()
                }),
                Err(_) => !device::fragment_limits(command_len, event_len) && final(self).native()
                    == old(self).native(),
            },
    {
        self.inner.device.set_fragment_limits(command_len, event_len)
    }

    /// Returns the low-level bus and consumes all driver state.
    pub fn into_inner(self) -> (bus: B)
        ensures
            bus == self.native().device.rpu.bus,
    {
        self.inner.into_inner()
    }

    /// Synchronizes an Embassy network queue with the authorized port state.
    pub fn sync_embassy_link<const FRAME_SIZE: usize>(&self, state: &mut NetworkState<FRAME_SIZE>)
        requires
            old(state).wf(),
        ensures
            final(state).wf(),
            *final(state) == old(state).relinked(self.native().station.port_open()),
            final(state).link_up == self.native().station.port_open(),
    {
        state.sync_station_link(&self.inner.station);
    }

    /// Requires the ready state.
    pub fn ensure_ready<E>(&self) -> (result: Result<(), ProductionError<E>>)
        ensures
            result == (if self.native().state == DriverState::Ready {
                Ok::<(), ProductionError<E>>(())
            } else {
                Err::<(), ProductionError<E>>(self.not_ready())
            }),
    {
        let current = self.inner.state();
        if current == DriverState::Ready {
            Ok(())
        } else {
            Err(
                ProductionError::Driver(
                    DriverError::InvalidState { current, required: DriverState::Ready },
                ),
            )
        }
    }

    /// Returns whether the controlled port lets an EtherType pass.
    pub fn frame_allowed(&self, ether_type: u16) -> (allowed: bool)
        ensures
            allowed == passes(self.native(), ether_type),
    {
        if self.inner.station.controlled_port_open() {
            return true;
        }
        ether_type == EAPOL_ETHERTYPE && self.inner.station.eapol_required()
    }

    /// Ends a station operation.
    pub fn finish_station<T, E>(&mut self, outcome: Result<T, StationError<E>>) -> (result: Result<
        T,
        ProductionError<E>,
    >)
        ensures
            station_finished(old(self).native(), final(self).native(), outcome, result),
            old(self).wf() ==> final(self).wf(),
    {
        match outcome {
            Ok(value) => Ok(value),
            Err(error) => {
                if station_error_requires_recovery(&error) {
                    self.inner.enter_recovery();
                }
                Err(ProductionError::Station(error))
            },
        }
    }

    /// Ends a driver operation.
    pub fn finish_driver<T, E>(
        &mut self,
        outcome: Result<T, DriverError<E>>,
        operation: DriverOperation,
    ) -> (result: Result<T, ProductionError<E>>)
        ensures
            driver_finished(old(self).native(), final(self).native(), outcome, operation, result),
            old(self).wf() ==> final(self).wf(),
    {
        match outcome {
            Ok(value) => Ok(value),
            Err(error) => {
                if driver_error_requires_recovery(&error, operation) {
                    self.inner.enter_recovery();
                }
                Err(ProductionError::Driver(error))
            },
        }
    }

    /// Ends a receive. The driver has already consumed the firmware buffer: a
    /// frame that the closed port refused is an expected drop and no hardware
    /// fault, and the copied bytes are wiped.
    pub fn finish_receive<E>(
        &mut self,
        outcome: Result<ReceivedFrame, DriverError<E>>,
        output: &mut [u8],
    ) -> (result: Result<ReceivedFrame, ProductionError<E>>)
        ensures
            receive_ended(
                old(self).native(),
                final(self).native(),
                outcome,
                old(output)@,
                final(output)@,
                result,
            ),
            old(self).wf() ==> final(self).wf(),
    {
        match outcome {
            Ok(frame) => Ok(frame),
            Err(DriverError::ControlledPortClosed { ether_type, .. }) => {
                let len: usize = output.len();
                wipe(output, len);
                assert(output@ =~= Seq::new(old(output)@.len(), |i: int| 0u8));
                Err(ProductionError::ControlledPortClosed { ether_type })
            },
            Err(error) => {
                if receive_error_requires_recovery(&error) {
                    self.inner.enter_recovery();
                }
                Err(ProductionError::Driver(error))
            },
        }
    }

    /// Wipes a received frame that the controlled port does not let pass.
    pub fn enforce_received_frame<E>(&self, frame: ReceivedFrame, output: &mut [u8]) -> (result:
        Result<ReceivedFrame, ProductionError<E>>)
        requires
            frame.len <= old(output)@.len(),
        ensures
            if passes(self.native(), frame.ether_type) {
                &&& result == Ok::<ReceivedFrame, ProductionError<E>>(frame)
                &&& final(output)@ == old(output)@
            } else {
                &&& result == Err::<ReceivedFrame, ProductionError<E>>(
                    ProductionError::ControlledPortClosed { ether_type: frame.ether_type },
                )
                &&& final(output)@ == Seq::new(frame.len as nat, |i: int| 0u8) + old(output)@.skip(
                    frame.len as int,
                )
            },
    {
        if self.frame_allowed(frame.ether_type) {
            return Ok(frame);
        }
        wipe(output, frame.len);
        Err(ProductionError::ControlledPortClosed { ether_type: frame.ether_type })
    }

    /// Starts to create one station interface.
    pub fn create_station_interface<E>(
        &mut self,
        mac_address: [u8; 6],
        interface_name: &[u8],
    ) -> (result: Result<InterfaceCreation, ProductionError<E>>)
        requires
            old(self).wf(),
        ensures
            final(self).wf(),
            result matches Ok(
                InterfaceCreation::Submit(submission),
            ) ==> submission.send.wf() && submission.send.attempts > 0,
            command_finished(
                old(self).native(),
                final(self).native(),
                result,
                |station: StationController, started: Result<InterfaceCreation, StationError<E>>|
                    StationController::create_interface_started(
                        old(self).native().station,
                        station,
                        old(self).native().device,
                        mac_address,
                        interface_name,
                        started,
                    ),
            ),
    {
        self.ensure_ready::<E>()?;
        let started: Result<InterfaceCreation, StationError<E>> = self.inner.station.create_interface(
            &self.inner.device,
            mac_address,
            interface_name,
        );
        let ghost native = started;
        let ghost station = self.inner.station;
        let result = self.finish_station(started);
        proof {
            assert(StationController::create_interface_started(
                old(self).native().station,
                station,
                old(self).native().device,
                mac_address,
                interface_name,
                native,
            ));
            assert(station_finished(
                old(self).native().with_station(station),
                self.native(),
                native,
                result,
            ));
        }
        result
    }

    /// Starts to request one regulatory country code.
    pub fn set_regulatory<E>(
        &mut self,
        country: [u8; 2],
        user_hint_type: u32,
        force: bool,
    ) -> (result: Result<Submission, ProductionError<E>>)
        requires
            old(self).wf(),
        ensures
            final(self).wf(),
            result matches Ok(submission) ==> submission.send.wf() && submission.send.attempts > 0,
            command_finished(
                old(self).native(),
                final(self).native(),
                result,
                |station: StationController, started: Result<Submission, StationError<E>>|
                    StationController::set_regulatory_started(
                        old(self).native().station,
                        station,
                        old(self).native().device,
                        country,
                        user_hint_type,
                        force,
                        started,
                    ),
            ),
    {
        self.ensure_ready::<E>()?;
        let started: Result<Submission, StationError<E>> = self.inner.station.set_regulatory(
            &self.inner.device,
            country,
            user_hint_type,
            force,
        );
        let ghost native = started;
        let ghost station = self.inner.station;
        let result = self.finish_station(started);
        proof {
            assert(StationController::set_regulatory_started(
                old(self).native().station,
                station,
                old(self).native().device,
                country,
                user_hint_type,
                force,
                native,
            ));
            assert(station_finished(
                old(self).native().with_station(station),
                self.native(),
                native,
                result,
            ));
        }
        result
    }

    /// Starts to bring the firmware interface up.
    pub fn bring_up<E>(
        &mut self,
    ) -> (result: Result<Submission, ProductionError<E>>)
        requires
            old(self).wf(),
        ensures
            final(self).wf(),
            result matches Ok(submission) ==> submission.send.wf() && submission.send.attempts > 0,
            command_finished(
                old(self).native(),
                final(self).native(),
                result,
                |station: StationController, started: Result<Submission, StationError<E>>|
                    StationController::bring_up_started(
                        old(self).native().station,
                        station,
                        old(self).native().device,
                        started,
                    ),
            ),
    {
        self.ensure_ready::<E>()?;
        let started: Result<Submission, StationError<E>> = self.inner.station.bring_up(
            &self.inner.device,
        );
        let ghost native = started;
        let ghost station = self.inner.station;
        let result = self.finish_station(started);
        proof {
            assert(StationController::bring_up_started(
                old(self).native().station,
                station,
                old(self).native().device,
                native,
            ));
            assert(station_finished(
                old(self).native().with_station(station),
                self.native(),
                native,
                result,
            ));
        }
        result
    }

    /// Starts to bring the firmware interface down.
    pub fn bring_down<E>(
        &mut self,
    ) -> (result: Result<Submission, ProductionError<E>>)
        requires
            old(self).wf(),
        ensures
            final(self).wf(),
            result matches Ok(submission) ==> submission.send.wf() && submission.send.attempts > 0,
            command_finished(
                old(self).native(),
                final(self).native(),
                result,
                |station: StationController, started: Result<Submission, StationError<E>>|
                    StationController::bring_down_started(
                        old(self).native().station,
                        station,
                        old(self).native().device,
                        started,
                    ),
            ),
    {
        self.ensure_ready::<E>()?;
        let started: Result<Submission, StationError<E>> = self.inner.station.bring_down(
            &self.inner.device,
        );
        let ghost native = started;
        let ghost station = self.inner.station;
        let result = self.finish_station(started);
        proof {
            assert(StationController::bring_down_started(
                old(self).native().station,
                station,
                old(self).native().device,
                native,
            ));
            assert(station_finished(
                old(self).native().with_station(station),
                self.native(),
                native,
                result,
            ));
        }
        result
    }

    /// Starts one scan.
    pub fn start_scan<E>(
        &mut self,
        request: &ScanRequest<'_>,
    ) -> (result: Result<Submission, ProductionError<E>>)
        requires
            old(self).wf(),
        ensures
            final(self).wf(),
            result matches Ok(submission) ==> submission.send.wf() && submission.send.attempts > 0,
            command_finished(
                old(self).native(),
                final(self).native(),
                result,
                |station: StationController, started: Result<Submission, StationError<E>>|
                    StationController::start_scan_started(
                        old(self).native().station,
                        station,
                        old(self).native().device,
                        request,
                        started,
                    ),
            ),
    {
        self.ensure_ready::<E>()?;
        let started: Result<Submission, StationError<E>> = self.inner.station.start_scan(
            &self.inner.device,
            request,
        );
        let ghost native = started;
        let ghost station = self.inner.station;
        let result = self.finish_station(started);
        proof {
            assert(StationController::start_scan_started(
                old(self).native().station,
                station,
                old(self).native().device,
                request,
                native,
            ));
            assert(station_finished(
                old(self).native().with_station(station),
                self.native(),
                native,
                result,
            ));
        }
        result
    }

    /// Starts to request the result stream after a scan-done event.
    pub fn request_scan_results<E>(
        &mut self,
        reason: ScanReason,
    ) -> (result: Result<Submission, ProductionError<E>>)
        requires
            old(self).wf(),
        ensures
            final(self).wf(),
            result matches Ok(submission) ==> submission.send.wf() && submission.send.attempts > 0,
            command_finished(
                old(self).native(),
                final(self).native(),
                result,
                |station: StationController, started: Result<Submission, StationError<E>>|
                    StationController::request_scan_results_started(
                        old(self).native().station,
                        station,
                        old(self).native().device,
                        reason,
                        started,
                    ),
            ),
    {
        self.ensure_ready::<E>()?;
        let started: Result<Submission, StationError<E>> = self.inner.station.request_scan_results(
            &self.inner.device,
            reason,
        );
        let ghost native = started;
        let ghost station = self.inner.station;
        let result = self.finish_station(started);
        proof {
            assert(StationController::request_scan_results_started(
                old(self).native().station,
                station,
                old(self).native().device,
                reason,
                native,
            ));
            assert(station_finished(
                old(self).native().with_station(station),
                self.native(),
                native,
                result,
            ));
        }
        result
    }

    /// Starts to send an authentication request.
    pub fn authenticate<E>(
        &mut self,
        request: &AuthenticationRequest<'_>,
    ) -> (result: Result<Submission, ProductionError<E>>)
        requires
            old(self).wf(),
        ensures
            final(self).wf(),
            result matches Ok(submission) ==> submission.send.wf() && submission.send.attempts > 0,
            command_finished(
                old(self).native(),
                final(self).native(),
                result,
                |station: StationController, started: Result<Submission, StationError<E>>|
                    StationController::authenticate_started(
                        old(self).native().station,
                        station,
                        old(self).native().device,
                        request,
                        started,
                    ),
            ),
    {
        self.ensure_ready::<E>()?;
        let started: Result<Submission, StationError<E>> = self.inner.station.authenticate(
            &self.inner.device,
            request,
        );
        let ghost native = started;
        let ghost station = self.inner.station;
        let result = self.finish_station(started);
        proof {
            assert(StationController::authenticate_started(
                old(self).native().station,
                station,
                old(self).native().device,
                request,
                native,
            ));
            assert(station_finished(
                old(self).native().with_station(station),
                self.native(),
                native,
                result,
            ));
        }
        result
    }

    /// Starts to send an association request after authentication succeeds. A
    /// request for another peer than the authenticated one is a fault.
    pub fn associate<E>(
        &mut self,
        request: &AssociationRequest<'_>,
    ) -> (result: Result<Submission, ProductionError<E>>)
        requires
            old(self).wf(),
        ensures
            final(self).wf(),
            result matches Ok(submission) ==> submission.send.wf() && submission.send.attempts > 0,
            command_finished(
                old(self).native(),
                final(self).native(),
                result,
                |station: StationController, started: Result<Submission, StationError<E>>|
                    StationController::associate_started(
                        old(self).native().station,
                        station,
                        old(self).native().device,
                        request,
                        started,
                    ),
            ),
    {
        self.ensure_ready::<E>()?;
        let started: Result<Submission, StationError<E>> = self.inner.station.associate(
            &self.inner.device,
            request,
        );
        let ghost native = started;
        let ghost station = self.inner.station;
        let result = self.finish_station(started);
        proof {
            assert(StationController::associate_started(
                old(self).native().station,
                station,
                old(self).native().device,
                request,
                native,
            ));
            assert(station_finished(
                old(self).native().with_station(station),
                self.native(),
                native,
                result,
            ));
        }
        result
    }

    /// Starts to enable or disable firmware power save.
    pub fn set_power_save<E>(
        &mut self,
        state: PowerSaveState,
    ) -> (result: Result<Submission, ProductionError<E>>)
        requires
            old(self).wf(),
        ensures
            final(self).wf(),
            result matches Ok(submission) ==> submission.send.wf() && submission.send.attempts > 0,
            command_finished(
                old(self).native(),
                final(self).native(),
                result,
                |station: StationController, started: Result<Submission, StationError<E>>|
                    StationController::set_power_save_started(
                        old(self).native().station,
                        station,
                        old(self).native().device,
                        state,
                        started,
                    ),
            ),
    {
        self.ensure_ready::<E>()?;
        let started: Result<Submission, StationError<E>> = self.inner.station.set_power_save(
            &self.inner.device,
            state,
        );
        let ghost native = started;
        let ghost station = self.inner.station;
        let result = self.finish_station(started);
        proof {
            assert(StationController::set_power_save_started(
                old(self).native().station,
                station,
                old(self).native().device,
                state,
                native,
            ));
            assert(station_finished(
                old(self).native().with_station(station),
                self.native(),
                native,
                result,
            ));
        }
        result
    }

    /// Starts to change the firmware power-save timeout.
    ///
    /// Wait for its command-status event before a power-save state command is
    /// sent.
    pub fn set_power_save_timeout<E>(
        &mut self,
        timeout_ms: i32,
    ) -> (result: Result<Submission, ProductionError<E>>)
        requires
            old(self).wf(),
        ensures
            final(self).wf(),
            result matches Ok(submission) ==> submission.send.wf() && submission.send.attempts > 0,
            command_finished(
                old(self).native(),
                final(self).native(),
                result,
                |station: StationController, started: Result<Submission, StationError<E>>|
                    StationController::set_power_save_timeout_started(
                        old(self).native().station,
                        station,
                        old(self).native().device,
                        timeout_ms,
                        started,
                    ),
            ),
    {
        self.ensure_ready::<E>()?;
        let started: Result<Submission, StationError<E>> = self.inner.station.set_power_save_timeout(
            &self.inner.device,
            timeout_ms,
        );
        let ghost native = started;
        let ghost station = self.inner.station;
        let result = self.finish_station(started);
        proof {
            assert(StationController::set_power_save_timeout_started(
                old(self).native().station,
                station,
                old(self).native().device,
                timeout_ms,
                native,
            ));
            assert(station_finished(
                old(self).native().with_station(station),
                self.native(),
                native,
                result,
            ));
        }
        result
    }

    /// Starts a deauthentication sequence.
    pub fn disconnect<E>(
        &mut self,
        reason_code: u16,
    ) -> (result: Result<Submission, ProductionError<E>>)
        requires
            old(self).wf(),
        ensures
            final(self).wf(),
            result matches Ok(submission) ==> submission.send.wf() && submission.send.attempts > 0,
            command_finished(
                old(self).native(),
                final(self).native(),
                result,
                |station: StationController, started: Result<Submission, StationError<E>>|
                    StationController::disconnect_started(
                        old(self).native().station,
                        station,
                        old(self).native().device,
                        reason_code,
                        started,
                    ),
            ),
    {
        self.ensure_ready::<E>()?;
        let started: Result<Submission, StationError<E>> = self.inner.station.disconnect(
            &self.inner.device,
            reason_code,
        );
        let ghost native = started;
        let ghost station = self.inner.station;
        let result = self.finish_station(started);
        proof {
            assert(StationController::disconnect_started(
                old(self).native().station,
                station,
                old(self).native().device,
                reason_code,
                native,
            ));
            assert(station_finished(
                old(self).native().with_station(station),
                self.native(),
                native,
                result,
            ));
        }
        result
    }

    /// Returns the encoded bytes of the last command.
    pub fn command_bytes(&self) -> (bytes: &[u8])
        ensures
            bytes@ == self.native().station.command@,
    {
        &self.inner.station.command
    }

    /// Returns the next access of a command's delivery, `None` once all is
    /// sent.
    pub fn command_request(&self, submission: &Submission) -> (request: Option<RpuRequest>)
        requires
            submission.send.wf(),
        ensures
            request == submission.send.next(self.native().device.trigger_value()),
    {
        self.inner.device.send_request(&submission.send)
    }

    /// Takes the outcome of the access that
    /// [`MissionCriticalDriver::command_request`] asked for, and returns
    /// whether the command is delivered. The station changes state only then.
    pub fn resume_command<E>(
        &mut self,
        submission: &mut Submission,
        reply: Result<&[u8], RpuError<E>>,
    ) -> (result: Result<bool, ProductionError<E>>)
        requires
            old(self).wf(),
            old(submission).send.wf(),
            old(submission).send.attempts > 0,
            old(submission).send.next(old(self).native().device.trigger_value()) matches Some(
                request,
            ) && request.answered_by(reply),
        ensures
            final(self).wf(),
            final(submission).send.wf(),
            final(submission).send.attempts > 0,
            final(submission).commit == old(submission).commit,
            exists|device: Device<B>, sent: Result<(), DeviceError<E>>|
                {
                    let before = NativeDriver { device, ..old(self).native() };
                    &&& #[trigger] Device::send_resumed(
                        old(self).native().device,
                        device,
                        old(submission).send,
                        final(submission).send,
                        reply,
                        sent,
                    )
                    &&& match sent {
                        Ok(()) => if final(submission).send.state == SendState::Sent {
                            &&& result == Ok::<bool, ProductionError<E>>(true)
                            &&& final(self).native() == before.with_station(
                                before.station.committed(old(submission).commit),
                            )
                        } else {
                            &&& result == Ok::<bool, ProductionError<E>>(false)
                            &&& final(self).native() == before
                        },
                        Err(error) => station_finished(
                            before,
                            final(self).native(),
                            Err::<bool, StationError<E>>(StationError::Device(error)),
                            result,
                        ),
                    }
                },
    {
        let mut send: CommandSend = submission.send;
        let sent: Result<(), DeviceError<E>> = self.inner.device.resume_send(&mut send, reply);
        submission.send = send;
        assert(Device::send_resumed(
            old(self).native().device,
            self.inner.device,
            old(submission).send,
            submission.send,
            reply,
            sent,
        ));
        match sent {
            Ok(()) => {
                if send.state == SendState::Sent {
                    self.inner.station.delivered(submission.commit);
                    Ok(true)
                } else {
                    Ok(false)
                }
            },
            Err(error) => self.finish_station(Err(StationError::Device(error))),
        }
    }

    /// Starts the complete reset, firmware, queue, RX, interrupt, and init
    /// sequence.
    pub fn recover<'a, E>(
        &mut self,
        bundle: &FirmwareBundle<'a>,
        config: &'a SystemInitConfig,
    ) -> (result: Result<Recovery<'a>, DriverError<E>>)
        requires
            old(self).wf(),
        ensures
            final(self).wf(),
            NativeDriver::recovery_begun(
                old(self).native(),
                final(self).native(),
                *bundle,
                config,
                result,
            ),
            result matches Ok(recovery) ==> final(self).native().recovery_wf(recovery),
    {
        self.inner.recover(bundle, config)
    }

    /// Returns what the recovery asks for, `None` once it is done.
    pub fn recovery_request<E, P>(&mut self, recovery: &Recovery<'_>) -> (result: Result<
        Option<RecoveryRequest>,
        RecoveryError<E, P>,
    >)
        requires
            old(self).wf(),
            old(self).native().recovery_wf(*recovery),
        ensures
            final(self).wf(),
            final(self).native().recovery_wf(*recovery),
            NativeDriver::recovery_asked(
                old(self).native(),
                final(self).native(),
                *recovery,
                result,
            ),
    {
        self.inner.recovery_request(recovery)
    }

    /// Takes the outcome of what the recovery asked for.
    pub fn resume_recovery<'a, T: FirmwareTrustPolicy + ?Sized, E, P>(
        &mut self,
        recovery: &mut Recovery<'a>,
        trust: &T,
        reply: RecoveryReply<'_, E, P>,
    ) -> (result: Result<(), RecoveryError<E, P>>)
        requires
            old(self).wf(),
            old(self).native().recovery_wf(*old(recovery)),
            old(recovery).stage.answered_by(
                old(self).native().device.trigger_value(),
                reply,
                RX as int,
            ),
        ensures
            final(self).wf(),
            result is Ok ==> final(self).native().recovery_wf(*final(recovery)),
            NativeDriver::recovery_stepped(
                old(self).native(),
                final(self).native(),
                *old(recovery),
                *final(recovery),
                trust,
                reply,
                result,
            ),
    {
        self.inner.resume_recovery(recovery, trust, reply)
    }

    /// Advances all station deadlines.
    pub fn advance_time<E>(&mut self, elapsed_ms: u32) -> (result: Result<(), ProductionError<E>>)
        ensures
            old(self).wf() ==> final(self).wf(),
            ({
                let (station, fault) = old(self).native().station.time_outcome(elapsed_ms);
                let moved = old(self).native().with_station(station);
                match fault {
                    None => {
                        &&& result == Ok::<(), ProductionError<E>>(())
                        &&& final(self).native() == moved
                    },
                    Some(fault) => {
                        &&& result == Err::<(), ProductionError<E>>(
                            ProductionError::Driver(
                                DriverError::Station(StationError::Fault(fault)),
                            ),
                        )
                        &&& final(self).native() == moved.recovering()
                    },
                }
            }),
    {
        let outcome: Result<(), DriverError<E>> = self.inner.advance_time(elapsed_ms);
        self.finish_driver(outcome, DriverOperation::Control)
    }

    /// Starts to poll one firmware event.
    pub fn poll_event<E>(&mut self, capacity: usize, scratch_address: usize) -> (result: Result<
        EventRead,
        ProductionError<E>,
    >)
        requires
            old(self).wf(),
        ensures
            final(self).wf(),
            result matches Ok(read) ==> read.wf() && read.capacity == capacity,
            exists|native: NativeDriver<B, RX, TX>, started: Result<EventRead, DriverError<E>>|
                {
                    &&& NativeDriver::poll_started(
                        old(self).native(),
                        native,
                        capacity,
                        scratch_address,
                        started,
                    )
                    &&& #[trigger] driver_finished(
                        native,
                        final(self).native(),
                        started,
                        DriverOperation::Event,
                        result,
                    )
                },
    {
        let started: Result<EventRead, DriverError<E>> = self.inner.poll_event(
            capacity,
            scratch_address,
        );
        let ghost native = self.inner;
        let ghost outcome = started;
        let result = self.finish_driver(started, DriverOperation::Event);
        assert(driver_finished(native, self.inner, outcome, DriverOperation::Event, result));
        result
    }

    /// Takes the outcome of the access that the reading asked for.
    pub fn resume_event<E>(&mut self, read: &mut EventRead, reply: Result<&[u8], RpuError<E>>) -> (
    result: Result<EventProgress, ProductionError<E>>)
        requires
            old(self).wf(),
            old(read).wf(),
            old(read).next().answered_by(reply),
        ensures
            final(self).wf(),
            final(read).wf(),
            exists|device: Device<B>, progress: Result<EventProgress, DeviceError<E>>|
                {
                    &&& #[trigger] Device::event_resumed(
                        old(self).native().device,
                        device,
                        *old(read),
                        *final(read),
                        reply,
                        progress,
                    )
                    &&& driver_finished(
                        NativeDriver { device, ..old(self).native() },
                        final(self).native(),
                        match progress {
                            Ok(progress) => Ok::<EventProgress, DriverError<E>>(progress),
                            Err(error) => Err::<EventProgress, DriverError<E>>(
                                DriverError::Device(error),
                            ),
                        },
                        DriverOperation::Event,
                        result,
                    )
                },
    {
        let progress: Result<EventProgress, DeviceError<E>> = self.inner.device.resume_event(
            read,
            reply,
        );
        assert(Device::event_resumed(
            old(self).native().device,
            self.inner.device,
            *old(read),
            *read,
            reply,
            progress,
        ));
        let outcome = match progress {
            Ok(progress) => Ok(progress),
            Err(error) => Err(DriverError::Device(error)),
        };
        self.finish_driver(outcome, DriverOperation::Event)
    }

    /// Parses and dispatches one complete firmware event.
    pub fn finish_poll<'a, E>(&mut self, scratch: &'a [u8], len: usize) -> (result: Result<
        DriverEvent<'a>,
        ProductionError<E>,
    >)
        requires
            len <= scratch@.len(),
        ensures
            old(self).wf() ==> final(self).wf(),
            exists|native: NativeDriver<B, RX, TX>, event: Result<DriverEvent<'a>, DriverError<E>>|
                {
                    &&& NativeDriver::poll_finished(
                        old(self).native(),
                        native,
                        scratch@.subrange(0, len as int),
                        event,
                    )
                    &&& #[trigger] driver_finished(
                        native,
                        final(self).native(),
                        event,
                        DriverOperation::Event,
                        result,
                    )
                },
    {
        let event: Result<DriverEvent<'a>, DriverError<E>> = self.inner.finish_poll(scratch, len);
        let ghost native = self.inner;
        let ghost outcome = event;
        let result = self.finish_driver(event, DriverOperation::Event);
        assert(driver_finished(native, self.inner, outcome, DriverOperation::Event, result));
        result
    }

    /// Takes one received packet for caller storage of this length.
    pub fn receive_packet<E>(
        &mut self,
        event: &RxEventRef<'_>,
        packet_index: usize,
        output_len: usize,
    ) -> (result: Result<ReceiveStart<E>, ProductionError<E>>)
        requires
            old(self).wf(),
            event.wf(),
        ensures
            final(self).wf(),
            if old(self).native().state != DriverState::Ready {
                &&& result == Err::<ReceiveStart<E>, ProductionError<E>>(old(self).not_ready())
                &&& final(self).native() == old(self).native()
            } else {
                exists|
                    native: NativeDriver<B, RX, TX>,
                    started: Result<ReceiveStart<E>, DriverError<E>>,
                |
                    {
                        &&& NativeDriver::receive_started(
                            old(self).native(),
                            native,
                            *event,
                            packet_index as int,
                            output_len,
                            started,
                        )
                        &&& #[trigger] driver_finished(
                            native,
                            final(self).native(),
                            started,
                            DriverOperation::Receive,
                            result,
                        )
                    }
            },
    {
        self.ensure_ready::<E>()?;
        let started: Result<ReceiveStart<E>, DriverError<E>> = self.inner.receive_packet(
            event,
            packet_index,
            output_len,
        );
        let ghost native = self.inner;
        let ghost outcome = started;
        let result = self.finish_driver(started, DriverOperation::Receive);
        assert(driver_finished(native, self.inner, outcome, DriverOperation::Receive, result));
        result
    }

    /// Starts to post the descriptor of a received packet again.
    pub fn repost<E>(&mut self, descriptor: u16) -> (result: Result<RxPost, ProductionError<E>>)
        requires
            old(self).wf(),
        ensures
            final(self).wf(),
            result matches Ok(post) ==> final(self).native().data.post_wf(post) && post.slot
                + data::RX_BUFFER_HEADROOM <= u32::MAX && post.state == PostState::Descriptor,
            driver_finished(
                old(self).native(),
                final(self).native(),
                match old(self).native().data.post_start::<B, E>(
                    old(self).native().device,
                    descriptor,
                    0,
                ) {
                    Ok(post) => Ok::<RxPost, DriverError<E>>(post),
                    Err(error) => Err::<RxPost, DriverError<E>>(DriverError::Data(error)),
                },
                DriverOperation::Receive,
                result,
            ),
    {
        let started: Result<RxPost, DataError<E>> = self.inner.data.post_rx(
            &self.inner.device,
            descriptor,
            0,
        );
        let outcome = match started {
            Ok(post) => Ok(post),
            Err(error) => Err(DriverError::Data(error)),
        };
        self.finish_driver(outcome, DriverOperation::Receive)
    }

    /// Takes the outcome of the access that the posting asked for.
    pub fn resume_post<E>(&mut self, post: &mut RxPost, reply: Result<&[u8], RpuError<E>>) -> (
    result: Result<(), ProductionError<E>>)
        requires
            old(self).wf(),
            old(self).native().data.post_wf(*old(post)),
            old(post).state != PostState::Posted,
        ensures
            final(self).wf(),
            result is Ok ==> final(self).native().data.post_wf(*final(post)),
            exists|path: DataPath<RX, TX>, posted: Result<(), DataError<E>>|
                {
                    &&& #[trigger] DataPath::post_resumed(
                        old(self).native().data,
                        path,
                        *old(post),
                        *final(post),
                        reply,
                        posted,
                    )
                    &&& driver_finished(
                        NativeDriver { data: path, ..old(self).native() },
                        final(self).native(),
                        match posted {
                            Ok(()) => Ok::<(), DriverError<E>>(()),
                            Err(error) => Err::<(), DriverError<E>>(DriverError::Data(error)),
                        },
                        DriverOperation::Receive,
                        result,
                    )
                },
    {
        let posted: Result<(), DataError<E>> = self.inner.data.resume_post(post, reply);
        assert(DataPath::post_resumed(
            old(self).native().data,
            self.inner.data,
            *old(post),
            *post,
            reply,
            posted,
        ));
        let outcome = match posted {
            Ok(()) => Ok(()),
            Err(error) => Err(DriverError::Data(error)),
        };
        self.finish_driver(outcome, DriverOperation::Receive)
    }

    /// Ends the receive of one packet and drops it when the controlled port
    /// rejects it.
    pub fn finish_packet<E>(
        &mut self,
        event: &RxEventRef<'_>,
        verdict: ReceiveVerdict<E>,
        output: &mut [u8],
    ) -> (result: Result<ReceivedFrame, ProductionError<E>>)
        requires
            old(self).wf(),
            verdict matches ReceiveVerdict::Delivered(frame) ==> frame.len <= old(output)@.len(),
        ensures
            final(self).wf(),
            match verdict.result() {
                Ok(frame) => if event.wdev_id != old(self).native().wdev_id {
                    &&& result == Err::<ReceivedFrame, ProductionError<E>>(
                        ProductionError::Driver(
                            DriverError::WrongInterface {
                                expected: old(self).native().wdev_id,
                                received: event.wdev_id,
                            },
                        ),
                    )
                    &&& final(self).native() == old(self).native().recovering().recovering()
                    &&& final(output)@ == old(output)@
                } else if !old(self).native().port_allows(frame.ether_type) {
                    &&& result == Err::<ReceivedFrame, ProductionError<E>>(
                        ProductionError::ControlledPortClosed { ether_type: frame.ether_type },
                    )
                    &&& final(self).native() == old(self).native()
                    &&& final(output)@ == Seq::new(old(output)@.len(), |i: int| 0u8)
                } else {
                    &&& result == Ok::<ReceivedFrame, ProductionError<E>>(frame)
                    &&& final(self).native() == old(self).native()
                    &&& final(output)@ == old(output)@
                },
                Err(error) => {
                    &&& driver_finished(
                        old(self).native(),
                        final(self).native(),
                        Err::<ReceivedFrame, DriverError<E>>(DriverError::Data(error)),
                        DriverOperation::Receive,
                        result,
                    )
                    &&& final(output)@ == old(output)@
                },
            },
    {
        let outcome: Result<ReceivedFrame, DriverError<E>> = self.inner.finish_receive(
            event,
            verdict,
        );
        let frame = self.finish_receive(outcome, output)?;
        self.enforce_received_frame(frame, output)
    }

    /// Starts to send one Ethernet frame only when the controlled port permits
    /// it.
    pub fn transmit<E>(&mut self, wdev_id: u8, frame: &[u8], dscp_tos: u16) -> (result: Result<
        Transmit,
        ProductionError<E>,
    >)
        requires
            old(self).wf(),
        ensures
            final(self).wf(),
            result matches Ok(transmit) ==> final(self).native().data.transmit_wf(transmit),
            if old(self).native().state != DriverState::Ready {
                &&& result == Err::<Transmit, ProductionError<E>>(old(self).not_ready())
                &&& final(self).native() == old(self).native()
            } else {
                match runtime::ether_type_of(frame@) {
                    None => {
                        &&& result == Err::<Transmit, ProductionError<E>>(
                            ProductionError::InvalidEthernetFrame,
                        )
                        &&& final(self).native() == old(self).native()
                    },
                    Some(ether_type) => if !passes(old(self).native(), ether_type) {
                        &&& result == Err::<Transmit, ProductionError<E>>(
                            ProductionError::ControlledPortClosed { ether_type },
                        )
                        &&& final(self).native() == old(self).native()
                    } else {
                        exists|
                            native: NativeDriver<B, RX, TX>,
                            started: Result<Transmit, DriverError<E>>,
                        |
                            {
                                &&& NativeDriver::transmit_started(
                                    old(self).native(),
                                    native,
                                    wdev_id,
                                    frame@,
                                    dscp_tos,
                                    started,
                                )
                                &&& #[trigger] driver_finished(
                                    native,
                                    final(self).native(),
                                    started,
                                    DriverOperation::Transmit,
                                    result,
                                )
                            }
                    },
                }
            },
    {
        self.ensure_ready::<E>()?;
        let ether_type: u16 = match ethernet_type::<E>(frame) {
            Ok(ether_type) => ether_type,
            Err(error) => return Err(error),
        };
        if !self.frame_allowed(ether_type) {
            return Err(ProductionError::ControlledPortClosed { ether_type });
        }
        let started: Result<Transmit, DriverError<E>> = self.inner.transmit(
            wdev_id,
            frame,
            dscp_tos,
        );
        let ghost native = self.inner;
        let ghost outcome = started;
        let result = self.finish_driver(started, DriverOperation::Transmit);
        assert(driver_finished(native, self.inner, outcome, DriverOperation::Transmit, result));
        result
    }

    /// Returns the next access of a sending, `None` once the frame is sent.
    pub fn transmit_request(&self, transmit: &Transmit) -> (request: Option<RpuRequest>)
        requires
            transmit.wf(),
        ensures
            request == transmit.next(self.native().device.trigger_value()),
    {
        transmit.request(&self.inner.device)
    }

    /// Takes the outcome of the access that
    /// [`MissionCriticalDriver::transmit_request`] asked for.
    pub fn resume_transmit<E>(
        &mut self,
        transmit: &mut Transmit,
        reply: Result<&[u8], RpuError<E>>,
    ) -> (result: Result<(), ProductionError<E>>)
        requires
            old(self).wf(),
            old(self).native().data.transmit_wf(*old(transmit)),
            old(transmit).state != TransmitState::Sent,
        ensures
            final(self).wf(),
            final(transmit).wf(),
            result is Ok ==> final(self).native().data.transmit_wf(*final(transmit)),
            exists|path: DataPath<RX, TX>, device: Device<B>, sent: Result<(), DataError<E>>|
                {
                    &&& #[trigger] DataPath::transmit_resumed(
                        old(self).native().data,
                        path,
                        old(self).native().device,
                        device,
                        *old(transmit),
                        *final(transmit),
                        reply,
                        sent,
                    )
                    &&& driver_finished(
                        NativeDriver { data: path, device, ..old(self).native() },
                        final(self).native(),
                        match sent {
                            Ok(()) => Ok::<(), DriverError<E>>(()),
                            Err(error) => Err::<(), DriverError<E>>(DriverError::Data(error)),
                        },
                        DriverOperation::Transmit,
                        result,
                    )
                },
    {
        let sent: Result<(), DataError<E>> = self.inner.data.resume_transmit(
            &mut self.inner.device,
            transmit,
            reply,
        );
        assert(DataPath::transmit_resumed(
            old(self).native().data,
            self.inner.data,
            old(self).native().device,
            self.inner.device,
            *old(transmit),
            *transmit,
            reply,
            sent,
        ));
        let outcome = match sent {
            Ok(()) => Ok(()),
            Err(error) => Err(DriverError::Data(error)),
        };
        self.finish_driver(outcome, DriverOperation::Transmit)
    }

    /// Starts to check the firmware watchdog status.
    pub fn watchdog_pending(&self) -> (read: WatchdogRead)
        ensures
            read.left == WATCHDOG_READS,
    {
        self.inner.watchdog_pending()
    }

    /// Takes one read of the watchdog status.
    pub fn resume_watchdog<E>(
        &mut self,
        read: &mut WatchdogRead,
        reply: Result<&[u8], RpuError<E>>,
    ) -> (result: Result<Option<bool>, ProductionError<E>>)
        requires
            old(read).left > 0,
            memory::read_register_request(RPU_REG_WATCHDOG_STATUS).answered_by(reply),
        ensures
            old(self).wf() ==> final(self).wf(),
            exists|native: NativeDriver<B, RX, TX>, pending: Result<Option<bool>, DriverError<E>>|
                {
                    &&& NativeDriver::watchdog_resumed(
                        old(self).native(),
                        native,
                        *old(read),
                        *final(read),
                        reply,
                        pending,
                    )
                    &&& #[trigger] driver_finished(
                        native,
                        final(self).native(),
                        pending,
                        DriverOperation::Watchdog,
                        result,
                    )
                },
    {
        let pending: Result<Option<bool>, DriverError<E>> = self.inner.resume_watchdog(read, reply);
        let ghost native = self.inner;
        let ghost outcome = pending;
        let result = self.finish_driver(pending, DriverOperation::Watchdog);
        assert(driver_finished(native, self.inner, outcome, DriverOperation::Watchdog, result));
        result
    }

    /// Starts to acknowledge the watchdog.
    pub fn acknowledge_watchdog(&self) -> (stage: WatchdogAck)
        ensures
            stage == WatchdogAck::Clear,
    {
        self.inner.acknowledge_watchdog()
    }

    /// Takes the outcome of the access that the acknowledgement asked for; the
    /// last one enters recovery.
    pub fn resume_acknowledgement<E>(
        &mut self,
        stage: WatchdogAck,
        reply: Result<&[u8], RpuError<E>>,
    ) -> (result: Result<WatchdogAck, ProductionError<E>>)
        requires
            stage != WatchdogAck::Rearmed,
        ensures
            old(self).wf() ==> final(self).wf(),
            exists|native: NativeDriver<B, RX, TX>, next: Result<WatchdogAck, DriverError<E>>|
                {
                    &&& NativeDriver::acknowledgement_resumed(
                        old(self).native(),
                        native,
                        stage,
                        reply,
                        next,
                    )
                    &&& #[trigger] driver_finished(
                        native,
                        final(self).native(),
                        next,
                        DriverOperation::Watchdog,
                        result,
                    )
                },
    {
        let next: Result<WatchdogAck, DriverError<E>> = self.inner.resume_acknowledgement(
            stage,
            reply,
        );
        let ghost native = self.inner;
        let ghost outcome = next;
        let result = self.finish_driver(next, DriverOperation::Watchdog);
        assert(driver_finished(native, self.inner, outcome, DriverOperation::Watchdog, result));
        result
    }
}

/// The high-level driver fails closed: an operation that ends with an error
/// which needs a reset leaves it in recovery, where no frame passes the
/// controlled port.
pub proof fn law_recovery_closes_the_port<B, T, E, const RX: usize, const TX: usize>(
    before: NativeDriver<B, RX, TX>,
    after: NativeDriver<B, RX, TX>,
    error: DriverError<E>,
    operation: DriverOperation,
    result: Result<T, ProductionError<E>>,
    ether_type: u16,
)
    requires
        driver_finished(
            before,
            after,
            Err::<T, DriverError<E>>(error),
            operation,
            result,
        ),
        driver_recovery(error, operation),
    ensures
        after.state == DriverState::Recovering,
        !passes(after, ether_type),
        result is Err,
{
}

/// An error of the device asks for recovery exactly when the firmware, its queues or
/// what it owns can no longer be trusted.
pub proof fn law_device_errors_that_need_recovery<E>(error: DeviceError<E>)
    ensures
        device_recovery(error) <==> error is Rpu || error is NotInitialized
            || error is InvalidQueueMap || error is CommandDeliveryUncertain
            || error is RecoveryRequired || error is EventTooLarge,
        error is CommandQueueEmpty || error is CommandQueueTimeout || error is CommandNeedsWait
            || error is EventBufferChanged || error is Protocol ==> !device_recovery(error),
{
}

/// A failed link always asks for recovery; a request that was refused before it
/// reached the device does not.
pub proof fn law_station_errors_that_need_recovery<E>(
    fault: crate::station::StationFault,
    error: StationError<E>,
)
    ensures
        station_recovery(StationError::<E>::Fault(fault)),
        error matches StationError::Device(cause) ==> station_recovery(error) == device_recovery(
            cause,
        ),
        error is Protocol || error is InvalidState || error is InterfaceAlreadyCreated
            || error is InterfaceNotCreated ==> !station_recovery(error),
{
}

/// Data errors ask for recovery when ownership is in doubt, and malformed input does
/// so only where the firmware sent it.
pub proof fn law_data_errors_that_need_recovery<E>(
    error: DataError<E>,
    operation: DriverOperation,
)
    ensures
        error is Rpu || error is QueueOwnershipUncertain || error is ReceiveDescriptorBusy
            ==> data_recovery(error, operation),
        error is NoTransmitToken || error is OutputTooSmall ==> !data_recovery(error, operation),
        error is Protocol ==> (data_recovery(error, operation) <==> operation is Receive
            || operation is Event),
        error matches DataError::Device(cause) ==> data_recovery(error, operation)
            == device_recovery(cause),
{
}

/// Driver errors ask for recovery with their cause; a refused caller does not.
pub proof fn law_driver_errors_that_need_recovery<E>(
    error: DriverError<E>,
    operation: DriverOperation,
)
    ensures
        error is DataProtocol || error is Firmware || error is Protocol
            || error is UnexpectedEventForState || error is InvalidWatchdogStatus
            ==> driver_recovery(error, operation),
        error is InvalidState || error is InvalidStationState || error is ConfigurationMismatch
            || error is FrameTooShort || error is ControlledPortClosed ==> !driver_recovery(
            error,
            operation,
        ),
        error is WrongInterface ==> (driver_recovery(error, operation) <==> operation is Receive
            || operation is Event),
        error matches DriverError::Device(cause) ==> driver_recovery(error, operation)
            == device_recovery(cause),
        error matches DriverError::Data(cause) ==> driver_recovery(error, operation)
            == data_recovery(cause, operation),
        error matches DriverError::Station(cause) ==> driver_recovery(error, operation)
            == station_recovery(cause),
{
}

/// A frame passes an open port, and a key frame also while the link wants key
/// frames.
pub proof fn law_frames_that_pass<B, const RX: usize, const TX: usize>(
    driver: NativeDriver<B, RX, TX>,
    ether_type: u16,
)
    ensures
        passes(driver, ether_type) <==> driver.station.port_open() || (ether_type == 0x888e
            && driver.station.wants_eapol()),
{
}

/// A frame behind a closed port is wiped from the output before the refusal is
/// reported.
pub proof fn law_refused_frames_are_wiped<B, E, const RX: usize, const TX: usize>(
    before: NativeDriver<B, RX, TX>,
    after: NativeDriver<B, RX, TX>,
    outcome: Result<ReceivedFrame, DriverError<E>>,
    output: Seq<u8>,
    output_after: Seq<u8>,
    result: Result<ReceivedFrame, ProductionError<E>>,
    position: int,
)
    requires
        receive_ended(before, after, outcome, output, output_after, result),
        0 <= position < output.len(),
    ensures
        output_after.len() == output.len(),
        outcome matches Err(DriverError::ControlledPortClosed { ether_type, .. })
            ==> output_after[position] == 0 && after == before && result == Err::<
            ReceivedFrame,
            ProductionError<E>,
        >(ProductionError::ControlledPortClosed { ether_type }),
        outcome matches Ok(frame) ==> output_after == output && after == before && result == Ok::<
            ReceivedFrame,
            ProductionError<E>,
        >(frame),
        result is Ok <==> outcome is Ok,
{
}

/// A command of a driver that is not ready is refused without touching the link; a
/// failure of the link or the device leaves a ready driver recovering.
pub proof fn law_commands_fail_closed<B, T, E, const RX: usize, const TX: usize>(
    before: NativeDriver<B, RX, TX>,
    after: NativeDriver<B, RX, TX>,
    outcome: Result<T, StationError<E>>,
    result: Result<T, ProductionError<E>>,
)
    requires
        station_finished(before, after, outcome, result),
    ensures
        result is Ok <==> outcome is Ok,
        outcome matches Ok(value) ==> result == Ok::<T, ProductionError<E>>(value) && after
            == before,
        outcome matches Err(error) ==> result == Err::<T, ProductionError<E>>(
            ProductionError::Station(error),
        ),
        outcome matches Err(StationError::Fault(_)) ==> after.state == DriverState::Recovering,
        outcome matches Err(StationError::Protocol(_)) ==> after == before,
        outcome matches Err(StationError::InvalidState { .. }) ==> after == before,
{
}

/// A driver that is not ready refuses every command and stays as it is.
pub proof fn law_unready_drivers_refuse_commands<B, T, E, const RX: usize, const TX: usize>(
    before: NativeDriver<B, RX, TX>,
    after: NativeDriver<B, RX, TX>,
    result: Result<T, ProductionError<E>>,
    started: spec_fn(StationController, Result<T, StationError<E>>) -> bool,
)
    requires
        command_finished(before, after, result, started),
        before.state != DriverState::Ready,
    ensures
        after == before,
        result == Err::<T, ProductionError<E>>(
            ProductionError::Driver(
                DriverError::InvalidState {
                    current: before.state,
                    required: DriverState::Ready,
                },
            ),
        ),
{
}

} // verus!
