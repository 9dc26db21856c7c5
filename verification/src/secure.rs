//! WPA2 station sessions on top of the fail-closed driver.
//!
//! The session itself (the supplicant and its phases) is a type of the caller.
//! This module decides which firmware events reach it, keeps EAPOL frames from
//! the network, and reports its failures beside those of the driver.

use vstd::prelude::*;

use crate::control::ControlEvent;
use crate::data::{
    ReceiveStart, ReceivedFrame, RxEventRef, Transmit, TxDoneEventRef, EAPOL_ETHERTYPE,
};
use crate::device::EventRead;
use crate::production::{wipe, MissionCriticalDriver, ProductionError};
use crate::protocol::UmacCommand;
use crate::runtime::{DriverError, DriverEvent, DriverState};
use crate::station::StationError;

verus! {

/// What a transmitted EAPOL frame is for.
#[non_exhaustive]
#[derive(Clone, Copy, Debug, PartialEq, Eq, Structural)]
pub enum EapolTransmitPurpose {
    Message2,
}

/// Phase of a WPA2 exchange.
#[non_exhaustive]
#[derive(Clone, Copy, Debug, PartialEq, Eq, Structural)]
pub enum Wpa2RuntimeState {
    AwaitingAuthenticator,
    AwaitingEapolTransmit { token: u8, purpose: EapolTransmitPurpose },
    AwaitingPairwiseKeyStatus,
    AwaitingGroupKeyStatus,
    AwaitingDefaultGroupKeyStatus,
    AwaitingAuthorizationStatus,
    AwaitingGroupRekeyStatus,
    AwaitingDefaultGroupRekeyStatus,
    Failed,
}

/// The command whose status a phase waits for.
pub open spec fn awaited_command(state: Wpa2RuntimeState) -> Option<UmacCommand> {
    match state {
        Wpa2RuntimeState::AwaitingPairwiseKeyStatus => Some(UmacCommand::NewKey),
        Wpa2RuntimeState::AwaitingGroupKeyStatus => Some(UmacCommand::NewKey),
        Wpa2RuntimeState::AwaitingGroupRekeyStatus => Some(UmacCommand::NewKey),
        Wpa2RuntimeState::AwaitingDefaultGroupKeyStatus => Some(UmacCommand::SetKey),
        Wpa2RuntimeState::AwaitingDefaultGroupRekeyStatus => Some(UmacCommand::SetKey),
        Wpa2RuntimeState::AwaitingAuthorizationStatus => Some(UmacCommand::SetStation),
        _ => None,
    }
}

/// Returns the command whose status a phase waits for.
pub fn expected_security_command(state: Wpa2RuntimeState) -> (command: Option<u32>)
    ensures
        command == (match awaited_command(state) {
            Some(command) => Some(command.wire()),
            None => None::<u32>,
        }),
{
    match state {
        Wpa2RuntimeState::AwaitingPairwiseKeyStatus => Some(UmacCommand::NewKey.code()),
        Wpa2RuntimeState::AwaitingGroupKeyStatus => Some(UmacCommand::NewKey.code()),
        Wpa2RuntimeState::AwaitingGroupRekeyStatus => Some(UmacCommand::NewKey.code()),
        Wpa2RuntimeState::AwaitingDefaultGroupKeyStatus => Some(UmacCommand::SetKey.code()),
        Wpa2RuntimeState::AwaitingDefaultGroupRekeyStatus => Some(UmacCommand::SetKey.code()),
        Wpa2RuntimeState::AwaitingAuthorizationStatus => Some(UmacCommand::SetStation.code()),
        _ => None,
    }
}

/// Returns whether a control event is the status that a phase waits for.
pub fn control_event_is_expected(state: Wpa2RuntimeState, event: ControlEvent<'_>) -> (expected:
    bool)
    ensures
        expected == (event matches ControlEvent::CommandStatus { command, .. } && awaited_command(
            state,
        ) matches Some(awaited) && awaited.wire() == command),
{
    match event {
        ControlEvent::CommandStatus { command, .. } => match expected_security_command(state) {
            Some(awaited) => awaited == command,
            None => false,
        },
        _ => false,
    }
}

/// Returns whether a completed transmission is the EAPOL frame that a phase
/// waits for.
pub fn transmit_done_is_expected(state: Wpa2RuntimeState, event: TxDoneEventRef<'_>) -> (expected:
    bool)
    ensures
        expected == (state matches Wpa2RuntimeState::AwaitingEapolTransmit { token, .. } && token
            == event.token),
{
    match state {
        Wpa2RuntimeState::AwaitingEapolTransmit { token, .. } => token == event.token,
        _ => false,
    }
}

/// Where a driver event goes in a WPA2 session.
#[derive(Clone, Copy, Debug, PartialEq, Eq, Structural)]
pub enum SecurityRoute {
    /// The status of a security command.
    ControlStatus,
    /// The end of an EAPOL transmission.
    TransmitDone,
    /// The carrier may have changed.
    Carrier,
    /// The session ignores the event.
    Ignored,
}

/// Where a driver event goes: control and transmit events that the phase does
/// not wait for are ignored.
pub open spec fn route_of(state: Wpa2RuntimeState, event: DriverEvent<'_>) -> SecurityRoute {
    match event {
        DriverEvent::Control(control) => if control matches ControlEvent::CommandStatus {
            command,
            ..
        } && awaited_command(state) matches Some(awaited) && awaited.wire() == command {
            SecurityRoute::ControlStatus
        } else {
            SecurityRoute::Ignored
        },
        DriverEvent::TransmitDone(done) => if state matches Wpa2RuntimeState::AwaitingEapolTransmit {
            token,
            ..
        } && token == done.token {
            SecurityRoute::TransmitDone
        } else {
            SecurityRoute::Ignored
        },
        DriverEvent::Data(_) => SecurityRoute::Carrier,
        _ => SecurityRoute::Ignored,
    }
}

/// Routes a driver event.
pub fn security_route(state: Wpa2RuntimeState, event: DriverEvent<'_>) -> (route: SecurityRoute)
    ensures
        route == route_of(state, event),
{
    match event {
        DriverEvent::Control(control) => {
            if control_event_is_expected(state, control) {
                SecurityRoute::ControlStatus
            } else {
                SecurityRoute::Ignored
            }
        },
        DriverEvent::TransmitDone(done) => {
            if transmit_done_is_expected(state, done) {
                SecurityRoute::TransmitDone
            } else {
                SecurityRoute::Ignored
            }
        },
        DriverEvent::Data(_) => SecurityRoute::Carrier,
        _ => SecurityRoute::Ignored,
    }
}

/// Returns whether a received frame belongs to the WPA2 session rather than to
/// the network.
pub fn frame_is_eapol(frame: &ReceivedFrame) -> (eapol: bool)
    ensures
        eapol == (frame.ether_type == EAPOL_ETHERTYPE),
{
    frame.ether_type == EAPOL_ETHERTYPE
}

/// One driver event and its WPA2 progress.
#[derive(Clone, Copy, Debug, PartialEq, Eq)]
pub struct SecureDriverEvent<'a, P> {
    pub event: DriverEvent<'a>,
    pub security: P,
}

/// Result of one received packet in a WPA2 station session.
#[derive(Clone, Copy, Debug, PartialEq, Eq)]
pub enum SecureReceive<P> {
    /// Normal Ethernet data permitted by the controlled port.
    Data(ReceivedFrame),
    /// EAPOL data consumed by the session.
    Eapol(P),
}

/// Error from the integrated WPA2 station runtime: of the driver, of the
/// session or of its supplicant.
#[derive(Debug)]
pub enum SecureProductionError<E, W, F> {
    Production(ProductionError<E>),
    Wpa2(W),
    Supplicant(F),
}

impl<E, W, F> vstd::std_specs::convert::FromSpecImpl<ProductionError<E>> for SecureProductionError<E, W, F> {
    open spec fn obeys_from_spec() -> bool {
        true
    }

    open spec fn from_spec(value: ProductionError<E>) -> Self {
        SecureProductionError::Production(value)
    }
}

impl<E, W, F> From<ProductionError<E>> for SecureProductionError<E, W, F> {
    fn from(value: ProductionError<E>) -> (error: Self) {
        SecureProductionError::Production(value)
    }
}

/// A result of the driver as the secure runtime reports it.
pub open spec fn secured<T, E, W, F>(outcome: Result<T, ProductionError<E>>) -> Result<
    T,
    SecureProductionError<E, W, F>,
> {
    match outcome {
        Ok(value) => Ok(value),
        Err(error) => Err(SecureProductionError::Production(error)),
    }
}

fn secure<T, E, W, F>(outcome: Result<T, ProductionError<E>>) -> (result: Result<
    T,
    SecureProductionError<E, W, F>,
>)
    ensures
        result == secured::<T, E, W, F>(outcome),
{
    match outcome {
        Ok(value) => Ok(value),
        Err(error) => Err(SecureProductionError::Production(error)),
    }
}

/// Ends the reception of one packet. What the session made of an EAPOL
/// frame is `progress`; the frame is wiped from the buffer whatever that
/// is.
pub fn finish_received_packet<P, E, W, F>(
    frame: ReceivedFrame,
    output: &mut [u8],
    progress: Option<Result<P, W>>,
) -> (result: Result<SecureReceive<P>, SecureProductionError<E, W, F>>)
    requires
        frame.ether_type == EAPOL_ETHERTYPE <==> progress is Some,
        frame.ether_type == EAPOL_ETHERTYPE ==> frame.len <= old(output)@.len(),
    ensures
        match progress {
            None => {
                &&& result == Ok::<_, SecureProductionError<E, W, F>>(
                    SecureReceive::<P>::Data(frame),
                )
                &&& final(output)@ == old(output)@
            },
            Some(progress) => {
                &&& result == (match progress {
                    Ok(progress) => Ok::<_, SecureProductionError<E, W, F>>(
                        SecureReceive::Eapol(progress),
                    ),
                    Err(error) => Err::<_, SecureProductionError<E, W, F>>(
                        SecureProductionError::Wpa2(error),
                    ),
                })
                &&& final(output)@ == Seq::new(frame.len as nat, |i: int| 0u8) + old(
                    output,
                )@.skip(frame.len as int)
            },
        },
{
    match progress {
        None => Ok(SecureReceive::Data(frame)),
        Some(progress) => {
            wipe(output, frame.len);
            match progress {
                Ok(progress) => Ok(SecureReceive::Eapol(progress)),
                Err(error) => Err(SecureProductionError::Wpa2(error)),
            }
        },
    }
}

/// Integrated fail-closed WPA2-Personal station runtime.
pub struct Wpa2StationDriver<B, S, const RX: usize, const TX: usize> {
    pub driver: MissionCriticalDriver<B, RX, TX>,
    pub security: S,
}

impl<B, S, const RX: usize, const TX: usize> Wpa2StationDriver<B, S, RX, TX> {
    /// Joins one fail-closed driver and one configured session.
    pub fn new(driver: MissionCriticalDriver<B, RX, TX>, security: S) -> (secure: Self)
        ensures
            secure.driver == driver,
            secure.security == security,
    {
        Wpa2StationDriver { driver, security }
    }

    /// Returns the driver lifecycle state.
    pub fn state(&self) -> (state: DriverState)
        ensures
            state == self.driver.native().state,
    {
        self.driver.state()
    }

    /// Returns the fail-closed driver API.
    pub fn driver(&self) -> (driver: &MissionCriticalDriver<B, RX, TX>)
        ensures
            *driver == self.driver,
    {
        &self.driver
    }

    /// Returns the fail-closed driver API for safe high-level commands.
    pub fn driver_mut(&mut self) -> (driver: &mut MissionCriticalDriver<B, RX, TX>)
        ensures
            *driver == old(self).driver,
            final(self).driver == *final(driver),
            final(self).security == old(self).security,
    {
        &mut self.driver
    }

    /// Consumes the WPA2 coordinator and returns the fail-closed driver.
    pub fn into_driver(self) -> (driver: MissionCriticalDriver<B, RX, TX>)
        ensures
            driver == self.driver,
    {
        self.driver
    }

    /// Advances the deadlines of the station. Those of the session follow only
    /// where this succeeds.
    pub fn advance_time<E, W, F>(&mut self, elapsed_ms: u32) -> (result: Result<
        (),
        SecureProductionError<E, W, F>,
    >)
        ensures
            old(self).driver.wf() ==> final(self).driver.wf(),
            final(self).security == old(self).security,
            ({
                let (station, fault) = old(self).driver.native().station.time_outcome(elapsed_ms);
                let moved = old(self).driver.native().with_station(station);
                match fault {
                    None => {
                        &&& result == Ok::<(), SecureProductionError<E, W, F>>(())
                        &&& final(self).driver.native() == moved
                    },
                    Some(fault) => {
                        &&& result == Err::<(), SecureProductionError<E, W, F>>(
                            SecureProductionError::Production(
                                ProductionError::Driver(
                                    DriverError::Station(StationError::Fault(fault)),
                                ),
                            ),
                        )
                        &&& final(self).driver.native() == moved.recovering()
                    },
                }
            }),
    {
        let outcome: Result<(), ProductionError<E>> = self.driver.advance_time(elapsed_ms);
        secure(outcome)
    }

    /// Starts to poll one firmware event.
    pub fn poll_event<E, W, F>(&mut self, capacity: usize, scratch_address: usize) -> (result:
        Result<EventRead, SecureProductionError<E, W, F>>)
        requires
            old(self).driver.wf(),
        ensures
            final(self).driver.wf(),
            final(self).security == old(self).security,
            result matches Ok(read) ==> read.wf() && read.capacity == capacity,
            exists|
                driver: &mut MissionCriticalDriver<B, RX, TX>,
                started: Result<EventRead, ProductionError<E>>,
            |
                {
                    &&& *driver == old(self).driver
                    &&& *final(driver) == final(self).driver
                    &&& #[trigger] call_ensures(
                        MissionCriticalDriver::<B, RX, TX>::poll_event::<E>,
                        (driver, capacity, scratch_address),
                        started,
                    )
                    &&& result == secured::<EventRead, E, W, F>(started)
                },
    {
        let started: Result<EventRead, ProductionError<E>> = self.driver.poll_event(
            capacity,
            scratch_address,
        );
        secure(started)
    }

    /// Dispatches a polled event and says where it goes in the session.
    pub fn finish_poll<'a, E, W, F>(
        &mut self,
        state: Wpa2RuntimeState,
        scratch: &'a [u8],
        len: usize,
    ) -> (result: Result<SecureDriverEvent<'a, SecurityRoute>, SecureProductionError<E, W, F>>)
        requires
            len <= scratch@.len(),
        ensures
            old(self).driver.wf() ==> final(self).driver.wf(),
            final(self).security == old(self).security,
            exists|
                driver: &mut MissionCriticalDriver<B, RX, TX>,
                event: Result<DriverEvent<'a>, ProductionError<E>>,
            |
                {
                    &&& *driver == old(self).driver
                    &&& *final(driver) == final(self).driver
                    &&& #[trigger] call_ensures(
                        MissionCriticalDriver::<B, RX, TX>::finish_poll::<E>,
                        (driver, scratch, len),
                        event,
                    )
                    &&& result == (match event {
                        Ok(event) => Ok::<_, SecureProductionError<E, W, F>>(
                            SecureDriverEvent { event, security: route_of(state, event) },
                        ),
                        Err(error) => Err::<_, SecureProductionError<E, W, F>>(
                            SecureProductionError::Production(error),
                        ),
                    })
                },
    {
        let event: Result<DriverEvent<'a>, ProductionError<E>> = self.driver.finish_poll(
            scratch,
            len,
        );
        match event {
            Ok(event) => Ok(SecureDriverEvent { event, security: security_route(state, event) }),
            Err(error) => Err(SecureProductionError::Production(error)),
        }
    }

    /// Starts to read one packet.
    pub fn receive_packet<E, W, F>(
        &mut self,
        event: &RxEventRef<'_>,
        packet_index: usize,
        output_len: usize,
    ) -> (result: Result<ReceiveStart<E>, SecureProductionError<E, W, F>>)
        requires
            old(self).driver.wf(),
            event.wf(),
        ensures
            final(self).driver.wf(),
            final(self).security == old(self).security,
            exists|
                driver: &mut MissionCriticalDriver<B, RX, TX>,
                started: Result<ReceiveStart<E>, ProductionError<E>>,
            |
                {
                    &&& *driver == old(self).driver
                    &&& *final(driver) == final(self).driver
                    &&& #[trigger] call_ensures(
                        MissionCriticalDriver::<B, RX, TX>::receive_packet::<E>,
                        (driver, event, packet_index, output_len),
                        started,
                    )
                    &&& result == secured::<ReceiveStart<E>, E, W, F>(started)
                },
    {
        let started: Result<ReceiveStart<E>, ProductionError<E>> = self.driver.receive_packet(
            event,
            packet_index,
            output_len,
        );
        secure(started)
    }

    /// Starts to send one normal Ethernet frame through the authorized port.
    pub fn transmit<E, W, F>(&mut self, wdev_id: u8, frame: &[u8], dscp_tos: u16) -> (result:
        Result<Transmit, SecureProductionError<E, W, F>>)
        requires
            old(self).driver.wf(),
        ensures
            final(self).driver.wf(),
            final(self).security == old(self).security,
            result matches Ok(transmit) ==> final(self).driver.native().data.transmit_wf(transmit),
            exists|
                driver: &mut MissionCriticalDriver<B, RX, TX>,
                started: Result<Transmit, ProductionError<E>>,
            |
                {
                    &&& *driver == old(self).driver
                    &&& *final(driver) == final(self).driver
                    &&& #[trigger] call_ensures(
                        MissionCriticalDriver::<B, RX, TX>::transmit::<E>,
                        (driver, wdev_id, frame, dscp_tos),
                        started,
                    )
                    &&& result == secured::<Transmit, E, W, F>(started)
                },
    {
        let started: Result<Transmit, ProductionError<E>> = self.driver.transmit(
            wdev_id,
            frame,
            dscp_tos,
        );
        secure(started)
    }
}

/// A session hears only of the events that its phase waits for, and of the
/// carrier: a phase that waits for nothing ignores every control and transmit
/// event.
pub proof fn law_unawaited_events_are_ignored(state: Wpa2RuntimeState, event: DriverEvent<'_>)
    requires
        awaited_command(state) is None,
        !(state is AwaitingEapolTransmit),
        !(event is Data),
    ensures
        route_of(state, event) == SecurityRoute::Ignored,
{
}

/// A command status reaches the session exactly when it answers the command that the
/// session waits for: new keys with code 6, default keys with code 8, the
/// authorization of the station with code 21.
pub proof fn law_awaited_status_is_routed(
    state: Wpa2RuntimeState,
    header: crate::protocol::UmacHeader,
    command: u32,
    status: u32,
)
    ensures
        ({
            let event = DriverEvent::Control(
                ControlEvent::CommandStatus { header, command, status },
            );
            let routed = route_of(state, event) == SecurityRoute::ControlStatus;
            &&& state is AwaitingPairwiseKeyStatus || state is AwaitingGroupKeyStatus
                || state is AwaitingGroupRekeyStatus ==> (routed <==> command == 6)
            &&& state is AwaitingDefaultGroupKeyStatus || state is AwaitingDefaultGroupRekeyStatus
                ==> (routed <==> command == 8)
            &&& state is AwaitingAuthorizationStatus ==> (routed <==> command == 21)
            &&& state is AwaitingAuthenticator || state is AwaitingEapolTransmit || state is Failed
                ==> !routed
            &&& !routed ==> route_of(state, event) == SecurityRoute::Ignored
        }),
{
}

/// A completed transmission reaches the session exactly when it is the one the
/// session waits for, and carrier changes always do.
pub proof fn law_awaited_transmissions_are_routed(
    state: Wpa2RuntimeState,
    done: TxDoneEventRef<'_>,
    data: crate::data::DataEvent,
    payload: &[u8],
)
    ensures
        route_of(state, DriverEvent::TransmitDone(done)) == (
        if state matches Wpa2RuntimeState::AwaitingEapolTransmit { token, .. } && token
            == done.token {
            SecurityRoute::TransmitDone
        } else {
            SecurityRoute::Ignored
        }),
        route_of(state, DriverEvent::Data(data)) == SecurityRoute::Carrier,
        route_of(state, DriverEvent::Supplicant(payload)) == SecurityRoute::Ignored,
{
}

/// A secure driver passes results of the driver below it on unchanged.
pub proof fn law_production_results_are_passed_on<T, E, W, F>(
    outcome: Result<T, ProductionError<E>>,
)
    ensures
        outcome matches Ok(value) ==> secured::<T, E, W, F>(outcome) == Ok::<
            T,
            SecureProductionError<E, W, F>,
        >(value),
        outcome matches Err(error) ==> secured::<T, E, W, F>(outcome) == Err::<
            T,
            SecureProductionError<E, W, F>,
        >(SecureProductionError::Production(error)),
{
}

} // verus!
