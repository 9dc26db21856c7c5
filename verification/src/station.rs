//! Fail-closed station connection state machine.
//!
//! A command method checks the state, encodes its command and starts the
//! delivery. Once the embedding program has delivered it, the change of state
//! that the command stands for is applied with
//! [`StationController::delivered`].

use vstd::prelude::*;

use crate::bridge;
use crate::codec;
use crate::control;
use crate::control::{
    AssociationRequest, AuthenticationRequest, ControlEvent, KeyConfig, KeyType, MlmeEvent,
    PowerSaveState, MAX_STATION_MESSAGE_LEN,
};
use crate::data::DataEvent;
use crate::device;
use crate::device::{CommandSend, Device, DeviceError};
use crate::protocol;
use crate::protocol::{
    InterfaceType, ProtocolError, ScanReason, ScanRequest, UmacCommand, UmacEvent, UmacHeader,
};

verus! {

broadcast use crate::codec::group_image_lengths;

/// The frame of an MLME event is valid.
pub const MLME_FRAME_VALID: u32 = 1;

/// The MLME exchange timed out.
pub const MLME_TIMED_OUT: u32 = 1;

/// The wireless device identifier of a header is valid.
pub const ID_WDEV_VALID: u32 = 1;

/// The interface index of a header is valid.
pub const ID_IFACE_VALID: u32 = 2;

/// Station lifecycle state.
#[derive(Clone, Copy, Debug, PartialEq, Eq, Structural)]
pub enum StationState {
    Down,
    InterfaceCreatePending,
    Idle,
    RegulatoryPending,
    InterfaceUpPending,
    Scanning,
    ScanComplete,
    ReadingScanResults,
    Authenticating,
    Authenticated,
    Associating,
    Securing,
    Authorizing,
    AwaitingCarrier,
    Connected,
    PowerSavePending,
    Disconnecting,
    InterfaceDownPending,
    Recovering,
    Fault,
}

/// Bounded station-state deadlines in milliseconds.
#[derive(Clone, Copy, Debug, PartialEq, Eq, Structural)]
pub struct StationTimeouts {
    pub regulatory_ms: u32,
    pub interface_ms: u32,
    pub scan_ms: u32,
    pub scan_complete_ms: u32,
    pub scan_results_ms: u32,
    pub authentication_ms: u32,
    pub authenticated_ms: u32,
    pub association_ms: u32,
    pub key_exchange_ms: u32,
    pub authorization_ms: u32,
    pub carrier_ms: u32,
    pub power_save_ms: u32,
    pub disconnect_ms: u32,
}

/// Conservative production defaults. Association is given longer than the
/// other exchanges: some access points defer it while they expire a previous
/// session.
pub open spec fn default_station_timeouts() -> StationTimeouts {
    StationTimeouts {
        regulatory_ms: 5_000,
        interface_ms: 5_000,
        scan_ms: 30_000,
        scan_complete_ms: 10_000,
        scan_results_ms: 10_000,
        authentication_ms: 5_000,
        authenticated_ms: 10_000,
        association_ms: 20_000,
        key_exchange_ms: 10_000,
        authorization_ms: 5_000,
        carrier_ms: 5_000,
        power_save_ms: 5_000,
        disconnect_ms: 5_000,
    }
}

impl Default for StationTimeouts {
    fn default() -> (timeouts: Self)
        ensures
            timeouts == default_station_timeouts(),
    {
        StationTimeouts {
            regulatory_ms: 5_000,
            interface_ms: 5_000,
            scan_ms: 30_000,
            scan_complete_ms: 10_000,
            scan_results_ms: 10_000,
            authentication_ms: 5_000,
            authenticated_ms: 10_000,
            association_ms: 20_000,
            key_exchange_ms: 10_000,
            authorization_ms: 5_000,
            carrier_ms: 5_000,
            power_save_ms: 5_000,
            disconnect_ms: 5_000,
        }
    }
}

/// The configured deadline of a state; states that wait for nothing have
/// none.
pub open spec fn configured_timeout(timeouts: StationTimeouts, state: StationState) -> Option<u32> {
    match state {
        StationState::Down => None,
        StationState::InterfaceCreatePending => Some(timeouts.interface_ms),
        StationState::Idle => None,
        StationState::RegulatoryPending => Some(timeouts.regulatory_ms),
        StationState::InterfaceUpPending => Some(timeouts.interface_ms),
        StationState::Scanning => Some(timeouts.scan_ms),
        StationState::ScanComplete => Some(timeouts.scan_complete_ms),
        StationState::ReadingScanResults => Some(timeouts.scan_results_ms),
        StationState::Authenticating => Some(timeouts.authentication_ms),
        StationState::Authenticated => Some(timeouts.authenticated_ms),
        StationState::Associating => Some(timeouts.association_ms),
        StationState::Securing => Some(timeouts.key_exchange_ms),
        StationState::Authorizing => Some(timeouts.authorization_ms),
        StationState::AwaitingCarrier => Some(timeouts.carrier_ms),
        StationState::Connected => None,
        StationState::PowerSavePending => Some(timeouts.power_save_ms),
        StationState::Disconnecting => Some(timeouts.disconnect_ms),
        StationState::InterfaceDownPending => Some(timeouts.interface_ms),
        StationState::Recovering => None,
        StationState::Fault => None,
    }
}

/// The deadline of a state: at least one millisecond.
pub open spec fn timeout_of(timeouts: StationTimeouts, state: StationState) -> Option<u32> {
    match configured_timeout(timeouts, state) {
        Some(value) => Some(
            if value == 0 {
                1
            } else {
                value
            },
        ),
        None => None,
    }
}

/// Last fail-closed station fault.
#[derive(Clone, Copy, Debug, PartialEq, Eq, Structural)]
pub enum StationFault {
    CommandRejected { command: u32, status: u32 },
    AuthenticationFailed(u16),
    AssociationFailed(u16),
    MlmeTimeout,
    PeerMismatch,
    InterfaceMismatch {
        valid_ids: u32,
        expected_ifaceindex: i32,
        actual_ifaceindex: i32,
        expected_wdev_id: u64,
        actual_wdev_id: u64,
    },
    UnexpectedEvent,
    CarrierLost,
    Timeout(StationState),
}

/// Station operation failure.
#[derive(Debug)]
pub enum StationError<E> {
    Device(DeviceError<E>),
    Protocol(ProtocolError),
    InvalidState { current: StationState, required: StationState },
    InterfaceAlreadyCreated,
    InterfaceNotCreated,
    Fault(StationFault),
}

impl<E> vstd::std_specs::convert::FromSpecImpl<DeviceError<E>> for StationError<E> {
    open spec fn obeys_from_spec() -> bool {
        true
    }

    open spec fn from_spec(value: DeviceError<E>) -> Self {
        StationError::Device(value)
    }
}

impl<E> From<DeviceError<E>> for StationError<E> {
    fn from(value: DeviceError<E>) -> (error: Self) {
        StationError::Device(value)
    }
}

impl<E> vstd::std_specs::convert::FromSpecImpl<ProtocolError> for StationError<E> {
    open spec fn obeys_from_spec() -> bool {
        true
    }

    open spec fn from_spec(value: ProtocolError) -> Self {
        StationError::Protocol(value)
    }
}

impl<E> From<ProtocolError> for StationError<E> {
    fn from(value: ProtocolError) -> (error: Self) {
        StationError::Protocol(value)
    }
}

/// What an event handler reports.
pub open spec fn reported<E>(fault: Option<StationFault>) -> Result<(), StationError<E>> {
    match fault {
        Some(fault) => Err(StationError::Fault(fault)),
        None => Ok(()),
    }
}

/// Allocation-free station command and event controller.
pub struct StationController {
    pub ifaceindex: i32,
    pub firmware_index: i8,
    pub wdev_id: u32,
    pub state: StationState,
    pub last_fault: Option<StationFault>,
    pub interface_created: bool,
    pub peer: Option<[u8; 6]>,
    pub secure_connection: bool,
    pub controlled_port_authorized: bool,
    pub carrier_on: bool,
    pub pending_command: Option<UmacCommand>,
    pub pending_return_state: Option<StationState>,
    pub timeouts: StationTimeouts,
    pub remaining_ms: Option<u32>,
    /// The last encoded command.
    pub command: [u8; MAX_STATION_MESSAGE_LEN],
}

/// What becomes of the state to return to.
#[derive(Clone, Copy, Debug, PartialEq, Eq, Structural)]
pub enum ReturnState {
    Keep,
    Clear,
    To(StationState),
}

/// The change of state that a delivered command brings.
#[derive(Clone, Copy, Debug, PartialEq, Eq)]
pub struct Commit {
    /// Command whose status is awaited.
    pub command: UmacCommand,
    /// State while it is awaited.
    pub state: StationState,
    /// State behind it.
    pub return_state: ReturnState,
    /// Peer that an authentication selects.
    pub peer: Option<[u8; 6]>,
    /// Whether an association is secured.
    pub secure: Option<bool>,
}

/// A started command: the data of its payload requests is the front of
/// [`StationController::command`].
#[derive(Clone, Copy, Debug, PartialEq, Eq)]
pub struct Submission {
    pub send: CommandSend,
    pub commit: Commit,
}

/// How an interface comes into being.
#[derive(Clone, Copy, Debug, PartialEq, Eq)]
pub enum InterfaceCreation {
    /// Firmware had created it.
    Claimed,
    /// It is created by a command.
    Submit(Submission),
}

impl StationController {
    /// Equal in everything but the encoded command.
    pub open spec fn same_link(self, other: StationController) -> bool {
        self == (StationController { command: self.command, ..other })
    }

    /// The controller in another state, with that state's deadline. The fault
    /// state takes carrier and authorization away.
    pub open spec fn moved(self, state: StationState) -> StationController {
        StationController {
            state,
            remaining_ms: timeout_of(self.timeouts, state),
            controlled_port_authorized: self.controlled_port_authorized && state
                != StationState::Fault,
            carrier_on: self.carrier_on && state != StationState::Fault,
            ..self
        }
    }

    /// The controller after a fault.
    pub open spec fn failed(self, fault: StationFault) -> StationController {
        (StationController {
            last_fault: Some(fault),
            pending_command: None,
            pending_return_state: None,
            ..self
        }).moved(StationState::Fault)
    }

    /// The controller without its link.
    pub open spec fn cleared(self) -> StationController {
        StationController {
            peer: None,
            secure_connection: false,
            controlled_port_authorized: false,
            carrier_on: false,
            ..self
        }
    }

    /// The controller with nothing awaited.
    pub open spec fn settled(self) -> StationController {
        StationController { pending_command: None, pending_return_state: None, ..self }
    }

    /// The controller once carrier and authorization are looked at: they never
    /// end a fault.
    pub open spec fn refreshed(self) -> StationController {
        if self.state != StationState::Fault && self.carrier_on
            && self.controlled_port_authorized {
            self.moved(StationState::Connected)
        } else {
            self
        }
    }

    /// A fault: the controller is failed and the fault is reported.
    pub open spec fn refused(self, fault: StationFault) -> (StationController, Option<
        StationFault,
    >) {
        (self.failed(fault), Some(fault))
    }

    /// Whether normal data traffic is authorized.
    pub open spec fn port_open(self) -> bool {
        self.state == StationState::Connected && self.controlled_port_authorized && self.carrier_on
    }

    /// Whether a host supplicant can process EAPOL traffic.
    pub open spec fn wants_eapol(self) -> bool {
        self.secure_connection && (self.state == StationState::Securing || self.state
            == StationState::Authorizing || self.state == StationState::AwaitingCarrier
            || self.state == StationState::Connected)
    }

    /// A deadline runs exactly in the states that have one.
    pub open spec fn deadline_set(self) -> bool {
        self.remaining_ms is Some <==> configured_timeout(self.timeouts, self.state) is Some
    }

    /// Whether the selected peer has this address.
    pub open spec fn peer_is(self, address: Seq<u8>) -> bool {
        self.peer matches Some(peer) && peer@ == address
    }

    /// Creates a controller for one firmware interface.
    pub fn new(ifaceindex: i32, firmware_index: i8, wdev_id: u32) -> (station: Self)
        ensures
            station.ifaceindex == ifaceindex,
            station.firmware_index == firmware_index,
            station.wdev_id == wdev_id,
            station.state == StationState::Down,
            station.last_fault is None,
            !station.interface_created,
            station.peer is None,
            !station.secure_connection,
            !station.controlled_port_authorized,
            !station.carrier_on,
            station.pending_command is None,
            station.pending_return_state is None,
            station.timeouts == default_station_timeouts(),
            station.remaining_ms is None,
            station.deadline_set(),
    {
        StationController {
            ifaceindex,
            firmware_index,
            wdev_id,
            state: StationState::Down,
            last_fault: None,
            interface_created: false,
            peer: None,
            secure_connection: false,
            controlled_port_authorized: false,
            carrier_on: false,
            pending_command: None,
            pending_return_state: None,
            timeouts: StationTimeouts::default(),
            remaining_ms: None,
            command: [0u8; MAX_STATION_MESSAGE_LEN],
        }
    }

    /// Returns the current station state.
    pub fn state(&self) -> (state: StationState)
        ensures
            state == self.state,
    {
        self.state
    }

    /// Returns true after firmware confirms interface creation.
    pub fn interface_created(&self) -> (created: bool)
        ensures
            created == self.interface_created,
    {
        self.interface_created
    }

    /// Returns true only when normal data traffic is authorized.
    pub fn controlled_port_open(&self) -> (open: bool)
        ensures
            open == self.port_open(),
    {
        self.state == StationState::Connected && self.controlled_port_authorized && self.carrier_on
    }

    /// The controller with other deadlines, the current one rearmed.
    pub open spec fn retimed(self, timeouts: StationTimeouts) -> StationController {
        StationController { timeouts, remaining_ms: timeout_of(timeouts, self.state), ..self }
    }

    /// Replaces the state deadlines and rearms the current pending state.
    pub fn set_timeouts(&mut self, timeouts: StationTimeouts)
        ensures
            *final(self) == old(self).retimed(timeouts),
    {
        self.timeouts = timeouts;
        self.remaining_ms = self.timeout_for(self.state);
    }

    /// Returns the remaining time for the current pending state.
    pub fn remaining_time_ms(&self) -> (remaining: Option<u32>)
        ensures
            remaining == self.remaining_ms,
    {
        self.remaining_ms
    }

    /// The outcome of an elapsed time.
    pub open spec fn time_outcome(self, elapsed_ms: u32) -> (StationController, Option<
        StationFault,
    >) {
        match self.remaining_ms {
            None => (self, None),
            Some(remaining) => if elapsed_ms < remaining {
                (
                    StationController {
                        remaining_ms: Some((remaining - elapsed_ms) as u32),
                        ..self
                    },
                    None,
                )
            } else {
                self.refused(StationFault::Timeout(self.state))
            },
        }
    }

    /// Advances the station deadlines.
    ///
    /// The caller must invoke this method from a monotonic timer path.
    pub fn advance_time(&mut self, elapsed_ms: u32) -> (result: Result<(), StationFault>)
        ensures
            ({
                let (next, fault) = old(self).time_outcome(elapsed_ms);
                &&& *final(self) == next
                &&& result == (match fault {
                    Some(fault) => Err::<(), StationFault>(fault),
                    None => Ok::<(), StationFault>(()),
                })
            }),
    {
        let remaining: u32 = match self.remaining_ms {
            Some(remaining) => remaining,
            None => return Ok(()),
        };
        if elapsed_ms < remaining {
            self.remaining_ms = Some(remaining - elapsed_ms);
            return Ok(());
        }
        let fault = StationFault::Timeout(self.state);
        self.last_fault = Some(fault);
        self.pending_command = None;
        self.pending_return_state = None;
        self.transition(StationState::Fault);
        Err(fault)
    }

    /// Returns the most recent fail-closed fault.
    pub fn last_fault(&self) -> (fault: Option<StationFault>)
        ensures
            fault == self.last_fault,
    {
        self.last_fault
    }

    /// Returns the selected peer address.
    pub fn peer(&self) -> (peer: Option<[u8; 6]>)
        ensures
            peer == self.peer,
    {
        self.peer
    }

    /// Returns true while a host supplicant can process EAPOL traffic.
    pub fn eapol_required(&self) -> (required: bool)
        ensures
            required == self.wants_eapol(),
    {
        self.secure_connection && (self.state == StationState::Securing || self.state
            == StationState::Authorizing || self.state == StationState::AwaitingCarrier
            || self.state == StationState::Connected)
    }

    /// The controller behind a group-key rekey: only an authorized secure link
    /// comes back.
    pub open spec fn rekeyed(self) -> StationController {
        if self.secure_connection && self.controlled_port_authorized {
            if self.carrier_on {
                self.moved(StationState::Connected)
            } else {
                self.moved(StationState::AwaitingCarrier)
            }
        } else {
            (StationController {
                last_fault: Some(StationFault::UnexpectedEvent),
                ..self
            }).moved(StationState::Fault)
        }
    }

    /// Restores connected state after a successful group-key rekey.
    pub fn complete_group_rekey(&mut self) -> (state: StationState)
        ensures
            *final(self) == old(self).rekeyed(),
            state == final(self).state,
    {
        let next_state = if self.secure_connection && self.controlled_port_authorized {
            if self.carrier_on {
                StationState::Connected
            } else {
                StationState::AwaitingCarrier
            }
        } else {
            self.last_fault = Some(StationFault::UnexpectedEvent);
            StationState::Fault
        };
        self.transition(next_state);
        self.state
    }

    /// The controller without anything that firmware owned.
    pub open spec fn detached(self) -> StationController {
        (StationController { interface_created: false, ..self }).cleared().settled()
    }

    /// Enters recovery and clears all firmware-owned interface state.
    pub fn begin_recovery(&mut self)
        ensures
            *final(self) == old(self).detached().moved(StationState::Recovering),
    {
        self.interface_created = false;
        self.clear_connection();
        self.pending_command = None;
        self.pending_return_state = None;
        self.transition(StationState::Recovering);
    }

    /// The controller behind a completed recovery.
    pub open spec fn recovered(self) -> StationController {
        (StationController { last_fault: None, ..self.detached() }).moved(StationState::Down)
    }

    /// Marks recovery complete after firmware and queues are initialized.
    pub fn recovery_complete(&mut self)
        ensures
            *final(self) == old(self).recovered(),
    {
        self.interface_created = false;
        self.clear_connection();
        self.pending_command = None;
        self.pending_return_state = None;
        self.last_fault = None;
        self.transition(StationState::Down);
    }

    /// Enters a state and starts its deadline. The fault state closes the port.
    pub fn transition(&mut self, state: StationState)
        ensures
            *final(self) == old(self).moved(state),
    {
        self.state = state;
        self.remaining_ms = self.timeout_for(state);
        if state == StationState::Fault {
            self.controlled_port_authorized = false;
            self.carrier_on = false;
        }
    }

    /// Returns the deadline of a state.
    pub fn timeout_for(&self, state: StationState) -> (timeout: Option<u32>)
        ensures
            timeout == timeout_of(self.timeouts, state),
    {
        let configured = match state {
            StationState::Down => None,
            StationState::InterfaceCreatePending => Some(self.timeouts.interface_ms),
            StationState::Idle => None,
            StationState::RegulatoryPending => Some(self.timeouts.regulatory_ms),
            StationState::InterfaceUpPending => Some(self.timeouts.interface_ms),
            StationState::Scanning => Some(self.timeouts.scan_ms),
            StationState::ScanComplete => Some(self.timeouts.scan_complete_ms),
            StationState::ReadingScanResults => Some(self.timeouts.scan_results_ms),
            StationState::Authenticating => Some(self.timeouts.authentication_ms),
            StationState::Authenticated => Some(self.timeouts.authenticated_ms),
            StationState::Associating => Some(self.timeouts.association_ms),
            StationState::Securing => Some(self.timeouts.key_exchange_ms),
            StationState::Authorizing => Some(self.timeouts.authorization_ms),
            StationState::AwaitingCarrier => Some(self.timeouts.carrier_ms),
            StationState::Connected => None,
            StationState::PowerSavePending => Some(self.timeouts.power_save_ms),
            StationState::Disconnecting => Some(self.timeouts.disconnect_ms),
            StationState::InterfaceDownPending => Some(self.timeouts.interface_ms),
            StationState::Recovering => None,
            StationState::Fault => None,
        };
        match configured {
            Some(value) => Some(
                if value == 0 {
                    1
                } else {
                    value
                },
            ),
            None => None,
        }
    }

    fn clear_connection(&mut self)
        ensures
            *final(self) == old(self).cleared(),
    {
        self.peer = None;
        self.secure_connection = false;
        self.controlled_port_authorized = false;
        self.carrier_on = false;
    }

    fn refresh_connected(&mut self)
        ensures
            *final(self) == old(self).refreshed(),
    {
        if self.state != StationState::Fault && self.carrier_on
            && self.controlled_port_authorized {
            self.transition(StationState::Connected);
        }
    }

    fn fail<T, E>(&mut self, fault: StationFault) -> (result: Result<T, StationError<E>>)
        ensures
            *final(self) == old(self).failed(fault),
            result == Err::<T, StationError<E>>(StationError::Fault(fault)),
    {
        self.last_fault = Some(fault);
        self.pending_command = None;
        self.pending_return_state = None;
        self.transition(StationState::Fault);
        Err(StationError::Fault(fault))
    }

    fn require<E>(&self, required: StationState) -> (result: Result<(), StationError<E>>)
        ensures
            result == (if self.state == required {
                Ok::<(), StationError<E>>(())
            } else {
                Err::<(), StationError<E>>(
                    StationError::InvalidState { current: self.state, required },
                )
            }),
    {
        if self.state == required {
            Ok(())
        } else {
            Err(StationError::InvalidState { current: self.state, required })
        }
    }

    /// Why a command is refused in the current state, if it is: the first
    /// allowed state is named.
    pub open spec fn state_fault<E>(self, allowed: Seq<StationState>) -> Option<StationError<E>> {
        if allowed.contains(self.state) {
            None
        } else {
            Some(StationError::InvalidState { current: self.state, required: allowed[0] })
        }
    }

    fn require_one_of<E>(&self, required: &[StationState]) -> (result: Result<(), StationError<E>>)
        requires
            required@.len() > 0,
        ensures
            match self.state_fault::<E>(required@) {
                Some(error) => result == Err::<(), StationError<E>>(error),
                None => result is Ok,
            },
    {
        let mut i: usize = 0;
        while i < required.len()
            invariant
                i <= required@.len(),
                forall|j: int| 0 <= j < i ==> required@[j] != self.state,
            decreases required@.len() - i,
        {
            if required[i] == self.state {
                assert(required@.contains(self.state));
                return Ok(());
            }
            i = i + 1;
        }
        Err(StationError::InvalidState { current: self.state, required: required[0] })
    }

    /// The controller once a command is delivered.
    pub open spec fn committed(self, commit: Commit) -> StationController {
        (StationController {
            pending_command: Some(commit.command),
            pending_return_state: match commit.return_state {
                ReturnState::Keep => self.pending_return_state,
                ReturnState::Clear => None,
                ReturnState::To(state) => Some(state),
            },
            peer: match commit.peer {
                Some(peer) => Some(peer),
                None => self.peer,
            },
            secure_connection: match commit.secure {
                Some(secure) => secure,
                None => self.secure_connection,
            },
            controlled_port_authorized: match commit.secure {
                Some(secure) => !secure,
                None => self.controlled_port_authorized,
            },
            ..self
        }).moved(commit.state)
    }

    /// Applies the change of state of a delivered command.
    pub fn delivered(&mut self, commit: Commit)
        ensures
            *final(self) == old(self).committed(commit),
    {
        self.pending_command = Some(commit.command);
        match commit.return_state {
            ReturnState::Keep => {},
            ReturnState::Clear => {
                self.pending_return_state = None;
            },
            ReturnState::To(state) => {
                self.pending_return_state = Some(state);
            },
        }
        if let Some(peer) = commit.peer {
            self.peer = Some(peer);
        }
        if let Some(secure) = commit.secure {
            self.secure_connection = secure;
            self.controlled_port_authorized = !secure;
        }
        self.transition(commit.state);
    }

    /// The outcome of encoding a command and starting its delivery.
    pub open spec fn submitted<B, E>(
        result: Result<Submission, StationError<E>>,
        before: StationController,
        after: StationController,
        device: Device<B>,
        message: Seq<u8>,
        fault: Option<ProtocolError>,
        commit: Commit,
    ) -> bool {
        &&& after.same_link(before)
        &&& match fault {
            Some(error) => {
                &&& after.command@ == before.command@
                &&& result == Err::<Submission, StationError<E>>(StationError::Protocol(error))
            },
            None => {
                &&& after.command@ == message + before.command@.skip(message.len() as int)
                &&& match device.waiting_delivery::<E>(
                    message,
                    device::DEFAULT_COMMAND_WAIT_ATTEMPTS,
                    device::DEFAULT_COMMAND_WAIT_DELAY_MS,
                ) {
                    Ok(send) => result == Ok::<Submission, StationError<E>>(
                        Submission { send, commit },
                    ),
                    Err(error) => result == Err::<Submission, StationError<E>>(
                        StationError::Device(error),
                    ),
                }
            },
        }
    }

    fn submit<B, E>(
        &self,
        device: &Device<B>,
        encoded: Result<usize, ProtocolError>,
        commit: Commit,
    ) -> (result: Result<Submission, StationError<E>>)
        requires
            device.wf(),
            encoded matches Ok(len) ==> len <= MAX_STATION_MESSAGE_LEN,
        ensures
            match encoded {
                Err(error) => result == Err::<Submission, StationError<E>>(
                    StationError::Protocol(error),
                ),
                Ok(len) => match device.waiting_delivery::<E>(
                    self.command@.subrange(0, len as int),
                    device::DEFAULT_COMMAND_WAIT_ATTEMPTS,
                    device::DEFAULT_COMMAND_WAIT_DELAY_MS,
                ) {
                    Ok(send) => result == Ok::<Submission, StationError<E>>(
                        Submission { send, commit },
                    ),
                    Err(error) => result == Err::<Submission, StationError<E>>(
                        StationError::Device(error),
                    ),
                },
            },
            result matches Ok(submission) ==> submission.send.wf() && submission.send.attempts > 0,
    {
        let len: usize = match encoded {
            Ok(len) => len,
            Err(error) => return Err(StationError::Protocol(error)),
        };
        let command: &[u8] = &self.command;
        match device.send_control_reliable(&command[0..len]) {
            Ok(send) => Ok(Submission { send, commit }),
            Err(error) => Err(StationError::Device(error)),
        }
    }
}

impl StationController {
    /// The outcome of [`StationController::create_interface`].
    pub open spec fn create_interface_started<B, E>(
        before: StationController,
        after: StationController,
        device: Device<B>,
        mac_address: [u8; 6],
        interface_name: &[u8],
        result: Result<InterfaceCreation, StationError<E>>,
    ) -> bool {
        if before.state != StationState::Down {
            &&& after == before
            &&& result == Err::<InterfaceCreation, StationError<E>>(
                StationError::InvalidState {
                    current: before.state,
                    required: StationState::Down,
                },
            )
        } else if before.interface_created {
            &&& after == before
            &&& result == Err::<InterfaceCreation, StationError<E>>(
                StationError::InterfaceAlreadyCreated,
            )
        } else if before.wdev_id == 0 {
            &&& after == before.claimed()
            &&& result == Ok::<InterfaceCreation, StationError<E>>(InterfaceCreation::Claimed)
        } else {
            Self::submitted::<B, E>(
                match result {
                    Ok(InterfaceCreation::Submit(submission)) => Ok(submission),
                    Ok(InterfaceCreation::Claimed) => arbitrary(),
                    Err(error) => Err(error),
                },
                before,
                after,
                device,
                protocol::umac_command(
                    UmacCommand::NewInterface,
                    protocol::wdev_ids(before.wdev_id),
                    protocol::new_interface_body(
                        InterfaceType::Station,
                        mac_address@,
                        interface_name@,
                    ),
                ),
                if interface_name@.len() > protocol::MAX_INTERFACE_NAME_LEN {
                    Some(ProtocolError::LimitExceeded)
                } else {
                    None
                },
                Commit {
                    command: UmacCommand::NewInterface,
                    state: StationState::InterfaceCreatePending,
                    return_state: ReturnState::Keep,
                    peer: None,
                    secure: None,
                },
            ) && !(result matches Ok(InterfaceCreation::Claimed))
        }
    }

    /// Starts to create the station interface; its creation event follows.
    ///
    /// Firmware creates the interface with identifier zero by itself: it is
    /// claimed without a command.
    pub fn create_interface<B, E>(
        &mut self,
        device: &Device<B>,
        mac_address: [u8; 6],
        interface_name: &[u8],
    ) -> (result: Result<InterfaceCreation, StationError<E>>)
        requires
            device.wf(),
        ensures
            result matches Ok(InterfaceCreation::Submit(submission)) ==> submission.send.wf()
                && submission.send.attempts > 0,
            Self::create_interface_started(
                *old(self),
                *final(self),
                *device,
                mac_address,
                interface_name,
                result,
            ),
    {
        self.require::<E>(StationState::Down)?;
        if self.interface_created {
            return Err(StationError::InterfaceAlreadyCreated);
        }
        if self.claim_firmware_default_interface() {
            return Ok(InterfaceCreation::Claimed);
        }
        let wdev_id: u32 = self.wdev_id;
        let ghost image = protocol::umac_command(
            UmacCommand::NewInterface,
            protocol::wdev_ids(wdev_id),
            protocol::new_interface_body(InterfaceType::Station, mac_address@, interface_name@),
        );
        let encoded = protocol::encode_new_interface(
            &mut self.command,
            wdev_id,
            InterfaceType::Station,
            mac_address,
            interface_name,
        );
        let commit = Commit {
            command: UmacCommand::NewInterface,
            state: StationState::InterfaceCreatePending,
            return_state: ReturnState::Keep,
            peer: None,
            secure: None,
        };
        assert(encoded matches Ok(len) ==> self.command@.subrange(0, len as int) =~= image);
        match self.submit::<B, E>(device, encoded, commit) {
            Ok(submission) => Ok(InterfaceCreation::Submit(submission)),
            Err(error) => Err(error),
        }
    }

    /// The controller that owns the interface firmware created.
    pub open spec fn claimed(self) -> StationController {
        (StationController { interface_created: true, ..self }).settled().moved(StationState::Down)
    }

    /// Claims the interface that firmware creates by itself, if this is it.
    pub fn claim_firmware_default_interface(&mut self) -> (claimed: bool)
        ensures
            claimed == (old(self).wdev_id == 0),
            *final(self) == (if claimed {
                old(self).claimed()
            } else {
                *old(self)
            }),
    {
        if self.wdev_id != 0 {
            return false;
        }
        self.interface_created = true;
        self.pending_command = None;
        self.pending_return_state = None;
        self.transition(StationState::Down);
        true
    }

    /// The outcome of [`StationController::set_regulatory`].
    pub open spec fn set_regulatory_started<B, E>(
        before: StationController,
        after: StationController,
        device: Device<B>,
        country: [u8; 2],
        user_hint_type: u32,
        force: bool,
        result: Result<Submission, StationError<E>>,
    ) -> bool {
        if !(before.state == StationState::Down || before.state == StationState::Idle) {
            &&& after == before
            &&& result == Err::<Submission, StationError<E>>(
                StationError::InvalidState {
                    current: before.state,
                    required: StationState::Down,
                },
            )
        } else {
            Self::submitted::<B, E>(
                result,
                before,
                after,
                device,
                control::station_command(
                    UmacCommand::RequestSetRegulatory,
                    None,
                    control::regulatory_body(country@, user_hint_type, force),
                ),
                if !control::regulatory_domain(country@) {
                    Some(ProtocolError::InvalidValue(codec::be16_at(country@, 0) as u32))
                } else {
                    None
                },
                Commit {
                    command: UmacCommand::RequestSetRegulatory,
                    state: StationState::RegulatoryPending,
                    return_state: ReturnState::To(before.state),
                    peer: None,
                    secure: None,
                },
            )
        }
    }

    /// Starts to request one regulatory country code.
    pub fn set_regulatory<B, E>(
        &mut self,
        device: &Device<B>,
        country: [u8; 2],
        user_hint_type: u32,
        force: bool,
    ) -> (result: Result<Submission, StationError<E>>)
        requires
            device.wf(),
        ensures
            result matches Ok(submission) ==> submission.send.wf() && submission.send.attempts > 0,
            Self::set_regulatory_started(
                *old(self),
                *final(self),
                *device,
                country,
                user_hint_type,
                force,
                result,
            ),
    {
        let allowed: [StationState; 2] = [StationState::Down, StationState::Idle];
        assert(allowed@[0] == StationState::Down);
        assert(allowed@[1] == StationState::Idle);
        self.require_one_of::<E>(&allowed)?;
        let wdev_id: u32 = self.wdev_id;
        let ghost image = control::station_command(
            UmacCommand::RequestSetRegulatory,
            None,
            control::regulatory_body(country@, user_hint_type, force),
        );
        let commit = Commit {
            command: UmacCommand::RequestSetRegulatory,
            state: StationState::RegulatoryPending,
            return_state: ReturnState::To(self.state),
            peer: None,
            secure: None,
        };
        let encoded = control::encode_set_regulatory(
            &mut self.command,
            wdev_id,
            country,
            user_hint_type,
            force,
        );
        assert(encoded matches Ok(len) ==> self.command@.subrange(0, len as int) =~= image);
        self.submit(device, encoded, commit)
    }

    /// The outcome of [`StationController::bring_up`].
    pub open spec fn bring_up_started<B, E>(
        before: StationController,
        after: StationController,
        device: Device<B>,
        result: Result<Submission, StationError<E>>,
    ) -> bool {
        if before.state != StationState::Down {
            &&& after == before
            &&& result == Err::<Submission, StationError<E>>(
                StationError::InvalidState {
                    current: before.state,
                    required: StationState::Down,
                },
            )
        } else if !before.interface_created {
            &&& after == before
            &&& result == Err::<Submission, StationError<E>>(StationError::InterfaceNotCreated)
        } else {
            Self::submitted::<B, E>(
                result,
                before,
                after,
                device,
                control::station_command(
                    UmacCommand::SetInterfaceFlags,
                    Some(before.wdev_id),
                    control::interface_state_body(true, before.firmware_index),
                ),
                None,
                Commit {
                    command: UmacCommand::SetInterfaceFlags,
                    state: StationState::InterfaceUpPending,
                    return_state: ReturnState::Keep,
                    peer: None,
                    secure: None,
                },
            )
        }
    }

    /// Starts to bring the firmware interface up.
    pub fn bring_up<B, E>(
        &mut self,
        device: &Device<B>,
    ) -> (result: Result<Submission, StationError<E>>)
        requires
            device.wf(),
        ensures
            result matches Ok(submission) ==> submission.send.wf() && submission.send.attempts > 0,
            Self::bring_up_started(
                *old(self),
                *final(self),
                *device,
                result,
            ),
    {
        self.require::<E>(StationState::Down)?;
        if !self.interface_created {
            return Err(StationError::InterfaceNotCreated);
        }
        let wdev_id: u32 = self.wdev_id;
        let ghost image = control::station_command(
            UmacCommand::SetInterfaceFlags,
            Some(self.wdev_id),
            control::interface_state_body(true, self.firmware_index),
        );
        let commit = Commit {
            command: UmacCommand::SetInterfaceFlags,
            state: StationState::InterfaceUpPending,
            return_state: ReturnState::Keep,
            peer: None,
            secure: None,
        };
        let encoded = control::encode_interface_state(
            &mut self.command,
            wdev_id,
            true,
            self.firmware_index,
        );
        assert(encoded matches Ok(len) ==> self.command@.subrange(0, len as int) =~= image);
        self.submit(device, encoded, commit)
    }

    /// The outcome of [`StationController::bring_down`].
    pub open spec fn bring_down_started<B, E>(
        before: StationController,
        after: StationController,
        device: Device<B>,
        result: Result<Submission, StationError<E>>,
    ) -> bool {
        if !(before.state == StationState::Idle
            || before.state == StationState::Connected
            || before.state == StationState::Fault) {
            &&& after == before
            &&& result == Err::<Submission, StationError<E>>(
                StationError::InvalidState {
                    current: before.state,
                    required: StationState::Idle,
                },
            )
        } else if !before.interface_created {
            &&& after == before
            &&& result == Err::<Submission, StationError<E>>(StationError::InterfaceNotCreated)
        } else {
            Self::submitted::<B, E>(
                result,
                before,
                after,
                device,
                control::station_command(
                    UmacCommand::SetInterfaceFlags,
                    Some(before.wdev_id),
                    control::interface_state_body(false, before.firmware_index),
                ),
                None,
                Commit {
                    command: UmacCommand::SetInterfaceFlags,
                    state: StationState::InterfaceDownPending,
                    return_state: ReturnState::Clear,
                    peer: None,
                    secure: None,
                },
            )
        }
    }

    /// Starts to bring the firmware interface down.
    pub fn bring_down<B, E>(
        &mut self,
        device: &Device<B>,
    ) -> (result: Result<Submission, StationError<E>>)
        requires
            device.wf(),
        ensures
            result matches Ok(submission) ==> submission.send.wf() && submission.send.attempts > 0,
            Self::bring_down_started(
                *old(self),
                *final(self),
                *device,
                result,
            ),
    {
        let allowed: [StationState; 3] = [
            StationState::Idle,
            StationState::Connected,
            StationState::Fault,
        ];
        assert(allowed@[0] == StationState::Idle);
        assert(allowed@[1] == StationState::Connected);
        assert(allowed@[2] == StationState::Fault);
        self.require_one_of::<E>(&allowed)?;
        if !self.interface_created {
            return Err(StationError::InterfaceNotCreated);
        }
        let wdev_id: u32 = self.wdev_id;
        let ghost image = control::station_command(
            UmacCommand::SetInterfaceFlags,
            Some(self.wdev_id),
            control::interface_state_body(false, self.firmware_index),
        );
        let commit = Commit {
            command: UmacCommand::SetInterfaceFlags,
            state: StationState::InterfaceDownPending,
            return_state: ReturnState::Clear,
            peer: None,
            secure: None,
        };
        let encoded = control::encode_interface_state(
            &mut self.command,
            wdev_id,
            false,
            self.firmware_index,
        );
        assert(encoded matches Ok(len) ==> self.command@.subrange(0, len as int) =~= image);
        self.submit(device, encoded, commit)
    }

    /// The outcome of [`StationController::start_scan`].
    pub open spec fn start_scan_started<B, E>(
        before: StationController,
        after: StationController,
        device: Device<B>,
        request: &ScanRequest<'_>,
        result: Result<Submission, StationError<E>>,
    ) -> bool {
        if before.state != StationState::Idle {
            &&& after == before
            &&& result == Err::<Submission, StationError<E>>(
                StationError::InvalidState {
                    current: before.state,
                    required: StationState::Idle,
                },
            )
        } else {
            Self::submitted::<B, E>(
                result,
                before,
                after,
                device,
                protocol::umac_command(
                    UmacCommand::TriggerScan,
                    protocol::wdev_ids(before.wdev_id),
                    request.body(),
                ),
                if !request.within_limits() {
                    Some(ProtocolError::LimitExceeded)
                } else {
                    protocol::umac_fault(
                        MAX_STATION_MESSAGE_LEN as nat,
                        (protocol::SCAN_FIXED_LEN + 4
                            * request.center_frequencies_mhz@.len()) as nat,
                    )
                },
                Commit {
                    command: UmacCommand::TriggerScan,
                    state: StationState::Scanning,
                    return_state: ReturnState::Keep,
                    peer: None,
                    secure: None,
                },
            )
        }
    }

    /// Starts one scan.
    pub fn start_scan<B, E>(
        &mut self,
        device: &Device<B>,
        request: &ScanRequest<'_>,
    ) -> (result: Result<Submission, StationError<E>>)
        requires
            device.wf(),
        ensures
            result matches Ok(submission) ==> submission.send.wf() && submission.send.attempts > 0,
            Self::start_scan_started(
                *old(self),
                *final(self),
                *device,
                request,
                result,
            ),
    {
        self.require::<E>(StationState::Idle)?;
        let wdev_id: u32 = self.wdev_id;
        let ghost image = protocol::umac_command(
            UmacCommand::TriggerScan,
            protocol::wdev_ids(self.wdev_id),
            request.body(),
        );
        let commit = Commit {
            command: UmacCommand::TriggerScan,
            state: StationState::Scanning,
            return_state: ReturnState::Keep,
            peer: None,
            secure: None,
        };
        let encoded = protocol::encode_scan(&mut self.command, wdev_id, request);
        assert(encoded matches Ok(len) ==> self.command@.subrange(0, len as int) =~= image);
        self.submit(device, encoded, commit)
    }

    /// The outcome of [`StationController::request_scan_results`].
    pub open spec fn request_scan_results_started<B, E>(
        before: StationController,
        after: StationController,
        device: Device<B>,
        reason: ScanReason,
        result: Result<Submission, StationError<E>>,
    ) -> bool {
        if before.state != StationState::ScanComplete {
            &&& after == before
            &&& result == Err::<Submission, StationError<E>>(
                StationError::InvalidState {
                    current: before.state,
                    required: StationState::ScanComplete,
                },
            )
        } else {
            Self::submitted::<B, E>(
                result,
                before,
                after,
                device,
                protocol::umac_command(
                    UmacCommand::GetScanResults,
                    protocol::wdev_ids(before.wdev_id),
                    codec::le32(reason.wire() as u32),
                ),
                None,
                Commit {
                    command: UmacCommand::GetScanResults,
                    state: StationState::ReadingScanResults,
                    return_state: ReturnState::Keep,
                    peer: None,
                    secure: None,
                },
            )
        }
    }

    /// Starts to request the result stream after a scan-done event.
    pub fn request_scan_results<B, E>(
        &mut self,
        device: &Device<B>,
        reason: ScanReason,
    ) -> (result: Result<Submission, StationError<E>>)
        requires
            device.wf(),
        ensures
            result matches Ok(submission) ==> submission.send.wf() && submission.send.attempts > 0,
            Self::request_scan_results_started(
                *old(self),
                *final(self),
                *device,
                reason,
                result,
            ),
    {
        self.require::<E>(StationState::ScanComplete)?;
        let wdev_id: u32 = self.wdev_id;
        let ghost image = protocol::umac_command(
            UmacCommand::GetScanResults,
            protocol::wdev_ids(self.wdev_id),
            codec::le32(reason.wire() as u32),
        );
        let commit = Commit {
            command: UmacCommand::GetScanResults,
            state: StationState::ReadingScanResults,
            return_state: ReturnState::Keep,
            peer: None,
            secure: None,
        };
        let encoded = protocol::encode_get_scan_results(&mut self.command, wdev_id, reason);
        assert(encoded matches Ok(len) ==> self.command@.subrange(0, len as int) =~= image);
        self.submit(device, encoded, commit)
    }

    /// The outcome of [`StationController::authenticate`].
    pub open spec fn authenticate_started<B, E>(
        before: StationController,
        after: StationController,
        device: Device<B>,
        request: &AuthenticationRequest<'_>,
        result: Result<Submission, StationError<E>>,
    ) -> bool {
        if before.state != StationState::Idle {
            &&& after == before
            &&& result == Err::<Submission, StationError<E>>(
                StationError::InvalidState {
                    current: before.state,
                    required: StationState::Idle,
                },
            )
        } else {
            Self::submitted::<B, E>(
                result,
                before,
                after,
                device,
                control::station_command(
                    UmacCommand::Authenticate,
                    Some(before.wdev_id),
                    request.body(),
                ),
                if !request.within_limits() {
                    Some(ProtocolError::LimitExceeded)
                } else {
                    None
                },
                Commit {
                    command: UmacCommand::Authenticate,
                    state: StationState::Authenticating,
                    return_state: ReturnState::Keep,
                    peer: Some(request.bssid),
                    secure: None,
                },
            )
        }
    }

    /// Starts to send an authentication request.
    pub fn authenticate<B, E>(
        &mut self,
        device: &Device<B>,
        request: &AuthenticationRequest<'_>,
    ) -> (result: Result<Submission, StationError<E>>)
        requires
            device.wf(),
        ensures
            result matches Ok(submission) ==> submission.send.wf() && submission.send.attempts > 0,
            Self::authenticate_started(
                *old(self),
                *final(self),
                *device,
                request,
                result,
            ),
    {
        self.require::<E>(StationState::Idle)?;
        let wdev_id: u32 = self.wdev_id;
        let ghost image = control::station_command(
            UmacCommand::Authenticate,
            Some(self.wdev_id),
            request.body(),
        );
        let commit = Commit {
            command: UmacCommand::Authenticate,
            state: StationState::Authenticating,
            return_state: ReturnState::Keep,
            peer: Some(request.bssid),
            secure: None,
        };
        let encoded = control::encode_authenticate(&mut self.command, wdev_id, request);
        assert(encoded matches Ok(len) ==> self.command@.subrange(0, len as int) =~= image);
        self.submit(device, encoded, commit)
    }

    /// The outcome of [`StationController::associate`].
    pub open spec fn associate_started<B, E>(
        before: StationController,
        after: StationController,
        device: Device<B>,
        request: &AssociationRequest<'_>,
        result: Result<Submission, StationError<E>>,
    ) -> bool {
        if before.state != StationState::Authenticated {
            &&& after == before
            &&& result == Err::<Submission, StationError<E>>(
                StationError::InvalidState {
                    current: before.state,
                    required: StationState::Authenticated,
                },
            )
        } else if !before.peer_is(request.bssid@) {
            &&& after == before.failed(StationFault::PeerMismatch)
            &&& result == Err::<Submission, StationError<E>>(
                StationError::Fault(StationFault::PeerMismatch),
            )
        } else {
            Self::submitted::<B, E>(
                result,
                before,
                after,
                device,
                control::station_command(
                    UmacCommand::Associate,
                    Some(before.wdev_id),
                    request.body(),
                ),
                if !request.within_limits() {
                    Some(ProtocolError::LimitExceeded)
                } else {
                    None
                },
                Commit {
                    command: UmacCommand::Associate,
                    state: StationState::Associating,
                    return_state: ReturnState::Keep,
                    peer: None,
                    secure: Some(request.security is Some),
                },
            )
        }
    }

    /// Starts to send an association request after authentication succeeds. A
    /// request for another peer than the authenticated one is a fault.
    pub fn associate<B, E>(
        &mut self,
        device: &Device<B>,
        request: &AssociationRequest<'_>,
    ) -> (result: Result<Submission, StationError<E>>)
        requires
            device.wf(),
        ensures
            result matches Ok(submission) ==> submission.send.wf() && submission.send.attempts > 0,
            Self::associate_started(
                *old(self),
                *final(self),
                *device,
                request,
                result,
            ),
    {
        self.require::<E>(StationState::Authenticated)?;
        if !self.is_peer(&request.bssid) {
            return self.fail(StationFault::PeerMismatch);
        }
        let wdev_id: u32 = self.wdev_id;
        let ghost image = control::station_command(
            UmacCommand::Associate,
            Some(self.wdev_id),
            request.body(),
        );
        let commit = Commit {
            command: UmacCommand::Associate,
            state: StationState::Associating,
            return_state: ReturnState::Keep,
            peer: None,
            secure: Some(request.security.is_some()),
        };
        let encoded = control::encode_associate(&mut self.command, wdev_id, request);
        assert(encoded matches Ok(len) ==> self.command@.subrange(0, len as int) =~= image);
        self.submit(device, encoded, commit)
    }

    /// The outcome of [`StationController::key_command`].
    pub open spec fn key_command_started<B, E>(
        before: StationController,
        after: StationController,
        device: Device<B>,
        command: UmacCommand,
        key: &KeyConfig<'_>,
        result: Result<Submission, StationError<E>>,
    ) -> bool {
        if !(before.state == StationState::Securing
            || before.state == StationState::Authorizing
            || before.state == StationState::Connected) {
            &&& after == before
            &&& result == Err::<Submission, StationError<E>>(
                StationError::InvalidState {
                    current: before.state,
                    required: StationState::Securing,
                },
            )
        } else if key.key_type != KeyType::Group && before.peer is None {
            &&& after == before
            &&& result == Err::<Submission, StationError<E>>(
                StationError::Fault(StationFault::PeerMismatch),
            )
        } else {
            Self::submitted::<B, E>(
                result,
                before,
                after,
                device,
                control::station_command(
                    command,
                    Some(before.wdev_id),
                    control::key_command_body(
                        if key.key_type == KeyType::Group {
                            None
                        } else {
                            before.peer
                        },
                        *key,
                    ),
                ),
                if !control::is_key_command(command) {
                    Some(ProtocolError::InvalidValue(command.wire()))
                } else if !key.within_limits() {
                    Some(ProtocolError::LimitExceeded)
                } else {
                    None
                },
                Commit {
                    command: command,
                    state: StationState::Securing,
                    return_state: ReturnState::Keep,
                    peer: None,
                    secure: None,
                },
            )
        }
    }

    /// Starts to add or remove a key: a group key needs no peer.
    pub fn key_command<B, E>(
        &mut self,
        device: &Device<B>,
        command: UmacCommand,
        key: &KeyConfig<'_>,
    ) -> (result: Result<Submission, StationError<E>>)
        requires
            device.wf(),
        ensures
            result matches Ok(submission) ==> submission.send.wf() && submission.send.attempts > 0,
            Self::key_command_started(
                *old(self),
                *final(self),
                *device,
                command,
                key,
                result,
            ),
    {
        let allowed: [StationState; 3] = [
            StationState::Securing,
            StationState::Authorizing,
            StationState::Connected,
        ];
        assert(allowed@[0] == StationState::Securing);
        assert(allowed@[1] == StationState::Authorizing);
        assert(allowed@[2] == StationState::Connected);
        self.require_one_of::<E>(&allowed)?;
        let peer: Option<[u8; 6]> = match key.key_type {
            KeyType::Group => None,
            _ => match self.peer {
                Some(peer) => Some(peer),
                None => return Err(StationError::Fault(StationFault::PeerMismatch)),
            },
        };
        let wdev_id: u32 = self.wdev_id;
        let ghost image = control::station_command(
            command,
            Some(self.wdev_id),
            control::key_command_body(
                if key.key_type == KeyType::Group {
                    None
                } else {
                    self.peer
                },
                *key,
            ),
        );
        let commit = Commit {
            command: command,
            state: StationState::Securing,
            return_state: ReturnState::Keep,
            peer: None,
            secure: None,
        };
        let encoded = control::encode_key_command(&mut self.command, wdev_id, command, peer, key);
        assert(encoded matches Ok(len) ==> self.command@.subrange(0, len as int) =~= image);
        self.submit(device, encoded, commit)
    }

    /// The outcome of [`StationController::set_key`].
    pub open spec fn set_key_started<B, E>(
        before: StationController,
        after: StationController,
        device: Device<B>,
        key: &KeyConfig<'_>,
        result: Result<Submission, StationError<E>>,
    ) -> bool {
        if before.state != StationState::Securing {
            &&& after == before
            &&& result == Err::<Submission, StationError<E>>(
                StationError::InvalidState {
                    current: before.state,
                    required: StationState::Securing,
                },
            )
        } else {
            Self::submitted::<B, E>(
                result,
                before,
                after,
                device,
                control::station_command(
                    UmacCommand::SetKey,
                    Some(before.wdev_id),
                    key.default_image(),
                ),
                if !key.within_limits() {
                    Some(ProtocolError::LimitExceeded)
                } else {
                    None
                },
                Commit {
                    command: UmacCommand::SetKey,
                    state: StationState::Securing,
                    return_state: ReturnState::Keep,
                    peer: None,
                    secure: None,
                },
            )
        }
    }

    /// Starts to select a key as default in firmware.
    pub fn set_key<B, E>(
        &mut self,
        device: &Device<B>,
        key: &KeyConfig<'_>,
    ) -> (result: Result<Submission, StationError<E>>)
        requires
            device.wf(),
        ensures
            result matches Ok(submission) ==> submission.send.wf() && submission.send.attempts > 0,
            Self::set_key_started(
                *old(self),
                *final(self),
                *device,
                key,
                result,
            ),
    {
        self.require::<E>(StationState::Securing)?;
        let wdev_id: u32 = self.wdev_id;
        let ghost image = control::station_command(
            UmacCommand::SetKey,
            Some(self.wdev_id),
            key.default_image(),
        );
        let commit = Commit {
            command: UmacCommand::SetKey,
            state: StationState::Securing,
            return_state: ReturnState::Keep,
            peer: None,
            secure: None,
        };
        let encoded = control::encode_set_key(&mut self.command, wdev_id, key);
        assert(encoded matches Ok(len) ==> self.command@.subrange(0, len as int) =~= image);
        self.submit(device, encoded, commit)
    }

    /// The outcome of [`StationController::authorize`].
    pub open spec fn authorize_started<B, E>(
        before: StationController,
        after: StationController,
        device: Device<B>,
        result: Result<Submission, StationError<E>>,
    ) -> bool {
        if before.state != StationState::Securing {
            &&& after == before
            &&& result == Err::<Submission, StationError<E>>(
                StationError::InvalidState {
                    current: before.state,
                    required: StationState::Securing,
                },
            )
        } else if before.peer is None {
            &&& after == before
            &&& result == Err::<Submission, StationError<E>>(
                StationError::Fault(StationFault::PeerMismatch),
            )
        } else {
            Self::submitted::<B, E>(
                result,
                before,
                after,
                device,
                control::station_command(
                    UmacCommand::SetStation,
                    Some(before.wdev_id),
                    control::station_authorized_body(before.peer->0@, true),
                ),
                None,
                Commit {
                    command: UmacCommand::SetStation,
                    state: StationState::Authorizing,
                    return_state: ReturnState::Keep,
                    peer: None,
                    secure: None,
                },
            )
        }
    }

    /// Starts to open the controlled port after all pairwise and group keys are
    /// installed.
    pub fn authorize<B, E>(
        &mut self,
        device: &Device<B>,
    ) -> (result: Result<Submission, StationError<E>>)
        requires
            device.wf(),
        ensures
            result matches Ok(submission) ==> submission.send.wf() && submission.send.attempts > 0,
            Self::authorize_started(
                *old(self),
                *final(self),
                *device,
                result,
            ),
    {
        self.require::<E>(StationState::Securing)?;
        let peer: [u8; 6] = match self.peer {
            Some(peer) => peer,
            None => return Err(StationError::Fault(StationFault::PeerMismatch)),
        };
        let wdev_id: u32 = self.wdev_id;
        let ghost image = control::station_command(
            UmacCommand::SetStation,
            Some(self.wdev_id),
            control::station_authorized_body(self.peer->0@, true),
        );
        let commit = Commit {
            command: UmacCommand::SetStation,
            state: StationState::Authorizing,
            return_state: ReturnState::Keep,
            peer: None,
            secure: None,
        };
        let encoded = control::encode_station_authorized(&mut self.command, wdev_id, peer, true);
        assert(encoded matches Ok(len) ==> self.command@.subrange(0, len as int) =~= image);
        self.submit(device, encoded, commit)
    }

    /// The outcome of [`StationController::set_power_save`].
    pub open spec fn set_power_save_started<B, E>(
        before: StationController,
        after: StationController,
        device: Device<B>,
        state: PowerSaveState,
        result: Result<Submission, StationError<E>>,
    ) -> bool {
        if !(before.state == StationState::Idle || before.state == StationState::Connected) {
            &&& after == before
            &&& result == Err::<Submission, StationError<E>>(
                StationError::InvalidState {
                    current: before.state,
                    required: StationState::Idle,
                },
            )
        } else {
            Self::submitted::<B, E>(
                result,
                before,
                after,
                device,
                control::station_command(
                    UmacCommand::SetPowerSave,
                    Some(before.wdev_id),
                    codec::le32(state.wire() as u32),
                ),
                None,
                Commit {
                    command: UmacCommand::SetPowerSave,
                    state: StationState::PowerSavePending,
                    return_state: ReturnState::To(before.state),
                    peer: None,
                    secure: None,
                },
            )
        }
    }

    /// Starts to enable or disable firmware power save.
    pub fn set_power_save<B, E>(
        &mut self,
        device: &Device<B>,
        state: PowerSaveState,
    ) -> (result: Result<Submission, StationError<E>>)
        requires
            device.wf(),
        ensures
            result matches Ok(submission) ==> submission.send.wf() && submission.send.attempts > 0,
            Self::set_power_save_started(
                *old(self),
                *final(self),
                *device,
                state,
                result,
            ),
    {
        let allowed: [StationState; 2] = [StationState::Idle, StationState::Connected];
        assert(allowed@[0] == StationState::Idle);
        assert(allowed@[1] == StationState::Connected);
        self.require_one_of::<E>(&allowed)?;
        let wdev_id: u32 = self.wdev_id;
        let ghost image = control::station_command(
            UmacCommand::SetPowerSave,
            Some(self.wdev_id),
            codec::le32(state.wire() as u32),
        );
        let commit = Commit {
            command: UmacCommand::SetPowerSave,
            state: StationState::PowerSavePending,
            return_state: ReturnState::To(self.state),
            peer: None,
            secure: None,
        };
        let encoded = control::encode_power_save(&mut self.command, wdev_id, state);
        assert(encoded matches Ok(len) ==> self.command@.subrange(0, len as int) =~= image);
        self.submit(device, encoded, commit)
    }

    /// The outcome of [`StationController::set_power_save_timeout`].
    pub open spec fn set_power_save_timeout_started<B, E>(
        before: StationController,
        after: StationController,
        device: Device<B>,
        timeout_ms: i32,
        result: Result<Submission, StationError<E>>,
    ) -> bool {
        if !(before.state == StationState::Idle || before.state == StationState::Connected) {
            &&& after == before
            &&& result == Err::<Submission, StationError<E>>(
                StationError::InvalidState {
                    current: before.state,
                    required: StationState::Idle,
                },
            )
        } else if timeout_ms < 0 {
            &&& after == before
            &&& result == Err::<Submission, StationError<E>>(
                StationError::Protocol(ProtocolError::InvalidValue(timeout_ms as u32)),
            )
        } else {
            Self::submitted::<B, E>(
                result,
                before,
                after,
                device,
                control::station_command(
                    UmacCommand::SetPowerSaveTimeout,
                    Some(before.wdev_id),
                    codec::le32(timeout_ms as u32),
                ),
                None,
                Commit {
                    command: UmacCommand::SetPowerSaveTimeout,
                    state: StationState::PowerSavePending,
                    return_state: ReturnState::To(before.state),
                    peer: None,
                    secure: None,
                },
            )
        }
    }

    /// Starts to change the firmware power-save timeout.
    ///
    /// Wait for its command-status event before a power-save state command is
    /// sent.
    pub fn set_power_save_timeout<B, E>(
        &mut self,
        device: &Device<B>,
        timeout_ms: i32,
    ) -> (result: Result<Submission, StationError<E>>)
        requires
            device.wf(),
        ensures
            result matches Ok(submission) ==> submission.send.wf() && submission.send.attempts > 0,
            Self::set_power_save_timeout_started(
                *old(self),
                *final(self),
                *device,
                timeout_ms,
                result,
            ),
    {
        let allowed: [StationState; 2] = [StationState::Idle, StationState::Connected];
        assert(allowed@[0] == StationState::Idle);
        assert(allowed@[1] == StationState::Connected);
        self.require_one_of::<E>(&allowed)?;
        if timeout_ms < 0 {
            return Err(StationError::Protocol(ProtocolError::InvalidValue(timeout_ms as u32)));
        }
        let wdev_id: u32 = self.wdev_id;
        let ghost image = control::station_command(
            UmacCommand::SetPowerSaveTimeout,
            Some(self.wdev_id),
            codec::le32(timeout_ms as u32),
        );
        let commit = Commit {
            command: UmacCommand::SetPowerSaveTimeout,
            state: StationState::PowerSavePending,
            return_state: ReturnState::To(self.state),
            peer: None,
            secure: None,
        };
        let encoded = control::encode_power_save_timeout(&mut self.command, wdev_id, timeout_ms);
        assert(encoded matches Ok(len) ==> self.command@.subrange(0, len as int) =~= image);
        self.submit(device, encoded, commit)
    }

    /// The outcome of [`StationController::disconnect`].
    pub open spec fn disconnect_started<B, E>(
        before: StationController,
        after: StationController,
        device: Device<B>,
        reason_code: u16,
        result: Result<Submission, StationError<E>>,
    ) -> bool {
        if !(before.state == StationState::Authenticated
            || before.state == StationState::Associating
            || before.state == StationState::Securing
            || before.state == StationState::Authorizing
            || before.state == StationState::AwaitingCarrier
            || before.state == StationState::Connected) {
            &&& after == before
            &&& result == Err::<Submission, StationError<E>>(
                StationError::InvalidState {
                    current: before.state,
                    required: StationState::Authenticated,
                },
            )
        } else if before.peer is None {
            &&& after == before
            &&& result == Err::<Submission, StationError<E>>(
                StationError::Fault(StationFault::PeerMismatch),
            )
        } else {
            Self::submitted::<B, E>(
                result,
                before,
                after,
                device,
                protocol::umac_command(
                    UmacCommand::Deauthenticate,
                    protocol::wdev_ids(before.wdev_id),
                    protocol::deauthenticate_body(before.peer->0@, reason_code, false),
                ),
                None,
                Commit {
                    command: UmacCommand::Deauthenticate,
                    state: StationState::Disconnecting,
                    return_state: ReturnState::Clear,
                    peer: None,
                    secure: None,
                },
            )
        }
    }

    /// Starts a deauthentication sequence.
    pub fn disconnect<B, E>(
        &mut self,
        device: &Device<B>,
        reason_code: u16,
    ) -> (result: Result<Submission, StationError<E>>)
        requires
            device.wf(),
        ensures
            result matches Ok(submission) ==> submission.send.wf() && submission.send.attempts > 0,
            Self::disconnect_started(
                *old(self),
                *final(self),
                *device,
                reason_code,
                result,
            ),
    {
        let allowed: [StationState; 6] = [
            StationState::Authenticated,
            StationState::Associating,
            StationState::Securing,
            StationState::Authorizing,
            StationState::AwaitingCarrier,
            StationState::Connected,
        ];
        assert(allowed@[0] == StationState::Authenticated);
        assert(allowed@[1] == StationState::Associating);
        assert(allowed@[2] == StationState::Securing);
        assert(allowed@[3] == StationState::Authorizing);
        assert(allowed@[4] == StationState::AwaitingCarrier);
        assert(allowed@[5] == StationState::Connected);
        self.require_one_of::<E>(&allowed)?;
        let peer: [u8; 6] = match self.peer {
            Some(peer) => peer,
            None => return Err(StationError::Fault(StationFault::PeerMismatch)),
        };
        let wdev_id: u32 = self.wdev_id;
        let ghost image = protocol::umac_command(
            UmacCommand::Deauthenticate,
            protocol::wdev_ids(self.wdev_id),
            protocol::deauthenticate_body(self.peer->0@, reason_code, false),
        );
        let commit = Commit {
            command: UmacCommand::Deauthenticate,
            state: StationState::Disconnecting,
            return_state: ReturnState::Clear,
            peer: None,
            secure: None,
        };
        let encoded = protocol::encode_deauthenticate(
            &mut self.command,
            wdev_id,
            peer,
            reason_code,
            false,
        );
        assert(encoded matches Ok(len) ==> self.command@.subrange(0, len as int) =~= image);
        self.submit(device, encoded, commit)
    }

    fn is_peer(&self, address: &[u8; 6]) -> (same: bool)
        ensures
            same == self.peer_is(address@),
    {
        match &self.peer {
            Some(peer) => bridge::same_mac(peer, address),
            None => false,
        }
    }
}

/// The header of a control event.
pub open spec fn header_of(event: ControlEvent<'_>) -> UmacHeader {
    match event {
        ControlEvent::ScanDone { header, .. } => header,
        ControlEvent::CommandStatus { header, .. } => header,
        ControlEvent::InterfaceState { header, .. } => header,
        ControlEvent::RegulatoryChange { header, .. } => header,
        ControlEvent::Other { header, .. } => header,
        ControlEvent::ScanResult(result) => result.header,
        ControlEvent::Authentication(mlme) => mlme.header,
        ControlEvent::Association(mlme) => mlme.header,
        ControlEvent::Deauthentication(mlme) => mlme.header,
        ControlEvent::Disassociation(mlme) => mlme.header,
    }
}

fn control_event_header(event: &ControlEvent<'_>) -> (header: UmacHeader)
    ensures
        header == header_of(*event),
{
    match event {
        ControlEvent::ScanDone { header, .. } => *header,
        ControlEvent::CommandStatus { header, .. } => *header,
        ControlEvent::InterfaceState { header, .. } => *header,
        ControlEvent::RegulatoryChange { header, .. } => *header,
        ControlEvent::Other { header, .. } => *header,
        ControlEvent::ScanResult(result) => result.header,
        ControlEvent::Authentication(mlme) => mlme.header,
        ControlEvent::Association(mlme) => mlme.header,
        ControlEvent::Deauthentication(mlme) => mlme.header,
        ControlEvent::Disassociation(mlme) => mlme.header,
    }
}

/// Events that report a status.
pub open spec fn is_status(event: ControlEvent<'_>) -> bool {
    event is CommandStatus || event is InterfaceState || event is RegulatoryChange || event is Other
}

/// Events of a scan.
pub open spec fn is_scan(event: ControlEvent<'_>) -> bool {
    event is ScanDone || event is ScanResult
}

/// The address at an offset of a valid management frame.
pub open spec fn frame_address(event: MlmeEvent<'_>, offset: int) -> Option<Seq<u8>> {
    if event.valid_fields & MLME_FRAME_VALID == 0 || offset + 6 > event.frame@.len() {
        None
    } else {
        Some(event.frame@.subrange(offset, offset + 6))
    }
}

/// Reads the address at an offset of a valid management frame.
pub fn mlme_frame_address(event: &MlmeEvent<'_>, offset: usize) -> (address: Option<[u8; 6]>)
    requires
        offset + 6 <= usize::MAX,
    ensures
        match address {
            Some(address) => frame_address(*event, offset as int) == Some(address@),
            None => frame_address(*event, offset as int) is None,
        },
{
    if event.valid_fields & MLME_FRAME_VALID == 0 {
        return None;
    }
    if offset + 6 > event.frame.len() {
        return None;
    }
    Some(bridge::mac_at(event.frame, offset))
}

/// The status of an MLME exchange: a timeout, the header's result, success
/// without a frame, or the status field of the frame.
pub open spec fn exchange_status(event: MlmeEvent<'_>, offset: int) -> Result<u16, StationFault> {
    if event.flags & MLME_TIMED_OUT != 0 {
        Err(StationFault::MlmeTimeout)
    } else if event.header.result != 0 {
        Ok(event.header.result as u16)
    } else if event.valid_fields & MLME_FRAME_VALID == 0 {
        Ok(0)
    } else if event.frame@.len() < offset + 2 {
        Err(StationFault::UnexpectedEvent)
    } else {
        Ok(codec::u16_at(event.frame@, offset))
    }
}

fn mlme_exchange_status(event: &MlmeEvent<'_>, status_offset: usize) -> (result: Result<
    u16,
    StationFault,
>)
    requires
        status_offset + 2 <= usize::MAX,
    ensures
        result == exchange_status(*event, status_offset as int),
{
    if event.flags & MLME_TIMED_OUT != 0 {
        return Err(StationFault::MlmeTimeout);
    }
    if event.header.result != 0 {
        return Ok(event.header.result as u16);
    }
    if event.valid_fields & MLME_FRAME_VALID == 0 {
        return Ok(0);
    }
    if event.frame.len() < status_offset + 2 {
        return Err(StationFault::UnexpectedEvent);
    }
    Ok(codec::read_u16(event.frame, status_offset))
}

/// Reads the status of an MLME exchange.
pub fn mlme_status<E>(event: &MlmeEvent<'_>, status_offset: usize) -> (result: Result<
    u16,
    StationError<E>,
>)
    requires
        status_offset + 2 <= usize::MAX,
    ensures
        result == (match exchange_status(*event, status_offset as int) {
            Ok(status) => Ok::<u16, StationError<E>>(status),
            Err(fault) => Err::<u16, StationError<E>>(StationError::Fault(fault)),
        }),
{
    match mlme_exchange_status(event, status_offset) {
        Ok(status) => Ok(status),
        Err(fault) => Err(StationError::Fault(fault)),
    }
}

impl StationController {
    /// The mismatch that a header shows, if it names another interface. Only
    /// identifiers marked valid count.
    pub open spec fn header_fault(self, header: UmacHeader) -> Option<StationFault> {
        if (header.valid_ids & ID_IFACE_VALID != 0 && header.ifaceindex != self.ifaceindex) || (
        header.valid_ids & ID_WDEV_VALID != 0 && header.wdev_id != self.wdev_id as u64) {
            Some(
                StationFault::InterfaceMismatch {
                    valid_ids: header.valid_ids,
                    expected_ifaceindex: self.ifaceindex,
                    actual_ifaceindex: header.ifaceindex,
                    expected_wdev_id: self.wdev_id as u64,
                    actual_wdev_id: header.wdev_id,
                },
            )
        } else {
            None
        }
    }

    /// Checks that a header does not name another interface.
    pub fn check_header<E>(&mut self, header: UmacHeader) -> (result: Result<(), StationError<E>>)
        ensures
            match old(self).header_fault(header) {
                Some(fault) => *final(self) == old(self).failed(fault) && result == Err::<
                    (),
                    StationError<E>,
                >(StationError::Fault(fault)),
                None => *final(self) == *old(self) && result is Ok,
            },
    {
        if (header.valid_ids & ID_IFACE_VALID != 0 && header.ifaceindex != self.ifaceindex) || (
        header.valid_ids & ID_WDEV_VALID != 0 && header.wdev_id != self.wdev_id as u64) {
            return self.fail(
                StationFault::InterfaceMismatch {
                    valid_ids: header.valid_ids,
                    expected_ifaceindex: self.ifaceindex,
                    actual_ifaceindex: header.ifaceindex,
                    expected_wdev_id: self.wdev_id as u64,
                    actual_wdev_id: header.wdev_id,
                },
            );
        }
        Ok(())
    }

    /// The outcome of an interface state event.
    pub open spec fn interface_outcome(self, status: i32) -> (StationController, Option<
        StationFault,
    >) {
        let done = StationController { pending_command: None, ..self };
        if status != 0 {
            self.refused(
                StationFault::CommandRejected {
                    command: UmacCommand::SetInterfaceFlags.wire(),
                    status: status as u32,
                },
            )
        } else if self.state == StationState::InterfaceUpPending {
            (done.moved(StationState::Idle), None)
        } else if self.state == StationState::InterfaceDownPending {
            (done.cleared().moved(StationState::Down), None)
        } else {
            self.refused(StationFault::UnexpectedEvent)
        }
    }

    /// Applies an interface state event.
    pub fn handle_interface_state<E>(&mut self, status: i32) -> (result: Result<
        (),
        StationError<E>,
    >)
        ensures
            *final(self) == old(self).interface_outcome(status).0,
            result == reported::<E>(old(self).interface_outcome(status).1),
    {
        if status != 0 {
            return self.fail(
                StationFault::CommandRejected {
                    command: UmacCommand::SetInterfaceFlags.code(),
                    status: status as u32,
                },
            );
        }
        match self.state {
            StationState::InterfaceUpPending => {
                self.pending_command = None;
                self.transition(StationState::Idle);
                Ok(())
            },
            StationState::InterfaceDownPending => {
                self.clear_connection();
                self.pending_command = None;
                self.transition(StationState::Down);
                Ok(())
            },
            _ => self.fail(StationFault::UnexpectedEvent),
        }
    }

    /// The outcome of a scan-done event.
    pub open spec fn scan_done_outcome(self, status: i32) -> (StationController, Option<
        StationFault,
    >) {
        if self.state != StationState::Scanning {
            self.refused(StationFault::UnexpectedEvent)
        } else if status != 0 {
            self.refused(
                StationFault::CommandRejected {
                    command: UmacCommand::TriggerScan.wire(),
                    status: status as u32,
                },
            )
        } else {
            (
                (StationController { pending_command: None, ..self }).moved(
                    StationState::ScanComplete,
                ),
                None,
            )
        }
    }

    /// Applies a scan-done event.
    pub fn handle_scan_done<E>(&mut self, status: i32) -> (result: Result<(), StationError<E>>)
        ensures
            *final(self) == old(self).scan_done_outcome(status).0,
            result == reported::<E>(old(self).scan_done_outcome(status).1),
    {
        if self.state != StationState::Scanning {
            return self.fail(StationFault::UnexpectedEvent);
        }
        self.pending_command = None;
        if status == 0 {
            self.transition(StationState::ScanComplete);
            Ok(())
        } else {
            self.fail(
                StationFault::CommandRejected {
                    command: UmacCommand::TriggerScan.code(),
                    status: status as u32,
                },
            )
        }
    }

    /// The outcome of a scan result: the one with sequence zero is the last,
    /// any other rearms the deadline.
    pub open spec fn scan_result_outcome(self, sequence: u32) -> (StationController, Option<
        StationFault,
    >) {
        if self.state != StationState::ReadingScanResults {
            self.refused(StationFault::UnexpectedEvent)
        } else if sequence == 0 {
            ((StationController { pending_command: None, ..self }).moved(StationState::Idle), None)
        } else {
            (self.moved(StationState::ReadingScanResults), None)
        }
    }

    /// Applies a scan result.
    pub fn handle_scan_result<E>(&mut self, sequence: u32) -> (result: Result<(), StationError<E>>)
        ensures
            *final(self) == old(self).scan_result_outcome(sequence).0,
            result == reported::<E>(old(self).scan_result_outcome(sequence).1),
    {
        if self.state != StationState::ReadingScanResults {
            return self.fail(StationFault::UnexpectedEvent);
        }
        if sequence == 0 {
            self.pending_command = None;
            self.transition(StationState::Idle);
        } else {
            self.transition(StationState::ReadingScanResults);
        }
        Ok(())
    }

    /// The outcome of the checks that both MLME responses share: the frame
    /// must come from the selected peer and report success in time.
    pub open spec fn exchange_outcome(
        self,
        event: MlmeEvent<'_>,
        address_offset: int,
        status_offset: int,
        rejected: spec_fn(u16) -> StationFault,
        accepted: StationController,
    ) -> (StationController, Option<StationFault>) {
        match frame_address(event, address_offset) {
            None => self.refused(StationFault::UnexpectedEvent),
            Some(address) => if !self.peer_is(address) {
                self.refused(StationFault::PeerMismatch)
            } else {
                match exchange_status(event, status_offset) {
                    Err(fault) => self.refused(fault),
                    Ok(status) => if status != 0 {
                        self.refused(rejected(status))
                    } else {
                        (accepted, None)
                    },
                }
            },
        }
    }

    /// The outcome of an authentication response.
    pub open spec fn authentication_outcome(self, event: MlmeEvent<'_>) -> (
        StationController,
        Option<StationFault>,
    ) {
        if self.state != StationState::Authenticating {
            self.refused(StationFault::UnexpectedEvent)
        } else {
            self.exchange_outcome(
                event,
                10,
                28,
                |status: u16| StationFault::AuthenticationFailed(status),
                (StationController { pending_command: None, ..self }).moved(
                    StationState::Authenticated,
                ),
            )
        }
    }

    /// Applies an authentication response.
    pub fn handle_authentication<E>(&mut self, event: MlmeEvent<'_>) -> (result: Result<
        (),
        StationError<E>,
    >)
        ensures
            *final(self) == old(self).authentication_outcome(event).0,
            result == reported::<E>(old(self).authentication_outcome(event).1),
    {
        if self.state != StationState::Authenticating {
            return self.fail(StationFault::UnexpectedEvent);
        }
        let peer = match mlme_frame_address(&event, 10) {
            Some(peer) => peer,
            None => return self.fail(StationFault::UnexpectedEvent),
        };
        if !self.is_peer(&peer) {
            return self.fail(StationFault::PeerMismatch);
        }
        let status: u16 = match mlme_exchange_status(&event, 28) {
            Ok(status) => status,
            Err(fault) => return self.fail(fault),
        };
        if status != 0 {
            return self.fail(StationFault::AuthenticationFailed(status));
        }
        self.pending_command = None;
        self.transition(StationState::Authenticated);
        Ok(())
    }

    /// The outcome of an association response.
    pub open spec fn association_outcome(self, event: MlmeEvent<'_>) -> (StationController, Option<
        StationFault,
    >) {
        if self.state != StationState::Associating {
            self.refused(StationFault::UnexpectedEvent)
        } else {
            self.exchange_outcome(
                event,
                16,
                26,
                |status: u16| StationFault::AssociationFailed(status),
                (StationController { pending_command: None, ..self }).moved(
                    if self.secure_connection {
                        StationState::Securing
                    } else {
                        StationState::AwaitingCarrier
                    },
                ).refreshed(),
            )
        }
    }

    /// Applies an association response.
    pub fn handle_association<E>(&mut self, event: MlmeEvent<'_>) -> (result: Result<
        (),
        StationError<E>,
    >)
        ensures
            *final(self) == old(self).association_outcome(event).0,
            result == reported::<E>(old(self).association_outcome(event).1),
    {
        if self.state != StationState::Associating {
            return self.fail(StationFault::UnexpectedEvent);
        }
        let peer = match mlme_frame_address(&event, 16) {
            Some(peer) => peer,
            None => return self.fail(StationFault::UnexpectedEvent),
        };
        if !self.is_peer(&peer) {
            return self.fail(StationFault::PeerMismatch);
        }
        let status: u16 = match mlme_exchange_status(&event, 26) {
            Ok(status) => status,
            Err(fault) => return self.fail(fault),
        };
        if status != 0 {
            return self.fail(StationFault::AssociationFailed(status));
        }
        self.pending_command = None;
        let next_state = if self.secure_connection {
            StationState::Securing
        } else {
            StationState::AwaitingCarrier
        };
        self.transition(next_state);
        self.refresh_connected();
        Ok(())
    }

    /// The outcome of a deauthentication or disassociation. Without a peer it
    /// changes nothing.
    pub open spec fn disconnect_outcome(self, event: MlmeEvent<'_>) -> (StationController, Option<
        StationFault,
    >) {
        if self.peer is None {
            (self, None)
        } else {
            match frame_address(event, 10) {
                None => self.refused(StationFault::UnexpectedEvent),
                Some(address) => if !self.peer_is(address) {
                    self.refused(StationFault::PeerMismatch)
                } else {
                    (self.cleared().settled().moved(StationState::Idle), None)
                },
            }
        }
    }

    /// Applies a deauthentication or disassociation.
    pub fn handle_disconnect_event<E>(&mut self, event: MlmeEvent<'_>) -> (result: Result<
        (),
        StationError<E>,
    >)
        ensures
            *final(self) == old(self).disconnect_outcome(event).0,
            result == reported::<E>(old(self).disconnect_outcome(event).1),
    {
        if self.peer.is_none() {
            return Ok(());
        }
        let peer = match mlme_frame_address(&event, 10) {
            Some(peer) => peer,
            None => return self.fail(StationFault::UnexpectedEvent),
        };
        if !self.is_peer(&peer) {
            return self.fail(StationFault::PeerMismatch);
        }
        self.clear_connection();
        self.pending_command = None;
        self.pending_return_state = None;
        self.transition(StationState::Idle);
        Ok(())
    }

    /// The controller behind a regulatory change: a pending request returns to
    /// where it came from.
    pub open spec fn regulated(self) -> StationController {
        if self.state == StationState::RegulatoryPending {
            self.settled().moved(
                match self.pending_return_state {
                    Some(state) => state,
                    None => StationState::Down,
                },
            )
        } else {
            self
        }
    }

    fn handle_regulatory_change<E>(&mut self) -> (result: Result<(), StationError<E>>)
        ensures
            *final(self) == old(self).regulated(),
            result == Ok::<(), StationError<E>>(()),
    {
        if self.state == StationState::RegulatoryPending {
            self.pending_command = None;
            let return_state = match self.pending_return_state {
                Some(state) => state,
                None => StationState::Down,
            };
            self.pending_return_state = None;
            self.transition(return_state);
        }
        Ok(())
    }

    /// The outcome of an interface creation event. One that repeats a
    /// confirmed creation changes nothing.
    pub open spec fn created_outcome(self, header: UmacHeader) -> (StationController, Option<
        StationFault,
    >) {
        if header.result != 0 {
            self.refused(
                StationFault::CommandRejected {
                    command: UmacCommand::NewInterface.wire(),
                    status: header.result as u32,
                },
            )
        } else if self.state == StationState::InterfaceCreatePending && self.pending_command
            == Some(UmacCommand::NewInterface) {
            (
                (StationController {
                    interface_created: true,
                    pending_command: None,
                    ..self
                }).moved(StationState::Down),
                None,
            )
        } else if self.interface_created && self.state == StationState::Down {
            (self, None)
        } else {
            self.refused(StationFault::UnexpectedEvent)
        }
    }

    /// Whether this command's status is awaited.
    pub open spec fn awaits(self, command: u32) -> bool {
        self.pending_command matches Some(pending) && pending.wire() == command
    }

    /// Applies an interface creation event.
    pub fn handle_interface_created<E>(&mut self, header: UmacHeader) -> (result: Result<
        (),
        StationError<E>,
    >)
        ensures
            *final(self) == old(self).created_outcome(header).0,
            result == reported::<E>(old(self).created_outcome(header).1),
    {
        if header.result != 0 {
            return self.fail(
                StationFault::CommandRejected {
                    command: UmacCommand::NewInterface.code(),
                    status: header.result as u32,
                },
            );
        }
        let awaited: bool = match self.pending_command {
            Some(command) => command == UmacCommand::NewInterface,
            None => false,
        };
        if self.state == StationState::InterfaceCreatePending && awaited {
            self.interface_created = true;
            self.pending_command = None;
            self.transition(StationState::Down);
            return Ok(());
        }
        if self.interface_created && self.state == StationState::Down {
            return Ok(());
        }
        self.fail(StationFault::UnexpectedEvent)
    }

    /// Whether a status belongs to the interface that firmware created by
    /// itself.
    pub open spec fn default_interface_status(self, command: u32) -> bool {
        command == UmacCommand::NewInterface.wire() && self.interface_created
            && self.pending_command is None
    }

    /// Returns whether a status belongs to the interface that firmware created
    /// by itself.
    pub fn is_default_interface_status(&self, command: u32) -> (own: bool)
        ensures
            own == self.default_interface_status(command),
    {
        command == UmacCommand::NewInterface.code() && self.interface_created
            && self.pending_command.is_none()
    }

    /// The controller once a command has succeeded: a key command keeps the
    /// link in key exchange, an authorization opens the port, a power-save
    /// command returns to where it came from.
    pub open spec fn succeeded(self, command: u32) -> StationController {
        if command == UmacCommand::NewKey.wire() || command == UmacCommand::DeleteKey.wire()
            || command == UmacCommand::SetKey.wire() {
            self.moved(StationState::Securing)
        } else if command == UmacCommand::SetStation.wire() && self.state
            == StationState::Authorizing {
            (StationController { controlled_port_authorized: true, ..self }).moved(
                StationState::AwaitingCarrier,
            ).refreshed()
        } else if (command == UmacCommand::SetPowerSave.wire() || command
            == UmacCommand::SetPowerSaveTimeout.wire()) && self.state
            == StationState::PowerSavePending {
            (StationController { pending_return_state: None, ..self }).moved(
                match self.pending_return_state {
                    Some(state) => state,
                    None => StationState::Fault,
                },
            )
        } else {
            self
        }
    }

    /// Applies the success of a command.
    pub fn apply_successful_command(&mut self, command: u32)
        ensures
            *final(self) == old(self).succeeded(command),
    {
        if command == UmacCommand::NewKey.code() || command == UmacCommand::DeleteKey.code()
            || command == UmacCommand::SetKey.code() {
            self.transition(StationState::Securing);
        } else if command == UmacCommand::SetStation.code() && self.state
            == StationState::Authorizing {
            self.controlled_port_authorized = true;
            self.transition(StationState::AwaitingCarrier);
            self.refresh_connected();
        } else if (command == UmacCommand::SetPowerSave.code() || command
            == UmacCommand::SetPowerSaveTimeout.code()) && self.state
            == StationState::PowerSavePending {
            let return_state = match self.pending_return_state {
                Some(state) => state,
                None => StationState::Fault,
            };
            self.pending_return_state = None;
            self.transition(return_state);
        }
    }

    /// The outcome of a command status. Only the awaited command may succeed;
    /// a creation is complete only with its event.
    pub open spec fn status_outcome(self, command: u32, status: u32) -> (StationController, Option<
        StationFault,
    >) {
        if self.default_interface_status(command) {
            if status == 0 {
                (self, None)
            } else {
                self.refused(StationFault::CommandRejected { command, status })
            }
        } else if !self.awaits(command) {
            self.refused(StationFault::UnexpectedEvent)
        } else if status != 0 {
            self.refused(StationFault::CommandRejected { command, status })
        } else if command == UmacCommand::NewInterface.wire() {
            (self, None)
        } else {
            ((StationController { pending_command: None, ..self }).succeeded(command), None)
        }
    }

    /// Applies a command status.
    pub fn handle_command_status<E>(&mut self, command: u32, status: u32) -> (result: Result<
        (),
        StationError<E>,
    >)
        ensures
            *final(self) == old(self).status_outcome(command, status).0,
            result == reported::<E>(old(self).status_outcome(command, status).1),
    {
        if self.is_default_interface_status(command) {
            return if status == 0 {
                Ok(())
            } else {
                self.fail(StationFault::CommandRejected { command, status })
            };
        }
        let awaited: bool = match self.pending_command {
            Some(pending) => pending.code() == command,
            None => false,
        };
        if !awaited {
            return self.fail(StationFault::UnexpectedEvent);
        }
        if status != 0 {
            return self.fail(StationFault::CommandRejected { command, status });
        }
        if command == UmacCommand::NewInterface.code() {
            return Ok(());
        }
        self.pending_command = None;
        self.apply_successful_command(command);
        Ok(())
    }

    /// The outcome of an event that should report a status.
    pub open spec fn status_event_outcome(self, event: ControlEvent<'_>) -> (
        StationController,
        Option<StationFault>,
    ) {
        match event {
            ControlEvent::Other { header, .. } => if header.command_event
                == UmacEvent::NewInterface.wire() {
                self.created_outcome(header)
            } else {
                (self, None)
            },
            ControlEvent::CommandStatus { command, status, .. } => self.status_outcome(
                command,
                status,
            ),
            ControlEvent::InterfaceState { status, .. } => self.interface_outcome(status),
            ControlEvent::RegulatoryChange { .. } => (self.regulated(), None),
            _ => self.refused(StationFault::UnexpectedEvent),
        }
    }

    /// Applies an event that should report a status.
    pub fn handle_status_control_event<E>(&mut self, event: ControlEvent<'_>) -> (result: Result<
        (),
        StationError<E>,
    >)
        ensures
            *final(self) == old(self).status_event_outcome(event).0,
            result == reported::<E>(old(self).status_event_outcome(event).1),
    {
        match event {
            ControlEvent::Other { header, .. } => {
                if header.command_event == UmacEvent::NewInterface.code() {
                    self.handle_interface_created(header)
                } else {
                    Ok(())
                }
            },
            ControlEvent::CommandStatus { command, status, .. } => self.handle_command_status(
                command,
                status,
            ),
            ControlEvent::InterfaceState { status, .. } => self.handle_interface_state(status),
            ControlEvent::RegulatoryChange { .. } => self.handle_regulatory_change(),
            _ => self.fail(StationFault::UnexpectedEvent),
        }
    }

    /// The outcome of an event that should belong to a scan.
    pub open spec fn scan_event_outcome(self, event: ControlEvent<'_>) -> (
        StationController,
        Option<StationFault>,
    ) {
        match event {
            ControlEvent::ScanDone { status, .. } => self.scan_done_outcome(status),
            ControlEvent::ScanResult(result) => self.scan_result_outcome(result.header.sequence),
            _ => self.refused(StationFault::UnexpectedEvent),
        }
    }

    /// Applies an event that should belong to a scan.
    pub fn handle_scan_control_event<E>(&mut self, event: ControlEvent<'_>) -> (result: Result<
        (),
        StationError<E>,
    >)
        ensures
            *final(self) == old(self).scan_event_outcome(event).0,
            result == reported::<E>(old(self).scan_event_outcome(event).1),
    {
        match event {
            ControlEvent::ScanDone { status, .. } => self.handle_scan_done(status),
            ControlEvent::ScanResult(result) => self.handle_scan_result(result.header.sequence),
            _ => self.fail(StationFault::UnexpectedEvent),
        }
    }

    /// The outcome of an event that should be an MLME event.
    pub open spec fn mlme_event_outcome(self, event: ControlEvent<'_>) -> (
        StationController,
        Option<StationFault>,
    ) {
        match event {
            ControlEvent::Authentication(mlme) => self.authentication_outcome(mlme),
            ControlEvent::Association(mlme) => self.association_outcome(mlme),
            ControlEvent::Deauthentication(mlme) => self.disconnect_outcome(mlme),
            ControlEvent::Disassociation(mlme) => self.disconnect_outcome(mlme),
            _ => self.refused(StationFault::UnexpectedEvent),
        }
    }

    fn handle_mlme_control_event<E>(&mut self, event: ControlEvent<'_>) -> (result: Result<
        (),
        StationError<E>,
    >)
        ensures
            *final(self) == old(self).mlme_event_outcome(event).0,
            result == reported::<E>(old(self).mlme_event_outcome(event).1),
    {
        match event {
            ControlEvent::Authentication(mlme) => self.handle_authentication(mlme),
            ControlEvent::Association(mlme) => self.handle_association(mlme),
            ControlEvent::Deauthentication(mlme) => self.handle_disconnect_event(mlme),
            ControlEvent::Disassociation(mlme) => self.handle_disconnect_event(mlme),
            _ => self.fail(StationFault::UnexpectedEvent),
        }
    }

    /// The outcome of a control event.
    pub open spec fn control_outcome(self, event: ControlEvent<'_>) -> (StationController, Option<
        StationFault,
    >) {
        match self.header_fault(header_of(event)) {
            Some(fault) => self.refused(fault),
            None => if is_status(event) {
                self.status_event_outcome(event)
            } else if is_scan(event) {
                self.scan_event_outcome(event)
            } else {
                self.mlme_event_outcome(event)
            },
        }
    }

    /// Applies one parsed control event.
    pub fn handle_control_event<E>(&mut self, event: ControlEvent<'_>) -> (result: Result<
        (),
        StationError<E>,
    >)
        ensures
            *final(self) == old(self).control_outcome(event).0,
            result == reported::<E>(old(self).control_outcome(event).1),
    {
        self.check_header::<E>(control_event_header(&event))?;
        match event {
            ControlEvent::CommandStatus { .. } => self.handle_status_control_event(event),
            ControlEvent::InterfaceState { .. } => self.handle_status_control_event(event),
            ControlEvent::RegulatoryChange { .. } => self.handle_status_control_event(event),
            ControlEvent::Other { .. } => self.handle_status_control_event(event),
            ControlEvent::ScanDone { .. } => self.handle_scan_control_event(event),
            ControlEvent::ScanResult(_) => self.handle_scan_control_event(event),
            _ => self.handle_mlme_control_event(event),
        }
    }

    /// The mismatch of a data event for another interface.
    pub open spec fn data_mismatch(self, wdev_id: u32) -> StationFault {
        StationFault::InterfaceMismatch {
            valid_ids: ID_WDEV_VALID,
            expected_ifaceindex: self.ifaceindex,
            actual_ifaceindex: self.ifaceindex,
            expected_wdev_id: self.wdev_id as u64,
            actual_wdev_id: wdev_id as u64,
        }
    }

    /// The outcome of a data event on the link.
    pub open spec fn data_outcome(self, event: DataEvent) -> (StationController, Option<
        StationFault,
    >) {
        match event {
            DataEvent::CarrierOn { wdev_id } => if wdev_id != self.wdev_id {
                self.refused(self.data_mismatch(wdev_id))
            } else {
                ((StationController { carrier_on: true, ..self }).refreshed(), None)
            },
            DataEvent::CarrierOff { wdev_id } => if wdev_id != self.wdev_id {
                self.refused(self.data_mismatch(wdev_id))
            } else if self.state == StationState::Connected {
                self.cleared().refused(StationFault::CarrierLost)
            } else {
                (StationController { carrier_on: false, ..self }, None)
            },
            _ => (self, None),
        }
    }

    /// Applies one data event to link state.
    pub fn handle_data_event<E>(&mut self, event: DataEvent) -> (result: Result<
        (),
        StationError<E>,
    >)
        ensures
            *final(self) == old(self).data_outcome(event).0,
            result == reported::<E>(old(self).data_outcome(event).1),
    {
        match event {
            DataEvent::CarrierOn { wdev_id } => self.handle_carrier_on(wdev_id),
            DataEvent::CarrierOff { wdev_id } => self.handle_carrier_off(wdev_id),
            _ => Ok(()),
        }
    }

    /// Applies the arrival of the carrier.
    pub fn handle_carrier_on<E>(&mut self, wdev_id: u32) -> (result: Result<(), StationError<E>>)
        ensures
            *final(self) == old(self).data_outcome(DataEvent::CarrierOn { wdev_id }).0,
            result == reported::<E>(old(self).data_outcome(DataEvent::CarrierOn { wdev_id }).1),
    {
        self.require_data_interface::<E>(wdev_id)?;
        self.carrier_on = true;
        self.refresh_connected();
        Ok(())
    }

    /// Applies the loss of the carrier, which a connected link does not
    /// survive.
    pub fn handle_carrier_off<E>(&mut self, wdev_id: u32) -> (result: Result<(), StationError<E>>)
        ensures
            *final(self) == old(self).data_outcome(DataEvent::CarrierOff { wdev_id }).0,
            result == reported::<E>(old(self).data_outcome(DataEvent::CarrierOff { wdev_id }).1),
    {
        self.require_data_interface::<E>(wdev_id)?;
        self.carrier_on = false;
        if self.state == StationState::Connected {
            self.clear_connection();
            self.transition(StationState::Idle);
            return self.fail(StationFault::CarrierLost);
        }
        Ok(())
    }

    fn require_data_interface<E>(&mut self, wdev_id: u32) -> (result: Result<(), StationError<E>>)
        ensures
            if wdev_id == old(self).wdev_id {
                result is Ok && *final(self) == *old(self)
            } else {
                &&& *final(self) == old(self).failed(old(self).data_mismatch(wdev_id))
                &&& result == Err::<(), StationError<E>>(
                    StationError::Fault(old(self).data_mismatch(wdev_id)),
                )
            },
    {
        if wdev_id == self.wdev_id {
            return Ok(());
        }
        self.fail(
            StationFault::InterfaceMismatch {
                valid_ids: ID_WDEV_VALID,
                expected_ifaceindex: self.ifaceindex,
                actual_ifaceindex: self.ifaceindex,
                expected_wdev_id: self.wdev_id as u64,
                actual_wdev_id: wdev_id as u64,
            },
        )
    }
}

/// The state of a station behind a reported fault: the fault is recorded, no
/// deadline runs, nothing is awaited and the port is closed and unauthorized.
pub open spec fn faulted(station: StationController, fault: StationFault) -> bool {
    &&& station.state == StationState::Fault
    &&& station.last_fault == Some(fault)
    &&& station.remaining_ms is None
    &&& station.pending_command is None
    &&& station.pending_return_state is None
    &&& !station.controlled_port_authorized
    &&& !station.port_open()
}

/// The controller fails closed: whenever an event or the passage of time is
/// answered with a fault, the station is in the fault state, the fault is the
/// recorded one and the controlled port is closed.
pub proof fn law_faults_close_the_port(
    station: StationController,
    event: ControlEvent<'_>,
    data: DataEvent,
    elapsed_ms: u32,
)
    ensures
        station.control_outcome(event).1 matches Some(fault) ==> faulted(
            station.control_outcome(event).0,
            fault,
        ),
        station.data_outcome(data).1 matches Some(fault) ==> faulted(
            station.data_outcome(data).0,
            fault,
        ),
        station.time_outcome(elapsed_ms).1 matches Some(fault) ==> faulted(
            station.time_outcome(elapsed_ms).0,
            fault,
        ),
{
    lemma_control_faults(station, event);
    assert(station.data_outcome(data).1 matches Some(fault) ==> faulted(
        station.data_outcome(data).0,
        fault,
    ));
    assert(station.time_outcome(elapsed_ms).1 matches Some(fault) ==> faulted(
        station.time_outcome(elapsed_ms).0,
        fault,
    ));
}

/// A control event that reports a fault leaves the link faulted.
proof fn lemma_control_faults(station: StationController, event: ControlEvent<'_>)
    ensures
        station.control_outcome(event).1 matches Some(fault) ==> faulted(
            station.control_outcome(event).0,
            fault,
        ),
{
    match event {
        ControlEvent::CommandStatus { command, status, .. } => {
            assert(station.status_outcome(command, status).1 matches Some(fault) ==> faulted(
                station.status_outcome(command, status).0,
                fault,
            ));
        },
        ControlEvent::InterfaceState { status, .. } => {
            assert(station.interface_outcome(status).1 matches Some(fault) ==> faulted(
                station.interface_outcome(status).0,
                fault,
            ));
        },
        ControlEvent::Other { header, .. } => {
            assert(station.created_outcome(header).1 matches Some(fault) ==> faulted(
                station.created_outcome(header).0,
                fault,
            ));
        },
        ControlEvent::Authentication(mlme) => {
            assert(station.authentication_outcome(mlme).1 matches Some(fault) ==> faulted(
                station.authentication_outcome(mlme).0,
                fault,
            ));
        },
        ControlEvent::Association(mlme) => {
            assert(station.association_outcome(mlme).1 matches Some(fault) ==> faulted(
                station.association_outcome(mlme).0,
                fault,
            ));
        },
        _ => {},
    }
}

/// A faulted station stays in the fault state with its port closed, whatever
/// events arrive and whatever time passes; a disconnection by its peer leaves
/// it idle with the link cleared.
pub proof fn law_faults_hold(
    station: StationController,
    event: ControlEvent<'_>,
    data: DataEvent,
    elapsed_ms: u32,
)
    requires
        station.state == StationState::Fault,
        station.pending_command is None,
        station.deadline_set(),
    ensures
        station.data_outcome(data).0.state == StationState::Fault,
        !station.data_outcome(data).0.port_open(),
        station.time_outcome(elapsed_ms) == (station, None::<StationFault>),
        !station.control_outcome(event).0.port_open(),
        station.control_outcome(event).0.state == StationState::Fault || ((
        event is Deauthentication || event is Disassociation) && station.control_outcome(event).0
            == station.cleared().settled().moved(StationState::Idle)),
{
}

/// No event, command or rekey authorizes the port of a link but the successful
/// status of the awaited authorization command in the authorizing state, and
/// the association with an open network. A port that a fault closed stays
/// closed until then.
pub proof fn law_only_authorization_opens_the_port(
    station: StationController,
    event: ControlEvent<'_>,
    data: DataEvent,
    commit: Commit,
    elapsed_ms: u32,
)
    requires
        !station.controlled_port_authorized,
    ensures
        !station.data_outcome(data).0.controlled_port_authorized,
        !station.data_outcome(data).0.port_open(),
        !station.time_outcome(elapsed_ms).0.controlled_port_authorized,
        !station.rekeyed().controlled_port_authorized,
        station.committed(commit).controlled_port_authorized ==> commit.secure == Some(false),
        station.control_outcome(event).0.controlled_port_authorized ==> (event matches
            ControlEvent::CommandStatus { command, status, .. } && command
            == UmacCommand::SetStation.wire() && status == 0 && station.awaits(command)
            && station.state == StationState::Authorizing),
{
}

/// A management frame of another station never advances the link: it is
/// answered with a fault, or leaves a station without a peer as it was.
pub proof fn law_foreign_frames_never_advance_the_link(
    station: StationController,
    event: MlmeEvent<'_>,
)
    requires
        frame_address(event, 10) matches Some(address) ==> !station.peer_is(address),
        frame_address(event, 16) matches Some(address) ==> !station.peer_is(address),
    ensures
        station.authentication_outcome(event).0.state == StationState::Fault,
        station.association_outcome(event).0.state == StationState::Fault,
        station.disconnect_outcome(event).0.state == StationState::Fault || (station.peer is None
            && station.disconnect_outcome(event).0 == station),
{
}

/// Recovery forgets everything that firmware owned and closes the port, from
/// any state.
pub proof fn law_recovery_clears_the_link(station: StationController)
    ensures
        ({
            let recovering = station.detached().moved(StationState::Recovering);
            &&& !recovering.interface_created
            &&& recovering.peer is None
            &&& !recovering.secure_connection
            &&& !recovering.controlled_port_authorized
            &&& !recovering.carrier_on
            &&& recovering.pending_command is None
            &&& recovering.pending_return_state is None
            &&& !recovering.port_open()
            &&& !recovering.wants_eapol()
        }),
{
}

/// A deadline runs exactly in the states that wait for something, and every
/// control event keeps it so.
pub proof fn law_control_events_keep_deadlines(station: StationController, event: ControlEvent<'_>)
    requires
        station.deadline_set(),
    ensures
        station.control_outcome(event).0.deadline_set(),
{
    match event {
        ControlEvent::CommandStatus { command, status, .. } => {
            assert(station.status_outcome(command, status).0.deadline_set());
        },
        ControlEvent::InterfaceState { status, .. } => {
            assert(station.interface_outcome(status).0.deadline_set());
        },
        ControlEvent::Other { header, .. } => {
            assert(station.created_outcome(header).0.deadline_set());
        },
        ControlEvent::Authentication(mlme) => {
            assert(station.authentication_outcome(mlme).0.deadline_set());
        },
        ControlEvent::Association(mlme) => {
            assert(station.association_outcome(mlme).0.deadline_set());
        },
        _ => {},
    }
}

/// A deadline runs exactly in the states that wait for something, and every
/// data event, command, deadline change, recovery and elapsed time keeps it so.
pub proof fn law_pending_states_have_deadlines(
    station: StationController,
    data: DataEvent,
    commit: Commit,
    timeouts: StationTimeouts,
    elapsed_ms: u32,
)
    requires
        station.deadline_set(),
    ensures
        station.data_outcome(data).0.deadline_set(),
        station.time_outcome(elapsed_ms).0.deadline_set(),
        station.committed(commit).deadline_set(),
        station.retimed(timeouts).deadline_set(),
        station.rekeyed().deadline_set(),
        station.claimed().deadline_set(),
        station.detached().moved(StationState::Recovering).deadline_set(),
{
}

/// A pending state ends in bounded time: once its deadline has elapsed the
/// station is in the fault state.
pub proof fn law_pending_states_expire(station: StationController, elapsed_ms: u32)
    requires
        station.remaining_ms matches Some(remaining) && elapsed_ms >= remaining,
    ensures
        station.time_outcome(elapsed_ms).0.state == StationState::Fault,
        station.time_outcome(elapsed_ms).1 == Some(StationFault::Timeout(station.state)),
{
}

/// An association response from the selected peer is decided by the status code in
/// frame bytes 26 and 27: zero moves the link on, anything else is the reason of
/// the failure.
pub proof fn law_association_follows_its_status(station: StationController, event: MlmeEvent<'_>)
    requires
        station.state == StationState::Associating,
        event.flags & 1 == 0,
        event.header.result == 0,
        event.valid_fields & 1 != 0,
        event.frame@.len() >= 28,
        station.peer matches Some(peer) && peer@ == event.frame@.subrange(16, 22),
    ensures
        ({
            let status = event.frame@[26] + 0x100 * event.frame@[27];
            let (after, fault) = station.association_outcome(event);
            let linked = station.carrier_on && station.controlled_port_authorized;
            &&& status != 0 ==> fault == Some(StationFault::AssociationFailed(status as u16))
            &&& status != 0 ==> after.state == StationState::Fault
            &&& status == 0 ==> fault is None
            &&& status == 0 ==> after.state == (if linked {
                StationState::Connected
            } else if station.secure_connection {
                StationState::Securing
            } else {
                StationState::AwaitingCarrier
            })
            &&& status == 0 ==> after.pending_command is None && after.peer == station.peer
                && after.carrier_on == station.carrier_on && after.controlled_port_authorized
                == station.controlled_port_authorized
        }),
{
}

/// An authentication response from the selected peer is decided by the status code
/// in frame bytes 28 and 29.
pub proof fn law_authentication_follows_its_status(
    station: StationController,
    event: MlmeEvent<'_>,
)
    requires
        station.state == StationState::Authenticating,
        event.flags & 1 == 0,
        event.header.result == 0,
        event.valid_fields & 1 != 0,
        event.frame@.len() >= 30,
        station.peer matches Some(peer) && peer@ == event.frame@.subrange(10, 16),
    ensures
        ({
            let status = event.frame@[28] + 0x100 * event.frame@[29];
            let (after, fault) = station.authentication_outcome(event);
            &&& status != 0 ==> fault == Some(StationFault::AuthenticationFailed(status as u16))
            &&& status != 0 ==> after.state == StationState::Fault
            &&& status == 0 ==> fault is None && after.state == StationState::Authenticated
                && after.pending_command is None && after.peer == station.peer
        }),
{
}

/// Two responses that agree in their peer address and status code lead to the same
/// link, whatever the rest of their frames holds.
pub proof fn law_responses_are_judged_by_address_and_status(
    station: StationController,
    first: MlmeEvent<'_>,
    second: MlmeEvent<'_>,
)
    requires
        first.flags == second.flags,
        first.valid_fields == second.valid_fields,
        first.header.result == second.header.result,
        first.frame@.len() >= 30,
        second.frame@.len() >= 30,
    ensures
        first.frame@.subrange(16, 22) == second.frame@.subrange(16, 22)
            && first.frame@.subrange(26, 28) == second.frame@.subrange(26, 28)
            ==> station.association_outcome(first) == station.association_outcome(second),
        first.frame@.subrange(10, 16) == second.frame@.subrange(10, 16)
            && first.frame@.subrange(28, 30) == second.frame@.subrange(28, 30)
            ==> station.authentication_outcome(first) == station.authentication_outcome(second),
        first.frame@.subrange(10, 16) == second.frame@.subrange(10, 16)
            ==> station.disconnect_outcome(first) == station.disconnect_outcome(second),
{
    let one = first.frame@;
    let two = second.frame@;
    assert(one.subrange(26, 28)[0] == one[26] && one.subrange(26, 28)[1] == one[27]);
    assert(two.subrange(26, 28)[0] == two[26] && two.subrange(26, 28)[1] == two[27]);
    assert(one.subrange(28, 30)[0] == one[28] && one.subrange(28, 30)[1] == one[29]);
    assert(two.subrange(28, 30)[0] == two[28] && two.subrange(28, 30)[1] == two[29]);
}

/// Responses that carry no verdict fail the link: one that timed out, one whose
/// exchange failed in the firmware, one without a frame, one from another peer.
pub proof fn law_failed_exchanges_name_their_cause(
    station: StationController,
    event: MlmeEvent<'_>,
    peer: [u8; 6],
)
    requires
        station.peer == Some(peer),
    ensures
        ({
            let (authenticated, authentication) = station.authentication_outcome(event);
            let (associated, association) = station.association_outcome(event);
            let framed = event.valid_fields & 1 != 0;
            let frame = event.frame@;
            &&& station.state != StationState::Authenticating ==> authentication == Some(
                StationFault::UnexpectedEvent,
            )
            &&& station.state != StationState::Associating ==> association == Some(
                StationFault::UnexpectedEvent,
            )
            &&& station.state == StationState::Authenticating && (!framed || frame.len() < 16)
                ==> authentication == Some(StationFault::UnexpectedEvent)
            &&& station.state == StationState::Associating && (!framed || frame.len() < 22)
                ==> association == Some(StationFault::UnexpectedEvent)
            &&& station.state == StationState::Authenticating && framed && frame.len() >= 16
                && peer@ != frame.subrange(10, 16) ==> authentication == Some(
                StationFault::PeerMismatch,
            )
            &&& station.state == StationState::Associating && framed && frame.len() >= 22 && peer@
                != frame.subrange(16, 22) ==> association == Some(StationFault::PeerMismatch)
            &&& station.state == StationState::Authenticating && framed && frame.len() >= 16
                && peer@ == frame.subrange(10, 16) && event.flags & 1 != 0 ==> authentication
                == Some(StationFault::MlmeTimeout)
            &&& station.state == StationState::Associating && framed && frame.len() >= 22 && peer@
                == frame.subrange(16, 22) && event.flags & 1 != 0 ==> association == Some(
                StationFault::MlmeTimeout,
            )
            &&& station.state == StationState::Authenticating && framed && frame.len() >= 16
                && peer@ == frame.subrange(10, 16) && event.flags & 1 == 0 && 0
                < event.header.result <= 0xffff ==> authentication == Some(
                StationFault::AuthenticationFailed(event.header.result as u16),
            )
            &&& station.state == StationState::Associating && framed && frame.len() >= 22 && peer@
                == frame.subrange(16, 22) && event.flags & 1 == 0 && 0 < event.header.result
                <= 0xffff ==> association == Some(
                StationFault::AssociationFailed(event.header.result as u16),
            )
            &&& authentication is Some ==> authenticated.state == StationState::Fault
            &&& association is Some ==> associated.state == StationState::Fault
        }),
{
}

/// A deauthentication or disassociation from the peer, whose address stands in
/// frame bytes 10 to 16, ends the link and leaves the interface idle.
pub proof fn law_peer_disconnect_ends_the_link(
    station: StationController,
    event: MlmeEvent<'_>,
    peer: [u8; 6],
)
    requires
        station.peer == Some(peer),
        event.valid_fields & 1 != 0,
        event.frame@.len() >= 16,
    ensures
        ({
            let (after, fault) = station.disconnect_outcome(event);
            &&& peer@ == event.frame@.subrange(10, 16) ==> {
                &&& fault is None
                &&& after.state == StationState::Idle
                &&& after.peer is None
                &&& !after.secure_connection && !after.controlled_port_authorized
                    && !after.carrier_on
                &&& after.pending_command is None && after.pending_return_state is None
                &&& after.interface_created == station.interface_created
            }
            &&& peer@ != event.frame@.subrange(10, 16) ==> fault == Some(
                StationFault::PeerMismatch,
            )
        }),
{
}

/// Every control event is taken by the part of the link that it is about, unless
/// its header names another interface.
pub proof fn law_control_events_reach_their_handler(
    station: StationController,
    event: ControlEvent<'_>,
)
    requires
        station.header_fault(header_of(event)) is None,
    ensures
        match event {
            ControlEvent::ScanDone { status, .. } => station.control_outcome(event)
                == station.scan_done_outcome(status),
            ControlEvent::ScanResult(result) => station.control_outcome(event)
                == station.scan_result_outcome(result.header.sequence),
            ControlEvent::Authentication(mlme) => station.control_outcome(event)
                == station.authentication_outcome(mlme),
            ControlEvent::Association(mlme) => station.control_outcome(event)
                == station.association_outcome(mlme),
            ControlEvent::Deauthentication(mlme) => station.control_outcome(event)
                == station.disconnect_outcome(mlme),
            ControlEvent::Disassociation(mlme) => station.control_outcome(event)
                == station.disconnect_outcome(mlme),
            ControlEvent::CommandStatus { command, status, .. } => station.control_outcome(event)
                == station.status_outcome(command, status),
            ControlEvent::InterfaceState { status, .. } => station.control_outcome(event)
                == station.interface_outcome(status),
            ControlEvent::RegulatoryChange { .. } => station.control_outcome(event) == (
            station.regulated(), None::<StationFault>),
            ControlEvent::Other { header, .. } => station.control_outcome(event) == (
            if header.command_event == 281 {
                station.created_outcome(header)
            } else {
                (station, None::<StationFault>)
            }),
        },
{
}

/// An event for another interface fails the link and names both interfaces; the
/// identifiers that the event does not mark as valid are not compared.
pub proof fn law_foreign_interfaces_fail_the_link(
    station: StationController,
    header: UmacHeader,
    event: ControlEvent<'_>,
)
    requires
        header == header_of(event),
    ensures
        ({
            let foreign = (header.valid_ids & 1 != 0 && header.wdev_id != station.wdev_id) || (
            header.valid_ids & 2 != 0 && header.ifaceindex != station.ifaceindex);
            &&& station.header_fault(header) is Some <==> foreign
            &&& foreign ==> station.control_outcome(event).1 == Some(
                StationFault::InterfaceMismatch {
                    valid_ids: header.valid_ids,
                    expected_ifaceindex: station.ifaceindex,
                    actual_ifaceindex: header.ifaceindex,
                    expected_wdev_id: station.wdev_id as u64,
                    actual_wdev_id: header.wdev_id,
                },
            )
            &&& foreign ==> station.control_outcome(event).0.state == StationState::Fault
        }),
{
}

/// A scan that succeeded is complete, its results are read until the last one
/// arrives with sequence zero, and any other order of events fails the link.
pub proof fn law_scans_complete_in_order(station: StationController, status: i32, sequence: u32)
    ensures
        ({
            let (done, done_fault) = station.scan_done_outcome(status);
            let (read, read_fault) = station.scan_result_outcome(sequence);
            &&& done_fault is None <==> station.state == StationState::Scanning && status == 0
            &&& done_fault is None ==> done.state == StationState::ScanComplete
                && done.pending_command is None
            &&& station.state != StationState::Scanning ==> done_fault == Some(
                StationFault::UnexpectedEvent,
            )
            &&& station.state == StationState::Scanning && status != 0 ==> done_fault == Some(
                StationFault::CommandRejected { command: 0, status: status as u32 },
            )
            &&& read_fault is None <==> station.state == StationState::ReadingScanResults
            &&& read_fault is None ==> read.state == (if sequence == 0 {
                StationState::Idle
            } else {
                StationState::ReadingScanResults
            })
            &&& read_fault is None && sequence == 0 ==> read.pending_command is None
            &&& read_fault is None && sequence != 0 ==> read.pending_command
                == station.pending_command
        }),
{
}

/// A changed interface flag completes exactly the change that was asked for: up
/// leaves the interface idle, down clears the link.
pub proof fn law_interface_flags_complete_the_change(station: StationController, status: i32)
    ensures
        ({
            let (after, fault) = station.interface_outcome(status);
            &&& status != 0 ==> fault == Some(
                StationFault::CommandRejected { command: 18, status: status as u32 },
            )
            &&& status == 0 && station.state == StationState::InterfaceUpPending ==> fault is None
                && after.state == StationState::Idle && after.pending_command is None && after.peer
                == station.peer
            &&& status == 0 && station.state == StationState::InterfaceDownPending ==> fault is None
                && after.state == StationState::Down && after.pending_command is None
                && after.peer is None && !after.controlled_port_authorized && !after.carrier_on
            &&& status == 0 && station.state != StationState::InterfaceUpPending && station.state
                != StationState::InterfaceDownPending ==> fault == Some(
                StationFault::UnexpectedEvent,
            )
        }),
{
}

/// A status for a command that nobody waits for fails the link, as does a refused
/// one; an accepted command changes the link only as that command may.
pub proof fn law_command_status_answers_the_pending_command(
    station: StationController,
    command: u32,
    status: u32,
)
    requires
        !(command == 15 && station.interface_created && station.pending_command is None),
    ensures
        ({
            let (after, fault) = station.status_outcome(command, status);
            let awaited = station.pending_command matches Some(pending) && pending.wire()
                == command;
            &&& !awaited ==> fault == Some(StationFault::UnexpectedEvent)
            &&& awaited && status != 0 ==> fault == Some(
                StationFault::CommandRejected { command, status },
            )
            &&& awaited && status == 0 ==> fault is None
            &&& awaited && status == 0 && command != 15 ==> after.pending_command is None
            &&& awaited && status == 0 && command == 15 ==> after == station
            &&& awaited && status == 0 && 6 <= command <= 8 ==> after.state
                == StationState::Securing
            &&& awaited && status == 0 && command == 21 && station.state
                == StationState::Authorizing ==> after.controlled_port_authorized && after.state
                == (if station.carrier_on {
                StationState::Connected
            } else {
                StationState::AwaitingCarrier
            })
            &&& awaited && status == 0 && (command == 33 || command == 53) && station.state
                == StationState::PowerSavePending ==> after.pending_return_state is None
                && after.state == (match station.pending_return_state {
                Some(state) => state,
                None => StationState::Fault,
            })
            &&& awaited && status == 0 && command != 6 && command != 7 && command != 8 && command
                != 21 && command != 33 && command != 53 ==> after.state == station.state
                && after.controlled_port_authorized == station.controlled_port_authorized
        }),
{
}

/// The default interface exists without a command: its success is taken silently
/// and its failure fails the link.
pub proof fn law_default_interface_status_is_silent(station: StationController, status: u32)
    requires
        station.interface_created,
        station.pending_command is None,
    ensures
        status == 0 ==> station.status_outcome(15, status) == (station, None::<StationFault>),
        status != 0 ==> station.status_outcome(15, status).1 == Some(
            StationFault::CommandRejected { command: 15, status },
        ),
{
}

/// A created interface is taken when it was asked for, ignored when it already
/// exists, and fails the link otherwise.
pub proof fn law_interface_creation_is_awaited(station: StationController, header: UmacHeader)
    ensures
        ({
            let (after, fault) = station.created_outcome(header);
            let asked = station.state == StationState::InterfaceCreatePending
                && station.pending_command == Some(UmacCommand::NewInterface);
            let known = station.interface_created && station.state == StationState::Down;
            &&& header.result != 0 ==> fault == Some(
                StationFault::CommandRejected { command: 15, status: header.result as u32 },
            )
            &&& header.result == 0 && asked ==> fault is None && after.interface_created
                && after.pending_command is None && after.state == StationState::Down
            &&& header.result == 0 && !asked && known ==> fault is None && after == station
            &&& header.result == 0 && !asked && !known ==> fault == Some(
                StationFault::UnexpectedEvent,
            )
        }),
{
}

/// A regulatory change returns to the state that asked for it and touches nothing
/// otherwise.
pub proof fn law_regulatory_change_returns(station: StationController)
    ensures
        station.state != StationState::RegulatoryPending ==> station.regulated() == station,
        station.state == StationState::RegulatoryPending ==> {
            &&& station.regulated().pending_command is None
            &&& station.regulated().pending_return_state is None
            &&& station.regulated().state == (match station.pending_return_state {
                Some(state) => state,
                None => StationState::Down,
            })
        },
{
}

/// The carrier of this interface completes an authorized link and its loss breaks a
/// connected one; other data events leave the link alone.
pub proof fn law_carrier_follows_the_firmware(station: StationController, wdev_id: u32, code: u32)
    requires
        station.state != StationState::Fault,
    ensures
        ({
            let (on, on_fault) = station.data_outcome(DataEvent::CarrierOn { wdev_id });
            let (off, off_fault) = station.data_outcome(DataEvent::CarrierOff { wdev_id });
            let own = wdev_id == station.wdev_id;
            &&& own ==> on_fault is None && on.carrier_on && on.state == (
            if station.controlled_port_authorized {
                StationState::Connected
            } else {
                station.state
            })
            &&& own && station.state == StationState::Connected ==> off_fault == Some(
                StationFault::CarrierLost,
            ) && off.state == StationState::Fault && off.peer is None && !off.carrier_on
                && !off.controlled_port_authorized
            &&& own && station.state != StationState::Connected ==> off_fault is None && off.state
                == station.state && !off.carrier_on && off.controlled_port_authorized
                == station.controlled_port_authorized
            &&& !own ==> on_fault is Some && on_fault == off_fault && on.state
                == StationState::Fault && off.state == StationState::Fault
            &&& !own ==> (on_fault->0 matches StationFault::InterfaceMismatch {
                valid_ids,
                expected_wdev_id,
                actual_wdev_id,
                ..
            } && valid_ids == 1 && expected_wdev_id == station.wdev_id && actual_wdev_id
                == wdev_id)
            &&& station.data_outcome(DataEvent::Receive) == (station, None::<StationFault>)
            &&& station.data_outcome(DataEvent::Other(code)) == (station, None::<StationFault>)
        }),
{
}

/// Frames pass the port of a connected link that is authorized and has a carrier;
/// key frames are wanted while a secure link is being set up or kept.
pub proof fn law_port_states(station: StationController)
    ensures
        station.port_open() <==> station.state == StationState::Connected
            && station.controlled_port_authorized && station.carrier_on,
        station.wants_eapol() ==> station.secure_connection && station.state
            != StationState::Fault,
        station.secure_connection && (station.state == StationState::Securing || station.state
            == StationState::Authorizing || station.state == StationState::AwaitingCarrier
            || station.state == StationState::Connected) ==> station.wants_eapol(),
        station.wants_eapol() ==> station.state == StationState::Securing || station.state
            == StationState::Authorizing || station.state == StationState::AwaitingCarrier
            || station.state == StationState::Connected,
{
}

/// Time runs against the deadline of the state: each tick shortens it by what has
/// passed and the deadline fails the link; a state without one never expires.
pub proof fn law_deadlines_count_down(station: StationController, first: u32, second: u32)
    requires
        station.remaining_ms matches Some(remaining) && first + second < remaining,
    ensures
        station.time_outcome(first).1 is None,
        station.time_outcome(first).0.state == station.state,
        station.time_outcome(first).0.remaining_ms == Some((station.remaining_ms->0 - first) as u32),
        station.time_outcome(first).0.time_outcome(second) == station.time_outcome(
            (first + second) as u32,
        ),
{
}

/// A state without a deadline is left alone by time.
pub proof fn law_untimed_states_wait(station: StationController, elapsed_ms: u32)
    requires
        station.remaining_ms is None,
    ensures
        station.time_outcome(elapsed_ms) == (station, None::<StationFault>),
{
}

/// Entering a state arms the deadline that is configured for what it waits for, of
/// at least one millisecond; the settled states wait for nothing.
pub proof fn law_states_arm_their_deadline(station: StationController)
    ensures
        ({
            let armed = |state: StationState| station.moved(state).remaining_ms;
            let limit = |value: u32|
                Some(
                    if value == 0 {
                        1u32
                    } else {
                        value
                    },
                );
            let timeouts = station.timeouts;
            &&& armed(StationState::InterfaceCreatePending) == limit(timeouts.interface_ms)
            &&& armed(StationState::InterfaceUpPending) == limit(timeouts.interface_ms)
            &&& armed(StationState::InterfaceDownPending) == limit(timeouts.interface_ms)
            &&& armed(StationState::RegulatoryPending) == limit(timeouts.regulatory_ms)
            &&& armed(StationState::Scanning) == limit(timeouts.scan_ms)
            &&& armed(StationState::ScanComplete) == limit(timeouts.scan_complete_ms)
            &&& armed(StationState::ReadingScanResults) == limit(timeouts.scan_results_ms)
            &&& armed(StationState::Authenticating) == limit(timeouts.authentication_ms)
            &&& armed(StationState::Authenticated) == limit(timeouts.authenticated_ms)
            &&& armed(StationState::Associating) == limit(timeouts.association_ms)
            &&& armed(StationState::Securing) == limit(timeouts.key_exchange_ms)
            &&& armed(StationState::Authorizing) == limit(timeouts.authorization_ms)
            &&& armed(StationState::AwaitingCarrier) == limit(timeouts.carrier_ms)
            &&& armed(StationState::PowerSavePending) == limit(timeouts.power_save_ms)
            &&& armed(StationState::Disconnecting) == limit(timeouts.disconnect_ms)
            &&& armed(StationState::Down) is None
            &&& armed(StationState::Idle) is None
            &&& armed(StationState::Connected) is None
            &&& armed(StationState::Recovering) is None
            &&& armed(StationState::Fault) is None
        }),
{
}

/// The default timeouts give a scan 30 seconds, an association 20, an exchange that
/// is not answered 10 and everything else 5.
pub proof fn law_default_timeouts(timeouts: StationTimeouts)
    requires
        timeouts == default_station_timeouts(),
    ensures
        timeouts.scan_ms == 30_000,
        timeouts.association_ms == 20_000,
        timeouts.scan_complete_ms == 10_000,
        timeouts.scan_results_ms == 10_000,
        timeouts.authenticated_ms == 10_000,
        timeouts.key_exchange_ms == 10_000,
        timeouts.regulatory_ms == 5_000,
        timeouts.interface_ms == 5_000,
        timeouts.authentication_ms == 5_000,
        timeouts.authorization_ms == 5_000,
        timeouts.carrier_ms == 5_000,
        timeouts.power_save_ms == 5_000,
        timeouts.disconnect_ms == 5_000,
{
}

/// Sending a command moves the link to what the command waits for and keeps what
/// the command does not change.
pub proof fn law_commits_record_the_command(station: StationController, commit: Commit)
    ensures
        ({
            let after = station.committed(commit);
            &&& after.state == commit.state
            &&& after.pending_command == Some(commit.command)
            &&& after.peer == (if commit.peer is Some {
                commit.peer
            } else {
                station.peer
            })
            &&& commit.secure matches Some(secure) ==> after.secure_connection == secure && (
            commit.state != StationState::Fault ==> after.controlled_port_authorized == !secure)
            &&& commit.secure is None ==> after.secure_connection == station.secure_connection
            &&& commit.return_state is Keep ==> after.pending_return_state
                == station.pending_return_state
            &&& commit.return_state is Clear ==> after.pending_return_state is None
            &&& commit.return_state matches ReturnState::To(state) ==> after.pending_return_state
                == Some(state)
            &&& after.interface_created == station.interface_created && after.wdev_id
                == station.wdev_id && after.last_fault == station.last_fault
        }),
{
}

/// Keys that are in place bring an authorized secure link back to where its carrier
/// leaves it; without an authorized secure link they are unexpected.
pub proof fn law_rekeying_returns_to_the_link(station: StationController)
    ensures
        ({
            let after = station.rekeyed();
            let authorized = station.secure_connection && station.controlled_port_authorized;
            &&& authorized && station.carrier_on ==> after.state == StationState::Connected
            &&& authorized && !station.carrier_on ==> after.state == StationState::AwaitingCarrier
            &&& !authorized ==> after.state == StationState::Fault && after.last_fault == Some(
                StationFault::UnexpectedEvent,
            )
        }),
{
}

/// Recovery forgets the interface, the link and the fault, and starts over down.
pub proof fn law_recovery_starts_over(station: StationController)
    ensures
        ({
            let after = station.recovered();
            &&& after.state == StationState::Down
            &&& after.last_fault is None
            &&& !after.interface_created
            &&& after.peer is None
            &&& !after.secure_connection && !after.controlled_port_authorized && !after.carrier_on
            &&& after.pending_command is None && after.pending_return_state is None
            &&& after.remaining_ms is None
            &&& after.timeouts == station.timeouts && after.wdev_id == station.wdev_id
        }),
{
}

/// A regulatory domain is asked for while the interface is down or idle, and the
/// link returns there.
pub proof fn law_set_regulatory_is_sent_in_its_state<B, E>(
    before: StationController,
    after: StationController,
    device: Device<B>,
    country: [u8; 2],
    user_hint_type: u32,
    force: bool,
    result: Result<Submission, StationError<E>>,
)
    requires
        StationController::set_regulatory_started::<B, E>(before, after, device, country, user_hint_type, force, result),
    ensures
        result matches Ok(submission) ==> ({
            let commit = submission.commit;
            &&& before.state == StationState::Down || before.state == StationState::Idle
            &&& commit.state == StationState::RegulatoryPending
            &&& commit.command == UmacCommand::RequestSetRegulatory
            &&& commit.return_state == ReturnState::To(before.state)
            &&& codec::u32_at(after.command@, 20) == 46
            &&& commit.peer is None && commit.secure is None
        }),
        !(before.state == StationState::Down || before.state == StationState::Idle) ==> after == before && result == Err::<Submission, StationError<E>>(
            StationError::InvalidState {
                current: before.state,
                required: StationState::Down,
            },
        ),
        result is Ok ==> after.same_link(before),
{
    broadcast use protocol::lemma_written_code;

}

/// An interface that was created is brought up from down.
pub proof fn law_bring_up_is_sent_in_its_state<B, E>(
    before: StationController,
    after: StationController,
    device: Device<B>,
    result: Result<Submission, StationError<E>>,
)
    requires
        StationController::bring_up_started::<B, E>(before, after, device, result),
    ensures
        result matches Ok(submission) ==> ({
            let commit = submission.commit;
            &&& before.state == StationState::Down
            &&& commit.state == StationState::InterfaceUpPending
            &&& commit.command == UmacCommand::SetInterfaceFlags
            &&& protocol::names_command(after.command@, 18, before.wdev_id)
            &&& before.interface_created
            &&& after.command@.subrange(48, 52) == codec::le32(1)
            &&& commit.peer is None && commit.secure is None
        }),
        !(before.state == StationState::Down) ==> after == before && result == Err::<Submission, StationError<E>>(
            StationError::InvalidState {
                current: before.state,
                required: StationState::Down,
            },
        ),
        result is Ok ==> after.same_link(before),
{
    broadcast use protocol::lemma_written_command;

}

/// An interface that was created is brought down from idle, connected or fault.
pub proof fn law_bring_down_is_sent_in_its_state<B, E>(
    before: StationController,
    after: StationController,
    device: Device<B>,
    result: Result<Submission, StationError<E>>,
)
    requires
        StationController::bring_down_started::<B, E>(before, after, device, result),
    ensures
        result matches Ok(submission) ==> ({
            let commit = submission.commit;
            &&& before.state == StationState::Idle || before.state == StationState::Connected || before.state == StationState::Fault
            &&& commit.state == StationState::InterfaceDownPending
            &&& commit.command == UmacCommand::SetInterfaceFlags
            &&& protocol::names_command(after.command@, 18, before.wdev_id)
            &&& before.interface_created
            &&& after.command@.subrange(48, 52) == codec::le32(0)
            &&& commit.return_state is Clear
            &&& commit.peer is None && commit.secure is None
        }),
        !(before.state == StationState::Idle || before.state == StationState::Connected || before.state == StationState::Fault) ==> after == before && result == Err::<Submission, StationError<E>>(
            StationError::InvalidState {
                current: before.state,
                required: StationState::Idle,
            },
        ),
        result is Ok ==> after.same_link(before),
{
    broadcast use protocol::lemma_written_command;

}

/// A scan starts from idle, with a request that fits its wire fields.
pub proof fn law_start_scan_is_sent_in_its_state<B, E>(
    before: StationController,
    after: StationController,
    device: Device<B>,
    request: &ScanRequest<'_>,
    result: Result<Submission, StationError<E>>,
)
    requires
        StationController::start_scan_started::<B, E>(before, after, device, request, result),
    ensures
        result matches Ok(submission) ==> ({
            let commit = submission.commit;
            &&& before.state == StationState::Idle
            &&& commit.state == StationState::Scanning
            &&& commit.command == UmacCommand::TriggerScan
            &&& protocol::names_command(after.command@, 0, before.wdev_id)
            &&& request.within_limits()
            &&& commit.peer is None && commit.secure is None
        }),
        !(before.state == StationState::Idle) ==> after == before && result == Err::<Submission, StationError<E>>(
            StationError::InvalidState {
                current: before.state,
                required: StationState::Idle,
            },
        ),
        result is Ok ==> after.same_link(before),
{
    broadcast use protocol::lemma_written_command;

}

/// Scan results are asked for once the scan is complete.
pub proof fn law_request_scan_results_is_sent_in_its_state<B, E>(
    before: StationController,
    after: StationController,
    device: Device<B>,
    reason: ScanReason,
    result: Result<Submission, StationError<E>>,
)
    requires
        StationController::request_scan_results_started::<B, E>(before, after, device, reason, result),
    ensures
        result matches Ok(submission) ==> ({
            let commit = submission.commit;
            &&& before.state == StationState::ScanComplete
            &&& commit.state == StationState::ReadingScanResults
            &&& commit.command == UmacCommand::GetScanResults
            &&& protocol::names_command(after.command@, 1, before.wdev_id)
            &&& after.command@.subrange(48, 52) == codec::le32(
                if reason is Display {
                    0
                } else {
                    1
                },
            )
            &&& commit.peer is None && commit.secure is None
        }),
        !(before.state == StationState::ScanComplete) ==> after == before && result == Err::<Submission, StationError<E>>(
            StationError::InvalidState {
                current: before.state,
                required: StationState::ScanComplete,
            },
        ),
        result is Ok ==> after.same_link(before),
{
    broadcast use protocol::lemma_written_command;

}

/// Authentication starts from idle and selects the peer.
pub proof fn law_authenticate_is_sent_in_its_state<B, E>(
    before: StationController,
    after: StationController,
    device: Device<B>,
    request: &AuthenticationRequest<'_>,
    result: Result<Submission, StationError<E>>,
)
    requires
        StationController::authenticate_started::<B, E>(before, after, device, request, result),
    ensures
        result matches Ok(submission) ==> ({
            let commit = submission.commit;
            &&& before.state == StationState::Idle
            &&& commit.state == StationState::Authenticating
            &&& commit.command == UmacCommand::Authenticate
            &&& protocol::names_command(after.command@, 2, before.wdev_id)
            &&& request.within_limits()
            &&& commit.peer == Some(request.bssid)
            &&& commit.secure is None
        }),
        !(before.state == StationState::Idle) ==> after == before && result == Err::<Submission, StationError<E>>(
            StationError::InvalidState {
                current: before.state,
                required: StationState::Idle,
            },
        ),
        result is Ok ==> after.same_link(before),
{
    broadcast use protocol::lemma_written_command;

}

/// Association follows authentication with the same peer; it is secure exactly when
/// it asks for security.
pub proof fn law_associate_is_sent_in_its_state<B, E>(
    before: StationController,
    after: StationController,
    device: Device<B>,
    request: &AssociationRequest<'_>,
    result: Result<Submission, StationError<E>>,
)
    requires
        StationController::associate_started::<B, E>(before, after, device, request, result),
    ensures
        result matches Ok(submission) ==> ({
            let commit = submission.commit;
            &&& before.state == StationState::Authenticated
            &&& commit.state == StationState::Associating
            &&& commit.command == UmacCommand::Associate
            &&& protocol::names_command(after.command@, 3, before.wdev_id)
            &&& request.within_limits()
            &&& before.peer matches Some(peer) && peer@ == request.bssid@
            &&& commit.secure == Some(request.security is Some)
            &&& commit.peer is None
        }),
        !(before.state == StationState::Authenticated) ==> after == before && result == Err::<Submission, StationError<E>>(
            StationError::InvalidState {
                current: before.state,
                required: StationState::Authenticated,
            },
        ),
        result is Ok ==> after.same_link(before),
{
    broadcast use protocol::lemma_written_command;

}

/// A default key is selected while the link is being secured.
pub proof fn law_set_key_is_sent_in_its_state<B, E>(
    before: StationController,
    after: StationController,
    device: Device<B>,
    key: &KeyConfig<'_>,
    result: Result<Submission, StationError<E>>,
)
    requires
        StationController::set_key_started::<B, E>(before, after, device, key, result),
    ensures
        result matches Ok(submission) ==> ({
            let commit = submission.commit;
            &&& before.state == StationState::Securing
            &&& commit.state == StationState::Securing
            &&& commit.command == UmacCommand::SetKey
            &&& protocol::names_command(after.command@, 8, before.wdev_id)
            &&& key.within_limits()
            &&& commit.peer is None && commit.secure is None
        }),
        !(before.state == StationState::Securing) ==> after == before && result == Err::<Submission, StationError<E>>(
            StationError::InvalidState {
                current: before.state,
                required: StationState::Securing,
            },
        ),
        result is Ok ==> after.same_link(before),
{
    broadcast use protocol::lemma_written_command;

}

/// The port of the selected peer is authorized once its keys are being set.
pub proof fn law_authorize_is_sent_in_its_state<B, E>(
    before: StationController,
    after: StationController,
    device: Device<B>,
    result: Result<Submission, StationError<E>>,
)
    requires
        StationController::authorize_started::<B, E>(before, after, device, result),
    ensures
        result matches Ok(submission) ==> ({
            let commit = submission.commit;
            &&& before.state == StationState::Securing
            &&& commit.state == StationState::Authorizing
            &&& commit.command == UmacCommand::SetStation
            &&& protocol::names_command(after.command@, 21, before.wdev_id)
            &&& before.peer matches Some(peer) && after.command@.subrange(48, 841)
                == control::station_authorized_body(peer@, true)
            &&& commit.peer is None && commit.secure is None
        }),
        !(before.state == StationState::Securing) ==> after == before && result == Err::<Submission, StationError<E>>(
            StationError::InvalidState {
                current: before.state,
                required: StationState::Securing,
            },
        ),
        result is Ok ==> after.same_link(before),
{
    broadcast use protocol::lemma_written_command;

}

/// Power save changes while the link is idle or connected, and the link returns
/// there.
pub proof fn law_set_power_save_is_sent_in_its_state<B, E>(
    before: StationController,
    after: StationController,
    device: Device<B>,
    state: PowerSaveState,
    result: Result<Submission, StationError<E>>,
)
    requires
        StationController::set_power_save_started::<B, E>(before, after, device, state, result),
    ensures
        result matches Ok(submission) ==> ({
            let commit = submission.commit;
            &&& before.state == StationState::Idle || before.state == StationState::Connected
            &&& commit.state == StationState::PowerSavePending
            &&& commit.command == UmacCommand::SetPowerSave
            &&& protocol::names_command(after.command@, 33, before.wdev_id)
            &&& commit.return_state == ReturnState::To(before.state)
            &&& after.command@.subrange(48, 52) == codec::le32(
                if state is Enabled {
                    1
                } else {
                    0
                },
            )
            &&& commit.peer is None && commit.secure is None
        }),
        !(before.state == StationState::Idle || before.state == StationState::Connected) ==> after == before && result == Err::<Submission, StationError<E>>(
            StationError::InvalidState {
                current: before.state,
                required: StationState::Idle,
            },
        ),
        result is Ok ==> after.same_link(before),
{
    broadcast use protocol::lemma_written_command;

}

/// A power save timeout is never negative; it changes while the link is idle or
/// connected, and the link returns there.
pub proof fn law_set_power_save_timeout_is_sent_in_its_state<B, E>(
    before: StationController,
    after: StationController,
    device: Device<B>,
    timeout_ms: i32,
    result: Result<Submission, StationError<E>>,
)
    requires
        StationController::set_power_save_timeout_started::<B, E>(before, after, device, timeout_ms, result),
    ensures
        result matches Ok(submission) ==> ({
            let commit = submission.commit;
            &&& before.state == StationState::Idle || before.state == StationState::Connected
            &&& commit.state == StationState::PowerSavePending
            &&& commit.command == UmacCommand::SetPowerSaveTimeout
            &&& protocol::names_command(after.command@, 53, before.wdev_id)
            &&& timeout_ms >= 0
            &&& commit.return_state == ReturnState::To(before.state)
            &&& after.command@.subrange(48, 52) == codec::le32(timeout_ms as u32)
            &&& commit.peer is None && commit.secure is None
        }),
        !(before.state == StationState::Idle || before.state == StationState::Connected) ==> after == before && result == Err::<Submission, StationError<E>>(
            StationError::InvalidState {
                current: before.state,
                required: StationState::Idle,
            },
        ),
        result is Ok ==> after.same_link(before),
{
    broadcast use protocol::lemma_written_command;

}

/// A link to a peer is taken down from any of its states.
pub proof fn law_disconnect_is_sent_in_its_state<B, E>(
    before: StationController,
    after: StationController,
    device: Device<B>,
    reason_code: u16,
    result: Result<Submission, StationError<E>>,
)
    requires
        StationController::disconnect_started::<B, E>(before, after, device, reason_code, result),
    ensures
        result matches Ok(submission) ==> ({
            let commit = submission.commit;
            &&& before.state == StationState::Authenticated || before.state == StationState::Associating || before.state == StationState::Securing || before.state == StationState::Authorizing || before.state == StationState::AwaitingCarrier || before.state == StationState::Connected
            &&& commit.state == StationState::Disconnecting
            &&& commit.command == UmacCommand::Deauthenticate
            &&& protocol::names_command(after.command@, 4, before.wdev_id)
            &&& before.peer matches Some(peer) && after.command@.subrange(48, 62)
                == protocol::deauthenticate_body(peer@, reason_code, false)
            &&& commit.return_state is Clear
            &&& commit.peer is None && commit.secure is None
        }),
        !(before.state == StationState::Authenticated || before.state == StationState::Associating || before.state == StationState::Securing || before.state == StationState::Authorizing || before.state == StationState::AwaitingCarrier || before.state == StationState::Connected) ==> after == before && result == Err::<Submission, StationError<E>>(
            StationError::InvalidState {
                current: before.state,
                required: StationState::Authenticated,
            },
        ),
        result is Ok ==> after.same_link(before),
{
    broadcast use protocol::lemma_written_command;

}

/// Keys are added and deleted while the link is being secured, authorized or
/// connected, for the peer unless the key is a group key.
pub proof fn law_key_command_is_sent_in_its_state<B, E>(
    before: StationController,
    after: StationController,
    device: Device<B>,
    command: UmacCommand,
    key: &KeyConfig<'_>,
    result: Result<Submission, StationError<E>>,
)
    requires
        StationController::key_command_started::<B, E>(before, after, device, command, key, result),
    ensures
        result matches Ok(submission) ==> ({
            let commit = submission.commit;
            &&& before.state == StationState::Securing || before.state == StationState::Authorizing
                || before.state == StationState::Connected
            &&& command is NewKey || command is DeleteKey
            &&& key.within_limits()
            &&& commit.state == StationState::Securing
            &&& commit.command == command
            &&& commit.peer is None && commit.secure is None
            &&& protocol::names_command(
                after.command@,
                if command is NewKey {
                    6
                } else {
                    7
                },
                before.wdev_id,
            )
            &&& key.key_type == KeyType::Group ==> after.command@.subrange(48, 593)
                == control::key_command_body(None, *key)
            &&& key.key_type != KeyType::Group ==> before.peer is Some
                && after.command@.subrange(48, 593) == control::key_command_body(before.peer, *key)
        }),
        !(before.state == StationState::Securing || before.state == StationState::Authorizing
            || before.state == StationState::Connected) ==> after == before && result == Err::<
            Submission,
            StationError<E>,
        >(
            StationError::InvalidState {
                current: before.state,
                required: StationState::Securing,
            },
        ),
        result is Ok ==> after.same_link(before),
{
    broadcast use protocol::lemma_written_command;

    if key.within_limits() {
        control::lemma_key_command_len(None, *key);
        control::lemma_key_command_len(before.peer, *key);
    }
}

/// The interface is created from down; device zero exists already and is claimed
/// without a command.
pub proof fn law_create_interface_is_sent_in_its_state<B, E>(
    before: StationController,
    after: StationController,
    device: Device<B>,
    mac_address: [u8; 6],
    interface_name: &[u8],
    result: Result<InterfaceCreation, StationError<E>>,
)
    requires
        StationController::create_interface_started::<B, E>(
            before,
            after,
            device,
            mac_address,
            interface_name,
            result,
        ),
    ensures
        result is Ok ==> before.state == StationState::Down && !before.interface_created,
        result matches Ok(InterfaceCreation::Claimed) ==> before.wdev_id == 0
            && after.interface_created && after.state == StationState::Down
            && after.pending_command is None,
        result matches Ok(InterfaceCreation::Submit(submission)) ==> ({
            &&& before.wdev_id != 0
            &&& interface_name@.len() <= 16
            &&& submission.commit.state == StationState::InterfaceCreatePending
            &&& submission.commit.command == UmacCommand::NewInterface
            &&& submission.commit.peer is None && submission.commit.secure is None
            &&& protocol::names_command(after.command@, 15, before.wdev_id)
            &&& after.command@.subrange(48, 86) == protocol::new_interface_body(
                InterfaceType::Station,
                mac_address@,
                interface_name@,
            )
            &&& after.same_link(before)
        }),
        before.state != StationState::Down ==> after == before && result is Err,
        before.state == StationState::Down && before.interface_created ==> after == before
            && result == Err::<InterfaceCreation, StationError<E>>(
            StationError::InterfaceAlreadyCreated,
        ),
{
    broadcast use protocol::lemma_written_command;

    if interface_name@.len() <= 16 {
        protocol::lemma_new_interface_len(InterfaceType::Station, mac_address@, interface_name@);
    }
}

/// Handling an association response of the selected peer reports the status code of
/// its frame bytes 26 and 27 and moves the link accordingly.
pub proof fn law_handled_associations<E>(
    event: MlmeEvent<'_>,
    result: Result<(), StationError<E>>,
)
    requires
        event.flags & 1 == 0,
        event.header.result == 0,
        event.valid_fields & 1 != 0,
        event.frame@.len() >= 28,
    ensures
        forall|station: &mut StationController| #[trigger]
            call_ensures(StationController::handle_association::<E>, (station, event), result)
                && station.state == StationState::Associating && (station.peer matches Some(peer)
                && peer@ == event.frame@.subrange(16, 22)) ==> {
                let status = event.frame@[26] + 0x100 * event.frame@[27];
                let linked = station.carrier_on && station.controlled_port_authorized;
                &&& status == 0 ==> result is Ok && final(station).state == (if linked {
                    StationState::Connected
                } else if station.secure_connection {
                    StationState::Securing
                } else {
                    StationState::AwaitingCarrier
                })
                &&& status != 0 ==> result == Err::<(), StationError<E>>(
                    StationError::Fault(StationFault::AssociationFailed(status as u16)),
                ) && final(station).state == StationState::Fault
            },
{
    assert forall|station: &mut StationController| #[trigger]
        call_ensures(StationController::handle_association::<E>, (station, event), result)
            && station.state == StationState::Associating && (station.peer matches Some(peer)
            && peer@ == event.frame@.subrange(16, 22)) implies {
        let status = event.frame@[26] + 0x100 * event.frame@[27];
        let linked = station.carrier_on && station.controlled_port_authorized;
        &&& status == 0 ==> result is Ok && final(station).state == (if linked {
            StationState::Connected
        } else if station.secure_connection {
            StationState::Securing
        } else {
            StationState::AwaitingCarrier
        })
        &&& status != 0 ==> result == Err::<(), StationError<E>>(
            StationError::Fault(StationFault::AssociationFailed(status as u16)),
        ) && final(station).state == StationState::Fault
    } by {
        law_association_follows_its_status(*station, event);
    }
}

/// Handling an authentication response of the selected peer reports the status code
/// of its frame bytes 28 and 29.
pub proof fn law_handled_authentications<E>(
    event: MlmeEvent<'_>,
    result: Result<(), StationError<E>>,
)
    requires
        event.flags & 1 == 0,
        event.header.result == 0,
        event.valid_fields & 1 != 0,
        event.frame@.len() >= 30,
    ensures
        forall|station: &mut StationController| #[trigger]
            call_ensures(StationController::handle_authentication::<E>, (station, event), result)
                && station.state == StationState::Authenticating && (station.peer matches Some(peer)
                && peer@ == event.frame@.subrange(10, 16)) ==> {
                let status = event.frame@[28] + 0x100 * event.frame@[29];
                &&& status == 0 ==> result is Ok && final(station).state
                    == StationState::Authenticated
                &&& status != 0 ==> result == Err::<(), StationError<E>>(
                    StationError::Fault(StationFault::AuthenticationFailed(status as u16)),
                ) && final(station).state == StationState::Fault
            },
{
    assert forall|station: &mut StationController| #[trigger]
        call_ensures(StationController::handle_authentication::<E>, (station, event), result)
            && station.state == StationState::Authenticating && (station.peer matches Some(peer)
            && peer@ == event.frame@.subrange(10, 16)) implies {
        let status = event.frame@[28] + 0x100 * event.frame@[29];
        &&& status == 0 ==> result is Ok && final(station).state == StationState::Authenticated
        &&& status != 0 ==> result == Err::<(), StationError<E>>(
            StationError::Fault(StationFault::AuthenticationFailed(status as u16)),
        ) && final(station).state == StationState::Fault
    } by {
        law_authentication_follows_its_status(*station, event);
    }
}

/// Events and time move the link as their outcome says, and a fault is what the
/// caller is told.
pub proof fn law_outcomes_are_applied<E>(
    event: ControlEvent<'_>,
    data: DataEvent,
    elapsed_ms: u32,
    result: Result<(), StationError<E>>,
    ticked: Result<(), StationFault>,
)
    ensures
        forall|station: &mut StationController| #[trigger]
            call_ensures(StationController::handle_control_event::<E>, (station, event), result)
                ==> {
                let (after, fault) = station.control_outcome(event);
                &&& *final(station) == after
                &&& fault is None ==> result is Ok
                &&& fault matches Some(cause) ==> result == Err::<(), StationError<E>>(
                    StationError::Fault(cause),
                )
            },
        forall|station: &mut StationController| #[trigger]
            call_ensures(StationController::handle_data_event::<E>, (station, data), result) ==> {
                let (after, fault) = station.data_outcome(data);
                &&& *final(station) == after
                &&& fault is None ==> result is Ok
                &&& fault matches Some(cause) ==> result == Err::<(), StationError<E>>(
                    StationError::Fault(cause),
                )
            },
        forall|station: &mut StationController| #[trigger]
            call_ensures(StationController::advance_time, (station, elapsed_ms), ticked) ==> {
                let (after, fault) = station.time_outcome(elapsed_ms);
                &&& *final(station) == after
                &&& fault is None ==> ticked is Ok
                &&& fault matches Some(cause) ==> ticked == Err::<(), StationFault>(cause)
            },
{
}

} // verus!
