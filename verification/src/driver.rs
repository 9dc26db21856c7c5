//! Bounded split between the Zephyr L2 endpoint and a network stack.
//!
//! [`SharedDevice`] holds the receive and transmit lanes and the link state;
//! [`Reactor`] moves frames between the lanes and a synchronous
//! [`L2Endpoint`]. A link reset flushes ready frames and advances the epoch;
//! slots that a token or lease still owns are retired only by their owner.

use vstd::prelude::*;

use crate::bridge::{Error, InterfaceInfo, PollResult, ReceiveResult, WifiEvent};
use crate::bridge::{ETHERNET_HEADER_LEN, MAX_FRAME_LEN};
use crate::lane::{CommitOutcome, Lane, SlotState, MAX_SLOTS};

verus! {

/// Packets held in the receive queue by the default split.
pub const DEFAULT_RX_SLOTS: usize = 2;

/// Packets held in the transmit queue by the default split.
pub const DEFAULT_TX_SLOTS: usize = 2;

/// Every slot holds a complete bridge frame, including the Ethernet header.
pub const DEFAULT_PACKET_BUFFER_SIZE: usize = MAX_FRAME_LEN;

/// Device type for the default split.
pub type DefaultSharedDevice = SharedDevice<DEFAULT_RX_SLOTS, DEFAULT_TX_SLOTS>;

/// Link state shown to the network stack.
#[derive(Clone, Copy, Debug, PartialEq, Eq, Structural)]
pub enum LinkState {
    Down,
    Up,
}

/// Synchronous endpoint contract consumed by [`Reactor`].
pub trait L2Endpoint {
    /// Returns immutable interface metadata after the endpoint has opened.
    fn interface(&self) -> Option<InterfaceInfo>;

    /// Polls one bounded link/event operation.
    fn poll(&mut self, timeout_ms: u32) -> Result<PollResult, Error>;

    /// Receives into a full-size caller-owned frame slot.
    fn recv(&mut self, buffer: &mut [u8]) -> Result<ReceiveResult, Error>;

    /// Sends one complete, validated Ethernet frame.
    fn send(&mut self, frame: &[u8]) -> Result<usize, Error>;
}

/// Errors raised while constructing a split device.
#[derive(Clone, Copy, Debug, PartialEq, Eq, Structural)]
pub enum DriverError {
    /// The underlying endpoint reported a boundary error.
    Platform(Error),
    /// The endpoint was not opened before constructing the split.
    NotOpen,
    /// The shared device has not been configured.
    NotConfigured,
    /// A shared device can only be paired with one endpoint for its lifetime.
    AlreadyConfigured,
}

impl DriverError {
    /// The description that [`DriverError::description`] returns.
    pub open spec fn text(self) -> Seq<char> {
        match self {
            DriverError::Platform(error) => error.text(),
            DriverError::NotOpen => "Zephyr L2 endpoint is not open"@,
            DriverError::NotConfigured => "shared Zephyr L2 device is not configured"@,
            DriverError::AlreadyConfigured => "shared Zephyr L2 device is already configured"@,
        }
    }

    /// Returns a stable human-readable description.
    pub fn description(self) -> (text: &'static str)
        ensures
            text@ == self.text(),
    {
        match self {
            DriverError::Platform(error) => error.description(),
            DriverError::NotOpen => "Zephyr L2 endpoint is not open",
            DriverError::NotConfigured => "shared Zephyr L2 device is not configured",
            DriverError::AlreadyConfigured => "shared Zephyr L2 device is already configured",
        }
    }
}

impl vstd::std_specs::convert::FromSpecImpl<Error> for DriverError {
    open spec fn obeys_from_spec() -> bool {
        true
    }

    open spec fn from_spec(error: Error) -> Self {
        DriverError::Platform(error)
    }
}

impl From<Error> for DriverError {
    fn from(error: Error) -> (converted: Self) {
        DriverError::Platform(error)
    }
}

/// Why a received frame could not be accepted.
#[derive(Clone, Copy, Debug, PartialEq, Eq, Structural)]
pub enum RxError {
    /// The frame is shorter than a complete Ethernet header.
    TooShort { len: usize },
    /// The frame exceeds the fixed slot size.
    TooLarge { len: usize },
    /// All receive slots are occupied.
    Full,
    /// The slot was reserved before a link epoch reset.
    StaleEpoch,
}

/// Result reported by a transport after attempting to send a leased frame.
#[derive(Clone, Copy, Debug, PartialEq, Eq, Structural)]
pub enum TxSubmitResult {
    /// The transport accepted the frame and the lease may be released.
    Accepted,
    /// The transport is busy; keep the lease for a later retry.
    WouldBlock,
    /// The link epoch changed; discard the stale frame.
    Stale,
}

/// Transmit progress reported by [`Reactor::service_once`].
#[derive(Clone, Copy, Debug, PartialEq, Eq, Structural)]
pub enum TxProgress {
    /// No transmit lease was available.
    Idle,
    /// A queued frame was accepted.
    Accepted,
    /// The endpoint was busy; the lease is retained.
    WouldBlock,
    /// A stale lease was discarded after a link reset.
    DroppedStale,
}

/// Tasks that have to be woken after a queue operation.
#[derive(Clone, Copy, Debug, PartialEq, Eq, Structural)]
pub struct Wakes {
    /// A task waiting for received frames.
    pub rx: bool,
    /// A task waiting for transmit space.
    pub tx_space: bool,
    /// A task waiting for frames to transmit.
    pub tx_ready: bool,
    /// A task watching the link state.
    pub link: bool,
}

impl Wakes {
    /// Nothing to wake.
    pub fn none() -> (wakes: Self)
        ensures
            wakes == (Wakes { rx: false, tx_space: false, tx_ready: false, link: false }),
    {
        Wakes { rx: false, tx_space: false, tx_ready: false, link: false }
    }
}

/// A receive slot reserved for one incoming frame.
pub struct RxReservation {
    pub index: usize,
    pub epoch: u32,
}

/// A received frame owned by the network stack.
pub struct RxToken {
    pub index: usize,
    pub epoch: u32,
}

/// A transmit slot owned by the network stack.
pub struct TxToken {
    pub index: usize,
    pub epoch: u32,
}

/// A queued frame leased to the transport.
pub struct TxFrame {
    pub index: usize,
    pub epoch: u32,
    pub released: bool,
}

/// A fixed-capacity receive/transmit queue with its link state.
pub struct SharedDevice<const RX: usize, const TX: usize> {
    pub rx: Lane<RX>,
    pub tx: Lane<TX>,
    /// Wrapping link epoch.
    pub epoch: u32,
    pub link: LinkState,
    pub interface: Option<InterfaceInfo>,
    pub full_drops: u32,
    pub too_short_drops: u32,
    pub too_large_drops: u32,
    pub stale_drops: u32,
    /// Wakes not yet collected.
    pub wakes: Wakes,
}

impl<const RX: usize, const TX: usize> SharedDevice<RX, TX> {
    /// Both lanes are well formed and no ready frame outlives its epoch.
    pub open spec fn wf(&self) -> bool {
        &&& self.rx.wf()
        &&& self.tx.wf()
        &&& forall|i: int|
            0 <= i < RX && (#[trigger] self.rx.slots@[i]).state is Ready ==> self.rx.slots@[i].epoch
                == self.epoch
        &&& forall|i: int|
            0 <= i < TX && (#[trigger] self.tx.slots@[i]).state is Ready ==> self.tx.slots@[i].epoch
                == self.epoch
    }

    /// Creates an empty device.
    pub fn new() -> (device: Self)
        requires
            0 < RX <= MAX_SLOTS,
            0 < TX <= MAX_SLOTS,
        ensures
            device.wf(),
            device.rx.unused(),
            device.tx.unused(),
            device.epoch == 0,
            device.link == LinkState::Down,
            device.interface is None,
            device.full_drops == 0,
            device.too_short_drops == 0,
            device.too_large_drops == 0,
            device.stale_drops == 0,
            device.wakes == (Wakes { rx: false, tx_space: false, tx_ready: false, link: false }),
    {
        SharedDevice {
            rx: Lane::new(),
            tx: Lane::new(),
            epoch: 0,
            link: LinkState::Down,
            interface: None,
            full_drops: 0,
            too_short_drops: 0,
            too_large_drops: 0,
            stale_drops: 0,
            wakes: Wakes::none(),
        }
    }

    /// Returns the configured interface.
    pub fn interface(&self) -> (interface: Option<InterfaceInfo>)
        ensures
            interface == self.interface,
    {
        self.interface
    }

    /// Returns the current link state.
    pub fn current_link_state(&self) -> (link: LinkState)
        ensures
            link == self.link,
    {
        self.link
    }

    /// Returns the wrapping queue epoch.
    pub fn link_epoch(&self) -> (epoch: u32)
        ensures
            epoch == self.epoch,
    {
        self.epoch
    }

    /// Number of complete received frames ready for the network stack.
    pub fn rx_len(&self) -> (len: usize)
        requires
            self.wf(),
        ensures
            len == self.rx.ready_frames().len(),
    {
        self.rx.ready
    }

    /// Number of complete frames waiting for the transport.
    pub fn tx_len(&self) -> (len: usize)
        requires
            self.wf(),
        ensures
            len == self.tx.ready_frames().len(),
    {
        self.tx.ready
    }

    /// Number of free transmit slots.
    pub fn tx_space(&self) -> (space: usize)
        requires
            self.wf(),
        ensures
            space == TX - self.tx.occupied,
            space == crate::lane::count(self.tx.slots@, SlotState::Free),
    {
        proof {
            self.tx.lemma_occupied();
        }
        TX - self.tx.occupied
    }

    /// Number of frames dropped because the receive slots were full.
    pub fn rx_full_drops(&self) -> (drops: u32)
        ensures
            drops == self.full_drops,
    {
        self.full_drops
    }

    /// Number of frames rejected for being shorter than an Ethernet header.
    pub fn rx_too_short_drops(&self) -> (drops: u32)
        ensures
            drops == self.too_short_drops,
    {
        self.too_short_drops
    }

    /// Number of frames rejected for exceeding [`MAX_FRAME_LEN`].
    pub fn rx_too_large_drops(&self) -> (drops: u32)
        ensures
            drops == self.too_large_drops,
    {
        self.too_large_drops
    }

    /// Number of reservations invalidated by a link reset.
    pub fn rx_stale_drops(&self) -> (drops: u32)
        ensures
            drops == self.stale_drops,
    {
        self.stale_drops
    }

    /// Collects the wakes that operations have asked for.
    pub fn take_wakes(&mut self) -> (wakes: Wakes)
        ensures
            wakes == old(self).wakes,
            *final(self) == (SharedDevice {
                wakes: (Wakes { rx: false, tx_space: false, tx_ready: false, link: false }),
                ..*old(self)
            }),
    {
        let wakes = self.wakes;
        self.wakes = Wakes::none();
        wakes
    }

    /// The device paired with an interface.
    pub open spec fn configured(self, interface: InterfaceInfo) -> Self {
        SharedDevice {
            interface: Some(interface),
            link: (if interface.status is Connected {
                LinkState::Up
            } else {
                LinkState::Down
            }),
            ..self
        }
    }

    /// Pairs the device with the interface of its endpoint, once.
    pub fn configure(&mut self, interface: InterfaceInfo) -> (result: Result<(), DriverError>)
        ensures
            match result {
                Ok(()) => {
                    &&& old(self).interface is None
                    &&& *final(self) == old(self).configured(interface)
                },
                Err(error) => {
                    &&& old(self).interface is Some
                    &&& error == DriverError::AlreadyConfigured
                    &&& *final(self) == *old(self)
                },
            },
            old(self).wf() ==> final(self).wf(),
    {
        if self.interface.is_some() {
            return Err(DriverError::AlreadyConfigured);
        }
        self.interface = Some(interface);
        self.link = if interface.status().is_connected() {
            LinkState::Up
        } else {
            LinkState::Down
        };
        Ok(())
    }

    /// Checks that the device was configured.
    pub fn require_configured(&self) -> (result: Result<(), DriverError>)
        ensures
            match result {
                Ok(()) => self.interface is Some,
                Err(error) => self.interface is None && error == DriverError::NotConfigured,
            },
    {
        if self.interface.is_none() {
            Err(DriverError::NotConfigured)
        } else {
            Ok(())
        }
    }

    /// What a link reset leaves of the device.
    pub open spec fn reset_from(&self, before: &Self, state: LinkState) -> bool {
        &&& self.epoch == (if before.epoch == u32::MAX {
            0
        } else {
            before.epoch + 1
        })
        &&& self.link == state
        &&& self.rx.queue@.len() == 0
        &&& self.tx.queue@.len() == 0
        &&& self.rx.frames == before.rx.frames
        &&& self.tx.frames == before.tx.frames
        &&& self.rx.occupied == crate::lane::count(before.rx.slots@, SlotState::InUse)
        &&& self.tx.occupied == crate::lane::count(before.tx.slots@, SlotState::InUse)
        &&& forall|i: int|
            0 <= i < RX && (#[trigger] before.rx.slots@[i]).state is InUse ==> self.rx.slots@[i]
                == before.rx.slots@[i]
        &&& forall|i: int|
            0 <= i < TX && (#[trigger] before.tx.slots@[i]).state is InUse ==> self.tx.slots@[i]
                == before.tx.slots@[i]
        &&& forall|i: int|
            0 <= i < RX && !((#[trigger] before.rx.slots@[i]).state is InUse)
                ==> self.rx.slots@[i].state is Free
        &&& forall|i: int|
            0 <= i < TX && !((#[trigger] before.tx.slots@[i]).state is InUse)
                ==> self.tx.slots@[i].state is Free
        &&& self.interface == before.interface
        &&& self.full_drops == before.full_drops
        &&& self.too_short_drops == before.too_short_drops
        &&& self.too_large_drops == before.too_large_drops
        &&& self.stale_drops == before.stale_drops
        &&& self.wakes == (Wakes { rx: true, tx_space: true, tx_ready: true, link: true })
    }

    /// Flushes queued frames, advances the epoch, and updates the link.
    ///
    /// Slots owned by tokens and leases stay occupied until they are
    /// released, so a reset never overwrites bytes still in use.
    pub fn reset_link(&mut self, state: LinkState) -> (epoch: u32)
        requires
            old(self).wf(),
        ensures
            final(self).wf(),
            epoch == final(self).epoch,
            epoch != old(self).epoch,
            final(self).reset_from(old(self), state),
    {
        self.epoch = self.epoch.wrapping_add(1);
        self.rx.flush();
        self.tx.flush();
        self.link = state;
        self.wakes = Wakes { rx: true, tx_space: true, tx_ready: true, link: true };
        self.epoch
    }

    /// Updates the link state. A transition away from `Up` flushes queued
    /// frames and advances the epoch; `force_reset` does so even when the
    /// link was already down. Returns whether the visible state changed.
    pub fn update_link(&mut self, state: LinkState, force_reset: bool) -> (changed: bool)
        requires
            old(self).wf(),
        ensures
            final(self).wf(),
            final(self).link == state,
            changed == (state != old(self).link),
            if state == LinkState::Down && (changed || force_reset) {
                final(self).reset_from(old(self), state)
            } else if changed {
                *final(self) == (SharedDevice {
                    link: state,
                    wakes: (Wakes { rx: true, tx_space: true, link: true, ..old(self).wakes }),
                    ..*old(self)
                })
            } else {
                *final(self) == *old(self)
            },
    {
        let before: LinkState = self.link;
        if state == LinkState::Down {
            if before != LinkState::Down || force_reset {
                self.reset_link(LinkState::Down);
                return before != LinkState::Down;
            }
            return false;
        }
        if before != state {
            self.link = state;
            self.wakes =
            Wakes { rx: true, tx_space: true, tx_ready: self.wakes.tx_ready, link: true };
            true
        } else {
            false
        }
    }
}

/// A wrapping event counter advanced by one.
pub open spec fn bumped(counter: u32) -> u32 {
    if counter == u32::MAX {
        0
    } else {
        (counter + 1) as u32
    }
}

impl<const RX: usize, const TX: usize> SharedDevice<RX, TX> {
    /// Nothing differs but the receive lane, its drop counters and the
    /// wakes.
    pub open spec fn same_but_rx(&self, before: &Self) -> bool {
        &&& self.tx == before.tx
        &&& self.epoch == before.epoch
        &&& self.link == before.link
        &&& self.interface == before.interface
    }

    /// Nothing differs but the transmit lane and the wakes.
    pub open spec fn same_but_tx(&self, before: &Self) -> bool {
        &&& self.rx == before.rx
        &&& self.epoch == before.epoch
        &&& self.link == before.link
        &&& self.interface == before.interface
        &&& self.full_drops == before.full_drops
        &&& self.too_short_drops == before.too_short_drops
        &&& self.too_large_drops == before.too_large_drops
        &&& self.stale_drops == before.stale_drops
    }

    /// The slots that tokens and leases held before are as they were, bytes
    /// and bookkeeping, but for the slot of the reactor's own lease.
    pub open spec fn held_slots_kept(&self, before: &Self, lease: Option<TxFrame>) -> bool {
        &&& forall|i: int|
            0 <= i < RX && (#[trigger] before.rx.slots@[i]).state is InUse ==> self.rx.slots@[i]
                == before.rx.slots@[i] && self.rx.frames@[i] == before.rx.frames@[i]
        &&& forall|i: int|
            0 <= i < TX && (#[trigger] before.tx.slots@[i]).state is InUse && !(lease matches Some(
                own,
            ) && own.index == i) ==> self.tx.slots@[i] == before.tx.slots@[i]
                && self.tx.frames@[i] == before.tx.frames@[i]
    }

    /// The receive drop counters.
    pub open spec fn drops(&self) -> (u32, u32, u32, u32) {
        (self.full_drops, self.too_short_drops, self.too_large_drops, self.stale_drops)
    }

    /// The receive drop counters after a frame ended in `result`.
    pub open spec fn drops_after(&self, result: Result<(), RxError>) -> (u32, u32, u32, u32) {
        match result {
            Ok(()) => self.drops(),
            Err(RxError::Full) => (
                bumped(self.full_drops),
                self.too_short_drops,
                self.too_large_drops,
                self.stale_drops,
            ),
            Err(RxError::TooShort { .. }) => (
                self.full_drops,
                bumped(self.too_short_drops),
                self.too_large_drops,
                self.stale_drops,
            ),
            Err(RxError::TooLarge { .. }) => (
                self.full_drops,
                self.too_short_drops,
                bumped(self.too_large_drops),
                self.stale_drops,
            ),
            Err(RxError::StaleEpoch) => (
                self.full_drops,
                self.too_short_drops,
                self.too_large_drops,
                bumped(self.stale_drops),
            ),
        }
    }

    /// Reserves a receive slot for one incoming frame.
    pub fn reserve_rx(&mut self) -> (reservation: Option<RxReservation>)
        requires
            old(self).wf(),
        ensures
            final(self).wf(),
            final(self).same_but_rx(old(self)),
            final(self).drops() == old(self).drops(),
            final(self).wakes == old(self).wakes,
            final(self).rx.ready_frames() == old(self).rx.ready_frames(),
            reservation is Some <==> old(self).rx.occupied < RX,
            match reservation {
                Some(reservation) => {
                    &&& reservation.epoch == old(self).epoch
                    &&& final(self).rx.owned(reservation.index as int, reservation.epoch)
                    &&& old(self).rx.is_first_free(reservation.index as int)
                    &&& final(self).rx.only_slot_changed(&old(self).rx, reservation.index as int)
                    &&& final(self).rx.occupied == old(self).rx.occupied + 1
                },
                None => *final(self) == *old(self),
            },
    {
        let epoch: u32 = self.epoch;
        match self.rx.reserve(epoch) {
            Some(index) => Some(RxReservation { index, epoch }),
            None => None,
        }
    }

    /// Borrows the storage of a receive slot for the holder of its index and
    /// epoch.
    pub fn rx_buffer_mut(&mut self, index: usize, epoch: u32) -> (buffer: &mut [u8; MAX_FRAME_LEN])
        requires
            old(self).rx.owned(index as int, epoch),
        ensures
            *buffer == old(self).rx.frames@[index as int].bytes,
            final(self).same_but_rx(old(self)),
            final(self).drops() == old(self).drops(),
            final(self).wakes == old(self).wakes,
            final(self).rx.only_bytes_changed(&old(self).rx, index as int),
            final(self).rx.frames@[index as int].bytes == *final(buffer),
    {
        self.rx.storage_mut(index)
    }

    /// What committing a reservation yields.
    pub open spec fn commit_result(&self, reservation: RxReservation, len: usize) -> Result<
        (),
        RxError,
    > {
        if len < ETHERNET_HEADER_LEN {
            Err(RxError::TooShort { len })
        } else if len > MAX_FRAME_LEN {
            Err(RxError::TooLarge { len })
        } else if reservation.epoch != self.epoch {
            Err(RxError::StaleEpoch)
        } else {
            Ok(())
        }
    }

    /// Publishes `len` bytes of a reserved slot.
    ///
    /// A frame of the wrong size or from before a link reset is counted and
    /// dropped, and its slot becomes free.
    pub fn commit_reservation(&mut self, reservation: RxReservation, len: usize) -> (result: Result<
        (),
        RxError,
    >)
        requires
            old(self).wf(),
            old(self).rx.owned(reservation.index as int, reservation.epoch),
        ensures
            final(self).wf(),
            final(self).same_but_rx(old(self)),
            result == old(self).commit_result(reservation, len),
            final(self).rx.only_slot_changed(&old(self).rx, reservation.index as int),
            final(self).drops() == old(self).drops_after(result),
            match result {
                Ok(()) => {
                    &&& final(self).rx.ready_frames() == old(self).rx.ready_frames().push(
                        old(self).rx.frames@[reservation.index as int].bytes@.subrange(
                            0,
                            len as int,
                        ),
                    )
                    &&& final(self).rx.occupied == old(self).rx.occupied
                    &&& final(self).rx.slots@[reservation.index as int].state is Ready
                    &&& final(self).wakes == (Wakes { rx: true, ..old(self).wakes })
                },
                Err(_) => {
                    &&& final(self).rx.ready_frames() == old(self).rx.ready_frames()
                    &&& final(self).rx.slots@[reservation.index as int].state is Free
                    &&& final(self).rx.occupied == old(self).rx.occupied - 1
                    &&& final(self).wakes == old(self).wakes
                },
            },
    {
        if len < ETHERNET_HEADER_LEN {
            self.too_short_drops = self.too_short_drops.wrapping_add(1);
            self.rx.release(reservation.index, reservation.epoch);
            return Err(RxError::TooShort { len });
        }
        if len > MAX_FRAME_LEN {
            self.too_large_drops = self.too_large_drops.wrapping_add(1);
            self.rx.release(reservation.index, reservation.epoch);
            return Err(RxError::TooLarge { len });
        }
        let current: u32 = self.epoch;
        let outcome = self.rx.commit(reservation.index, reservation.epoch, current, len);
        if outcome == CommitOutcome::Committed {
            self.wakes.rx = true;
            Ok(())
        } else {
            self.stale_drops = self.stale_drops.wrapping_add(1);
            Err(RxError::StaleEpoch)
        }
    }

    /// Copies a complete frame into the bounded receive queue.
    pub fn push_rx(&mut self, frame: &[u8]) -> (result: Result<(), RxError>)
        requires
            old(self).wf(),
        ensures
            final(self).wf(),
            final(self).same_but_rx(old(self)),
            result == (if frame@.len() < ETHERNET_HEADER_LEN {
                Err(RxError::TooShort { len: frame@.len() as usize })
            } else if frame@.len() > MAX_FRAME_LEN {
                Err(RxError::TooLarge { len: frame@.len() as usize })
            } else if old(self).rx.occupied == RX {
                Err(RxError::Full)
            } else {
                Ok(())
            }),
            match result {
                Ok(()) => {
                    &&& final(self).rx.ready_frames() == old(self).rx.ready_frames().push(frame@)
                    &&& final(self).rx.occupied == old(self).rx.occupied + 1
                    &&& exists|index: int|
                        {
                            &&& #[trigger] old(self).rx.is_first_free(index)
                            &&& final(self).rx.others_kept(&old(self).rx, index)
                            &&& final(self).rx.frames@[index].bytes@ == frame@ + old(
                                self).rx.frames@[index].bytes@.skip(frame@.len() as int)
                        }
                    &&& final(self).wakes == (Wakes { rx: true, ..old(self).wakes })
                },
                Err(_) => {
                    &&& final(self).rx == old(self).rx
                    &&& final(self).wakes == old(self).wakes
                },
            },
            final(self).drops() == old(self).drops_after(result),
    {
        let len: usize = frame.len();
        if len < ETHERNET_HEADER_LEN {
            self.too_short_drops = self.too_short_drops.wrapping_add(1);
            return Err(RxError::TooShort { len });
        }
        if len > MAX_FRAME_LEN {
            self.too_large_drops = self.too_large_drops.wrapping_add(1);
            return Err(RxError::TooLarge { len });
        }
        let reservation = match self.reserve_rx() {
            Some(reservation) => reservation,
            None => {
                proof {
                    self.rx.lemma_occupied();
                }
                self.full_drops = self.full_drops.wrapping_add(1);
                return Err(RxError::Full);
            },
        };
        proof {
            old(self).rx.lemma_occupied();
        }
        let ghost index: int = reservation.index as int;
        self.rx.store(reservation.index, frame);
        let result = self.commit_reservation(reservation, len);
        assert(self.rx.others_kept(&old(self).rx, index));
        result
    }

    /// Gives a receive slot back, if it is still owned.
    pub fn release_rx(&mut self, index: usize, epoch: u32)
        requires
            old(self).wf(),
            index < RX,
        ensures
            final(self).wf(),
            final(self).same_but_rx(old(self)),
            final(self).drops() == old(self).drops(),
            final(self).wakes == old(self).wakes,
            final(self).rx.ready_frames() == old(self).rx.ready_frames(),
            final(self).rx.only_slot_changed(&old(self).rx, index as int),
            if old(self).rx.owned(index as int, epoch) {
                final(self).rx.slots@[index as int].state is Free && final(self).rx.occupied == old(
                    self).rx.occupied - 1
            } else {
                *final(self) == *old(self)
            },
    {
        self.rx.release(index, epoch);
    }

    /// Takes the oldest received frame together with a transmit slot.
    ///
    /// Both are needed: without a free transmit slot the frame stays queued.
    pub fn try_receive(&mut self) -> (tokens: Option<(RxToken, TxToken)>)
        requires
            old(self).wf(),
        ensures
            final(self).wf(),
            final(self).epoch == old(self).epoch,
            final(self).link == old(self).link,
            final(self).interface == old(self).interface,
            final(self).drops() == old(self).drops(),
            final(self).wakes == old(self).wakes,
            final(self).tx.ready_frames() == old(self).tx.ready_frames(),
            tokens is Some <==> old(self).rx.ready_frames().len() > 0 && old(self).tx.occupied < TX,
            match tokens {
                Some((rx, tx)) => {
                    &&& rx.epoch == old(self).epoch && tx.epoch == old(self).epoch
                    &&& final(self).rx.owned(rx.index as int, rx.epoch)
                    &&& final(self).tx.owned(tx.index as int, tx.epoch)
                    &&& final(self).rx.frame(rx.index as int) == old(self).rx.ready_frames()[0]
                    &&& final(self).rx.ready_frames() == old(self).rx.ready_frames().drop_first()
                    &&& final(self).rx.occupied == old(self).rx.occupied
                    &&& final(self).tx.occupied == old(self).tx.occupied + 1
                    &&& final(self).rx.only_slot_changed(&old(self).rx, rx.index as int)
                    &&& final(self).tx.only_slot_changed(&old(self).tx, tx.index as int)
                    &&& old(self).tx.is_first_free(tx.index as int)
                },
                None => *final(self) == *old(self),
            },
    {
        if self.rx.oldest_ready().is_none() {
            return None;
        }
        let epoch: u32 = self.epoch;
        let tx_index: usize = match self.tx.reserve(epoch) {
            Some(index) => index,
            None => return None,
        };
        match self.rx.take() {
            Some((rx_index, rx_epoch)) => Some(
                (
                    RxToken { index: rx_index, epoch: rx_epoch },
                    TxToken { index: tx_index, epoch },
                ),
            ),
            None => {
                assert(false);
                None
            },
        }
    }

    /// Takes a free transmit slot.
    pub fn try_transmit(&mut self) -> (token: Option<TxToken>)
        requires
            old(self).wf(),
        ensures
            final(self).wf(),
            final(self).same_but_tx(old(self)),
            final(self).wakes == old(self).wakes,
            final(self).tx.ready_frames() == old(self).tx.ready_frames(),
            token is Some <==> old(self).tx.occupied < TX,
            match token {
                Some(token) => {
                    &&& token.epoch == old(self).epoch
                    &&& final(self).tx.owned(token.index as int, token.epoch)
                    &&& final(self).tx.occupied == old(self).tx.occupied + 1
                    &&& final(self).tx.only_slot_changed(&old(self).tx, token.index as int)
                    &&& old(self).tx.is_first_free(token.index as int)
                },
                None => *final(self) == *old(self),
            },
    {
        let epoch: u32 = self.epoch;
        match self.tx.reserve(epoch) {
            Some(index) => Some(TxToken { index, epoch }),
            None => None,
        }
    }

    /// Offers a received frame to the network stack while the link is up.
    pub fn poll_receive(&mut self) -> (tokens: Option<(RxToken, TxToken)>)
        requires
            old(self).wf(),
        ensures
            final(self).wf(),
            final(self).epoch == old(self).epoch,
            final(self).link == old(self).link,
            final(self).interface == old(self).interface,
            final(self).drops() == old(self).drops(),
            final(self).wakes == old(self).wakes,
            final(self).tx.ready_frames() == old(self).tx.ready_frames(),
            tokens is Some <==> old(self).link is Up && old(self).rx.ready_frames().len() > 0
                && old(self).tx.occupied < TX,
            match tokens {
                Some((rx, tx)) => {
                    &&& rx.epoch == old(self).epoch && tx.epoch == old(self).epoch
                    &&& final(self).rx.owned(rx.index as int, rx.epoch)
                    &&& final(self).tx.owned(tx.index as int, tx.epoch)
                    &&& final(self).rx.frame(rx.index as int) == old(self).rx.ready_frames()[0]
                    &&& final(self).rx.ready_frames() == old(self).rx.ready_frames().drop_first()
                    &&& final(self).rx.occupied == old(self).rx.occupied
                    &&& final(self).tx.occupied == old(self).tx.occupied + 1
                    &&& final(self).rx.only_slot_changed(&old(self).rx, rx.index as int)
                    &&& final(self).tx.only_slot_changed(&old(self).tx, tx.index as int)
                    &&& old(self).tx.is_first_free(tx.index as int)
                },
                None => *final(self) == *old(self),
            },
    {
        if self.link != LinkState::Up {
            return None;
        }
        self.try_receive()
    }

    /// The wakes that a receiver without a frame waits for: new frames, and
    /// on an up link also transmit space.
    pub fn receive_interest(&self) -> (interest: Wakes)
        ensures
            interest == (Wakes {
                rx: true,
                tx_space: self.link is Up,
                tx_ready: false,
                link: false,
            }),
    {
        Wakes { rx: true, tx_space: self.link == LinkState::Up, tx_ready: false, link: false }
    }

    /// Offers a transmit slot to the network stack while the link is up.
    pub fn poll_transmit(&mut self) -> (token: Option<TxToken>)
        requires
            old(self).wf(),
        ensures
            final(self).wf(),
            final(self).same_but_tx(old(self)),
            final(self).wakes == old(self).wakes,
            final(self).tx.ready_frames() == old(self).tx.ready_frames(),
            token is Some <==> old(self).link is Up && old(self).tx.occupied < TX,
            match token {
                Some(token) => {
                    &&& token.epoch == old(self).epoch
                    &&& final(self).tx.owned(token.index as int, token.epoch)
                    &&& final(self).tx.occupied == old(self).tx.occupied + 1
                    &&& final(self).tx.only_slot_changed(&old(self).tx, token.index as int)
                    &&& old(self).tx.is_first_free(token.index as int)
                },
                None => *final(self) == *old(self),
            },
    {
        if self.link != LinkState::Up {
            return None;
        }
        self.try_transmit()
    }

    /// Frame limit announced to the network stack.
    pub fn max_transmission_unit(&self) -> (limit: usize)
        ensures
            limit == (match self.interface {
                Some(interface) => ETHERNET_HEADER_LEN + interface.mtu.bytes(),
                None => MAX_FRAME_LEN as int,
            }),
            limit <= MAX_FRAME_LEN,
    {
        match self.interface {
            Some(interface) => interface.mtu().frame_len(),
            None => MAX_FRAME_LEN,
        }
    }

    /// Address announced to the network stack; zeros before configuration.
    pub fn hardware_address(&self) -> (mac: [u8; 6])
        ensures
            mac@ == (match self.interface {
                Some(interface) => interface.mac.octets(),
                None => Seq::new(6, |i: int| 0u8),
            }),
    {
        match self.interface {
            Some(interface) => *interface.mac().as_bytes(),
            None => [0u8; 6],
        }
    }

    /// Length of a received frame, while its token is current.
    pub fn rx_len_for(&self, index: usize, epoch: u32) -> (len: Option<usize>)
        ensures
            len == (if self.rx.owned(index as int, epoch) && self.epoch == epoch {
                Some(self.rx.slots@[index as int].len)
            } else {
                None
            }),
    {
        self.rx.len_for(index, epoch, self.epoch)
    }

    /// Length of a transmit slot's frame, while its owner is current.
    pub fn tx_len_for(&self, index: usize, epoch: u32) -> (len: Option<usize>)
        ensures
            len == (if self.tx.owned(index as int, epoch) && self.epoch == epoch {
                Some(self.tx.slots@[index as int].len)
            } else {
                None
            }),
    {
        self.tx.len_for(index, epoch, self.epoch)
    }

    /// Returns whether a transmit slot is still held by its current owner.
    pub fn tx_reserved(&self, index: usize, epoch: u32) -> (reserved: bool)
        ensures
            reserved == (self.tx.owned(index as int, epoch) && self.epoch == epoch),
    {
        self.tx_len_for(index, epoch).is_some()
    }

    /// Borrows the frame of a received-frame token; a token from before a
    /// link reset shows no frame.
    pub fn rx_frame(&self, token: &RxToken) -> (frame: Option<&[u8]>)
        requires
            self.wf(),
        ensures
            match frame {
                Some(frame) => {
                    &&& self.rx.owned(token.index as int, token.epoch)
                    &&& self.epoch == token.epoch
                    &&& frame@ == self.rx.frame(token.index as int)
                },
                None => !self.rx.owned(token.index as int, token.epoch) || self.epoch
                    != token.epoch,
            },
    {
        if self.rx_len_for(token.index, token.epoch).is_none() {
            return None;
        }
        Some(self.rx.frame_bytes(token.index))
    }

    /// Borrows the first `len` bytes of a transmit token's storage; a token
    /// from before a link reset shows none.
    pub fn tx_storage(&self, token: &TxToken, len: usize) -> (bytes: Option<&[u8]>)
        requires
            len <= MAX_FRAME_LEN,
        ensures
            match bytes {
                Some(bytes) => {
                    &&& self.tx.owned(token.index as int, token.epoch)
                    &&& self.epoch == token.epoch
                    &&& bytes@ == self.tx.frames@[token.index as int].bytes@.subrange(
                        0,
                        len as int,
                    )
                },
                None => !self.tx.owned(token.index as int, token.epoch) || self.epoch
                    != token.epoch,
            },
    {
        if !self.tx_reserved(token.index, token.epoch) {
            return None;
        }
        let bytes: &[u8] = &self.tx.frames[token.index].bytes;
        Some(&bytes[0..len])
    }

    /// Queues the frame of a transmit token.
    ///
    /// A token from before a link reset only gives its slot back.
    pub fn commit_tx(&mut self, token: TxToken, frame: &[u8]) -> (outcome: CommitOutcome)
        requires
            old(self).wf(),
            token.index < TX,
            frame@.len() <= MAX_FRAME_LEN,
        ensures
            final(self).wf(),
            final(self).same_but_tx(old(self)),
            final(self).tx.others_kept(&old(self).tx, token.index as int),
            outcome == (if !old(self).tx.owned(token.index as int, token.epoch) {
                CommitOutcome::Rejected
            } else if old(self).epoch != token.epoch {
                CommitOutcome::StaleRetired
            } else {
                CommitOutcome::Committed
            }),
            match outcome {
                CommitOutcome::Committed => {
                    &&& final(self).tx.frames@[token.index as int].bytes@ == frame@ + old(
                        self).tx.frames@[token.index as int].bytes@.skip(frame@.len() as int)
                    &&& final(self).tx.ready_frames() == old(self).tx.ready_frames().push(frame@)
                    &&& final(self).tx.occupied == old(self).tx.occupied
                    &&& final(self).wakes == (Wakes { tx_ready: true, ..old(self).wakes })
                },
                CommitOutcome::StaleRetired => {
                    &&& final(self).tx.frames == old(self).tx.frames
                    &&& final(self).tx.ready_frames() == old(self).tx.ready_frames()
                    &&& final(self).tx.occupied == old(self).tx.occupied - 1
                    &&& final(self).wakes == (Wakes { tx_space: true, ..old(self).wakes })
                },
                CommitOutcome::Rejected => *final(self) == *old(self),
            },
    {
        if self.tx_reserved(token.index, token.epoch) {
            self.tx.store(token.index, frame);
        }
        let current: u32 = self.epoch;
        let outcome = self.tx.commit(token.index, token.epoch, current, frame.len());
        match outcome {
            CommitOutcome::Committed => {
                self.wakes.tx_ready = true;
            },
            CommitOutcome::StaleRetired => {
                self.wakes.tx_space = true;
            },
            CommitOutcome::Rejected => {},
        }
        outcome
    }

    /// Gives a transmit slot back, if it is still owned.
    pub fn release_tx(&mut self, index: usize, epoch: u32)
        requires
            old(self).wf(),
            index < TX,
        ensures
            final(self).wf(),
            final(self).same_but_tx(old(self)),
            final(self).tx.ready_frames() == old(self).tx.ready_frames(),
            final(self).tx.only_slot_changed(&old(self).tx, index as int),
            if old(self).tx.owned(index as int, epoch) {
                &&& final(self).tx.slots@[index as int].state is Free
                &&& final(self).tx.occupied == old(self).tx.occupied - 1
                &&& final(self).wakes == (Wakes { tx_space: true, ..old(self).wakes })
            } else {
                *final(self) == *old(self)
            },
    {
        if self.tx.release(index, epoch) {
            self.wakes.tx_space = true;
        }
    }

    /// Takes the oldest queued frame as a retryable lease.
    pub fn take_tx(&mut self) -> (lease: Option<TxFrame>)
        requires
            old(self).wf(),
        ensures
            final(self).wf(),
            final(self).same_but_tx(old(self)),
            final(self).wakes == old(self).wakes,
            lease is Some <==> old(self).tx.ready_frames().len() > 0,
            match lease {
                Some(lease) => {
                    &&& lease.live(final(self))
                    &&& lease.epoch == old(self).epoch
                    &&& lease.index == old(self).tx.queue@[0]
                    &&& final(self).tx.frame(lease.index as int) == old(self).tx.ready_frames()[0]
                    &&& final(self).tx.ready_frames() == old(self).tx.ready_frames().drop_first()
                    &&& final(self).tx.occupied == old(self).tx.occupied
                    &&& final(self).tx.only_slot_changed(&old(self).tx, lease.index as int)
                },
                None => *final(self) == *old(self),
            },
    {
        match self.tx.take() {
            Some((index, epoch)) => Some(TxFrame { index, epoch, released: false }),
            None => None,
        }
    }
}

impl TxFrame {
    /// The lease still owns its slot.
    pub open spec fn live<const RX: usize, const TX: usize>(
        &self,
        device: &SharedDevice<RX, TX>,
    ) -> bool {
        !self.released && device.tx.owned(self.index as int, self.epoch)
    }

    /// Returns the queued frame length, or zero after a reset or release.
    pub fn len<const RX: usize, const TX: usize>(&self, device: &SharedDevice<RX, TX>) -> (len:
        usize)
        ensures
            len == (if device.tx.owned(self.index as int, self.epoch) && device.epoch
                == self.epoch {
                device.tx.slots@[self.index as int].len
            } else {
                0
            }),
    {
        match device.tx_len_for(self.index, self.epoch) {
            Some(len) => len,
            None => 0,
        }
    }

    /// Borrows the queued frame for one send attempt.
    pub fn frame<'a, const RX: usize, const TX: usize>(
        &self,
        device: &'a SharedDevice<RX, TX>,
    ) -> (frame: Option<&'a [u8]>)
        requires
            device.wf(),
        ensures
            match frame {
                Some(frame) => {
                    &&& device.tx.owned(self.index as int, self.epoch)
                    &&& device.epoch == self.epoch
                    &&& frame@ == device.tx.frame(self.index as int)
                },
                None => !device.tx.owned(self.index as int, self.epoch) || device.epoch
                    != self.epoch,
            },
    {
        if device.tx_len_for(self.index, self.epoch).is_none() {
            return None;
        }
        Some(device.tx.frame_bytes(self.index))
    }

    /// Returns whether a link reset or a release invalidated this lease.
    pub fn is_stale<const RX: usize, const TX: usize>(&self, device: &SharedDevice<RX, TX>) -> (
    stale: bool)
        ensures
            stale == !(device.tx.owned(self.index as int, self.epoch) && device.epoch
                == self.epoch),
    {
        device.tx_len_for(self.index, self.epoch).is_none()
    }

    /// Reports the transport result. `WouldBlock` retains ownership.
    pub fn report_submit<const RX: usize, const TX: usize>(
        &mut self,
        device: &mut SharedDevice<RX, TX>,
        result: TxSubmitResult,
    )
        requires
            old(device).wf(),
            old(self).index < TX,
        ensures
            final(device).wf(),
            final(self).index == old(self).index,
            final(self).epoch == old(self).epoch,
            final(self).released == (old(self).released || !(result is WouldBlock)),
            if result is WouldBlock || !old(self).live(old(device)) {
                *final(device) == *old(device)
            } else {
                &&& final(device).same_but_tx(old(device))
                &&& final(device).tx.ready_frames() == old(device).tx.ready_frames()
                &&& final(device).tx.occupied == old(device).tx.occupied - 1
                &&& final(device).tx.slots@[old(self).index as int].state is Free
                &&& final(device).tx.only_slot_changed(&old(device).tx, old(self).index as int)
                &&& final(device).wakes == (Wakes { tx_space: true, ..old(device).wakes })
            },
    {
        if result != TxSubmitResult::WouldBlock {
            self.release_inner(device);
        }
    }

    /// Releases this lease.
    pub fn release<const RX: usize, const TX: usize>(self, device: &mut SharedDevice<RX, TX>)
        requires
            old(device).wf(),
            self.index < TX,
        ensures
            final(device).wf(),
            if !self.live(old(device)) {
                *final(device) == *old(device)
            } else {
                &&& final(device).same_but_tx(old(device))
                &&& final(device).tx.ready_frames() == old(device).tx.ready_frames()
                &&& final(device).tx.occupied == old(device).tx.occupied - 1
                &&& final(device).tx.slots@[self.index as int].state is Free
                &&& final(device).tx.only_slot_changed(&old(device).tx, self.index as int)
                &&& final(device).wakes == (Wakes { tx_space: true, ..old(device).wakes })
            },
    {
        let mut lease = self;
        lease.release_inner(device);
    }

    fn release_inner<const RX: usize, const TX: usize>(
        &mut self,
        device: &mut SharedDevice<RX, TX>,
    )
        requires
            old(device).wf(),
            old(self).index < TX,
        ensures
            final(device).wf(),
            final(self).index == old(self).index,
            final(self).epoch == old(self).epoch,
            final(self).released,
            if !old(self).live(old(device)) {
                *final(device) == *old(device)
            } else {
                &&& final(device).same_but_tx(old(device))
                &&& final(device).tx.ready_frames() == old(device).tx.ready_frames()
                &&& final(device).tx.occupied == old(device).tx.occupied - 1
                &&& final(device).tx.slots@[old(self).index as int].state is Free
                &&& final(device).tx.only_slot_changed(&old(device).tx, old(self).index as int)
                &&& final(device).wakes == (Wakes { tx_space: true, ..old(device).wakes })
            },
    {
        if !self.released {
            device.release_tx(self.index, self.epoch);
            self.released = true;
        }
    }
}

/// Result of one nonblocking [`Reactor::service_once`] pass.
#[derive(Clone, Copy, PartialEq, Eq)]
pub struct ServiceReport {
    /// Link state after polling.
    pub link: LinkState,
    /// Link event observed in this pass, if any.
    pub event: Option<WifiEvent>,
    /// Whether a received frame was queued.
    pub rx_queued: bool,
    /// Transmit progress made by this pass.
    pub tx: TxProgress,
}

/// What the reactor does next for the transmit direction.
#[derive(Clone, Copy, Debug, PartialEq, Eq, Structural)]
pub enum TxStep {
    /// Nothing is to be sent in this pass.
    Done(TxProgress),
    /// The leased frame is to be offered to the endpoint.
    Send,
}

/// Link state that an endpoint status stands for.
pub open spec fn link_of(result: PollResult) -> LinkState {
    if result.status is Connected {
        LinkState::Up
    } else {
        LinkState::Down
    }
}

/// What a receive attempt of the endpoint means for the queue: a frame to
/// commit, nothing, or an error to report.
pub open spec fn receive_outcome(answer: Result<ReceiveResult, Error>) -> Result<
    Option<usize>,
    Error,
> {
    match answer {
        Ok(ReceiveResult::Frame(len)) => Ok(Some(len)),
        Ok(_) => Ok(None),
        Err(Error::WouldBlock) => Ok(None),
        Err(Error::TimedOut) => Ok(None),
        Err(error) => Err(error),
    }
}

/// What a frame length means for the queue while the link epoch holds.
pub open spec fn length_fault(len: usize) -> Result<(), RxError> {
    if len < ETHERNET_HEADER_LEN {
        Err(RxError::TooShort { len })
    } else if len > MAX_FRAME_LEN {
        Err(RxError::TooLarge { len })
    } else {
        Ok(())
    }
}

/// What a receive pass reports for the endpoint's answer.
pub open spec fn receive_report(answer: Result<ReceiveResult, Error>) -> Result<bool, Error> {
    match receive_outcome(answer) {
        Err(error) => Err(error),
        Ok(None) => Ok(false),
        Ok(Some(len)) => if length_fault(len) is Ok {
            Ok(true)
        } else {
            Err(Error::Protocol)
        },
    }
}

/// What a transmit pass reports for the endpoint's answer to a frame of
/// `frame_len` bytes.
pub open spec fn send_report(answer: Result<usize, Error>, frame_len: int) -> Result<
    TxProgress,
    Error,
> {
    match answer {
        Ok(len) => if len == frame_len {
            Ok(TxProgress::Accepted)
        } else {
            Err(Error::Protocol)
        },
        Err(Error::WouldBlock) => Ok(TxProgress::WouldBlock),
        Err(Error::NotConnected) => Err(Error::NotConnected),
        Err(Error::NotReady) => Err(Error::NotConnected),
        Err(error) => Err(error),
    }
}

/// The endpoint's answer to a frame says that the connection is lost.
pub open spec fn connection_lost(answer: Result<usize, Error>) -> bool {
    answer == Err::<usize, Error>(Error::NotConnected) || answer == Err::<usize, Error>(
        Error::NotReady,
    )
}

/// What a poll answer reports: no answer yet is no event.
pub open spec fn poll_report(answer: Result<PollResult, Error>) -> Result<
    Option<WifiEvent>,
    Error,
> {
    match answer {
        Ok(result) => Ok(result.event),
        Err(Error::WouldBlock) => Ok(None),
        Err(Error::TimedOut) => Ok(None),
        Err(error) => Err(error),
    }
}

impl<const RX: usize, const TX: usize> SharedDevice<RX, TX> {
    /// What a poll answer makes of the device: a link that goes down, like a
    /// disconnect event, resets the queues; no answer changes nothing.
    pub open spec fn polled_from(&self, before: &Self, answer: Result<PollResult, Error>) -> bool {
        match answer {
            Ok(result) => {
                let link = link_of(result);
                if link is Down && (before.link is Up || result.event == Some(
                    WifiEvent::Disconnected,
                )) {
                    self.reset_from(before, link)
                } else if link == before.link {
                    *self == *before
                } else {
                    *self == (SharedDevice {
                        link,
                        wakes: (Wakes {
                            rx: true,
                            tx_space: true,
                            link: true,
                            ..before.wakes
                        }),
                        ..*before
                    })
                }
            },
            Err(_) => *self == *before,
        }
    }
}

/// The sole owner of the synchronous endpoint.
pub struct Reactor<E: L2Endpoint> {
    pub endpoint: E,
    pub pending_tx: Option<TxFrame>,
}

impl<E: L2Endpoint> Reactor<E> {
    /// A retained lease still owns its slot of the device.
    pub open spec fn wf<const RX: usize, const TX: usize>(
        &self,
        device: &SharedDevice<RX, TX>,
    ) -> bool {
        &&& device.wf()
        &&& self.pending_tx matches Some(lease) ==> lease.live(device)
    }

    /// The bytes that an up link has for the endpoint: the retained lease
    /// while its epoch holds, otherwise the oldest queued frame.
    pub open spec fn offer<const RX: usize, const TX: usize>(
        &self,
        device: &SharedDevice<RX, TX>,
    ) -> Option<Seq<u8>> {
        match self.pending_tx {
            Some(lease) => if lease.epoch == device.epoch {
                Some(device.tx.frame(lease.index as int))
            } else {
                None
            },
            None => if device.tx.ready_frames().len() > 0 {
                Some(device.tx.ready_frames()[0])
            } else {
                None
            },
        }
    }

    /// The slot of the offered frame.
    pub open spec fn offered_slot<const RX: usize, const TX: usize>(
        &self,
        device: &SharedDevice<RX, TX>,
    ) -> int {
        match self.pending_tx {
            Some(lease) => lease.index as int,
            None => device.tx.queue@[0],
        }
    }

    /// The frames that stay queued once the offer is taken.
    pub open spec fn queued_behind<const RX: usize, const TX: usize>(
        &self,
        device: &SharedDevice<RX, TX>,
    ) -> Seq<Seq<u8>> {
        if self.pending_tx is None && device.tx.ready_frames().len() > 0 {
            device.tx.ready_frames().drop_first()
        } else {
            device.tx.ready_frames()
        }
    }

    /// How an offered frame ends: a busy endpoint keeps the lease and its
    /// bytes, a lost connection gives the slot back and resets the link, and
    /// every other answer gives the slot back. No other slot is touched.
    pub open spec fn frame_settled<const RX: usize, const TX: usize>(
        before: &Self,
        after: &Self,
        before_device: &SharedDevice<RX, TX>,
        after_device: &SharedDevice<RX, TX>,
        answer: Result<usize, Error>,
    ) -> bool {
        let slot = before.offered_slot(before_device);
        if answer == Err::<usize, Error>(Error::WouldBlock) {
            &&& after.pending_tx matches Some(lease) && lease.index == slot
            &&& before.pending_tx is Some ==> after.pending_tx == before.pending_tx
            &&& after.offer(after_device) == before.offer(before_device)
            &&& after_device.same_but_tx(before_device)
            &&& after_device.wakes == before_device.wakes
            &&& after_device.tx.ready_frames() == before.queued_behind(before_device)
            &&& after_device.tx.occupied == before_device.tx.occupied
            &&& after_device.tx.only_slot_changed(&before_device.tx, slot)
        } else if connection_lost(answer) {
            &&& after.pending_tx is None
            &&& exists|freed: SharedDevice<RX, TX>|
                {
                    &&& freed.same_but_tx(before_device)
                    &&& freed.tx.slots@[slot].state is Free
                    &&& freed.tx.only_slot_changed(&before_device.tx, slot)
                    &&& #[trigger] after_device.reset_from(&freed, LinkState::Down)
                }
        } else {
            &&& after.pending_tx is None
            &&& after_device.same_but_tx(before_device)
            &&& after_device.wakes == (Wakes { tx_space: true, ..before_device.wakes })
            &&& after_device.tx.ready_frames() == before.queued_behind(before_device)
            &&& after_device.tx.occupied == before_device.tx.occupied - 1
            &&& after_device.tx.slots@[slot].state is Free
            &&& after_device.tx.only_slot_changed(&before_device.tx, slot)
        }
    }

    /// Pairs an opened endpoint with a device.
    pub fn new<const RX: usize, const TX: usize>(
        endpoint: E,
        device: &mut SharedDevice<RX, TX>,
    ) -> (result: Result<Self, DriverError>)
        requires
            old(device).wf(),
        ensures
            final(device).wf(),
            match result {
                Ok(reactor) => {
                    &&& reactor.endpoint == endpoint
                    &&& reactor.pending_tx is None
                    &&& reactor.wf(final(device))
                    &&& old(device).interface is None
                    &&& final(device).interface is Some
                    &&& call_ensures(E::interface, (&endpoint,), final(device).interface)
                    &&& *final(device) == old(device).configured(final(device).interface->0)
                },
                Err(error) => {
                    &&& (error == DriverError::NotOpen && call_ensures(
                        E::interface,
                        (&endpoint,),
                        None,
                    )) || (error == DriverError::AlreadyConfigured && old(device).interface is Some)
                    &&& *final(device) == *old(device)
                },
            },
    {
        let interface = match endpoint.interface() {
            Some(interface) => interface,
            None => return Err(DriverError::NotOpen),
        };
        device.configure(interface)?;
        Ok(Reactor { endpoint, pending_tx: None })
    }

    /// Applies one poll answer of the endpoint to the link.
    ///
    /// No answer yet changes nothing; a disconnect event resets the queues
    /// even when the link was already down.
    pub fn apply_poll<const RX: usize, const TX: usize>(
        &mut self,
        device: &mut SharedDevice<RX, TX>,
        answer: Result<PollResult, Error>,
    ) -> (event: Result<Option<WifiEvent>, Error>)
        requires
            old(self).wf(old(device)),
        ensures
            final(self).wf(final(device)),
            final(self).endpoint == old(self).endpoint,
            final(self).pending_tx == old(self).pending_tx,
            event == poll_report(answer),
            final(device).polled_from(old(device), answer),
            final(device).held_slots_kept(old(device), None),
    {
        match answer {
            Ok(result) => {
                let event = result.event();
                let down_event: bool = match event {
                    Some(WifiEvent::Disconnected) => true,
                    _ => false,
                };
                let link = if result.status().is_connected() {
                    LinkState::Up
                } else {
                    LinkState::Down
                };
                device.update_link(link, down_event);
                Ok(event)
            },
            Err(Error::WouldBlock) => Ok(None),
            Err(Error::TimedOut) => Ok(None),
            Err(error) => Err(error),
        }
    }

    /// Applies one receive answer to the reserved slot that the endpoint was
    /// given. Returns whether a frame was queued.
    pub fn finish_rx<const RX: usize, const TX: usize>(
        &mut self,
        device: &mut SharedDevice<RX, TX>,
        reservation: RxReservation,
        answer: Result<ReceiveResult, Error>,
    ) -> (queued: Result<bool, Error>)
        requires
            old(self).wf(old(device)),
            old(device).rx.owned(reservation.index as int, reservation.epoch),
        ensures
            final(self).wf(final(device)),
            final(self).endpoint == old(self).endpoint,
            final(self).pending_tx == old(self).pending_tx,
            final(device).same_but_rx(old(device)),
            final(device).rx.only_slot_changed(&old(device).rx, reservation.index as int),
            queued == (match receive_outcome(answer) {
                Err(error) => Err(error),
                Ok(None) => Ok(false),
                Ok(Some(len)) => match old(device).commit_result(reservation, len) {
                    Ok(()) => Ok(true),
                    Err(RxError::StaleEpoch) => Ok(false),
                    Err(_) => Err(Error::Protocol),
                },
            }),
            match receive_outcome(answer) {
                Ok(Some(len)) => {
                    &&& final(device).drops() == old(device).drops_after(
                        old(device).commit_result(reservation, len),
                    )
                    &&& if queued == Ok::<bool, Error>(true) {
                        &&& final(device).rx.ready_frames() == old(device).rx.ready_frames().push(
                            old(device).rx.frames@[reservation.index as int].bytes@.subrange(
                                0,
                                len as int,
                            ),
                        )
                        &&& final(device).rx.occupied == old(device).rx.occupied
                        &&& final(device).rx.slots@[reservation.index as int].state is Ready
                        &&& final(device).wakes == (Wakes { rx: true, ..old(device).wakes })
                    } else {
                        &&& final(device).rx.ready_frames() == old(device).rx.ready_frames()
                        &&& final(device).rx.occupied == old(device).rx.occupied - 1
                        &&& final(device).rx.slots@[reservation.index as int].state is Free
                        &&& final(device).wakes == old(device).wakes
                    }
                },
                _ => {
                    &&& final(device).rx.ready_frames() == old(device).rx.ready_frames()
                    &&& final(device).rx.occupied == old(device).rx.occupied - 1
                    &&& final(device).rx.slots@[reservation.index as int].state is Free
                    &&& final(device).drops() == old(device).drops()
                    &&& final(device).wakes == old(device).wakes
                },
            },
    {
        match answer {
            Ok(ReceiveResult::Frame(len)) => {
                match device.commit_reservation(reservation, len) {
                    Ok(()) => Ok(true),
                    Err(RxError::StaleEpoch) => Ok(false),
                    Err(_) => Err(Error::Protocol),
                }
            },
            Ok(_) => {
                device.release_rx(reservation.index, reservation.epoch);
                Ok(false)
            },
            Err(Error::WouldBlock) => {
                device.release_rx(reservation.index, reservation.epoch);
                Ok(false)
            },
            Err(Error::TimedOut) => {
                device.release_rx(reservation.index, reservation.epoch);
                Ok(false)
            },
            Err(error) => {
                device.release_rx(reservation.index, reservation.epoch);
                Err(error)
            },
        }
    }

    /// Receives at most one frame from the endpoint, which writes into the
    /// storage of the first free slot.
    ///
    /// Without a free slot the endpoint is not asked.
    pub fn service_rx<const RX: usize, const TX: usize>(
        &mut self,
        device: &mut SharedDevice<RX, TX>,
    ) -> (queued: Result<bool, Error>)
        requires
            old(self).wf(old(device)),
        ensures
            final(self).wf(final(device)),
            final(self).pending_tx == old(self).pending_tx,
            final(device).same_but_rx(old(device)),
            old(device).rx.occupied == RX ==> queued == Ok::<bool, Error>(false) && *final(device)
                == *old(device) && final(self).endpoint == old(self).endpoint,
            old(device).rx.occupied != RX ==> exists|
                index: int,
                endpoint: &mut E,
                buffer: &mut [u8],
                answer: Result<ReceiveResult, Error>,
            |
                {
                    &&& #[trigger] old(device).rx.is_first_free(index)
                    &&& final(device).rx.others_kept(&old(device).rx, index)
                    &&& *endpoint == old(self).endpoint
                    &&& *final(endpoint) == final(self).endpoint
                    &&& buffer@ == old(device).rx.frames@[index].bytes@
                    &&& final(buffer)@ == final(device).rx.frames@[index].bytes@
                    &&& #[trigger] call_ensures(E::recv, (endpoint, buffer), answer)
                    &&& queued == receive_report(answer)
                    &&& match receive_outcome(answer) {
                        Ok(Some(len)) => {
                            &&& final(device).drops() == old(device).drops_after(length_fault(len))
                            &&& length_fault(len) is Ok ==> final(device).rx.ready_frames() == old(
                                device).rx.ready_frames().push(
                                final(buffer)@.subrange(0, len as int),
                            )
                        },
                        _ => final(device).drops() == old(device).drops(),
                    }
                },
            final(device).held_slots_kept(old(device), None),
            if queued == Ok::<bool, Error>(true) {
                &&& final(device).rx.occupied == old(device).rx.occupied + 1
                &&& final(device).wakes == (Wakes { rx: true, ..old(device).wakes })
            } else {
                &&& final(device).rx.ready_frames() == old(device).rx.ready_frames()
                &&& final(device).rx.occupied == old(device).rx.occupied
                &&& final(device).wakes == old(device).wakes
            },
    {
        proof {
            device.rx.lemma_occupied();
        }
        let reservation = match device.reserve_rx() {
            Some(reservation) => reservation,
            None => return Ok(false),
        };
        let ghost index: int = reservation.index as int;
        let ghost reserved = device.rx;
        let buffer = device.rx_buffer_mut(reservation.index, reservation.epoch);
        let answer = self.endpoint.recv(buffer);
        proof {
            device.rx.lemma_bytes_changed(&reserved, index);
        }
        let queued = self.finish_rx(device, reservation, answer);
        assert(device.rx.others_kept(&old(device).rx, index));
        queued
    }

    /// Picks the frame to offer to the endpoint in this pass.
    ///
    /// While the link is not up a retained lease is dropped. A lease from
    /// before a link reset is dropped as well; otherwise the retained lease
    /// comes first, then the oldest queued frame.
    pub fn begin_tx<const RX: usize, const TX: usize>(
        &mut self,
        device: &mut SharedDevice<RX, TX>,
        link: LinkState,
    ) -> (step: TxStep)
        requires
            old(self).wf(old(device)),
        ensures
            final(self).wf(final(device)),
            final(self).endpoint == old(self).endpoint,
            final(device).same_but_tx(old(device)),
            match step {
                TxStep::Send => {
                    &&& link is Up
                    &&& final(self).pending_tx matches Some(lease) && lease.epoch == final(
                        device).epoch
                    &&& old(self).pending_tx is Some ==> final(self).pending_tx == old(
                        self).pending_tx && *final(device) == *old(device)
                    &&& final(device).wakes == old(device).wakes
                    &&& old(self).offer(old(device)) is Some
                    &&& final(self).offer(final(device)) == old(self).offer(old(device))
                    &&& final(self).pending_tx->0.index == old(self).offered_slot(old(device))
                    &&& final(device).tx.only_slot_changed(
                        &old(device).tx,
                        old(self).offered_slot(old(device)),
                    )
                    &&& old(self).pending_tx is None ==> {
                        &&& old(device).tx.ready_frames().len() > 0
                        &&& final(device).tx.frame(final(self).pending_tx->0.index as int)
                            == old(device).tx.ready_frames()[0]
                        &&& final(device).tx.ready_frames() == old(
                            device).tx.ready_frames().drop_first()
                        &&& final(device).tx.occupied == old(device).tx.occupied
                    }
                },
                TxStep::Done(progress) => {
                    &&& final(self).pending_tx is None
                    &&& final(device).tx.ready_frames() == old(device).tx.ready_frames()
                    &&& match old(self).pending_tx {
                        Some(lease) => {
                            &&& progress == TxProgress::DroppedStale
                            &&& !(link is Up) || lease.epoch != old(device).epoch
                            &&& final(device).tx.occupied == old(device).tx.occupied - 1
                            &&& final(device).tx.slots@[lease.index as int].state is Free
                            &&& final(device).tx.only_slot_changed(
                                &old(device).tx,
                                lease.index as int,
                            )
                            &&& final(device).wakes == (Wakes {
                                tx_space: true,
                                ..old(device).wakes
                            })
                        },
                        None => {
                            &&& progress == TxProgress::Idle
                            &&& !(link is Up) || old(device).tx.ready_frames().len() == 0
                            &&& *final(device) == *old(device)
                        },
                    }
                },
            },
    {
        if link != LinkState::Up {
            return match self.pending_tx.take() {
                Some(lease) => {
                    lease.release(device);
                    TxStep::Done(TxProgress::DroppedStale)
                },
                None => TxStep::Done(TxProgress::Idle),
            };
        }
        if self.pending_tx.is_none() {
            self.pending_tx = device.take_tx();
        }
        match self.pending_tx.take() {
            None => TxStep::Done(TxProgress::Idle),
            Some(lease) => {
                if lease.is_stale(device) {
                    lease.release(device);
                    return TxStep::Done(TxProgress::DroppedStale);
                }
                self.pending_tx = Some(lease);
                TxStep::Send
            },
        }
    }

    /// Applies the endpoint's answer to an offered frame.
    ///
    /// A busy endpoint keeps the lease, so the same bytes are offered again.
    /// Every other answer releases it; a lost connection also resets the
    /// link.
    pub fn finish_tx<const RX: usize, const TX: usize>(
        &mut self,
        device: &mut SharedDevice<RX, TX>,
        answer: Result<usize, Error>,
        frame_len: usize,
    ) -> (progress: Result<TxProgress, Error>)
        requires
            old(self).wf(old(device)),
            old(self).pending_tx is Some,
        ensures
            final(self).wf(final(device)),
            final(self).endpoint == old(self).endpoint,
            progress == send_report(answer, frame_len as int),
            Self::frame_settled(old(self), final(self), old(device), final(device), answer),
    {
        let lease = match self.pending_tx.take() {
            Some(lease) => lease,
            None => {
                assert(false);
                return Ok(TxProgress::Idle);
            },
        };
        match answer {
            Ok(len) => {
                lease.release(device);
                if len == frame_len {
                    Ok(TxProgress::Accepted)
                } else {
                    Err(Error::Protocol)
                }
            },
            Err(Error::WouldBlock) => {
                self.pending_tx = Some(lease);
                Ok(TxProgress::WouldBlock)
            },
            Err(Error::NotConnected) => {
                lease.release(device);
                device.reset_link(LinkState::Down);
                Err(Error::NotConnected)
            },
            Err(Error::NotReady) => {
                lease.release(device);
                device.reset_link(LinkState::Down);
                Err(Error::NotConnected)
            },
            Err(error) => {
                lease.release(device);
                Err(error)
            },
        }
    }

    /// Offers at most one frame to the endpoint.
    pub fn service_tx<const RX: usize, const TX: usize>(
        &mut self,
        device: &mut SharedDevice<RX, TX>,
        link: LinkState,
    ) -> (progress: Result<TxProgress, Error>)
        requires
            old(self).wf(old(device)),
        ensures
            final(self).wf(final(device)),
            final(device).held_slots_kept(old(device), old(self).pending_tx),
            if link is Up && old(self).offer(old(device)) is Some {
                exists|endpoint: &mut E, frame: &[u8], answer: Result<usize, Error>|
                    {
                        &&& *endpoint == old(self).endpoint
                        &&& *final(endpoint) == final(self).endpoint
                        &&& Some(frame@) == old(self).offer(old(device))
                        &&& #[trigger] call_ensures(E::send, (endpoint, frame), answer)
                        &&& progress == send_report(answer, frame@.len() as int)
                        &&& Self::frame_settled(
                            old(self),
                            final(self),
                            old(device),
                            final(device),
                            answer,
                        )
                    }
            } else {
                &&& final(self).endpoint == old(self).endpoint
                &&& final(self).pending_tx is None
                &&& match old(self).pending_tx {
                    Some(lease) => {
                        &&& progress == Ok::<TxProgress, Error>(TxProgress::DroppedStale)
                        &&& final(device).same_but_tx(old(device))
                        &&& final(device).tx.ready_frames() == old(device).tx.ready_frames()
                        &&& final(device).tx.occupied == old(device).tx.occupied - 1
                        &&& final(device).tx.slots@[lease.index as int].state is Free
                        &&& final(device).tx.only_slot_changed(
                            &old(device).tx,
                            lease.index as int,
                        )
                        &&& final(device).wakes == (Wakes { tx_space: true, ..old(device).wakes })
                    },
                    None => {
                        &&& progress == Ok::<TxProgress, Error>(TxProgress::Idle)
                        &&& *final(device) == *old(device)
                    },
                }
            },
    {
        match self.begin_tx(device, link) {
            TxStep::Done(progress) => Ok(progress),
            TxStep::Send => {
                let frame = match &self.pending_tx {
                    Some(lease) => lease.frame(device),
                    None => None,
                };
                match frame {
                    Some(frame) => {
                        let frame_len: usize = frame.len();
                        let answer = self.endpoint.send(frame);
                        self.finish_tx(device, answer, frame_len)
                    },
                    None => {
                        assert(false);
                        Err(Error::Fault)
                    },
                }
            },
        }
    }

    /// Moves at most one frame in each direction: a frame is received only
    /// while the link is up, then one send is attempted.
    pub fn service_queues<const RX: usize, const TX: usize>(
        &mut self,
        device: &mut SharedDevice<RX, TX>,
        event: Option<WifiEvent>,
    ) -> (report: Result<ServiceReport, Error>)
        requires
            old(self).wf(old(device)),
        ensures
            final(self).wf(final(device)),
            final(device).held_slots_kept(old(device), old(self).pending_tx),
            match report {
                Ok(report) => {
                    &&& report.link == final(device).link
                    &&& report.rx_queued ==> report.link is Up
                    &&& report.tx is WouldBlock <==> final(self).pending_tx is Some
                    &&& report.tx is WouldBlock || report.tx is Accepted ==> report.link is Up
                },
                Err(_) => final(self).pending_tx is Some ==> final(self).pending_tx == old(
                    self).pending_tx,
            },
            if old(device).link is Up {
                exists|
                    receiver: &mut Self,
                    receiving: &mut SharedDevice<RX, TX>,
                    queued: Result<bool, Error>,
                |
                    {
                        &&& *receiver == *old(self)
                        &&& *receiving == *old(device)
                        &&& #[trigger] call_ensures(
                            Reactor::<E>::service_rx::<RX, TX>,
                            (receiver, receiving),
                            queued,
                        )
                        &&& match queued {
                            Err(error) => {
                                &&& report == Err::<ServiceReport, Error>(error)
                                &&& *final(self) == *final(receiver)
                                &&& *final(device) == *final(receiving)
                            },
                            Ok(queued) => exists|
                                sender: &mut Self,
                                sending: &mut SharedDevice<RX, TX>,
                                progress: Result<TxProgress, Error>,
                            |
                                {
                                    &&& *sender == *final(receiver)
                                    &&& *sending == *final(receiving)
                                    &&& *final(sender) == *final(self)
                                    &&& *final(sending) == *final(device)
                                    &&& #[trigger] call_ensures(
                                        Reactor::<E>::service_tx::<RX, TX>,
                                        (sender, sending, LinkState::Up),
                                        progress,
                                    )
                                    &&& report == service_report(
                                        final(device).link,
                                        event,
                                        queued,
                                        progress,
                                    )
                                },
                        }
                    }
            } else {
                exists|
                    sender: &mut Self,
                    sending: &mut SharedDevice<RX, TX>,
                    progress: Result<TxProgress, Error>,
                |
                    {
                        &&& *sender == *old(self)
                        &&& *sending == *old(device)
                        &&& *final(sender) == *final(self)
                        &&& *final(sending) == *final(device)
                        &&& #[trigger] call_ensures(
                            Reactor::<E>::service_tx::<RX, TX>,
                            (sender, sending, LinkState::Down),
                            progress,
                        )
                        &&& report == service_report(final(device).link, event, false, progress)
                    }
            },
    {
        let link: LinkState = device.current_link_state();
        let mut rx_queued: bool = false;
        if link == LinkState::Up {
            rx_queued = self.service_rx(device)?;
        }
        let tx = self.service_tx(device, link)?;
        Ok(ServiceReport { link: device.current_link_state(), event, rx_queued, tx })
    }

    /// Runs one bounded, nonblocking pass: the endpoint is polled once, at
    /// most one frame is received, and at most one send is attempted.
    pub fn service_once<const RX: usize, const TX: usize>(
        &mut self,
        device: &mut SharedDevice<RX, TX>,
    ) -> (report: Result<ServiceReport, Error>)
        requires
            old(self).wf(old(device)),
        ensures
            final(self).wf(final(device)),
            final(device).held_slots_kept(old(device), old(self).pending_tx),
            match report {
                Ok(report) => {
                    &&& report.link == final(device).link
                    &&& report.rx_queued ==> report.link is Up
                    &&& report.tx is WouldBlock <==> final(self).pending_tx is Some
                    &&& report.tx is WouldBlock || report.tx is Accepted ==> report.link is Up
                },
                Err(_) => final(self).pending_tx is Some ==> final(self).pending_tx == old(
                    self).pending_tx,
            },
            exists|endpoint: &mut E, answer: Result<PollResult, Error>|
                {
                    &&& *endpoint == old(self).endpoint
                    &&& #[trigger] call_ensures(E::poll, (endpoint, 0u32), answer)
                    &&& match poll_report(answer) {
                        Err(error) => {
                            &&& report == Err::<ServiceReport, Error>(error)
                            &&& final(self).endpoint == *final(endpoint)
                            &&& final(self).pending_tx == old(self).pending_tx
                            &&& *final(device) == *old(device)
                        },
                        Ok(event) => exists|reactor: &mut Self, polled: &mut SharedDevice<RX, TX>|
                            {
                                &&& reactor.endpoint == *final(endpoint)
                                &&& reactor.pending_tx == old(self).pending_tx
                                &&& polled.polled_from(old(device), answer)
                                &&& *final(reactor) == *final(self)
                                &&& *final(polled) == *final(device)
                                &&& #[trigger] call_ensures(
                                    Reactor::<E>::service_queues::<RX, TX>,
                                    (reactor, polled, event),
                                    report,
                                )
                            },
                    }
                },
    {
        let answer = self.endpoint.poll(0);
        let event = self.apply_poll(device, answer)?;
        self.service_queues(device, event)
    }
}

/// What a pass reports behind its receive step.
pub open spec fn service_report(
    link: LinkState,
    event: Option<WifiEvent>,
    rx_queued: bool,
    progress: Result<TxProgress, Error>,
) -> Result<ServiceReport, Error> {
    match progress {
        Ok(tx) => Ok(ServiceReport { link, event, rx_queued, tx }),
        Err(error) => Err(error),
    }
}

/// Configures the fixed queue from an opened endpoint and returns the reactor
/// that owns the endpoint. The network stack uses the device.
pub fn split<E: L2Endpoint, const RX: usize, const TX: usize>(
    endpoint: E,
    device: &mut SharedDevice<RX, TX>,
) -> (result: Result<Reactor<E>, DriverError>)
    requires
        old(device).wf(),
    ensures
        final(device).wf(),
        match result {
            Ok(reactor) => {
                &&& reactor.endpoint == endpoint
                &&& reactor.pending_tx is None
                &&& reactor.wf(final(device))
                &&& old(device).interface is None
                &&& final(device).interface is Some
                &&& call_ensures(E::interface, (&endpoint,), final(device).interface)
                &&& *final(device) == old(device).configured(final(device).interface->0)
            },
            Err(error) => {
                &&& (error == DriverError::NotOpen && call_ensures(
                    E::interface,
                    (&endpoint,),
                    None,
                )) || (error == DriverError::AlreadyConfigured && old(device).interface is Some)
                &&& *final(device) == *old(device)
            },
        },
{
    let reactor = Reactor::new(endpoint, device)?;
    device.require_configured()?;
    Ok(reactor)
}

/// Descriptive alias for [`split`].
pub fn initialize<E: L2Endpoint, const RX: usize, const TX: usize>(
    endpoint: E,
    device: &mut SharedDevice<RX, TX>,
) -> (result: Result<Reactor<E>, DriverError>)
    requires
        old(device).wf(),
    ensures
        final(device).wf(),
        match result {
            Ok(reactor) => {
                &&& reactor.endpoint == endpoint
                &&& reactor.pending_tx is None
                &&& reactor.wf(final(device))
                &&& old(device).interface is None
                &&& final(device).interface is Some
                &&& call_ensures(E::interface, (&endpoint,), final(device).interface)
                &&& *final(device) == old(device).configured(final(device).interface->0)
            },
            Err(error) => {
                &&& (error == DriverError::NotOpen && call_ensures(
                    E::interface,
                    (&endpoint,),
                    None,
                )) || (error == DriverError::AlreadyConfigured && old(device).interface is Some)
                &&& *final(device) == *old(device)
            },
        },
{
    split(endpoint, device)
}

/// Storage belongs to the owner of its slot: over a pass of the reactor, a slot
/// that a token holds keeps its holder and its bytes, in either direction.
pub proof fn law_held_slots_survive_a_pass<const RX: usize, const TX: usize>(
    before: SharedDevice<RX, TX>,
    after: SharedDevice<RX, TX>,
    lease: Option<TxFrame>,
    received: RxToken,
    sending: TxToken,
)
    requires
        after.held_slots_kept(&before, lease),
        before.rx.owned(received.index as int, received.epoch),
        before.tx.owned(sending.index as int, sending.epoch),
        lease matches Some(own) ==> own.index != sending.index,
    ensures
        after.rx.owned(received.index as int, received.epoch),
        after.rx.frame(received.index as int) == before.rx.frame(received.index as int),
        after.tx.owned(sending.index as int, sending.epoch),
        after.tx.frames@[sending.index as int] == before.tx.frames@[sending.index as int],
{
}

/// A busy endpoint is offered the same bytes again: what the network stack
/// does to other slots in between changes neither the retained lease nor its
/// frame.
pub proof fn law_busy_frame_is_offered_again<E: L2Endpoint, const RX: usize, const TX: usize>(
    before: Reactor<E>,
    after: Reactor<E>,
    before_device: SharedDevice<RX, TX>,
    after_device: SharedDevice<RX, TX>,
    later_device: SharedDevice<RX, TX>,
    index: int,
)
    requires
        after.wf(&after_device),
        before.offer(&before_device) is Some,
        Reactor::frame_settled(
            &before,
            &after,
            &before_device,
            &after_device,
            Err::<usize, Error>(Error::WouldBlock),
        ),
        later_device.tx.others_kept(&after_device.tx, index),
        later_device.epoch == after_device.epoch,
        after.pending_tx->0.index != index,
    ensures
        after.pending_tx->0.live(&later_device),
        after.offer(&later_device) == before.offer(&before_device),
{
}

/// A link reset drops every ready frame and makes every lease of the old
/// epoch stale, but leaves the slot and the bytes of each lease to its owner.
pub proof fn law_reset_invalidates_leases<const RX: usize, const TX: usize>(
    before: SharedDevice<RX, TX>,
    after: SharedDevice<RX, TX>,
    state: LinkState,
    lease: TxFrame,
)
    requires
        before.wf(),
        after.reset_from(&before, state),
        lease.live(&before),
        lease.epoch == before.epoch,
    ensures
        after.rx.ready_frames().len() == 0,
        after.tx.ready_frames().len() == 0,
        lease.live(&after),
        after.epoch != lease.epoch,
        after.tx.frame(lease.index as int) == before.tx.frame(lease.index as int),
{
}

/// What the endpoint answers to a receive: a frame is taken when it is a whole
/// Ethernet frame that fits a slot, a wait that ends takes none.
pub proof fn law_receive_answers(answer: Result<ReceiveResult, Error>)
    ensures
        answer matches Ok(ReceiveResult::Frame(len)) ==> receive_outcome(answer) == Ok::<
            Option<usize>,
            Error,
        >(Some(len)) && (14 <= len <= 1600 ==> receive_report(answer) == Ok::<bool, Error>(true))
            && (len < 14 || len > 1600 ==> receive_report(answer) == Err::<bool, Error>(
            Error::Protocol,
        )),
        answer == Ok::<ReceiveResult, Error>(ReceiveResult::Empty) || answer == Ok::<
            ReceiveResult,
            Error,
        >(ReceiveResult::Filtered) || answer == Err::<ReceiveResult, Error>(Error::WouldBlock)
            || answer == Err::<ReceiveResult, Error>(Error::TimedOut) ==> receive_outcome(answer)
            == Ok::<Option<usize>, Error>(None) && receive_report(answer) == Ok::<bool, Error>(
            false,
        ),
        answer matches Err(error) ==> error != Error::WouldBlock && error != Error::TimedOut
            ==> receive_outcome(answer) == Err::<Option<usize>, Error>(error)
            && receive_report(answer) == Err::<bool, Error>(error),
{
}

/// What the endpoint answers to a send: the whole frame or nothing, a busy endpoint
/// is asked again, and one that is not connected or not ready has lost the link.
pub proof fn law_send_answers(answer: Result<usize, Error>, frame_len: int)
    ensures
        answer matches Ok(len) ==> (send_report(answer, frame_len) == (if len == frame_len {
            Ok::<TxProgress, Error>(TxProgress::Accepted)
        } else {
            Err::<TxProgress, Error>(Error::Protocol)
        })) && !connection_lost(answer),
        answer == Err::<usize, Error>(Error::WouldBlock) ==> send_report(answer, frame_len) == Ok::<
            TxProgress,
            Error,
        >(TxProgress::WouldBlock) && !connection_lost(answer),
        connection_lost(answer) <==> answer == Err::<usize, Error>(Error::NotConnected) || answer
            == Err::<usize, Error>(Error::NotReady),
        connection_lost(answer) ==> send_report(answer, frame_len) == Err::<TxProgress, Error>(
            Error::NotConnected,
        ),
        answer matches Err(error) ==> error != Error::WouldBlock && !connection_lost(answer)
            ==> send_report(answer, frame_len) == Err::<TxProgress, Error>(error),
{
}

/// The link is up exactly while the endpoint reports a connected station; going down
/// or a reported loss resets the queues, coming up only wakes their users.
pub proof fn law_polls_move_the_link<const RX: usize, const TX: usize>(
    before: SharedDevice<RX, TX>,
    after: SharedDevice<RX, TX>,
    answer: Result<PollResult, Error>,
)
    requires
        after.polled_from(&before, answer),
    ensures
        answer is Err ==> after == before,
        answer matches Ok(result) ==> (after.link is Up <==> result.status is Connected),
        answer matches Ok(result) ==> !(result.status is Connected) && (before.link is Up
            || result.event == Some(WifiEvent::Disconnected)) ==> after.epoch == (before.epoch + 1)
            % 0x1_0000_0000 && after.rx.ready_frames().len() == 0 && after.tx.ready_frames().len()
            == 0,
        answer matches Ok(result) ==> result.status is Connected ==> after.epoch == before.epoch
            && after.rx == before.rx && after.tx == before.tx,
        answer matches Ok(result) ==> result.status is Connected && before.link is Down
            ==> after.wakes.rx && after.wakes.tx_space && after.wakes.link && after.wakes.tx_ready
            == before.wakes.tx_ready,
        poll_report(answer) == (match answer {
            Ok(result) => Ok::<Option<WifiEvent>, Error>(result.event),
            Err(error) => if error == Error::WouldBlock || error == Error::TimedOut {
                Ok::<Option<WifiEvent>, Error>(None)
            } else {
                Err::<Option<WifiEvent>, Error>(error)
            },
        }),
{
}

/// A received frame that is not taken is counted once, under its own reason.
pub proof fn law_drops_are_counted_once<const RX: usize, const TX: usize>(
    device: SharedDevice<RX, TX>,
    result: Result<(), RxError>,
)
    ensures
        ({
            let (full, short, large, stale) = device.drops_after(result);
            let counted = |before: u32, after: u32, hit: bool|
                after == (if hit {
                    (before + 1) % 0x1_0000_0000
                } else {
                    before as int
                });
            &&& counted(device.full_drops, full, result == Err::<(), RxError>(RxError::Full))
            &&& counted(
                device.too_short_drops,
                short,
                result matches Err(error) && error is TooShort,
            )
            &&& counted(
                device.too_large_drops,
                large,
                result matches Err(error) && error is TooLarge,
            )
            &&& counted(
                device.stale_drops,
                stale,
                result == Err::<(), RxError>(RxError::StaleEpoch),
            )
        }),
{
}

/// A reserved slot is filled exactly with a frame of 14 to 1600 bytes in the link
/// epoch it was reserved in.
pub proof fn law_reservations_are_filled_in_their_epoch<const RX: usize, const TX: usize>(
    device: SharedDevice<RX, TX>,
    reservation: RxReservation,
    len: usize,
)
    ensures
        device.commit_result(reservation, len) is Ok <==> 14 <= len <= 1600 && reservation.epoch
            == device.epoch,
        len < 14 ==> device.commit_result(reservation, len) == Err::<(), RxError>(
            RxError::TooShort { len },
        ),
        len > 1600 ==> device.commit_result(reservation, len) == Err::<(), RxError>(
            RxError::TooLarge { len },
        ),
        14 <= len <= 1600 && reservation.epoch != device.epoch ==> device.commit_result(
            reservation,
            len,
        ) == Err::<(), RxError>(RxError::StaleEpoch),
        length_fault(len) is Ok <==> 14 <= len <= 1600,
{
}

/// Configuring takes the interface over and starts with the link that it reports.
pub proof fn law_configuration_starts_the_link<const RX: usize, const TX: usize>(
    device: SharedDevice<RX, TX>,
    interface: InterfaceInfo,
)
    ensures
        ({
            let after = device.configured(interface);
            &&& after.interface == Some(interface)
            &&& after.link is Up <==> interface.status is Connected
            &&& after.rx == device.rx && after.tx == device.tx && after.epoch == device.epoch
        }),
{
}

/// What a pass does with the frame it offered: a busy endpoint keeps it leased and
/// first in line, a lost link drops everything queued, anything else frees its slot
/// and moves on to the next frame.
pub proof fn law_offered_frames_are_settled<E: L2Endpoint, const RX: usize, const TX: usize>(
    before: Reactor<E>,
    after: Reactor<E>,
    before_device: SharedDevice<RX, TX>,
    after_device: SharedDevice<RX, TX>,
    answer: Result<usize, Error>,
)
    requires
        before.pending_tx is None,
        before_device.tx.ready_frames().len() > 0,
        Reactor::frame_settled(&before, &after, &before_device, &after_device, answer),
    ensures
        before.offer(&before_device) == Some(before_device.tx.ready_frames()[0]),
        answer == Err::<usize, Error>(Error::WouldBlock) ==> after.pending_tx is Some
            && after.offer(&after_device) == Some(before_device.tx.ready_frames()[0])
            && after_device.tx.ready_frames() == before_device.tx.ready_frames().drop_first()
            && after_device.wakes == before_device.wakes,
        answer == Err::<usize, Error>(Error::NotConnected) || answer == Err::<usize, Error>(
            Error::NotReady,
        ) ==> after.pending_tx is None && after_device.link is Down
            && after_device.tx.ready_frames().len() == 0 && after_device.rx.ready_frames().len()
            == 0 && after_device.epoch == (before_device.epoch + 1) % 0x1_0000_0000,
        answer is Ok || answer == Err::<usize, Error>(Error::Io) ==> after.pending_tx is None
            && after_device.tx.ready_frames() == before_device.tx.ready_frames().drop_first()
            && after_device.tx.occupied == before_device.tx.occupied - 1 && after_device.epoch
            == before_device.epoch && after_device.wakes == (Wakes {
            tx_space: true,
            ..before_device.wakes
        }) && after_device.link == before_device.link && after_device.interface
            == before_device.interface,
{
}

/// A lease of the current link is offered before any queued frame; a lease of an
/// earlier link is never offered.
pub proof fn law_leases_are_offered_first<E: L2Endpoint, const RX: usize, const TX: usize>(
    reactor: Reactor<E>,
    device: SharedDevice<RX, TX>,
)
    ensures
        reactor.pending_tx matches Some(lease) ==> reactor.offer(&device) == (if lease.epoch
            == device.epoch {
            Some(device.tx.frames@[lease.index as int].bytes@.subrange(
                0,
                device.tx.slots@[lease.index as int].len as int,
            ))
        } else {
            None::<Seq<u8>>
        }),
        reactor.pending_tx is None && device.tx.ready_frames().len() == 0 ==> reactor.offer(
            &device,
        ) is None,
        reactor.pending_tx is None && device.tx.ready_frames().len() > 0 ==> reactor.offer(&device)
            == Some(device.tx.ready_frames()[0]),
{
}

/// A received frame comes out as it was pushed in, behind the frames that waited
/// before it.
pub proof fn law_received_frames_keep_their_order<const RX: usize, const TX: usize>(
    frame: &[u8],
    rx: RxToken,
    tx: TxToken,
)
    ensures
        forall|pushed: &mut SharedDevice<RX, TX>, polled: &mut SharedDevice<RX, TX>|
            #[trigger] call_ensures(
                SharedDevice::<RX, TX>::push_rx,
                (pushed, frame),
                Ok::<(), RxError>(()),
            ) && #[trigger] call_ensures(
                SharedDevice::<RX, TX>::poll_receive,
                (polled,),
                Some((rx, tx)),
            ) && *polled == *final(pushed) ==> {
                let waiting = pushed.rx.ready_frames();
                &&& 14 <= frame@.len() <= 1600
                &&& waiting.len() == 0 ==> final(polled).rx.frame(rx.index as int) == frame@
                    && final(polled).rx.ready_frames().len() == 0
                &&& waiting.len() > 0 ==> final(polled).rx.frame(rx.index as int) == waiting[0]
                    && final(polled).rx.ready_frames().last() == frame@
                &&& rx.epoch == pushed.epoch && tx.epoch == pushed.epoch
                &&& pushed.link is Up
            },
{
}

/// A sent frame comes out as it was committed, behind the frames that waited before
/// it, and is leased for the link it was committed in.
pub proof fn law_sent_frames_keep_their_order<const RX: usize, const TX: usize>(
    token: TxToken,
    frame: &[u8],
    lease: TxFrame,
)
    ensures
        forall|committed: &mut SharedDevice<RX, TX>, taken: &mut SharedDevice<RX, TX>|
            #[trigger] call_ensures(
                SharedDevice::<RX, TX>::commit_tx,
                (committed, token, frame),
                CommitOutcome::Committed,
            ) && #[trigger] call_ensures(
                SharedDevice::<RX, TX>::take_tx,
                (taken,),
                Some(lease),
            ) && *taken == *final(committed) ==> {
                let waiting = committed.tx.ready_frames();
                &&& waiting.len() == 0 ==> final(taken).tx.frame(lease.index as int) == frame@
                &&& waiting.len() > 0 ==> final(taken).tx.frame(lease.index as int) == waiting[0]
                    && final(taken).tx.ready_frames().last() == frame@
                &&& lease.epoch == token.epoch && token.epoch == committed.epoch
            },
{
}

/// A frame that cannot be taken is refused for its length first and then for want of
/// a slot, and changes nothing but its counter.
pub proof fn law_refused_frames_change_no_slot<const RX: usize, const TX: usize>(
    frame: &[u8],
    result: Result<(), RxError>,
)
    ensures
        forall|device: &mut SharedDevice<RX, TX>| #[trigger]
            call_ensures(SharedDevice::<RX, TX>::push_rx, (device, frame), result) ==> {
                let len = frame@.len();
                &&& result is Ok <==> 14 <= len <= 1600 && device.rx.occupied != RX
                &&& len < 14 ==> result == Err::<(), RxError>(
                    RxError::TooShort { len: len as usize },
                )
                &&& len > 1600 ==> result == Err::<(), RxError>(
                    RxError::TooLarge { len: len as usize },
                )
                &&& 14 <= len <= 1600 && device.rx.occupied == RX ==> result == Err::<(), RxError>(
                    RxError::Full,
                )
                &&& result is Err ==> final(device).rx == device.rx && final(device).wakes
                    == device.wakes
                &&& result is Ok ==> final(device).wakes.rx
                &&& final(device).tx == device.tx && final(device).link == device.link
            },
{
}

/// A lease is stale exactly when its slot is no longer its own or the link has
/// changed since; a busy endpoint keeps it and anything else frees its slot.
pub proof fn law_leases_end_once<const RX: usize, const TX: usize>(
    result: TxSubmitResult,
    lease: &TxFrame,
    device: &SharedDevice<RX, TX>,
    stale: bool,
)
    requires
        call_ensures(TxFrame::is_stale::<RX, TX>, (lease, device), stale),
    ensures
        stale <==> !(device.tx.slots@[lease.index as int].state is InUse
            && device.tx.slots@[lease.index as int].epoch == lease.epoch && lease.index < TX)
            || device.epoch != lease.epoch,
        forall|own: &mut TxFrame, shared: &mut SharedDevice<RX, TX>| #[trigger]
            call_ensures(TxFrame::report_submit::<RX, TX>, (own, shared, result), ()) ==> {
                &&& result is WouldBlock ==> *final(shared) == *shared && final(own).released
                    == own.released
                &&& !(result is WouldBlock) ==> final(own).released
                &&& own.released ==> *final(shared) == *shared
                &&& !(result is WouldBlock) && own.live(shared) ==> final(shared).tx.slots@[own.index as int].state is Free && final(shared).wakes.tx_space
            },
{
}

/// A pass reports the link and event it polled, whether it queued a frame and how
/// far the transmission came.
pub proof fn law_passes_report_what_they_did(
    link: LinkState,
    event: Option<WifiEvent>,
    rx_queued: bool,
    progress: Result<TxProgress, Error>,
)
    ensures
        service_report(link, event, rx_queued, progress) matches Ok(report) ==> report.link == link
            && report.event == event && report.rx_queued == rx_queued && progress == Ok::<
            TxProgress,
            Error,
        >(report.tx),
        progress matches Err(error) ==> service_report(link, event, rx_queued, progress) == Err::<
            ServiceReport,
            Error,
        >(error),
        progress is Ok ==> service_report(link, event, rx_queued, progress) is Ok,
{
}

/// Taking a slot for one direction leaves the other direction, the link and every
/// drop counter alone.
pub proof fn law_directions_are_independent<const RX: usize, const TX: usize>(
    token: Option<TxToken>,
    reservation: Option<RxReservation>,
)
    ensures
        forall|device: &mut SharedDevice<RX, TX>| #[trigger]
            call_ensures(SharedDevice::<RX, TX>::try_transmit, (device,), token) ==> {
                &&& final(device).rx == device.rx && final(device).link == device.link
                &&& final(device).epoch == device.epoch && final(device).interface
                    == device.interface
                &&& final(device).full_drops == device.full_drops && final(device).stale_drops
                    == device.stale_drops
                &&& final(device).too_short_drops == device.too_short_drops && final(
                    device).too_large_drops == device.too_large_drops
                &&& token is Some <==> device.tx.occupied < TX
            },
        forall|device: &mut SharedDevice<RX, TX>| #[trigger]
            call_ensures(SharedDevice::<RX, TX>::poll_transmit, (device,), token) ==> {
                &&& final(device).rx == device.rx && final(device).link == device.link
                &&& token is Some <==> device.link is Up && device.tx.occupied < TX
                &&& token matches Some(own) ==> own.epoch == device.epoch
            },
        forall|device: &mut SharedDevice<RX, TX>| #[trigger]
            call_ensures(SharedDevice::<RX, TX>::reserve_rx, (device,), reservation) ==> {
                &&& final(device).tx == device.tx && final(device).link == device.link
                &&& final(device).epoch == device.epoch && final(device).interface
                    == device.interface
                &&& final(device).full_drops == device.full_drops && final(device).stale_drops
                    == device.stale_drops
                &&& reservation is Some <==> device.rx.occupied < RX
                &&& reservation matches Some(own) ==> own.epoch == device.epoch
            },
{
}

} // verus!
