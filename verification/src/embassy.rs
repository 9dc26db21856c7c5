//! Single-slot network queue for the native nRF7002 runner.
//!
//! One receive slot and one transmit slot sit between the network stack and
//! the hardware runner. Frames belong to one connection epoch: whenever the
//! authorized link changes, waiting frames are dropped and everything handed
//! out before becomes stale.

use vstd::prelude::*;

use crate::driver::{LinkState, Wakes};
use crate::station::StationController;

verus! {

/// Queue operation failure.
#[derive(Clone, Copy, Debug, PartialEq, Eq, Structural)]
pub enum QueueError {
    /// The controlled port is closed.
    LinkDown,
    /// The single receive slot is not available.
    RxBusy,
    /// The frame exceeds the slot size.
    FrameTooLarge,
}

/// Outcome reported after one native transmit attempt.
#[derive(Clone, Copy, Debug, PartialEq, Eq, Structural)]
pub enum TxOutcome {
    /// Firmware accepted the descriptor.
    Submitted,
    /// The hardware queue was temporarily full. The frame is retained.
    WouldBlock,
    /// The frame was rejected and is released.
    Dropped,
}

/// Owner of a slot.
#[derive(Clone, Copy, Debug, PartialEq, Eq, Structural)]
pub enum Owner {
    /// Nobody; the slot is empty.
    Free,
    /// The queue; the slot holds a complete frame.
    Ready,
    /// The network stack.
    Client,
    /// The hardware runner.
    Producer,
}

/// One frame slot.
pub struct FrameSlot<const FRAME_SIZE: usize> {
    pub owner: Owner,
    pub len: usize,
    pub epoch: usize,
    pub bytes: [u8; FRAME_SIZE],
}

impl<const FRAME_SIZE: usize> FrameSlot<FRAME_SIZE> {
    /// The frame length fits the slot.
    pub open spec fn wf(&self) -> bool {
        self.len <= FRAME_SIZE
    }

    /// The frame in the slot.
    pub open spec fn frame(&self) -> Seq<u8> {
        self.bytes@.subrange(0, self.len as int)
    }

    /// A slot that was never used.
    pub open spec fn empty(&self) -> bool {
        &&& self.owner == Owner::Free
        &&& self.len == 0
        &&& self.epoch == 0
        &&& self.bytes@ == Seq::new(FRAME_SIZE as nat, |i: int| 0u8)
    }

    /// The slot after its owner gave it up.
    pub open spec fn emptied(self) -> Self {
        FrameSlot { owner: Owner::Free, len: 0, ..self }
    }

    /// An empty slot.
    pub fn new() -> (slot: Self)
        ensures
            slot.wf(),
            slot.empty(),
    {
        let slot = FrameSlot { owner: Owner::Free, len: 0, epoch: 0, bytes: [0u8; FRAME_SIZE] };
        assert(slot.bytes@ =~= Seq::new(FRAME_SIZE as nat, |i: int| 0u8));
        slot
    }

    fn fill(&mut self, frame: &[u8])
        requires
            frame@.len() <= FRAME_SIZE,
        ensures
            final(self).owner == old(self).owner,
            final(self).epoch == old(self).epoch,
            final(self).len == frame@.len(),
            final(self).frame() == frame@,
            final(self).bytes@ == frame@ + old(self).bytes@.skip(frame@.len() as int),
    {
        let len: usize = frame.len();
        let mut i: usize = 0;
        while i < len
            invariant
                i <= len == frame@.len() <= FRAME_SIZE,
                self.owner == old(self).owner,
                self.epoch == old(self).epoch,
                self.bytes@ =~= frame@.subrange(0, i as int) + old(self).bytes@.skip(i as int),
            decreases len - i,
        {
            self.bytes[i] = frame[i];
            i = i + 1;
        }
        self.len = len;
        assert(frame@.subrange(0, len as int) =~= frame@);
        assert(self.frame() =~= frame@);
    }

    fn shown(&self, len: usize) -> (frame: &[u8])
        requires
            len <= FRAME_SIZE,
        ensures
            frame@ == self.bytes@.subrange(0, len as int),
    {
        let bytes: &[u8] = &self.bytes;
        &bytes[0..len]
    }
}

/// A transmit queue lease held by the hardware runner.
pub struct TxLease {
    pub epoch: usize,
}

/// Queue shared by the network stack and the hardware runner.
pub struct NetworkState<const FRAME_SIZE: usize> {
    pub mac: [u8; 6],
    pub link_up: bool,
    /// Wrapping connection epoch.
    pub link_epoch: usize,
    pub rx: FrameSlot<FRAME_SIZE>,
    pub tx: FrameSlot<FRAME_SIZE>,
    /// Wakes not yet collected.
    pub wakes: Wakes,
}

impl<const FRAME_SIZE: usize> NetworkState<FRAME_SIZE> {
    /// Lengths fit, and a waiting frame belongs to the active connection.
    pub open spec fn wf(&self) -> bool {
        &&& self.rx.wf()
        &&& self.tx.wf()
        &&& self.rx.owner is Ready ==> self.active(self.rx.epoch)
        &&& self.tx.owner is Ready ==> self.active(self.tx.epoch)
    }

    /// Whether `epoch` names the active connection.
    pub open spec fn active(&self, epoch: usize) -> bool {
        self.link_up && self.link_epoch == epoch
    }

    /// Whether a lease or token of `epoch` still belongs to the transmit
    /// slot's connection.
    pub open spec fn tx_current(&self, epoch: usize) -> bool {
        self.active(epoch) && self.tx.epoch == epoch
    }

    /// The queue after the link was set to `up`.
    pub open spec fn relinked(self, up: bool) -> Self {
        if self.link_up == up {
            self
        } else {
            NetworkState {
                mac: self.mac,
                link_up: up,
                link_epoch: if self.link_epoch == usize::MAX {
                    0
                } else {
                    (self.link_epoch + 1) as usize
                },
                rx: if self.rx.owner is Ready {
                    self.rx.emptied()
                } else {
                    self.rx
                },
                tx: if self.tx.owner is Ready {
                    self.tx.emptied()
                } else {
                    self.tx
                },
                wakes: Wakes { rx: true, tx_space: true, tx_ready: true, link: true },
            }
        }
    }

    /// Creates a disconnected queue with one receive and one transmit slot.
    pub fn new(mac: [u8; 6]) -> (state: Self)
        ensures
            state.wf(),
            state.mac == mac,
            !state.link_up,
            state.link_epoch == 0,
            state.rx.empty(),
            state.tx.empty(),
            state.wakes == (Wakes { rx: false, tx_space: false, tx_ready: false, link: false }),
    {
        NetworkState {
            mac,
            link_up: false,
            link_epoch: 0,
            rx: FrameSlot::new(),
            tx: FrameSlot::new(),
            wakes: Wakes::none(),
        }
    }

    /// Returns the configured Ethernet address.
    pub fn mac_address(&self) -> (mac: [u8; 6])
        ensures
            mac == self.mac,
    {
        self.mac
    }

    /// Collects the wakes that operations have asked for.
    pub fn take_wakes(&mut self) -> (wakes: Wakes)
        ensures
            wakes == old(self).wakes,
            *final(self) == (NetworkState {
                wakes: (Wakes { rx: false, tx_space: false, tx_ready: false, link: false }),
                ..*old(self)
            }),
    {
        let wakes = self.wakes;
        self.wakes = Wakes::none();
        wakes
    }

    /// Returns the link state visible to the network stack.
    pub fn link_state(&self) -> (link: LinkState)
        ensures
            link == (if self.link_up {
                LinkState::Up
            } else {
                LinkState::Down
            }),
    {
        if self.link_up {
            LinkState::Up
        } else {
            LinkState::Down
        }
    }

    /// Returns the epoch of the active connection, if there is one.
    pub fn active_epoch(&self) -> (epoch: Option<usize>)
        ensures
            epoch == (if self.link_up {
                Some(self.link_epoch)
            } else {
                None
            }),
    {
        if self.link_up {
            Some(self.link_epoch)
        } else {
            None
        }
    }

    /// Returns whether `epoch` names the active connection.
    pub fn epoch_is_active(&self, epoch: usize) -> (is_active: bool)
        ensures
            is_active == self.active(epoch),
    {
        self.link_up && self.link_epoch == epoch
    }

    /// Opens or closes the link.
    ///
    /// A change starts a new epoch, drops waiting frames and wakes everyone;
    /// setting the present state again does nothing.
    pub fn set_authorized_link(&mut self, up: bool)
        requires
            old(self).rx.wf(),
            old(self).tx.wf(),
        ensures
            old(self).wf() ==> final(self).wf(),
            final(self).link_up == up,
            *final(self) == old(self).relinked(up),
    {
        if self.link_up == up {
            return;
        }
        self.link_up = up;
        self.link_epoch = self.link_epoch.wrapping_add(1);
        self.discard_ready_rx();
        self.discard_ready_tx();
        self.wakes = Wakes { rx: true, tx_space: true, tx_ready: true, link: true };
    }

    /// Synchronizes the network link with the fail-closed station port.
    ///
    /// Normal network traffic becomes visible only when the station state
    /// reports an authorized controlled port and an active carrier.
    pub fn sync_station_link(&mut self, station: &StationController)
        requires
            old(self).rx.wf(),
            old(self).tx.wf(),
        ensures
            old(self).wf() ==> final(self).wf(),
            final(self).link_up == station.port_open(),
            *final(self) == old(self).relinked(station.port_open()),
    {
        self.set_authorized_link(station.controlled_port_open());
    }

    /// Hands the transmit slot to the network stack, if it is empty and the
    /// connection is active.
    pub fn reserve_tx(&mut self, epoch: usize) -> (reserved: bool)
        requires
            old(self).wf(),
        ensures
            final(self).wf(),
            reserved == (old(self).active(epoch) && old(self).tx.owner is Free),
            *final(self) == (if reserved {
                NetworkState {
                    tx: (FrameSlot { owner: Owner::Client, epoch, ..old(self).tx }),
                    ..*old(self)
                }
            } else {
                *old(self)
            }),
    {
        if !self.epoch_is_active(epoch) {
            return false;
        }
        if self.tx.owner != Owner::Free {
            return false;
        }
        self.tx.owner = Owner::Client;
        self.tx.epoch = epoch;
        true
    }

    /// Hands the waiting received frame and the transmit slot to the network
    /// stack together.
    ///
    /// If the transmit slot is not free the frame stays queued and its reader
    /// is woken to try again.
    pub fn reserve_receive(&mut self, epoch: usize) -> (reserved: bool)
        requires
            old(self).wf(),
        ensures
            final(self).wf(),
            reserved == (old(self).active(epoch) && old(self).rx.owner is Ready && old(
                self).tx.owner is Free),
            *final(self) == (if reserved {
                NetworkState {
                    rx: (FrameSlot { owner: Owner::Client, ..old(self).rx }),
                    tx: (FrameSlot { owner: Owner::Client, epoch, ..old(self).tx }),
                    ..*old(self)
                }
            } else if old(self).active(epoch) && old(self).rx.owner is Ready {
                NetworkState { wakes: (Wakes { rx: true, ..old(self).wakes }), ..*old(self) }
            } else {
                *old(self)
            }),
    {
        if !self.epoch_is_active(epoch) {
            return false;
        }
        if self.rx.owner == Owner::Ready && self.rx.epoch != epoch {
            self.discard_ready_rx();
            return false;
        }
        if self.rx.owner != Owner::Ready {
            return false;
        }
        self.rx.owner = Owner::Client;
        if self.reserve_tx(epoch) {
            return true;
        }
        self.rx.owner = Owner::Ready;
        self.wakes.rx = true;
        false
    }

    /// Empties the receive slot.
    pub fn release_rx(&mut self)
        ensures
            *final(self) == (NetworkState { rx: old(self).rx.emptied(), ..*old(self) }),
    {
        self.rx.len = 0;
        self.rx.owner = Owner::Free;
    }

    /// Empties the transmit slot and announces the space.
    pub fn release_tx(&mut self)
        ensures
            *final(self) == (NetworkState {
                tx: old(self).tx.emptied(),
                wakes: (Wakes { tx_space: true, ..old(self).wakes }),
                ..*old(self)
            }),
    {
        self.tx.len = 0;
        self.tx.owner = Owner::Free;
        self.wakes.tx_space = true;
    }

    /// Drops a waiting received frame.
    pub fn discard_ready_rx(&mut self)
        ensures
            *final(self) == (if old(self).rx.owner is Ready {
                NetworkState { rx: old(self).rx.emptied(), ..*old(self) }
            } else {
                *old(self)
            }),
    {
        if self.rx.owner == Owner::Ready {
            self.release_rx();
        }
    }

    /// Drops a waiting frame to transmit.
    pub fn discard_ready_tx(&mut self)
        ensures
            *final(self) == (if old(self).tx.owner is Ready {
                NetworkState {
                    tx: old(self).tx.emptied(),
                    wakes: (Wakes { tx_space: true, ..old(self).wakes }),
                    ..*old(self)
                }
            } else {
                *old(self)
            }),
    {
        if self.tx.owner == Owner::Ready {
            self.release_tx();
        }
    }

    /// Offers a received frame and a transmit slot to the network stack.
    /// Returns the epoch of the two tokens.
    pub fn poll_receive(&mut self) -> (epoch: Option<usize>)
        requires
            old(self).wf(),
        ensures
            final(self).wf(),
            epoch == (if old(self).link_up && old(self).rx.owner is Ready && old(
                self).tx.owner is Free {
                Some(old(self).link_epoch)
            } else {
                None
            }),
            *final(self) == (match epoch {
                Some(epoch) => NetworkState {
                    rx: (FrameSlot { owner: Owner::Client, ..old(self).rx }),
                    tx: (FrameSlot { owner: Owner::Client, epoch, ..old(self).tx }),
                    ..*old(self)
                },
                None => if old(self).link_up && old(self).rx.owner is Ready {
                    NetworkState { wakes: (Wakes { rx: true, ..old(self).wakes }), ..*old(self) }
                } else {
                    *old(self)
                },
            }),
    {
        let epoch: usize = match self.active_epoch() {
            Some(epoch) => epoch,
            None => return None,
        };
        if self.reserve_receive(epoch) {
            Some(epoch)
        } else {
            None
        }
    }

    /// Offers the transmit slot to the network stack. Returns the epoch of
    /// the token.
    pub fn poll_transmit(&mut self) -> (epoch: Option<usize>)
        requires
            old(self).wf(),
        ensures
            final(self).wf(),
            epoch == (if old(self).link_up && old(self).tx.owner is Free {
                Some(old(self).link_epoch)
            } else {
                None
            }),
            *final(self) == (match epoch {
                Some(epoch) => NetworkState {
                    tx: (FrameSlot { owner: Owner::Client, epoch, ..old(self).tx }),
                    ..*old(self)
                },
                None => *old(self),
            }),
    {
        let epoch: usize = match self.active_epoch() {
            Some(epoch) => epoch,
            None => return None,
        };
        if self.reserve_tx(epoch) {
            Some(epoch)
        } else {
            None
        }
    }

    /// Shows the frame of a receive token; a stale token shows none.
    pub fn rx_frame(&self, epoch: usize) -> (frame: &[u8])
        requires
            self.rx.wf(),
        ensures
            frame@ == (if self.active(epoch) && self.rx.epoch == epoch {
                self.rx.frame()
            } else {
                Seq::empty()
            }),
    {
        let len: usize = if self.epoch_is_active(epoch) && self.rx.epoch == epoch {
            self.rx.len
        } else {
            0
        };
        self.rx.shown(len)
    }

    /// Shows the first `len` bytes of the transmit slot's storage to the holder
    /// of its token.
    pub fn tx_storage(&self, len: usize) -> (bytes: &[u8])
        requires
            len <= FRAME_SIZE,
        ensures
            bytes@ == self.tx.bytes@.subrange(0, len as int),
    {
        self.tx.shown(len)
    }

    /// Queues the frame of a transmit token; a stale token only gives the
    /// slot back.
    pub fn consume_tx(&mut self, epoch: usize, frame: &[u8])
        requires
            old(self).wf(),
            old(self).tx.owner is Client,
            frame@.len() <= FRAME_SIZE,
        ensures
            final(self).wf(),
            final(self).mac == old(self).mac,
            final(self).link_up == old(self).link_up,
            final(self).link_epoch == old(self).link_epoch,
            final(self).rx == old(self).rx,
            final(self).tx.bytes@ == frame@ + old(self).tx.bytes@.skip(frame@.len() as int),
            if old(self).tx_current(epoch) {
                &&& final(self).tx.owner is Ready
                &&& final(self).tx.frame() == frame@
                &&& final(self).tx.epoch == epoch
                &&& final(self).wakes == (Wakes { tx_ready: true, ..old(self).wakes })
            } else {
                &&& final(self).tx.owner is Free
                &&& final(self).tx.len == 0
                &&& final(self).tx.epoch == old(self).tx.epoch
                &&& final(self).wakes == (Wakes { tx_space: true, ..old(self).wakes })
            },
    {
        self.tx.fill(frame);
        if self.epoch_is_active(epoch) && self.tx.epoch == epoch {
            self.tx.owner = Owner::Ready;
            self.wakes.tx_ready = true;
        } else {
            self.release_tx();
        }
    }

    /// Copies one hardware frame into the queue.
    pub fn push_rx(&mut self, frame: &[u8]) -> (result: Result<(), QueueError>)
        requires
            old(self).wf(),
        ensures
            final(self).wf(),
            result == (if frame@.len() > FRAME_SIZE {
                Err(QueueError::FrameTooLarge)
            } else if !old(self).link_up {
                Err(QueueError::LinkDown)
            } else if !(old(self).rx.owner is Free) {
                Err(QueueError::RxBusy)
            } else {
                Ok(())
            }),
            match result {
                Ok(()) => {
                    &&& final(self).rx.owner is Ready
                    &&& final(self).rx.frame() == frame@
                    &&& final(self).rx.bytes@ == frame@ + old(self).rx.bytes@.skip(
                        frame@.len() as int,
                    )
                    &&& final(self).rx.epoch == old(self).link_epoch
                    &&& final(self).mac == old(self).mac
                    &&& final(self).link_up
                    &&& final(self).link_epoch == old(self).link_epoch
                    &&& final(self).tx == old(self).tx
                    &&& final(self).wakes == (Wakes { rx: true, ..old(self).wakes })
                },
                Err(_) => *final(self) == *old(self),
            },
    {
        if frame.len() > FRAME_SIZE {
            return Err(QueueError::FrameTooLarge);
        }
        let epoch: usize = match self.active_epoch() {
            Some(epoch) => epoch,
            None => return Err(QueueError::LinkDown),
        };
        if self.rx.owner != Owner::Free {
            return Err(QueueError::RxBusy);
        }
        self.rx.fill(frame);
        self.rx.epoch = epoch;
        self.rx.owner = Owner::Ready;
        self.wakes.rx = true;
        Ok(())
    }

    /// Leases the frame prepared by the network stack to the runner.
    pub fn take_tx(&mut self) -> (lease: Option<TxLease>)
        requires
            old(self).wf(),
        ensures
            final(self).wf(),
            lease is Some <==> old(self).link_up && old(self).tx.owner is Ready,
            match lease {
                Some(lease) => {
                    &&& lease.epoch == old(self).link_epoch
                    &&& *final(self) == (NetworkState {
                        tx: (FrameSlot { owner: Owner::Producer, ..old(self).tx }),
                        ..*old(self)
                    })
                },
                None => *final(self) == *old(self),
            },
    {
        let epoch: usize = match self.active_epoch() {
            Some(epoch) => epoch,
            None => return None,
        };
        if self.tx.owner == Owner::Ready && self.tx.epoch != epoch {
            self.discard_ready_tx();
            return None;
        }
        if self.tx.owner != Owner::Ready {
            return None;
        }
        self.tx.owner = Owner::Producer;
        Some(TxLease { epoch })
    }

    /// Returns whether a frame of the active connection waits to be sent, so
    /// that a runner that registers its waker is woken at once.
    pub fn tx_waiting(&self) -> (waiting: bool)
        requires
            self.wf(),
        ensures
            waiting == (self.tx.owner is Ready),
    {
        match self.active_epoch() {
            Some(epoch) => self.tx.owner == Owner::Ready && self.tx.epoch == epoch,
            None => false,
        }
    }
}

impl TxLease {
    /// Returns true while this lease belongs to the active connection.
    pub fn is_current<const FRAME_SIZE: usize>(&self, state: &NetworkState<FRAME_SIZE>) -> (current:
        bool)
        ensures
            current == state.tx_current(self.epoch),
    {
        state.epoch_is_active(self.epoch) && state.tx.epoch == self.epoch
    }

    /// Returns the queued frame, or an empty slice for a stale lease.
    pub fn as_slice<'a, const FRAME_SIZE: usize>(&self, state: &'a NetworkState<FRAME_SIZE>) -> (
    frame: &'a [u8])
        requires
            state.tx.wf(),
        ensures
            frame@ == (if state.tx_current(self.epoch) {
                state.tx.frame()
            } else {
                Seq::empty()
            }),
    {
        let len: usize = if self.is_current(state) {
            state.tx.len
        } else {
            0
        };
        state.tx.shown(len)
    }

    /// Reports the hardware result and consumes this lease.
    ///
    /// A stale lease is always released. It cannot return an old frame to the
    /// queue after a disconnect and reconnect.
    pub fn report<const FRAME_SIZE: usize>(
        self,
        state: &mut NetworkState<FRAME_SIZE>,
        outcome: TxOutcome,
    )
        requires
            old(state).wf(),
            old(state).tx.owner is Producer,
        ensures
            final(state).wf(),
            *final(state) == (if outcome is WouldBlock && old(state).tx_current(self.epoch) {
                NetworkState {
                    tx: (FrameSlot { owner: Owner::Ready, ..old(state).tx }),
                    wakes: (Wakes { tx_ready: true, ..old(state).wakes }),
                    ..*old(state)
                }
            } else {
                NetworkState {
                    tx: old(state).tx.emptied(),
                    wakes: (Wakes { tx_space: true, ..old(state).wakes }),
                    ..*old(state)
                }
            }),
    {
        if outcome == TxOutcome::WouldBlock && self.is_current(state) {
            state.tx.owner = Owner::Ready;
            state.wakes.tx_ready = true;
        } else {
            state.release_tx();
        }
    }
}

/// A lease taken on one connection is stale once the link went down, and
/// stays stale when the link comes back; a frame that waited is gone.
pub proof fn law_reconnect_invalidates_lease<const FRAME_SIZE: usize>(
    state: NetworkState<FRAME_SIZE>,
    lease: TxLease,
)
    requires
        state.wf(),
        state.tx_current(lease.epoch),
    ensures
        !state.relinked(false).tx_current(lease.epoch),
        !state.relinked(false).relinked(true).tx_current(lease.epoch),
        !(state.relinked(false).rx.owner is Ready),
        !(state.relinked(false).tx.owner is Ready),
{
}

/// A link that changes starts a new epoch and drops the frames that wait in the
/// slots; a frame that is being written or read keeps its slot, and a link that does
/// not change is left alone.
pub proof fn law_links_start_new_epochs<const FRAME_SIZE: usize>(
    state: NetworkState<FRAME_SIZE>,
    up: bool,
)
    ensures
        state.link_up == up ==> state.relinked(up) == state,
        state.link_up != up ==> {
            let after = state.relinked(up);
            &&& after.link_up == up
            &&& after.link_epoch == (if state.link_epoch == usize::MAX {
                0
            } else {
                state.link_epoch + 1
            })
            &&& after.mac == state.mac
            &&& state.rx.owner is Ready ==> after.rx.owner == Owner::Free && after.rx.len == 0
            &&& state.tx.owner is Ready ==> after.tx.owner == Owner::Free && after.tx.len == 0
            &&& !(state.rx.owner is Ready) ==> after.rx == state.rx
            &&& !(state.tx.owner is Ready) ==> after.tx == state.tx
            &&& after.wakes.rx && after.wakes.tx_space && after.wakes.tx_ready && after.wakes.link
        },
        state.active(state.link_epoch) <==> state.link_up,
{
}

/// A received frame is shown to the client as it was pushed in, while the link it
/// came from lasts.
pub proof fn law_pushed_frames_are_shown<const FRAME_SIZE: usize>(
    frame: &[u8],
    epoch: usize,
    shown: &[u8],
)
    ensures
        forall|pushed: &mut NetworkState<FRAME_SIZE>, polled: &mut NetworkState<FRAME_SIZE>|
            #[trigger] call_ensures(
                NetworkState::<FRAME_SIZE>::push_rx,
                (pushed, frame),
                Ok::<(), QueueError>(()),
            ) && #[trigger] call_ensures(
                NetworkState::<FRAME_SIZE>::poll_receive,
                (polled,),
                Some(epoch),
            ) && *polled == *final(pushed) && call_ensures(
                NetworkState::<FRAME_SIZE>::rx_frame,
                (final(polled), epoch),
                shown,
            ) ==> shown@ == frame@ && epoch == pushed.link_epoch && final(polled).rx.owner is Client
                && final(polled).tx.owner is Client,
{
}

/// A frame that a client sends is leased to the hardware as it was written, while
/// the link lasts; a frame for an earlier link is dropped.
pub proof fn law_consumed_frames_are_leased<const FRAME_SIZE: usize>(
    epoch: usize,
    frame: &[u8],
    lease: TxLease,
    leased: &[u8],
)
    ensures
        forall|consumed: &mut NetworkState<FRAME_SIZE>, taken: &mut NetworkState<FRAME_SIZE>|
            #[trigger] call_ensures(
                NetworkState::<FRAME_SIZE>::consume_tx,
                (consumed, epoch, frame),
                (),
            ) && #[trigger] call_ensures(
                NetworkState::<FRAME_SIZE>::take_tx,
                (taken,),
                Some(lease),
            ) && *taken == *final(consumed) && call_ensures(
                TxLease::as_slice::<FRAME_SIZE>,
                (&lease, final(taken)),
                leased,
            ) ==> leased@ == frame@ && consumed.link_up && consumed.link_epoch == epoch
                && lease.epoch == epoch,
        forall|consumed: &mut NetworkState<FRAME_SIZE>| #[trigger]
            call_ensures(
                NetworkState::<FRAME_SIZE>::consume_tx,
                (consumed, epoch, frame),
                (),
            ) && !consumed.tx_current(epoch) ==> final(consumed).tx.owner is Free && final(consumed).wakes.tx_space,
{
}

/// A frame is refused when it does not fit, while the link is down or while the slot
/// is taken, in this order.
pub proof fn law_refused_pushes<const FRAME_SIZE: usize>(
    frame: &[u8],
    result: Result<(), QueueError>,
)
    ensures
        forall|state: &mut NetworkState<FRAME_SIZE>| #[trigger]
            call_ensures(NetworkState::<FRAME_SIZE>::push_rx, (state, frame), result) ==> {
                &&& frame@.len() > FRAME_SIZE ==> result == Err::<(), QueueError>(
                    QueueError::FrameTooLarge,
                )
                &&& frame@.len() <= FRAME_SIZE && !state.link_up ==> result == Err::<
                    (),
                    QueueError,
                >(QueueError::LinkDown)
                &&& frame@.len() <= FRAME_SIZE && state.link_up && !(state.rx.owner is Free)
                    ==> result == Err::<(), QueueError>(QueueError::RxBusy)
                &&& result is Ok <==> frame@.len() <= FRAME_SIZE && state.link_up
                    && state.rx.owner is Free
                &&& result is Err ==> *final(state) == *state
                &&& result is Ok ==> final(state).wakes.rx && final(state).tx == state.tx
            },
{
}

/// A reported lease waits again when the endpoint was busy and the link has lasted,
/// and frees its slot otherwise.
pub proof fn law_reported_leases<const FRAME_SIZE: usize>(lease: TxLease, outcome: TxOutcome)
    ensures
        forall|state: &mut NetworkState<FRAME_SIZE>| #[trigger]
            call_ensures(TxLease::report::<FRAME_SIZE>, (lease, state, outcome), ()) ==> {
                let again = outcome is WouldBlock && state.link_up && state.link_epoch
                    == lease.epoch && state.tx.epoch == lease.epoch;
                &&& again ==> final(state).tx.owner is Ready && final(state).tx.frame()
                    == state.tx.frame() && final(state).wakes.tx_ready
                &&& !again ==> final(state).tx.owner is Free && final(state).tx.len == 0 && final(state).wakes.tx_space
                &&& final(state).rx == state.rx && final(state).link_epoch == state.link_epoch
            },
{
}

} // verus!
