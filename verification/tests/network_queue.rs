use nrf7002::driver::LinkState;
use nrf7002::embassy::{NetworkState, Owner, QueueError, TxOutcome};
use nrf7002::station::{StationController, StationState};

fn open_link<const FRAME_SIZE: usize>(state: &mut NetworkState<FRAME_SIZE>) -> usize {
    state.set_authorized_link(true);
    state.active_epoch().unwrap()
}

fn queue_tx<const FRAME_SIZE: usize>(state: &mut NetworkState<FRAME_SIZE>, epoch: usize) {
    state.tx.epoch = epoch;
    state.tx.len = 1;
    state.tx.owner = Owner::Ready;
}

#[test]
fn runner_rx_queue_is_bounded() {
    let mut state = NetworkState::<64>::new([2, 0, 0, 0, 0, 1]);
    open_link(&mut state);
    state.push_rx(&[1, 2, 3]).unwrap();
    assert_eq!(state.push_rx(&[4]), Err(QueueError::RxBusy));
}

#[test]
fn closed_link_rejects_rx() {
    let mut state = NetworkState::<8>::new([2, 0, 0, 0, 0, 1]);
    assert_eq!(state.push_rx(&[1]), Err(QueueError::LinkDown));
}

#[test]
fn oversized_rx_is_rejected() {
    let mut state = NetworkState::<8>::new([2, 0, 0, 0, 0, 1]);
    assert_eq!(state.push_rx(&[0; 9]), Err(QueueError::FrameTooLarge));
}

#[test]
fn link_down_purges_a_queued_tx_frame() {
    let mut state = NetworkState::<8>::new([2, 0, 0, 0, 0, 1]);
    let epoch = open_link(&mut state);
    queue_tx(&mut state, epoch);
    state.set_authorized_link(false);
    assert!(state.tx.owner == Owner::Free);
    assert_eq!(state.tx.len, 0);
}

#[test]
fn stale_tx_token_cannot_publish_after_link_loss() {
    let mut state = NetworkState::<8>::new([2, 0, 0, 0, 0, 1]);
    let epoch = open_link(&mut state);
    assert!(state.reserve_tx(epoch));
    state.set_authorized_link(false);
    state.consume_tx(epoch, &[7]);
    assert!(state.tx.owner == Owner::Free);
    assert_eq!(state.tx.len, 0);
}

#[test]
fn reporting_tx_consumes_and_releases_the_lease() {
    let mut state = NetworkState::<8>::new([2, 0, 0, 0, 0, 1]);
    let epoch = open_link(&mut state);
    queue_tx(&mut state, epoch);
    let lease = state.take_tx().unwrap();
    assert_eq!(lease.as_slice(&state), &[0]);
    lease.report(&mut state, TxOutcome::Dropped);
    assert!(state.tx.owner == Owner::Free);
}

#[test]
fn stale_lease_cannot_return_a_frame_after_reconnect() {
    let mut state = NetworkState::<8>::new([2, 0, 0, 0, 0, 1]);
    let epoch = open_link(&mut state);
    queue_tx(&mut state, epoch);
    let lease = state.take_tx().unwrap();
    state.set_authorized_link(false);
    state.set_authorized_link(true);
    assert!(lease.as_slice(&state).is_empty());
    lease.report(&mut state, TxOutcome::WouldBlock);
    assert!(state.tx.owner == Owner::Free);
}

#[test]
fn a_published_frame_reaches_the_runner_and_a_busy_runner_keeps_it() {
    let mut state = NetworkState::<8>::new([2, 0, 0, 0, 0, 1]);
    open_link(&mut state);
    let epoch = state.poll_transmit().unwrap();
    state.consume_tx(epoch, &[1, 2, 3]);
    assert!(state.tx_waiting());
    let lease = state.take_tx().unwrap();
    assert_eq!(lease.as_slice(&state), &[1, 2, 3]);
    lease.report(&mut state, TxOutcome::WouldBlock);
    let lease = state.take_tx().unwrap();
    assert_eq!(lease.as_slice(&state), &[1, 2, 3]);
    lease.report(&mut state, TxOutcome::Submitted);
    assert!(state.take_tx().is_none());
}

#[test]
fn the_link_follows_the_controlled_port() {
    let mut state = NetworkState::<8>::new([2, 0, 0, 0, 0, 1]);
    let mut station = StationController::new(1, 0, 0);
    station.secure_connection = true;
    station.controlled_port_authorized = true;
    station.carrier_on = true;
    station.transition(StationState::Connected);
    state.sync_station_link(&station);
    assert!(state.link_state() == LinkState::Up);
    station.begin_recovery();
    state.sync_station_link(&station);
    assert!(state.link_state() == LinkState::Down);
}

#[test]
fn a_fresh_queue_is_empty_and_a_token_shows_the_slot_storage() {
    let mut state = NetworkState::<8>::new([2, 0, 0, 0, 0, 1]);
    assert_eq!((state.rx.len, state.tx.len), (0, 0));
    assert_eq!((state.rx.epoch, state.tx.epoch), (0, 0));
    let epoch = open_link(&mut state);
    assert!(state.reserve_tx(epoch));
    assert_eq!(state.tx_storage(3), &[0, 0, 0]);
    state.consume_tx(epoch, &[7, 8, 9]);
    state.take_tx().unwrap().report(&mut state, TxOutcome::Submitted);
    assert!(state.reserve_tx(epoch));
    assert_eq!(state.tx_storage(4), &[7, 8, 9, 0]);
}
