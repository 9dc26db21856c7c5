use nrf7002::bridge::{
    Error, InterfaceInfo, MacAddress, Mtu, PollResult, ReceiveResult, Status, MAX_FRAME_LEN,
};
use nrf7002::driver::{
    initialize, split, DriverError, L2Endpoint, LinkState, RxError, SharedDevice, TxProgress, TxStep,
};
use nrf7002::lane::CommitOutcome;

const RX: usize = 2;
const TX: usize = 1;

struct MockEndpoint {
    interface: InterfaceInfo,
    status: Status,
    rx: [u8; MAX_FRAME_LEN],
    rx_len: usize,
    open: bool,
    tx_would_block: bool,
    tx_len: usize,
    last_tx: [u8; MAX_FRAME_LEN],
}

impl MockEndpoint {
    fn new() -> Self {
        Self {
            interface: InterfaceInfo {
                mac: MacAddress::new([2, 0, 0, 0, 0, 1]).unwrap(),
                mtu: Mtu::new(1500).unwrap(),
                status: Status::Connected,
            },
            status: Status::Connected,
            rx: [0; MAX_FRAME_LEN],
            rx_len: 0,
            open: true,
            tx_would_block: false,
            tx_len: 0,
            last_tx: [0; MAX_FRAME_LEN],
        }
    }

    fn queue_rx(&mut self, frame: &[u8]) {
        self.rx[..frame.len()].copy_from_slice(frame);
        self.rx_len = frame.len();
    }
}

impl L2Endpoint for MockEndpoint {
    fn interface(&self) -> Option<InterfaceInfo> {
        if self.open {
            Some(self.interface)
        } else {
            None
        }
    }

    fn poll(&mut self, _timeout_ms: u32) -> Result<PollResult, Error> {
        Ok(PollResult {
            event: None,
            status: self.status,
        })
    }

    fn recv(&mut self, output: &mut [u8]) -> Result<ReceiveResult, Error> {
        if self.rx_len == 0 {
            return Err(Error::WouldBlock);
        }
        output[..self.rx_len].copy_from_slice(&self.rx[..self.rx_len]);
        let len = self.rx_len;
        self.rx_len = 0;
        Ok(ReceiveResult::Frame(len))
    }

    fn send(&mut self, frame: &[u8]) -> Result<usize, Error> {
        if self.tx_would_block {
            return Err(Error::WouldBlock);
        }
        self.tx_len = frame.len();
        self.last_tx[..frame.len()].copy_from_slice(frame);
        Ok(frame.len())
    }
}

fn data_frame(seed: u8) -> [u8; 64] {
    let mut frame = [0; 64];
    frame[..6].copy_from_slice(&[0xff; 6]);
    frame[6..12].copy_from_slice(&[2, 0, 0, 0, 0, 1]);
    frame[12..14].copy_from_slice(&0x0800u16.to_be_bytes());
    frame[14] = seed;
    frame
}

#[test]
fn late_rx_wake_is_rechecked_after_registration() {
    let mut device: SharedDevice<RX, TX> = SharedDevice::new();
    let endpoint = MockEndpoint::new();
    let _reactor = split(endpoint, &mut device).unwrap();
    assert!(device.poll_receive().is_none());
    device.take_wakes();
    assert_eq!(device.push_rx(&data_frame(1)), Ok(()));
    assert!(device.take_wakes().rx);
    let (rx, tx) = device.poll_receive().expect("late frame");
    let frame = device.rx_frame(&rx).expect("frame of the token");
    assert_eq!(frame[14], 1);
    device.release_rx(rx.index, rx.epoch);
    device.release_tx(tx.index, tx.epoch);
    assert_eq!(device.tx_space(), TX);
}

#[test]
fn reactor_tx_would_block_retains_same_lease_until_retry() {
    let mut device: SharedDevice<RX, TX> = SharedDevice::new();
    let mut reactor = split(MockEndpoint::new(), &mut device).unwrap();
    let token = device.poll_transmit().unwrap();
    let mut frame = [0u8; 64];
    frame[..6].copy_from_slice(&[0xff; 6]);
    frame[6..12].copy_from_slice(&[2, 0, 0, 0, 0, 1]);
    frame[12..14].copy_from_slice(&0x0800u16.to_be_bytes());
    frame[14] = 0x5a;
    assert!(device.commit_tx(token, &frame) == CommitOutcome::Committed);
    reactor.endpoint.tx_would_block = true;
    assert_eq!(
        reactor.service_once(&mut device).unwrap().tx,
        TxProgress::WouldBlock
    );
    assert_eq!(device.tx_len(), 0);
    assert_eq!(device.tx_space(), 0);
    reactor.endpoint.tx_would_block = false;
    assert_eq!(
        reactor.service_once(&mut device).unwrap().tx,
        TxProgress::Accepted
    );
    assert_eq!(reactor.endpoint.tx_len, 64);
    assert_eq!(reactor.endpoint.last_tx[14], 0x5a);
    assert_eq!(device.tx_space(), TX);
}

#[test]
fn link_reset_flushes_ready_frames_and_invalidates_inflight_lease() {
    let mut device: SharedDevice<RX, TX> = SharedDevice::new();
    let _reactor = split(MockEndpoint::new(), &mut device).unwrap();
    assert_eq!(device.push_rx(&data_frame(3)), Ok(()));
    let token = device.poll_transmit().unwrap();
    let mut frame = [0u8; 64];
    frame[14] = 9;
    assert!(device.commit_tx(token, &frame) == CommitOutcome::Committed);
    assert_eq!(device.tx_len(), 1);
    let lease = device.take_tx().expect("in-flight lease");
    let old_epoch = device.link_epoch();
    device.reset_link(LinkState::Down);
    assert!(device.current_link_state() == LinkState::Down);
    assert_eq!(device.rx_len(), 0);
    assert_eq!(device.tx_len(), 0);
    assert_ne!(device.link_epoch(), old_epoch);
    assert!(lease.is_stale(&device));
    lease.release(&mut device);
    assert_eq!(device.tx_space(), TX);
}

#[test]
fn reactor_feeds_rx_directly_into_shared_queue() {
    let mut device: SharedDevice<RX, TX> = SharedDevice::new();
    let mut endpoint = MockEndpoint::new();
    endpoint.queue_rx(&data_frame(7));
    let mut reactor = split(endpoint, &mut device).unwrap();
    let report = reactor.service_once(&mut device).unwrap();
    assert!(report.rx_queued);
    assert_eq!(device.rx_len(), 1);
}

#[test]
fn a_device_is_paired_once_and_only_with_an_open_endpoint() {
    let mut device: SharedDevice<RX, TX> = SharedDevice::new();
    let mut closed = MockEndpoint::new();
    closed.open = false;
    assert!(matches!(split(closed, &mut device), Err(DriverError::NotOpen)));
    assert!(initialize(MockEndpoint::new(), &mut device).is_ok());
    assert!(matches!(
        initialize(MockEndpoint::new(), &mut device),
        Err(DriverError::AlreadyConfigured)
    ));
    assert_eq!(device.interface(), Some(MockEndpoint::new().interface));
}

#[test]
fn a_disconnect_drops_the_retained_lease() {
    let mut device: SharedDevice<RX, TX> = SharedDevice::new();
    let mut reactor = split(MockEndpoint::new(), &mut device).unwrap();
    let token = device.poll_transmit().unwrap();
    assert!(device.commit_tx(token, &data_frame(4)) == CommitOutcome::Committed);
    reactor.endpoint.tx_would_block = true;
    assert_eq!(
        reactor.service_once(&mut device).unwrap().tx,
        TxProgress::WouldBlock
    );
    reactor.endpoint.status = Status::Disconnected;
    let report = reactor.service_once(&mut device).unwrap();
    assert_eq!(report.tx, TxProgress::DroppedStale);
    assert!(report.link == LinkState::Down);
    assert_eq!(device.tx_space(), TX);
}

#[test]
fn queued_frames_leave_in_their_order_of_arrival() {
    let mut device: SharedDevice<2, 2> = SharedDevice::new();
    let _reactor = split(MockEndpoint::new(), &mut device).unwrap();
    assert_eq!(device.push_rx(&data_frame(1)), Ok(()));
    assert_eq!(device.push_rx(&data_frame(2)), Ok(()));
    assert_eq!(device.push_rx(&data_frame(3)), Err(RxError::Full));
    assert_eq!(device.rx_full_drops(), 1);
    let (first, tx) = device.poll_receive().unwrap();
    assert_eq!(device.rx_frame(&first).unwrap()[14], 1);
    device.release_rx(first.index, first.epoch);
    device.release_tx(tx.index, tx.epoch);
    assert_eq!(device.push_rx(&data_frame(4)), Ok(()));
    let (second, _) = device.poll_receive().unwrap();
    assert_eq!(device.rx_frame(&second).unwrap()[14], 2);
}

#[test]
fn malformed_frames_are_counted_and_dropped() {
    let mut device: SharedDevice<RX, TX> = SharedDevice::new();
    assert_eq!(device.push_rx(&[0; 13]), Err(RxError::TooShort { len: 13 }));
    assert_eq!(
        device.push_rx(&[0; MAX_FRAME_LEN + 1]),
        Err(RxError::TooLarge {
            len: MAX_FRAME_LEN + 1
        })
    );
    let reservation = device.reserve_rx().unwrap();
    device.reset_link(LinkState::Down);
    assert_eq!(
        device.commit_reservation(reservation, 64),
        Err(RxError::StaleEpoch)
    );
    assert_eq!(device.rx_too_short_drops(), 1);
    assert_eq!(device.rx_too_large_drops(), 1);
    assert_eq!(device.rx_stale_drops(), 1);
    assert_eq!(device.rx_len(), 0);
}

#[test]
fn a_receiver_waits_for_transmit_space_only_on_an_up_link() {
    let mut device: SharedDevice<RX, TX> = SharedDevice::new();
    assert!(device.receive_interest().rx);
    assert!(!device.receive_interest().tx_space);
    let _reactor = split(MockEndpoint::new(), &mut device).unwrap();
    assert!(device.receive_interest().tx_space);
    assert_eq!(device.max_transmission_unit(), 1514);
    assert_eq!(device.hardware_address(), [2, 0, 0, 0, 0, 1]);
}

#[test]
fn a_stale_commit_gives_its_slot_back() {
    let mut device: SharedDevice<RX, TX> = SharedDevice::new();
    let _reactor = split(MockEndpoint::new(), &mut device).unwrap();
    let token = device.poll_transmit().unwrap();
    device.reset_link(LinkState::Up);
    assert_eq!(
        device.commit_tx(token, &data_frame(1)),
        CommitOutcome::StaleRetired
    );
    assert_eq!(device.tx_space(), TX);
    assert_eq!(
        DriverError::AlreadyConfigured.description(),
        "shared Zephyr L2 device is already configured"
    );
}

#[test]
fn a_lost_connection_gives_the_leased_slot_back() {
    let mut device: SharedDevice<RX, TX> = SharedDevice::new();
    let mut reactor = split(MockEndpoint::new(), &mut device).unwrap();
    for answer in [Error::NotConnected, Error::NotReady] {
        let token = device.poll_transmit().unwrap();
        assert_eq!(
            device.commit_tx(token, &data_frame(7)),
            CommitOutcome::Committed
        );
        assert_eq!(reactor.begin_tx(&mut device, LinkState::Up), TxStep::Send);
        assert_eq!(
            reactor.finish_tx(&mut device, Err(answer), 64),
            Err(Error::NotConnected)
        );
        assert_eq!(device.tx_space(), TX);
        assert_eq!(device.current_link_state(), LinkState::Down);
        device.reset_link(LinkState::Up);
    }
}

#[test]
fn a_pass_leaves_held_slots_to_their_owners() {
    let mut device: SharedDevice<2, 2> = SharedDevice::new();
    let mut reactor = split(MockEndpoint::new(), &mut device).unwrap();
    assert_eq!(device.push_rx(&data_frame(1)), Ok(()));
    let (received, held) = device.poll_receive().unwrap();
    let sent = device.poll_transmit().unwrap();
    assert_eq!(
        device.commit_tx(sent, &data_frame(9)),
        CommitOutcome::Committed
    );
    reactor.endpoint.queue_rx(&data_frame(2));
    let report = reactor.service_once(&mut device).unwrap();
    assert!(report.rx_queued);
    assert_eq!(report.tx, TxProgress::Accepted);
    assert_eq!(device.rx_frame(&received).unwrap()[14], 1);
    assert!(device.tx_reserved(held.index, held.epoch));
    assert_eq!(device.tx_space(), 1);
    assert_eq!(
        device.commit_tx(held, &data_frame(3)),
        CommitOutcome::Committed
    );
}

#[test]
fn the_endpoint_writes_into_the_storage_of_the_first_free_slot() {
    let mut device: SharedDevice<RX, TX> = SharedDevice::new();
    let mut reactor = split(MockEndpoint::new(), &mut device).unwrap();
    let mut earlier = [0xaau8; 64];
    earlier[12..14].copy_from_slice(&0x0800u16.to_be_bytes());
    assert_eq!(device.push_rx(&earlier), Ok(()));
    let (received, transmit) = device.poll_receive().unwrap();
    device.release_rx(received.index, received.epoch);
    device.release_tx(transmit.index, transmit.epoch);

    reactor.endpoint.queue_rx(&data_frame(5)[..20]);
    let reservation = device.reserve_rx().unwrap();
    assert_eq!(reservation.index, received.index);
    let answer = {
        let buffer = device.rx_buffer_mut(reservation.index, reservation.epoch);
        assert_eq!(buffer[..64], earlier);
        reactor.endpoint.recv(buffer).map(|_| ReceiveResult::Frame(24))
    };
    assert_eq!(reactor.finish_rx(&mut device, reservation, answer), Ok(true));
    let (received, _) = device.poll_receive().unwrap();
    let frame = device.rx_frame(&received).unwrap();
    assert_eq!(frame[14], 5);
    assert_eq!(frame[20..24], [0xaa; 4]);
}

#[test]
fn a_transmit_token_shows_the_storage_of_its_slot() {
    let mut device: SharedDevice<RX, TX> = SharedDevice::new();
    let _reactor = split(MockEndpoint::new(), &mut device).unwrap();
    let first = device.poll_transmit().unwrap();
    assert_eq!(device.tx_storage(&first, 20), Some(&[0u8; 20][..]));
    assert_eq!(
        device.commit_tx(first, &data_frame(8)),
        CommitOutcome::Committed
    );
    device.reset_link(LinkState::Up);
    let second = device.poll_transmit().unwrap();
    assert_eq!(device.tx_storage(&second, 64), Some(&data_frame(8)[..]));
    device.reset_link(LinkState::Up);
    assert_eq!(device.tx_storage(&second, 64), None);
}
