use nrf7002::abi;
use nrf7002::abi::ABI_VERSION;
use nrf7002::bridge::{
    is_eapol, map_result, Adapter, Backend, Band, ChannelWidth, ConnectRequest, ConnectWire, Error,
    HiddenSsid, InterfaceRole, MacAddress, ManagementFrameProtection, Mtu, ProvisioningConsole,
    ReceiveResult, Security, Status, WifiEvent, EAPOL_ETHERTYPE, ETHERNET_HEADER_LEN,
    MAX_FRAME_LEN, MAX_MTU, MAX_PASSPHRASE_LEN, MAX_SSID_LEN, MIN_MTU,
};

struct MockBackend {
    abi_version: u32,
    interface: abi::InterfaceWire,
    opened: bool,
    close_count: u8,
    next_poll: abi::PollWire,
    frame: [u8; MAX_FRAME_LEN],
    frame_len: usize,
    sent_len: usize,
    last_ssid: [u8; MAX_SSID_LEN],
    last_ssid_len: usize,
    last_security: Security,
    last_passphrase: [u8; MAX_PASSPHRASE_LEN],
    last_passphrase_len: usize,
}

impl MockBackend {
    fn new(status: u32) -> Self {
        Self {
            abi_version: ABI_VERSION,
            interface: abi::InterfaceWire {
                abi_version: ABI_VERSION,
                struct_size: abi::INTERFACE_WIRE_LEN,
                mac: [0x02, 0x12, 0x34, 0x56, 0x78, 0x9a],
                mtu: 1500,
                reserved: 0,
                status,
            },
            opened: false,
            close_count: 0,
            next_poll: abi::PollWire {
                event: abi::EVENT_NONE,
                status,
            },
            frame: [0; MAX_FRAME_LEN],
            frame_len: 0,
            sent_len: 0,
            last_ssid: [0; MAX_SSID_LEN],
            last_ssid_len: 0,
            last_security: Security::Open,
            last_passphrase: [0; MAX_PASSPHRASE_LEN],
            last_passphrase_len: 0,
        }
    }

    fn queue_frame(&mut self, frame: &[u8]) {
        self.frame[..frame.len()].copy_from_slice(frame);
        self.frame_len = frame.len();
    }
}

impl Backend for MockBackend {
    fn abi_version(&mut self) -> u32 {
        self.abi_version
    }

    fn open(&mut self) -> Result<(), Error> {
        self.opened = true;
        Ok(())
    }

    fn close(&mut self) -> Result<(), Error> {
        self.opened = false;
        self.close_count = self.close_count.saturating_add(1);
        Ok(())
    }

    fn interface(&mut self) -> Result<abi::InterfaceWire, Error> {
        Ok(self.interface)
    }

    fn connect(&mut self, request: ConnectRequest<'_>) -> Result<(), Error> {
        let ssid = request.ssid();
        let security = request.security();
        let passphrase = request.passphrase();
        self.last_ssid[..ssid.len()].copy_from_slice(ssid);
        self.last_ssid_len = ssid.len();
        self.last_security = security;
        self.last_passphrase[..passphrase.len()].copy_from_slice(passphrase);
        self.last_passphrase_len = passphrase.len();
        Ok(())
    }

    fn disconnect(&mut self) -> Result<(), Error> {
        Ok(())
    }

    fn poll(&mut self, _timeout_ms: u32) -> Result<abi::PollWire, Error> {
        let result = self.next_poll;
        self.next_poll.event = abi::EVENT_NONE;
        Ok(result)
    }

    fn recv(&mut self, buffer: &mut [u8]) -> Result<usize, Error> {
        if self.frame_len == 0 {
            return Err(Error::WouldBlock);
        }
        if buffer.len() < self.frame_len {
            return Err(Error::BufferTooSmall);
        }
        buffer[..self.frame_len].copy_from_slice(&self.frame[..self.frame_len]);
        let length = self.frame_len;
        self.frame_len = 0;
        Ok(length)
    }

    fn send(&mut self, frame: &[u8]) -> Result<(), Error> {
        self.sent_len = frame.len();
        Ok(())
    }
}

fn connected_adapter() -> Adapter<MockBackend> {
    let mut adapter = Adapter::new(MockBackend::new(abi::STATUS_CONNECTED));
    adapter.open().unwrap();
    adapter
}

fn data_frame(ether_type: u16, payload_len: usize) -> [u8; 64] {
    let mut frame = [0u8; 64];
    frame[0..6].copy_from_slice(&[0xff; 6]);
    frame[6..12].copy_from_slice(&[0x02, 0x12, 0x34, 0x56, 0x78, 0x9a]);
    frame[12..14].copy_from_slice(&ether_type.to_be_bytes());
    for (index, byte) in frame[14..14 + payload_len].iter_mut().enumerate() {
        *byte = index as u8;
    }
    frame
}

#[test]
fn mac_and_mtu_validation_is_strict() {
    assert_eq!(MacAddress::new([0; 6]), Err(Error::InvalidMac));
    assert_eq!(MacAddress::new([0xff; 6]), Err(Error::InvalidMac));
    assert_eq!(
        MacAddress::new([0x01, 0, 0, 0, 0, 1]),
        Err(Error::InvalidMac)
    );
    assert!(MacAddress::new([0x02, 0, 0, 0, 0, 1]).is_ok());
    assert_eq!(Mtu::new(0), Err(Error::InvalidMtu));
    assert_eq!(Mtu::new(MIN_MTU - 1), Err(Error::InvalidMtu));
    assert!(Mtu::new(1500).is_ok());
    assert!(Mtu::new(MAX_MTU).is_ok());
    assert_eq!(Mtu::new(MAX_MTU + 1), Err(Error::InvalidMtu));
}

#[test]
fn abi_and_interface_are_validated_before_exposure() {
    let mut backend = MockBackend::new(abi::STATUS_READY);
    backend.abi_version = ABI_VERSION + 1;
    let mut adapter = Adapter::new(backend);
    assert_eq!(adapter.open(), Err(Error::AbiMismatch));
    assert!(!adapter.opened);

    let mut backend = MockBackend::new(abi::STATUS_READY);
    backend.interface.mac = [0; 6];
    let mut adapter = Adapter::new(backend);
    assert_eq!(adapter.open(), Err(Error::InvalidMac));
    assert_eq!(adapter.backend.close_count, 1);
}

#[test]
fn connect_and_poll_translate_owned_events() {
    let mut adapter = Adapter::new(MockBackend::new(abi::STATUS_READY));
    adapter.open().unwrap();
    assert_eq!(
        adapter.connect(ConnectRequest::new(b"proof-net", Security::Open, b"secret")),
        Err(Error::InvalidArgument)
    );
    assert_eq!(
        adapter.connect(ConnectRequest::new(
            b"proof-net",
            Security::Wpa2Psk,
            b"short"
        )),
        Err(Error::InvalidArgument)
    );
    let request = ConnectRequest::new(
        b"proof-net",
        Security::Wpa2Psk,
        b"correcthorsebatterystaple",
    );
    assert_eq!(adapter.connect(request), Ok(()));
    assert_eq!(adapter.status, Status::Connecting);
    assert_eq!(
        &adapter.backend.last_ssid[..adapter.backend.last_ssid_len],
        b"proof-net"
    );
    assert_eq!(adapter.backend.last_security, Security::Wpa2Psk);
    assert_eq!(
        &adapter.backend.last_passphrase[..adapter.backend.last_passphrase_len],
        b"correcthorsebatterystaple"
    );

    adapter.backend.next_poll = abi::PollWire {
        event: abi::EVENT_CONNECTED,
        status: abi::STATUS_CONNECTED,
    };
    let result = adapter.poll(0).unwrap();
    assert_eq!(result.event(), Some(WifiEvent::Connected));
    assert_eq!(result.status(), Status::Connected);

    adapter.backend.next_poll = abi::PollWire {
        event: abi::EVENT_ROAMED,
        status: abi::STATUS_CONNECTED,
    };
    assert_eq!(adapter.poll(10).unwrap().event(), Some(WifiEvent::Roamed));

    adapter.backend.next_poll = abi::PollWire {
        event: abi::EVENT_DISCONNECTED,
        status: abi::STATUS_DISCONNECTED,
    };
    assert_eq!(adapter.poll(10).unwrap().status(), Status::Disconnected);

    adapter.backend.next_poll = abi::PollWire {
        event: abi::EVENT_ADDRESS_CHANGED,
        status: abi::STATUS_DISCONNECTED,
    };
    assert_eq!(adapter.poll(0), Err(Error::Protocol));

    adapter.backend.next_poll = abi::PollWire {
        event: abi::EVENT_CONNECTED,
        status: abi::STATUS_READY,
    };
    assert_eq!(adapter.poll(0), Err(Error::Protocol));
}

#[test]
fn connect_request_debug_redacts_credential_bytes() {
    let request = ConnectRequest::new(
        b"private-network",
        Security::Wpa2Psk,
        b"supersecret-passphrase",
    );
    let debug = format!("{:?}", request.summary());

    assert!(debug.contains("ssid_len"));
    assert!(debug.contains("passphrase_len"));
    assert!(!debug.contains("private-network"));
    assert!(!debug.contains("supersecret-passphrase"));
}

#[test]
fn connect_rejects_unescaped_hostap_command_bytes() {
    let mut adapter = Adapter::new(MockBackend::new(abi::STATUS_READY));
    adapter.open().unwrap();

    assert_eq!(
        adapter.connect(ConnectRequest::new(
            b"quoted\"ssid",
            Security::Wpa2Psk,
            b"validpassword",
        )),
        Err(Error::InvalidArgument)
    );
    assert_eq!(
        adapter.connect(ConnectRequest::new(
            b"valid-ssid",
            Security::Wpa2Psk,
            b"back\\slash",
        )),
        Err(Error::InvalidArgument)
    );
}

#[test]
fn send_rejects_bad_frames_and_eapol() {
    let mut adapter = connected_adapter();
    assert_eq!(
        adapter.send(&[0; ETHERNET_HEADER_LEN - 1]),
        Err(Error::FrameTooShort)
    );

    let mut oversized = [0u8; MAX_FRAME_LEN];
    oversized[0..6].copy_from_slice(&[0xff; 6]);
    oversized[6..12].copy_from_slice(&[0x02, 1, 2, 3, 4, 5]);
    oversized[12..14].copy_from_slice(&0x0800u16.to_be_bytes());
    // The mock interface has a 1500-byte MTU, so 1600 bytes is too large.
    assert_eq!(adapter.send(&oversized), Err(Error::FrameTooLarge));

    let mut eapol = data_frame(EAPOL_ETHERTYPE, 10);
    assert_eq!(adapter.send(&eapol[..24]), Err(Error::EapolFrame));
    eapol[12..14].copy_from_slice(&0x8100u16.to_be_bytes());
    eapol[14..16].copy_from_slice(&1u16.to_be_bytes());
    eapol[16..18].copy_from_slice(&EAPOL_ETHERTYPE.to_be_bytes());
    assert_eq!(adapter.send(&eapol[..28]), Err(Error::EapolFrame));

    let frame = data_frame(0x0800, 10);
    assert_eq!(adapter.send(&frame[..24]), Ok(24));
    assert_eq!(adapter.backend.sent_len, 24);

    let mut spoofed = frame;
    spoofed[6] ^= 0x02;
    assert_eq!(adapter.send(&spoofed[..24]), Err(Error::InvalidMac));
}

#[test]
fn receive_filters_eapol_and_validates_data() {
    let mut adapter = connected_adapter();
    let mut buffer = [0u8; MAX_FRAME_LEN];

    adapter
        .backend
        .queue_frame(&data_frame(EAPOL_ETHERTYPE, 10)[..24]);
    assert_eq!(adapter.recv(&mut buffer), Ok(ReceiveResult::Filtered));

    let frame = data_frame(0x0800, 10);
    adapter.backend.queue_frame(&frame[..24]);
    assert_eq!(adapter.recv(&mut buffer), Ok(ReceiveResult::Frame(24)));

    adapter.backend.queue_frame(&[0; ETHERNET_HEADER_LEN - 1]);
    assert_eq!(adapter.recv(&mut buffer), Err(Error::FrameTooShort));

    assert_eq!(
        adapter.recv(&mut [0; ETHERNET_HEADER_LEN - 1]),
        Err(Error::BufferTooSmall)
    );
}

#[test]
fn close_is_idempotent_and_drop_closes_once() {
    let mut adapter = Adapter::new(MockBackend::new(abi::STATUS_READY));
    adapter.open().unwrap();
    assert_eq!(adapter.close(), Ok(()));
    assert_eq!(adapter.close(), Ok(()));
    assert_eq!(adapter.backend.close_count, 1);
}

#[test]
fn vlan_eapol_detection_is_bounded() {
    let mut frame = data_frame(0x8100, 8);
    frame[14..16].copy_from_slice(&1u16.to_be_bytes());
    frame[16..18].copy_from_slice(&0x88a8u16.to_be_bytes());
    frame[18..20].copy_from_slice(&2u16.to_be_bytes());
    frame[20..22].copy_from_slice(&EAPOL_ETHERTYPE.to_be_bytes());
    assert!(is_eapol(&frame[..30]));
    assert!(!is_eapol(&frame[..19]));
}

#[test]
fn backend_errors_do_not_escape_as_raw_codes() {
    assert_eq!(map_result(abi::RESULT_EINVAL), Err(Error::InvalidArgument));
    assert_eq!(map_result(abi::RESULT_ENOTCONN), Err(Error::NotConnected));
    assert_eq!(map_result(abi::RESULT_ENETDOWN), Err(Error::NotReady));
    assert_eq!(map_result(abi::RESULT_EPERM), Err(Error::NotConnected));
    assert_eq!(map_result(-12345), Err(Error::Fault));
}

#[test]
fn connect_requests_translate_to_wire_values() {
    let open = ConnectRequest::open(b"net").to_wire();
    assert_eq!(
        open,
        ConnectWire {
            bssid: [0; 6],
            security: 0,
            mfp: 0,
            band: 255,
            channel: 255,
            bandwidth: 255,
            hidden_ssid: 0,
            bssid_set: 0,
            timeout_ms: 0,
        }
    );
    let bssid = MacAddress::new([2, 0, 0, 0, 0, 9]).unwrap();
    let full = ConnectRequest::new(b"net", Security::Wpa3Sae, b"passphrase")
        .with_mfp(ManagementFrameProtection::Required)
        .with_channel(Band::Ghz5, 36)
        .with_channel_width(ChannelWidth::Mhz40)
        .with_hidden_ssid(HiddenSsid::Hidden)
        .with_bssid(bssid)
        .with_timeout_ms(1500)
        .to_wire();
    assert_eq!(
        full,
        ConnectWire {
            bssid: [2, 0, 0, 0, 0, 9],
            security: 3,
            mfp: 2,
            band: 1,
            channel: 36,
            bandwidth: 2,
            hidden_ssid: 1,
            bssid_set: 1,
            timeout_ms: 1500,
        }
    );
    assert_eq!(InterfaceRole::Station.to_wire(), 0);
    assert_eq!(InterfaceRole::AccessPoint.to_wire(), 1);
}

#[test]
fn console_reads_are_checked_around_the_transport() {
    assert_eq!(ProvisioningConsole::open(-16).err(), Some(Error::Busy));
    let console = ProvisioningConsole::open(0).ok().expect("open console");
    assert_eq!(console.begin_read(0), Err(Error::InvalidArgument));
    assert_eq!(console.begin_read(4), Ok(()));
    assert_eq!(console.read(4, 0, 3), Ok(3));
    assert_eq!(console.read(4, 0, 5), Err(Error::Protocol));
    assert_eq!(console.read(4, -11, 0), Err(Error::WouldBlock));
    let closed = ProvisioningConsole { opened: false };
    assert_eq!(closed.begin_read(4), Err(Error::NotOpen));
}

#[test]
fn every_error_has_its_own_description() {
    assert_eq!(Error::EapolFrame.description(), "EAPOL frame belongs to Zephyr");
    assert_eq!(Error::TimedOut.description(), "operation timed out");
}
