use std::collections::VecDeque;
use sha2::Digest;

use nrf7002::bus::{OPCODE_READ_STATUS_1, RPU_AWAKE, RPU_READY};
use nrf7002::control::ControlEvent;
use nrf7002::data::{DataEvent, EAPOL_ETHERTYPE, ReceivedFrame, RxEventRef};
use nrf7002::device::{RPU_MEM_HPQ_INFO, RPU_MEM_RX_CMD_BASE, SYSTEM_INIT_MESSAGE_LEN};
use nrf7002::firmware::{
    BOOT_SIGNATURE, FEATURE_SYSTEM_MODE, FirmwareBundle, FirmwareError, FirmwareReport,
    FirmwareTrustPolicy, IMAGE_HEADER_LEN, LoadError, PATCH_HEADER_LEN, PATCH_IMAGE_COUNT,
    PATCH_SIGNATURE, PINNED_PATCH_VERSION, RPU_MEM_LMAC_BOOT_SIG, RPU_MEM_UMAC_BOOT_SIG,
};
use nrf7002::memory::{
    Processor, Rpu, RpuError, RpuRequest, host_offset, transfer_at, transfer_bytes, transfer_count,
    validate_access,
};
use nrf7002::protocol::{
    HOST_MESSAGE_HEADER_LEN, HostMessageRef, HostMessageType, RF_PARAMS_LEN, SYSTEM_INIT_LEN,
    SystemInitConfig, UMAC_HEADER_LEN, encode_host_message, parse_host_message,
};
use nrf7002::runtime::{
    DriverError, DriverEvent, DriverState, NativeDriver, RPU_WATCHDOG_BIT, RPU_WATCHDOG_RELOAD,
    RecoveryError, RecoveryReply, RecoveryRequest, RecoveryStage, ethernet_type,
};
use nrf7002::station::{StationController, StationError, StationState};
use nrf7002::system::{SYSTEM_HEADER_LEN, SystemEvent, SystemEventId};

trait Bus {
    type Error;

    fn read_status(&mut self, opcode: u8) -> Result<u8, Self::Error>;

    fn write_status(&mut self, opcode: u8, value: u8) -> Result<(), Self::Error>;

    fn read(&mut self, address: u32, data: &mut [u8]) -> Result<(), Self::Error>;

    fn write(&mut self, address: u32, data: &[u8]) -> Result<(), Self::Error>;
}

trait Pause {
    fn pause(&mut self);
}

fn read<B: Bus>(
    rpu: &mut Rpu<B>,
    processor: Processor,
    address: u32,
    data: &mut [u8],
) -> Result<(), RpuError<B::Error>> {
    validate_access::<B::Error>(processor, address, data.len())?;
    for index in 0..transfer_count(data.len()) {
        let transfer = transfer_at(processor, address, data.len(), index);
        let mut wire = vec![0; transfer.wire_len];
        rpu.bus_mut()
            .read(transfer.host, &mut wire)
            .map_err(RpuError::Bus)?;
        data[transfer.start..transfer.start + transfer.len]
            .copy_from_slice(&wire[..transfer.len]);
    }
    Ok(())
}

fn write<B: Bus>(
    rpu: &mut Rpu<B>,
    processor: Processor,
    address: u32,
    data: &[u8],
) -> Result<(), RpuError<B::Error>> {
    validate_access::<B::Error>(processor, address, data.len())?;
    for index in 0..transfer_count(data.len()) {
        let transfer = transfer_at(processor, address, data.len(), index);
        rpu.bus_mut()
            .write(transfer.host, &transfer_bytes(data, transfer))
            .map_err(RpuError::Bus)?;
    }
    Ok(())
}

fn perform<B: Bus>(
    rpu: &mut Rpu<B>,
    delay: &mut dyn Pause,
    request: RpuRequest,
    data: &[u8],
    storage: &mut [u8],
) -> Result<Vec<u8>, RpuError<B::Error>> {
    match request {
        RpuRequest::ReadStatus { opcode } => {
            let status = rpu.bus_mut().read_status(opcode).map_err(RpuError::Bus)?;
            return Ok(vec![status]);
        }
        RpuRequest::WriteStatus { opcode, value } => {
            rpu.bus_mut()
                .write_status(opcode, value)
                .map_err(RpuError::Bus)?;
        }
        RpuRequest::Read {
            processor,
            address,
            len,
        } => {
            let mut bytes = vec![0; len];
            read(rpu, processor, address, &mut bytes)?;
            return Ok(bytes);
        }
        RpuRequest::ReadInto {
            processor,
            address,
            start,
            len,
        } => read(rpu, processor, address, &mut storage[start..start + len])?,
        RpuRequest::WriteWord {
            processor,
            address,
            value,
        } => write(rpu, processor, address, &value.to_le_bytes())?,
        RpuRequest::WriteFrom {
            processor,
            address,
            start,
            len,
        } => write(rpu, processor, address, &data[start..start + len])?,
        RpuRequest::WriteIndirectWord {
            processor,
            address,
            value,
        } => {
            let writes = nrf7002::memory::write_indirect::<B::Error>(processor, address, &value.to_le_bytes())?;
            for (register, word) in writes {
                write(rpu, Processor::Lmac, register, &word.to_le_bytes())?;
            }
        }
        RpuRequest::Delay { .. } => delay.pause(),
    }
    Ok(Vec::new())
}

fn prepare_security_for_test(station: &mut StationController, peer: [u8; 6]) {
    station.interface_created = true;
    station.transition(StationState::Securing);
    station.last_fault = None;
    station.peer = Some(peer);
    station.secure_connection = true;
    station.controlled_port_authorized = false;
    station.carrier_on = false;
    station.pending_command = None;
    station.pending_return_state = None;
}

struct NoDelay;

impl Pause for NoDelay {
    fn pause(&mut self) {}
}

#[derive(Default)]
struct TestPlatform {
    fail_hard_reset: bool,
    hard_reset_calls: usize,
}

impl TestPlatform {
    fn hard_reset(&mut self) -> Result<(), ()> {
        self.hard_reset_calls += 1;
        if self.fail_hard_reset {
            Err(())
        } else {
            Ok(())
        }
    }
}

fn prepare_ready_for_test<B, const RX: usize, const TX: usize>(
    driver: &mut NativeDriver<B, RX, TX>,
) {
    driver.state = DriverState::Ready;
}

fn recover<'a, B: Bus<Error = ()>, T: FirmwareTrustPolicy>(
    driver: &mut NativeDriver<B, 1, 1>,
    platform: &mut TestPlatform,
    bundle: &FirmwareBundle<'a>,
    trust: &T,
    config: &'a SystemInitConfig,
) -> Result<FirmwareReport, RecoveryError<(), ()>> {
    let mut recovery = driver.recover(bundle, config).map_err(RecoveryError::Driver)?;
    while let Some(request) = driver.recovery_request::<(), ()>(&recovery)? {
        match request {
            RecoveryRequest::HardReset => {
                let reply = RecoveryReply::<(), ()>::Board(platform.hard_reset());
                driver.resume_recovery(&mut recovery, trust, reply)?;
            }
            RecoveryRequest::PrepareWakeBus | RecoveryRequest::PrepareDataBus => {
                let reply = RecoveryReply::<(), ()>::Board(Ok(()));
                driver.resume_recovery(&mut recovery, trust, reply)?;
            }
            RecoveryRequest::Access(access) => {
                let message = recovery.message;
                let data = match recovery.stage {
                    RecoveryStage::Load(_) => bundle.as_bytes(),
                    _ => &message[..],
                };
                match perform(&mut driver.device.rpu, &mut NoDelay, access, data, &mut []) {
                    Ok(bytes) => {
                        let reply = RecoveryReply::<(), ()>::Access(Ok(&bytes));
                        driver.resume_recovery(&mut recovery, trust, reply)?;
                    }
                    Err(error) => {
                        let reply = RecoveryReply::<(), ()>::Access(Err(error));
                        driver.resume_recovery(&mut recovery, trust, reply)?;
                    }
                }
            }
        }
    }
    Ok(recovery.report.expect("a finished recovery has a firmware report"))
}

fn watchdog_pending<B: Bus>(
    driver: &mut NativeDriver<B, 1, 1>,
) -> Result<bool, DriverError<B::Error>> {
    let mut read = driver.watchdog_pending();
    loop {
        let reply = perform(&mut driver.device.rpu, &mut NoDelay, read.request(), &[], &mut []);
        let outcome = match reply {
            Ok(bytes) => driver.resume_watchdog(&mut read, Ok(&bytes))?,
            Err(error) => driver.resume_watchdog(&mut read, Err(error))?,
        };
        if let Some(pending) = outcome {
            return Ok(pending);
        }
    }
}

fn acknowledge_watchdog<B: Bus>(
    driver: &mut NativeDriver<B, 1, 1>,
) -> Result<(), DriverError<B::Error>> {
    let mut stage = driver.acknowledge_watchdog();
    while let Some(request) = stage.request() {
        stage = match perform(&mut driver.device.rpu, &mut NoDelay, request, &[], &mut []) {
            Ok(bytes) => driver.resume_acknowledgement(stage, Ok(&bytes))?,
            Err(error) => driver.resume_acknowledgement(stage, Err(error))?,
        };
    }
    Ok(())
}

const MAC: [u8; 6] = [2, 0, 0, 0, 0, 1];

#[derive(Default)]
struct TestBus {
    reads: VecDeque<u32>,
    writes: Vec<(u32, Vec<u8>)>,
}

impl Bus for TestBus {
    type Error = ();

    fn read_status(&mut self, _opcode: u8) -> Result<u8, Self::Error> {
        Ok(0)
    }

    fn write_status(&mut self, _opcode: u8, _value: u8) -> Result<(), Self::Error> {
        Ok(())
    }

    fn read(&mut self, _address: u32, data: &mut [u8]) -> Result<(), Self::Error> {
        let value = self.reads.pop_front().unwrap_or(0).to_le_bytes();
        data.copy_from_slice(&value[..data.len()]);
        Ok(())
    }

    fn write(&mut self, address: u32, data: &[u8]) -> Result<(), Self::Error> {
        self.writes.push((address, data.to_vec()));
        Ok(())
    }
}

struct AllowFirmware;

impl FirmwareTrustPolicy for AllowFirmware {
    fn verify(&self, _bundle: &FirmwareBundle<'_>) -> Result<(), FirmwareError> {
        Ok(())
    }
}

fn make_driver() -> NativeDriver<(), 1, 1> {
    NativeDriver::new((), 64, 64, 1, 0, 0).unwrap()
}

fn test_bus_driver(bus: TestBus) -> NativeDriver<TestBus, 1, 1> {
    NativeDriver::new(bus, 64, 64, 1, 0, 0).unwrap()
}

fn valid_config() -> SystemInitConfig {
    let mut config = SystemInitConfig::new(MAC, [0; RF_PARAMS_LEN]);
    config.rx_pools[0].buffer_size = 64;
    config.rx_pools[0].buffer_count = 1;
    config
}

fn bundle_bytes() -> [u8; PATCH_HEADER_LEN + 4 * IMAGE_HEADER_LEN + 4] {
    let mut bytes = [0u8; PATCH_HEADER_LEN + 4 * IMAGE_HEADER_LEN + 4];
    bytes[0..4].copy_from_slice(&PATCH_SIGNATURE.to_le_bytes());
    bytes[4..8].copy_from_slice(&PATCH_IMAGE_COUNT.to_le_bytes());
    bytes[8..12].copy_from_slice(&PINNED_PATCH_VERSION.to_le_bytes());
    bytes[12..16].copy_from_slice(&FEATURE_SYSTEM_MODE.to_le_bytes());
    let payload_len = (bytes.len() - PATCH_HEADER_LEN) as u32;
    bytes[16..20].copy_from_slice(&payload_len.to_le_bytes());
    let mut offset = PATCH_HEADER_LEN;
    for kind in 0u32..4 {
        bytes[offset..offset + 4].copy_from_slice(&kind.to_le_bytes());
        bytes[offset + 4..offset + 8].copy_from_slice(&1u32.to_le_bytes());
        bytes[offset + 8] = kind as u8;
        offset += IMAGE_HEADER_LEN + 1;
    }
    let digest = sha2::Sha256::digest(&bytes[PATCH_HEADER_LEN..]);
    bytes[20..PATCH_HEADER_LEN].copy_from_slice(&digest);
    bytes
}

fn message<'a>(message_type: HostMessageType, payload: &'a [u8]) -> HostMessageRef<'a> {
    HostMessageRef {
        resubmit: false,
        message_type,
        payload,
    }
}

fn data_payload<const N: usize>(command: u32) -> [u8; N] {
    let mut payload = [0u8; N];
    payload[..4].copy_from_slice(&command.to_le_bytes());
    payload[4..8].copy_from_slice(&(N as u32).to_le_bytes());
    payload
}

fn received(ether_type: u16) -> ReceivedFrame {
    ReceivedFrame {
        len: 14,
        ether_type,
        descriptor_id: 0,
        signal_dbm: -40,
        frequency_mhz: 2412,
    }
}

#[test]
fn init_done_moves_runtime_to_ready() {
    let mut driver = make_driver();
    driver.state = DriverState::WaitingForSystemInit;
    let mut payload = [0u8; SYSTEM_HEADER_LEN];
    payload[0..4].copy_from_slice(&SystemEventId::InitDone.code().to_le_bytes());
    payload[4..8].copy_from_slice(&(SYSTEM_HEADER_LEN as u32).to_le_bytes());
    let mut bytes = [0u8; 32];
    let len = encode_host_message(&mut bytes, HostMessageType::System, true, &payload).unwrap();
    let message = parse_host_message(&bytes[..len]).unwrap();
    assert!(driver.dispatch_message::<()>(message).is_ok());
    assert_eq!(driver.state(), DriverState::Ready);
    assert_eq!(driver.station.state(), StationState::Down);
}

#[test]
fn system_events_are_state_checked_and_other_events_are_preserved() {
    let mut driver = make_driver();
    let mut payload = [0u8; SYSTEM_HEADER_LEN];
    payload[0..4].copy_from_slice(&SystemEventId::DeinitDone.code().to_le_bytes());
    payload[4..8].copy_from_slice(&(SYSTEM_HEADER_LEN as u32).to_le_bytes());
    assert!(matches!(
        driver.dispatch_message::<()>(message(HostMessageType::System, &payload)),
        Err(DriverError::UnexpectedEventForState {
            state: DriverState::Cold
        })
    ));
    assert_eq!(driver.state(), DriverState::Recovering);

    let mut driver = make_driver();
    payload[0..4].copy_from_slice(&999u32.to_le_bytes());
    assert!(matches!(
        driver.dispatch_message::<()>(message(HostMessageType::System, &payload)),
        Ok(DriverEvent::System(SystemEvent::Other { id: 999, .. }))
    ));
    assert_eq!(driver.state(), DriverState::Cold);
}

#[test]
fn control_data_and_supplicant_dispatch_cover_success_and_fail_closed_paths() {
    let mut driver = make_driver();
    let supplicant = [1, 2, 3];
    assert!(matches!(
        driver.dispatch_message::<()>(message(HostMessageType::Supplicant, &supplicant)),
        Err(DriverError::InvalidState { .. })
    ));
    prepare_ready_for_test(&mut driver);
    assert!(matches!(
        driver.dispatch_message::<()>(message(HostMessageType::Supplicant, &supplicant)),
        Ok(DriverEvent::Supplicant([1, 2, 3]))
    ));

    let control = [0u8; UMAC_HEADER_LEN];
    assert!(matches!(
        driver.dispatch_message::<()>(message(HostMessageType::Umac, &control)),
        Ok(DriverEvent::Control(ControlEvent::Other { .. }))
    ));

    let other = data_payload::<8>(99);
    assert!(matches!(
        driver.dispatch_message::<()>(message(HostMessageType::Data, &other)),
        Ok(DriverEvent::Data(DataEvent::Other(99)))
    ));

    let receive = data_payload::<24>(3);
    assert!(matches!(
        driver.dispatch_message::<()>(message(HostMessageType::Data, &receive)),
        Ok(DriverEvent::Receive(_))
    ));

    let mut done = data_payload::<23>(2);
    done[9] = 1;
    assert!(matches!(
        driver.dispatch_message::<()>(message(HostMessageType::Data, &done)),
        Err(DriverError::DataProtocol(_))
    ));

    let mut mismatched_carrier = data_payload::<12>(4);
    mismatched_carrier[8..12].copy_from_slice(&1u32.to_le_bytes());
    assert!(matches!(
        driver.dispatch_message::<()>(message(HostMessageType::Data, &mismatched_carrier)),
        Err(DriverError::Station(StationError::Fault(_)))
    ));
    assert_eq!(driver.state(), DriverState::Recovering);
}

#[test]
fn receive_policy_checks_interface_and_controlled_port_after_data_copy() {
    let mut driver = make_driver();
    let event_bytes = data_payload::<24>(3);
    let event = RxEventRef::parse(message(HostMessageType::Data, &event_bytes)).unwrap();
    assert!(matches!(
        driver.validate_received_frame::<()>(&event, received(0x0800)),
        Err(DriverError::ControlledPortClosed {
            ether_type: 0x0800,
            ..
        })
    ));

    prepare_security_for_test(&mut driver.station, MAC);
    assert_eq!(
        driver.validate_received_frame::<()>(&event, received(EAPOL_ETHERTYPE))
            .unwrap(),
        received(EAPOL_ETHERTYPE)
    );

    let mut wrong_interface = data_payload::<24>(3);
    wrong_interface[12] = 1;
    let event = RxEventRef::parse(message(HostMessageType::Data, &wrong_interface)).unwrap();
    assert!(matches!(
        driver.validate_received_frame::<()>(&event, received(EAPOL_ETHERTYPE)),
        Err(DriverError::WrongInterface {
            expected: 0,
            received: 1
        })
    ));
    assert_eq!(driver.state(), DriverState::Recovering);
}

#[test]
fn transmit_rejects_wrong_interface_short_frames_and_closed_port() {
    let mut driver = make_driver();
    assert!(matches!(
        driver.transmit::<()>(1, &[0; 14], 0),
        Err(DriverError::WrongInterface {
            expected: 0,
            received: 1
        })
    ));
    assert!(matches!(
        driver.transmit::<()>(0, &[0; 13], 0),
        Err(DriverError::FrameTooShort)
    ));
    assert!(matches!(
        driver.transmit::<()>(0, &[0; 14], 0),
        Err(DriverError::ControlledPortClosed { .. })
    ));
    assert_eq!(ethernet_type(&[0; 13]), None);
    let mut frame = [0u8; 14];
    frame[12..14].copy_from_slice(&0x0800u16.to_be_bytes());
    assert_eq!(ethernet_type(&frame), Some(0x0800));
}

#[test]
fn station_interface_configuration_requires_ready_exact_identity() {
    let mut driver = make_driver();
    assert!(matches!(
        driver.create_station_interface::<()>(1, MAC, b"wlan0"),
        Err(DriverError::InvalidState { .. })
    ));

    prepare_ready_for_test(&mut driver);
    driver.configured_mac = Some(MAC);
    assert!(matches!(
        driver.create_station_interface::<()>(2, MAC, b"wlan0"),
        Err(DriverError::ConfigurationMismatch)
    ));
    assert!(matches!(
        driver.create_station_interface::<()>(1, [4; 6], b"wlan0"),
        Err(DriverError::ConfigurationMismatch)
    ));
    assert!(driver.create_station_interface::<()>(1, MAC, b"wlan0").is_ok());
}

#[test]
fn system_configuration_checks_each_runtime_identity_boundary() {
    let driver = make_driver();
    assert_eq!(
        SYSTEM_INIT_MESSAGE_LEN,
        SYSTEM_INIT_LEN + HOST_MESSAGE_HEADER_LEN
    );
    let valid = valid_config();
    assert!(driver.validate_system_config::<()>(&valid).is_ok());

    for invalid in [
        {
            let mut value = valid.clone();
            value.wdev_id = 1;
            value
        },
        {
            let mut value = valid.clone();
            value.mac_address = [0; 6];
            value
        },
        {
            let mut value = valid.clone();
            value.mac_address = [0xff; 6];
            value
        },
        {
            let mut value = valid.clone();
            value.mac_address = [3, 0, 0, 0, 0, 1];
            value
        },
        {
            let mut value = valid.clone();
            value.rx_pools[0].buffer_size = 65;
            value
        },
        {
            let mut value = valid.clone();
            value.rx_pools[0].buffer_count = 2;
            value
        },
        {
            let mut value = valid.clone();
            value.rx_pools[1].buffer_size = 1;
            value
        },
        {
            let mut value = valid.clone();
            value.rx_pools[2].buffer_count = 1;
            value
        },
    ] {
        assert!(matches!(
            driver.validate_system_config::<()>(&invalid),
            Err(DriverError::ConfigurationMismatch)
        ));
    }
}

#[test]
fn recovery_validation_and_platform_failures_end_in_fault() {
    let bytes = bundle_bytes();
    let bundle = FirmwareBundle::parse(&bytes).unwrap();

    let mut driver = test_bus_driver(TestBus::default());
    let mut platform = TestPlatform::default();
    let invalid = SystemInitConfig::new(MAC, [0; RF_PARAMS_LEN]);
    assert!(matches!(
        recover(&mut driver, &mut platform, &bundle, &AllowFirmware, &invalid),
        Err(RecoveryError::Driver(DriverError::ConfigurationMismatch))
    ));
    assert_eq!(driver.state(), DriverState::Fault);
    assert_eq!(platform.hard_reset_calls, 0);

    let mut driver = test_bus_driver(TestBus::default());
    let mut platform = TestPlatform {
        fail_hard_reset: true,
        hard_reset_calls: 0,
    };
    assert!(matches!(
        recover(&mut driver, &mut platform, &bundle, &AllowFirmware, &valid_config()),
        Err(RecoveryError::Platform(()))
    ));
    assert_eq!(driver.state(), DriverState::Fault);
    assert_eq!(platform.hard_reset_calls, 1);
}

#[test]
fn watchdog_sentinel_rule_and_acknowledgement_are_exact() {
    let mut bus = TestBus::default();
    bus.reads.extend([0xaaaa_aaaa, RPU_WATCHDOG_BIT, 0]);
    let mut driver = test_bus_driver(bus);
    assert!(watchdog_pending(&mut driver).unwrap());
    assert!(!watchdog_pending(&mut driver).unwrap());
    assert!(acknowledge_watchdog(&mut driver).is_ok());
    assert_eq!(driver.state(), DriverState::Recovering);
    let bus = driver.into_inner();
    assert_eq!(bus.writes.len(), 2);
    assert_eq!(bus.writes[0].1, RPU_WATCHDOG_BIT.to_le_bytes());
    assert_eq!(bus.writes[1].1, RPU_WATCHDOG_RELOAD.to_le_bytes());

    let mut bus = TestBus::default();
    bus.reads.extend([0xaaaa_aaaa; 10]);
    let mut driver = test_bus_driver(bus);
    assert!(matches!(
        watchdog_pending(&mut driver),
        Err(DriverError::InvalidWatchdogStatus)
    ));
    assert_eq!(driver.state(), DriverState::Fault);
}

#[test]
fn controlled_port_blocks_normal_data_before_connection() {
    let driver = make_driver();
    assert!(matches!(
        driver.require_controlled_port::<()>(0x0800),
        Err(DriverError::ControlledPortClosed {
            state: StationState::Down,
            ether_type: 0x0800,
        })
    ));
}

#[test]
fn controlled_port_allows_eapol_during_key_exchange() {
    let mut driver = make_driver();
    prepare_security_for_test(&mut driver.station, [1, 2, 3, 4, 5, 6]);
    assert!(driver.require_controlled_port::<()>(EAPOL_ETHERTYPE).is_ok());
    assert!(driver.require_controlled_port::<()>(0x0800).is_err());
}

/// A board whose processors reset at once, boot their patches and hand out one
/// command buffer.
#[derive(Default)]
struct BoardBus {
    wake: u8,
    writes: Vec<(u32, Vec<u8>)>,
}

impl Bus for BoardBus {
    type Error = ();

    fn read_status(&mut self, opcode: u8) -> Result<u8, Self::Error> {
        if opcode == OPCODE_READ_STATUS_1 {
            Ok(RPU_AWAKE | RPU_READY)
        } else {
            Ok(self.wake)
        }
    }

    fn write_status(&mut self, _opcode: u8, value: u8) -> Result<(), Self::Error> {
        self.wake = value;
        Ok(())
    }

    fn read(&mut self, address: u32, data: &mut [u8]) -> Result<(), Self::Error> {
        let at = |register| host_offset(Processor::Umac, register).unwrap();
        data.fill(0);
        if address == at(RPU_MEM_HPQ_INFO) {
            for (index, word) in data.chunks_exact_mut(4).enumerate() {
                word.copy_from_slice(&(0xa400_6000 + 4 * index as u32).to_le_bytes());
            }
            return Ok(());
        }
        let value = if address == at(0xa400_0018) || address == at(0xa400_0118) {
            1
        } else if address == at(RPU_MEM_LMAC_BOOT_SIG) || address == at(RPU_MEM_UMAC_BOOT_SIG) {
            BOOT_SIGNATURE
        } else if address == at(RPU_MEM_RX_CMD_BASE) {
            0xb000_2000
        } else if address == at(0xa400_6000 + 4 * 7) {
            0xb000_5000
        } else {
            0
        };
        data.copy_from_slice(&value.to_le_bytes()[..data.len()]);
        Ok(())
    }

    fn write(&mut self, address: u32, data: &[u8]) -> Result<(), Self::Error> {
        self.writes.push((address, data.to_vec()));
        Ok(())
    }
}

#[test]
fn a_complete_recovery_waits_for_system_initialization() {
    let bytes = bundle_bytes();
    let bundle = FirmwareBundle::parse(&bytes).unwrap();
    let mut driver = NativeDriver::<BoardBus, 1, 1>::new(BoardBus::default(), 64, 64, 1, 0, 0)
        .unwrap();
    let mut platform = TestPlatform::default();
    let config = valid_config();
    let report = recover(&mut driver, &mut platform, &bundle, &AllowFirmware, &config).unwrap();
    assert_eq!(report.version, PINNED_PATCH_VERSION);
    assert_eq!(platform.hard_reset_calls, 1);
    assert_eq!(driver.state(), DriverState::WaitingForSystemInit);
    assert_eq!(driver.configured_mac, Some(MAC));
    assert_eq!(driver.data.rx_posted, [true]);
    assert!(!driver.station.controlled_port_open());
}

struct RefuseFirmware;

impl FirmwareTrustPolicy for RefuseFirmware {
    fn verify(&self, _bundle: &FirmwareBundle<'_>) -> Result<(), FirmwareError> {
        Err(FirmwareError::UntrustedImage)
    }
}

#[test]
fn a_refused_bundle_ends_recovery_in_fault() {
    let bytes = bundle_bytes();
    let bundle = FirmwareBundle::parse(&bytes).unwrap();
    let mut driver = NativeDriver::<BoardBus, 1, 1>::new(BoardBus::default(), 64, 64, 1, 0, 0)
        .unwrap();
    let mut platform = TestPlatform::default();
    let config = valid_config();
    assert!(matches!(
        recover(&mut driver, &mut platform, &bundle, &RefuseFirmware, &config),
        Err(RecoveryError::Driver(DriverError::Firmware(
            LoadError::Firmware(FirmwareError::UntrustedImage)
        )))
    ));
    assert_eq!(driver.state(), DriverState::Fault);
}

#[test]
fn advancing_time_past_a_deadline_enters_recovery() {
    let mut driver = make_driver();
    prepare_ready_for_test(&mut driver);
    driver.station.transition(StationState::Scanning);
    assert!(driver.advance_time::<()>(29_999).is_ok());
    assert!(driver.advance_time::<()>(1).is_err());
    assert_eq!(driver.state(), DriverState::Recovering);
}
