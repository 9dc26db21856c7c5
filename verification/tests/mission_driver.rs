use nrf7002::control::ControlEvent;
use nrf7002::data::{
    DataError, DataEvent, DataProtocolError, EAPOL_ETHERTYPE, ReceivedFrame, RxEventRef, TxDoneEventRef,
};
use nrf7002::device::DeviceError;
use nrf7002::firmware::{FirmwareError, LoadError};
use nrf7002::memory::RpuError;
use nrf7002::production::{
    DriverOperation, MissionCriticalDriver, ProductionError, data_error_requires_recovery,
    device_error_requires_recovery, driver_error_requires_recovery, ethernet_type,
    receive_error_requires_recovery, simple_driver_error_requires_recovery,
    station_error_requires_recovery,
};
use nrf7002::protocol::{
    DataCommand, HostMessageRef, HostMessageType, ProtocolError, UmacCommand, UmacHeader,
};
use nrf7002::runtime::{DriverError, DriverEvent, DriverState, NativeDriver};
use nrf7002::secure::{
    EapolTransmitPurpose, SecureProductionError, SecureReceive, SecurityRoute, Wpa2RuntimeState,
    Wpa2StationDriver, control_event_is_expected, expected_security_command,
    finish_received_packet, frame_is_eapol, security_route, transmit_done_is_expected,
};
use nrf7002::station::{StationController, StationError, StationFault, StationState};
use nrf7002::system::SystemEvent;

fn prepare_security_for_test(station: &mut StationController, peer: [u8; 6]) {
    station.interface_created = true;
    station.transition(StationState::Securing);
    station.last_fault = None;
    station.peer = Some(peer);
    station.secure_connection = true;
    station.controlled_port_authorized = false;
    station.carrier_on = false;
    station.pending_command = None;
    station.pending_return_state = None;
}

fn prepare_connected_for_test(station: &mut StationController, peer: [u8; 6]) {
    prepare_security_for_test(station, peer);
    station.controlled_port_authorized = true;
    station.carrier_on = true;
    station.transition(StationState::Connected);
}



#[derive(Default)]
struct NullBus;

fn driver() -> MissionCriticalDriver<NullBus, 1, 1> {
    MissionCriticalDriver::new(NullBus, 64, 64, 1, 0, 0).unwrap()
}

fn ready_native() -> NativeDriver<NullBus, 1, 1> {
    let mut native = NativeDriver::new(NullBus, 64, 64, 1, 0, 0).unwrap();
    native.state = DriverState::Ready;
    native
}

fn ready_driver() -> MissionCriticalDriver<NullBus, 1, 1> {
    MissionCriticalDriver::from_native(ready_native())
}

fn received(ether_type: u16) -> ReceivedFrame {
    ReceivedFrame {
        len: 14,
        ether_type,
        descriptor_id: 0,
        signal_dbm: -40,
        frequency_mhz: 2412,
    }
}

fn umac_header() -> UmacHeader {
    UmacHeader {
        port_id: 0,
        sequence: 1,
        command_event: 0,
        result: 0,
        valid_ids: 0,
        ifaceindex: 1,
        wiphy_index: 0,
        wdev_id: 0,
    }
}

fn rx_event_payload() -> [u8; 37] {
    let mut payload = [0u8; 37];
    payload[..4]
        .copy_from_slice(&DataCommand::ReceiveBuffer.code().to_le_bytes());
    let len = payload.len() as u32;
    payload[4..8].copy_from_slice(&len.to_le_bytes());
    payload[13] = 1;
    payload[15] = 24;
    payload
}

#[test]
fn mission_driver_is_fail_closed_until_ready_and_validates_ethernet_first() {
    let mut cold = driver();
    assert_eq!(cold.state(), DriverState::Cold);
    assert!(!cold.controlled_port_open());
    assert!(matches!(
        cold.transmit::<()>(0, &[0; 14], 0),
        Err(ProductionError::Driver(DriverError::InvalidState { .. }))
    ));
    let payload = rx_event_payload();
    let event = RxEventRef::parse(HostMessageRef {
        resubmit: false,
        message_type: HostMessageType::Data,
        payload: &payload,
    })
    .unwrap();
    assert!(matches!(
        cold.receive_packet::<()>(&event, 0, 64),
        Err(ProductionError::Driver(DriverError::InvalidState { .. }))
    ));

    let mut ready = ready_driver();
    assert!(matches!(
        ready.transmit::<()>(0, &[0; 13], 0),
        Err(ProductionError::InvalidEthernetFrame)
    ));
    let mut ipv4 = [0u8; 14];
    ipv4[12..14].copy_from_slice(&0x0800u16.to_be_bytes());
    assert!(matches!(
        ready.transmit::<()>(0, &ipv4, 0),
        Err(ProductionError::ControlledPortClosed { ether_type: 0x0800 })
    ));
}

#[test]
fn receive_result_normalization_wipes_closed_port_frames_and_recovers_faults() {
    let mut driver = ready_driver();
    let mut output = [7u8; 32];
    assert!(matches!(
        driver.finish_receive::<()>(
            Err(DriverError::ControlledPortClosed {
                state: StationState::Down,
                ether_type: 0x0800,
            }),
            &mut output,
        ),
        Err(ProductionError::ControlledPortClosed { ether_type: 0x0800 })
    ));
    assert_eq!(output, [0; 32]);
    assert_eq!(driver.state(), DriverState::Ready);

    output.fill(7);
    assert!(matches!(
        driver.finish_receive::<()>(
            Err(DriverError::Data(DataError::OutputTooSmall {
                needed: 64,
                capacity: 32,
            })),
            &mut output,
        ),
        Err(ProductionError::Driver(DriverError::Data(
            DataError::OutputTooSmall { .. }
        )))
    ));
    assert_eq!(driver.state(), DriverState::Ready);

    assert!(matches!(
        driver.finish_receive::<()>(
            Err(DriverError::DataProtocol(DataProtocolError::InvalidLength)),
            &mut output,
        ),
        Err(ProductionError::Driver(DriverError::DataProtocol(_)))
    ));
    assert_eq!(driver.state(), DriverState::Recovering);
}

#[test]
fn received_frame_policy_allows_only_the_active_controlled_port() {
    let driver = ready_driver();
    let mut output = [9u8; 32];
    assert!(!driver.frame_allowed(EAPOL_ETHERTYPE));
    assert!(matches!(
        driver.enforce_received_frame::<()>(received(0x0800), &mut output),
        Err(ProductionError::ControlledPortClosed { ether_type: 0x0800 })
    ));
    assert_eq!(&output[..14], &[0; 14]);

    let mut native = ready_native();
    prepare_security_for_test(&mut native.station, [1, 2, 3, 4, 5, 6]);
    let driver = MissionCriticalDriver::from_native(native);
    assert!(driver.frame_allowed(EAPOL_ETHERTYPE));
    assert!(!driver.frame_allowed(0x0800));
    assert!(
        driver
            .enforce_received_frame::<()>(received(EAPOL_ETHERTYPE), &mut output)
            .is_ok()
    );

    let mut native = ready_native();
    prepare_connected_for_test(&mut native.station, [1, 2, 3, 4, 5, 6]);
    let driver = MissionCriticalDriver::from_native(native);
    assert!(driver.frame_allowed(0x0800));
    assert!(
        driver
            .enforce_received_frame::<()>(received(0x0800), &mut output)
            .is_ok()
    );
}

#[test]
fn finish_helpers_enter_recovery_only_for_hardware_and_station_faults() {
    let mut driver = ready_driver();
    assert_eq!(driver.finish_station::<u8, ()>(Ok(7)).unwrap(), 7);
    assert!(matches!(
        driver.finish_station::<(), ()>(Err(StationError::Protocol(ProtocolError::LimitExceeded))),
        Err(ProductionError::Station(StationError::Protocol(_)))
    ));
    assert_eq!(driver.state(), DriverState::Ready);
    assert!(matches!(
        driver.finish_station::<(), ()>(Err(StationError::Fault(StationFault::UnexpectedEvent))),
        Err(ProductionError::Station(StationError::Fault(_)))
    ));
    assert_eq!(driver.state(), DriverState::Recovering);

    let mut driver = ready_driver();
    assert_eq!(
        driver
            .finish_driver::<u8, ()>(Ok(9), DriverOperation::Control)
            .unwrap(),
        9
    );
    assert!(matches!(
        driver.finish_driver::<(), ()>(Err(DriverError::FrameTooShort), DriverOperation::Transmit),
        Err(ProductionError::Driver(DriverError::FrameTooShort))
    ));
    assert_eq!(driver.state(), DriverState::Ready);
    assert!(matches!(
        driver.finish_driver::<(), ()>(
            Err(DriverError::InvalidWatchdogStatus),
            DriverOperation::Watchdog
        ),
        Err(ProductionError::Driver(DriverError::InvalidWatchdogStatus))
    ));
    assert_eq!(driver.state(), DriverState::Recovering);
}

#[test]
fn all_recovery_policy_categories_are_explicit() {
    for error in [
        DeviceError::<()>::Rpu(RpuError::Timeout),
        DeviceError::NotInitialized,
        DeviceError::InvalidQueueMap,
        DeviceError::CommandDeliveryUncertain,
        DeviceError::RecoveryRequired,
        DeviceError::EventTooLarge {
            declared: 2,
            capacity: 1,
        },
    ] {
        assert!(device_error_requires_recovery(&error));
    }
    for error in [
        DeviceError::<()>::Protocol(ProtocolError::InvalidLength),
        DeviceError::CommandQueueEmpty,
        DeviceError::CommandNeedsWait,
        DeviceError::CommandQueueTimeout,
        DeviceError::EventBufferChanged,
    ] {
        assert!(!device_error_requires_recovery(&error));
    }

    assert!(data_error_requires_recovery(
        &DataError::<()>::Rpu(RpuError::Timeout),
        DriverOperation::Transmit
    ));
    assert!(data_error_requires_recovery(
        &DataError::<()>::Device(DeviceError::NotInitialized),
        DriverOperation::Control
    ));
    assert!(data_error_requires_recovery(
        &DataError::<()>::QueueOwnershipUncertain(DeviceError::CommandDeliveryUncertain),
        DriverOperation::Transmit
    ));
    assert!(data_error_requires_recovery(
        &DataError::<()>::ReceiveDescriptorBusy(1),
        DriverOperation::Receive
    ));
    assert!(data_error_requires_recovery(
        &DataError::<()>::Protocol(DataProtocolError::InvalidLength),
        DriverOperation::Event
    ));
    assert!(!data_error_requires_recovery(
        &DataError::<()>::Protocol(DataProtocolError::InvalidLength),
        DriverOperation::Transmit
    ));
    assert!(!data_error_requires_recovery(
        &DataError::<()>::NoTransmitToken,
        DriverOperation::Transmit
    ));
    assert!(!data_error_requires_recovery(
        &DataError::<()>::OutputTooSmall {
            needed: 2,
            capacity: 1,
        },
        DriverOperation::Receive
    ));
}

#[test]
fn simple_driver_error_policy_distinguishes_input_context() {
    assert!(simple_driver_error_requires_recovery(
        &DriverError::<()>::DataProtocol(DataProtocolError::InvalidLength),
        DriverOperation::Control
    ));
    assert!(simple_driver_error_requires_recovery(
        &DriverError::<()>::Protocol(ProtocolError::InvalidLength),
        DriverOperation::Control
    ));
    assert!(simple_driver_error_requires_recovery(
        &DriverError::<()>::Firmware(LoadError::Firmware(
            FirmwareError::TruncatedHeader,
        )),
        DriverOperation::Control
    ));
    let wrong = DriverError::<()>::WrongInterface {
        expected: 0,
        received: 1,
    };
    assert!(simple_driver_error_requires_recovery(
        &wrong,
        DriverOperation::Receive
    ));
    assert!(!simple_driver_error_requires_recovery(
        &wrong,
        DriverOperation::Transmit
    ));
    assert!(simple_driver_error_requires_recovery(
        &DriverError::<()>::UnexpectedEventForState {
            state: DriverState::Ready,
        },
        DriverOperation::Event
    ));
    assert!(!simple_driver_error_requires_recovery(
        &DriverError::<()>::ConfigurationMismatch,
        DriverOperation::Control
    ));
}

#[test]
fn expected_wpa2_commands_and_transmit_tokens_are_state_specific() {
    for state in [
        Wpa2RuntimeState::AwaitingPairwiseKeyStatus,
        Wpa2RuntimeState::AwaitingGroupKeyStatus,
        Wpa2RuntimeState::AwaitingGroupRekeyStatus,
    ] {
        assert_eq!(
            expected_security_command(state),
            Some(UmacCommand::NewKey.code())
        );
    }
    for state in [
        Wpa2RuntimeState::AwaitingDefaultGroupKeyStatus,
        Wpa2RuntimeState::AwaitingDefaultGroupRekeyStatus,
    ] {
        assert_eq!(
            expected_security_command(state),
            Some(UmacCommand::SetKey.code())
        );
    }
    assert_eq!(
        expected_security_command(Wpa2RuntimeState::AwaitingAuthorizationStatus),
        Some(UmacCommand::SetStation.code())
    );
    assert_eq!(
        expected_security_command(Wpa2RuntimeState::AwaitingAuthenticator),
        None
    );

    let status = ControlEvent::CommandStatus {
        header: umac_header(),
        command: UmacCommand::NewKey.code(),
        status: 0,
    };
    assert!(control_event_is_expected(
        Wpa2RuntimeState::AwaitingPairwiseKeyStatus,
        status
    ));
    assert!(!control_event_is_expected(
        Wpa2RuntimeState::AwaitingAuthorizationStatus,
        status
    ));
    assert!(!control_event_is_expected(
        Wpa2RuntimeState::AwaitingPairwiseKeyStatus,
        ControlEvent::InterfaceState {
            header: umac_header(),
            status: 0,
        }
    ));

    let done = TxDoneEventRef {
        token: 7,
        statuses: &[0],
    };
    assert!(transmit_done_is_expected(
        Wpa2RuntimeState::AwaitingEapolTransmit {
            token: 7,
            purpose: EapolTransmitPurpose::Message2,
        },
        done
    ));
    assert!(!transmit_done_is_expected(
        Wpa2RuntimeState::AwaitingEapolTransmit {
            token: 8,
            purpose: EapolTransmitPurpose::Message2,
        },
        done
    ));
}

#[test]
fn short_ethernet_frame_is_rejected() {
    assert!(matches!(
        ethernet_type::<()>(&[0; 13]),
        Err(ProductionError::InvalidEthernetFrame)
    ));
}

#[test]
fn ethernet_type_is_big_endian() {
    let mut frame = [0u8; 14];
    frame[12..14].copy_from_slice(&EAPOL_ETHERTYPE.to_be_bytes());
    assert_eq!(ethernet_type::<()>(&frame).unwrap(), EAPOL_ETHERTYPE);
}

#[test]
fn caller_buffer_error_does_not_require_hardware_recovery() {
    let error = DriverError::<()>::Data(DataError::OutputTooSmall {
        needed: 64,
        capacity: 32,
    });
    assert!(!receive_error_requires_recovery(&error));
}

#[test]
fn uncertain_queue_ownership_requires_recovery() {
    let error = DriverError::<()>::Data(DataError::QueueOwnershipUncertain(
        DeviceError::CommandDeliveryUncertain,
    ));
    assert!(driver_error_requires_recovery(
        &error,
        DriverOperation::Transmit
    ));
}

#[test]
fn malformed_firmware_data_requires_recovery() {
    let error = DriverError::<()>::DataProtocol(DataProtocolError::InvalidLength);
    assert!(driver_error_requires_recovery(
        &error,
        DriverOperation::Event
    ));
}

#[test]
fn invalid_state_is_not_a_hardware_recovery_reason() {
    let error = DriverError::<()>::InvalidState {
        current: DriverState::Cold,
        required: DriverState::Ready,
    };
    assert!(!driver_error_requires_recovery(
        &error,
        DriverOperation::Control
    ));
}

#[test]
fn station_fault_requires_recovery() {
    let error = StationError::<()>::Fault(StationFault::UnexpectedEvent);
    assert!(station_error_requires_recovery(&error));
}

#[test]
fn protocol_input_error_does_not_require_hardware_recovery() {
    let error = StationError::<()>::Protocol(ProtocolError::LimitExceeded);
    assert!(!station_error_requires_recovery(&error));
}

#[test]
fn security_events_are_routed_by_state() {
    let status = ControlEvent::CommandStatus {
        header: umac_header(),
        command: UmacCommand::SetKey.code(),
        status: 0,
    };
    assert_eq!(
        security_route(
            Wpa2RuntimeState::AwaitingDefaultGroupKeyStatus,
            DriverEvent::Control(status)
        ),
        SecurityRoute::ControlStatus
    );
    assert_eq!(
        security_route(
            Wpa2RuntimeState::AwaitingAuthenticator,
            DriverEvent::Control(status)
        ),
        SecurityRoute::Ignored
    );
    assert!(frame_is_eapol(&received(EAPOL_ETHERTYPE)));
    assert!(!frame_is_eapol(&received(0x0800)));
}

#[test]
fn recovery_closes_the_controlled_port() {
    let mut native = ready_native();
    prepare_connected_for_test(&mut native.station, [1, 2, 3, 4, 5, 6]);
    let mut driver = MissionCriticalDriver::from_native(native);
    assert!(driver.controlled_port_open());
    assert!(driver
        .finish_driver::<(), ()>(Err(DriverError::InvalidWatchdogStatus), DriverOperation::Watchdog)
        .is_err());
    assert!(!driver.controlled_port_open());
    assert!(!driver.frame_allowed(0x0800));
}

type SecureError = SecureProductionError<(), &'static str, ()>;

fn secure_driver(native: NativeDriver<NullBus, 1, 1>) -> Wpa2StationDriver<NullBus, Wpa2RuntimeState, 1, 1> {
    Wpa2StationDriver::new(
        MissionCriticalDriver::from_native(native),
        Wpa2RuntimeState::AwaitingAuthenticator,
    )
}

#[test]
fn secure_session_ignores_events_that_it_does_not_await() {
    let mut secure = secure_driver(ready_native());
    let phase = secure.security;
    assert_eq!(
        security_route(phase, DriverEvent::System(SystemEvent::InitDone)),
        SecurityRoute::Ignored
    );
    assert_eq!(
        security_route(
            phase,
            DriverEvent::Control(ControlEvent::InterfaceState {
                header: umac_header(),
                status: 0,
            })
        ),
        SecurityRoute::Ignored
    );
    assert_eq!(
        security_route(
            phase,
            DriverEvent::TransmitDone(TxDoneEventRef {
                token: 7,
                statuses: &[0],
            })
        ),
        SecurityRoute::Ignored
    );
    assert_eq!(
        security_route(
            phase,
            DriverEvent::Data(DataEvent::CarrierOn { wdev_id: 0 })
        ),
        SecurityRoute::Carrier
    );
    let polled: Result<_, SecureError> = secure.poll_event(64, 0);
    assert!(matches!(
        polled,
        Err(SecureProductionError::Production(ProductionError::Driver(
            DriverError::Device(DeviceError::NotInitialized)
        )))
    ));
    assert_eq!(secure.state(), DriverState::Recovering);
}

#[test]
fn secure_receive_hands_data_on_and_wipes_eapol() {
    let mut output = [9u8; 32];
    let data: Result<SecureReceive<u8>, SecureError> =
        finish_received_packet(received(0x0800), &mut output, None);
    assert_eq!(data.unwrap(), SecureReceive::Data(received(0x0800)));
    assert_eq!(output, [9; 32]);

    let refused: Result<SecureReceive<u8>, SecureError> = finish_received_packet(
        received(EAPOL_ETHERTYPE),
        &mut output,
        Some(Err("replayed")),
    );
    assert!(matches!(refused, Err(SecureProductionError::Wpa2("replayed"))));
    assert_eq!(&output[..14], &[0; 14]);
    assert_eq!(&output[14..], &[9; 18]);

    let mut accepted_output = [9u8; 32];
    let accepted: Result<SecureReceive<u8>, SecureError> = finish_received_packet(
        received(EAPOL_ETHERTYPE),
        &mut accepted_output,
        Some(Ok(3)),
    );
    assert!(matches!(accepted, Ok(SecureReceive::Eapol(3))));
    assert_eq!(&accepted_output[..14], &[0; 14]);
}

#[test]
fn secure_deadlines_of_the_station_expire_first() {
    let mut native = ready_native();
    prepare_security_for_test(&mut native.station, [2, 0, 0, 0, 0, 2]);
    let mut secure = secure_driver(native);
    assert!(matches!(
        secure.advance_time::<(), &'static str, ()>(1),
        Ok(())
    ));
    assert!(matches!(
        secure.advance_time::<(), &'static str, ()>(u32::MAX),
        Err(SecureProductionError::Production(ProductionError::Driver(
            DriverError::Station(StationError::Fault(_))
        )))
    ));
    assert_eq!(secure.driver().state(), DriverState::Recovering);
    assert!(!secure.into_driver().controlled_port_open());
}

#[test]
fn secure_transmission_stops_at_the_closed_port() {
    let mut secure = secure_driver(ready_native());
    let mut frame = [0u8; 14];
    frame[12..14].copy_from_slice(&0x0800u16.to_be_bytes());
    let refused: Result<_, SecureError> = secure.transmit(0, &frame, 0);
    assert!(matches!(
        refused,
        Err(SecureProductionError::Production(
            ProductionError::ControlledPortClosed { ether_type: 0x0800 }
        ))
    ));
}
