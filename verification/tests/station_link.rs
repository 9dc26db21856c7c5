use nrf7002::control::{AssociationRequest, ControlEvent, KeyConfig, KeyType, MlmeEvent};
use nrf7002::data::DataEvent;
use nrf7002::device::{Device, DeviceError};
use nrf7002::protocol::{Hpq, HpqmInfo, ProtocolError, UmacCommand, UmacEvent, UmacHeader};
use nrf7002::station::{
    ID_IFACE_VALID, ID_WDEV_VALID, MLME_FRAME_VALID, MLME_TIMED_OUT, StationController,
    StationError, StationFault, StationState, StationTimeouts, mlme_status,
};

fn prepare_security_for_test(station: &mut StationController, peer: [u8; 6]) {
    station.interface_created = true;
    station.transition(StationState::Securing);
    station.last_fault = None;
    station.peer = Some(peer);
    station.secure_connection = true;
    station.controlled_port_authorized = false;
    station.carrier_on = false;
    station.pending_command = None;
    station.pending_return_state = None;
}

fn prepare_connected_for_test(station: &mut StationController, peer: [u8; 6]) {
    prepare_security_for_test(station, peer);
    station.controlled_port_authorized = true;
    station.carrier_on = true;
    station.transition(StationState::Connected);
}

fn header(command_event: u32) -> UmacHeader {
    UmacHeader {
        port_id: 0,
        sequence: 1,
        command_event,
        result: 0,
        valid_ids: ID_IFACE_VALID | ID_WDEV_VALID,
        ifaceindex: 1,
        wiphy_index: 0,
        wdev_id: 7,
    }
}

#[test]
fn interface_creation_requires_the_firmware_event() {
    let mut station = StationController::new(1, 0, 7);
    station.state = StationState::InterfaceCreatePending;
    station.pending_command = Some(UmacCommand::NewInterface);
    station
        .handle_control_event::<()>(ControlEvent::CommandStatus {
            header: header(UmacEvent::CommandStatus.code()),
            command: UmacCommand::NewInterface.code(),
            status: 0,
        })
        .unwrap();
    assert!(!station.interface_created());
    assert_eq!(station.state(), StationState::InterfaceCreatePending);
    station
        .handle_control_event::<()>(ControlEvent::Other {
            header: header(UmacEvent::NewInterface.code()),
            body: &[],
        })
        .unwrap();
    assert!(station.interface_created());
    assert_eq!(station.state(), StationState::Down);
}

#[test]
fn firmware_default_interface_is_claimed_without_a_command() {
    let mut station = StationController::new(1, 0, 0);
    assert!(station.claim_firmware_default_interface());
    assert!(station.interface_created());
    assert_eq!(station.state(), StationState::Down);
    assert_eq!(station.pending_command, None);

    let mut second_vif = StationController::new(2, 1, 1);
    assert!(!second_vif.claim_firmware_default_interface());
}

#[test]
fn secure_connection_needs_authorization_and_carrier() {
    let mut station = StationController::new(1, 0, 7);
    station.interface_created = true;
    station.state = StationState::Associating;
    station.peer = Some([1, 2, 3, 4, 5, 6]);
    station.secure_connection = true;
    let mut frame = [0u8; 30];
    frame[16..22].copy_from_slice(&[1, 2, 3, 4, 5, 6]);
    frame[26..28].copy_from_slice(&0u16.to_le_bytes());
    station
        .handle_control_event::<()>(ControlEvent::Association(MlmeEvent {
            header: header(UmacCommand::Associate.code()),
            valid_fields: MLME_FRAME_VALID,
            frequency_mhz: 2412,
            signal_dbm: -40,
            flags: 0,
            cookie: 0,
            bssid: [1, 2, 3, 4, 5, 6],
            frame: &frame,
            request_information_elements: &[],
        }))
        .unwrap();
    assert_eq!(station.state(), StationState::Securing);
    station
        .handle_data_event::<()>(DataEvent::CarrierOn { wdev_id: 7 })
        .unwrap();
    assert_eq!(station.state(), StationState::Securing);
    station.state = StationState::Authorizing;
    station.pending_command = Some(UmacCommand::SetStation);
    station
        .handle_control_event::<()>(ControlEvent::CommandStatus {
            header: header(UmacEvent::CommandStatus.code()),
            command: UmacCommand::SetStation.code(),
            status: 0,
        })
        .unwrap();
    assert_eq!(station.state(), StationState::Connected);
    assert!(station.controlled_port_open());
}

#[test]
fn authentication_peer_comes_from_the_management_frame() {
    let peer = [1, 2, 3, 4, 5, 6];
    let mut station = StationController::new(1, 0, 7);
    station.state = StationState::Authenticating;
    station.pending_command = Some(UmacCommand::Authenticate);
    station.peer = Some(peer);
    let mut frame = [0u8; 30];
    frame[10..16].copy_from_slice(&peer);
    frame[28..30].copy_from_slice(&0u16.to_le_bytes());

    station
        .handle_control_event::<()>(ControlEvent::Authentication(MlmeEvent {
            header: header(UmacEvent::Authenticate.code()),
            valid_fields: MLME_FRAME_VALID,
            frequency_mhz: 2412,
            signal_dbm: -40,
            flags: 0,
            cookie: 0,
            // Firmware does not promise this optional field on auth events.
            bssid: [0; 6],
            frame: &frame,
            request_information_elements: &[],
        }))
        .unwrap();

    assert_eq!(station.state(), StationState::Authenticated);
}

#[test]
fn command_failure_is_fail_closed() {
    let mut station = StationController::new(1, 0, 7);
    station.state = StationState::Authenticating;
    station.pending_command = Some(UmacCommand::Authenticate);
    assert!(
        station
            .handle_control_event::<()>(ControlEvent::CommandStatus {
                header: header(UmacEvent::CommandStatus.code()),
                command: UmacCommand::Authenticate.code(),
                status: 5,
            })
            .is_err()
    );
    assert_eq!(station.state(), StationState::Fault);
}

#[test]
fn pending_station_state_has_a_bounded_deadline() {
    let mut station = StationController::new(1, 0, 7);
    station.transition(StationState::Authenticating);
    assert_eq!(station.remaining_time_ms(), Some(5_000));
    assert_eq!(station.advance_time(4_999), Ok(()));
    assert_eq!(
        station.advance_time(1),
        Err(StationFault::Timeout(StationState::Authenticating))
    );
    assert_eq!(station.state(), StationState::Fault);
}

#[test]
fn association_allows_bounded_access_point_reconnect_delay() {
    let mut station = StationController::new(1, 0, 7);
    station.transition(StationState::Associating);
    assert_eq!(station.remaining_time_ms(), Some(20_000));
    assert_eq!(station.advance_time(19_999), Ok(()));
    assert_eq!(
        station.advance_time(1),
        Err(StationFault::Timeout(StationState::Associating))
    );
    assert_eq!(station.state(), StationState::Fault);
}

#[test]
fn event_for_another_interface_is_rejected() {
    let mut station = StationController::new(1, 0, 7);
    station.state = StationState::Authenticating;
    station.pending_command = Some(UmacCommand::Authenticate);
    let mut other = header(UmacEvent::CommandStatus.code());
    other.ifaceindex = 2;
    assert!(
        station
            .handle_control_event::<()>(ControlEvent::CommandStatus {
                header: other,
                command: UmacCommand::Authenticate.code(),
                status: 0,
            })
            .is_err()
    );
    assert_eq!(
        station.last_fault(),
        Some(StationFault::InterfaceMismatch {
            valid_ids: ID_IFACE_VALID | ID_WDEV_VALID,
            expected_ifaceindex: 1,
            actual_ifaceindex: 2,
            expected_wdev_id: 7,
            actual_wdev_id: 7,
        })
    );
}

#[test]
fn connected_secure_station_accepts_group_rekey_eapol() {
    let mut station = StationController::new(1, 0, 7);
    station.interface_created = true;
    station.peer = Some([1, 2, 3, 4, 5, 6]);
    station.secure_connection = true;
    station.controlled_port_authorized = true;
    station.carrier_on = true;
    station.transition(StationState::Connected);
    assert!(station.eapol_required());
}

#[test]
fn every_pending_state_has_its_exact_timeout() {
    let station = StationController::new(1, 0, 7);
    for (state, expected) in [
        (StationState::Down, None),
        (StationState::InterfaceCreatePending, Some(5_000)),
        (StationState::Idle, None),
        (StationState::RegulatoryPending, Some(5_000)),
        (StationState::InterfaceUpPending, Some(5_000)),
        (StationState::Scanning, Some(30_000)),
        (StationState::ScanComplete, Some(10_000)),
        (StationState::ReadingScanResults, Some(10_000)),
        (StationState::Authenticating, Some(5_000)),
        (StationState::Authenticated, Some(10_000)),
        (StationState::Associating, Some(20_000)),
        (StationState::Securing, Some(10_000)),
        (StationState::Authorizing, Some(5_000)),
        (StationState::AwaitingCarrier, Some(5_000)),
        (StationState::Connected, None),
        (StationState::PowerSavePending, Some(5_000)),
        (StationState::Disconnecting, Some(5_000)),
        (StationState::InterfaceDownPending, Some(5_000)),
        (StationState::Recovering, None),
        (StationState::Fault, None),
    ] {
        assert_eq!(station.timeout_for(state), expected);
    }

    let mut zero = StationTimeouts::default();
    zero.scan_ms = 0;
    let mut station = station;
    station.set_timeouts(zero);
    assert_eq!(station.timeout_for(StationState::Scanning), Some(1));
}

#[test]
fn group_rekey_restores_only_an_authorized_secure_link() {
    let peer = [1, 2, 3, 4, 5, 6];
    let mut connected = StationController::new(1, 0, 7);
    prepare_connected_for_test(&mut connected, peer);
    connected.transition(StationState::Securing);
    assert_eq!(connected.complete_group_rekey(), StationState::Connected);

    let mut waiting = StationController::new(1, 0, 7);
    prepare_connected_for_test(&mut waiting, peer);
    waiting.carrier_on = false;
    waiting.transition(StationState::Securing);
    assert_eq!(
        waiting.complete_group_rekey(),
        StationState::AwaitingCarrier
    );

    let mut rejected = StationController::new(1, 0, 7);
    prepare_security_for_test(&mut rejected, peer);
    assert_eq!(rejected.complete_group_rekey(), StationState::Fault);
    assert_eq!(rejected.last_fault(), Some(StationFault::UnexpectedEvent));
}

#[test]
fn interface_state_events_cover_up_down_rejection_and_wrong_state() {
    let mut up = StationController::new(1, 0, 7);
    up.state = StationState::InterfaceUpPending;
    up.pending_command = Some(UmacCommand::SetInterfaceFlags);
    up.handle_interface_state::<()>(0).unwrap();
    assert_eq!(up.state(), StationState::Idle);
    assert_eq!(up.pending_command, None);

    let mut down = StationController::new(1, 0, 7);
    prepare_connected_for_test(&mut down, [1; 6]);
    down.state = StationState::InterfaceDownPending;
    down.handle_interface_state::<()>(0).unwrap();
    assert_eq!(down.state(), StationState::Down);
    assert_eq!(down.peer(), None);
    assert!(down.interface_created());

    let mut rejected = StationController::new(1, 0, 7);
    rejected.state = StationState::InterfaceUpPending;
    assert!(matches!(
        rejected.handle_interface_state::<()>(-2),
        Err(StationError::Fault(StationFault::CommandRejected {
            command,
            status: 0xffff_fffe,
        })) if command == UmacCommand::SetInterfaceFlags.code()
    ));

    let mut wrong = StationController::new(1, 0, 7);
    assert!(matches!(
        wrong.handle_interface_state::<()>(0),
        Err(StationError::Fault(StationFault::UnexpectedEvent))
    ));

    let mut routed = StationController::new(1, 0, 7);
    routed.state = StationState::InterfaceUpPending;
    routed
        .handle_status_control_event::<()>(ControlEvent::InterfaceState {
            header: header(UmacEvent::InterfaceFlagsStatus.code()),
            status: 0,
        })
        .unwrap();
    assert_eq!(routed.state(), StationState::Idle);

    routed.state = StationState::RegulatoryPending;
    routed.pending_return_state = Some(StationState::Idle);
    routed
        .handle_status_control_event::<()>(ControlEvent::RegulatoryChange {
            header: header(289),
            country: *b"US",
        })
        .unwrap();
    assert_eq!(routed.state(), StationState::Idle);

    assert!(
        routed
            .handle_status_control_event::<()>(ControlEvent::ScanDone {
                header: header(UmacEvent::ScanDone.code()),
                status: 0,
                scan_type: 0,
            })
            .is_err()
    );
}

#[test]
fn scan_handlers_cover_completion_rejection_streaming_and_routing() {
    let mut station = StationController::new(1, 0, 7);
    station.state = StationState::Scanning;
    station.pending_command = Some(UmacCommand::TriggerScan);
    station.handle_scan_done::<()>(0).unwrap();
    assert_eq!(station.state(), StationState::ScanComplete);

    let mut rejected = StationController::new(1, 0, 7);
    rejected.state = StationState::Scanning;
    assert!(matches!(
        rejected.handle_scan_done::<()>(5),
        Err(StationError::Fault(StationFault::CommandRejected {
            status: 5,
            ..
        }))
    ));

    let mut wrong = StationController::new(1, 0, 7);
    assert!(matches!(
        wrong.handle_scan_done::<()>(0),
        Err(StationError::Fault(StationFault::UnexpectedEvent))
    ));

    let mut results = StationController::new(1, 0, 7);
    results.state = StationState::ReadingScanResults;
    results.pending_command = Some(UmacCommand::GetScanResults);
    results.handle_scan_result::<()>(1).unwrap();
    assert_eq!(results.state(), StationState::ReadingScanResults);
    results.handle_scan_result::<()>(0).unwrap();
    assert_eq!(results.state(), StationState::Idle);
    assert_eq!(results.pending_command, None);

    let mut routed = StationController::new(1, 0, 7);
    routed.state = StationState::Scanning;
    routed
        .handle_scan_control_event::<()>(ControlEvent::ScanDone {
            header: header(UmacEvent::ScanDone.code()),
            status: 0,
            scan_type: 0,
        })
        .unwrap();
    let mut invalid = StationController::new(1, 0, 7);
    assert!(
        invalid
            .handle_scan_control_event::<()>(ControlEvent::Other {
                header: header(0),
                body: &[],
            })
            .is_err()
    );
}

#[test]
fn disconnect_events_are_idempotent_and_validate_the_peer_frame() {
    let empty = MlmeEvent {
        header: header(UmacEvent::Deauthenticate.code()),
        valid_fields: 0,
        frequency_mhz: 0,
        signal_dbm: 0,
        flags: 0,
        cookie: 0,
        bssid: [0; 6],
        frame: &[],
        request_information_elements: &[],
    };
    let mut station = StationController::new(1, 0, 7);
    station.handle_disconnect_event::<()>(empty).unwrap();

    let peer = [1, 2, 3, 4, 5, 6];
    let mut frame = [0u8; 16];
    frame[10..16].copy_from_slice(&peer);
    let event = MlmeEvent {
        valid_fields: MLME_FRAME_VALID,
        frame: &frame,
        ..empty
    };
    prepare_connected_for_test(&mut station, peer);
    station.handle_disconnect_event::<()>(event).unwrap();
    assert_eq!(station.state(), StationState::Idle);
    assert_eq!(station.peer(), None);

    prepare_connected_for_test(&mut station, peer);
    assert!(station.handle_disconnect_event::<()>(empty).is_err());
    assert_eq!(station.state(), StationState::Fault);
}

#[test]
fn interface_creation_events_reject_errors_and_allow_one_duplicate() {
    let mut rejected = StationController::new(1, 0, 7);
    let mut failed = header(UmacEvent::NewInterface.code());
    failed.result = -3;
    assert!(matches!(
        rejected.handle_interface_created::<()>(failed),
        Err(StationError::Fault(StationFault::CommandRejected {
            status: 0xffff_fffd,
            ..
        }))
    ));

    let mut duplicate = StationController::new(1, 0, 7);
    duplicate.interface_created = true;
    assert!(
        duplicate
            .handle_interface_created::<()>(header(UmacEvent::NewInterface.code()))
            .is_ok()
    );

    let mut unexpected = StationController::new(1, 0, 7);
    assert!(matches!(
        unexpected.handle_interface_created::<()>(header(UmacEvent::NewInterface.code())),
        Err(StationError::Fault(StationFault::UnexpectedEvent))
    ));
}

#[test]
fn successful_command_statuses_apply_only_the_matching_transition() {
    for command in [
        UmacCommand::NewKey,
        UmacCommand::DeleteKey,
        UmacCommand::SetKey,
    ] {
        let mut station = StationController::new(1, 0, 7);
        station.state = StationState::Connected;
        station.apply_successful_command(command.code());
        assert_eq!(station.state(), StationState::Securing);
    }

    let mut authorized = StationController::new(1, 0, 7);
    authorized.state = StationState::Authorizing;
    authorized.carrier_on = true;
    authorized.apply_successful_command(UmacCommand::SetStation.code());
    assert!(authorized.controlled_port_authorized);
    assert_eq!(authorized.state(), StationState::Connected);

    for command in [UmacCommand::SetPowerSave, UmacCommand::SetPowerSaveTimeout] {
        let mut station = StationController::new(1, 0, 7);
        station.state = StationState::PowerSavePending;
        station.pending_return_state = Some(StationState::Connected);
        station.apply_successful_command(command.code());
        assert_eq!(station.state(), StationState::Connected);
        assert_eq!(station.pending_return_state, None);
    }

    let mut unchanged = StationController::new(1, 0, 7);
    unchanged.apply_successful_command(UmacCommand::GetWiphy.code());
    assert_eq!(unchanged.state(), StationState::Down);
}

#[test]
fn carrier_off_is_safe_before_connection_and_fails_closed_after_connection() {
    let mut idle = StationController::new(1, 0, 7);
    idle.state = StationState::Idle;
    idle.carrier_on = true;
    idle.handle_carrier_off::<()>(7).unwrap();
    assert!(!idle.carrier_on);
    assert_eq!(idle.state(), StationState::Idle);

    let mut connected = StationController::new(1, 0, 7);
    prepare_connected_for_test(&mut connected, [1; 6]);
    assert!(matches!(
        connected.handle_carrier_off::<()>(7),
        Err(StationError::Fault(StationFault::CarrierLost))
    ));
    assert_eq!(connected.state(), StationState::Fault);
    assert!(!connected.controlled_port_open());
}

#[test]
fn key_commands_distinguish_group_and_peer_requirements_before_io() {
    let group = KeyConfig {
        cipher_suite: 0x000f_ac04,
        key_type: KeyType::Group,
        key_index: 1,
        key: &[0x11; 16],
        sequence: &[],
        flags: 0,
    };
    let pairwise = KeyConfig {
        key_type: KeyType::Pairwise,
        ..group
    };

    let mut station = StationController::new(1, 0, 7);
    station.state = StationState::Securing;
    let device = Device::new(());
    assert!(matches!(
        station.key_command::<(), ()>(&device, UmacCommand::NewKey, &group),
        Err(StationError::Device(DeviceError::NotInitialized))
    ));

    let mut station = StationController::new(1, 0, 7);
    station.state = StationState::Securing;
    assert!(matches!(
        station.key_command::<(), ()>(&device, UmacCommand::NewKey, &pairwise),
        Err(StationError::Fault(StationFault::PeerMismatch))
    ));
    station.peer = Some([1; 6]);
    assert!(matches!(
        station.key_command::<(), ()>(&device, UmacCommand::NewKey, &pairwise),
        Err(StationError::Device(DeviceError::NotInitialized))
    ));
}

#[test]
fn new_station_starts_fail_closed_and_link_predicates_require_every_input() {
    let mut station = StationController::new(1, 0, 7);
    assert_eq!(station.state(), StationState::Down);
    assert!(!station.interface_created());
    assert_eq!(station.peer(), None);
    assert!(!station.secure_connection);
    assert!(!station.controlled_port_authorized);
    assert!(!station.carrier_on);
    assert!(!station.controlled_port_open());
    assert!(!station.eapol_required());

    station.state = StationState::Connected;
    station.controlled_port_authorized = true;
    station.carrier_on = true;
    assert!(station.controlled_port_open());
    station.controlled_port_authorized = false;
    assert!(!station.controlled_port_open());
    station.controlled_port_authorized = true;
    station.carrier_on = false;
    assert!(!station.controlled_port_open());
    station.carrier_on = true;
    station.state = StationState::AwaitingCarrier;
    assert!(!station.controlled_port_open());

    station.secure_connection = false;
    station.state = StationState::Securing;
    assert!(!station.eapol_required());
    station.secure_connection = true;
    for state in [
        StationState::Securing,
        StationState::Authorizing,
        StationState::AwaitingCarrier,
        StationState::Connected,
    ] {
        station.state = state;
        assert!(station.eapol_required());
    }
    station.state = StationState::Idle;
    assert!(!station.eapol_required());
}

#[test]
fn recovery_clears_every_firmware_owned_link_flag() {
    let peer = [1, 2, 3, 4, 5, 6];
    let mut station = StationController::new(1, 0, 7);
    station.interface_created = true;
    prepare_connected_for_test(&mut station, peer);
    station.pending_command = Some(UmacCommand::SetPowerSave);
    station.pending_return_state = Some(StationState::Connected);
    station.begin_recovery();
    assert_eq!(station.state(), StationState::Recovering);
    assert!(!station.interface_created);
    assert_eq!(station.peer, None);
    assert!(!station.secure_connection);
    assert!(!station.controlled_port_authorized);
    assert!(!station.carrier_on);
    assert_eq!(station.pending_command, None);
    assert_eq!(station.pending_return_state, None);

    station.interface_created = true;
    prepare_connected_for_test(&mut station, peer);
    station.last_fault = Some(StationFault::CarrierLost);
    station.recovery_complete();
    assert_eq!(station.state(), StationState::Down);
    assert!(!station.interface_created);
    assert_eq!(station.peer, None);
    assert!(!station.secure_connection);
    assert!(!station.controlled_port_authorized);
    assert!(!station.carrier_on);
    assert_eq!(station.last_fault(), None);
}

#[test]
fn association_rejects_a_request_for_any_peer_other_than_authenticated_peer() {
    let authenticated_peer = [1, 2, 3, 4, 5, 6];
    let request = AssociationRequest {
        frequency_mhz: 2412,
        bssid: [6, 5, 4, 3, 2, 1],
        ssid: b"test",
        security: None,
        background_scan_period_s: 0,
        previous_bssid: None,
        bss_max_idle_s: 0,
    };
    let mut station = StationController::new(1, 0, 7);
    station.state = StationState::Authenticated;
    station.peer = Some(authenticated_peer);
    let device = Device::new(());
    assert!(matches!(
        station.associate::<(), ()>(&device, &request),
        Err(StationError::Fault(StationFault::PeerMismatch))
    ));
}

#[test]
fn power_save_timeout_rejects_negative_values_but_encodes_zero() {
    let mut station = StationController::new(1, 0, 7);
    station.state = StationState::Idle;
    let device = Device::new(());
    assert!(matches!(
        station.set_power_save_timeout::<(), ()>(&device, -1),
        Err(StationError::Protocol(ProtocolError::InvalidValue(value))) if value == u32::MAX
    ));

    let mut station = StationController::new(1, 0, 7);
    station.state = StationState::Idle;
    assert!(matches!(
        station.set_power_save_timeout::<(), ()>(&device, 0),
        Err(StationError::Device(DeviceError::NotInitialized))
    ));
}

#[test]
fn interface_creation_and_default_status_require_the_complete_predicate() {
    let new_interface = UmacCommand::NewInterface.code();

    let mut wrong_state = StationController::new(1, 0, 7);
    wrong_state.pending_command = Some(UmacCommand::NewInterface);
    assert!(matches!(
        wrong_state.handle_interface_created::<()>(header(UmacEvent::NewInterface.code())),
        Err(StationError::Fault(StationFault::UnexpectedEvent))
    ));

    let mut no_command = StationController::new(1, 0, 7);
    no_command.state = StationState::InterfaceCreatePending;
    assert!(matches!(
        no_command.handle_interface_created::<()>(header(UmacEvent::NewInterface.code())),
        Err(StationError::Fault(StationFault::UnexpectedEvent))
    ));

    for (command, created, pending, expected) in [
        (new_interface, true, None, true),
        (UmacCommand::GetWiphy.code(), true, None, false),
        (new_interface, false, None, false),
        (new_interface, true, Some(UmacCommand::SetPowerSave), false),
    ] {
        let mut station = StationController::new(1, 0, 7);
        station.interface_created = created;
        station.pending_command = pending;
        assert_eq!(station.is_default_interface_status(command), expected);
    }

    let mut default = StationController::new(1, 0, 7);
    default.interface_created = true;
    assert!(
        default
            .handle_command_status::<()>(new_interface, 0)
            .is_ok()
    );
    assert!(matches!(
        default.handle_command_status::<()>(new_interface, 9),
        Err(StationError::Fault(StationFault::CommandRejected {
            command,
            status: 9,
        })) if command == new_interface
    ));
}

#[test]
fn successful_status_transition_requires_both_command_and_state() {
    let mut wrong_authorize_state = StationController::new(1, 0, 7);
    wrong_authorize_state.state = StationState::Securing;
    wrong_authorize_state.apply_successful_command(UmacCommand::SetStation.code());
    assert_eq!(wrong_authorize_state.state(), StationState::Securing);
    assert!(!wrong_authorize_state.controlled_port_authorized);

    let mut wrong_power_state = StationController::new(1, 0, 7);
    wrong_power_state.state = StationState::Connected;
    wrong_power_state.pending_return_state = Some(StationState::Idle);
    wrong_power_state.apply_successful_command(UmacCommand::SetPowerSave.code());
    assert_eq!(wrong_power_state.state(), StationState::Connected);
    assert_eq!(
        wrong_power_state.pending_return_state,
        Some(StationState::Idle)
    );

    let mut wrong_power_command = StationController::new(1, 0, 7);
    wrong_power_command.state = StationState::PowerSavePending;
    wrong_power_command.pending_return_state = Some(StationState::Idle);
    wrong_power_command.apply_successful_command(UmacCommand::SetStation.code());
    assert_eq!(wrong_power_command.state(), StationState::PowerSavePending);
    assert_eq!(
        wrong_power_command.pending_return_state,
        Some(StationState::Idle)
    );
}

#[test]
fn header_identifiers_are_checked_only_when_valid_and_match_exactly() {
    let mut station = StationController::new(1, 0, 7);
    let mut event_header = header(0);
    event_header.valid_ids = 0;
    event_header.ifaceindex = 99;
    event_header.wdev_id = 99;
    assert!(station.check_header::<()>(event_header).is_ok());

    event_header.valid_ids = ID_IFACE_VALID | ID_WDEV_VALID;
    event_header.ifaceindex = 1;
    event_header.wdev_id = 7;
    assert!(station.check_header::<()>(event_header).is_ok());

    event_header.valid_ids = ID_IFACE_VALID;
    event_header.wdev_id = 99;
    assert!(station.check_header::<()>(event_header).is_ok());

    event_header.valid_ids = ID_WDEV_VALID;
    assert!(matches!(
        station.check_header::<()>(event_header),
        Err(StationError::Fault(StationFault::InterfaceMismatch {
            expected_wdev_id: 7,
            actual_wdev_id: 99,
            ..
        }))
    ));
}

#[test]
fn mlme_status_honors_timeout_header_validity_and_exact_frame_offsets() {
    let base = MlmeEvent {
        header: header(0),
        valid_fields: 0,
        frequency_mhz: 0,
        signal_dbm: 0,
        flags: 0,
        cookie: 0,
        bssid: [0; 6],
        frame: &[],
        request_information_elements: &[],
    };

    let timed_out = MlmeEvent {
        flags: MLME_TIMED_OUT,
        ..base
    };
    assert!(matches!(
        mlme_status::<()>(&timed_out, 4),
        Err(StationError::Fault(StationFault::MlmeTimeout))
    ));

    let mut rejected_header = header(0);
    rejected_header.result = -3;
    let rejected = MlmeEvent {
        header: rejected_header,
        ..base
    };
    assert_eq!(mlme_status::<()>(&rejected, 4).unwrap(), 0xfffd);

    let ignored_frame = [0, 0, 0, 0, 0x34, 0x12];
    let no_valid_frame = MlmeEvent {
        frame: &ignored_frame,
        ..base
    };
    assert_eq!(mlme_status::<()>(&no_valid_frame, 4).unwrap(), 0);

    let exact_frame = MlmeEvent {
        valid_fields: MLME_FRAME_VALID,
        frame: &ignored_frame,
        ..base
    };
    assert_eq!(mlme_status::<()>(&exact_frame, 4).unwrap(), 0x1234);

    let short_frame = MlmeEvent {
        valid_fields: MLME_FRAME_VALID,
        frame: &ignored_frame[..5],
        ..base
    };
    assert!(matches!(
        mlme_status::<()>(&short_frame, 4),
        Err(StationError::Fault(StationFault::UnexpectedEvent))
    ));
}

#[test]
fn a_fault_closes_the_controlled_port() {
    let mut station = StationController::new(1, 0, 7);
    prepare_connected_for_test(&mut station, [1; 6]);
    assert!(station.controlled_port_open());
    assert!(station.handle_carrier_off::<()>(7).is_err());
    assert_eq!(station.state(), StationState::Fault);
    assert!(!station.controlled_port_open());
}

#[test]
fn a_frame_of_another_peer_does_not_advance_the_link() {
    let mut station = StationController::new(1, 0, 7);
    station.state = StationState::Authenticating;
    station.pending_command = Some(UmacCommand::Authenticate);
    station.peer = Some([1, 2, 3, 4, 5, 6]);
    let mut frame = [0u8; 30];
    frame[10..16].copy_from_slice(&[9; 6]);
    let event = MlmeEvent {
        header: header(UmacEvent::Authenticate.code()),
        valid_fields: MLME_FRAME_VALID,
        frequency_mhz: 2412,
        signal_dbm: -40,
        flags: 0,
        cookie: 0,
        bssid: [0; 6],
        frame: &frame,
        request_information_elements: &[],
    };
    assert!(matches!(
        station.handle_control_event::<()>(ControlEvent::Authentication(event)),
        Err(StationError::Fault(StationFault::PeerMismatch))
    ));
    assert_eq!(station.state(), StationState::Fault);
}

#[test]
fn a_delivered_command_commits_its_pending_state() {
    let mut device = Device::new(());
    let queue = Hpq {
        enqueue_address: 0xa400_6004,
        dequeue_address: 0xa400_6000,
    };
    device.queues = Some(HpqmInfo {
        event_busy: queue,
        event_available: queue,
        command_busy: queue,
        command_available: queue,
        rx_buffer_busy: [queue; 3],
    });
    let mut station = StationController::new(1, 0, 7);
    assert!(station.claim_firmware_default_interface() == false);
    station.interface_created = true;
    let submission = station.bring_up::<(), ()>(&device).unwrap();
    assert_eq!(station.state(), StationState::Down);
    station.delivered(submission.commit);
    assert_eq!(station.state(), StationState::InterfaceUpPending);
    assert_eq!(station.pending_command, Some(UmacCommand::SetInterfaceFlags));
    assert_eq!(station.remaining_time_ms(), Some(5_000));
}

fn authentication_response(flags: u32, frame: &[u8]) -> ControlEvent<'_> {
    ControlEvent::Authentication(MlmeEvent {
        header: header(UmacEvent::Authenticate.code()),
        valid_fields: MLME_FRAME_VALID,
        frequency_mhz: 2412,
        signal_dbm: -40,
        flags,
        cookie: 0,
        bssid: [1, 2, 3, 4, 5, 6],
        frame,
        request_information_elements: &[],
    })
}

#[test]
fn unanswered_and_truncated_exchanges_end_in_a_recorded_fault() {
    let peer = [1, 2, 3, 4, 5, 6];
    let mut frame = [0u8; 30];
    frame[10..16].copy_from_slice(&peer);
    for (event, fault) in [
        (
            authentication_response(MLME_TIMED_OUT, &frame),
            StationFault::MlmeTimeout,
        ),
        (
            authentication_response(0, &frame[..29]),
            StationFault::UnexpectedEvent,
        ),
    ] {
        let mut station = StationController::new(1, 0, 7);
        station.peer = Some(peer);
        station.transition(StationState::Authenticating);
        station.pending_command = Some(UmacCommand::Authenticate);
        assert!(matches!(
            station.handle_control_event::<()>(event),
            Err(StationError::Fault(reported)) if reported == fault
        ));
        assert_eq!(station.state(), StationState::Fault);
        assert_eq!(station.last_fault(), Some(fault));
        assert_eq!(station.remaining_time_ms(), None);
        assert_eq!(station.pending_command, None);
    }
}

#[test]
fn carrier_never_ends_a_fault() {
    let mut station = StationController::new(1, 0, 7);
    prepare_connected_for_test(&mut station, [1, 2, 3, 4, 5, 6]);
    assert!(station.controlled_port_open());
    assert!(station
        .handle_data_event::<()>(DataEvent::CarrierOn { wdev_id: 8 })
        .is_err());
    assert_eq!(station.state(), StationState::Fault);
    assert!(station
        .handle_data_event::<()>(DataEvent::CarrierOn { wdev_id: 7 })
        .is_ok());
    assert_eq!(station.state(), StationState::Fault);
    assert!(!station.controlled_port_open());
    assert!(!station.controlled_port_authorized);
    assert_eq!(station.complete_group_rekey(), StationState::Fault);
}

#[test]
fn a_refused_command_leaves_the_station_as_it_is() {
    let mut station = StationController::new(1, 0, 7);
    station.transition(StationState::Securing);
    let device = Device::new(());
    assert!(matches!(
        station.authorize::<(), ()>(&device),
        Err(StationError::Fault(StationFault::PeerMismatch))
    ));
    assert_eq!(station.state(), StationState::Securing);
    assert_eq!(station.last_fault(), None);
}
