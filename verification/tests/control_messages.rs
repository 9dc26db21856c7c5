use nrf7002::codec::{read_i32, read_u16, read_u32, read_u64, Writer};
use nrf7002::control::{
    encode_associate, encode_authenticate, encode_interface_state, encode_key_command,
    encode_power_save, encode_power_save_timeout, encode_set_key, encode_set_regulatory,
    encode_station_authorized, finish_station_message, normalized_scan_signal,
    parse_control_event, parse_mlme, parse_scan_result, validated_station_message_len,
    write_station_headers, AssociationRequest, AssociationSecurity, AuthenticationRequest,
    AuthenticationType, BssContext, ControlEvent, KeyConfig, KeyType, MfpMode, PowerSaveState,
    ASSOC_MESSAGE_LEN, ASSOC_PREVIOUS_BSSID_VALID, AUTH_FREQUENCY_VALID, AUTH_KEY_INFO_VALID,
    AUTH_LOCAL_STATE_CHANGE, AUTH_MESSAGE_LEN, AUTH_SAE_VALID, AUTH_SSID_VALID,
    CONNECT_AKM_VALID, CONNECT_BG_SCAN_VALID, CONNECT_CONTROL_PORT_ETHERTYPE_VALID,
    CONNECT_CONTROL_PORT_NO_ENCRYPT_VALID, CONNECT_FREQUENCY_VALID, CONNECT_GROUP_VALID,
    CONNECT_MAC_VALID, CONNECT_MFP_VALID, CONNECT_PAIRWISE_VALID, CONNECT_PREVIOUS_BSSID_VALID,
    CONNECT_SECURITY_VALID, CONNECT_SSID_VALID, CONNECT_WPA_IE_VALID,
    CONNECT_WPA_VERSIONS_VALID, EAPOL_ETHERTYPE, EVENT_REGULATORY_CHANGE, KEY_CIPHER_VALID,
    KEY_DATA_VALID, KEY_INDEX_VALID, KEY_MAC_VALID, KEY_MESSAGE_LEN, KEY_SEQUENCE_VALID,
    KEY_TYPE_VALID, MAX_AKM_SUITES, MAX_IE_LEN, MAX_KEY_LEN, MAX_KEY_SEQUENCE_LEN,
    MAX_PAIRWISE_CIPHERS, MAX_SAE_LEN, MAX_STATION_MESSAGE_LEN, MLME_FIXED_BODY_LEN, RSN_AKM_PSK,
    RSN_CIPHER_CCMP_128, RSN_CIPHER_GCMP_128, SCAN_RESULT_FIXED_BODY_LEN,
    SET_STATION_FLAGS_VALID, STATION_FLAG_AUTHORIZED, WPA_VERSION_2,
};
use nrf7002::protocol::{
    encode_host_message, parse_host_message, HostMessageRef, HostMessageType, ProtocolError,
    UmacCommand, UmacEvent, UmacHeader, HOST_MESSAGE_HEADER_LEN, UMAC_HEADER_LEN, WDEV_VALID,
};

fn incomplete_station_message(out: &mut [u8]) -> Result<usize, ProtocolError> {
    let total = validated_station_message_len(out.len(), 1)?;
    let mut writer = Writer::new(out);
    write_station_headers(&mut writer, total, UmacCommand::SetPowerSave, Some(1))?;
    finish_station_message(writer, total)
}

fn event_payload(event: u32, body: &[u8]) -> Vec<u8> {
    let mut payload = vec![0; UMAC_HEADER_LEN];
    payload[8..12].copy_from_slice(&event.to_le_bytes());
    payload.extend_from_slice(body);
    payload
}

fn event_message(payload: &[u8]) -> HostMessageRef<'_> {
    HostMessageRef {
        resubmit: false,
        message_type: HostMessageType::Umac,
        payload,
    }
}

#[test]
fn auth_and_assoc_lengths_match_the_packed_abi() {
    let auth = AuthenticationRequest {
        frequency_mhz: 2412,
        bssid: [1, 2, 3, 4, 5, 6],
        ssid: b"test",
        auth_type: AuthenticationType::OpenSystem,
        local_state_change: false,
        information_elements: &[],
        sae_data: &[],
        key: None,
        bss: BssContext::default(),
    };
    let mut bytes = [0u8; MAX_STATION_MESSAGE_LEN];
    assert_eq!(
        encode_authenticate(&mut bytes, 1, &auth).unwrap(),
        AUTH_MESSAGE_LEN
    );
    assert_eq!(read_u32(&bytes, HOST_MESSAGE_HEADER_LEN + 16), WDEV_VALID);
    assert_eq!(read_i32(&bytes, HOST_MESSAGE_HEADER_LEN + 20), 0);
    assert_eq!(read_u64(&bytes, HOST_MESSAGE_HEADER_LEN + 28), 1);
    assert_eq!(
        read_u32(&bytes, HOST_MESSAGE_HEADER_LEN + UMAC_HEADER_LEN),
        AUTH_FREQUENCY_VALID | AUTH_SSID_VALID
    );

    let assoc = AssociationRequest {
        frequency_mhz: 2412,
        bssid: [1, 2, 3, 4, 5, 6],
        ssid: b"test",
        security: None,
        background_scan_period_s: 0,
        previous_bssid: None,
        bss_max_idle_s: 0,
    };
    assert_eq!(
        encode_associate(&mut bytes, 1, &assoc).unwrap(),
        ASSOC_MESSAGE_LEN
    );
}

#[test]
fn complete_authentication_body_is_exact() {
    let key = KeyConfig {
        cipher_suite: RSN_CIPHER_CCMP_128,
        key_type: KeyType::Pairwise,
        key_index: 2,
        key: &[0x55; 16],
        sequence: &[1, 2, 3],
        flags: 9,
    };
    let request = AuthenticationRequest {
        frequency_mhz: 2437,
        bssid: [1, 2, 3, 4, 5, 6],
        ssid: b"secure",
        auth_type: AuthenticationType::Sae,
        local_state_change: true,
        information_elements: &[0xdd, 1, 0xaa],
        sae_data: &[7, 8],
        key: Some(&key),
        bss: BssContext {
            scan_width: 2,
            signal_dbm: -55,
            from_beacon: true,
            information_elements: &[0x30, 0],
            capability: 0x1234,
            beacon_interval: 100,
            tsf: 0x0102_0304_0506_0708,
        },
    };
    let mut bytes = [0u8; MAX_STATION_MESSAGE_LEN];
    let len = encode_authenticate(&mut bytes, 5, &request).unwrap();
    assert_eq!(len, AUTH_MESSAGE_LEN);
    let body = &bytes[HOST_MESSAGE_HEADER_LEN + UMAC_HEADER_LEN..len];
    assert_eq!(
        read_u32(body, 0),
        AUTH_FREQUENCY_VALID | AUTH_SSID_VALID | AUTH_KEY_INFO_VALID | AUTH_SAE_VALID
    );
    assert_eq!(read_u32(body, 4), 2437);
    assert_eq!(read_u16(body, 8), AUTH_LOCAL_STATE_CHANGE);
    assert_eq!(read_i32(body, 10), AuthenticationType::Sae.code());
    assert_eq!(read_u32(body, 14), 0b1_1111);
    assert_eq!(read_u32(body, 18), RSN_CIPHER_CCMP_128);
    assert_eq!(read_u16(body, 22), 9);
    assert_eq!(body[548], 2);
    assert_eq!(body[549], 6);
    assert_eq!(&body[550..556], b"secure");
    assert_eq!(read_u16(body, 582), 3);
    assert_eq!(&body[584..587], &[0xdd, 1, 0xaa]);
    assert_eq!(read_i32(body, 984), 2);
    assert_eq!(&body[988..990], &[7, 8]);
    assert_eq!(&body[1244..1250], &[1, 2, 3, 4, 5, 6]);
    assert_eq!(read_i32(body, 1250), 2);
    assert_eq!(read_i32(body, 1254), -55);
    assert_eq!(read_i32(body, 1258), 1);
    assert_eq!(read_u16(body, 1664), 0x1234);
    assert_eq!(read_u16(body, 1666), 100);
    assert_eq!(read_u64(body, 1668), 0x0102_0304_0506_0708);
}

#[test]
fn authentication_rejects_each_fixed_capacity_limit() {
    let mut bytes = [0u8; MAX_STATION_MESSAGE_LEN];
    let oversized_ssid = [0; 33];
    let oversized_ie = [0; MAX_IE_LEN + 1];
    let oversized_sae = [0; MAX_SAE_LEN + 1];
    let oversized_key = [0; MAX_KEY_LEN + 1];
    let oversized_sequence = [0; MAX_KEY_SEQUENCE_LEN + 1];
    let invalid_keys = [
        KeyConfig::pairwise(RSN_CIPHER_CCMP_128, 0, &oversized_key),
        KeyConfig {
            cipher_suite: RSN_CIPHER_CCMP_128,
            key_type: KeyType::Pairwise,
            key_index: 0,
            key: &[0; 16],
            sequence: &oversized_sequence,
            flags: 0,
        },
        KeyConfig {
            cipher_suite: RSN_CIPHER_CCMP_128,
            key_type: KeyType::Pairwise,
            key_index: 4,
            key: &[0; 16],
            sequence: &[],
            flags: 0,
        },
    ];

    let base = |ssid, information_elements, sae_data, key, bss_information_elements| {
        AuthenticationRequest {
            frequency_mhz: 2412,
            bssid: [0; 6],
            ssid,
            auth_type: AuthenticationType::OpenSystem,
            local_state_change: false,
            information_elements,
            sae_data,
            key,
            bss: BssContext {
                information_elements: bss_information_elements,
                ..BssContext::default()
            },
        }
    };
    for request in [
        base(&oversized_ssid, &[], &[], None, &[]),
        base(b"ok", &oversized_ie, &[], None, &[]),
        base(b"ok", &[], &[], None, &oversized_ie),
        base(b"ok", &[], &oversized_sae, None, &[]),
    ] {
        assert_eq!(
            encode_authenticate(&mut bytes, 1, &request),
            Err(ProtocolError::LimitExceeded)
        );
    }
    for key in &invalid_keys {
        let request = base(b"ok", &[], &[], Some(key), &[]);
        assert_eq!(
            encode_authenticate(&mut bytes, 1, &request),
            Err(ProtocolError::LimitExceeded)
        );
    }
}

#[test]
fn secure_association_body_and_limits_are_exact() {
    let security = AssociationSecurity {
        pairwise_ciphers: &[RSN_CIPHER_CCMP_128, RSN_CIPHER_GCMP_128],
        group_cipher: RSN_CIPHER_CCMP_128,
        akm_suites: &[RSN_AKM_PSK],
        mfp: MfpMode::Required,
        rsn_information_element: &[0x30, 0],
    };
    let previous = [6, 5, 4, 3, 2, 1];
    let request = AssociationRequest {
        frequency_mhz: 2462,
        bssid: [1, 2, 3, 4, 5, 6],
        ssid: b"secure",
        security: Some(security),
        background_scan_period_s: 9,
        previous_bssid: Some(previous),
        bss_max_idle_s: 30,
    };
    let mut bytes = [0u8; MAX_STATION_MESSAGE_LEN];
    let len = encode_associate(&mut bytes, 7, &request).unwrap();
    assert_eq!(len, ASSOC_MESSAGE_LEN);
    let body = &bytes[HOST_MESSAGE_HEADER_LEN + UMAC_HEADER_LEN..len];
    assert_eq!(read_u32(body, 0), ASSOC_PREVIOUS_BSSID_VALID);
    assert_eq!(
        read_u32(body, 4),
        CONNECT_MAC_VALID
            | CONNECT_FREQUENCY_VALID
            | CONNECT_BG_SCAN_VALID
            | CONNECT_SSID_VALID
            | CONNECT_WPA_IE_VALID
            | CONNECT_WPA_VERSIONS_VALID
            | CONNECT_PAIRWISE_VALID
            | CONNECT_GROUP_VALID
            | CONNECT_AKM_VALID
            | CONNECT_MFP_VALID
            | CONNECT_CONTROL_PORT_ETHERTYPE_VALID
            | CONNECT_CONTROL_PORT_NO_ENCRYPT_VALID
            | CONNECT_PREVIOUS_BSSID_VALID
            | CONNECT_SECURITY_VALID
    );
    assert_eq!(read_u32(body, 8), 2462);
    assert_eq!(read_u32(body, 16), WPA_VERSION_2);
    assert_eq!(read_i32(body, 20), 2);
    assert_eq!(read_u32(body, 24), RSN_CIPHER_CCMP_128);
    assert_eq!(read_u32(body, 28), RSN_CIPHER_GCMP_128);
    assert_eq!(read_u32(body, 52), RSN_CIPHER_CCMP_128);
    assert_eq!(read_u32(body, 56), 1);
    assert_eq!(read_u32(body, 60), RSN_AKM_PSK);
    assert_eq!(read_i32(body, 68), MfpMode::Required.code());
    assert_eq!(read_u16(body, 76), 9);
    assert_eq!(&body[78..84], &[1, 2, 3, 4, 5, 6]);
    assert_eq!(body[90], 6);
    assert_eq!(&body[91..97], b"secure");
    assert_eq!(read_u16(body, 123), 2);
    assert_eq!(read_u16(body, 1555), EAPOL_ETHERTYPE);
    assert_eq!(&body[1559..1565], &previous);
    assert_eq!(read_u16(body, 1565), 30);
    assert_eq!(&body[1567..1573], &previous);

    let oversized_ie = [0; MAX_IE_LEN + 1];
    let too_many_pairwise = [0; MAX_PAIRWISE_CIPHERS + 1];
    let too_many_akm = [0; MAX_AKM_SUITES + 1];
    for security in [
        AssociationSecurity {
            pairwise_ciphers: &[],
            group_cipher: 0,
            akm_suites: &[1],
            mfp: MfpMode::Disabled,
            rsn_information_element: &[],
        },
        AssociationSecurity {
            pairwise_ciphers: &too_many_pairwise,
            group_cipher: 0,
            akm_suites: &[1],
            mfp: MfpMode::Disabled,
            rsn_information_element: &[],
        },
        AssociationSecurity {
            pairwise_ciphers: &[1],
            group_cipher: 0,
            akm_suites: &[],
            mfp: MfpMode::Disabled,
            rsn_information_element: &[],
        },
        AssociationSecurity {
            pairwise_ciphers: &[1],
            group_cipher: 0,
            akm_suites: &too_many_akm,
            mfp: MfpMode::Disabled,
            rsn_information_element: &[],
        },
        AssociationSecurity {
            pairwise_ciphers: &[1],
            group_cipher: 0,
            akm_suites: &[1],
            mfp: MfpMode::Disabled,
            rsn_information_element: &oversized_ie,
        },
    ] {
        let request = AssociationRequest {
            frequency_mhz: 2412,
            bssid: [0; 6],
            ssid: b"ok",
            security: Some(security),
            background_scan_period_s: 0,
            previous_bssid: None,
            bss_max_idle_s: 0,
        };
        assert_eq!(
            encode_associate(&mut bytes, 1, &request),
            Err(ProtocolError::LimitExceeded)
        );
    }
}

#[test]
fn key_length_matches_the_packed_abi() {
    let key = KeyConfig::pairwise(RSN_CIPHER_CCMP_128, 0, &[0x55; 16]);
    let mut bytes = [0u8; MAX_STATION_MESSAGE_LEN];
    assert_eq!(
        encode_key_command(
            &mut bytes,
            1,
            UmacCommand::NewKey,
            Some([1, 2, 3, 4, 5, 6]),
            &key,
        )
        .unwrap(),
        KEY_MESSAGE_LEN
    );
    let body = HOST_MESSAGE_HEADER_LEN + UMAC_HEADER_LEN;
    assert_eq!(read_u32(&bytes, body), KEY_MAC_VALID);
    assert_eq!(
        read_u32(&bytes, body + 4),
        KEY_DATA_VALID | KEY_TYPE_VALID | KEY_INDEX_VALID | KEY_CIPHER_VALID
    );

    let group = KeyConfig {
        cipher_suite: RSN_CIPHER_CCMP_128,
        key_type: KeyType::Group,
        key_index: 1,
        key: &[0x66; 16],
        sequence: &[0; 8],
        flags: 1 << 4,
    };
    encode_key_command(&mut bytes, 1, UmacCommand::NewKey, None, &group).unwrap();
    assert_eq!(read_u32(&bytes, body), 0);
    assert_eq!(
        read_u32(&bytes, body + 4),
        KEY_DATA_VALID
            | KEY_TYPE_VALID
            | KEY_INDEX_VALID
            | KEY_SEQUENCE_VALID
            | KEY_CIPHER_VALID
    );
    assert_eq!(
        u16::from_le_bytes([bytes[body + 12], bytes[body + 13]]),
        1 << 4
    );

    let default_group = KeyConfig {
        cipher_suite: 0,
        key_type: KeyType::Group,
        key_index: 1,
        key: &[],
        sequence: &[],
        flags: (1 << 0) | (1 << 4),
    };
    encode_set_key(&mut bytes, 1, &default_group).unwrap();
    assert_eq!(read_u32(&bytes, body), KEY_INDEX_VALID);
    assert_eq!(u16::from_le_bytes([bytes[body + 8], bytes[body + 9]]), 0x11);

    assert!(
        encode_key_command(&mut bytes, 1, UmacCommand::DeleteKey, None, &default_group).is_ok()
    );
    assert_eq!(
        encode_key_command(&mut bytes, 1, UmacCommand::SetKey, None, &default_group,),
        Err(ProtocolError::InvalidValue(UmacCommand::SetKey.code()))
    );
}

#[test]
fn command_status_is_parsed() {
    let mut payload = [0u8; UMAC_HEADER_LEN + 8];
    payload[8..12].copy_from_slice(&UmacEvent::CommandStatus.code().to_le_bytes());
    payload[UMAC_HEADER_LEN..UMAC_HEADER_LEN + 4]
        .copy_from_slice(&UmacCommand::Associate.code().to_le_bytes());
    payload[UMAC_HEADER_LEN + 4..].copy_from_slice(&7u32.to_le_bytes());
    let mut message = [0u8; HOST_MESSAGE_HEADER_LEN + UMAC_HEADER_LEN + 8];
    let len =
        encode_host_message(&mut message, HostMessageType::Umac, false, &payload).unwrap();
    let parsed = parse_host_message(&message[..len]).unwrap();
    assert!(matches!(
        parse_control_event(parsed).unwrap(),
        ControlEvent::CommandStatus {
            command: 3,
            status: 7,
            ..
        }
    ));
}

#[test]
fn every_control_event_variant_and_length_boundary_is_parsed() {
    let scan_done = event_payload(
        UmacEvent::ScanDone.code(),
        &[0xff, 0xff, 0xff, 0xff, 2, 0, 0, 0],
    );
    assert!(matches!(
        parse_control_event(event_message(&scan_done)),
        Ok(ControlEvent::ScanDone {
            status: -1,
            scan_type: 2,
            ..
        })
    ));
    let short_scan_done = event_payload(UmacEvent::ScanDone.code(), &[0; 7]);
    assert_eq!(
        parse_control_event(event_message(&short_scan_done)),
        Err(ProtocolError::InvalidLength)
    );

    let mut mlme = vec![0; MLME_FIXED_BODY_LEN + 2];
    mlme[0..4].copy_from_slice(&0x11u32.to_le_bytes());
    mlme[4..8].copy_from_slice(&2412u32.to_le_bytes());
    mlme[8..12].copy_from_slice(&(-42i32).to_le_bytes());
    mlme[12..16].copy_from_slice(&0x22u32.to_le_bytes());
    mlme[16..24].copy_from_slice(&0x0102_0304_0506_0708u64.to_le_bytes());
    mlme[24..28].copy_from_slice(&4i32.to_le_bytes());
    mlme[28..32].copy_from_slice(&[1, 2, 3, 4]);
    mlme[428..434].copy_from_slice(&[6, 5, 4, 3, 2, 1]);
    mlme[435..439].copy_from_slice(&2u32.to_le_bytes());
    mlme[439..441].copy_from_slice(&[0x30, 0]);
    for (event, expected) in [
        (UmacEvent::Authenticate, 0),
        (UmacEvent::Associate, 1),
        (UmacEvent::Deauthenticate, 2),
        (UmacEvent::Disassociate, 3),
    ] {
        let payload = event_payload(event.code(), &mlme);
        let parsed = parse_control_event(event_message(&payload)).unwrap();
        let value = match parsed {
            ControlEvent::Authentication(value) if expected == 0 => value,
            ControlEvent::Association(value) if expected == 1 => value,
            ControlEvent::Deauthentication(value) if expected == 2 => value,
            ControlEvent::Disassociation(value) if expected == 3 => value,
            other => panic!("unexpected MLME event: {other:?}"),
        };
        assert_eq!(value.frequency_mhz, 2412);
        assert_eq!(value.signal_dbm, -42);
        assert_eq!(value.frame, &[1, 2, 3, 4]);
        assert_eq!(value.bssid, [6, 5, 4, 3, 2, 1]);
        assert_eq!(value.request_information_elements, &[0x30, 0]);
    }

    let mut scan = vec![0; SCAN_RESULT_FIXED_BODY_LEN + 3];
    scan[0..4].copy_from_slice(&1u32.to_le_bytes());
    scan[8..12].copy_from_slice(&2437u32.to_le_bytes());
    scan[12..16].copy_from_slice(&2u32.to_le_bytes());
    scan[16..20].copy_from_slice(&9u32.to_le_bytes());
    scan[24..28].copy_from_slice(&(-3i32).to_le_bytes());
    scan[44..46].copy_from_slice(&100u16.to_le_bytes());
    scan[46..48].copy_from_slice(&0x1234u16.to_le_bytes());
    scan[48..52].copy_from_slice(&2u32.to_le_bytes());
    scan[52..56].copy_from_slice(&(-5500i32).to_le_bytes());
    scan[56..62].copy_from_slice(&[1, 2, 3, 4, 5, 6]);
    scan[62..66].copy_from_slice(&2u32.to_le_bytes());
    scan[66..70].copy_from_slice(&1u32.to_le_bytes());
    scan[70..73].copy_from_slice(&[0x30, 0, 0xdd]);
    let payload = event_payload(UmacEvent::ScanResult.code(), &scan);
    let ControlEvent::ScanResult(result) =
        parse_control_event(event_message(&payload)).unwrap()
    else {
        panic!("expected scan result")
    };
    assert_eq!(result.frequency_mhz, 2437);
    assert_eq!(result.signal, -55);
    assert_eq!(result.information_elements, &[0x30, 0]);
    assert_eq!(result.beacon_information_elements, &[0xdd]);
    assert_eq!(normalized_scan_signal(1, -44), -44);

    let interface = event_payload(
        UmacEvent::InterfaceFlagsStatus.code(),
        &(-7i32).to_le_bytes(),
    );
    assert!(matches!(
        parse_control_event(event_message(&interface)),
        Ok(ControlEvent::InterfaceState { status: -7, .. })
    ));
    let regulatory = event_payload(EVENT_REGULATORY_CHANGE, &[0, 0, 0, 0, 0, 0, 0, b'U', b'S']);
    assert!(matches!(
        parse_control_event(event_message(&regulatory)),
        Ok(ControlEvent::RegulatoryChange {
            country: [b'U', b'S'],
            ..
        })
    ));
    let other = event_payload(999, &[1, 2]);
    assert!(matches!(
        parse_control_event(event_message(&other)),
        Ok(ControlEvent::Other { body, .. }) if body == [1, 2]
    ));
    let connect = event_payload(UmacEvent::Connect.code(), &[3, 4]);
    assert!(matches!(
        parse_control_event(event_message(&connect)),
        Ok(ControlEvent::Other { body, .. }) if body == [3, 4]
    ));

    for (event, body) in [
        (UmacEvent::CommandStatus.code(), &[0; 7][..]),
        (UmacEvent::InterfaceFlagsStatus.code(), &[0; 3][..]),
        (EVENT_REGULATORY_CHANGE, &[0; 8][..]),
    ] {
        let payload = event_payload(event, body);
        assert_eq!(
            parse_control_event(event_message(&payload)),
            Err(ProtocolError::InvalidLength)
        );
    }
}

#[test]
fn mlme_and_scan_variable_lengths_are_fail_closed() {
    let header = UmacHeader {
        port_id: 0,
        sequence: 0,
        command_event: 0,
        result: 0,
        valid_ids: 0,
        ifaceindex: 0,
        wiphy_index: 0,
        wdev_id: 0,
    };
    assert_eq!(
        parse_mlme(header, &[0; MLME_FIXED_BODY_LEN - 1]),
        Err(ProtocolError::InvalidLength)
    );
    for frame_len in [-1i32, 401] {
        let mut body = [0; MLME_FIXED_BODY_LEN];
        body[24..28].copy_from_slice(&frame_len.to_le_bytes());
        assert_eq!(parse_mlme(header, &body), Err(ProtocolError::InvalidLength));
    }
    let mut missing_request_ie = [0; MLME_FIXED_BODY_LEN];
    missing_request_ie[435..439].copy_from_slice(&1u32.to_le_bytes());
    assert_eq!(
        parse_mlme(header, &missing_request_ie),
        Err(ProtocolError::InvalidLength)
    );

    assert_eq!(
        parse_scan_result(header, &[0; SCAN_RESULT_FIXED_BODY_LEN - 1]),
        Err(ProtocolError::InvalidLength)
    );
    let mut missing_ies = [0; SCAN_RESULT_FIXED_BODY_LEN];
    missing_ies[62..66].copy_from_slice(&1u32.to_le_bytes());
    assert_eq!(
        parse_scan_result(header, &missing_ies),
        Err(ProtocolError::InvalidLength)
    );
    let mut missing_beacon = [0; SCAN_RESULT_FIXED_BODY_LEN];
    missing_beacon[66..70].copy_from_slice(&1u32.to_le_bytes());
    assert_eq!(
        parse_scan_result(header, &missing_beacon),
        Err(ProtocolError::InvalidLength)
    );
}

#[test]
fn small_control_commands_and_station_authorization_are_exact() {
    let mut out = [0u8; MAX_STATION_MESSAGE_LEN];
    let body = HOST_MESSAGE_HEADER_LEN + UMAC_HEADER_LEN;
    encode_interface_state(&mut out, 3, true, -2).unwrap();
    assert_eq!(read_i32(&out, body), 1);
    assert_eq!(out[body + 4], (-2i8) as u8);
    encode_interface_state(&mut out, 3, false, 2).unwrap();
    assert_eq!(read_i32(&out, body), 0);

    encode_power_save(&mut out, 3, PowerSaveState::Enabled).unwrap();
    assert_eq!(read_i32(&out, body), 1);
    encode_power_save_timeout(&mut out, 3, -10).unwrap();
    assert_eq!(read_i32(&out, body), -10);

    let peer = [1, 2, 3, 4, 5, 6];
    encode_station_authorized(&mut out, 3, peer, true).unwrap();
    assert_eq!(read_u32(&out, body), SET_STATION_FLAGS_VALID);
    assert_eq!(read_u32(&out, body + 264), STATION_FLAG_AUTHORIZED);
    assert_eq!(read_u32(&out, body + 268), STATION_FLAG_AUTHORIZED);
    assert_eq!(&out[body + 784..body + 790], &peer);
    encode_station_authorized(&mut out, 3, peer, false).unwrap();
    assert_eq!(read_u32(&out, body + 268), 0);

    assert_eq!(
        validated_station_message_len(0, 0),
        Err(ProtocolError::BufferTooSmall)
    );
    assert_eq!(
        validated_station_message_len(usize::MAX, usize::MAX),
        Err(ProtocolError::InvalidLength)
    );
    assert_eq!(
        validated_station_message_len(usize::MAX, MAX_STATION_MESSAGE_LEN),
        Err(ProtocolError::BufferTooSmall)
    );
    assert_eq!(
        incomplete_station_message(&mut out),
        Err(ProtocolError::InvalidLength)
    );
}

#[test]
fn world_regulatory_domain_is_accepted() {
    let mut out = [0u8; 128];
    assert!(encode_set_regulatory(&mut out, 0, *b"00", 0, false).is_ok());
    assert_eq!(read_u32(&out, HOST_MESSAGE_HEADER_LEN + 16), 0);
    encode_set_regulatory(&mut out, 0, *b"US", 7, true).unwrap();
    let body = HOST_MESSAGE_HEADER_LEN + UMAC_HEADER_LEN;
    assert_eq!(read_u32(&out, body), 0b111);
    assert_eq!(read_u32(&out, body + 4), 7);
    assert_eq!(&out[body + 8..body + 10], b"US");
    assert!(matches!(
        encode_set_regulatory(&mut out, 0, *b"0A", 0, false),
        Err(ProtocolError::InvalidValue(_))
    ));
    assert!(matches!(
        encode_set_regulatory(&mut out, 0, *b"A0", 0, false),
        Err(ProtocolError::InvalidValue(_))
    ));
}
