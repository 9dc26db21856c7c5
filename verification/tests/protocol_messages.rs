use nrf7002::codec::{read_i32, read_u32, read_u64};
use nrf7002::protocol::{
    encode_deauthenticate, encode_host_message, encode_new_interface, encode_scan,
    encode_system_init, encode_umac_command, parse_host_message, validated_host_message_len,
    DataConfig, DataHeader, HostMessageType, Hpq, HpqmInfo, InterfaceIds, InterfaceType,
    ProtocolError, RxPoolConfig, ScanReason, ScanRequest, SystemInitConfig,
    TemperatureBatteryConfig, UmacCommand, UmacHeader, HOST_MESSAGE_HEADER_LEN, HPQM_INFO_LEN,
    MAX_CONTROL_MESSAGE_LEN, MAX_SCAN_BODY_LEN, MAX_SCAN_FREQUENCIES, MAX_SCAN_IE_LEN,
    MAX_SSID_LEN, MAX_UMAC_INNER_LEN, RF_PARAMS_LEN, SYSTEM_INIT_LEN, UMAC_HEADER_LEN,
};

#[test]
fn host_message_round_trip_and_length_boundaries() {
    let mut bytes = [0u8; 32];
    let len =
        encode_host_message(&mut bytes, HostMessageType::Umac, true, &[1, 2, 3, 4]).unwrap();
    assert_eq!(len, 16);
    let parsed = parse_host_message(&bytes[..len]).unwrap();
    assert_eq!(parsed.message_type, HostMessageType::Umac);
    assert!(parsed.resubmit);
    assert_eq!(parsed.payload, &[1, 2, 3, 4]);

    for message_type in [
        HostMessageType::System,
        HostMessageType::Supplicant,
        HostMessageType::Data,
        HostMessageType::Umac,
    ] {
        let len = encode_host_message(&mut bytes, message_type, false, &[]).unwrap();
        let parsed = parse_host_message(&bytes[..len]).unwrap();
        assert_eq!(parsed.message_type, message_type);
        assert!(!parsed.resubmit);
    }

    assert_eq!(
        validated_host_message_len(HOST_MESSAGE_HEADER_LEN - 1, 0),
        Err(ProtocolError::BufferTooSmall)
    );
    assert_eq!(
        validated_host_message_len(usize::MAX, usize::MAX),
        Err(ProtocolError::InvalidLength)
    );
    if usize::BITS > u32::BITS {
        assert_eq!(
            validated_host_message_len(usize::MAX, u32::MAX as usize),
            Err(ProtocolError::BufferTooSmall)
        );
    }

    assert_eq!(
        parse_host_message(&bytes[..HOST_MESSAGE_HEADER_LEN - 1]),
        Err(ProtocolError::InvalidLength)
    );
    let mut invalid = [0u8; HOST_MESSAGE_HEADER_LEN];
    invalid[..4].copy_from_slice(&((HOST_MESSAGE_HEADER_LEN - 1) as u32).to_le_bytes());
    assert_eq!(
        parse_host_message(&invalid),
        Err(ProtocolError::InvalidLength)
    );
    invalid[..4].copy_from_slice(&((HOST_MESSAGE_HEADER_LEN + 1) as u32).to_le_bytes());
    assert_eq!(
        parse_host_message(&invalid),
        Err(ProtocolError::InvalidLength)
    );
    invalid[..4].copy_from_slice(&(HOST_MESSAGE_HEADER_LEN as u32).to_le_bytes());
    invalid[8..12].copy_from_slice(&4i32.to_le_bytes());
    assert_eq!(
        parse_host_message(&invalid),
        Err(ProtocolError::InvalidValue(4))
    );
}

#[test]
fn hpqm_layout_is_exact() {
    let mut bytes = [0u8; HPQM_INFO_LEN];
    for (index, chunk) in bytes.chunks_exact_mut(4).enumerate() {
        chunk.copy_from_slice(&(index as u32).to_le_bytes());
    }
    let hpqm = HpqmInfo::parse(&bytes).unwrap();
    assert_eq!(
        hpqm.event_busy,
        Hpq {
            enqueue_address: 0,
            dequeue_address: 1
        }
    );
    assert_eq!(hpqm.command_available.dequeue_address, 7);
    assert_eq!(hpqm.rx_buffer_busy[2].dequeue_address, 13);
    assert_eq!(
        HpqmInfo::parse(&bytes[..HPQM_INFO_LEN - 1]),
        Err(ProtocolError::InvalidLength)
    );
}

#[test]
fn system_init_defaults_and_wire_image_are_exact() {
    let config = SystemInitConfig::new([2, 0, 0, 0, 0, 1], [0; RF_PARAMS_LEN]);
    assert_eq!(config.data, DataConfig::default());
    assert_eq!(
        config.temperature_battery,
        TemperatureBatteryConfig::default()
    );
    assert!(config.rf_params_valid);
    assert_eq!(config.rx_pools[0].buffer_size, 1600);
    assert_eq!(config.rx_pools[0].buffer_count, 8);
    assert_eq!(config.rx_pools[1], RxPoolConfig::default());
    assert_eq!(config.rx_pools[2], RxPoolConfig::default());
    assert!(!config.tcp_ip_checksum_offload);
    assert!(config.management_buffer_offload);
    assert!(!config.disable_beamforming);
    assert!(!config.keep_alive_enabled);
    assert!(!config.raw_scan_enabled);
    assert!(!config.abort_scan_on_bss_limit);
    assert_eq!(config.temperature_battery.monitor_period_us, 1024 * 1024);
    let mut bytes = [0u8; SYSTEM_INIT_LEN + HOST_MESSAGE_HEADER_LEN];
    let len = encode_system_init(&mut bytes, &config).unwrap();
    assert_eq!(len, SYSTEM_INIT_LEN + HOST_MESSAGE_HEADER_LEN);
    assert_eq!(read_u32(&bytes, 0) as usize, len);
    assert_eq!(read_u32(&bytes, HOST_MESSAGE_HEADER_LEN), 0);
    assert_eq!(
        read_u32(&bytes, HOST_MESSAGE_HEADER_LEN + 4),
        SYSTEM_INIT_LEN as u32
    );
    assert_eq!(read_u32(&bytes, HOST_MESSAGE_HEADER_LEN + 28), 1);
    assert_eq!(bytes[HOST_MESSAGE_HEADER_LEN + 309], 1);
    assert_eq!(
        parse_host_message(&bytes).unwrap().message_type,
        HostMessageType::System
    );
    assert!(!parse_host_message(&bytes).unwrap().resubmit);
}

#[test]
fn system_init_rejects_each_resource_limit_independently() {
    let mut out = [0u8; SYSTEM_INIT_LEN + HOST_MESSAGE_HEADER_LEN];
    let mut config = SystemInitConfig::new([0; 6], [0; RF_PARAMS_LEN]);
    config.rx_pools[0] = RxPoolConfig {
        buffer_size: u16::MAX,
        buffer_count: 3,
    };
    assert_eq!(
        encode_system_init(&mut out, &config),
        Err(ProtocolError::LimitExceeded)
    );

    for reorder_size in [0, 65] {
        let mut config = SystemInitConfig::new([0; 6], [0; RF_PARAMS_LEN]);
        config.data.reorder_buffer_size = reorder_size;
        assert_eq!(
            encode_system_init(&mut out, &config),
            Err(ProtocolError::LimitExceeded)
        );
    }
    for ampdu_size in [-1, 4] {
        let mut config = SystemInitConfig::new([0; 6], [0; RF_PARAMS_LEN]);
        config.data.max_rx_ampdu_size = ampdu_size;
        assert_eq!(
            encode_system_init(&mut out, &config),
            Err(ProtocolError::LimitExceeded)
        );
    }
}

#[test]
fn umac_header_and_interface_id_encodings_are_exact() {
    assert_eq!(
        MAX_UMAC_INNER_LEN,
        MAX_CONTROL_MESSAGE_LEN - HOST_MESSAGE_HEADER_LEN
    );
    assert_eq!(MAX_SCAN_BODY_LEN, MAX_UMAC_INNER_LEN - UMAC_HEADER_LEN);
    let ids = InterfaceIds {
        ifaceindex: Some(-3),
        wiphy_index: Some(5),
        wdev_id: Some(0x0102_0304_0506_0708),
    };
    assert_eq!(ids.valid_mask(), 0b111);
    assert_eq!(InterfaceIds::default().valid_mask(), 0);
    let mut bytes = [0u8; 128];
    let len = encode_umac_command(&mut bytes, UmacCommand::SetInterface, ids, &[0xaa]).unwrap();
    let outer = parse_host_message(&bytes[..len]).unwrap();
    assert_eq!(outer.message_type, HostMessageType::Umac);
    assert!(!outer.resubmit);
    let header = UmacHeader::parse(outer.payload).unwrap();
    assert_eq!(header.command_event, UmacCommand::SetInterface.code());
    assert_eq!(header.valid_ids, 0b111);
    assert_eq!(header.ifaceindex, -3);
    assert_eq!(header.wiphy_index, 5);
    assert_eq!(header.wdev_id, 0x0102_0304_0506_0708);
    assert_eq!(&outer.payload[UMAC_HEADER_LEN..], &[0xaa]);
    assert_eq!(
        UmacHeader::parse(&outer.payload[..UMAC_HEADER_LEN - 1]),
        Err(ProtocolError::InvalidLength)
    );

    let oversized = [0u8; MAX_UMAC_INNER_LEN - UMAC_HEADER_LEN + 1];
    assert_eq!(
        encode_umac_command(&mut bytes, UmacCommand::SetInterface, ids, &oversized),
        Err(ProtocolError::LimitExceeded)
    );
}

#[test]
fn new_interface_and_deauthentication_bodies_are_exact() {
    let mut bytes = [0u8; 128];
    let mac = [2, 1, 2, 3, 4, 5];
    let len =
        encode_new_interface(&mut bytes, 9, InterfaceType::Station, mac, b"wlan0").unwrap();
    let outer = parse_host_message(&bytes[..len]).unwrap();
    let header = UmacHeader::parse(outer.payload).unwrap();
    assert_eq!(header.command_event, UmacCommand::NewInterface.code());
    assert_eq!(header.wdev_id, 9);
    let body = &outer.payload[UMAC_HEADER_LEN..];
    assert_eq!(read_u32(body, 0), 0b1110);
    assert_eq!(read_i32(body, 4), InterfaceType::Station.code());
    assert_eq!(&body[16..22], &mac);
    assert_eq!(&body[22..27], b"wlan0");
    assert!(body[27..].iter().all(|byte| *byte == 0));
    assert_eq!(
        encode_new_interface(&mut bytes, 9, InterfaceType::Station, mac, &[0; 17]),
        Err(ProtocolError::LimitExceeded)
    );

    let bssid = [6, 7, 8, 9, 10, 11];
    let len = encode_deauthenticate(&mut bytes, 9, bssid, 7, true).unwrap();
    let outer = parse_host_message(&bytes[..len]).unwrap();
    let header = UmacHeader::parse(outer.payload).unwrap();
    assert_eq!(header.command_event, UmacCommand::Deauthenticate.code());
    let body = &outer.payload[UMAC_HEADER_LEN..];
    assert_eq!(read_u32(body, 0), 1);
    assert_eq!(u16::from_le_bytes([body[4], body[5]]), 1);
    assert_eq!(u16::from_le_bytes([body[6], body[7]]), 7);
    assert_eq!(&body[8..], &bssid);
}

#[test]
fn scan_encoder_writes_every_option_and_checks_each_limit() {
    let defaults = ScanRequest::all_bands();
    assert!(!defaults.passive);
    assert!(!defaults.no_cck);
    assert!(!defaults.skip_local_admin_macs);
    let frequencies = [2412, 2437];
    let request = ScanRequest {
        reason: ScanReason::Connect,
        passive: true,
        ssids: [b"one", b"two"],
        ssid_count: 1,
        bands: 1,
        no_cck: true,
        information_elements: &[0xdd, 1, 0xaa],
        mac_address: [2, 3, 4, 5, 6, 7],
        active_dwell_ms: 11,
        passive_dwell_ms: 22,
        skip_local_admin_macs: true,
        center_frequencies_mhz: &frequencies,
    };
    let mut bytes = [0u8; MAX_CONTROL_MESSAGE_LEN];
    let len = encode_scan(&mut bytes, 7, &request).unwrap();
    assert_eq!(len, HOST_MESSAGE_HEADER_LEN + UMAC_HEADER_LEN + 490 + 8);
    assert_eq!(read_u32(&bytes, HOST_MESSAGE_HEADER_LEN + 16), 1);
    assert_eq!(read_i32(&bytes, HOST_MESSAGE_HEADER_LEN + 20), 0);
    assert_eq!(read_u64(&bytes, HOST_MESSAGE_HEADER_LEN + 28), 7);
    let body = &bytes[HOST_MESSAGE_HEADER_LEN + UMAC_HEADER_LEN..len];
    assert_eq!(read_i32(body, 0), ScanReason::Connect.code());
    assert_eq!(u16::from_le_bytes([body[4], body[5]]), 1);
    assert_eq!(body[6], 1);
    assert_eq!(body[7], 3);
    assert_eq!(&body[8..11], b"one");
    assert_eq!(body[40], 0);
    assert_eq!(body[73], 1);
    assert_eq!(body[74], 1);
    assert_eq!(u16::from_le_bytes([body[75], body[76]]), 3);
    assert_eq!(&body[77..80], &[0xdd, 1, 0xaa]);
    assert_eq!(&body[477..483], &[2, 3, 4, 5, 6, 7]);
    assert_eq!(u16::from_le_bytes([body[483], body[484]]), 11);
    assert_eq!(u16::from_le_bytes([body[485], body[486]]), 22);
    assert_eq!(u16::from_le_bytes([body[487], body[488]]), 2);
    assert_eq!(body[489], 1);
    assert_eq!(read_u32(body, 490), 2412);
    assert_eq!(read_u32(body, 494), 2437);

    let mut invalid = ScanRequest::all_bands();
    invalid.ssid_count = 3;
    assert_eq!(
        encode_scan(&mut bytes, 7, &invalid),
        Err(ProtocolError::LimitExceeded)
    );
    let too_many_frequencies = [0u32; MAX_SCAN_FREQUENCIES + 1];
    invalid = ScanRequest::all_bands();
    invalid.center_frequencies_mhz = &too_many_frequencies;
    assert_eq!(
        encode_scan(&mut bytes, 7, &invalid),
        Err(ProtocolError::LimitExceeded)
    );
    let too_many_ies = [0u8; MAX_SCAN_IE_LEN + 1];
    invalid = ScanRequest::all_bands();
    invalid.information_elements = &too_many_ies;
    assert_eq!(
        encode_scan(&mut bytes, 7, &invalid),
        Err(ProtocolError::LimitExceeded)
    );
    let oversized_ssid = [0u8; MAX_SSID_LEN + 1];
    invalid = ScanRequest::all_bands();
    invalid.ssids[0] = &oversized_ssid;
    invalid.ssid_count = 1;
    assert_eq!(
        encode_scan(&mut bytes, 7, &invalid),
        Err(ProtocolError::LimitExceeded)
    );
}

#[test]
fn data_header_checks_its_exact_boundary() {
    let bytes = [1, 0, 0, 0, 8, 0, 0, 0];
    assert_eq!(
        DataHeader::parse(&bytes),
        Ok(DataHeader {
            command: 1,
            length: 8,
        })
    );
    assert_eq!(
        DataHeader::parse(&bytes[..7]),
        Err(ProtocolError::InvalidLength)
    );
}

#[test]
fn system_init_rejects_pools_of_any_size() {
    let mut out = [0u8; SYSTEM_INIT_LEN + HOST_MESSAGE_HEADER_LEN];
    let mut config = SystemInitConfig::new([0; 6], [0; RF_PARAMS_LEN]);
    for pool in &mut config.rx_pools {
        *pool = RxPoolConfig {
            buffer_size: u16::MAX,
            buffer_count: u16::MAX,
        };
    }
    assert_eq!(
        encode_system_init(&mut out, &config),
        Err(ProtocolError::LimitExceeded)
    );
    assert_eq!(config.validate(), Err(ProtocolError::LimitExceeded));
}

#[test]
fn a_default_queue_map_holds_no_registers() {
    let none = Hpq {
        enqueue_address: 0,
        dequeue_address: 0,
    };
    assert_eq!(Hpq::default(), none);
    let map = HpqmInfo::default();
    assert_eq!(map, HpqmInfo::parse(&[0; HPQM_INFO_LEN]).unwrap());
    assert_eq!(map.rx_buffer_busy, [none; 3]);
}
