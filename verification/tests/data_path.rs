use std::collections::VecDeque;

use nrf7002::data::{
    DataError, DataEvent, DataLayoutError, DataPath, DataProtocolError, ETHERNET_HEADER_LEN,
    MAX_TX_TOKENS, PostState, RPU_MEM_PACKET_BASE, RPU_MEM_PACKET_END, RX_BUFFER_HEADROOM,
    RX_COMMAND_SLOT_SIZE, RX_EVENT_FIXED_LEN, RX_INFO_LEN, ReceiveStart, ReceivedFrame, RxEventRef,
    RxPacketInfo, RxPayloadType, TX_COMMAND_SLOT_SIZE, TX_COMMAND_TOTAL_LEN, TX_DONE_FIXED_LEN,
    TxDoneEventRef, align4, classify_data_event, convert_mpdu, convert_msdu, convert_to_ethernet,
    encode_tx_command, ieee80211_addresses, layout_strides, llc_ether_type, llc_skip,
    rebuild_ethernet, validated_layout_bytes,
};
use nrf7002::device::{Device, DeviceError, RPU_MEM_TX_CMD_BASE};
use nrf7002::memory::{
    Processor, RPU_ADDR_MASK_OFFSET, Rpu, RpuError, RpuRequest, host_offset, transfer_at,
    transfer_bytes, transfer_count, validate_access,
};
use nrf7002::protocol::{
    DataCommand, HOST_MESSAGE_HEADER_LEN, HostMessageRef, HostMessageType, Hpq, HpqmInfo,
    ProtocolError, encode_host_message, parse_host_message,
};

trait Bus {
    type Error;

    fn read_status(&mut self, opcode: u8) -> Result<u8, Self::Error>;

    fn write_status(&mut self, opcode: u8, value: u8) -> Result<(), Self::Error>;

    fn read(&mut self, address: u32, data: &mut [u8]) -> Result<(), Self::Error>;

    fn write(&mut self, address: u32, data: &[u8]) -> Result<(), Self::Error>;
}

trait Pause {
    fn pause(&mut self);
}

fn read<B: Bus>(
    rpu: &mut Rpu<B>,
    processor: Processor,
    address: u32,
    data: &mut [u8],
) -> Result<(), RpuError<B::Error>> {
    validate_access::<B::Error>(processor, address, data.len())?;
    for index in 0..transfer_count(data.len()) {
        let transfer = transfer_at(processor, address, data.len(), index);
        let mut wire = vec![0; transfer.wire_len];
        rpu.bus_mut()
            .read(transfer.host, &mut wire)
            .map_err(RpuError::Bus)?;
        data[transfer.start..transfer.start + transfer.len]
            .copy_from_slice(&wire[..transfer.len]);
    }
    Ok(())
}

fn write<B: Bus>(
    rpu: &mut Rpu<B>,
    processor: Processor,
    address: u32,
    data: &[u8],
) -> Result<(), RpuError<B::Error>> {
    validate_access::<B::Error>(processor, address, data.len())?;
    for index in 0..transfer_count(data.len()) {
        let transfer = transfer_at(processor, address, data.len(), index);
        rpu.bus_mut()
            .write(transfer.host, &transfer_bytes(data, transfer))
            .map_err(RpuError::Bus)?;
    }
    Ok(())
}

fn perform<B: Bus>(
    rpu: &mut Rpu<B>,
    delay: &mut dyn Pause,
    request: RpuRequest,
    data: &[u8],
    storage: &mut [u8],
) -> Result<Vec<u8>, RpuError<B::Error>> {
    match request {
        RpuRequest::ReadStatus { opcode } => {
            let status = rpu.bus_mut().read_status(opcode).map_err(RpuError::Bus)?;
            return Ok(vec![status]);
        }
        RpuRequest::WriteStatus { opcode, value } => {
            rpu.bus_mut()
                .write_status(opcode, value)
                .map_err(RpuError::Bus)?;
        }
        RpuRequest::Read {
            processor,
            address,
            len,
        } => {
            let mut bytes = vec![0; len];
            read(rpu, processor, address, &mut bytes)?;
            return Ok(bytes);
        }
        RpuRequest::ReadInto {
            processor,
            address,
            start,
            len,
        } => read(rpu, processor, address, &mut storage[start..start + len])?,
        RpuRequest::WriteWord {
            processor,
            address,
            value,
        } => write(rpu, processor, address, &value.to_le_bytes())?,
        RpuRequest::WriteFrom {
            processor,
            address,
            start,
            len,
        } => write(rpu, processor, address, &data[start..start + len])?,
        RpuRequest::WriteIndirectWord {
            processor,
            address,
            value,
        } => {
            let writes = nrf7002::memory::write_indirect::<B::Error>(processor, address, &value.to_le_bytes())?;
            for (register, word) in writes {
                write(rpu, Processor::Lmac, register, &word.to_le_bytes())?;
            }
        }
        RpuRequest::Delay { .. } => delay.pause(),
    }
    Ok(Vec::new())
}

fn initialize_for_test<B>(device: &mut Device<B>, queues: HpqmInfo, rx_command_base: u32) {
    device.queues = Some(queues);
    device.rx_command_base = rx_command_base;
    device.tx_command_base = RPU_MEM_TX_CMD_BASE;
}

struct NoDelay;

impl Pause for NoDelay {
    fn pause(&mut self) {}
}

fn put_u16(bytes: &mut [u8], offset: usize, value: u16) {
    bytes[offset..offset + 2].copy_from_slice(&value.to_le_bytes());
}

fn put_u32(bytes: &mut [u8], offset: usize, value: u32) {
    bytes[offset..offset + 4].copy_from_slice(&value.to_le_bytes());
}

fn read_u16(bytes: &[u8], offset: usize) -> u16 {
    u16::from_le_bytes(bytes[offset..offset + 2].try_into().unwrap())
}

fn read_u32(bytes: &[u8], offset: usize) -> u32 {
    u32::from_le_bytes(bytes[offset..offset + 4].try_into().unwrap())
}

fn post_rx<B: Bus, const RX: usize, const TX: usize>(
    path: &mut DataPath<RX, TX>,
    device: &mut Device<B>,
    descriptor: u16,
    pool_id: usize,
) -> Result<(), DataError<B::Error>> {
    let mut post = path.post_rx(device, descriptor, pool_id)?;
    while let Some(request) = post.request() {
        match perform(&mut device.rpu, &mut NoDelay, request, &[], &mut []) {
            Ok(bytes) => path.resume_post(&mut post, Ok(&bytes))?,
            Err(error) => path.resume_post(&mut post, Err(error))?,
        }
    }
    Ok(())
}

fn post_all_rx<B: Bus, const RX: usize, const TX: usize>(
    path: &mut DataPath<RX, TX>,
    device: &mut Device<B>,
) -> Result<(), DataError<B::Error>> {
    let mut from = 0;
    while let Some(descriptor) = path.unposted_from(from) {
        post_rx(path, device, descriptor, 0)?;
        from = descriptor as usize + 1;
    }
    Ok(())
}

fn receive_packet<B: Bus, const RX: usize, const TX: usize>(
    path: &mut DataPath<RX, TX>,
    device: &mut Device<B>,
    event: &RxEventRef<'_>,
    index: usize,
    output: &mut [u8],
) -> Result<ReceivedFrame, DataError<B::Error>> {
    let (packet, verdict) = match path.receive_packet(event, index, output.len())? {
        ReceiveStart::Copy(packet) => {
            let reply = perform(&mut device.rpu, &mut NoDelay, packet.request(), &[], output);
            let verdict = match reply {
                Ok(bytes) => packet.finish_copy(output, Ok(&bytes)),
                Err(error) => packet.finish_copy(output, Err(error)),
            };
            (packet, verdict)
        }
        ReceiveStart::Refuse(packet, verdict) => (packet, verdict),
    };
    post_rx(path, device, packet.info.descriptor_id, 0)?;
    verdict.into_result()
}

fn transmit<B: Bus, const RX: usize, const TX: usize>(
    path: &mut DataPath<RX, TX>,
    device: &mut Device<B>,
    wdev_id: u8,
    frame: &[u8],
    dscp_tos: u16,
) -> Result<u8, DataError<B::Error>> {
    let mut transmit = path.transmit(wdev_id, frame, dscp_tos)?;
    while let Some(request) = transmit.request(device) {
        let command = transmit.command;
        let mut padded = frame.to_vec();
        padded.resize(frame.len().div_ceil(4) * 4, 0);
        let data: &[u8] = if transmit.sends_command() { &command } else { &padded };
        match perform(&mut device.rpu, &mut NoDelay, request, data, &mut []) {
            Ok(bytes) => path.resume_transmit(device, &mut transmit, Ok(&bytes))?,
            Err(error) => path.resume_transmit(device, &mut transmit, Err(error))?,
        }
    }
    Ok(transmit.token)
}

#[derive(Default)]
struct TestBus {
    read_responses: VecDeque<Vec<u8>>,
    reads: Vec<(u32, usize)>,
    writes: Vec<(u32, Vec<u8>)>,
}

impl Bus for TestBus {
    type Error = ();

    fn read_status(&mut self, _opcode: u8) -> Result<u8, Self::Error> {
        Ok(0)
    }

    fn write_status(&mut self, _opcode: u8, _value: u8) -> Result<(), Self::Error> {
        Ok(())
    }

    fn read(&mut self, address: u32, data: &mut [u8]) -> Result<(), Self::Error> {
        self.reads.push((address, data.len()));
        let response = self
            .read_responses
            .pop_front()
            .unwrap_or_else(|| vec![0; data.len()]);
        assert_eq!(response.len(), data.len());
        data.copy_from_slice(&response);
        Ok(())
    }

    fn write(&mut self, address: u32, data: &[u8]) -> Result<(), Self::Error> {
        self.writes.push((address, data.to_vec()));
        Ok(())
    }
}

#[derive(Clone, Copy, Debug, Eq, PartialEq)]
enum FailingBusError {
    Read,
    Write,
}

#[derive(Default)]
struct FailingBus {
    fail_read: bool,
    fail_write_at: Option<usize>,
    write_attempts: usize,
}

impl Bus for FailingBus {
    type Error = FailingBusError;

    fn read_status(&mut self, _opcode: u8) -> Result<u8, Self::Error> {
        Ok(0)
    }

    fn write_status(&mut self, _opcode: u8, _value: u8) -> Result<(), Self::Error> {
        Ok(())
    }

    fn read(&mut self, _address: u32, data: &mut [u8]) -> Result<(), Self::Error> {
        if self.fail_read {
            return Err(FailingBusError::Read);
        }
        data.fill(0);
        Ok(())
    }

    fn write(&mut self, _address: u32, _data: &[u8]) -> Result<(), Self::Error> {
        let attempt = self.write_attempts;
        self.write_attempts += 1;
        if self.fail_write_at == Some(attempt) {
            return Err(FailingBusError::Write);
        }
        Ok(())
    }
}

fn queues() -> HpqmInfo {
    HpqmInfo {
        event_busy: Hpq {
            enqueue_address: 0xa400_6004,
            dequeue_address: 0xa400_6000,
        },
        event_available: Hpq {
            enqueue_address: 0xa400_6014,
            dequeue_address: 0xa400_6010,
        },
        command_busy: Hpq {
            enqueue_address: 0xa400_6024,
            dequeue_address: 0xa400_6020,
        },
        command_available: Hpq {
            enqueue_address: 0xa400_7004,
            dequeue_address: 0xa400_7000,
        },
        rx_buffer_busy: [
            Hpq {
                enqueue_address: 0xa400_6034,
                dequeue_address: 0xa400_6030,
            },
            Hpq {
                enqueue_address: 0xa400_6044,
                dequeue_address: 0xa400_6040,
            },
            Hpq {
                enqueue_address: 0xa400_6054,
                dequeue_address: 0xa400_6050,
            },
        ],
    }
}

fn device(bus: TestBus) -> Device<TestBus> {
    let mut device = Device::new(bus);
    initialize_for_test(&mut device, queues(), 0xb000_2000);
    device
}

fn failing_device(bus: FailingBus) -> Device<FailingBus> {
    let mut device = Device::new(bus);
    initialize_for_test(&mut device, queues(), 0xb000_2000);
    device
}

fn data_message<'a>(payload: &'a [u8]) -> HostMessageRef<'a> {
    HostMessageRef {
        resubmit: false,
        message_type: HostMessageType::Data,
        payload,
    }
}

fn rx_event_payload(descriptor: u16, packet_len: u16, payload_type: u8) -> Vec<u8> {
    let mut payload = vec![0; RX_EVENT_FIXED_LEN + RX_INFO_LEN];
    put_u32(&mut payload, 0, DataCommand::ReceiveBuffer.code());
    let len = payload.len() as u32;
    put_u32(&mut payload, 4, len);
    payload[13] = 1;
    payload[15] = 24;
    put_u16(&mut payload, 16, 2412);
    payload[18..20].copy_from_slice(&(-42i16).to_le_bytes());
    put_u16(&mut payload, RX_EVENT_FIXED_LEN, descriptor);
    put_u16(&mut payload, RX_EVENT_FIXED_LEN + 2, packet_len);
    payload[RX_EVENT_FIXED_LEN + 4] = payload_type;
    payload
}

fn ethernet_frame(len: usize) -> Vec<u8> {
    let mut frame = vec![0; len];
    frame[0..6].copy_from_slice(&[1, 2, 3, 4, 5, 6]);
    frame[6..12].copy_from_slice(&[7, 8, 9, 10, 11, 12]);
    frame[12..14].copy_from_slice(&0x0800u16.to_be_bytes());
    frame
}

#[test]
fn packet_ram_layout_does_not_overlap() {
    let layout = DataPath::<8, 4>::new(1600, 1514).unwrap();
    assert_eq!(layout.rx_buffer_size(), 1600);
    assert_eq!(layout.tx_buffer_size(), 1514);
    assert_eq!(layout.rx_slot_address(8), None);
    assert_eq!(layout.tx_slot_address(4), None);
    let tx_end = layout.tx_slot_address(3).unwrap() + layout.tx_stride as u32;
    assert!(tx_end <= layout.rx_base);
    assert_eq!(
        layout.rx_slot_address(7).unwrap() + layout.rx_stride as u32,
        RPU_MEM_PACKET_END + 1
    );
}

#[test]
fn tx_command_slots_stop_before_packet_data() {
    assert_eq!(MAX_TX_TOKENS, 137);
    assert!(DataPath::<137, 137>::new(1, ETHERNET_HEADER_LEN).is_ok());
    assert_eq!(
        DataPath::<1, 138>::new(1, ETHERNET_HEADER_LEN).err(),
        Some(DataLayoutError::InvalidCapacity)
    );
    assert_eq!(
        DataPath::<0, 1>::new(1, ETHERNET_HEADER_LEN).err(),
        Some(DataLayoutError::InvalidCapacity)
    );
    assert_eq!(
        DataPath::<1, 0>::new(1, ETHERNET_HEADER_LEN).err(),
        Some(DataLayoutError::InvalidCapacity)
    );
    assert_eq!(
        DataPath::<65536, 1>::new(1, ETHERNET_HEADER_LEN).err(),
        Some(DataLayoutError::InvalidCapacity)
    );
    for (rx_size, tx_size) in [
        (0, ETHERNET_HEADER_LEN),
        (1, ETHERNET_HEADER_LEN - 1),
        (u16::MAX as usize + 1, ETHERNET_HEADER_LEN),
        (1, u16::MAX as usize + 1),
    ] {
        assert_eq!(
            DataPath::<1, 1>::new(rx_size, tx_size).err(),
            Some(DataLayoutError::InvalidCapacity)
        );
    }
    assert_eq!(
        DataPath::<137, 137>::new(u16::MAX as usize, u16::MAX as usize).err(),
        Some(DataLayoutError::PacketRamExhausted)
    );
    assert_eq!(
        layout_strides(usize::MAX, 14),
        Err(DataLayoutError::InvalidCapacity)
    );
    assert_eq!(
        validated_layout_bytes::<2, 1>(usize::MAX, 1),
        Err(DataLayoutError::PacketRamExhausted)
    );
}

#[test]
fn reset_releases_local_ownership_after_rpu_reset() {
    let mut layout = DataPath::<2, 2>::new(1600, 1514).unwrap();
    layout.tx_in_flight = [true, true];
    layout.rx_posted = [true, true];
    layout.next_tx = 1;
    layout.reset_after_rpu_reset();
    assert_eq!(layout.tx_in_flight, [false, false]);
    assert_eq!(layout.rx_posted, [false, false]);
    assert_eq!(layout.next_tx, 0);
}

#[test]
fn tx_command_has_exact_packed_layout() {
    let mut frame = [0u8; ETHERNET_HEADER_LEN];
    frame[0..6].copy_from_slice(&[1, 2, 3, 4, 5, 6]);
    frame[6..12].copy_from_slice(&[7, 8, 9, 10, 11, 12]);
    frame[12..14].copy_from_slice(&0x0800u16.to_be_bytes());
    let command = encode_tx_command(0, 2, &frame, 7, 0x5000);
    assert_eq!(read_u32(&command, 0) as usize, TX_COMMAND_TOTAL_LEN);
    assert_eq!(read_u32(&command, 12), DataCommand::TransmitBuffer.code());
    assert_eq!(command[20], 0);
    assert_eq!(command[21], 2);
    assert_eq!(read_u16(&command, 40), 0x0800);
    assert_eq!(read_u16(&command, 53), ETHERNET_HEADER_LEN as u16);
    assert_eq!(read_u32(&command, 55), 0x5000);
    assert_eq!(command[52], 1);
}

#[test]
fn rx_and_tx_event_parsers_reject_every_invalid_boundary() {
    for value in 0..=2 {
        assert_eq!(RxPayloadType::from_u8(value).unwrap() as u8, value);
    }
    assert_eq!(
        RxPayloadType::from_u8(3),
        Err(DataProtocolError::InvalidRxPayloadType(3))
    );

    let payload = rx_event_payload(7, 100, RxPayloadType::Msdu as u8);
    let event = RxEventRef::parse(data_message(&payload)).unwrap();
    assert_eq!(event.packet_count, 1);
    assert_eq!(
        event.packet(0),
        Ok(RxPacketInfo {
            descriptor_id: 7,
            packet_len: 100,
            payload_type: RxPayloadType::Msdu,
        })
    );
    assert_eq!(event.packet(1), Err(DataProtocolError::InvalidPacketIndex));

    let mut two_packets = vec![0; RX_EVENT_FIXED_LEN + 2 * RX_INFO_LEN];
    put_u32(&mut two_packets, 0, DataCommand::ReceiveBuffer.code());
    let two_packet_len = two_packets.len() as u32;
    put_u32(&mut two_packets, 4, two_packet_len);
    two_packets[13] = 2;
    let second = RX_EVENT_FIXED_LEN + RX_INFO_LEN;
    put_u16(&mut two_packets, second, 9);
    put_u16(&mut two_packets, second + 2, 321);
    two_packets[second + 4] = RxPayloadType::MsduWithMac as u8;
    assert_eq!(
        RxEventRef::parse(data_message(&two_packets))
            .unwrap()
            .packet(1),
        Ok(RxPacketInfo {
            descriptor_id: 9,
            packet_len: 321,
            payload_type: RxPayloadType::MsduWithMac,
        })
    );

    let mut invalid_type = payload.clone();
    invalid_type[RX_EVENT_FIXED_LEN + 4] = 3;
    let event = RxEventRef::parse(data_message(&invalid_type)).unwrap();
    assert_eq!(
        event.packet(0),
        Err(DataProtocolError::InvalidRxPayloadType(3))
    );
    assert_eq!(
        RxEventRef::parse(HostMessageRef {
            message_type: HostMessageType::System,
            ..data_message(&payload)
        }),
        Err(DataProtocolError::WrongMessageType)
    );
    assert_eq!(
        RxEventRef::parse(data_message(&payload[..RX_EVENT_FIXED_LEN - 1])),
        Err(DataProtocolError::InvalidLength)
    );
    let mut wrong_command = payload.clone();
    put_u32(&mut wrong_command, 0, 99);
    assert_eq!(
        RxEventRef::parse(data_message(&wrong_command)),
        Err(DataProtocolError::InvalidCommand(99))
    );
    for declared in [
        RX_EVENT_FIXED_LEN - 1,
        payload.len() + 1,
        RX_EVENT_FIXED_LEN,
    ] {
        let mut invalid = payload.clone();
        put_u32(&mut invalid, 4, declared as u32);
        assert_eq!(
            RxEventRef::parse(data_message(&invalid)),
            Err(DataProtocolError::InvalidLength)
        );
    }

    let mut tx = vec![0; TX_DONE_FIXED_LEN + 2];
    put_u32(&mut tx, 0, DataCommand::TransmitDone.code());
    let tx_len = tx.len() as u32;
    put_u32(&mut tx, 4, tx_len);
    tx[8] = 4;
    tx[9] = 2;
    let event = TxDoneEventRef::parse(data_message(&tx)).unwrap();
    assert!(event.all_succeeded());
    tx[TX_DONE_FIXED_LEN] = 1;
    assert!(
        !TxDoneEventRef::parse(data_message(&tx))
            .unwrap()
            .all_succeeded()
    );
    tx[9] = 0;
    put_u32(&mut tx, 4, TX_DONE_FIXED_LEN as u32);
    assert!(
        !TxDoneEventRef::parse(data_message(&tx))
            .unwrap()
            .all_succeeded()
    );
    put_u32(&mut tx, 4, (TX_DONE_FIXED_LEN + 1) as u32);
    assert_eq!(
        TxDoneEventRef::parse(data_message(&tx)),
        Err(DataProtocolError::InvalidLength)
    );
}

#[test]
fn classifies_every_data_event_and_rejects_bad_headers() {
    let mut payload = vec![0; TX_DONE_FIXED_LEN + 1];
    put_u32(&mut payload, 0, DataCommand::TransmitDone.code());
    let len = payload.len() as u32;
    put_u32(&mut payload, 4, len);
    payload[8] = 3;
    payload[9] = 1;
    assert_eq!(
        classify_data_event(data_message(&payload)),
        Ok(DataEvent::TransmitDone {
            token: 3,
            status_count: 1,
        })
    );
    for (command, expected) in [
        (DataCommand::ReceiveBuffer.code(), DataEvent::Receive),
        (99, DataEvent::Other(99)),
    ] {
        let mut payload = [0; 8];
        put_u32(&mut payload, 0, command);
        put_u32(&mut payload, 4, 8);
        assert_eq!(classify_data_event(data_message(&payload)), Ok(expected));
    }
    for (command, expected) in [
        (
            DataCommand::CarrierOn.code(),
            DataEvent::CarrierOn { wdev_id: 7 },
        ),
        (
            DataCommand::CarrierOff.code(),
            DataEvent::CarrierOff { wdev_id: 7 },
        ),
    ] {
        let mut payload = [0; 12];
        put_u32(&mut payload, 0, command);
        put_u32(&mut payload, 4, 12);
        put_u32(&mut payload, 8, 7);
        assert_eq!(classify_data_event(data_message(&payload)), Ok(expected));
        put_u32(&mut payload, 4, 8);
        assert_eq!(
            classify_data_event(data_message(&payload)),
            Err(DataProtocolError::InvalidLength)
        );
    }
    assert_eq!(
        classify_data_event(HostMessageRef {
            message_type: HostMessageType::System,
            ..data_message(&[0; 8])
        }),
        Err(DataProtocolError::WrongMessageType)
    );
    assert_eq!(
        classify_data_event(data_message(&[0; 7])),
        Err(DataProtocolError::InvalidLength)
    );
    for declared in [7, 9] {
        let mut payload = [0; 8];
        put_u32(&mut payload, 4, declared);
        assert_eq!(
            classify_data_event(data_message(&payload)),
            Err(DataProtocolError::InvalidLength)
        );
    }
}

#[test]
fn converts_from_ds_mpdu_to_ethernet() {
    let mut frame = [0u8; 64];
    frame[0..2].copy_from_slice(&0x0208u16.to_le_bytes());
    frame[4..10].copy_from_slice(&[1, 1, 1, 1, 1, 1]);
    frame[10..16].copy_from_slice(&[2, 2, 2, 2, 2, 2]);
    frame[16..22].copy_from_slice(&[3, 3, 3, 3, 3, 3]);
    frame[24..32].copy_from_slice(&[0xaa, 0xaa, 3, 0, 0, 0, 0x08, 0x00]);
    frame[32..36].copy_from_slice(&[9, 8, 7, 6]);
    let len = convert_mpdu(&mut frame[..36], 24).unwrap();
    assert_eq!(len, 18);
    assert_eq!(&frame[0..6], &[1; 6]);
    assert_eq!(&frame[6..12], &[3; 6]);
    assert_eq!(&frame[12..14], &[0x08, 0x00]);
    assert_eq!(&frame[14..18], &[9, 8, 7, 6]);
}

#[test]
fn converts_four_address_mpdu_to_ethernet() {
    let mut frame = [0u8; 64];
    frame[0..2].copy_from_slice(&0x0308u16.to_le_bytes());
    frame[4..10].copy_from_slice(&[1; 6]);
    frame[10..16].copy_from_slice(&[2; 6]);
    frame[16..22].copy_from_slice(&[3; 6]);
    frame[24..30].copy_from_slice(&[4; 6]);
    frame[30..38].copy_from_slice(&[0xaa, 0xaa, 3, 0, 0, 0, 0x08, 0x00]);
    frame[38..42].copy_from_slice(&[9, 8, 7, 6]);
    let len = convert_mpdu(&mut frame[..42], 30).unwrap();
    assert_eq!(len, 18);
    assert_eq!(&frame[0..6], &[3; 6]);
    assert_eq!(&frame[6..12], &[4; 6]);
    assert_eq!(&frame[12..14], &[0x08, 0x00]);
    assert_eq!(&frame[14..18], &[9, 8, 7, 6]);
}

#[test]
fn converts_all_address_modes_and_msdu_payloads() {
    for (flags, destination, source) in [
        (0x0000u16, [1; 6], [2; 6]),
        (0x0100, [3; 6], [2; 6]),
        (0x0200, [1; 6], [3; 6]),
    ] {
        let mut frame = [0u8; 40];
        frame[0..2].copy_from_slice(&flags.to_le_bytes());
        frame[4..10].copy_from_slice(&[1; 6]);
        frame[10..16].copy_from_slice(&[2; 6]);
        frame[16..22].copy_from_slice(&[3; 6]);
        frame[24..32].copy_from_slice(&[0xaa, 0xaa, 3, 0, 0, 0, 0x08, 0x06]);
        frame[32..34].copy_from_slice(&[9, 8]);
        let len = convert_to_ethernet(&mut frame[..34], RxPayloadType::Mpdu, 24).unwrap();
        assert_eq!(len, 16);
        assert_eq!(&frame[..6], &destination);
        assert_eq!(&frame[6..12], &source);
        assert_eq!(&frame[12..14], &[0x08, 0x06]);
    }

    for (payload_type, mac_header_len, amsdu) in [
        (RxPayloadType::Msdu, 0, 0),
        (RxPayloadType::MsduWithMac, 4, 4),
    ] {
        let mut frame = [0u8; 40];
        frame[amsdu..amsdu + 6].copy_from_slice(&[1; 6]);
        frame[amsdu + 6..amsdu + 12].copy_from_slice(&[2; 6]);
        let llc = amsdu + 14;
        frame[llc..llc + 8].copy_from_slice(&[0xaa, 0xaa, 3, 0, 0, 0, 0x08, 0x00]);
        frame[llc + 8..llc + 10].copy_from_slice(&[7, 6]);
        let raw_len = llc + 10;
        let len =
            convert_to_ethernet(&mut frame[..raw_len], payload_type, mac_header_len).unwrap();
        assert_eq!(len, 16);
        assert_eq!(&frame[..6], &[1; 6]);
        assert_eq!(&frame[6..12], &[2; 6]);
        assert_eq!(&frame[14..16], &[7, 6]);
    }
    assert_eq!(llc_skip(0x80f3), 8);
    assert_eq!(llc_skip(0x8137), 8);
    assert_eq!(llc_skip(0x0600), 8);
    assert_eq!(llc_skip(0x05ff), 2);
}

#[test]
fn conversion_rejects_every_short_or_expanding_frame() {
    assert_eq!(
        convert_mpdu(&mut [0; 30], 23),
        Err(DataProtocolError::FrameTooShort)
    );
    assert_eq!(
        convert_mpdu(&mut [0; 25], 24),
        Err(DataProtocolError::FrameTooShort)
    );
    assert_eq!(
        ieee80211_addresses(&[0; 23], 0),
        Err(DataProtocolError::FrameTooShort)
    );
    assert_eq!(
        ieee80211_addresses(&[0; 29], 0x0300),
        Err(DataProtocolError::FrameTooShort)
    );
    assert_eq!(
        convert_msdu(&mut [0; 15], 0),
        Err(DataProtocolError::FrameTooShort)
    );
    assert_eq!(
        convert_msdu(&mut [0; 17], 4),
        Err(DataProtocolError::FrameTooShort)
    );
    assert_eq!(
        llc_ether_type(&[0; 8], usize::MAX),
        Err(DataProtocolError::InvalidLength)
    );
    assert_eq!(
        llc_ether_type(&[0; 7], 0),
        Err(DataProtocolError::FrameTooShort)
    );
    assert_eq!(
        rebuild_ethernet(&mut [0; 10], 11, [0; 6], [0; 6], 0),
        Err(DataProtocolError::FrameTooShort)
    );
    assert_eq!(
        rebuild_ethernet(&mut [0; 20], 2, [0; 6], [0; 6], 0),
        Err(DataProtocolError::FrameTooLarge)
    );
}

#[test]
fn posts_receives_and_reposts_an_rx_descriptor() {
    let mut raw = [0u8; 36];
    raw[0..2].copy_from_slice(&0x0208u16.to_le_bytes());
    raw[4..10].copy_from_slice(&[1; 6]);
    raw[10..16].copy_from_slice(&[2; 6]);
    raw[16..22].copy_from_slice(&[3; 6]);
    raw[24..32].copy_from_slice(&[0xaa, 0xaa, 3, 0, 0, 0, 0x08, 0x00]);
    raw[32..36].copy_from_slice(&[9, 8, 7, 6]);
    let bus = TestBus {
        read_responses: [raw.to_vec()].into(),
        ..TestBus::default()
    };
    let mut device = device(bus);
    let mut path = DataPath::<2, 2>::new(1600, 1514).unwrap();
    assert!(post_all_rx(&mut path, &mut device).is_ok());
    assert_eq!(path.rx_posted, [true, true]);
    let payload = rx_event_payload(0, raw.len() as u16, RxPayloadType::Mpdu as u8);
    let event = RxEventRef::parse(data_message(&payload)).unwrap();
    let mut output = [0u8; 64];
    let received = receive_packet(&mut path, &mut device, &event, 0, &mut output).unwrap();
    assert_eq!(
        received,
        ReceivedFrame {
            len: 18,
            ether_type: 0x0800,
            descriptor_id: 0,
            signal_dbm: -42,
            frequency_mhz: 2412,
        }
    );
    assert_eq!(&output[..6], &[1; 6]);
    assert_eq!(&output[6..12], &[3; 6]);
    assert!(path.rx_posted[0]);

    assert!(matches!(
        post_rx(&mut path, &mut device, 0, 0),
        Err(DataError::ReceiveDescriptorBusy(0))
    ));
    assert!(matches!(
        post_rx(&mut path, &mut device, 2, 0),
        Err(DataError::Protocol(DataProtocolError::InvalidDescriptor(2)))
    ));
    path.rx_posted[1] = false;
    assert!(matches!(
        post_rx(&mut path, &mut device, 1, 3),
        Err(DataError::Protocol(DataProtocolError::InvalidDescriptor(1)))
    ));
    let bus = device.into_inner();
    let packet_address = path.rx_slot_address(0).unwrap() + RX_BUFFER_HEADROOM as u32;
    assert_eq!(
        bus.reads,
        [(
            host_offset(Processor::Lmac, packet_address).unwrap(),
            raw.len()
        )]
    );
}

#[test]
fn rx_descriptor_offsets_and_addresses_are_exact() {
    let payload = rx_event_payload(1, 16, RxPayloadType::Msdu as u8);
    let event = RxEventRef::parse(data_message(&payload)).unwrap();
    let mut path = DataPath::<1, 1>::new(64, 64).unwrap();
    assert!(matches!(
        path.receive_packet::<()>(&event, 0, 64),
        Err(DataError::Protocol(DataProtocolError::InvalidDescriptor(1)))
    ));

    let mut device = device(TestBus::default());
    let slot = RPU_MEM_PACKET_BASE + 0x100;
    let command_base = 0xb000_2000;
    let path = DataPath::<3, 1>::new(64, 64).unwrap();
    let mut post = path.post_rx::<_, ()>(&device, 2, 0).unwrap();
    assert_eq!(post.command_address, command_base + 2 * RX_COMMAND_SLOT_SIZE);
    post.slot = slot;
    while post.state != PostState::Enqueue {
        let request = post.request().unwrap();
        perform(&mut device.rpu, &mut NoDelay, request, &[], &mut []).unwrap();
        post.state = match post.state {
            PostState::Descriptor => PostState::Pointer,
            _ => PostState::Enqueue,
        };
    }
    let bus = device.into_inner();
    let expected_dma =
        ((slot + RX_BUFFER_HEADROOM as u32) & RPU_ADDR_MASK_OFFSET).to_le_bytes();
    assert!(bus.writes.iter().any(|(_, data)| data == &expected_dma));
}

#[test]
fn receive_capacity_errors_repost_the_descriptor() {
    let mut device = device(TestBus::default());
    let payload = rx_event_payload(0, 36, RxPayloadType::Mpdu as u8);
    let event = RxEventRef::parse(data_message(&payload)).unwrap();

    let mut path = DataPath::<1, 1>::new(32, 64).unwrap();
    post_all_rx(&mut path, &mut device).unwrap();
    assert!(matches!(
        receive_packet(&mut path, &mut device, &event, 0, &mut [0; 64]),
        Err(DataError::Protocol(DataProtocolError::FrameTooLarge))
    ));
    assert!(path.rx_posted[0]);

    let mut path = DataPath::<1, 1>::new(64, 64).unwrap();
    post_all_rx(&mut path, &mut device).unwrap();
    assert!(matches!(
        receive_packet(&mut path, &mut device, &event, 0, &mut [0; 20]),
        Err(DataError::OutputTooSmall {
            needed: 36,
            capacity: 20,
        })
    ));
    assert!(path.rx_posted[0]);
}

#[test]
fn transmit_cycles_tokens_and_writes_tail_command_and_trigger() {
    let mut device = device(TestBus::default());
    let mut path = DataPath::<1, 2>::new(64, 64).unwrap();
    let frame = ethernet_frame(15);
    assert_eq!(
        transmit(&mut path, &mut device, 4, &frame, 7).unwrap(),
        0
    );
    assert_eq!(path.next_tx, 1);
    assert_eq!(
        transmit(&mut path, &mut device, 4, &frame, 7).unwrap(),
        1
    );
    assert_eq!(path.next_tx, 0);
    assert!(matches!(
        transmit(&mut path, &mut device, 4, &frame, 7),
        Err(DataError::NoTransmitToken)
    ));
    assert_eq!(path.complete_tx(0), Ok(()));
    assert_eq!(
        transmit(&mut path, &mut device, 4, &frame, 7).unwrap(),
        0
    );
    assert_eq!(path.next_tx, 1);
    assert_eq!(
        path.complete_tx(2),
        Err(DataProtocolError::InvalidDescriptor(2))
    );
    assert_eq!(path.complete_tx(1), Ok(()));
    assert_eq!(
        path.complete_tx(1),
        Err(DataProtocolError::InvalidDescriptor(1))
    );

    let bus = device.into_inner();
    assert!(bus.writes.iter().any(|(_, data)| data == &frame[..12]));
    assert!(
        bus.writes
            .iter()
            .any(|(_, data)| data == &[frame[12], frame[13], frame[14], 0])
    );
    let tail_address = host_offset(
        Processor::Umac,
        path.tx_slot_address(0).unwrap() + (frame.len() & !3) as u32,
    )
    .unwrap();
    assert!(bus.writes.iter().any(|(address, data)| {
        *address == tail_address && data == &[frame[12], frame[13], frame[14], 0]
    }));
    assert!(bus.writes.iter().any(|(_, data)| {
        data.len() == TX_COMMAND_TOTAL_LEN & !3
            && read_u32(data, HOST_MESSAGE_HEADER_LEN) == DataCommand::TransmitBuffer.code()
    }));
    let command_queue_host = queues().command_busy.enqueue_address & RPU_ADDR_MASK_OFFSET;
    assert!(
        bus.writes
            .iter()
            .any(|(address, _)| *address == command_queue_host)
    );
    let second_command =
        host_offset(Processor::Umac, RPU_MEM_TX_CMD_BASE + TX_COMMAND_SLOT_SIZE).unwrap();
    assert!(
        bus.writes
            .iter()
            .any(|(address, data)| *address == second_command
                && read_u32(data, HOST_MESSAGE_HEADER_LEN)
                    == DataCommand::TransmitBuffer.code())
    );
}

#[test]
fn layout_alignment_and_slot_offsets_are_exact() {
    assert_eq!(
        [align4(1), align4(2), align4(3), align4(4), align4(5)],
        [4, 4, 4, 4, 8]
    );
    let path = DataPath::<2, 3>::new(33, 65).unwrap();
    assert_eq!(
        path.rx_slot_address(1),
        Some(path.rx_base + path.rx_stride as u32)
    );
    assert_eq!(
        path.tx_slot_address(2),
        Some(RPU_MEM_PACKET_BASE + 2 * path.tx_stride as u32)
    );
}

#[test]
fn transmit_validation_does_not_consume_tokens() {
    let mut device = device(TestBus::default());
    let mut path = DataPath::<1, 1>::new(64, 14).unwrap();
    assert!(matches!(
        transmit(&mut path, &mut device, 0, &[0; 13], 0),
        Err(DataError::Protocol(DataProtocolError::FrameTooShort))
    ));
    assert!(matches!(
        transmit(&mut path, &mut device, 0, &[0; 15], 0),
        Err(DataError::Protocol(DataProtocolError::FrameTooLarge))
    ));
    assert_eq!(path.tx_in_flight, [false]);

    let mut closed = Device::new(TestBus::default());
    assert!(matches!(
        post_rx(&mut path, &mut closed, 0, 0),
        Err(DataError::Device(DeviceError::NotInitialized))
    ));
}

#[test]
fn packet_and_command_write_failures_release_the_reserved_token() {
    let frame = ethernet_frame(16);
    let mut path = DataPath::<1, 1>::new(64, 64).unwrap();
    let mut device = failing_device(FailingBus {
        fail_write_at: Some(0),
        ..FailingBus::default()
    });
    assert!(matches!(
        transmit(&mut path, &mut device, 0, &frame, 0),
        Err(DataError::Rpu(RpuError::Bus(FailingBusError::Write)))
    ));
    assert_eq!(path.tx_in_flight, [false]);

    let mut device = failing_device(FailingBus {
        fail_write_at: Some(1),
        ..FailingBus::default()
    });
    assert!(matches!(
        transmit(&mut path, &mut device, 0, &frame, 0),
        Err(DataError::Rpu(RpuError::Bus(FailingBusError::Write)))
    ));
    assert_eq!(path.tx_in_flight, [false]);
}

#[test]
fn receive_read_failure_reposts_the_descriptor() {
    let mut device = failing_device(FailingBus {
        fail_read: true,
        ..FailingBus::default()
    });
    let mut path = DataPath::<1, 1>::new(64, 64).unwrap();
    post_all_rx(&mut path, &mut device).unwrap();
    let payload = rx_event_payload(0, 32, RxPayloadType::Mpdu as u8);
    let event = RxEventRef::parse(data_message(&payload)).unwrap();
    assert!(matches!(
        receive_packet(&mut path, &mut device, &event, 0, &mut [0; 64]),
        Err(DataError::Rpu(RpuError::Bus(FailingBusError::Read)))
    ));
    assert_eq!(path.rx_posted, [true]);
}

#[test]
fn classifies_data_message() {
    let mut payload = [0u8; 12];
    put_u32(&mut payload, 0, DataCommand::CarrierOn.code());
    put_u32(&mut payload, 4, 12);
    put_u32(&mut payload, 8, 1);
    let mut message = [0u8; 32];
    let len = encode_host_message(&mut message, HostMessageType::Data, true, &payload).unwrap();
    let parsed = parse_host_message(&message[..len]).unwrap();
    assert_eq!(
        classify_data_event(parsed),
        Ok(DataEvent::CarrierOn { wdev_id: 1 })
    );
}

#[test]
fn tx_done_status_array_is_validated() {
    let mut payload = [0u8; TX_DONE_FIXED_LEN + 1];
    put_u32(&mut payload, 0, DataCommand::TransmitDone.code());
    let payload_len = payload.len() as u32;
    put_u32(&mut payload, 4, payload_len);
    payload[8] = 3;
    payload[9] = 1;
    payload[TX_DONE_FIXED_LEN] = 0;
    let mut message = [0u8; 64];
    let len = encode_host_message(&mut message, HostMessageType::Data, true, &payload).unwrap();
    let parsed = parse_host_message(&message[..len]).unwrap();
    let event = TxDoneEventRef::parse(parsed).unwrap();
    assert_eq!(event.token, 3);
    assert!(event.all_succeeded());
}

#[test]
fn protocol_error_type_is_independent() {
    let _ = ProtocolError::InvalidLength;
}

#[test]
fn the_last_command_slot_may_end_the_address_space() {
    let mut device = device(TestBus::default());
    device.rx_command_base = 0xffff_fff8;
    let path = DataPath::<1, 1>::new(64, 64).unwrap();
    let post = path.post_rx::<_, ()>(&device, 0, 0).unwrap();
    assert_eq!(post.command_address, 0xffff_fff8);
}
