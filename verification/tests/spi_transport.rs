use std::collections::VecDeque;

use nrf7002::bus::{
    HIGH_LATENCY_READ_WORD_LEN, INCREMENTING_ADDRESS_MASK, MAX_SLAVE_LATENCY_WORDS,
    MAX_SPI_DATA_LEN, OPCODE_FAST_READ, OPCODE_READ_STATUS_1, OPCODE_WRITE, OPCODE_WRITE_STATUS_2,
    READ_HEADER_LEN, SPI_IO_BUFFER_LEN, SpiConfig, SpiTransport, plan_read, plan_write, read_frame,
    status_read_frame, status_value, status_write_frame, take_read_data, wire_address, write_frame,
};

#[derive(Default)]
struct FakeSpi {
    sent: Vec<Vec<u8>>,
    responses: VecDeque<Vec<u8>>,
}

impl FakeSpi {
    fn with_responses(responses: impl IntoIterator<Item = Vec<u8>>) -> Self {
        Self {
            sent: Vec::new(),
            responses: responses.into_iter().collect(),
        }
    }
}

fn read_status(transport: &mut SpiTransport<FakeSpi>, opcode: u8) -> Result<u8, ()> {
    transport.spi.sent.push(status_read_frame(opcode).to_vec());
    let response = transport.spi.responses.pop_front().expect("missing SPI response");
    let received: [u8; 6] = response.try_into().expect("status frames are six bytes");
    Ok(status_value(received))
}

fn write_status(transport: &mut SpiTransport<FakeSpi>, opcode: u8, value: u8) -> Result<(), ()> {
    transport.spi.sent.push(status_write_frame(opcode, value).to_vec());
    Ok(())
}

fn read(transport: &mut SpiTransport<FakeSpi>, address: u32, data: &mut [u8]) -> Result<(), ()> {
    let config = transport.config();
    for transaction in plan_read(config, address, data.len()) {
        let frame = read_frame(config, transaction);
        let response = transport.spi.responses.pop_front().expect("missing SPI response");
        assert_eq!(response.len(), frame.len());
        transport.spi.sent.push(frame);
        take_read_data(config, transaction, &response, data);
    }
    Ok(())
}

fn write(transport: &mut SpiTransport<FakeSpi>, address: u32, data: &[u8]) -> Result<(), ()> {
    let config = transport.config();
    for transaction in plan_write(address, data.len()) {
        transport.spi.sent.push(write_frame(config, transaction, data));
    }
    Ok(())
}

fn read_response(payload: &[u8], latency_words: usize) -> Vec<u8> {
    let mut response = vec![0; READ_HEADER_LEN + latency_words * 4];
    response.extend_from_slice(payload);
    response
}

#[test]
fn nordic_defaults_are_exact() {
    assert_eq!(SpiConfig::nordic_default().address_mask(), 0x80_0000);
    assert_eq!(SpiConfig::nordic_default().slave_latency_words(), 0);
    assert!(!SpiConfig::nordic_default().uses_nordic_memory_map_latency());
    assert!(SpiConfig::nordic_memory_map().uses_nordic_memory_map_latency());
}

#[test]
fn nordic_memory_map_latency_matches_the_pinned_bus_shim() {
    let config = SpiConfig::nordic_memory_map();
    for (address, latency) in [
        (0x000000, 1),
        (0x008fff, 1),
        (0x009000, 2),
        (0x03ffff, 2),
        (0x040000, 1),
        (0x07ffff, 1),
        (0x080000, 2),
        (0x092000, 2),
        (0x092001, 0),
        (0x0bffff, 0),
        (0x0c0000, 0),
        (0x0f0fff, 0),
        (0x0f1000, 0),
        (0x100000, 1),
        (0x134000, 1),
        (0x134001, 0),
        (0x140000, 1),
        (0x14c000, 1),
        (0x180000, 1),
        (0x190000, 1),
        (0x200000, 1),
        (0x261800, 1),
        (0x280000, 1),
        (0x2a4000, 1),
        (0x300000, 1),
        (0x338000, 1),
        (0x338001, 0),
        (0xffffff, 0),
        (INCREMENTING_ADDRESS_MASK | 0x009000, 2),
    ] {
        assert_eq!(config.read_latency_words(address), latency, "{address:#x}");
    }
}

#[test]
fn invalid_latency_is_rejected() {
    let config = SpiConfig::new(0x80_0000, 8).expect("maximum latency is valid");
    assert_eq!(config.address_mask(), 0x80_0000);
    assert_eq!(config.slave_latency_words(), 8);
    assert!(!config.uses_nordic_memory_map_latency());
    assert!(SpiConfig::new(0x80_0000, 9).is_none());
    assert!(SpiConfig::new(0x0100_0000, 0).is_none());
}

#[test]
fn status_register_frames_are_exact() {
    let mut status_response = vec![0; 6];
    status_response[1] = 0xa5;
    let spi = FakeSpi::with_responses([status_response]);
    let mut transport = SpiTransport::new(spi);

    assert_eq!(
        read_status(&mut transport, OPCODE_READ_STATUS_1),
        Ok(0xa5)
    );
    assert_eq!(
        write_status(&mut transport, OPCODE_WRITE_STATUS_2, 0x5a),
        Ok(())
    );
    assert_eq!(transport.config(), SpiConfig::nordic_default());
    assert_eq!(transport.spi_mut().sent.len(), 2);

    let spi = transport.into_inner();
    assert_eq!(spi.sent[0], [OPCODE_READ_STATUS_1, 0, 0, 0, 0, 0]);
    assert_eq!(spi.sent[1], [OPCODE_WRITE_STATUS_2, 0x5a]);
    assert!(spi.responses.is_empty());
}

#[test]
fn incrementing_reads_use_exact_headers_and_chunk_boundaries() {
    let first_payload: Vec<u8> = (0..MAX_SPI_DATA_LEN).map(|index| index as u8).collect();
    let second_payload = vec![0xde, 0xad];
    let spi = FakeSpi::with_responses([
        read_response(&first_payload, 0),
        read_response(&second_payload, 0),
    ]);
    let mut transport = SpiTransport::new(spi);
    let mut output = vec![0; MAX_SPI_DATA_LEN + second_payload.len()];

    assert_eq!(read(&mut transport, 0x12_3456, &mut output), Ok(()));
    assert_eq!(&output[..MAX_SPI_DATA_LEN], first_payload);
    assert_eq!(&output[MAX_SPI_DATA_LEN..], second_payload);

    let spi = transport.into_inner();
    assert_eq!(spi.sent.len(), 2);
    assert_eq!(&spi.sent[0][..5], [OPCODE_FAST_READ, 0x92, 0x34, 0x56, 0]);
    assert_eq!(spi.sent[0].len(), READ_HEADER_LEN + MAX_SPI_DATA_LEN);
    assert!(
        spi.sent[0][READ_HEADER_LEN..]
            .iter()
            .all(|byte| *byte == 0xff)
    );
    assert_eq!(&spi.sent[1][..5], [OPCODE_FAST_READ, 0x92, 0x44, 0x56, 0]);
    assert_eq!(spi.sent[1].len(), READ_HEADER_LEN + 2);
    assert_eq!(&spi.sent[1][READ_HEADER_LEN..], [0xff, 0xff]);
}

#[test]
fn memory_map_reads_clock_latency_for_each_nonincrementing_word() {
    let spi =
        FakeSpi::with_responses([read_response(&[1, 2, 3, 4], 2), read_response(&[5, 6], 2)]);
    let mut transport = SpiTransport::with_config(spi, SpiConfig::nordic_memory_map());
    let mut output = [0; 6];

    assert_eq!(read(&mut transport, 0x009000, &mut output), Ok(()));
    assert_eq!(output, [1, 2, 3, 4, 5, 6]);

    let spi = transport.into_inner();
    assert_eq!(spi.sent.len(), 2);
    assert_eq!(&spi.sent[0][..5], [OPCODE_FAST_READ, 0x00, 0x90, 0x00, 0]);
    assert_eq!(spi.sent[0].len(), READ_HEADER_LEN + 8 + 4);
    assert!(
        spi.sent[0][READ_HEADER_LEN..READ_HEADER_LEN + 8]
            .iter()
            .all(|byte| *byte == 0)
    );
    assert_eq!(&spi.sent[0][READ_HEADER_LEN + 8..], [0xff; 4]);
    assert_eq!(&spi.sent[1][..5], [OPCODE_FAST_READ, 0x00, 0x90, 0x04, 0]);
    assert_eq!(spi.sent[1].len(), READ_HEADER_LEN + 8 + 2);
}

#[test]
fn fixed_maximum_latency_keeps_one_incrementing_word_transfer() {
    let payload = vec![0x5a; HIGH_LATENCY_READ_WORD_LEN];
    let config = SpiConfig::new(INCREMENTING_ADDRESS_MASK, MAX_SLAVE_LATENCY_WORDS as u8)
        .expect("maximum fixed latency is valid");
    let spi = FakeSpi::with_responses([read_response(&payload, MAX_SLAVE_LATENCY_WORDS)]);
    let mut transport = SpiTransport::with_config(spi, config);
    let mut output = vec![0; HIGH_LATENCY_READ_WORD_LEN];

    assert_eq!(read(&mut transport, 0x12_3456, &mut output), Ok(()));
    assert_eq!(output, payload);

    let spi = transport.into_inner();
    assert_eq!(spi.sent.len(), 1);
    assert_eq!(&spi.sent[0][..5], [OPCODE_FAST_READ, 0x92, 0x34, 0x56, 0]);
    assert_eq!(
        spi.sent[0].len(),
        READ_HEADER_LEN + (MAX_SLAVE_LATENCY_WORDS * 4) + HIGH_LATENCY_READ_WORD_LEN
    );
    assert!(
        spi.sent[0][READ_HEADER_LEN..READ_HEADER_LEN + (MAX_SLAVE_LATENCY_WORDS * 4)]
            .iter()
            .all(|byte| *byte == 0)
    );
    assert!(
        spi.sent[0][READ_HEADER_LEN + (MAX_SLAVE_LATENCY_WORDS * 4)..]
            .iter()
            .all(|byte| *byte == 0xff)
    );
}

#[test]
fn writes_use_exact_headers_and_chunk_boundaries() {
    let mut data: Vec<u8> = (0..MAX_SPI_DATA_LEN).map(|index| index as u8).collect();
    data.extend_from_slice(&[0xde, 0xad]);
    let mut transport = SpiTransport::new(FakeSpi::default());

    assert_eq!(write(&mut transport, 0x12_3456, &data), Ok(()));

    let spi = transport.into_inner();
    assert_eq!(spi.sent.len(), 2);
    assert_eq!(&spi.sent[0][..4], [OPCODE_WRITE, 0x92, 0x34, 0x56]);
    assert_eq!(&spi.sent[0][4..], &data[..MAX_SPI_DATA_LEN]);
    assert_eq!(&spi.sent[1][..4], [OPCODE_WRITE, 0x92, 0x44, 0x56]);
    assert_eq!(&spi.sent[1][4..], [0xde, 0xad]);
}

#[test]
fn empty_transfers_do_not_touch_spi() {
    let mut transport = SpiTransport::new(FakeSpi::default());
    assert_eq!(read(&mut transport, 0x1234, &mut []), Ok(()));
    assert_eq!(write(&mut transport, 0x1234, &[]), Ok(()));
    assert!(transport.into_inner().sent.is_empty());
}

#[test]
fn the_largest_read_frame_fills_the_io_buffer_length() {
    assert_eq!(
        SPI_IO_BUFFER_LEN,
        READ_HEADER_LEN + MAX_SLAVE_LATENCY_WORDS * 4 + MAX_SPI_DATA_LEN
    );
}

#[test]
fn wire_addresses_stay_within_three_bytes() {
    let config = SpiConfig::nordic_default();
    for transaction in plan_read(config, 0xffff_fffc, 8) {
        let frame = read_frame(config, transaction);
        assert_eq!(frame[0], OPCODE_FAST_READ);
        assert_eq!(frame[1] & 0x80, 0x80);
    }
    assert_eq!(wire_address(config, 0x12_3456), 0x92_3456);
    assert_eq!(wire_address(config, 0xff12_3456), 0x92_3456);
}

#[test]
fn memory_map_plan_tiles_the_request_without_gaps() {
    let config = SpiConfig::nordic_memory_map();
    let plan = plan_read(config, 0x009000, 11);
    let mut next = 0;
    for transaction in &plan {
        assert_eq!(transaction.start, next);
        next += transaction.len;
    }
    assert_eq!(next, 11);
    assert_eq!(plan.len(), 3);
}
