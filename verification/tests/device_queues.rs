use std::collections::VecDeque;

use nrf7002::control::MAX_STATION_MESSAGE_LEN;
use nrf7002::device::{
    CommandSend, DEFAULT_CONTROL_FRAGMENT_LEN, DEFAULT_EVENT_FRAGMENT_LEN, Device, DeviceError,
    EventProgress, InterruptSwitch, MAX_EVENT_FRAGMENT_LEN, PendingEvent,
    RPU_COMMAND_COUNTER_START, RPU_COMMAND_TRIGGER_BITS, RPU_INTERRUPT_MCU_BIT,
    RPU_INTERRUPT_ROOT_BIT, RPU_MEM_TX_CMD_BASE, RPU_REG_INT_TO_MCU_CTRL, SYSTEM_INIT_MESSAGE_LEN,
    acknowledge_interrupt, finish_event, queue_map_is_valid, validate_complete_message,
};
use nrf7002::memory::{
    Processor, Rpu, RpuError, RpuRequest, host_offset, transfer_at, transfer_bytes, transfer_count,
    validate_access,
};
use nrf7002::protocol::{
    HOST_MESSAGE_HEADER_LEN, HPQM_INFO_LEN, HostMessageRef, HostMessageType, Hpq, HpqmInfo,
    ProtocolError, RF_PARAMS_LEN, SystemInitConfig, encode_host_message,
};

trait Bus {
    type Error;

    fn read_status(&mut self, opcode: u8) -> Result<u8, Self::Error>;

    fn write_status(&mut self, opcode: u8, value: u8) -> Result<(), Self::Error>;

    fn read(&mut self, address: u32, data: &mut [u8]) -> Result<(), Self::Error>;

    fn write(&mut self, address: u32, data: &[u8]) -> Result<(), Self::Error>;
}

trait Pause {
    fn pause(&mut self);
}

fn read<B: Bus>(
    rpu: &mut Rpu<B>,
    processor: Processor,
    address: u32,
    data: &mut [u8],
) -> Result<(), RpuError<B::Error>> {
    validate_access::<B::Error>(processor, address, data.len())?;
    for index in 0..transfer_count(data.len()) {
        let transfer = transfer_at(processor, address, data.len(), index);
        let mut wire = vec![0; transfer.wire_len];
        rpu.bus_mut()
            .read(transfer.host, &mut wire)
            .map_err(RpuError::Bus)?;
        data[transfer.start..transfer.start + transfer.len]
            .copy_from_slice(&wire[..transfer.len]);
    }
    Ok(())
}

fn write<B: Bus>(
    rpu: &mut Rpu<B>,
    processor: Processor,
    address: u32,
    data: &[u8],
) -> Result<(), RpuError<B::Error>> {
    validate_access::<B::Error>(processor, address, data.len())?;
    for index in 0..transfer_count(data.len()) {
        let transfer = transfer_at(processor, address, data.len(), index);
        rpu.bus_mut()
            .write(transfer.host, &transfer_bytes(data, transfer))
            .map_err(RpuError::Bus)?;
    }
    Ok(())
}

fn perform<B: Bus>(
    rpu: &mut Rpu<B>,
    delay: &mut dyn Pause,
    request: RpuRequest,
    data: &[u8],
    storage: &mut [u8],
) -> Result<Vec<u8>, RpuError<B::Error>> {
    match request {
        RpuRequest::ReadStatus { opcode } => {
            let status = rpu.bus_mut().read_status(opcode).map_err(RpuError::Bus)?;
            return Ok(vec![status]);
        }
        RpuRequest::WriteStatus { opcode, value } => {
            rpu.bus_mut()
                .write_status(opcode, value)
                .map_err(RpuError::Bus)?;
        }
        RpuRequest::Read {
            processor,
            address,
            len,
        } => {
            let mut bytes = vec![0; len];
            read(rpu, processor, address, &mut bytes)?;
            return Ok(bytes);
        }
        RpuRequest::ReadInto {
            processor,
            address,
            start,
            len,
        } => read(rpu, processor, address, &mut storage[start..start + len])?,
        RpuRequest::WriteWord {
            processor,
            address,
            value,
        } => write(rpu, processor, address, &value.to_le_bytes())?,
        RpuRequest::WriteFrom {
            processor,
            address,
            start,
            len,
        } => write(rpu, processor, address, &data[start..start + len])?,
        RpuRequest::WriteIndirectWord {
            processor,
            address,
            value,
        } => {
            let writes = nrf7002::memory::write_indirect::<B::Error>(processor, address, &value.to_le_bytes())?;
            for (register, word) in writes {
                write(rpu, Processor::Lmac, register, &word.to_le_bytes())?;
            }
        }
        RpuRequest::Delay { .. } => delay.pause(),
    }
    Ok(Vec::new())
}

fn initialize_for_test<B>(device: &mut Device<B>, queues: HpqmInfo, rx_command_base: u32) {
    device.queues = Some(queues);
    device.rx_command_base = rx_command_base;
    device.tx_command_base = RPU_MEM_TX_CMD_BASE;
}

fn deliver<B: Bus>(
    device: &mut Device<B>,
    delay: &mut dyn Pause,
    mut send: CommandSend,
    message: &[u8],
) -> Result<(), DeviceError<B::Error>> {
    while let Some(request) = device.send_request(&send) {
        match perform(&mut device.rpu, delay, request, message, &mut []) {
            Ok(bytes) => device.resume_send(&mut send, Ok(&bytes))?,
            Err(error) => device.resume_send(&mut send, Err(error))?,
        }
    }
    Ok(())
}

fn initialize_queues<B: Bus>(device: &mut Device<B>) -> Result<HpqmInfo, DeviceError<B::Error>> {
    let mut stage = device.initialize_queues();
    while let Some(request) = stage.request() {
        stage = match perform(&mut device.rpu, &mut NoDelay, request, &[], &mut []) {
            Ok(bytes) => device.resume_initialization(stage, Ok(&bytes))?,
            Err(error) => device.resume_initialization(stage, Err(error))?,
        };
    }
    Ok(device.queues().expect("initialization stores the queue map"))
}

fn switch_interrupts<B: Bus>(
    device: &mut Device<B>,
    mut stage: InterruptSwitch,
) -> Result<(), DeviceError<B::Error>> {
    while let Some(request) = stage.request() {
        stage = match perform(&mut device.rpu, &mut NoDelay, request, &[], &mut []) {
            Ok(bytes) => stage.resume(Ok(&bytes))?,
            Err(error) => stage.resume(Err(error))?,
        };
    }
    Ok(())
}

fn enable_interrupts<B: Bus>(device: &mut Device<B>) -> Result<(), DeviceError<B::Error>> {
    let stage = device.enable_interrupts()?;
    switch_interrupts(device, stage)
}

fn disable_interrupts<B: Bus>(device: &mut Device<B>) -> Result<(), DeviceError<B::Error>> {
    let stage = device.disable_interrupts();
    switch_interrupts(device, stage)
}

fn acknowledge<B: Bus>(device: &mut Device<B>) -> Result<(), DeviceError<B::Error>> {
    perform(&mut device.rpu, &mut NoDelay, acknowledge_interrupt(), &[], &mut [])
        .map(|_| ())
        .map_err(DeviceError::Rpu)
}

fn send_control<B: Bus>(
    device: &mut Device<B>,
    message: &[u8],
) -> Result<(), DeviceError<B::Error>> {
    let send = device.send_control(message)?;
    deliver(device, &mut NoDelay, send, message)
}

fn send_control_with_wait<B: Bus>(
    device: &mut Device<B>,
    message: &[u8],
    delay: &mut dyn Pause,
    attempts: u16,
    delay_ms: u32,
) -> Result<(), DeviceError<B::Error>> {
    let send = device.send_control_with_wait(message, attempts, delay_ms)?;
    deliver(device, delay, send, message)
}

fn send_system_init<B: Bus>(
    device: &mut Device<B>,
    config: &SystemInitConfig,
) -> Result<(), DeviceError<B::Error>> {
    let mut message = [0; SYSTEM_INIT_MESSAGE_LEN];
    let send = device.send_system_init(&mut message, config)?;
    deliver(device, &mut NoDelay, send, &message)
}

fn try_read_event<'a, B: Bus>(
    device: &mut Device<B>,
    scratch: &'a mut [u8],
) -> Result<Option<HostMessageRef<'a>>, DeviceError<B::Error>> {
    let mut read = device.try_read_event(scratch.len(), scratch.as_ptr() as usize)?;
    loop {
        let reply = perform(&mut device.rpu, &mut NoDelay, read.request(), &[], scratch);
        let progress = match reply {
            Ok(bytes) => device.resume_event(&mut read, Ok(&bytes))?,
            Err(error) => device.resume_event(&mut read, Err(error))?,
        };
        match progress {
            EventProgress::Pending => {}
            EventProgress::Idle => return Ok(None),
            EventProgress::Complete(len) => return finish_event(scratch, len).map(Some),
        }
    }
}

struct NoDelay;

impl Pause for NoDelay {
    fn pause(&mut self) {}
}

#[derive(Clone, Copy, Debug, Eq, PartialEq)]
enum TestBusError {
    Read,
    Write,
}

#[derive(Default)]
struct ScriptedBus {
    reads: VecDeque<Result<Vec<u8>, TestBusError>>,
    writes: Vec<(u32, Vec<u8>)>,
    fail_write_at: Option<usize>,
    write_attempts: usize,
}

impl ScriptedBus {
    fn with_reads(reads: impl IntoIterator<Item = Vec<u8>>) -> Self {
        Self {
            reads: reads.into_iter().map(Ok).collect(),
            ..Self::default()
        }
    }
}

impl Bus for ScriptedBus {
    type Error = TestBusError;

    fn read_status(&mut self, _opcode: u8) -> Result<u8, Self::Error> {
        Ok(0)
    }

    fn write_status(&mut self, _opcode: u8, _value: u8) -> Result<(), Self::Error> {
        Ok(())
    }

    fn read(&mut self, _address: u32, data: &mut [u8]) -> Result<(), Self::Error> {
        match self.reads.pop_front() {
            Some(Ok(response)) => {
                assert_eq!(response.len(), data.len());
                data.copy_from_slice(&response);
                Ok(())
            }
            Some(Err(error)) => Err(error),
            None => {
                data.fill(0);
                Ok(())
            }
        }
    }

    fn write(&mut self, address: u32, data: &[u8]) -> Result<(), Self::Error> {
        let attempt = self.write_attempts;
        self.write_attempts += 1;
        if self.fail_write_at == Some(attempt) {
            return Err(TestBusError::Write);
        }
        self.writes.push((address, data.to_vec()));
        Ok(())
    }
}

#[derive(Default)]
struct CountingDelay(usize);

impl Pause for CountingDelay {
    fn pause(&mut self) {
        self.0 += 1;
    }
}

fn word(value: u32) -> Vec<u8> {
    value.to_le_bytes().to_vec()
}

fn valid_queues() -> HpqmInfo {
    HpqmInfo {
        event_busy: Hpq {
            enqueue_address: 0xa400_6004,
            dequeue_address: 0xa400_6000,
        },
        event_available: Hpq {
            enqueue_address: 0xa400_6014,
            dequeue_address: 0xa400_6010,
        },
        command_busy: Hpq {
            enqueue_address: 0xa400_6024,
            dequeue_address: 0xa400_6020,
        },
        command_available: Hpq {
            enqueue_address: 0xa400_7004,
            dequeue_address: 0xa400_7000,
        },
        rx_buffer_busy: [
            Hpq {
                enqueue_address: 0xa400_6034,
                dequeue_address: 0xa400_6030,
            },
            Hpq {
                enqueue_address: 0xa400_6044,
                dequeue_address: 0xa400_6040,
            },
            Hpq {
                enqueue_address: 0xa400_6054,
                dequeue_address: 0xa400_6050,
            },
        ],
    }
}

fn queue_bytes(queues: HpqmInfo) -> Vec<u8> {
    let all = [
        queues.event_busy,
        queues.event_available,
        queues.command_busy,
        queues.command_available,
        queues.rx_buffer_busy[0],
        queues.rx_buffer_busy[1],
        queues.rx_buffer_busy[2],
    ];
    let mut bytes = Vec::with_capacity(HPQM_INFO_LEN);
    for queue in all {
        bytes.extend_from_slice(&queue.enqueue_address.to_le_bytes());
        bytes.extend_from_slice(&queue.dequeue_address.to_le_bytes());
    }
    bytes
}

fn test_device(bus: ScriptedBus) -> Device<ScriptedBus> {
    let mut device = Device::new(bus);
    initialize_for_test(&mut device, valid_queues(), 0xb000_2000);
    device
}

fn message(payload: &[u8], resubmit: bool) -> Vec<u8> {
    let mut bytes = vec![0; HOST_MESSAGE_HEADER_LEN + payload.len()];
    let len =
        encode_host_message(&mut bytes, HostMessageType::System, resubmit, payload).unwrap();
    bytes.truncate(len);
    bytes
}

#[test]
fn initializes_exact_queue_map_and_command_bases() {
    let queues = valid_queues();
    let bus = ScriptedBus::with_reads([queue_bytes(queues), word(0xb000_2000)]);
    let mut device = Device::new(bus);
    assert_eq!(initialize_queues(&mut device).unwrap(), queues);
    assert_eq!(device.queues(), Some(queues));
    assert_eq!(device.rx_command_base(), Some(0xb000_2000));
    assert_eq!(device.tx_command_base(), Some(RPU_MEM_TX_CMD_BASE));
    assert!(!device.recovery_required());

    for invalid_base in [0, 0xaaaa_aaaa] {
        let bus = ScriptedBus::with_reads([queue_bytes(queues), word(invalid_base)]);
        let mut device = Device::new(bus);
        assert!(matches!(
            initialize_queues(&mut device),
            Err(DeviceError::InvalidQueueMap)
        ));
    }

    let mut invalid = queues;
    invalid.command_busy.enqueue_address = 0;
    let bus = ScriptedBus::with_reads([queue_bytes(invalid)]);
    let mut device = Device::new(bus);
    assert!(matches!(
        initialize_queues(&mut device),
        Err(DeviceError::InvalidQueueMap)
    ));
}

#[test]
fn interrupt_registers_are_enabled_disabled_and_acknowledged_exactly() {
    let root = 0x1234_5678;
    let bus = ScriptedBus::with_reads([word(root), word(root | RPU_INTERRUPT_ROOT_BIT)]);
    let mut device = test_device(bus);
    enable_interrupts(&mut device).unwrap();
    disable_interrupts(&mut device).unwrap();
    acknowledge(&mut device).unwrap();
    let bus = device.into_inner();
    let values: Vec<u32> = bus
        .writes
        .iter()
        .filter(|(_, bytes)| bytes.len() == 4)
        .map(|(_, bytes)| u32::from_le_bytes(bytes.as_slice().try_into().unwrap()))
        .collect();
    assert!(values.contains(&(root | RPU_INTERRUPT_ROOT_BIT)));
    assert!(values.contains(&(root & !RPU_INTERRUPT_ROOT_BIT)));
    assert!(values.contains(&RPU_INTERRUPT_MCU_BIT));
    assert!(values.contains(&0));

    let mut blocked = test_device(ScriptedBus::default());
    blocked.recovery_required = true;
    assert!(matches!(
        enable_interrupts(&mut blocked),
        Err(DeviceError::RecoveryRequired)
    ));
}

#[test]
fn single_fragment_control_distinguishes_empty_and_uncertain_queues() {
    let command_address = 0xb000_5000;
    let command = message(&[1, 2], false);
    let mut device = test_device(ScriptedBus::with_reads([word(command_address)]));
    send_control(&mut device, &command).unwrap();
    assert_eq!(device.command_counter, RPU_COMMAND_COUNTER_START + 1);
    assert!(!device.recovery_required());

    let mut empty = test_device(ScriptedBus::with_reads([word(0)]));
    assert!(matches!(
        send_control(&mut empty, &command),
        Err(DeviceError::CommandQueueEmpty)
    ));
    assert!(!empty.recovery_required());

    let mut corrupt = test_device(ScriptedBus::with_reads([word(0xaaaa_aaaa)]));
    assert!(matches!(
        send_control(&mut corrupt, &command),
        Err(DeviceError::CommandDeliveryUncertain)
    ));
    assert!(corrupt.recovery_required());

    let mut fragmented = test_device(ScriptedBus::default());
    fragmented
        .set_fragment_limits(HOST_MESSAGE_HEADER_LEN, DEFAULT_EVENT_FRAGMENT_LEN)
        .unwrap();
    assert!(matches!(
        send_control(&mut fragmented, &command),
        Err(DeviceError::CommandNeedsWait)
    ));
}

#[test]
fn reliable_control_waits_fragments_and_marks_partial_timeout_uncertain() {
    let command = message(&[1, 2, 3, 4, 5, 6, 7, 8], false);
    let mut delay = CountingDelay::default();

    let mut zero_attempts = test_device(ScriptedBus::default());
    assert!(matches!(
        send_control_with_wait(&mut zero_attempts, &command, &mut delay, 0, 7),
        Err(DeviceError::CommandQueueTimeout)
    ));

    let mut timeout = test_device(ScriptedBus::with_reads([word(0), word(0)]));
    assert!(matches!(
        send_control_with_wait(&mut timeout, &command, &mut delay, 2, 7),
        Err(DeviceError::CommandQueueTimeout)
    ));
    assert_eq!(delay.0, 2);
    assert!(!timeout.recovery_required());

    let first = 0xb000_5000;
    let second = 0xb000_5100;
    let mut success = test_device(ScriptedBus::with_reads([word(first), word(second)]));
    success
        .set_fragment_limits(HOST_MESSAGE_HEADER_LEN, DEFAULT_EVENT_FRAGMENT_LEN)
        .unwrap();
    send_control_with_wait(&mut success, &command, &mut delay, 2, 7).unwrap();
    assert_eq!(success.command_counter, RPU_COMMAND_COUNTER_START + 2);
    assert!(!success.recovery_required());

    let mut partial = test_device(ScriptedBus::with_reads([word(first), word(0), word(0)]));
    partial
        .set_fragment_limits(HOST_MESSAGE_HEADER_LEN, DEFAULT_EVENT_FRAGMENT_LEN)
        .unwrap();
    assert!(matches!(
        send_control_with_wait(&mut partial, &command, &mut delay, 2, 7),
        Err(DeviceError::CommandDeliveryUncertain)
    ));
    assert!(partial.recovery_required());
}

#[test]
fn control_bus_failures_after_dequeue_require_recovery() {
    let command = message(&[1, 2], false);
    let mut bus = ScriptedBus::with_reads([word(0xb000_5000)]);
    bus.fail_write_at = Some(1);
    let mut device = test_device(bus);
    assert!(matches!(
        send_control(&mut device, &command),
        Err(DeviceError::CommandDeliveryUncertain)
    ));
    assert!(device.recovery_required());

    let mut bus = ScriptedBus::default();
    bus.reads.push_back(Err(TestBusError::Read));
    let mut device = test_device(bus);
    assert!(matches!(
        send_control(&mut device, &command),
        Err(DeviceError::CommandDeliveryUncertain)
    ));
    assert!(device.recovery_required());
}

#[test]
fn complete_and_missing_events_follow_the_queue_contract() {
    let event_address = 0xb000_5000;
    let event = message(&[9, 8, 7, 6], true);
    let bus = ScriptedBus::with_reads([
        word(event_address),
        event[..HOST_MESSAGE_HEADER_LEN].to_vec(),
        event.clone(),
    ]);
    let mut device = test_device(bus);
    let mut scratch = [0u8; 64];
    let received = try_read_event(&mut device, &mut scratch)
        .unwrap()
        .unwrap();
    assert_eq!(received.payload, &[9, 8, 7, 6]);
    assert!(received.resubmit);
    assert!(device.pending_event.is_none());
    let bus = device.into_inner();
    let written_values: Vec<u32> = bus
        .writes
        .iter()
        .filter(|(_, bytes)| bytes.len() == 4)
        .map(|(_, bytes)| u32::from_le_bytes(bytes.as_slice().try_into().unwrap()))
        .collect();
    assert!(written_values.contains(&event_address));
    assert!(written_values.contains(&RPU_INTERRUPT_MCU_BIT));
    let release_address = host_offset(
        Processor::Umac,
        valid_queues().event_available.enqueue_address,
    )
    .unwrap();
    assert!(
        bus.writes.iter().any(
            |(address, bytes)| *address == release_address && bytes == &word(event_address)
        )
    );

    let mut empty = test_device(ScriptedBus::with_reads([word(0)]));
    assert!(
        try_read_event(&mut empty, &mut scratch)
            .unwrap()
            .is_none()
    );
}

#[test]
fn malformed_and_oversized_events_are_released_and_bounded() {
    let event_address = 0xb000_5000;
    let mut short_header = [0u8; HOST_MESSAGE_HEADER_LEN];
    short_header[..4].copy_from_slice(&((HOST_MESSAGE_HEADER_LEN - 1) as u32).to_le_bytes());
    short_header[4..8].copy_from_slice(&1u32.to_le_bytes());
    let mut malformed = test_device(ScriptedBus::with_reads([
        word(event_address),
        short_header.to_vec(),
    ]));
    assert!(matches!(
        try_read_event(&mut malformed, &mut [0; 64]),
        Err(DeviceError::Protocol(ProtocolError::InvalidLength))
    ));

    let event = message(&[1; 8], false);
    let mut oversized = test_device(ScriptedBus::with_reads([
        word(event_address),
        event[..HOST_MESSAGE_HEADER_LEN].to_vec(),
    ]));
    assert!(matches!(
        try_read_event(&mut oversized, &mut [0; HOST_MESSAGE_HEADER_LEN + 2]),
        Err(DeviceError::EventTooLarge {
            declared,
            capacity
        }) if declared == event.len() && capacity == HOST_MESSAGE_HEADER_LEN + 2
    ));
    assert!(oversized.pending_event.is_none());
}

#[test]
fn fragmented_events_resume_wait_reject_changed_buffers_and_discard() {
    let first_address = 0xb000_5000;
    let second_address = 0xb000_5100;
    let event = message(&[1, 2, 3, 4, 5, 6, 7, 8], true);
    let first_count = HOST_MESSAGE_HEADER_LEN;
    let bus = ScriptedBus::with_reads([
        word(first_address),
        event[..HOST_MESSAGE_HEADER_LEN].to_vec(),
        event[..first_count].to_vec(),
        word(0),
        word(second_address),
        event[first_count..].to_vec(),
    ]);
    let mut device = test_device(bus);
    device
        .set_fragment_limits(DEFAULT_CONTROL_FRAGMENT_LEN, first_count)
        .unwrap();
    let mut scratch = [0u8; 64];
    assert!(
        try_read_event(&mut device, &mut scratch)
            .unwrap()
            .is_none()
    );
    assert!(
        try_read_event(&mut device, &mut scratch)
            .unwrap()
            .is_none()
    );
    let received = try_read_event(&mut device, &mut scratch)
        .unwrap()
        .unwrap();
    assert_eq!(received.payload, &[1, 2, 3, 4, 5, 6, 7, 8]);

    let bus = ScriptedBus::with_reads([
        word(first_address),
        event[..HOST_MESSAGE_HEADER_LEN].to_vec(),
        event[..first_count].to_vec(),
    ]);
    let mut changed = test_device(bus);
    changed
        .set_fragment_limits(DEFAULT_CONTROL_FRAGMENT_LEN, first_count)
        .unwrap();
    let mut original = [0u8; 64];
    try_read_event(&mut changed, &mut original).unwrap();
    let mut replacement = [0u8; 64];
    assert!(matches!(
        try_read_event(&mut changed, &mut replacement),
        Err(DeviceError::EventBufferChanged)
    ));
    assert!(changed.pending_event.unwrap().discard);
}

#[test]
fn oversized_fragmented_event_is_discarded_before_the_next_queue_read() {
    let first_address = 0xb000_5000;
    let second_address = 0xb000_5100;
    let event = message(&[1; 20], true);
    let fragment_len = 16;
    let bus = ScriptedBus::with_reads([
        word(first_address),
        event[..HOST_MESSAGE_HEADER_LEN].to_vec(),
        word(second_address),
        word(0),
    ]);
    let mut device = test_device(bus);
    device
        .set_fragment_limits(DEFAULT_CONTROL_FRAGMENT_LEN, fragment_len)
        .unwrap();
    let mut scratch = [0u8; 20];
    let capacity = scratch.len();
    assert!(matches!(
        try_read_event(&mut device, &mut scratch),
        Err(DeviceError::EventTooLarge { declared, capacity: actual })
            if declared == event.len() && actual == capacity
    ));
    assert!(device.pending_event.unwrap().discard);
    assert!(
        try_read_event(&mut device, &mut scratch)
            .unwrap()
            .is_none()
    );
    assert!(device.pending_event.is_none());
}

#[test]
fn pending_fragment_acknowledgement_tracks_actual_queue_removal() {
    let mut scratch = [0u8; 32];
    let event = message(&[1, 2, 3, 4], false);
    scratch[..HOST_MESSAGE_HEADER_LEN].copy_from_slice(&event[..HOST_MESSAGE_HEADER_LEN]);

    let mut waiting = test_device(ScriptedBus::with_reads([word(0)]));
    waiting.pending_event = Some(PendingEvent {
        declared: event.len(),
        copied: HOST_MESSAGE_HEADER_LEN,
        resubmit: false,
        scratch_address: scratch.as_mut_ptr() as usize,
        discard: false,
    });
    assert!(
        try_read_event(&mut waiting, &mut scratch)
            .unwrap()
            .is_none()
    );
    assert!(waiting.into_inner().writes.is_empty());

    let event_address = 0xb000_5100;
    let mut completing = test_device(ScriptedBus::with_reads([
        word(event_address),
        event[HOST_MESSAGE_HEADER_LEN..].to_vec(),
    ]));
    completing.pending_event = Some(PendingEvent {
        declared: event.len(),
        copied: HOST_MESSAGE_HEADER_LEN,
        resubmit: false,
        scratch_address: scratch.as_mut_ptr() as usize,
        discard: false,
    });
    assert!(
        try_read_event(&mut completing, &mut scratch)
            .unwrap()
            .is_some()
    );
    let writes = completing.into_inner().writes;
    assert!(
        writes
            .iter()
            .any(|(_, bytes)| bytes == &word(event_address))
    );
    assert!(
        writes
            .iter()
            .any(|(_, bytes)| bytes == &word(RPU_INTERRUPT_MCU_BIT))
    );
}

#[test]
fn constructor_discard_and_system_init_boundaries_are_exact() {
    let mut fresh = Device::new(ScriptedBus::default());
    assert!(!fresh.recovery_required());
    assert!(!fresh.discard_pending_event());

    let config = SystemInitConfig::new([2, 0, 0, 0, 0, 1], [0; RF_PARAMS_LEN]);
    let mut initialized = test_device(ScriptedBus::default());
    assert!(matches!(
        send_system_init(&mut initialized, &config),
        Err(DeviceError::CommandQueueEmpty)
    ));
}

#[test]
fn queue_validation_rejects_zero_unaligned_and_sentinel_addresses() {
    let valid = valid_queues();
    assert!(queue_map_is_valid(&valid));
    let mut invalid = valid;
    invalid.event_busy.enqueue_address = 0;
    assert!(!queue_map_is_valid(&invalid));
    invalid.event_busy.enqueue_address = 5;
    assert!(!queue_map_is_valid(&invalid));
    invalid.event_busy.enqueue_address = 0xaaaa_aaaa;
    assert!(!queue_map_is_valid(&invalid));
}

#[test]
fn complete_message_length_is_checked() {
    let mut bytes = [0u8; 32];
    let len = encode_host_message(&mut bytes, HostMessageType::System, false, &[1, 2]).unwrap();
    assert!(validate_complete_message::<()>(&bytes[..len]).is_ok());
    assert!(validate_complete_message::<()>(&bytes[..len - 1]).is_err());
    assert!(validate_complete_message::<()>(&[0; HOST_MESSAGE_HEADER_LEN - 1]).is_err());
    let mut too_large = vec![0; MAX_STATION_MESSAGE_LEN + 1];
    let declared = too_large.len() as u32;
    too_large[..4].copy_from_slice(&declared.to_le_bytes());
    assert!(validate_complete_message::<()>(&too_large).is_err());
}

#[test]
fn fragment_limits_match_the_pinned_nordic_interface() {
    let mut device = Device::new(());
    assert!(
        device
            .set_fragment_limits(DEFAULT_CONTROL_FRAGMENT_LEN, MAX_EVENT_FRAGMENT_LEN)
            .is_ok()
    );
    assert!(
        device
            .set_fragment_limits(DEFAULT_CONTROL_FRAGMENT_LEN + 1, MAX_EVENT_FRAGMENT_LEN)
            .is_err()
    );
    assert!(
        device
            .set_fragment_limits(DEFAULT_CONTROL_FRAGMENT_LEN, MAX_EVENT_FRAGMENT_LEN + 1)
            .is_err()
    );
}

#[test]
fn pending_event_can_be_changed_to_discard() {
    let mut device = Device::new(());
    device.pending_event = Some(PendingEvent {
        declared: 2000,
        copied: 1000,
        resubmit: true,
        scratch_address: 1,
        discard: false,
    });
    assert!(device.discard_pending_event());
    assert!(device.pending_event.unwrap().discard);
}

#[test]
fn reset_clears_recovery_and_queue_state() {
    let mut device = Device::new(());
    device.recovery_required = true;
    device.tx_command_base = RPU_MEM_TX_CMD_BASE;
    device.reset_queue_state();
    assert!(!device.recovery_required());
    assert_eq!(device.tx_command_base(), None);
}

#[test]
fn tx_command_area_is_a_fixed_address() {
    assert_eq!(RPU_MEM_TX_CMD_BASE, 0xb000_00b8);
}

#[test]
fn a_command_trigger_advances_the_counter() {
    let mut device = Device::new(ScriptedBus::default());
    let counter = device.command_counter;
    assert_eq!(
        device.trigger_command(),
        RpuRequest::WriteWord {
            processor: Processor::Lmac,
            address: RPU_REG_INT_TO_MCU_CTRL,
            value: counter | RPU_COMMAND_TRIGGER_BITS,
        }
    );
    device.command_triggered();
    assert_eq!(device.command_counter, counter + 1);
}

#[test]
fn commands_need_initialized_queues_and_no_pending_recovery() {
    let command = message(&[1, 2], false);
    let mut device = Device::new(ScriptedBus::default());
    assert!(matches!(
        send_control(&mut device, &command),
        Err(DeviceError::NotInitialized)
    ));
    let mut device = test_device(ScriptedBus::default());
    device.recovery_required = true;
    assert!(matches!(
        send_control(&mut device, &command),
        Err(DeviceError::RecoveryRequired)
    ));
    assert!(matches!(
        try_read_event(&mut device, &mut [0; 64]),
        Err(DeviceError::RecoveryRequired)
    ));
}

#[test]
fn a_discarded_event_is_drained_before_the_next_one_is_read() {
    let old = message(&[1; 12], true);
    let next = message(&[7, 7], true);
    let fragment_len = HOST_MESSAGE_HEADER_LEN;
    let bus = ScriptedBus::with_reads([
        word(0xb000_5000),
        old[..HOST_MESSAGE_HEADER_LEN].to_vec(),
        old[..fragment_len].to_vec(),
        word(0xb000_5100),
        word(0xb000_5200),
        next[..HOST_MESSAGE_HEADER_LEN].to_vec(),
        next[..fragment_len].to_vec(),
        word(0xb000_5300),
        vec![7, 7, 0, 0],
    ]);
    let mut device = test_device(bus);
    device
        .set_fragment_limits(DEFAULT_CONTROL_FRAGMENT_LEN, fragment_len)
        .unwrap();
    let mut scratch = [0u8; 64];
    assert!(try_read_event(&mut device, &mut scratch).unwrap().is_none());
    assert!(device.discard_pending_event());
    assert!(try_read_event(&mut device, &mut scratch).unwrap().is_none());
    let received = try_read_event(&mut device, &mut scratch).unwrap().unwrap();
    assert_eq!(received.payload, &[7, 7]);
}
