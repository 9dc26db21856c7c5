use std::collections::VecDeque;

use nrf7002::bus::{
    OPCODE_READ_STATUS_1, OPCODE_WRITE_STATUS_2, RPU_AWAKE, RPU_READY, RPU_WAKE_REQUEST,
};
use nrf7002::memory::{
    AddressError, HOST_GRAM_BASE, HOST_LMAC_DIRECT_BASE, HOST_PBUS_BASE, HOST_PKTRAM_BASE,
    HOST_SBUS_BASE, HOST_UMAC_DIRECT_BASE, MAX_BUS_CHUNK, Processor, ProcessorReset,
    RPU_ADDR_GRAM_END, RPU_ADDR_GRAM_START, RPU_ADDR_LMAC_RET_END, RPU_ADDR_LMAC_RET_START,
    RPU_ADDR_LMAC_ROM_END, RPU_ADDR_LMAC_ROM_START, RPU_ADDR_LMAC_SCRATCH_END,
    RPU_ADDR_LMAC_SCRATCH_START, RPU_ADDR_MASK_OFFSET, RPU_ADDR_PBUS_END, RPU_ADDR_PBUS_START,
    RPU_ADDR_PKTRAM_END, RPU_ADDR_PKTRAM_START, RPU_ADDR_SBUS_END, RPU_ADDR_SBUS_START,
    RPU_ADDR_UMAC_RET_END, RPU_ADDR_UMAC_RET_START, RPU_ADDR_UMAC_ROM_END, RPU_ADDR_UMAC_ROM_START,
    RPU_ADDR_UMAC_SCRATCH_END, RPU_ADDR_UMAC_SCRATCH_START, RPU_CLOCK_ENABLE,
    RPU_MCU_CORE_INDIRECT_BASE, RPU_REG_CLOCK_ENABLE, RPU_REG_MIPS_MCU2_CONTROL,
    RPU_REG_MIPS_MCU2_SYS_CORE_MEM_CTRL, RPU_REG_MIPS_MCU2_SYS_CORE_MEM_WDATA,
    RPU_REG_MIPS_MCU2_WAIT_STATUS, RPU_REG_MIPS_MCU_CONTROL, RPU_REG_MIPS_MCU_SYS_CORE_MEM_CTRL,
    RPU_REG_MIPS_MCU_SYS_CORE_MEM_WDATA, RPU_REG_MIPS_MCU_WAIT_STATUS, RegisterPoll, Rpu, RpuError,
    RpuRequest, Wake, align4, checked_range, enable_clocks, firmware_ready, host_offset,
    transfer_at, transfer_bytes, transfer_count, validate_access,
};

trait Bus {
    type Error;

    fn read_status(&mut self, opcode: u8) -> Result<u8, Self::Error>;

    fn write_status(&mut self, opcode: u8, value: u8) -> Result<(), Self::Error>;

    fn read(&mut self, address: u32, data: &mut [u8]) -> Result<(), Self::Error>;

    fn write(&mut self, address: u32, data: &[u8]) -> Result<(), Self::Error>;
}

trait Pause {
    fn pause(&mut self);
}

fn read<B: Bus>(
    rpu: &mut Rpu<B>,
    processor: Processor,
    address: u32,
    data: &mut [u8],
) -> Result<(), RpuError<B::Error>> {
    validate_access::<B::Error>(processor, address, data.len())?;
    for index in 0..transfer_count(data.len()) {
        let transfer = transfer_at(processor, address, data.len(), index);
        let mut wire = vec![0; transfer.wire_len];
        rpu.bus_mut()
            .read(transfer.host, &mut wire)
            .map_err(RpuError::Bus)?;
        data[transfer.start..transfer.start + transfer.len]
            .copy_from_slice(&wire[..transfer.len]);
    }
    Ok(())
}

fn write<B: Bus>(
    rpu: &mut Rpu<B>,
    processor: Processor,
    address: u32,
    data: &[u8],
) -> Result<(), RpuError<B::Error>> {
    validate_access::<B::Error>(processor, address, data.len())?;
    for index in 0..transfer_count(data.len()) {
        let transfer = transfer_at(processor, address, data.len(), index);
        rpu.bus_mut()
            .write(transfer.host, &transfer_bytes(data, transfer))
            .map_err(RpuError::Bus)?;
    }
    Ok(())
}

fn perform<B: Bus>(
    rpu: &mut Rpu<B>,
    delay: &mut dyn Pause,
    request: RpuRequest,
    data: &[u8],
    storage: &mut [u8],
) -> Result<Vec<u8>, RpuError<B::Error>> {
    match request {
        RpuRequest::ReadStatus { opcode } => {
            let status = rpu.bus_mut().read_status(opcode).map_err(RpuError::Bus)?;
            return Ok(vec![status]);
        }
        RpuRequest::WriteStatus { opcode, value } => {
            rpu.bus_mut()
                .write_status(opcode, value)
                .map_err(RpuError::Bus)?;
        }
        RpuRequest::Read {
            processor,
            address,
            len,
        } => {
            let mut bytes = vec![0; len];
            read(rpu, processor, address, &mut bytes)?;
            return Ok(bytes);
        }
        RpuRequest::ReadInto {
            processor,
            address,
            start,
            len,
        } => read(rpu, processor, address, &mut storage[start..start + len])?,
        RpuRequest::WriteWord {
            processor,
            address,
            value,
        } => write(rpu, processor, address, &value.to_le_bytes())?,
        RpuRequest::WriteFrom {
            processor,
            address,
            start,
            len,
        } => write(rpu, processor, address, &data[start..start + len])?,
        RpuRequest::WriteIndirectWord {
            processor,
            address,
            value,
        } => {
            let writes = nrf7002::memory::write_indirect::<B::Error>(processor, address, &value.to_le_bytes())?;
            for (register, word) in writes {
                write(rpu, Processor::Lmac, register, &word.to_le_bytes())?;
            }
        }
        RpuRequest::Delay { .. } => delay.pause(),
    }
    Ok(Vec::new())
}

fn wake<B: Bus>(
    rpu: &mut Rpu<B>,
    delay: &mut dyn Pause,
    attempts: u16,
) -> Result<(), RpuError<B::Error>> {
    let mut wake = Wake::new(attempts);
    while let Some(request) = wake.request()? {
        match perform(rpu, delay, request, &[], &mut []) {
            Ok(bytes) => wake.resume(Ok(&bytes))?,
            Err(error) => wake.resume(Err(error))?,
        }
    }
    Ok(())
}

fn poll_register<B: Bus>(
    rpu: &mut Rpu<B>,
    address: u32,
    mask: u32,
    expected: u32,
    delay: &mut dyn Pause,
    attempts: u16,
    delay_ms: u32,
) -> Result<(), RpuError<B::Error>> {
    let mut poll = RegisterPoll::new(address, mask, expected, attempts, delay_ms);
    while let Some(request) = poll.request()? {
        match perform(rpu, delay, request, &[], &mut []) {
            Ok(bytes) => poll.resume(Ok(&bytes))?,
            Err(error) => poll.resume(Err(error))?,
        }
    }
    Ok(())
}

fn reset_processor<B: Bus>(
    rpu: &mut Rpu<B>,
    processor: Processor,
    delay: &mut dyn Pause,
) -> Result<(), RpuError<B::Error>> {
    let mut reset = ProcessorReset::new(processor);
    while let Some(request) = reset.request()? {
        match perform(rpu, delay, request, &[], &mut []) {
            Ok(bytes) => reset.resume(Ok(&bytes))?,
            Err(error) => reset.resume(Err(error))?,
        }
    }
    Ok(())
}

fn read_u32<B: Bus>(
    rpu: &mut Rpu<B>,
    processor: Processor,
    address: u32,
) -> Result<u32, RpuError<B::Error>> {
    let mut bytes = [0; 4];
    read(rpu, processor, address, &mut bytes)?;
    Ok(u32::from_le_bytes(bytes))
}

fn write_u32<B: Bus>(
    rpu: &mut Rpu<B>,
    processor: Processor,
    address: u32,
    value: u32,
) -> Result<(), RpuError<B::Error>> {
    write(rpu, processor, address, &value.to_le_bytes())
}

fn write_core<B: Bus>(
    rpu: &mut Rpu<B>,
    processor: Processor,
    address: u32,
    data: &[u8],
) -> Result<(), RpuError<B::Error>> {
    for (register, value) in nrf7002::memory::write_indirect::<B::Error>(processor, address, data)? {
        write_u32(rpu, Processor::Lmac, register, value)?;
    }
    Ok(())
}

#[derive(Default)]
struct TestBus {
    status_1: VecDeque<u8>,
    status_2: VecDeque<u8>,
    status_writes: Vec<(u8, u8)>,
    read_responses: VecDeque<Vec<u8>>,
    register_values: Vec<(u32, u32)>,
    reads: Vec<(u32, usize)>,
    writes: Vec<(u32, Vec<u8>)>,
}

impl Bus for TestBus {
    type Error = ();

    fn read_status(&mut self, opcode: u8) -> Result<u8, Self::Error> {
        let queue = if opcode == OPCODE_READ_STATUS_1 {
            &mut self.status_1
        } else {
            &mut self.status_2
        };
        Ok(queue.pop_front().unwrap_or(0))
    }

    fn write_status(&mut self, opcode: u8, value: u8) -> Result<(), Self::Error> {
        self.status_writes.push((opcode, value));
        Ok(())
    }

    fn read(&mut self, address: u32, data: &mut [u8]) -> Result<(), Self::Error> {
        self.reads.push((address, data.len()));
        if let Some(response) = self.read_responses.pop_front() {
            assert_eq!(response.len(), data.len());
            data.copy_from_slice(&response);
            return Ok(());
        }
        let value = self
            .register_values
            .iter()
            .find_map(|(candidate, value)| (*candidate == address).then_some(*value))
            .unwrap_or(0);
        data.copy_from_slice(&value.to_le_bytes()[..data.len()]);
        Ok(())
    }

    fn write(&mut self, address: u32, data: &[u8]) -> Result<(), Self::Error> {
        self.writes.push((address, data.to_vec()));
        Ok(())
    }
}

#[derive(Default)]
struct CountingDelay(usize);

impl Pause for CountingDelay {
    fn pause(&mut self) {
        self.0 += 1;
    }
}

#[test]
fn bus_chunks_match_the_pinned_nordic_loader() {
    let chunk = core::hint::black_box(MAX_BUS_CHUNK);
    assert_eq!(chunk, 4096);
    assert_eq!(chunk & 3, 0);
}

#[test]
fn maps_all_public_regions() {
    for (start, end, base) in [
        (RPU_ADDR_SBUS_START, RPU_ADDR_SBUS_END, HOST_SBUS_BASE),
        (RPU_ADDR_PBUS_START, RPU_ADDR_PBUS_END, HOST_PBUS_BASE),
        (RPU_ADDR_GRAM_START, RPU_ADDR_GRAM_END, HOST_GRAM_BASE),
        (RPU_ADDR_PKTRAM_START, RPU_ADDR_PKTRAM_END, HOST_PKTRAM_BASE),
    ] {
        assert_eq!(
            host_offset(Processor::Lmac, start),
            Ok(base + (start & RPU_ADDR_MASK_OFFSET))
        );
        assert_eq!(
            host_offset(Processor::Umac, end),
            Ok(base + (end & RPU_ADDR_MASK_OFFSET))
        );
    }

    for (processor, start, end, base) in [
        (
            Processor::Lmac,
            RPU_ADDR_LMAC_ROM_START,
            RPU_ADDR_LMAC_ROM_END,
            HOST_LMAC_DIRECT_BASE,
        ),
        (
            Processor::Lmac,
            RPU_ADDR_LMAC_RET_START,
            RPU_ADDR_LMAC_RET_END,
            HOST_LMAC_DIRECT_BASE,
        ),
        (
            Processor::Lmac,
            RPU_ADDR_LMAC_SCRATCH_START,
            RPU_ADDR_LMAC_SCRATCH_END,
            HOST_LMAC_DIRECT_BASE,
        ),
        (
            Processor::Umac,
            RPU_ADDR_UMAC_ROM_START,
            RPU_ADDR_UMAC_ROM_END,
            HOST_UMAC_DIRECT_BASE,
        ),
        (
            Processor::Umac,
            RPU_ADDR_UMAC_RET_START,
            RPU_ADDR_UMAC_RET_END,
            HOST_UMAC_DIRECT_BASE,
        ),
        (
            Processor::Umac,
            RPU_ADDR_UMAC_SCRATCH_START,
            RPU_ADDR_UMAC_SCRATCH_END,
            HOST_UMAC_DIRECT_BASE,
        ),
    ] {
        assert_eq!(
            host_offset(processor, start),
            Ok(base + (start & RPU_ADDR_MASK_OFFSET))
        );
        assert_eq!(
            host_offset(processor, end),
            Ok(base + (end & RPU_ADDR_MASK_OFFSET))
        );
    }
}

#[test]
fn processor_local_ranges_do_not_alias() {
    assert!(host_offset(Processor::Lmac, 0x8010_0000).is_err());
    assert!(host_offset(Processor::Umac, 0x8007_0000).is_err());
    assert_eq!(
        host_offset(Processor::Lmac, 0),
        Err(AddressError::Unsupported(0))
    );
    assert_eq!(Processor::Lmac.control_register(), RPU_REG_MIPS_MCU_CONTROL);
    assert_eq!(
        Processor::Umac.control_register(),
        RPU_REG_MIPS_MCU2_CONTROL
    );
    assert_eq!(
        Processor::Lmac.wait_register(),
        RPU_REG_MIPS_MCU_WAIT_STATUS
    );
    assert_eq!(
        Processor::Umac.wait_register(),
        RPU_REG_MIPS_MCU2_WAIT_STATUS
    );
    assert_eq!(
        Processor::Lmac.indirect_control_register(),
        RPU_REG_MIPS_MCU_SYS_CORE_MEM_CTRL
    );
    assert_eq!(
        Processor::Umac.indirect_control_register(),
        RPU_REG_MIPS_MCU2_SYS_CORE_MEM_CTRL
    );
    assert_eq!(
        Processor::Lmac.indirect_data_register(),
        RPU_REG_MIPS_MCU_SYS_CORE_MEM_WDATA
    );
    assert_eq!(
        Processor::Umac.indirect_data_register(),
        RPU_REG_MIPS_MCU2_SYS_CORE_MEM_WDATA
    );
}

#[test]
fn wake_and_firmware_ready_poll_exact_status_bits() {
    let bus = TestBus {
        status_1: [0, RPU_AWAKE, RPU_READY].into(),
        status_2: [0, RPU_WAKE_REQUEST].into(),
        ..TestBus::default()
    };
    let mut rpu = Rpu::new(bus);
    let mut delay = CountingDelay::default();
    assert!(wake(&mut rpu, &mut delay, 3).is_ok());
    assert_eq!(delay.0, 2);
    assert!(firmware_ready(rpu.bus_mut().read_status(OPCODE_READ_STATUS_1).unwrap()));
    assert_eq!(
        rpu.bus_mut().status_writes,
        [(OPCODE_WRITE_STATUS_2, RPU_WAKE_REQUEST)]
    );

    let mut rpu = Rpu::new(TestBus::default());
    let mut delay = CountingDelay::default();
    assert!(matches!(
        wake(&mut rpu, &mut delay, 2),
        Err(RpuError::Timeout)
    ));
    assert_eq!(delay.0, 2);

    let bus = TestBus {
        status_2: [RPU_WAKE_REQUEST].into(),
        ..TestBus::default()
    };
    let mut rpu = Rpu::new(bus);
    let mut delay = CountingDelay::default();
    assert!(matches!(
        wake(&mut rpu, &mut delay, 2),
        Err(RpuError::Timeout)
    ));
    assert_eq!(delay.0, 2);
}

#[test]
fn reads_and_writes_chunked_words_and_zero_padded_tails() {
    let first: Vec<u8> = (0..MAX_BUS_CHUNK).map(|index| index as u8).collect();
    let second = vec![0x10, 0x20, 0x30, 0x40];
    let bus = TestBus {
        read_responses: [first.clone(), second.clone(), vec![0xaa, 0xbb, 0xcc, 0xdd]].into(),
        ..TestBus::default()
    };
    let mut rpu = Rpu::new(bus);
    let mut output = vec![0; MAX_BUS_CHUNK + 7];
    assert!(read(&mut rpu, Processor::Lmac, RPU_ADDR_LMAC_RET_START, &mut output).is_ok());
    assert_eq!(&output[..MAX_BUS_CHUNK], first);
    assert_eq!(&output[MAX_BUS_CHUNK..MAX_BUS_CHUNK + 4], second);
    assert_eq!(&output[MAX_BUS_CHUNK + 4..], &[0xaa, 0xbb, 0xcc]);
    let expected_base =
        HOST_LMAC_DIRECT_BASE + (RPU_ADDR_LMAC_RET_START & RPU_ADDR_MASK_OFFSET);
    assert_eq!(
        rpu.bus_mut().reads,
        [
            (expected_base, MAX_BUS_CHUNK),
            (expected_base + MAX_BUS_CHUNK as u32, 4),
            (expected_base + MAX_BUS_CHUNK as u32 + 4, 4)
        ]
    );

    let mut input = first;
    input.extend_from_slice(&[1, 2, 3, 4, 0x11, 0x22, 0x33]);
    assert!(write(&mut rpu, Processor::Lmac, RPU_ADDR_LMAC_RET_START, &input).is_ok());
    let bus = rpu.into_inner();
    assert_eq!(bus.writes.len(), 3);
    assert_eq!(
        bus.writes[0],
        (expected_base, input[..MAX_BUS_CHUNK].to_vec())
    );
    assert_eq!(
        bus.writes[1],
        (expected_base + MAX_BUS_CHUNK as u32, vec![1, 2, 3, 4])
    );
    assert_eq!(
        bus.writes[2],
        (
            expected_base + MAX_BUS_CHUNK as u32 + 4,
            vec![0x11, 0x22, 0x33, 0]
        )
    );
}

#[test]
fn memory_access_rejects_alignment_and_region_crossings() {
    let mut rpu = Rpu::new(TestBus::default());
    assert!(matches!(
        read(&mut rpu, Processor::Lmac, RPU_ADDR_LMAC_RET_START + 1, &mut [0; 4]),
        Err(RpuError::Unaligned)
    ));
    assert!(matches!(
        write(&mut rpu, Processor::Lmac, RPU_ADDR_LMAC_RET_END - 3, &[0; 8]),
        Err(RpuError::Address(AddressError::Unsupported(_)))
    ));
    assert!(matches!(
        read(&mut rpu, Processor::Lmac, 0, &mut []),
        Err(RpuError::Address(AddressError::Unsupported(0)))
    ));
    assert!(read(&mut rpu, Processor::Lmac, RPU_ADDR_LMAC_RET_START, &mut []).is_ok());
    assert!(write(&mut rpu, Processor::Lmac, RPU_ADDR_LMAC_RET_START, &[]).is_ok());
    assert_eq!(align4(0), Some(0));
    assert_eq!(align4(1), Some(4));
    assert_eq!(align4(4), Some(4));
    assert_eq!(align4(usize::MAX), None);
    assert!(matches!(
        checked_range::<()>(Processor::Lmac, RPU_ADDR_LMAC_RET_START, usize::MAX),
        Err(RpuError::Address(AddressError::Range))
    ));
    let discontinuous_start = RPU_ADDR_SBUS_END - 3;
    let discontinuous_len = (RPU_ADDR_PBUS_START - discontinuous_start + 1) as usize;
    assert!(matches!(
        checked_range::<()>(Processor::Lmac, discontinuous_start, discontinuous_len),
        Err(RpuError::Address(AddressError::Range))
    ));
}

#[test]
fn word_register_and_indirect_accesses_are_exact() {
    let bus = TestBus {
        read_responses: [0x1234_5678u32.to_le_bytes().to_vec()].into(),
        ..TestBus::default()
    };
    let mut rpu = Rpu::new(bus);
    assert_eq!(
        read_u32(&mut rpu, Processor::Lmac, RPU_ADDR_LMAC_RET_START).unwrap(),
        0x1234_5678
    );
    assert!(
        write_u32(&mut rpu, Processor::Lmac, RPU_ADDR_LMAC_RET_START, 0xaabb_ccdd).is_ok()
    );
    assert!(perform(&mut rpu, &mut CountingDelay::default(), enable_clocks(), &[], &mut []).is_ok());
    assert!(
        write_core(&mut rpu, Processor::Lmac,
            RPU_MCU_CORE_INDIRECT_BASE | 4,
            &[1, 0, 0, 0, 2, 0, 0, 0])
        .is_ok()
    );
    let bus = rpu.into_inner();
    assert!(bus.writes.contains(&(
        HOST_LMAC_DIRECT_BASE + (RPU_ADDR_LMAC_RET_START & RPU_ADDR_MASK_OFFSET),
        0xaabb_ccddu32.to_le_bytes().to_vec()
    )));
    assert!(bus.writes.contains(&(
        HOST_PBUS_BASE + (RPU_REG_CLOCK_ENABLE & RPU_ADDR_MASK_OFFSET),
        RPU_CLOCK_ENABLE.to_le_bytes().to_vec()
    )));
    assert!(bus.writes.contains(&(
        HOST_SBUS_BASE + (RPU_REG_MIPS_MCU_SYS_CORE_MEM_CTRL & RPU_ADDR_MASK_OFFSET),
        1u32.to_le_bytes().to_vec()
    )));
    let data_port =
        HOST_SBUS_BASE + (RPU_REG_MIPS_MCU_SYS_CORE_MEM_WDATA & RPU_ADDR_MASK_OFFSET);
    assert!(
        bus.writes
            .contains(&(data_port, 1u32.to_le_bytes().to_vec()))
    );
    assert!(
        bus.writes
            .contains(&(data_port, 2u32.to_le_bytes().to_vec()))
    );

    for (address, data) in [
        (0x8000_0000, &[0u8; 4][..]),
        (RPU_MCU_CORE_INDIRECT_BASE | 1, &[0u8; 4][..]),
        (RPU_MCU_CORE_INDIRECT_BASE, &[0u8; 3][..]),
    ] {
        let mut rpu = Rpu::new(TestBus::default());
        assert!(matches!(
            write_core(&mut rpu, Processor::Lmac, address, data),
            Err(RpuError::Unaligned)
        ));
    }
}

#[test]
fn processor_reset_and_register_poll_are_bounded() {
    let control = host_offset(Processor::Lmac, RPU_REG_MIPS_MCU_CONTROL).unwrap();
    let wait = host_offset(Processor::Lmac, RPU_REG_MIPS_MCU_WAIT_STATUS).unwrap();
    let bus = TestBus {
        register_values: vec![(control, 0), (wait, 1)],
        ..TestBus::default()
    };
    let mut rpu = Rpu::new(bus);
    let mut delay = CountingDelay::default();
    assert!(reset_processor(&mut rpu, Processor::Lmac, &mut delay).is_ok());
    assert_eq!(delay.0, 0);

    let mut rpu = Rpu::new(TestBus {
        register_values: vec![(control, 5)],
        ..TestBus::default()
    });
    let mut delay = CountingDelay::default();
    assert!(matches!(
        poll_register(&mut rpu, RPU_REG_MIPS_MCU_CONTROL, 1, 0, &mut delay, 2, 7),
        Err(RpuError::PollTimeout {
            address: RPU_REG_MIPS_MCU_CONTROL,
            mask: 1,
            expected: 0,
            last: 5,
        })
    ));
    assert_eq!(delay.0, 2);
}

#[test]
fn failed_bus_access_is_reported_once_and_ends_the_poll() {
    let mut wake = Wake::new(4);
    assert!(matches!(
        wake.request::<u8>(),
        Ok(Some(RpuRequest::WriteStatus { .. }))
    ));
    assert!(matches!(
        wake.resume(Err(RpuError::Bus(7u8))),
        Err(RpuError::Bus(7))
    ));
}

#[test]
fn exhausted_reset_poll_names_the_register() {
    let control = host_offset(Processor::Umac, RPU_REG_MIPS_MCU2_CONTROL).unwrap();
    let mut rpu = Rpu::new(TestBus {
        register_values: vec![(control, 1)],
        ..TestBus::default()
    });
    let mut delay = CountingDelay::default();
    assert!(matches!(
        reset_processor(&mut rpu, Processor::Umac, &mut delay),
        Err(RpuError::PollTimeout {
            address: RPU_REG_MIPS_MCU2_CONTROL,
            last: 1,
            ..
        })
    ));
    assert_eq!(delay.0, 50);
}

#[test]
fn transfers_cover_the_request_in_order() {
    let len = 2 * MAX_BUS_CHUNK + 6;
    let mut next = 0;
    for index in 0..transfer_count(len) {
        let transfer =
            transfer_at(Processor::Umac, RPU_ADDR_UMAC_RET_START, len, index);
        assert_eq!(transfer.start, next);
        assert_eq!(transfer.wire_len % 4, 0);
        next += transfer.len;
    }
    assert_eq!(next, len);
    assert_eq!(transfer_count(len), 4);
}

#[test]
fn accesses_across_a_hole_between_regions_are_refused() {
    let hole_start = RPU_ADDR_LMAC_ROM_END - 3;
    assert!(matches!(
        validate_access::<()>(Processor::Lmac, hole_start, 49160),
        Err(RpuError::Address(AddressError::Range))
    ));
    let mut rpu = Rpu::new(TestBus::default());
    assert!(matches!(
        write(&mut rpu, Processor::Lmac, hole_start, &vec![0; 49160]),
        Err(RpuError::Address(AddressError::Range))
    ));
    assert!(rpu.into_inner().writes.is_empty());
    let umac_span = (RPU_ADDR_UMAC_RET_START - RPU_ADDR_UMAC_ROM_END + 4) as usize;
    assert!(matches!(
        checked_range::<()>(Processor::Umac, RPU_ADDR_UMAC_ROM_END - 3, umac_span),
        Err(RpuError::Address(AddressError::Range))
    ));
    assert!(validate_access::<()>(Processor::Lmac, hole_start, 4).is_ok());
}
