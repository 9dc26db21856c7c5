use sha2::Digest;

use nrf7002::firmware::{
    BOOT_SIGNATURE, Boot, FEATURE_SYSTEM_MODE, FEATURE_SYSTEM_WITH_RAW, FirmwareBundle,
    FirmwareError, FirmwareLoad, FirmwareReport, FirmwareTrustPolicy, IMAGE_HEADER_LEN, ImageKind,
    LoadError, LoadStage, PATCH_HEADER_LEN, PATCH_IMAGE_COUNT, PATCH_SIGNATURE,
    PINNED_PATCH_VERSION, PinnedFirmwareSha256, RPU_MEM_LMAC_BOOT_SIG, RPU_MEM_LMAC_PATCH_BIMG,
    RPU_MEM_LMAC_PATCH_BIN, RPU_MEM_UMAC_BOOT_SIG, RPU_MEM_UMAC_PATCH_BIMG, RPU_MEM_UMAC_PATCH_BIN,
    RPU_REG_UCC_SLEEP_CTRL_DATA_0, RPU_REG_UCC_SLEEP_CTRL_DATA_1,
};
use nrf7002::memory::{
    Processor, RPU_REG_MIPS_MCU2_WAIT_STATUS, RPU_REG_MIPS_MCU_WAIT_STATUS, Rpu, RpuError,
    RpuRequest, host_offset, transfer_at, transfer_bytes, transfer_count, validate_access,
};

trait Bus {
    type Error;

    fn read_status(&mut self, opcode: u8) -> Result<u8, Self::Error>;

    fn write_status(&mut self, opcode: u8, value: u8) -> Result<(), Self::Error>;

    fn read(&mut self, address: u32, data: &mut [u8]) -> Result<(), Self::Error>;

    fn write(&mut self, address: u32, data: &[u8]) -> Result<(), Self::Error>;
}

trait Pause {
    fn pause(&mut self);
}

fn read<B: Bus>(
    rpu: &mut Rpu<B>,
    processor: Processor,
    address: u32,
    data: &mut [u8],
) -> Result<(), RpuError<B::Error>> {
    validate_access::<B::Error>(processor, address, data.len())?;
    for index in 0..transfer_count(data.len()) {
        let transfer = transfer_at(processor, address, data.len(), index);
        let mut wire = vec![0; transfer.wire_len];
        rpu.bus_mut()
            .read(transfer.host, &mut wire)
            .map_err(RpuError::Bus)?;
        data[transfer.start..transfer.start + transfer.len]
            .copy_from_slice(&wire[..transfer.len]);
    }
    Ok(())
}

fn write<B: Bus>(
    rpu: &mut Rpu<B>,
    processor: Processor,
    address: u32,
    data: &[u8],
) -> Result<(), RpuError<B::Error>> {
    validate_access::<B::Error>(processor, address, data.len())?;
    for index in 0..transfer_count(data.len()) {
        let transfer = transfer_at(processor, address, data.len(), index);
        rpu.bus_mut()
            .write(transfer.host, &transfer_bytes(data, transfer))
            .map_err(RpuError::Bus)?;
    }
    Ok(())
}

fn perform<B: Bus>(
    rpu: &mut Rpu<B>,
    delay: &mut dyn Pause,
    request: RpuRequest,
    data: &[u8],
    storage: &mut [u8],
) -> Result<Vec<u8>, RpuError<B::Error>> {
    match request {
        RpuRequest::ReadStatus { opcode } => {
            let status = rpu.bus_mut().read_status(opcode).map_err(RpuError::Bus)?;
            return Ok(vec![status]);
        }
        RpuRequest::WriteStatus { opcode, value } => {
            rpu.bus_mut()
                .write_status(opcode, value)
                .map_err(RpuError::Bus)?;
        }
        RpuRequest::Read {
            processor,
            address,
            len,
        } => {
            let mut bytes = vec![0; len];
            read(rpu, processor, address, &mut bytes)?;
            return Ok(bytes);
        }
        RpuRequest::ReadInto {
            processor,
            address,
            start,
            len,
        } => read(rpu, processor, address, &mut storage[start..start + len])?,
        RpuRequest::WriteWord {
            processor,
            address,
            value,
        } => write(rpu, processor, address, &value.to_le_bytes())?,
        RpuRequest::WriteFrom {
            processor,
            address,
            start,
            len,
        } => write(rpu, processor, address, &data[start..start + len])?,
        RpuRequest::WriteIndirectWord {
            processor,
            address,
            value,
        } => {
            let writes = nrf7002::memory::write_indirect::<B::Error>(processor, address, &value.to_le_bytes())?;
            for (register, word) in writes {
                write(rpu, Processor::Lmac, register, &word.to_le_bytes())?;
            }
        }
        RpuRequest::Delay { .. } => delay.pause(),
    }
    Ok(Vec::new())
}

fn load<B: Bus, T: FirmwareTrustPolicy>(
    rpu: &mut Rpu<B>,
    delay: &mut dyn Pause,
    bundle: &FirmwareBundle<'_>,
    trust: &T,
) -> Result<(FirmwareReport, Vec<LoadStage>), LoadError<B::Error>> {
    let mut load = match FirmwareLoad::begin(bundle, trust) {
        Ok(load) => load,
        Err(error) => return Err(LoadError::Firmware(error)),
    };
    let mut stages = Vec::new();
    while let Some(request) = load.request()? {
        stages.push(load.stage());
        match perform(rpu, delay, request, bundle.as_bytes(), &mut []) {
            Ok(bytes) => load.resume(Ok(&bytes))?,
            Err(error) => load.resume(Err(error))?,
        }
    }
    Ok((load.report().expect("a finished load has a report"), stages))
}

fn boot_processor<B: Bus>(
    rpu: &mut Rpu<B>,
    delay: &mut dyn Pause,
    processor: Processor,
) -> Result<(), RpuError<B::Error>> {
    let mut boot = Boot::new(processor);
    while let Some(request) = boot.request()? {
        match perform(rpu, delay, request, &[], &mut []) {
            Ok(bytes) => boot.resume(Ok(&bytes))?,
            Err(error) => boot.resume(Err(error))?,
        }
    }
    Ok(())
}

#[derive(Default)]
struct FirmwareBus {
    writes: Vec<(u32, Vec<u8>)>,
    boot_ready: bool,
}

impl Bus for FirmwareBus {
    type Error = ();

    fn read_status(&mut self, _opcode: u8) -> Result<u8, Self::Error> {
        Ok(0)
    }

    fn write_status(&mut self, _opcode: u8, _value: u8) -> Result<(), Self::Error> {
        Ok(())
    }

    fn read(&mut self, address: u32, data: &mut [u8]) -> Result<(), Self::Error> {
        data.fill(0);
        let lmac_wait = host_offset(Processor::Lmac, RPU_REG_MIPS_MCU_WAIT_STATUS).unwrap();
        let umac_wait = host_offset(Processor::Lmac, RPU_REG_MIPS_MCU2_WAIT_STATUS).unwrap();
        let lmac_signature = host_offset(Processor::Lmac, RPU_MEM_LMAC_BOOT_SIG).unwrap();
        let umac_signature = host_offset(Processor::Umac, RPU_MEM_UMAC_BOOT_SIG).unwrap();
        let value = if address == lmac_wait || address == umac_wait {
            1
        } else if self.boot_ready && (address == lmac_signature || address == umac_signature) {
            BOOT_SIGNATURE
        } else {
            0
        };
        data.copy_from_slice(&value.to_le_bytes()[..data.len()]);
        Ok(())
    }

    fn write(&mut self, address: u32, data: &[u8]) -> Result<(), Self::Error> {
        self.writes.push((address, data.to_vec()));
        Ok(())
    }
}

#[derive(Default)]
struct CountingDelay {
    calls: usize,
}

impl Pause for CountingDelay {
    fn pause(&mut self) {
        self.calls += 1;
    }
}

fn bundle_bytes() -> [u8; PATCH_HEADER_LEN + 4 * IMAGE_HEADER_LEN + 4] {
    let mut bytes = [0u8; PATCH_HEADER_LEN + 4 * IMAGE_HEADER_LEN + 4];
    bytes[0..4].copy_from_slice(&PATCH_SIGNATURE.to_le_bytes());
    bytes[4..8].copy_from_slice(&PATCH_IMAGE_COUNT.to_le_bytes());
    bytes[8..12].copy_from_slice(&PINNED_PATCH_VERSION.to_le_bytes());
    bytes[12..16].copy_from_slice(&FEATURE_SYSTEM_MODE.to_le_bytes());
    let payload_len = (bytes.len() - PATCH_HEADER_LEN) as u32;
    bytes[16..20].copy_from_slice(&payload_len.to_le_bytes());
    let mut offset = PATCH_HEADER_LEN;
    for kind in 0u32..4 {
        bytes[offset..offset + 4].copy_from_slice(&kind.to_le_bytes());
        bytes[offset + 4..offset + 8].copy_from_slice(&1u32.to_le_bytes());
        bytes[offset + 8] = kind as u8;
        offset += 9;
    }
    let digest = sha2::Sha256::digest(&bytes[PATCH_HEADER_LEN..]);
    bytes[20..PATCH_HEADER_LEN].copy_from_slice(&digest);
    bytes
}

#[test]
fn parses_and_verifies_all_images() {
    let bytes = bundle_bytes();
    let bundle = FirmwareBundle::parse(&bytes).unwrap();
    bundle.verify_hash().unwrap();
    assert_eq!(bundle.as_bytes(), bytes);
    assert_eq!(bundle.header().version, PINNED_PATCH_VERSION);
    for (kind, expected, destination) in [
        (
            ImageKind::UmacPrimary,
            0,
            (Processor::Umac, RPU_MEM_UMAC_PATCH_BIMG),
        ),
        (
            ImageKind::UmacSecondary,
            1,
            (Processor::Umac, RPU_MEM_UMAC_PATCH_BIN),
        ),
        (
            ImageKind::LmacPrimary,
            2,
            (Processor::Lmac, RPU_MEM_LMAC_PATCH_BIMG),
        ),
        (
            ImageKind::LmacSecondary,
            3,
            (Processor::Lmac, RPU_MEM_LMAC_PATCH_BIN),
        ),
    ] {
        assert_eq!(bundle.image(kind).unwrap().data, &[expected]);
        assert_eq!(kind.destination(), destination);
        assert_eq!(ImageKind::from_u32(kind.code()), Ok(kind));
    }
    assert_eq!(
        ImageKind::from_u32(4),
        Err(FirmwareError::InvalidImageType(4))
    );
}

#[test]
fn rejects_every_fixed_header_mismatch() {
    assert_eq!(
        FirmwareBundle::parse(&bundle_bytes()[..PATCH_HEADER_LEN - 1]).err(),
        Some(FirmwareError::TruncatedHeader)
    );
    for (offset, replacement, expected) in [
        (0, 0u32, FirmwareError::BadSignature(0)),
        (4, 3u32, FirmwareError::BadImageCount(3)),
        (8, 0u32, FirmwareError::IncompatibleVersion(0)),
        (
            12,
            FEATURE_SYSTEM_WITH_RAW,
            FirmwareError::IncompatibleFeatures(FEATURE_SYSTEM_WITH_RAW),
        ),
    ] {
        let mut bytes = bundle_bytes();
        bytes[offset..offset + 4].copy_from_slice(&replacement.to_le_bytes());
        assert_eq!(FirmwareBundle::parse(&bytes).err(), Some(expected));
    }
}

#[test]
fn rejects_truncated_repeated_and_trailing_images() {
    let mut short_header = bundle_bytes().to_vec();
    short_header.truncate(PATCH_HEADER_LEN + IMAGE_HEADER_LEN - 1);
    let payload_len = (short_header.len() - PATCH_HEADER_LEN) as u32;
    short_header[16..20].copy_from_slice(&payload_len.to_le_bytes());
    assert_eq!(
        FirmwareBundle::parse(&short_header).err(),
        Some(FirmwareError::TruncatedImage)
    );

    let mut short_body = bundle_bytes();
    short_body[PATCH_HEADER_LEN + 4..PATCH_HEADER_LEN + 8]
        .copy_from_slice(&u32::MAX.to_le_bytes());
    assert_eq!(
        FirmwareBundle::parse(&short_body).err(),
        Some(FirmwareError::TruncatedImage)
    );

    let mut repeated = bundle_bytes();
    repeated[PATCH_HEADER_LEN + 9..PATCH_HEADER_LEN + 13].copy_from_slice(&0u32.to_le_bytes());
    assert_eq!(
        FirmwareBundle::parse(&repeated).err(),
        Some(FirmwareError::InvalidImageType(0))
    );

    let mut trailing = bundle_bytes().to_vec();
    trailing.push(0xaa);
    let payload_len = (trailing.len() - PATCH_HEADER_LEN) as u32;
    trailing[16..20].copy_from_slice(&payload_len.to_le_bytes());
    assert_eq!(
        FirmwareBundle::parse(&trailing).err(),
        Some(FirmwareError::LengthMismatch)
    );
}

#[test]
fn detects_modified_payload() {
    let mut bytes = bundle_bytes();
    bytes[PATCH_HEADER_LEN + IMAGE_HEADER_LEN] ^= 0x80;
    let bundle = FirmwareBundle::parse(&bytes).unwrap();
    assert_eq!(bundle.verify_hash(), Err(FirmwareError::HashMismatch));
}

#[test]
fn externally_pinned_digest_accepts_exact_file() {
    let bytes = bundle_bytes();
    let bundle = FirmwareBundle::parse(&bytes).unwrap();
    let policy = PinnedFirmwareSha256::new(bundle.full_sha256());
    assert_eq!(policy.verify(&bundle), Ok(()));
}

#[test]
fn rejects_a_raw_mode_bundle() {
    let mut bytes = bundle_bytes();
    bytes[12..16].copy_from_slice(&FEATURE_SYSTEM_WITH_RAW.to_le_bytes());
    assert!(matches!(
        FirmwareBundle::parse(&bytes),
        Err(FirmwareError::IncompatibleFeatures(FEATURE_SYSTEM_WITH_RAW))
    ));
}

#[test]
fn rejects_bytes_after_the_declared_payload() {
    let original = bundle_bytes();
    let mut bytes = [0u8; PATCH_HEADER_LEN + 4 * IMAGE_HEADER_LEN + 5];
    bytes[..original.len()].copy_from_slice(&original);
    assert!(matches!(
        FirmwareBundle::parse(&bytes),
        Err(FirmwareError::LengthMismatch)
    ));
}

#[test]
fn external_digest_covers_header_not_only_payload() {
    let original = bundle_bytes();
    let original_bundle = FirmwareBundle::parse(&original).unwrap();
    let policy = PinnedFirmwareSha256::new(original_bundle.full_sha256());

    let mut substituted = original;
    substituted[12..16].copy_from_slice(&FEATURE_SYSTEM_WITH_RAW.to_le_bytes());
    assert!(matches!(
        FirmwareBundle::parse(&substituted),
        Err(FirmwareError::IncompatibleFeatures(FEATURE_SYSTEM_WITH_RAW))
    ));
    assert_eq!(policy.verify(&original_bundle), Ok(()));
}

#[test]
fn loads_images_and_programs_both_exact_boot_configs() {
    let bytes = bundle_bytes();
    let bundle = FirmwareBundle::parse(&bytes).unwrap();
    let trust = PinnedFirmwareSha256::new(bundle.full_sha256());
    assert_eq!(trust.expected(), bundle.full_sha256());
    let mut rpu = Rpu::new(FirmwareBus {
        boot_ready: true,
        ..FirmwareBus::default()
    });
    let mut delay = CountingDelay::default();

    let first = FirmwareLoad::begin(&bundle, &trust).unwrap();
    assert_eq!(first.stage(), LoadStage::Reset(Processor::Lmac));
    let (report, stages) = load(&mut rpu, &mut delay, &bundle, &trust).unwrap();
    assert_eq!(stages.last(), Some(&LoadStage::Boot(Processor::Umac)));
    assert_eq!(
        report,
        FirmwareReport {
            version: PINNED_PATCH_VERSION,
            feature_flags: FEATURE_SYSTEM_MODE,
        }
    );
    assert_eq!(delay.calls, 0);

    let bus = rpu.into_inner();
    for (processor, address, expected) in [
        (Processor::Umac, RPU_MEM_UMAC_PATCH_BIMG, 0),
        (Processor::Umac, RPU_MEM_UMAC_PATCH_BIN, 1),
        (Processor::Lmac, RPU_MEM_LMAC_PATCH_BIMG, 2),
        (Processor::Lmac, RPU_MEM_LMAC_PATCH_BIN, 3),
    ] {
        let host = host_offset(processor, address).unwrap();
        assert!(
            bus.writes
                .iter()
                .any(|(written_address, data)| *written_address == host
                    && data == &[expected, 0, 0, 0])
        );
    }
    for (address, expected) in [
        (RPU_REG_UCC_SLEEP_CTRL_DATA_0, 0x0000_bbc0u32),
        (RPU_REG_UCC_SLEEP_CTRL_DATA_1, 0x0001_b800u32),
    ] {
        let host = host_offset(Processor::Lmac, address).unwrap();
        assert!(bus.writes.iter().any(|(written_address, data)| {
            *written_address == host && data == &expected.to_le_bytes()
        }));
    }
}

#[test]
fn boot_signature_wait_is_bounded() {
    let mut rpu = Rpu::new(FirmwareBus::default());
    let mut delay = CountingDelay::default();
    assert!(matches!(
        boot_processor(&mut rpu, &mut delay, Processor::Lmac),
        Err(RpuError::Timeout)
    ));
    assert_eq!(delay.calls, 100);
}

#[test]
fn complete_file_digest_is_sha256() {
    let bytes = bundle_bytes();
    let bundle = FirmwareBundle::parse(&bytes).unwrap();
    let expected: [u8; 32] = sha2::Sha256::digest(&bytes).into();
    assert_eq!(bundle.full_sha256(), expected);
    assert_ne!(&bundle.full_sha256()[..], &bytes[..32]);
}

#[test]
fn a_wrong_pin_is_refused_before_any_access() {
    let bytes = bundle_bytes();
    let bundle = FirmwareBundle::parse(&bytes).unwrap();
    let mut digest = bundle.full_sha256();
    digest[31] ^= 1;
    let trust = PinnedFirmwareSha256::new(digest);
    assert_eq!(trust.check_digest(&bundle.full_sha256()), trust.verify(&bundle));
    let mut rpu = Rpu::new(FirmwareBus::default());
    let mut delay = CountingDelay::default();
    assert!(matches!(
        load(&mut rpu, &mut delay, &bundle, &trust),
        Err(LoadError::Firmware(FirmwareError::UntrustedImage))
    ));
    assert!(rpu.into_inner().writes.is_empty());
}

#[test]
fn a_load_runs_its_stages_in_order() {
    let bytes = bundle_bytes();
    let bundle = FirmwareBundle::parse(&bytes).unwrap();
    let trust = PinnedFirmwareSha256::new(bundle.full_sha256());
    let mut rpu = Rpu::new(FirmwareBus {
        boot_ready: true,
        ..FirmwareBus::default()
    });
    let (_, mut stages) = load(&mut rpu, &mut CountingDelay::default(), &bundle, &trust).unwrap();
    stages.dedup();
    assert_eq!(
        stages,
        [
            LoadStage::Reset(Processor::Lmac),
            LoadStage::Reset(Processor::Umac),
            LoadStage::Download(ImageKind::UmacPrimary),
            LoadStage::Download(ImageKind::UmacSecondary),
            LoadStage::Download(ImageKind::LmacPrimary),
            LoadStage::Download(ImageKind::LmacSecondary),
            LoadStage::Boot(Processor::Lmac),
            LoadStage::Boot(Processor::Umac),
        ]
    );
}

#[test]
fn the_images_fill_the_payload() {
    let bytes = bundle_bytes();
    let bundle = FirmwareBundle::parse(&bytes).unwrap();
    let mut next = PATCH_HEADER_LEN;
    for kind in [
        ImageKind::UmacPrimary,
        ImageKind::UmacSecondary,
        ImageKind::LmacPrimary,
        ImageKind::LmacSecondary,
    ] {
        let (start, end) = bundle.image_range(kind).unwrap();
        assert_eq!(start, next + IMAGE_HEADER_LEN);
        next = end;
    }
    assert_eq!(next, bytes.len());
}
