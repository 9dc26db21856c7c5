//! Parser and loader for the combined nRF70 firmware patch bundle.

use sha2::{Digest, Sha256};
use vstd::prelude::*;

use crate::codec;
use crate::memory;
use crate::memory::{BoundedPoll, PollPhase, Processor, ProcessorReset, ResetStage};
use crate::memory::{RpuError, RpuRequest};

verus! {

/// Signature at the start of the bundle.
pub const PATCH_SIGNATURE: u32 = 0xdead_1eaf;

/// Number of images in the combined system-mode bundle.
pub const PATCH_IMAGE_COUNT: u32 = 4;

/// Version of the supported host interface: 1.2.14.9.
pub const PINNED_PATCH_VERSION: u32 = 0x0102_0e09;

/// System-mode feature bit.
pub const FEATURE_SYSTEM_MODE: u32 = 1;

/// System-mode with raw-frame support feature bit.
pub const FEATURE_SYSTEM_WITH_RAW: u32 = 8;

/// Header bytes before the hashed image payload.
pub const PATCH_HEADER_LEN: usize = 52;

/// Per-image header bytes.
pub const IMAGE_HEADER_LEN: usize = 8;

pub const RPU_MEM_LMAC_PATCH_BIN: u32 = 0x8004_3a80;

pub const RPU_MEM_LMAC_PATCH_BIMG: u32 = 0x8004_bbc0;

pub const RPU_MEM_UMAC_PATCH_BIN: u32 = 0x8008_c000;

pub const RPU_MEM_UMAC_PATCH_BIMG: u32 = 0x8009_b800;

pub const RPU_MEM_LMAC_BOOT_SIG: u32 = 0xb700_0d50;

pub const RPU_MEM_UMAC_BOOT_SIG: u32 = 0xb000_0000;

/// Value a processor publishes once it has booted.
pub const BOOT_SIGNATURE: u32 = 0x5a5a_5a5a;

pub const RPU_REG_UCC_SLEEP_CTRL_DATA_0: u32 = 0xa400_2c2c;

pub const RPU_REG_UCC_SLEEP_CTRL_DATA_1: u32 = 0xa400_2c30;

pub const RPU_REG_MIPS_MCU_CONTROL: u32 = 0xa400_0000;

pub const RPU_REG_MIPS_MCU2_CONTROL: u32 = 0xa400_0100;

/// Boot signature reads before the boot times out.
pub const BOOT_POLL_ATTEMPTS: u16 = 100;

/// Pause between boot signature reads.
pub const BOOT_POLL_DELAY_MS: u32 = 10;

/// Longest message whose bit length the digest can count.
pub const MAX_DIGEST_LEN: u64 = 0x1fff_ffff_ffff_ffff;

/// Structural or compatibility failure in a firmware bundle.
#[derive(Clone, Copy, Debug, PartialEq, Eq, Structural)]
pub enum FirmwareError {
    /// The slice is shorter than the fixed bundle header.
    TruncatedHeader,
    /// The header signature is not the nRF70 signature.
    BadSignature(u32),
    /// The bundle does not contain exactly four images.
    BadImageCount(u32),
    /// The firmware host-interface version is not the supported one.
    IncompatibleVersion(u32),
    /// The bundle is not the exact system-mode image supported by this driver.
    IncompatibleFeatures(u32),
    /// The declared payload length does not fit the supplied slice.
    TruncatedPayload,
    /// An image header or image body is truncated.
    TruncatedImage,
    /// An image type is invalid or repeated.
    InvalidImageType(u32),
    /// Bytes remain or are missing after parsing all declared images.
    LengthMismatch,
    /// SHA-256 integrity verification failed.
    HashMismatch,
    /// The complete file did not match the external trust policy.
    UntrustedImage,
}

/// Failure while downloading or starting firmware.
#[derive(Debug)]
pub enum LoadError<E> {
    /// The bundle is invalid or incompatible.
    Firmware(FirmwareError),
    /// The RPU bus or memory operation failed at a defined load stage.
    Rpu { stage: LoadStage, error: RpuError<E> },
    /// A required image was not present.
    MissingImage(ImageKind),
}

/// Firmware operation active when an RPU access failed.
#[derive(Clone, Copy, Debug, PartialEq, Eq, Structural)]
pub enum LoadStage {
    Reset(Processor),
    Download(ImageKind),
    Boot(Processor),
}

impl<E> vstd::std_specs::convert::FromSpecImpl<FirmwareError> for LoadError<E> {
    open spec fn obeys_from_spec() -> bool {
        true
    }

    open spec fn from_spec(value: FirmwareError) -> Self {
        LoadError::Firmware(value)
    }
}

impl<E> From<FirmwareError> for LoadError<E> {
    fn from(value: FirmwareError) -> (error: Self) {
        LoadError::Firmware(value)
    }
}

/// One image in the combined bundle.
#[derive(Clone, Copy, Debug, PartialEq, Eq, Structural)]
pub enum ImageKind {
    /// UMAC boot image, loaded at `RPU_MEM_UMAC_PATCH_BIMG`.
    UmacPrimary,
    /// UMAC binary image, loaded at `RPU_MEM_UMAC_PATCH_BIN`.
    UmacSecondary,
    /// LMAC boot image, loaded at `RPU_MEM_LMAC_PATCH_BIMG`.
    LmacPrimary,
    /// LMAC binary image, loaded at `RPU_MEM_LMAC_PATCH_BIN`.
    LmacSecondary,
}

/// The image kind of a wire value.
pub open spec fn kind_of(value: u32) -> Option<ImageKind> {
    if value == 0 {
        Some(ImageKind::UmacPrimary)
    } else if value == 1 {
        Some(ImageKind::UmacSecondary)
    } else if value == 2 {
        Some(ImageKind::LmacPrimary)
    } else if value == 3 {
        Some(ImageKind::LmacSecondary)
    } else {
        None
    }
}

impl ImageKind {
    /// The value on the wire.
    pub open spec fn wire(self) -> u32 {
        match self {
            ImageKind::UmacPrimary => 0,
            ImageKind::UmacSecondary => 1,
            ImageKind::LmacPrimary => 2,
            ImageKind::LmacSecondary => 3,
        }
    }

    /// The processor and the address that an image is loaded to.
    pub open spec fn target(self) -> (Processor, u32) {
        match self {
            ImageKind::UmacPrimary => (Processor::Umac, RPU_MEM_UMAC_PATCH_BIMG),
            ImageKind::UmacSecondary => (Processor::Umac, RPU_MEM_UMAC_PATCH_BIN),
            ImageKind::LmacPrimary => (Processor::Lmac, RPU_MEM_LMAC_PATCH_BIMG),
            ImageKind::LmacSecondary => (Processor::Lmac, RPU_MEM_LMAC_PATCH_BIN),
        }
    }

    /// Returns the value on the wire.
    pub fn code(self) -> (value: u32)
        ensures
            value == self.wire(),
    {
        match self {
            ImageKind::UmacPrimary => 0,
            ImageKind::UmacSecondary => 1,
            ImageKind::LmacPrimary => 2,
            ImageKind::LmacSecondary => 3,
        }
    }

    /// Decodes a wire value.
    pub fn from_u32(value: u32) -> (result: Result<Self, FirmwareError>)
        ensures
            match result {
                Ok(kind) => kind_of(value) == Some(kind) && kind.wire() == value,
                Err(error) => kind_of(value) is None && error == FirmwareError::InvalidImageType(
                    value,
                ),
            },
    {
        match value {
            0 => Ok(ImageKind::UmacPrimary),
            1 => Ok(ImageKind::UmacSecondary),
            2 => Ok(ImageKind::LmacPrimary),
            3 => Ok(ImageKind::LmacSecondary),
            other => Err(FirmwareError::InvalidImageType(other)),
        }
    }

    /// Returns the processor and the address that the image is loaded to.
    pub fn destination(self) -> (target: (Processor, u32))
        ensures
            target == self.target(),
    {
        match self {
            ImageKind::UmacPrimary => (Processor::Umac, RPU_MEM_UMAC_PATCH_BIMG),
            ImageKind::UmacSecondary => (Processor::Umac, RPU_MEM_UMAC_PATCH_BIN),
            ImageKind::LmacPrimary => (Processor::Lmac, RPU_MEM_LMAC_PATCH_BIMG),
            ImageKind::LmacSecondary => (Processor::Lmac, RPU_MEM_LMAC_PATCH_BIN),
        }
    }
}

/// Fixed bundle metadata.
#[derive(Clone, Copy, Debug, PartialEq, Eq)]
pub struct FirmwareHeader {
    /// Packed firmware interface version.
    pub version: u32,
    /// Feature bitmap.
    pub feature_flags: u32,
    /// Hashed payload length after the fixed header.
    pub payload_len: u32,
    /// Expected SHA-256 digest of the image payload.
    pub hash: [u8; 32],
}

impl FirmwareHeader {
    /// Whether the header is the reading of a file.
    pub open spec fn reads(self, file: Seq<u8>) -> bool {
        &&& self.version == codec::u32_at(file, 8)
        &&& self.feature_flags == codec::u32_at(file, 12)
        &&& self.payload_len == codec::u32_at(file, 16)
        &&& self.hash@ == stored_hash(file)
    }
}

/// The digest that a file stores for its payload.
pub open spec fn stored_hash(file: Seq<u8>) -> Seq<u8> {
    file.subrange(20, PATCH_HEADER_LEN as int)
}

/// Why the fixed header is refused, if it is.
pub open spec fn header_fault(file: Seq<u8>) -> Option<FirmwareError> {
    if codec::u32_at(file, 0) != PATCH_SIGNATURE {
        Some(FirmwareError::BadSignature(codec::u32_at(file, 0)))
    } else if codec::u32_at(file, 4) != PATCH_IMAGE_COUNT {
        Some(FirmwareError::BadImageCount(codec::u32_at(file, 4)))
    } else if codec::u32_at(file, 8) != PINNED_PATCH_VERSION {
        Some(FirmwareError::IncompatibleVersion(codec::u32_at(file, 8)))
    } else if codec::u32_at(file, 12) != FEATURE_SYSTEM_MODE {
        Some(FirmwareError::IncompatibleFeatures(codec::u32_at(file, 12)))
    } else {
        None
    }
}

/// Why the declared payload length is refused, if it is.
pub open spec fn length_fault(file: Seq<u8>) -> Option<FirmwareError> {
    let end = PATCH_HEADER_LEN + codec::u32_at(file, 16);
    if end > file.len() {
        Some(FirmwareError::TruncatedPayload)
    } else if end != file.len() {
        Some(FirmwareError::LengthMismatch)
    } else {
        None
    }
}

/// The kind and the end of the image whose header is at `offset`.
pub open spec fn extent(file: Seq<u8>, offset: int) -> Result<(ImageKind, int), FirmwareError> {
    let end = offset + IMAGE_HEADER_LEN + codec::u32_at(file, offset + 4);
    if offset + IMAGE_HEADER_LEN > file.len() {
        Err(FirmwareError::TruncatedImage)
    } else if kind_of(codec::u32_at(file, offset)) is None {
        Err(FirmwareError::InvalidImageType(codec::u32_at(file, offset)))
    } else if end > file.len() {
        Err(FirmwareError::TruncatedImage)
    } else {
        Ok((kind_of(codec::u32_at(file, offset))->0, end))
    }
}

/// Offset of the header of the image with this index: the first follows the
/// fixed header, each other one the image before it.
pub open spec fn image_offset(file: Seq<u8>, index: nat) -> int
    decreases index,
{
    if index == 0 {
        PATCH_HEADER_LEN as int
    } else {
        match extent(file, image_offset(file, (index - 1) as nat)) {
            Ok((_, end)) => end,
            Err(_) => image_offset(file, (index - 1) as nat),
        }
    }
}

/// Kind of the image with this index.
pub open spec fn image_kind(file: Seq<u8>, index: nat) -> ImageKind {
    extent(file, image_offset(file, index))->Ok_0.0
}

/// Why the image with this index is refused, if it is: it cannot be read, or
/// an earlier image has its kind.
pub open spec fn image_fault(file: Seq<u8>, index: nat) -> Option<FirmwareError> {
    match extent(file, image_offset(file, index)) {
        Err(error) => Some(error),
        Ok((kind, _)) => if exists|j: nat|
            j < index && #[trigger] image_kind(file, j) == kind {
            Some(FirmwareError::InvalidImageType(kind.wire()))
        } else {
            None
        },
    }
}

/// The first refusal among the images from `index` on and the check that they
/// fill the payload.
pub open spec fn images_fault(file: Seq<u8>, index: nat) -> Option<FirmwareError>
    decreases 4 - index,
{
    if index >= 4 {
        if image_offset(file, 4) != file.len() {
            Some(FirmwareError::LengthMismatch)
        } else {
            None
        }
    } else {
        match image_fault(file, index) {
            Some(error) => Some(error),
            None => images_fault(file, index + 1),
        }
    }
}

/// Why a file is not a valid bundle, if it is not.
pub open spec fn bundle_fault(file: Seq<u8>) -> Option<FirmwareError> {
    if file.len() < PATCH_HEADER_LEN {
        Some(FirmwareError::TruncatedHeader)
    } else if header_fault(file) is Some {
        header_fault(file)
    } else if length_fault(file) is Some {
        length_fault(file)
    } else {
        images_fault(file, 0)
    }
}

/// The index of the image of a kind in a valid bundle.
pub open spec fn index_of(file: Seq<u8>, kind: ImageKind) -> nat {
    if image_kind(file, 0) == kind {
        0
    } else if image_kind(file, 1) == kind {
        1
    } else if image_kind(file, 2) == kind {
        2
    } else {
        3
    }
}

/// Offset of the first byte of an image of a valid bundle.
pub open spec fn image_start(file: Seq<u8>, kind: ImageKind) -> int {
    image_offset(file, index_of(file, kind)) + IMAGE_HEADER_LEN
}

/// Offset behind the last byte of an image of a valid bundle.
pub open spec fn image_end(file: Seq<u8>, kind: ImageKind) -> int {
    image_offset(file, index_of(file, kind) + 1)
}

/// The bytes of an image of a valid bundle.
pub open spec fn image_bytes(file: Seq<u8>, kind: ImageKind) -> Seq<u8> {
    file.subrange(image_start(file, kind), image_end(file, kind))
}

/// In a valid bundle the four images fill the payload one behind the other,
/// and every kind occurs exactly once.
pub proof fn law_images_fill_payload(file: Seq<u8>)
    requires
        bundle_fault(file) is None,
    ensures
        image_offset(file, 0) == PATCH_HEADER_LEN,
        image_offset(file, 4) == file.len(),
        forall|i: nat|
            i < 4 ==> #[trigger] image_offset(file, i) + IMAGE_HEADER_LEN <= image_offset(
                file,
                i + 1,
            ) <= file.len(),
        forall|i: nat, j: nat|
            i < 4 && j < 4 && #[trigger] image_kind(file, i) == #[trigger] image_kind(file, j)
                ==> i == j,
        forall|kind: ImageKind| image_kind(file, #[trigger] index_of(file, kind)) == kind,
{
    reveal_with_fuel(images_fault, 5);
    reveal_with_fuel(image_offset, 5);
    assert(image_fault(file, 0) is None);
    assert(image_fault(file, 1) is None);
    assert(image_fault(file, 2) is None);
    assert(image_fault(file, 3) is None);
    assert(image_kind(file, 0) != image_kind(file, 1));
    assert(image_kind(file, 0) != image_kind(file, 2));
    assert(image_kind(file, 0) != image_kind(file, 3));
    assert(image_kind(file, 1) != image_kind(file, 2));
    assert(image_kind(file, 1) != image_kind(file, 3));
    assert(image_kind(file, 2) != image_kind(file, 3));
    assert forall|i: nat| i < 4 implies #[trigger] image_offset(file, i) + IMAGE_HEADER_LEN
        <= image_offset(file, i + 1) <= file.len() by {
        assert(i == 0 || i == 1 || i == 2 || i == 3);
    }
    assert forall|i: nat, j: nat|
        i < 4 && j < 4 && #[trigger] image_kind(file, i) == #[trigger] image_kind(
            file,
            j,
        ) implies i == j by {
        assert(i == 0 || i == 1 || i == 2 || i == 3);
        assert(j == 0 || j == 1 || j == 2 || j == 3);
    }
    assert forall|kind: ImageKind| image_kind(file, #[trigger] index_of(file, kind)) == kind by {
        if kind is UmacPrimary {
        } else if kind is UmacSecondary {
        } else if kind is LmacPrimary {
        } else {
            assert(kind is LmacSecondary);
        }
    }
}

/// Borrowed view of one firmware image.
#[derive(Clone, Copy, Debug, PartialEq, Eq)]
pub struct FirmwareImage<'a> {
    /// Image role.
    pub kind: ImageKind,
    /// Image bytes.
    pub data: &'a [u8],
}

/// Validated, allocation-free view of a firmware file.
#[derive(Clone, Copy)]
pub struct FirmwareBundle<'a> {
    bytes: &'a [u8],
    header: FirmwareHeader,
}

/// The SHA-256 digest of a byte string.
pub uninterp spec fn sha256(bytes: Seq<u8>) -> Seq<u8>;

/// Calls `sha2::Sha256::digest`. The result is a function of the message
/// alone; beyond its 32-byte length nothing is said of its value. The message
/// must be short enough for the digest's 64-bit count of its bits.
#[verifier::external_body]
fn sha256_digest(bytes: &[u8]) -> (digest: [u8; 32])
    requires
        bytes@.len() <= MAX_DIGEST_LEN,
    ensures
        digest@ == sha256(bytes@),
{
    let mut output = [0u8; 32];
    output.copy_from_slice(&Sha256::digest(bytes));
    output
}

/// Compares two digests in time that does not depend on where they differ.
pub fn digests_match(actual: &[u8; 32], expected: &[u8; 32]) -> (same: bool)
    ensures
        same == (actual@ == expected@),
{
    let mut difference: u8 = 0;
    let mut i: usize = 0;
    while i < 32
        invariant
            i <= 32,
            difference == 0 <==> forall|j: int| 0 <= j < i ==> actual@[j] == expected@[j],
        decreases 32 - i,
    {
        let left: u8 = actual[i];
        let right: u8 = expected[i];
        let earlier: u8 = difference;
        difference = earlier | (left ^ right);
        assert(earlier | (left ^ right) == 0 <==> earlier == 0 && left == right) by (bit_vector);
        i = i + 1;
    }
    assert(difference == 0 ==> actual@ =~= expected@);
    difference == 0
}

impl<'a> FirmwareBundle<'a> {
    #[verifier::type_invariant]
    spec fn inv(self) -> bool {
        bundle_fault(self.bytes@) is None && self.header.reads(self.bytes@)
    }

    /// The complete file.
    pub closed spec fn file(&self) -> Seq<u8> {
        self.bytes@
    }

    /// The hashed payload.
    pub open spec fn payload(&self) -> Seq<u8> {
        self.file().skip(PATCH_HEADER_LEN as int)
    }

    /// Parses the structure and checks the exact supported system-mode
    /// interface.
    pub fn parse(bytes: &'a [u8]) -> (result: Result<Self, FirmwareError>)
        ensures
            match result {
                Ok(bundle) => bundle_fault(bytes@) is None && bundle.file() == bytes@,
                Err(error) => bundle_fault(bytes@) == Some(error),
            },
    {
        if bytes.len() < PATCH_HEADER_LEN {
            return Err(FirmwareError::TruncatedHeader);
        }
        let header = parse_compatible_header(bytes)?;
        exact_payload_end(bytes, header.payload_len)?;
        validate_images(bytes)?;
        Ok(FirmwareBundle { bytes, header })
    }

    /// Returns fixed metadata.
    pub fn header(&self) -> (header: FirmwareHeader)
        ensures
            header.reads(self.file()),
            bundle_fault(self.file()) is None,
    {
        proof {
            use_type_invariant(self);
        }
        self.header
    }

    /// Returns the exact complete file supplied to the parser.
    pub fn as_bytes(&self) -> (bytes: &'a [u8])
        ensures
            bytes@ == self.file(),
            bundle_fault(self.file()) is None,
    {
        proof {
            use_type_invariant(self);
        }
        self.bytes
    }

    /// Computes SHA-256 over the exact complete file.
    pub fn full_sha256(&self) -> (digest: [u8; 32])
        ensures
            digest@ == sha256(self.file()),
    {
        proof {
            use_type_invariant(self);
        }
        sha256_digest(self.bytes)
    }

    /// Verifies the SHA-256 digest stored in the bundle.
    pub fn verify_hash(&self) -> (result: Result<(), FirmwareError>)
        ensures
            result == (if sha256(self.payload()) == stored_hash(self.file()) {
                Ok(())
            } else {
                Err(FirmwareError::HashMismatch)
            }),
    {
        proof {
            use_type_invariant(self);
        }
        let len: usize = self.bytes.len();
        let digest = sha256_digest(&self.bytes[PATCH_HEADER_LEN..len]);
        self.check_hash(&digest)
    }

    /// Compares a payload digest with the one stored in the bundle.
    pub fn check_hash(&self, digest: &[u8; 32]) -> (result: Result<(), FirmwareError>)
        ensures
            result == (if digest@ == stored_hash(self.file()) {
                Ok(())
            } else {
                Err(FirmwareError::HashMismatch)
            }),
    {
        proof {
            use_type_invariant(self);
        }
        if digests_match(digest, &self.header.hash) {
            Ok(())
        } else {
            Err(FirmwareError::HashMismatch)
        }
    }

    /// Returns one image by role. Every valid bundle has each.
    pub fn image(&self, wanted: ImageKind) -> (result: Result<FirmwareImage<'a>, FirmwareError>)
        ensures
            result matches Ok(image) && image.kind == wanted && image.data@ == image_bytes(
                self.file(),
                wanted,
            ),
    {
        proof {
            use_type_invariant(self);
        }
        let (start, end) = self.image_range(wanted)?;
        Ok(FirmwareImage { kind: wanted, data: &self.bytes[start..end] })
    }

    /// Returns where one image lies in the file.
    pub fn image_range(&self, wanted: ImageKind) -> (result: Result<(usize, usize), FirmwareError>)
        ensures
            result matches Ok((start, end)) && start == image_start(self.file(), wanted) && end
                == image_end(self.file(), wanted) && start <= end <= self.file().len(),
    {
        proof {
            use_type_invariant(self);
            law_images_fill_payload(self.bytes@);
        }
        let mut offset: usize = PATCH_HEADER_LEN;
        let mut i: u32 = 0;
        while i < PATCH_IMAGE_COUNT
            invariant
                i <= 4,
                bundle_fault(self.bytes@) is None,
                offset == image_offset(self.bytes@, i as nat),
                offset <= self.bytes@.len(),
                forall|j: nat| j < i ==> #[trigger] image_kind(self.bytes@, j) != wanted,
            decreases 4 - i,
        {
            let ghost file = self.bytes@;
            proof {
                law_images_fill_payload(file);
                reveal_with_fuel(images_fault, 5);
                assert(image_fault(file, i as nat) is None) by {
                    assert(i == 0 || i == 1 || i == 2 || i == 3);
                }
            }
            let (kind, start, end) = image_extent(self.bytes, offset)?;
            assert(kind == image_kind(file, i as nat));
            if kind == wanted {
                assert(index_of(file, wanted) == i) by {
                    assert(image_kind(file, index_of(file, wanted)) == wanted);
                }
                return Ok((start, end));
            }
            offset = end;
            i = i + 1;
        }
        assert(image_kind(self.bytes@, index_of(self.bytes@, wanted)) == wanted) by {
            law_images_fill_payload(self.bytes@);
        }
        Err(FirmwareError::InvalidImageType(wanted.code()))
    }
}

fn parse_compatible_header(bytes: &[u8]) -> (result: Result<FirmwareHeader, FirmwareError>)
    requires
        bytes@.len() >= PATCH_HEADER_LEN,
    ensures
        match result {
            Ok(header) => header_fault(bytes@) is None && header.reads(bytes@),
            Err(error) => header_fault(bytes@) == Some(error),
        },
{
    let signature: u32 = codec::read_u32(bytes, 0);
    if signature != PATCH_SIGNATURE {
        return Err(FirmwareError::BadSignature(signature));
    }
    let image_count: u32 = codec::read_u32(bytes, 4);
    if image_count != PATCH_IMAGE_COUNT {
        return Err(FirmwareError::BadImageCount(image_count));
    }
    let version: u32 = codec::read_u32(bytes, 8);
    if version != PINNED_PATCH_VERSION {
        return Err(FirmwareError::IncompatibleVersion(version));
    }
    let feature_flags: u32 = codec::read_u32(bytes, 12);
    if feature_flags != FEATURE_SYSTEM_MODE {
        return Err(FirmwareError::IncompatibleFeatures(feature_flags));
    }
    let payload_len: u32 = codec::read_u32(bytes, 16);
    let mut hash = [0u8; 32];
    let mut i: usize = 0;
    while i < 32
        invariant
            i <= 32,
            bytes@.len() >= PATCH_HEADER_LEN,
            forall|j: int| 0 <= j < i ==> hash@[j] == bytes@[20 + j],
        decreases 32 - i,
    {
        hash[i] = bytes[20 + i];
        i = i + 1;
    }
    assert(hash@ =~= stored_hash(bytes@));
    Ok(FirmwareHeader { version, feature_flags, payload_len, hash })
}

fn exact_payload_end(bytes: &[u8], payload_len: u32) -> (result: Result<usize, FirmwareError>)
    requires
        bytes@.len() >= PATCH_HEADER_LEN,
        payload_len == codec::u32_at(bytes@, 16),
    ensures
        match result {
            Ok(end) => length_fault(bytes@) is None && end == bytes@.len(),
            Err(error) => length_fault(bytes@) == Some(error),
        },
{
    let len: usize = bytes.len();
    let payload_end: usize = match PATCH_HEADER_LEN.checked_add(payload_len as usize) {
        Some(payload_end) => payload_end,
        None => return Err(FirmwareError::TruncatedPayload),
    };
    if payload_end > len {
        return Err(FirmwareError::TruncatedPayload);
    }
    if payload_end != len {
        return Err(FirmwareError::LengthMismatch);
    }
    Ok(payload_end)
}

fn image_extent(bytes: &[u8], offset: usize) -> (result: Result<
    (ImageKind, usize, usize),
    FirmwareError,
>)
    ensures
        match result {
            Ok((kind, start, end)) => {
                &&& extent(bytes@, offset as int) == Ok::<(ImageKind, int), FirmwareError>(
                    (kind, end as int),
                )
                &&& start == offset + IMAGE_HEADER_LEN
                &&& start <= end <= bytes@.len()
            },
            Err(error) => extent(bytes@, offset as int) == Err::<(ImageKind, int), FirmwareError>(
                error,
            ),
        },
{
    let len: usize = bytes.len();
    let header_end: usize = match offset.checked_add(IMAGE_HEADER_LEN) {
        Some(header_end) => header_end,
        None => return Err(FirmwareError::TruncatedImage),
    };
    if header_end > len {
        return Err(FirmwareError::TruncatedImage);
    }
    let kind = ImageKind::from_u32(codec::read_u32(bytes, offset))?;
    let image_len: usize = codec::read_u32(bytes, offset + 4) as usize;
    let end: usize = match header_end.checked_add(image_len) {
        Some(end) => end,
        None => return Err(FirmwareError::TruncatedImage),
    };
    if end > len {
        return Err(FirmwareError::TruncatedImage);
    }
    Ok((kind, header_end, end))
}

fn validate_images(bytes: &[u8]) -> (result: Result<(), FirmwareError>)
    requires
        bytes@.len() >= PATCH_HEADER_LEN,
    ensures
        match result {
            Ok(()) => images_fault(bytes@, 0) is None,
            Err(error) => images_fault(bytes@, 0) == Some(error),
        },
{
    let ghost file = bytes@;
    let mut offset: usize = PATCH_HEADER_LEN;
    let mut seen = [false; 4];
    let mut i: u32 = 0;
    while i < PATCH_IMAGE_COUNT
        invariant
            i <= 4,
            file == bytes@,
            offset == image_offset(file, i as nat),
            offset <= bytes@.len(),
            images_fault(file, 0) == images_fault(file, i as nat),
            forall|kind: ImageKind| #[trigger]
                seen@[kind.wire() as int] <==> exists|j: nat|
                    j < i && #[trigger] image_kind(file, j) == kind,
        decreases 4 - i,
    {
        let (kind, _, end) = image_extent(bytes, offset)?;
        let ghost earlier = seen@;
        let mark: usize = kind.code() as usize;
        if seen[mark] {
            return Err(FirmwareError::InvalidImageType(kind.code()));
        }
        seen[mark] = true;
        proof {
            assert(image_kind(file, i as nat) == kind);
            assert(image_fault(file, i as nat) is None);
            assert forall|other: ImageKind| #[trigger]
                seen@[other.wire() as int] <==> exists|j: nat|
                    j < i + 1 && #[trigger] image_kind(file, j) == other by {
                if other == kind {
                    assert(image_kind(file, i as nat) == other);
                } else {
                    assert(other.wire() != kind.wire());
                    assert(seen@[other.wire() as int] == earlier[other.wire() as int]);
                }
            }
        }
        offset = end;
        i = i + 1;
    }
    if offset != bytes.len() {
        return Err(FirmwareError::LengthMismatch);
    }
    Ok(())
}

/// External policy that authorizes one complete firmware file.
///
/// The policy is separate from the digest stored inside the bundle. Thus, an
/// attacker cannot replace both the firmware bytes and the bundle-owned digest
/// and still pass authorization.
pub trait FirmwareTrustPolicy {
    /// Authorizes the exact complete file supplied to the parser.
    fn verify(&self, bundle: &FirmwareBundle<'_>) -> (result: Result<(), FirmwareError>);
}

/// Trust policy for one externally pinned complete-file SHA-256 value.
#[derive(Clone, Copy, Debug, PartialEq, Eq)]
pub struct PinnedFirmwareSha256 {
    /// The pinned digest.
    pub expected: [u8; 32],
}

impl PinnedFirmwareSha256 {
    /// Creates a policy from a digest stored outside the bundle.
    pub fn new(expected: [u8; 32]) -> (policy: Self)
        ensures
            policy.expected == expected,
    {
        PinnedFirmwareSha256 { expected }
    }

    /// Returns the configured complete-file digest.
    pub fn expected(&self) -> (expected: [u8; 32])
        ensures
            expected == self.expected,
    {
        self.expected
    }

    /// Compares a complete-file digest with the pinned one.
    pub fn check_digest(&self, actual: &[u8; 32]) -> (result: Result<(), FirmwareError>)
        ensures
            result == (if actual@ == self.expected@ {
                Ok(())
            } else {
                Err(FirmwareError::UntrustedImage)
            }),
    {
        if digests_match(actual, &self.expected) {
            Ok(())
        } else {
            Err(FirmwareError::UntrustedImage)
        }
    }
}

impl FirmwareTrustPolicy for PinnedFirmwareSha256 {
    fn verify(&self, bundle: &FirmwareBundle<'_>) -> (result: Result<(), FirmwareError>)
        ensures
            result == (if sha256(bundle.file()) == self.expected@ {
                Ok(())
            } else {
                Err(FirmwareError::UntrustedImage)
            }),
    {
        let actual = bundle.full_sha256();
        self.check_digest(&actual)
    }
}

/// Successful firmware start report.
#[derive(Clone, Copy, Debug, PartialEq, Eq, Structural)]
pub struct FirmwareReport {
    /// Bundle version loaded into the RPU.
    pub version: u32,
    /// Feature flags accepted by the loader.
    pub feature_flags: u32,
}

/// Addresses and values that boot one processor.
#[derive(Clone, Copy)]
pub struct BootConfig {
    pub signature_address: u32,
    pub sleep_control: u32,
    pub patch_offset: u32,
    pub run_register: u32,
    /// First of the four boot vector registers.
    pub vector_register: u32,
}

/// The boot configuration of a processor. The patch offset is that of the boot
/// image in the processor's retained memory.
pub open spec fn boot_config_of(processor: Processor) -> BootConfig {
    match processor {
        Processor::Lmac => BootConfig {
            signature_address: RPU_MEM_LMAC_BOOT_SIG,
            sleep_control: RPU_REG_UCC_SLEEP_CTRL_DATA_0,
            patch_offset: 0xbbc0,
            run_register: RPU_REG_MIPS_MCU_CONTROL,
            vector_register: 0xa400_0050,
        },
        Processor::Umac => BootConfig {
            signature_address: RPU_MEM_UMAC_BOOT_SIG,
            sleep_control: RPU_REG_UCC_SLEEP_CTRL_DATA_1,
            patch_offset: 0x1b800,
            run_register: RPU_REG_MIPS_MCU2_CONTROL,
            vector_register: 0xa400_0150,
        },
    }
}

/// Returns the boot configuration of a processor.
pub fn boot_config(processor: Processor) -> (config: BootConfig)
    ensures
        config == boot_config_of(processor),
{
    match processor {
        Processor::Lmac => BootConfig {
            signature_address: RPU_MEM_LMAC_BOOT_SIG,
            sleep_control: RPU_REG_UCC_SLEEP_CTRL_DATA_0,
            patch_offset: 0xbbc0,
            run_register: RPU_REG_MIPS_MCU_CONTROL,
            vector_register: 0xa400_0050,
        },
        Processor::Umac => BootConfig {
            signature_address: RPU_MEM_UMAC_BOOT_SIG,
            sleep_control: RPU_REG_UCC_SLEEP_CTRL_DATA_1,
            patch_offset: 0x1b800,
            run_register: RPU_REG_MIPS_MCU2_CONTROL,
            vector_register: 0xa400_0150,
        },
    }
}

/// The jump instructions that the boot vectors hold.
pub open spec fn boot_vector(index: int) -> u32 {
    if index == 0 {
        0x3c1a_8000
    } else if index == 1 {
        0x275a_0000
    } else if index == 2 {
        0x0340_0008
    } else {
        0
    }
}

/// Number of accesses that program a boot.
pub const BOOT_PROGRAM_LEN: u8 = 7;

/// The accesses that program a boot, in order: clear the signature, point the
/// sleep controller at the patch, set the four vectors and run.
pub open spec fn boot_access(processor: Processor, step: u8) -> RpuRequest {
    let config = boot_config_of(processor);
    if step == 0 {
        RpuRequest::WriteWord { processor, address: config.signature_address, value: 0 }
    } else if step == 1 {
        memory::write_register_request(config.sleep_control, config.patch_offset)
    } else if step < 6 {
        memory::write_register_request(
            (config.vector_register + 4 * (step - 2)) as u32,
            boot_vector(step - 2),
        )
    } else {
        memory::write_register_request(config.run_register, 1)
    }
}

/// Programs one processor and waits for its boot signature.
#[derive(Clone, Copy, Debug, PartialEq, Eq, Structural)]
pub struct Boot {
    pub processor: Processor,
    /// Programming accesses done.
    pub step: u8,
    pub poll: BoundedPoll,
}

impl Boot {
    /// A boot that has done nothing yet.
    pub open spec fn fresh(processor: Processor) -> Boot {
        Boot {
            processor,
            step: 0,
            poll: BoundedPoll { left: BOOT_POLL_ATTEMPTS, phase: PollPhase::Sample },
        }
    }

    /// The access that comes next, `None` once the signature was seen, or the
    /// timeout.
    pub open spec fn next<E>(self) -> Result<Option<RpuRequest>, RpuError<E>> {
        if self.step < BOOT_PROGRAM_LEN {
            Ok(Some(boot_access(self.processor, self.step)))
        } else if self.poll.phase == PollPhase::Met {
            Ok(None)
        } else if self.poll.phase == PollPhase::Pause {
            Ok(Some(RpuRequest::Delay { ms: BOOT_POLL_DELAY_MS }))
        } else if self.poll.left == 0 {
            Err(RpuError::Timeout)
        } else {
            Ok(
                Some(
                    RpuRequest::Read {
                        processor: self.processor,
                        address: boot_config_of(self.processor).signature_address,
                        len: 4,
                    },
                ),
            )
        }
    }

    /// The sequence after a successful access.
    pub open spec fn after(self, bytes: Seq<u8>) -> Boot {
        if self.step < BOOT_PROGRAM_LEN {
            Boot { step: (self.step + 1) as u8, ..self }
        } else if self.poll.phase == PollPhase::Pause {
            Boot { poll: BoundedPoll { phase: PollPhase::Sample, ..self.poll }, ..self }
        } else {
            Boot {
                poll: self.poll.after_sample(codec::u32_at(bytes, 0) == BOOT_SIGNATURE),
                ..self
            }
        }
    }

    /// Starts a boot.
    pub fn new(processor: Processor) -> (boot: Self)
        ensures
            boot == Self::fresh(processor),
    {
        Boot { processor, step: 0, poll: BoundedPoll::new(BOOT_POLL_ATTEMPTS) }
    }

    /// Returns the next access, `None` once the processor runs, or the
    /// timeout.
    pub fn request<E>(&self) -> (result: Result<Option<RpuRequest>, RpuError<E>>)
        ensures
            result == self.next::<E>(),
    {
        let config = boot_config(self.processor);
        if self.step < BOOT_PROGRAM_LEN {
            return Ok(Some(self.program_access(config)));
        }
        match self.poll.phase {
            PollPhase::Met => Ok(None),
            PollPhase::Pause => Ok(Some(RpuRequest::Delay { ms: BOOT_POLL_DELAY_MS })),
            PollPhase::Sample => {
                if self.poll.left == 0 {
                    return Err(RpuError::Timeout);
                }
                Ok(
                    Some(
                        RpuRequest::Read {
                            processor: self.processor,
                            address: config.signature_address,
                            len: 4,
                        },
                    ),
                )
            },
        }
    }

    fn program_access(&self, config: BootConfig) -> (request: RpuRequest)
        requires
            self.step < BOOT_PROGRAM_LEN,
            config == boot_config_of(self.processor),
        ensures
            request == boot_access(self.processor, self.step),
    {
        match self.step {
            0 => RpuRequest::WriteWord {
                processor: self.processor,
                address: config.signature_address,
                value: 0,
            },
            1 => memory::write_register(config.sleep_control, config.patch_offset),
            2 => memory::write_register(config.vector_register, 0x3c1a_8000),
            3 => memory::write_register(config.vector_register + 4, 0x275a_0000),
            4 => memory::write_register(config.vector_register + 8, 0x0340_0008),
            5 => memory::write_register(config.vector_register + 12, 0),
            _ => memory::write_register(config.run_register, 1),
        }
    }

    /// Takes the outcome of the access that [`Boot::request`] asked for.
    pub fn resume<E>(&mut self, reply: Result<&[u8], RpuError<E>>) -> (result: Result<
        (),
        RpuError<E>,
    >)
        requires
            old(self).next::<E>() matches Ok(Some(request)) && request.answered_by(reply),
        ensures
            match reply {
                Ok(bytes) => result is Ok && *final(self) == old(self).after(bytes@),
                Err(error) => result == Err::<(), RpuError<E>>(error) && *final(self) == *old(self),
            },
    {
        let bytes: &[u8] = match reply {
            Ok(bytes) => bytes,
            Err(error) => return Err(error),
        };
        if self.step < BOOT_PROGRAM_LEN {
            self.step = self.step + 1;
        } else if self.poll.phase == PollPhase::Pause {
            self.poll.paused();
        } else {
            self.poll.sampled(codec::read_u32(bytes, 0) == BOOT_SIGNATURE);
        }
        Ok(())
    }
}

/// What a firmware load is doing.
#[derive(Clone, Copy, Debug, PartialEq, Eq, Structural)]
pub enum LoadPhase {
    Reset(ProcessorReset),
    Download(ImageKind),
    Boot(Boot),
    Loaded,
}

impl LoadPhase {
    /// The phase behind a finished one: both resets, the UMAC and then the
    /// LMAC images, both boots.
    pub open spec fn following(self) -> LoadPhase {
        match self {
            LoadPhase::Reset(reset) => match reset.processor {
                Processor::Lmac => LoadPhase::Reset(
                    ProcessorReset {
                        processor: Processor::Umac,
                        stage: ResetStage::Assert,
                        poll: ProcessorReset::clear_poll(Processor::Umac),
                    },
                ),
                Processor::Umac => LoadPhase::Download(ImageKind::UmacPrimary),
            },
            LoadPhase::Download(kind) => match kind {
                ImageKind::UmacPrimary => LoadPhase::Download(ImageKind::UmacSecondary),
                ImageKind::UmacSecondary => LoadPhase::Download(ImageKind::LmacPrimary),
                ImageKind::LmacPrimary => LoadPhase::Download(ImageKind::LmacSecondary),
                ImageKind::LmacSecondary => LoadPhase::Boot(Boot::fresh(Processor::Lmac)),
            },
            LoadPhase::Boot(boot) => match boot.processor {
                Processor::Lmac => LoadPhase::Boot(Boot::fresh(Processor::Umac)),
                Processor::Umac => LoadPhase::Loaded,
            },
            LoadPhase::Loaded => LoadPhase::Loaded,
        }
    }

    /// Position of the phase in the order of a load.
    pub open spec fn rank(self) -> nat {
        match self {
            LoadPhase::Reset(reset) => match reset.processor {
                Processor::Lmac => 0,
                Processor::Umac => 1,
            },
            LoadPhase::Download(kind) => 2 + kind.wire() as nat,
            LoadPhase::Boot(boot) => match boot.processor {
                Processor::Lmac => 6,
                Processor::Umac => 7,
            },
            LoadPhase::Loaded => 8,
        }
    }

    /// The operation that a failed access belongs to.
    pub open spec fn stage(self) -> LoadStage {
        match self {
            LoadPhase::Reset(reset) => LoadStage::Reset(reset.processor),
            LoadPhase::Download(kind) => LoadStage::Download(kind),
            LoadPhase::Boot(boot) => LoadStage::Boot(boot.processor),
            LoadPhase::Loaded => LoadStage::Boot(Processor::Umac),
        }
    }

    fn load_stage(self) -> (stage: LoadStage)
        ensures
            stage == self.stage(),
    {
        match self {
            LoadPhase::Reset(reset) => LoadStage::Reset(reset.processor),
            LoadPhase::Download(kind) => LoadStage::Download(kind),
            LoadPhase::Boot(boot) => LoadStage::Boot(boot.processor),
            LoadPhase::Loaded => LoadStage::Boot(Processor::Umac),
        }
    }

    fn next_phase(self) -> (phase: LoadPhase)
        ensures
            phase == self.following(),
    {
        match self {
            LoadPhase::Reset(reset) => match reset.processor {
                Processor::Lmac => LoadPhase::Reset(ProcessorReset::new(Processor::Umac)),
                Processor::Umac => LoadPhase::Download(ImageKind::UmacPrimary),
            },
            LoadPhase::Download(kind) => match kind {
                ImageKind::UmacPrimary => LoadPhase::Download(ImageKind::UmacSecondary),
                ImageKind::UmacSecondary => LoadPhase::Download(ImageKind::LmacPrimary),
                ImageKind::LmacPrimary => LoadPhase::Download(ImageKind::LmacSecondary),
                ImageKind::LmacSecondary => LoadPhase::Boot(Boot::new(Processor::Lmac)),
            },
            LoadPhase::Boot(boot) => match boot.processor {
                Processor::Lmac => LoadPhase::Boot(Boot::new(Processor::Umac)),
                Processor::Umac => LoadPhase::Loaded,
            },
            LoadPhase::Loaded => LoadPhase::Loaded,
        }
    }

    /// The running part of a phase has not reached its end.
    pub open spec fn wf(self) -> bool {
        match self {
            LoadPhase::Reset(reset) => reset.wf() && reset.stage != ResetStage::Waiting,
            LoadPhase::Boot(boot) => boot.poll.phase != PollPhase::Met,
            _ => true,
        }
    }

    /// The phase after a successful access.
    pub open spec fn after(self, bytes: Seq<u8>) -> LoadPhase {
        match self {
            LoadPhase::Reset(reset) => if reset.after(bytes).stage == ResetStage::Waiting {
                self.following()
            } else {
                LoadPhase::Reset(reset.after(bytes))
            },
            LoadPhase::Download(_) => self.following(),
            LoadPhase::Boot(boot) => if boot.after(bytes).poll.phase == PollPhase::Met {
                self.following()
            } else {
                LoadPhase::Boot(boot.after(bytes))
            },
            LoadPhase::Loaded => self,
        }
    }

    /// The access that comes next for a file.
    pub open spec fn next<E>(self, file: Seq<u8>) -> Result<Option<RpuRequest>, LoadError<E>> {
        match self {
            LoadPhase::Reset(reset) => match reset.next::<E>() {
                Ok(request) => Ok(request),
                Err(error) => Err(LoadError::Rpu { stage: self.stage(), error }),
            },
            LoadPhase::Download(kind) => Ok(
                Some(
                    RpuRequest::WriteFrom {
                        processor: kind.target().0,
                        address: kind.target().1,
                        start: image_start(file, kind) as usize,
                        len: (image_end(file, kind) - image_start(file, kind)) as usize,
                    },
                ),
            ),
            LoadPhase::Boot(boot) => match boot.next::<E>() {
                Ok(request) => Ok(request),
                Err(error) => Err(LoadError::Rpu { stage: self.stage(), error }),
            },
            LoadPhase::Loaded => Ok(None),
        }
    }
}

/// Asks the trust policy and then checks the stored payload digest.
pub fn authorize<T: FirmwareTrustPolicy + ?Sized>(
    trust: &T,
    bundle: &FirmwareBundle<'_>,
) -> (result: Result<(), FirmwareError>)
    ensures
        match result {
            Ok(()) => {
                &&& call_ensures(T::verify, (trust, bundle), Ok(()))
                &&& sha256(bundle.payload()) == stored_hash(bundle.file())
            },
            Err(error) => {
                ||| call_ensures(T::verify, (trust, bundle), Err(error))
                ||| {
                    &&& call_ensures(T::verify, (trust, bundle), Ok(()))
                    &&& sha256(bundle.payload()) != stored_hash(bundle.file())
                    &&& error == FirmwareError::HashMismatch
                }
            },
        },
{
    trust.verify(bundle)?;
    bundle.verify_hash()
}

/// Downloads an authorized bundle and boots both processors.
///
/// The data of every download request is the bundle's file.
pub struct FirmwareLoad<'a> {
    bundle: FirmwareBundle<'a>,
    phase: LoadPhase,
}

impl<'a> FirmwareLoad<'a> {
    #[verifier::type_invariant]
    spec fn inv(self) -> bool {
        self.phase.wf()
    }

    /// The file being loaded.
    pub closed spec fn file(&self) -> Seq<u8> {
        self.bundle.file()
    }

    /// What the load is doing.
    pub closed spec fn current(&self) -> LoadPhase {
        self.phase
    }

    /// Authorizes the bundle and starts with the reset of the LMAC.
    pub fn begin<T: FirmwareTrustPolicy + ?Sized>(
        bundle: &FirmwareBundle<'a>,
        trust: &T,
    ) -> (result: Result<Self, FirmwareError>)
        ensures
            match result {
                Ok(load) => {
                    &&& call_ensures(T::verify, (trust, bundle), Ok(()))
                    &&& sha256(bundle.payload()) == stored_hash(bundle.file())
                    &&& load.file() == bundle.file()
                    &&& load.current() == LoadPhase::Reset(
                        ProcessorReset {
                            processor: Processor::Lmac,
                            stage: ResetStage::Assert,
                            poll: ProcessorReset::clear_poll(Processor::Lmac),
                        },
                    )
                },
                Err(error) => {
                    ||| call_ensures(T::verify, (trust, bundle), Err(error))
                    ||| {
                        &&& call_ensures(T::verify, (trust, bundle), Ok(()))
                        &&& sha256(bundle.payload()) != stored_hash(bundle.file())
                        &&& error == FirmwareError::HashMismatch
                    }
                },
            },
    {
        authorize(trust, bundle)?;
        Ok(
            FirmwareLoad {
                bundle: *bundle,
                phase: LoadPhase::Reset(ProcessorReset::new(Processor::Lmac)),
            },
        )
    }

    /// Returns the operation that is active.
    pub fn stage(&self) -> (stage: LoadStage)
        ensures
            stage == self.current().stage(),
    {
        self.phase.load_stage()
    }

    /// Returns the next access, `None` once both processors run, or the error
    /// of the operation that failed.
    pub fn request<E>(&self) -> (result: Result<Option<RpuRequest>, LoadError<E>>)
        ensures
            result == self.current().next::<E>(self.file()),
    {
        proof {
            use_type_invariant(self);
        }
        let stage = self.phase.load_stage();
        match &self.phase {
            LoadPhase::Reset(reset) => match reset.request() {
                Ok(request) => Ok(request),
                Err(error) => Err(LoadError::Rpu { stage, error }),
            },
            LoadPhase::Download(kind) => {
                let (processor, address) = kind.destination();
                let (start, end) = match self.bundle.image_range(*kind) {
                    Ok(range) => range,
                    Err(error) => return Err(LoadError::Firmware(error)),
                };
                Ok(Some(RpuRequest::WriteFrom { processor, address, start, len: end - start }))
            },
            LoadPhase::Boot(boot) => match boot.request() {
                Ok(request) => Ok(request),
                Err(error) => Err(LoadError::Rpu { stage, error }),
            },
            LoadPhase::Loaded => Ok(None),
        }
    }

    /// Takes the outcome of the access that [`FirmwareLoad::request`] asked
    /// for.
    pub fn resume<E>(&mut self, reply: Result<&[u8], RpuError<E>>) -> (result: Result<
        (),
        LoadError<E>,
    >)
        requires
            old(self).current().next::<E>(old(self).file()) matches Ok(Some(request))
                && request.answered_by(reply),
        ensures
            final(self).file() == old(self).file(),
            match reply {
                Ok(bytes) => result is Ok && final(self).current() == old(self).current().after(
                    bytes@,
                ),
                Err(error) => {
                    &&& result == Err::<(), LoadError<E>>(
                        LoadError::Rpu { stage: old(self).current().stage(), error },
                    )
                    &&& final(self).current() == old(self).current()
                },
            },
    {
        proof {
            use_type_invariant(&*self);
        }
        let phase = self.phase;
        let stage = phase.load_stage();
        let bytes: &[u8] = match reply {
            Ok(bytes) => bytes,
            Err(error) => return Err(LoadError::Rpu { stage, error }),
        };
        let next = match phase {
            LoadPhase::Reset(reset) => {
                let mut reset = reset;
                let outcome: Result<(), RpuError<E>> = reset.resume::<E>(Ok(bytes));
                if let Err(error) = outcome {
                    return Err(LoadError::Rpu { stage, error });
                }
                if reset.stage == ResetStage::Waiting {
                    phase.next_phase()
                } else {
                    LoadPhase::Reset(reset)
                }
            },
            LoadPhase::Download(_) => phase.next_phase(),
            LoadPhase::Boot(boot) => {
                let mut boot = boot;
                let outcome: Result<(), RpuError<E>> = boot.resume::<E>(Ok(bytes));
                if let Err(error) = outcome {
                    return Err(LoadError::Rpu { stage, error });
                }
                if boot.poll.phase == PollPhase::Met {
                    phase.next_phase()
                } else {
                    LoadPhase::Boot(boot)
                }
            },
            LoadPhase::Loaded => phase,
        };
        self.phase = next;
        Ok(())
    }

    /// Returns the report of a finished load.
    pub fn report(&self) -> (report: Option<FirmwareReport>)
        ensures
            report == (if self.current() == LoadPhase::Loaded {
                Some(
                    FirmwareReport {
                        version: PINNED_PATCH_VERSION,
                        feature_flags: FEATURE_SYSTEM_MODE,
                    },
                )
            } else {
                None::<FirmwareReport>
            }),
    {
        match self.phase {
            LoadPhase::Loaded => {
                let header = self.bundle.header();
                Some(
                    FirmwareReport { version: header.version, feature_flags: header.feature_flags },
                )
            },
            _ => None,
        }
    }
}

/// A load never skips a phase: each access leaves it in its phase or moves it
/// to the one that follows, which brings it exactly one closer to the end.
pub proof fn law_load_keeps_its_order(phase: LoadPhase, bytes: Seq<u8>)
    requires
        phase != LoadPhase::Loaded,
    ensures
        phase.following().rank() == phase.rank() + 1,
        phase.after(bytes).rank() == phase.rank() || phase.after(bytes) == phase.following(),
        phase.rank() < LoadPhase::Loaded.rank(),
{
}

/// Whether a phase boots this processor.
pub open spec fn boots(phase: LoadPhase, processor: Processor) -> bool {
    phase matches LoadPhase::Boot(boot) && boot.processor == processor
}

/// Whether an answer in this phase is the boot signature of this processor,
/// read behind its whole boot program.
pub open spec fn boot_confirmed(phase: LoadPhase, processor: Processor, bytes: Seq<u8>) -> bool {
    phase matches LoadPhase::Boot(boot) && boot.processor == processor && boot.step
        >= BOOT_PROGRAM_LEN && codec::u32_at(bytes, 0) == BOOT_SIGNATURE
}

/// A load ends only when both processors have published their boot signatures:
/// the UMAC is booted only behind the signature of the LMAC, and the load ends
/// only behind the signature of the UMAC.
pub proof fn law_loaded_needs_boot_signature(phase: LoadPhase, bytes: Seq<u8>)
    requires
        phase.wf(),
        phase != LoadPhase::Loaded,
    ensures
        boots(phase.after(bytes), Processor::Umac) && !boots(phase, Processor::Umac)
            ==> boot_confirmed(phase, Processor::Lmac, bytes),
        phase.after(bytes) == LoadPhase::Loaded ==> boot_confirmed(phase, Processor::Umac, bytes),
{
}

/// A patch file is accepted only with the signature, the four images, the pinned
/// version and the system feature in its header, and only when its declared payload
/// is all that follows the 52-byte header.
pub proof fn law_accepted_bundles_are_pinned(file: Seq<u8>)
    ensures
        bundle_fault(file) is None ==> {
            &&& file.len() == 52 + codec::u32_at(file, 16)
            &&& codec::u32_at(file, 0) == 0xdead_1eaf
            &&& codec::u32_at(file, 4) == 4
            &&& codec::u32_at(file, 8) == 0x0102_0e09
            &&& codec::u32_at(file, 12) == 1
        },
        file.len() < 52 ==> bundle_fault(file) == Some(FirmwareError::TruncatedHeader),
        file.len() >= 52 && codec::u32_at(file, 0) != 0xdead_1eaf ==> bundle_fault(file) == Some(
            FirmwareError::BadSignature(codec::u32_at(file, 0)),
        ),
        file.len() >= 52 && codec::u32_at(file, 0) == 0xdead_1eaf && codec::u32_at(file, 4) != 4
            ==> bundle_fault(file) == Some(FirmwareError::BadImageCount(codec::u32_at(file, 4))),
        file.len() >= 52 && codec::u32_at(file, 0) == 0xdead_1eaf && codec::u32_at(file, 4) == 4
            && codec::u32_at(file, 8) != 0x0102_0e09 ==> bundle_fault(file) == Some(
            FirmwareError::IncompatibleVersion(codec::u32_at(file, 8)),
        ),
        file.len() >= 52 && codec::u32_at(file, 0) == 0xdead_1eaf && codec::u32_at(file, 4) == 4
            && codec::u32_at(file, 8) == 0x0102_0e09 && codec::u32_at(file, 12) != 1
            ==> bundle_fault(file) == Some(
            FirmwareError::IncompatibleFeatures(codec::u32_at(file, 12)),
        ),
        file.len() >= 52 && header_fault(file) is None && file.len() < 52 + codec::u32_at(file, 16)
            ==> bundle_fault(file) == Some(FirmwareError::TruncatedPayload),
        file.len() >= 52 && header_fault(file) is None && file.len() > 52 + codec::u32_at(file, 16)
            ==> bundle_fault(file) == Some(FirmwareError::LengthMismatch),
{
}

/// A header reads the version, the features, the payload length and the 32-byte
/// digest from their places.
pub proof fn law_firmware_header_layout(header: FirmwareHeader, file: Seq<u8>)
    requires
        header.reads(file),
        file.len() >= 52,
    ensures
        header.version == codec::u32_at(file, 8),
        header.feature_flags == codec::u32_at(file, 12),
        header.payload_len == codec::u32_at(file, 16),
        header.hash@.len() == 32,
        forall|i: int| 0 <= i < 32 ==> header.hash@[i] == #[trigger] file.skip(20)[i],
{
}

/// Every image starts with its type and its length, four bytes each, and holds that
/// many bytes behind them.
pub proof fn law_images_declare_themselves(file: Seq<u8>, kind: ImageKind)
    requires
        bundle_fault(file) is None,
    ensures
        ({
            let start = image_start(file, kind);
            let code = match kind {
                ImageKind::UmacPrimary => 0u32,
                ImageKind::UmacSecondary => 1,
                ImageKind::LmacPrimary => 2,
                ImageKind::LmacSecondary => 3,
            };
            &&& 60 <= start <= image_end(file, kind) <= file.len()
            &&& codec::u32_at(file, start - 8) == code
            &&& codec::u32_at(file, start - 4) == image_end(file, kind) - start
            &&& image_bytes(file, kind) == file.subrange(start, image_end(file, kind))
        }),
{
    law_images_fill_payload(file);
    let index = index_of(file, kind);
    assert(image_kind(file, index) == kind);
    lemma_image_accepted(file, index);
    lemma_image_extent(file, index);
    lemma_image_offsets(file, index);
}

/// Every image of an accepted file has an extent.
proof fn lemma_image_accepted(file: Seq<u8>, index: nat)
    requires
        bundle_fault(file) is None,
        index < 4,
    ensures
        extent(file, image_offset(file, index)) is Ok,
{
    reveal_with_fuel(images_fault, 5);
    assert(image_fault(file, 0) is None);
    assert(image_fault(file, 1) is None);
    assert(image_fault(file, 2) is None);
    assert(image_fault(file, 3) is None);
    assert(index == 0 || index == 1 || index == 2 || index == 3);
}

/// An extent starts with its kind and its length and ends where the next one starts.
proof fn lemma_image_extent(file: Seq<u8>, index: nat)
    requires
        extent(file, image_offset(file, index)) is Ok,
    ensures
        ({
            let offset = image_offset(file, index);
            &&& kind_of(codec::u32_at(file, offset)) == Some(image_kind(file, index))
            &&& image_offset(file, index + 1) == offset + 8 + codec::u32_at(file, offset + 4)
            &&& image_offset(file, index + 1) <= file.len()
        }),
{
}

/// Images start behind the header of the file.
proof fn lemma_image_offsets(file: Seq<u8>, index: nat)
    ensures
        52 <= image_offset(file, index),
    decreases index,
{
    if index > 0 {
        lemma_image_offsets(file, (index - 1) as nat);
    }
}

/// Each image goes to the patch memory of its own processor.
pub proof fn law_images_have_their_own_target(kind: ImageKind)
    ensures
        kind is UmacPrimary ==> kind.target() == (Processor::Umac, 0x8009_b800u32),
        kind is UmacSecondary ==> kind.target() == (Processor::Umac, 0x8008_c000u32),
        kind is LmacPrimary ==> kind.target() == (Processor::Lmac, 0x8004_bbc0u32),
        kind is LmacSecondary ==> kind.target() == (Processor::Lmac, 0x8004_3a80u32),
        memory::mapped(kind.target().0, kind.target().1) is Some,
{
    memory::law_address_map(kind.target().0, kind.target().1);
}

/// A load resets both processors, downloads the four images in order and boots the
/// LMAC before the UMAC.
pub proof fn law_load_program<E>(file: Seq<u8>, kind: ImageKind, reset: ProcessorReset, boot: Boot)
    ensures
        reset.processor is Lmac ==> (LoadPhase::Reset(reset).following()
            matches LoadPhase::Reset(next) && next.processor is Umac && next.stage
            == ResetStage::Assert),
        reset.processor is Umac ==> LoadPhase::Reset(reset).following() == LoadPhase::Download(
            ImageKind::UmacPrimary,
        ),
        LoadPhase::Download(ImageKind::UmacPrimary).following() == LoadPhase::Download(
            ImageKind::UmacSecondary,
        ),
        LoadPhase::Download(ImageKind::UmacSecondary).following() == LoadPhase::Download(
            ImageKind::LmacPrimary,
        ),
        LoadPhase::Download(ImageKind::LmacPrimary).following() == LoadPhase::Download(
            ImageKind::LmacSecondary,
        ),
        LoadPhase::Download(ImageKind::LmacSecondary).following() matches LoadPhase::Boot(next)
            && next.processor is Lmac && next.step == 0 && next.poll.left == 100,
        boot.processor is Lmac ==> (LoadPhase::Boot(boot).following() matches LoadPhase::Boot(next)
            && next.processor is Umac && next.step == 0 && next.poll.left == 100),
        boot.processor is Umac ==> LoadPhase::Boot(boot).following() == LoadPhase::Loaded,
        LoadPhase::Download(kind).next::<E>(file) == Ok::<Option<RpuRequest>, LoadError<E>>(
            Some(
                RpuRequest::WriteFrom {
                    processor: kind.target().0,
                    address: kind.target().1,
                    start: image_start(file, kind) as usize,
                    len: (image_end(file, kind) - image_start(file, kind)) as usize,
                },
            ),
        ),
{
}

/// The boot program of a processor clears its boot signature, names its patch,
/// writes the four words of the boot vector that jumps to it and starts the
/// processor.
pub proof fn law_boot_program(processor: Processor)
    ensures
        ({
            let lmac = processor is Lmac;
            let register = |address: u32, value: u32|
                RpuRequest::WriteWord { processor: Processor::Lmac, address, value };
            let vector = if lmac {
                0xa400_0050u32
            } else {
                0xa400_0150u32
            };
            &&& boot_access(processor, 0) == (RpuRequest::WriteWord {
                processor,
                address: if lmac {
                    0xb700_0d50
                } else {
                    0xb000_0000
                },
                value: 0,
            })
            &&& boot_access(processor, 1) == (if lmac {
                register(0xa400_2c2c, 0xbbc0)
            } else {
                register(0xa400_2c30, 0x1_b800)
            })
            &&& boot_access(processor, 2) == register(vector, 0x3c1a_8000)
            &&& boot_access(processor, 3) == register((vector + 4) as u32, 0x275a_0000)
            &&& boot_access(processor, 4) == register((vector + 8) as u32, 0x0340_0008)
            &&& boot_access(processor, 5) == register((vector + 12) as u32, 0)
            &&& boot_access(processor, 6) == register(
                if lmac {
                    0xa400_0000
                } else {
                    0xa400_0100
                },
                1,
            )
        }),
{
}

/// Behind its program, a boot polls the signature that the program cleared until
/// the firmware writes it, a hundred times with ten milliseconds in between.
pub proof fn law_boot_polls_its_signature<E>(boot: Boot, value: Seq<u8>)
    requires
        boot.step >= 7,
        boot.poll.phase == PollPhase::Sample,
        value.len() == 4,
    ensures
        boot.poll.left > 0 ==> boot.next::<E>() == Ok::<Option<RpuRequest>, RpuError<E>>(
            Some(
                RpuRequest::Read {
                    processor: boot.processor,
                    address: if boot.processor is Lmac {
                        0xb700_0d50
                    } else {
                        0xb000_0000
                    },
                    len: 4,
                },
            ),
        ),
        boot.poll.left == 0 ==> boot.next::<E>() == Err::<Option<RpuRequest>, RpuError<E>>(
            RpuError::Timeout,
        ),
        boot.poll.left > 0 ==> {
            &&& boot.after(value).poll.phase == PollPhase::Met <==> codec::u32_at(value, 0)
                == 0x5a5a_5a5a
            &&& boot.after(value).poll.phase != PollPhase::Met ==> boot.after(value).next::<E>()
                == Ok::<Option<RpuRequest>, RpuError<E>>(Some(RpuRequest::Delay { ms: 10 }))
                && boot.after(value).poll.left == boot.poll.left - 1
        },
{
}

/// An image is its type, its length and that many bytes, all of them in the file; a
/// type above 3 is named in the refusal, and a file that ends too early is refused.
pub proof fn law_image_extents(file: Seq<u8>, offset: int)
    requires
        0 <= offset,
    ensures
        offset + 8 > file.len() ==> extent(file, offset) == Err::<(ImageKind, int), FirmwareError>(
            FirmwareError::TruncatedImage,
        ),
        offset + 8 <= file.len() ==> {
            let value = codec::u32_at(file, offset);
            let end = offset + 8 + codec::u32_at(file, offset + 4);
            &&& value > 3 ==> extent(file, offset) == Err::<(ImageKind, int), FirmwareError>(
                FirmwareError::InvalidImageType(value),
            )
            &&& value <= 3 && end > file.len() ==> extent(file, offset) == Err::<
                (ImageKind, int),
                FirmwareError,
            >(FirmwareError::TruncatedImage)
            &&& value <= 3 && end <= file.len() ==> (extent(file, offset) matches Ok((kind, own))
                && kind.wire() == value && own == end)
        },
{
}

/// Image types are 0 and 1 for the UMAC and 2 and 3 for the LMAC, the boot image
/// before the binary image, and each names one kind.
pub proof fn law_image_kinds(value: u32, kind: ImageKind)
    ensures
        kind_of(value) is Some <==> value <= 3,
        kind_of(value) == Some(kind) <==> kind.wire() == value,
        kind is UmacPrimary ==> kind.wire() == 0,
        kind is UmacSecondary ==> kind.wire() == 1,
        kind is LmacPrimary ==> kind.wire() == 2,
        kind is LmacSecondary ==> kind.wire() == 3,
        kind.target().0 is Umac <==> kind.wire() <= 1,
{
}

/// An image of a kind that came before is refused, and the refusal names its type.
pub proof fn law_repeated_images_are_refused(file: Seq<u8>, index: nat, earlier: nat)
    requires
        earlier < index,
        extent(file, image_offset(file, index)) matches Ok((kind, _)) && kind == image_kind(
            file,
            earlier,
        ),
    ensures
        image_fault(file, index) == Some(
            FirmwareError::InvalidImageType(image_kind(file, earlier).wire()),
        ),
{
}

} // verus!
