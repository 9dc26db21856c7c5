//! RPU address translation, memory access planning and power-up sequences.
//!
//! An [`RpuRequest`] is one access that the embedding program carries out. A
//! sequence such as [`Wake`] hands out requests one at a time and is fed the
//! outcome of each.

use vstd::prelude::*;

use crate::bus;
use crate::bus::{
    OPCODE_READ_STATUS_1, OPCODE_READ_STATUS_2, OPCODE_WRITE_STATUS_2, RPU_AWAKE, RPU_READY,
    RPU_WAKE_REQUEST,
};
use crate::codec;

verus! {

/// Largest transfer emitted by the memory layer.
pub const MAX_BUS_CHUNK: usize = 4096;

pub const RPU_ADDR_GRAM_START: u32 = 0xb700_0000;

pub const RPU_ADDR_GRAM_END: u32 = 0xb701_01ff;

pub const RPU_ADDR_SBUS_START: u32 = 0xa400_0000;

pub const RPU_ADDR_SBUS_END: u32 = 0xa400_7fff;

pub const RPU_ADDR_PBUS_START: u32 = 0xa500_0000;

pub const RPU_ADDR_PBUS_END: u32 = 0xa503_ffff;

pub const RPU_ADDR_PKTRAM_START: u32 = 0xb000_0000;

pub const RPU_ADDR_PKTRAM_END: u32 = 0xb003_0fff;

pub const RPU_ADDR_LMAC_ROM_START: u32 = 0x8000_0000;

pub const RPU_ADDR_LMAC_ROM_END: u32 = 0x8003_3fff;

pub const RPU_ADDR_LMAC_RET_START: u32 = 0x8004_0000;

pub const RPU_ADDR_LMAC_RET_END: u32 = 0x8004_bfff;

pub const RPU_ADDR_LMAC_SCRATCH_START: u32 = 0x8008_0000;

pub const RPU_ADDR_LMAC_SCRATCH_END: u32 = 0x8008_ffff;

pub const RPU_ADDR_UMAC_ROM_START: u32 = 0x8000_0000;

pub const RPU_ADDR_UMAC_ROM_END: u32 = 0x8006_17ff;

pub const RPU_ADDR_UMAC_RET_START: u32 = 0x8008_0000;

pub const RPU_ADDR_UMAC_RET_END: u32 = 0x800a_3fff;

pub const RPU_ADDR_UMAC_SCRATCH_START: u32 = 0x8010_0000;

pub const RPU_ADDR_UMAC_SCRATCH_END: u32 = 0x8013_7fff;

pub const HOST_SBUS_BASE: u32 = 0x0000_0000;

pub const HOST_PBUS_BASE: u32 = 0x0004_0000;

pub const HOST_GRAM_BASE: u32 = 0x0008_0000;

pub const HOST_PKTRAM_BASE: u32 = 0x000c_0000;

pub const HOST_LMAC_DIRECT_BASE: u32 = 0x0010_0000;

pub const HOST_UMAC_DIRECT_BASE: u32 = 0x0020_0000;

/// Mask of the offset inside a 16 MiB window.
pub const RPU_ADDR_MASK_OFFSET: u32 = 0x00ff_ffff;

/// Size of the window that an offset lies in.
pub const RPU_WINDOW: u32 = 0x0100_0000;

/// Window of the indirect core-memory addresses.
pub const RPU_MCU_CORE_INDIRECT_BASE: u32 = 0xc000_0000;

pub const RPU_REG_MIPS_MCU_CONTROL: u32 = 0xa400_0000;

pub const RPU_REG_MIPS_MCU2_CONTROL: u32 = 0xa400_0100;

pub const RPU_REG_MIPS_MCU_SYS_CORE_MEM_CTRL: u32 = 0xa400_0030;

pub const RPU_REG_MIPS_MCU_SYS_CORE_MEM_WDATA: u32 = 0xa400_0034;

pub const RPU_REG_MIPS_MCU2_SYS_CORE_MEM_CTRL: u32 = 0xa400_0130;

pub const RPU_REG_MIPS_MCU2_SYS_CORE_MEM_WDATA: u32 = 0xa400_0134;

pub const RPU_REG_MIPS_MCU_WAIT_STATUS: u32 = 0xa400_0018;

pub const RPU_REG_MIPS_MCU2_WAIT_STATUS: u32 = 0xa400_0118;

/// PBUS register that enables the RPU clocks.
pub const RPU_REG_CLOCK_ENABLE: u32 = 0xa500_8c20;

/// Clock-enable value required before either MIPS core can leave reset.
pub const RPU_CLOCK_ENABLE: u32 = 0x100;

/// Register reads of one processor reset condition before it times out.
pub const RESET_POLL_ATTEMPTS: u16 = 50;

/// Pause between register reads during a processor reset.
pub const RESET_POLL_DELAY_MS: u32 = 10;

/// One of the two MIPS processors in the nRF7002 RPU.
#[derive(Clone, Copy, Debug, PartialEq, Eq, Structural)]
pub enum Processor {
    /// Lower MAC processor.
    Lmac,
    /// Upper MAC processor.
    Umac,
}

impl Processor {
    /// Returns the processor's run and reset register.
    pub fn control_register(self) -> (address: u32)
        ensures
            address == (match self {
                Processor::Lmac => RPU_REG_MIPS_MCU_CONTROL,
                Processor::Umac => RPU_REG_MIPS_MCU2_CONTROL,
            }),
    {
        match self {
            Processor::Lmac => RPU_REG_MIPS_MCU_CONTROL,
            Processor::Umac => RPU_REG_MIPS_MCU2_CONTROL,
        }
    }

    /// Returns the processor's wait status register.
    pub fn wait_register(self) -> (address: u32)
        ensures
            address == (match self {
                Processor::Lmac => RPU_REG_MIPS_MCU_WAIT_STATUS,
                Processor::Umac => RPU_REG_MIPS_MCU2_WAIT_STATUS,
            }),
    {
        match self {
            Processor::Lmac => RPU_REG_MIPS_MCU_WAIT_STATUS,
            Processor::Umac => RPU_REG_MIPS_MCU2_WAIT_STATUS,
        }
    }

    /// The register that takes an indirect word address.
    pub open spec fn indirect_control(self) -> u32 {
        match self {
            Processor::Lmac => RPU_REG_MIPS_MCU_SYS_CORE_MEM_CTRL,
            Processor::Umac => RPU_REG_MIPS_MCU2_SYS_CORE_MEM_CTRL,
        }
    }

    /// The register that takes indirect data words.
    pub open spec fn indirect_data(self) -> u32 {
        match self {
            Processor::Lmac => RPU_REG_MIPS_MCU_SYS_CORE_MEM_WDATA,
            Processor::Umac => RPU_REG_MIPS_MCU2_SYS_CORE_MEM_WDATA,
        }
    }

    /// Returns the register that takes an indirect word address.
    pub fn indirect_control_register(self) -> (address: u32)
        ensures
            address == self.indirect_control(),
    {
        match self {
            Processor::Lmac => RPU_REG_MIPS_MCU_SYS_CORE_MEM_CTRL,
            Processor::Umac => RPU_REG_MIPS_MCU2_SYS_CORE_MEM_CTRL,
        }
    }

    /// Returns the register that takes indirect data words.
    pub fn indirect_data_register(self) -> (address: u32)
        ensures
            address == self.indirect_data(),
    {
        match self {
            Processor::Lmac => RPU_REG_MIPS_MCU_SYS_CORE_MEM_WDATA,
            Processor::Umac => RPU_REG_MIPS_MCU2_SYS_CORE_MEM_WDATA,
        }
    }
}

/// Address translation failure.
#[derive(Clone, Copy, Debug, PartialEq, Eq, Structural)]
pub enum AddressError {
    /// The address is outside every supported host-visible region.
    Unsupported(u32),
    /// A range crosses the end of its mapped region.
    Range,
}

/// RPU access failure.
#[derive(Debug)]
pub enum RpuError<E> {
    /// The SPI or QSPI implementation failed.
    Bus(E),
    /// The RPU address cannot be mapped.
    Address(AddressError),
    /// An operation that requires word alignment received an invalid value.
    Unaligned,
    /// A bounded poll did not reach its expected state.
    Timeout,
    /// A register poll exhausted its deadline without reaching the mask/value.
    PollTimeout { address: u32, mask: u32, expected: u32, last: u32 },
    /// An input length or encoded address was invalid.
    InvalidArgument,
}

impl<E> vstd::std_specs::convert::FromSpecImpl<AddressError> for RpuError<E> {
    open spec fn obeys_from_spec() -> bool {
        true
    }

    open spec fn from_spec(value: AddressError) -> Self {
        RpuError::Address(value)
    }
}

impl<E> From<AddressError> for RpuError<E> {
    fn from(value: AddressError) -> (error: Self) {
        RpuError::Address(value)
    }
}

/// The first and last address and the host base of a memory region.
pub struct Region {
    pub start: u32,
    pub end: u32,
    pub base: u32,
}

impl Region {
    /// Whether an address lies in the region.
    pub open spec fn holds(self, address: u32) -> bool {
        self.start <= address <= self.end
    }
}

/// The regions that both processors share.
pub open spec fn shared_regions() -> Seq<Region> {
    seq![
        Region { start: RPU_ADDR_SBUS_START, end: RPU_ADDR_SBUS_END, base: HOST_SBUS_BASE },
        Region { start: RPU_ADDR_PBUS_START, end: RPU_ADDR_PBUS_END, base: HOST_PBUS_BASE },
        Region { start: RPU_ADDR_GRAM_START, end: RPU_ADDR_GRAM_END, base: HOST_GRAM_BASE },
        Region { start: RPU_ADDR_PKTRAM_START, end: RPU_ADDR_PKTRAM_END, base: HOST_PKTRAM_BASE },
    ]
}

/// The regions of one processor.
pub open spec fn processor_regions(processor: Processor) -> Seq<Region> {
    match processor {
        Processor::Lmac => seq![
            Region {
                start: RPU_ADDR_LMAC_ROM_START,
                end: RPU_ADDR_LMAC_ROM_END,
                base: HOST_LMAC_DIRECT_BASE,
            },
            Region {
                start: RPU_ADDR_LMAC_RET_START,
                end: RPU_ADDR_LMAC_RET_END,
                base: HOST_LMAC_DIRECT_BASE,
            },
            Region {
                start: RPU_ADDR_LMAC_SCRATCH_START,
                end: RPU_ADDR_LMAC_SCRATCH_END,
                base: HOST_LMAC_DIRECT_BASE,
            },
        ],
        Processor::Umac => seq![
            Region {
                start: RPU_ADDR_UMAC_ROM_START,
                end: RPU_ADDR_UMAC_ROM_END,
                base: HOST_UMAC_DIRECT_BASE,
            },
            Region {
                start: RPU_ADDR_UMAC_RET_START,
                end: RPU_ADDR_UMAC_RET_END,
                base: HOST_UMAC_DIRECT_BASE,
            },
            Region {
                start: RPU_ADDR_UMAC_SCRATCH_START,
                end: RPU_ADDR_UMAC_SCRATCH_END,
                base: HOST_UMAC_DIRECT_BASE,
            },
        ],
    }
}

/// Every region a processor's address can name.
pub open spec fn regions(processor: Processor) -> Seq<Region> {
    shared_regions() + processor_regions(processor)
}

/// The index of the region that holds an address.
pub open spec fn region_index(processor: Processor, address: u32) -> Option<int> {
    if exists|i: int|
        0 <= i < regions(processor).len() && (#[trigger] regions(processor)[i]).holds(address) {
        Some(
            choose|i: int|
                0 <= i < regions(processor).len() && (#[trigger] regions(processor)[i]).holds(
                    address,
                ),
        )
    } else {
        None
    }
}

/// The host-bus address of an RPU address, if it is mapped.
pub open spec fn mapped(processor: Processor, address: u32) -> Option<u32> {
    match region_index(processor, address) {
        Some(i) => Some((regions(processor)[i].base + address % RPU_WINDOW) as u32),
        None => None,
    }
}

proof fn lemma_region(processor: Processor, address: u32)
    ensures
        regions(processor).len() == 7,
        regions(processor)[0] == shared_regions()[0],
        regions(processor)[1] == shared_regions()[1],
        regions(processor)[2] == shared_regions()[2],
        regions(processor)[3] == shared_regions()[3],
        regions(processor)[4] == processor_regions(processor)[0],
        regions(processor)[5] == processor_regions(processor)[1],
        regions(processor)[6] == processor_regions(processor)[2],
        forall|i: int|
            0 <= i < 7 && (#[trigger] regions(processor)[i]).holds(address) ==> region_index(
                processor,
                address,
            ) == Some(i),
        region_index(processor, address) is None ==> forall|i: int|
            0 <= i < 7 ==> !(#[trigger] regions(processor)[i]).holds(address),
        region_index(processor, address) matches Some(i) ==> 0 <= i < 7 && regions(
            processor,
        )[i].holds(address),
{
    let all = regions(processor);
    assert forall|i: int, j: int|
        0 <= i < 7 && 0 <= j < 7 && (#[trigger] all[i]).holds(address) && (
        #[trigger] all[j]).holds(address) implies i == j by {
    }
    assert(region_index(processor, address) matches Some(i) ==> 0 <= i < 7 && all[i].holds(
        address,
    ));
}

/// Maps an RPU address into the 24-bit host bus window.
pub fn host_offset(processor: Processor, address: u32) -> (result: Result<u32, AddressError>)
    ensures
        match result {
            Ok(host) => mapped(processor, address) == Some(host) && host < RPU_WINDOW,
            Err(error) => mapped(processor, address) is None && error == AddressError::Unsupported(
                address,
            ),
        },
{
    match region_of(processor, address) {
        Some(region) => Ok(region.base + address % RPU_WINDOW),
        None => Err(AddressError::Unsupported(address)),
    }
}

/// Finds the region that holds an address.
fn region_of(processor: Processor, address: u32) -> (region: Option<Region>)
    ensures
        match region {
            Some(region) => {
                &&& region_index(processor, address) matches Some(i) && regions(processor)[i]
                    == region
                &&& region.base + address % RPU_WINDOW < RPU_WINDOW
            },
            None => region_index(processor, address) is None,
        },
{
    proof {
        lemma_region(processor, address);
    }
    match shared_region(address) {
        Some(region) => Some(region),
        None => processor_region(processor, address),
    }
}

fn shared_region(address: u32) -> (region: Option<Region>)
    ensures
        match region {
            Some(region) => exists|i: int|
                0 <= i < 4 && (#[trigger] shared_regions()[i]).holds(address)
                    && shared_regions()[i] == region && region.base + address % RPU_WINDOW
                    < RPU_WINDOW,
            None => forall|i: int| 0 <= i < 4 ==> !(#[trigger] shared_regions()[i]).holds(address),
        },
{
    if RPU_ADDR_SBUS_START <= address && address <= RPU_ADDR_SBUS_END {
        assert(shared_regions()[0].holds(address));
        Some(Region { start: RPU_ADDR_SBUS_START, end: RPU_ADDR_SBUS_END, base: HOST_SBUS_BASE })
    } else if RPU_ADDR_PBUS_START <= address && address <= RPU_ADDR_PBUS_END {
        assert(shared_regions()[1].holds(address));
        Some(Region { start: RPU_ADDR_PBUS_START, end: RPU_ADDR_PBUS_END, base: HOST_PBUS_BASE })
    } else if RPU_ADDR_GRAM_START <= address && address <= RPU_ADDR_GRAM_END {
        assert(shared_regions()[2].holds(address));
        Some(Region { start: RPU_ADDR_GRAM_START, end: RPU_ADDR_GRAM_END, base: HOST_GRAM_BASE })
    } else if RPU_ADDR_PKTRAM_START <= address && address <= RPU_ADDR_PKTRAM_END {
        assert(shared_regions()[3].holds(address));
        Some(Region { start: RPU_ADDR_PKTRAM_START, end: RPU_ADDR_PKTRAM_END, base: HOST_PKTRAM_BASE })
    } else {
        None
    }
}

fn processor_region(processor: Processor, address: u32) -> (region: Option<Region>)
    ensures
        match region {
            Some(region) => exists|i: int|
                0 <= i < 3 && (#[trigger] processor_regions(processor)[i]).holds(address)
                    && processor_regions(processor)[i] == region && region.base + address
                    % RPU_WINDOW < RPU_WINDOW,
            None => forall|i: int|
                0 <= i < 3 ==> !(#[trigger] processor_regions(processor)[i]).holds(address),
        },
{
    match processor {
        Processor::Lmac => {
            if RPU_ADDR_LMAC_ROM_START <= address && address <= RPU_ADDR_LMAC_ROM_END {
                assert(processor_regions(processor)[0].holds(address));
                Some(Region { start: RPU_ADDR_LMAC_ROM_START, end: RPU_ADDR_LMAC_ROM_END, base: HOST_LMAC_DIRECT_BASE })
            } else if RPU_ADDR_LMAC_RET_START <= address && address <= RPU_ADDR_LMAC_RET_END {
                assert(processor_regions(processor)[1].holds(address));
                Some(Region { start: RPU_ADDR_LMAC_RET_START, end: RPU_ADDR_LMAC_RET_END, base: HOST_LMAC_DIRECT_BASE })
            } else if RPU_ADDR_LMAC_SCRATCH_START <= address && address <= RPU_ADDR_LMAC_SCRATCH_END {
                assert(processor_regions(processor)[2].holds(address));
                Some(Region { start: RPU_ADDR_LMAC_SCRATCH_START, end: RPU_ADDR_LMAC_SCRATCH_END, base: HOST_LMAC_DIRECT_BASE })
            } else {
                None
            }
        },
        Processor::Umac => {
            if RPU_ADDR_UMAC_ROM_START <= address && address <= RPU_ADDR_UMAC_ROM_END {
                assert(processor_regions(processor)[0].holds(address));
                Some(Region { start: RPU_ADDR_UMAC_ROM_START, end: RPU_ADDR_UMAC_ROM_END, base: HOST_UMAC_DIRECT_BASE })
            } else if RPU_ADDR_UMAC_RET_START <= address && address <= RPU_ADDR_UMAC_RET_END {
                assert(processor_regions(processor)[1].holds(address));
                Some(Region { start: RPU_ADDR_UMAC_RET_START, end: RPU_ADDR_UMAC_RET_END, base: HOST_UMAC_DIRECT_BASE })
            } else if RPU_ADDR_UMAC_SCRATCH_START <= address && address <= RPU_ADDR_UMAC_SCRATCH_END {
                assert(processor_regions(processor)[2].holds(address));
                Some(Region { start: RPU_ADDR_UMAC_SCRATCH_START, end: RPU_ADDR_UMAC_SCRATCH_END, base: HOST_UMAC_DIRECT_BASE })
            } else {
                None
            }
        },
    }
}

/// Two addresses that share a host address are the same address, and if it is
/// a processor's own it is the same processor's: regions never alias.
pub proof fn law_regions_do_not_alias(
    left: Processor,
    left_address: u32,
    right: Processor,
    right_address: u32,
)
    requires
        mapped(left, left_address) is Some,
        mapped(left, left_address) == mapped(right, right_address),
    ensures
        left_address == right_address,
        left == right || region_index(left, left_address)->0 < 4,
{
    lemma_region(left, left_address);
    lemma_region(right, right_address);
}

/// Inside one region, consecutive addresses have consecutive host addresses.
pub proof fn law_regions_are_contiguous(processor: Processor, address: u32, offset: int)
    requires
        region_index(processor, address) is Some,
        0 <= offset,
        address + offset <= u32::MAX,
        region_index(processor, (address + offset) as u32) == region_index(processor, address),
    ensures
        mapped(processor, address) is Some,
        mapped(processor, (address + offset) as u32) == Some(
            (mapped(processor, address)->0 + offset) as u32,
        ),
        mapped(processor, address)->0 + offset < RPU_WINDOW,
{
    lemma_region(processor, address);
    lemma_region(processor, (address + offset) as u32);
}

/// Owns the host bus on behalf of the RPU access layers.
pub struct Rpu<B> {
    /// The host bus.
    pub bus: B,
}

impl<B> Rpu<B> {
    /// Creates an RPU memory interface.
    pub fn new(bus: B) -> (rpu: Self)
        ensures
            rpu.bus == bus,
    {
        Rpu { bus }
    }

    /// Borrows the low-level bus.
    pub fn bus_mut(&mut self) -> (bus: &mut B)
        ensures
            *bus == old(self).bus,
            final(self).bus == *final(bus),
    {
        &mut self.bus
    }

    /// Releases the low-level bus.
    pub fn into_inner(self) -> (bus: B)
        ensures
            bus == self.bus,
    {
        self.bus
    }
}

/// A length rounded up to whole words.
pub open spec fn word_padded(len: int) -> int {
    (len + 3) / 4 * 4
}

/// Rounds a length up to whole words.
pub fn align4(len: usize) -> (padded: Option<usize>)
    ensures
        match padded {
            Some(padded) => padded == word_padded(len as int),
            None => len + 3 > usize::MAX,
        },
{
    match len.checked_add(3) {
        Some(value) => Some(value / 4 * 4),
        None => None,
    }
}

/// Why a byte range cannot be accessed, if it cannot: its first and last
/// bytes must lie in one region.
pub open spec fn range_fault(processor: Processor, address: u32, len: int) -> Option<
    AddressError,
> {
    let span = len - 1;
    if len == 0 {
        if mapped(processor, address) is None {
            Some(AddressError::Unsupported(address))
        } else {
            None
        }
    } else if span > u32::MAX || address + span > u32::MAX {
        Some(AddressError::Range)
    } else if mapped(processor, address) is None {
        Some(AddressError::Unsupported(address))
    } else if mapped(processor, (address + span) as u32) is None {
        Some(AddressError::Unsupported((address + span) as u32))
    } else if region_index(processor, (address + span) as u32) != region_index(
        processor,
        address,
    ) {
        Some(AddressError::Range)
    } else {
        None
    }
}

/// Checks a byte range.
pub fn checked_range<E>(processor: Processor, address: u32, len: usize) -> (result: Result<
    (),
    RpuError<E>,
>)
    ensures
        match range_fault(processor, address, len as int) {
            Some(error) => result == Err::<(), RpuError<E>>(RpuError::Address(error)),
            None => result == Ok::<(), RpuError<E>>(()),
        },
{
    if len == 0 {
        return match host_offset(processor, address) {
            Ok(_) => Ok(()),
            Err(error) => Err(RpuError::Address(error)),
        };
    }
    if len - 1 > u32::MAX as usize {
        return Err(RpuError::Address(AddressError::Range));
    }
    let span: u32 = (len - 1) as u32;
    let end: u32 = match address.checked_add(span) {
        Some(end) => end,
        None => return Err(RpuError::Address(AddressError::Range)),
    };
    let region: Region = match region_of(processor, address) {
        Some(region) => region,
        None => return Err(RpuError::Address(AddressError::Unsupported(address))),
    };
    proof {
        lemma_region(processor, address);
        lemma_region(processor, end);
    }
    if end <= region.end {
        return Ok(());
    }
    match host_offset(processor, end) {
        Ok(_) => Err(RpuError::Address(AddressError::Range)),
        Err(error) => Err(RpuError::Address(error)),
    }
}

/// The outcome of validating a memory access: word alignment, then the range
/// rounded up to whole words.
pub open spec fn access_check<E>(processor: Processor, address: u32, len: int) -> Result<
    (),
    RpuError<E>,
> {
    if address % 4 != 0 {
        Err(RpuError::Unaligned)
    } else if len + 3 > usize::MAX {
        Err(RpuError::InvalidArgument)
    } else {
        match range_fault(processor, address, word_padded(len)) {
            Some(error) => Err(RpuError::Address(error)),
            None => Ok(()),
        }
    }
}

/// Whether a memory access passes [`validate_access`].
pub open spec fn accessible(processor: Processor, address: u32, len: int) -> bool {
    &&& address % 4 == 0
    &&& len + 3 <= usize::MAX
    &&& range_fault(processor, address, word_padded(len)) is None
}

/// Checks the alignment and the range of a memory access.
pub fn validate_access<E>(processor: Processor, address: u32, len: usize) -> (result: Result<
    (),
    RpuError<E>,
>)
    ensures
        result == access_check::<E>(processor, address, len as int),
        result is Ok <==> accessible(processor, address, len as int),
{
    if address % 4 != 0 {
        return Err(RpuError::Unaligned);
    }
    let padded: usize = match align4(len) {
        Some(padded) => padded,
        None => return Err(RpuError::InvalidArgument),
    };
    checked_range(processor, address, padded)
}

/// Every byte of an accepted range lies in the region of its first byte.
pub proof fn law_accesses_stay_in_their_region(
    processor: Processor,
    address: u32,
    len: int,
    offset: int,
)
    requires
        range_fault(processor, address, len) is None,
        0 <= offset < len,
    ensures
        address + offset <= u32::MAX,
        region_index(processor, address) is Some,
        region_index(processor, (address + offset) as u32) == region_index(processor, address),
{
    lemma_region(processor, address);
    lemma_region(processor, (address + offset) as u32);
    lemma_region(processor, (address + len - 1) as u32);
}

/// An access that leaves the region of its first byte is always refused.
pub proof fn law_region_crossing_is_refused(
    processor: Processor,
    address: u32,
    len: int,
    offset: int,
)
    requires
        0 <= offset < len,
        address + offset > u32::MAX || region_index(processor, (address + offset) as u32)
            != region_index(processor, address),
    ensures
        range_fault(processor, address, len) is Some,
{
    if range_fault(processor, address, len) is None {
        law_accesses_stay_in_their_region(processor, address, len, offset);
    }
}

/// One bus transfer of a memory access.
#[derive(Clone, Copy, Debug, PartialEq, Eq, Structural)]
pub struct Transfer {
    /// Host-bus address.
    pub host: u32,
    /// Offset of the first byte in the caller's data.
    pub start: usize,
    /// Bytes of the caller's data.
    pub len: usize,
    /// Bytes on the bus: `len` rounded up to whole words.
    pub wire_len: usize,
}

/// Bytes of an access that fill whole words.
pub open spec fn whole_words(len: int) -> int {
    len / 4 * 4
}

/// Number of full-word chunks of an access.
pub open spec fn chunk_count(len: int) -> int {
    (whole_words(len) + MAX_BUS_CHUNK - 1) / (MAX_BUS_CHUNK as int)
}

/// Number of bus transfers of an access: its chunks and a short last word.
pub open spec fn transfer_total(len: int) -> int {
    chunk_count(len) + (if len % 4 == 0 {
        0int
    } else {
        1
    })
}

/// Offset at which a transfer starts.
pub open spec fn transfer_start(len: int, index: int) -> int {
    if index < chunk_count(len) {
        index * MAX_BUS_CHUNK
    } else if index == chunk_count(len) {
        whole_words(len)
    } else {
        len
    }
}

/// Returns the number of bus transfers of an access.
pub fn transfer_count(len: usize) -> (count: usize)
    ensures
        count == transfer_total(len as int),
{
    let whole: usize = len / 4 * 4;
    let full: usize = whole / MAX_BUS_CHUNK;
    let chunks: usize = if whole % MAX_BUS_CHUNK == 0 {
        full
    } else {
        full + 1
    };
    if len % 4 == 0 {
        chunks
    } else {
        chunks + 1
    }
}

proof fn lemma_transfer_bounds(len: int, index: int)
    requires
        0 <= len,
        0 <= index < transfer_total(len),
    ensures
        ({
            let whole = whole_words(len);
            let start = transfer_start(len, index);
            let end = transfer_start(len, index + 1);
            &&& 0 <= whole <= len < whole + 4
            &&& index <= chunk_count(len)
            &&& index < chunk_count(len) ==> start == index * MAX_BUS_CHUNK && start < whole
                && end == (if whole - start <= MAX_BUS_CHUNK {
                whole
            } else {
                start + MAX_BUS_CHUNK
            })
            &&& index == chunk_count(len) ==> start == whole && end == len && whole < len
            &&& start + word_padded(end - start) <= word_padded(len)
        }),
{
    let whole = whole_words(len);
    let chunks = chunk_count(len);
    assert(4096 * chunks <= whole + 4095 < 4096 * chunks + 4096);
    if index + 1 < chunks {
        assert(transfer_start(len, index + 1) == 4096 * index + 4096);
    } else if index + 1 == chunks {
        assert(transfer_start(len, index + 1) == whole);
        assert(word_padded(whole - 4096 * index) == whole - 4096 * index);
    }
}

/// Computes where a transfer starts in the caller's data and how long it is.
fn transfer_span(len: usize, index: usize) -> (span: (usize, usize))
    requires
        index < transfer_total(len as int),
    ensures
        span.0 == transfer_start(len as int, index as int),
        span.0 + span.1 == transfer_start(len as int, index + 1),
        0 < span.1 <= MAX_BUS_CHUNK,
        span.0 + word_padded(span.1 as int) <= word_padded(len as int),
{
    proof {
        lemma_transfer_bounds(len as int, index as int);
    }
    let whole: usize = len / 4 * 4;
    let count: usize = transfer_count(len);
    let chunks: usize = if len % 4 == 0 {
        count
    } else {
        count - 1
    };
    if index >= chunks {
        return (whole, len - whole);
    }
    let start: usize = index * MAX_BUS_CHUNK;
    let room: usize = whole - start;
    if room < MAX_BUS_CHUNK {
        (start, room)
    } else {
        (start, MAX_BUS_CHUNK)
    }
}

proof fn lemma_transfer_in_region(
    processor: Processor,
    address: u32,
    len: int,
    start: int,
    wire_len: int,
)
    requires
        range_fault(processor, address, len) is None,
        0 <= start,
        0 < wire_len,
        start + wire_len <= len,
    ensures
        address + start + wire_len - 1 <= u32::MAX,
        mapped(processor, address) is Some,
        mapped(processor, address)->0 + start < RPU_WINDOW,
        mapped(processor, (address + start) as u32) == Some(
            (mapped(processor, address)->0 + start) as u32,
        ),
        forall|i: int|
            0 <= i < wire_len ==> #[trigger] region_index(
                processor,
                (address + start + i) as u32,
            ) == region_index(processor, address),
{
    assert forall|i: int| 0 <= i < wire_len implies #[trigger] region_index(
        processor,
        (address + start + i) as u32,
    ) == region_index(processor, address) by {
        law_accesses_stay_in_their_region(processor, address, len, start + i);
    }
    law_accesses_stay_in_their_region(processor, address, len, start + wire_len - 1);
    law_accesses_stay_in_their_region(processor, address, len, start);
    law_regions_are_contiguous(processor, address, start);
}

/// Computes one bus transfer of an access that passed [`validate_access`].
///
/// Chunks of whole words come first, in order; a short last word is a
/// transfer of its own, so a read copies only the asked bytes and a write
/// pads with zeros. All of them stay in the region of the first byte.
pub fn transfer_at(processor: Processor, address: u32, len: usize, index: usize) -> (transfer:
    Transfer)
    requires
        accessible(processor, address, len as int),
        index < transfer_total(len as int),
    ensures
        transfer.start == transfer_start(len as int, index as int),
        transfer.start + transfer.len == transfer_start(len as int, index + 1),
        0 < transfer.len <= MAX_BUS_CHUNK,
        transfer.wire_len == word_padded(transfer.len as int),
        address + transfer.start + transfer.wire_len - 1 <= u32::MAX,
        mapped(processor, (address + transfer.start) as u32) == Some(transfer.host),
        mapped(processor, address) is Some,
        transfer.host == mapped(processor, address)->0 + transfer.start,
        forall|i: int|
            0 <= i < transfer.wire_len ==> #[trigger] region_index(
                processor,
                (address + transfer.start + i) as u32,
            ) == region_index(processor, address),
{
    let (start, size) = transfer_span(len, index);
    let wire_len: usize = (size + 3) / 4 * 4;
    proof {
        lemma_transfer_in_region(
            processor,
            address,
            word_padded(len as int),
            start as int,
            wire_len as int,
        );
    }
    let region: Region = region_of(processor, address).unwrap();
    let host: u32 = region.base + address % RPU_WINDOW + start as u32;
    Transfer { host, start, len: size, wire_len }
}

/// The transfers of an access cover its bytes in order without gap or
/// overlap: the first starts at zero, each is non-empty, and the position
/// behind the last one is the end.
pub proof fn law_transfers_tile(len: int, index: int)
    requires
        0 <= len,
        0 <= index < transfer_total(len),
    ensures
        transfer_start(len, 0) == 0,
        transfer_start(len, index) < transfer_start(len, index + 1),
        transfer_start(len, transfer_total(len)) == len,
{
}

/// The bytes that a write transfer puts on the bus.
pub open spec fn transfer_bytes_of(data: Seq<u8>, transfer: Transfer) -> Seq<u8> {
    codec::padded(
        data.subrange(transfer.start as int, transfer.start + transfer.len),
        transfer.wire_len as nat,
    )
}

/// Builds the bytes that a write transfer puts on the bus: the caller's data
/// and zeros up to the end of the last word.
pub fn transfer_bytes(data: &[u8], transfer: Transfer) -> (bytes: Vec<u8>)
    requires
        transfer.start + transfer.len <= data@.len(),
        transfer.len <= transfer.wire_len,
    ensures
        bytes@ == transfer_bytes_of(data@, transfer),
{
    assert(transfer.start + transfer.len <= data.len());
    let mut bytes: Vec<u8> = Vec::new();
    bus::push_all(&mut bytes, &data[transfer.start..transfer.start + transfer.len]);
    let mut i: usize = transfer.len;
    while i < transfer.wire_len
        invariant
            transfer.len <= i <= transfer.wire_len,
            transfer.start + transfer.len <= data@.len(),
            bytes@ =~= codec::padded(
                data@.subrange(transfer.start as int, transfer.start + transfer.len),
                i as nat,
            ),
        decreases transfer.wire_len - i,
    {
        bytes.push(0);
        i = i + 1;
    }
    bytes
}

/// The outcome of validating an indirect access.
pub open spec fn indirect_check<E>(encoded_address: u32, len: int) -> Result<(), RpuError<E>> {
    if encoded_address / RPU_WINDOW != RPU_MCU_CORE_INDIRECT_BASE / RPU_WINDOW || encoded_address
        % 4 != 0 || len % 4 != 0 {
        Err(RpuError::Unaligned)
    } else {
        Ok(())
    }
}

/// Checks the window and the alignment of an indirect access.
pub fn validate_indirect_access<E>(encoded_address: u32, len: usize) -> (result: Result<
    (),
    RpuError<E>,
>)
    ensures
        result == indirect_check::<E>(encoded_address, len as int),
{
    if encoded_address / RPU_WINDOW != RPU_MCU_CORE_INDIRECT_BASE / RPU_WINDOW {
        return Err(RpuError::Unaligned);
    }
    if encoded_address % 4 != 0 || len % 4 != 0 {
        return Err(RpuError::Unaligned);
    }
    Ok(())
}

/// The register writes of an indirect access: the word address, then every
/// data word.
pub open spec fn indirect_words(processor: Processor, encoded_address: u32, data: Seq<u8>) -> Seq<
    (u32, u32),
> {
    seq![(processor.indirect_control(), (encoded_address % RPU_WINDOW) / 4)] + Seq::new(
        data.len() / 4,
        |i: int| (processor.indirect_data(), codec::u32_at(data, 4 * i)),
    )
}

/// Lists the register writes of an indirect access.
pub fn write_indirect<E>(processor: Processor, encoded_address: u32, data: &[u8]) -> (result:
    Result<Vec<(u32, u32)>, RpuError<E>>)
    ensures
        match result {
            Ok(writes) => indirect_check::<E>(encoded_address, data@.len() as int) is Ok && writes@
                == indirect_words(processor, encoded_address, data@),
            Err(error) => indirect_check::<E>(encoded_address, data@.len() as int) == Err::<
                (),
                RpuError<E>,
            >(error),
        },
{
    validate_indirect_access::<E>(encoded_address, data.len())?;
    let mut writes: Vec<(u32, u32)> = Vec::new();
    writes.push((processor.indirect_control_register(), (encoded_address % RPU_WINDOW) / 4));
    let words: usize = data.len() / 4;
    let mut i: usize = 0;
    while i < words
        invariant
            words == data@.len() / 4,
            i <= words,
            data@.len() <= usize::MAX,
            writes@ =~= indirect_words(processor, encoded_address, data@).subrange(0, i + 1),
        decreases words - i,
    {
        writes.push((processor.indirect_data_register(), codec::read_u32(data, 4 * i)));
        i = i + 1;
    }
    assert(writes@ =~= indirect_words(processor, encoded_address, data@));
    Ok(writes)
}

/// Whether status register 1 reports ready firmware.
pub fn firmware_ready(status: u8) -> (ready: bool)
    ensures
        ready == (status & RPU_READY != 0),
{
    status & RPU_READY != 0
}

/// One access that a sequence asks for.
#[derive(Clone, Copy, Debug, PartialEq, Eq, Structural)]
pub enum RpuRequest {
    /// Read a status register; the reply is its byte.
    ReadStatus { opcode: u8 },
    /// Write a status register.
    WriteStatus { opcode: u8, value: u8 },
    /// Read memory; the reply holds the bytes.
    Read { processor: Processor, address: u32, len: usize },
    /// Read memory into the caller's storage from offset `start` on.
    ReadInto { processor: Processor, address: u32, start: usize, len: usize },
    /// Write one little-endian word.
    WriteWord { processor: Processor, address: u32, value: u32 },
    /// Write `len` bytes of the caller's data from offset `start` on.
    WriteFrom { processor: Processor, address: u32, start: usize, len: usize },
    /// Write one word through the indirect core-memory port.
    WriteIndirectWord { processor: Processor, address: u32, value: u32 },
    /// Pause.
    Delay { ms: u32 },
}

impl RpuRequest {
    /// Number of bytes that a successful reply holds.
    pub open spec fn reply_len(self) -> nat {
        match self {
            RpuRequest::ReadStatus { .. } => 1,
            RpuRequest::Read { len, .. } => len as nat,
            _ => 0,
        }
    }

    /// Whether a reply has the length that the request asks for.
    pub open spec fn answered_by<E>(self, reply: Result<&[u8], RpuError<E>>) -> bool {
        reply matches Ok(bytes) ==> bytes@.len() == self.reply_len()
    }
}

/// Reading one register.
pub open spec fn read_register_request(address: u32) -> RpuRequest {
    RpuRequest::Read { processor: Processor::Lmac, address, len: 4 }
}

/// Writing one register.
pub open spec fn write_register_request(address: u32, value: u32) -> RpuRequest {
    RpuRequest::WriteWord { processor: Processor::Lmac, address, value }
}

/// Asks for one system or peripheral register.
pub fn read_register(address: u32) -> (request: RpuRequest)
    ensures
        request == read_register_request(address),
{
    RpuRequest::Read { processor: Processor::Lmac, address, len: 4 }
}

/// Asks to write one system or peripheral register.
pub fn write_register(address: u32, value: u32) -> (request: RpuRequest)
    ensures
        request == write_register_request(address, value),
{
    RpuRequest::WriteWord { processor: Processor::Lmac, address, value }
}

/// Asks to enable the RPU clocks, which both processors need to leave reset.
pub fn enable_clocks() -> (request: RpuRequest)
    ensures
        request == write_register_request(RPU_REG_CLOCK_ENABLE, RPU_CLOCK_ENABLE),
{
    write_register(RPU_REG_CLOCK_ENABLE, RPU_CLOCK_ENABLE)
}

/// What a bounded poll does next.
#[derive(Clone, Copy, Debug, PartialEq, Eq, Structural)]
pub enum PollPhase {
    /// Take a sample.
    Sample,
    /// Pause before the next sample.
    Pause,
    /// The condition was met.
    Met,
}

/// A poll with a fixed number of samples and a pause behind each unmet one.
#[derive(Clone, Copy, Debug, PartialEq, Eq, Structural)]
pub struct BoundedPoll {
    /// Samples left.
    pub left: u16,
    /// What comes next.
    pub phase: PollPhase,
}

impl BoundedPoll {
    /// The poll is out of samples.
    pub open spec fn expired(self) -> bool {
        self.phase == PollPhase::Sample && self.left == 0
    }

    /// The poll after one sample.
    pub open spec fn after_sample(self, met: bool) -> BoundedPoll {
        if met {
            BoundedPoll { left: self.left, phase: PollPhase::Met }
        } else {
            BoundedPoll { left: (self.left - 1) as u16, phase: PollPhase::Pause }
        }
    }

    /// Starts a poll.
    pub fn new(attempts: u16) -> (poll: Self)
        ensures
            poll == (BoundedPoll { left: attempts, phase: PollPhase::Sample }),
    {
        BoundedPoll { left: attempts, phase: PollPhase::Sample }
    }

    /// Records one sample.
    pub fn sampled(&mut self, met: bool)
        requires
            old(self).phase == PollPhase::Sample,
            old(self).left > 0,
        ensures
            *final(self) == old(self).after_sample(met),
    {
        if met {
            self.phase = PollPhase::Met;
        } else {
            self.left = self.left - 1;
            self.phase = PollPhase::Pause;
        }
    }

    /// Records the end of a pause.
    pub fn paused(&mut self)
        requires
            old(self).phase == PollPhase::Pause,
        ensures
            *final(self) == (BoundedPoll { left: old(self).left, phase: PollPhase::Sample }),
    {
        self.phase = PollPhase::Sample;
    }
}

/// The poll after a series of unmet samples, each followed by its pause.
pub open spec fn after_unmet(poll: BoundedPoll, samples: nat) -> BoundedPoll
    decreases samples,
{
    if samples == 0 {
        poll
    } else {
        let earlier = after_unmet(poll, (samples - 1) as nat);
        BoundedPoll { phase: PollPhase::Sample, ..earlier.after_sample(false) }
    }
}

/// A poll takes no more samples than it was given: after exactly that many
/// unmet ones it has expired, and not before.
pub proof fn law_poll_is_bounded(attempts: u16, samples: nat)
    requires
        samples <= attempts,
    ensures
        ({
            let poll = BoundedPoll { left: attempts, phase: PollPhase::Sample };
            &&& after_unmet(poll, samples).left == attempts - samples
            &&& after_unmet(poll, samples).phase == PollPhase::Sample
            &&& after_unmet(poll, samples).expired() <==> samples == attempts
        }),
    decreases samples,
{
    if samples > 0 {
        law_poll_is_bounded(attempts, (samples - 1) as nat);
    }
}

/// The stages of waking the RPU.
#[derive(Clone, Copy, Debug, PartialEq, Eq, Structural)]
pub enum WakeStage {
    /// Set the wake request bit.
    Request,
    /// Wait until the request bit reads back.
    Confirm,
    /// Wait until the RPU reports that it is awake.
    Await,
    /// The RPU is awake.
    Awake,
}

/// Wakes the RPU. The wake transaction must run at no more than 8 MHz.
#[derive(Clone, Copy, Debug, PartialEq, Eq, Structural)]
pub struct Wake {
    pub stage: WakeStage,
    pub poll: BoundedPoll,
    pub attempts: u16,
}

/// The pause between status reads.
pub const WAKE_POLL_DELAY_MS: u32 = 1;

impl Wake {
    /// A finished stage leaves a fresh or running poll behind it.
    pub open spec fn wf(self) -> bool {
        self.poll.phase != PollPhase::Met
    }

    /// The status register that a polling stage reads.
    pub open spec fn opcode(self) -> u8 {
        if self.stage == WakeStage::Confirm {
            OPCODE_READ_STATUS_2
        } else {
            OPCODE_READ_STATUS_1
        }
    }

    /// The status bit that a polling stage waits for.
    pub open spec fn bit(self) -> u8 {
        if self.stage == WakeStage::Confirm {
            RPU_WAKE_REQUEST
        } else {
            RPU_AWAKE
        }
    }

    /// The access that comes next; an error when a poll is out of attempts.
    pub open spec fn next<E>(self) -> Result<Option<RpuRequest>, RpuError<E>> {
        match self.stage {
            WakeStage::Request => Ok(
                Some(
                    RpuRequest::WriteStatus {
                        opcode: OPCODE_WRITE_STATUS_2,
                        value: RPU_WAKE_REQUEST,
                    },
                ),
            ),
            WakeStage::Awake => Ok(None),
            _ => if self.poll.expired() {
                Err(RpuError::Timeout)
            } else if self.poll.phase == PollPhase::Pause {
                Ok(Some(RpuRequest::Delay { ms: WAKE_POLL_DELAY_MS }))
            } else {
                Ok(Some(RpuRequest::ReadStatus { opcode: self.opcode() }))
            },
        }
    }

    /// The sequence after a successful access.
    pub open spec fn after(self, bytes: Seq<u8>) -> Wake {
        let fresh = BoundedPoll { left: self.attempts, phase: PollPhase::Sample };
        match self.stage {
            WakeStage::Request => Wake { stage: WakeStage::Confirm, poll: fresh, ..self },
            WakeStage::Awake => self,
            _ => if self.poll.phase == PollPhase::Pause {
                Wake { poll: BoundedPoll { phase: PollPhase::Sample, ..self.poll }, ..self }
            } else if bytes[0] & self.bit() != 0 {
                if self.stage == WakeStage::Confirm {
                    Wake { stage: WakeStage::Await, poll: fresh, ..self }
                } else {
                    Wake { stage: WakeStage::Awake, poll: fresh, ..self }
                }
            } else {
                Wake { poll: self.poll.after_sample(false), ..self }
            },
        }
    }

    /// A sequence that has made no access.
    pub open spec fn fresh(attempts: u16) -> Wake {
        Wake {
            stage: WakeStage::Request,
            poll: BoundedPoll { left: attempts, phase: PollPhase::Sample },
            attempts,
        }
    }

    /// Starts to wake the RPU with this many reads per status bit.
    pub fn new(attempts: u16) -> (wake: Self)
        ensures
            wake == Self::fresh(attempts),
            wake.wf(),
    {
        Wake { stage: WakeStage::Request, poll: BoundedPoll::new(attempts), attempts }
    }

    /// Returns the next access, `None` once the RPU is awake, or the timeout.
    pub fn request<E>(&self) -> (result: Result<Option<RpuRequest>, RpuError<E>>)
        requires
            self.wf(),
        ensures
            result == self.next::<E>(),
    {
        match self.stage {
            WakeStage::Request => Ok(
                Some(
                    RpuRequest::WriteStatus {
                        opcode: OPCODE_WRITE_STATUS_2,
                        value: RPU_WAKE_REQUEST,
                    },
                ),
            ),
            WakeStage::Awake => Ok(None),
            WakeStage::Confirm => self.poll_request(OPCODE_READ_STATUS_2),
            WakeStage::Await => self.poll_request(OPCODE_READ_STATUS_1),
        }
    }

    fn poll_request<E>(&self, opcode: u8) -> (result: Result<Option<RpuRequest>, RpuError<E>>)
        requires
            self.wf(),
            opcode == self.opcode(),
            self.stage == WakeStage::Confirm || self.stage == WakeStage::Await,
        ensures
            result == self.next::<E>(),
    {
        if self.poll.phase == PollPhase::Pause {
            return Ok(Some(RpuRequest::Delay { ms: WAKE_POLL_DELAY_MS }));
        }
        if self.poll.left == 0 {
            return Err(RpuError::Timeout);
        }
        Ok(Some(RpuRequest::ReadStatus { opcode }))
    }

    /// Takes the outcome of the access that [`Wake::request`] asked for.
    pub fn resume<E>(&mut self, reply: Result<&[u8], RpuError<E>>) -> (result: Result<
        (),
        RpuError<E>,
    >)
        requires
            old(self).wf(),
            old(self).next::<E>() matches Ok(Some(request)) && request.answered_by(reply),
        ensures
            final(self).wf(),
            match reply {
                Ok(bytes) => result is Ok && *final(self) == old(self).after(bytes@),
                Err(error) => result == Err::<(), RpuError<E>>(error) && *final(self) == *old(self),
            },
    {
        let bytes: &[u8] = match reply {
            Ok(bytes) => bytes,
            Err(error) => return Err(error),
        };
        match self.stage {
            WakeStage::Request => {
                self.stage = WakeStage::Confirm;
                self.poll = BoundedPoll::new(self.attempts);
            },
            WakeStage::Awake => {},
            WakeStage::Confirm => {
                if self.poll.phase == PollPhase::Pause {
                    self.poll.paused();
                } else if bytes[0] & RPU_WAKE_REQUEST != 0 {
                    self.stage = WakeStage::Await;
                    self.poll = BoundedPoll::new(self.attempts);
                } else {
                    self.poll.sampled(false);
                }
            },
            WakeStage::Await => {
                if self.poll.phase == PollPhase::Pause {
                    self.poll.paused();
                } else if bytes[0] & RPU_AWAKE != 0 {
                    self.stage = WakeStage::Awake;
                    self.poll = BoundedPoll::new(self.attempts);
                } else {
                    self.poll.sampled(false);
                }
            },
        }
        Ok(())
    }
}

/// Polls a register until the masked value is as expected.
#[derive(Clone, Copy, Debug, PartialEq, Eq, Structural)]
pub struct RegisterPoll {
    pub address: u32,
    pub mask: u32,
    pub expected: u32,
    pub delay_ms: u32,
    /// Value of the last sample, zero before the first.
    pub last: u32,
    pub poll: BoundedPoll,
}

impl RegisterPoll {
    /// A poll that has taken no sample.
    pub open spec fn fresh(
        address: u32,
        mask: u32,
        expected: u32,
        attempts: u16,
        delay_ms: u32,
    ) -> RegisterPoll {
        RegisterPoll {
            address,
            mask,
            expected,
            delay_ms,
            last: 0,
            poll: BoundedPoll { left: attempts, phase: PollPhase::Sample },
        }
    }

    /// The access that comes next, `None` once the value was seen, or the
    /// timeout with the last value.
    pub open spec fn next<E>(self) -> Result<Option<RpuRequest>, RpuError<E>> {
        if self.poll.phase == PollPhase::Met {
            Ok(None)
        } else if self.poll.phase == PollPhase::Pause {
            Ok(Some(RpuRequest::Delay { ms: self.delay_ms }))
        } else if self.poll.left == 0 {
            Err(
                RpuError::PollTimeout {
                    address: self.address,
                    mask: self.mask,
                    expected: self.expected,
                    last: self.last,
                },
            )
        } else {
            Ok(Some(read_register_request(self.address)))
        }
    }

    /// The poll after a successful access.
    pub open spec fn after(self, bytes: Seq<u8>) -> RegisterPoll {
        let value = codec::u32_at(bytes, 0);
        if self.poll.phase == PollPhase::Pause {
            RegisterPoll { poll: BoundedPoll { phase: PollPhase::Sample, ..self.poll }, ..self }
        } else {
            RegisterPoll {
                last: value,
                poll: self.poll.after_sample(value & self.mask == self.expected),
                ..self
            }
        }
    }

    /// Starts a poll.
    pub fn new(address: u32, mask: u32, expected: u32, attempts: u16, delay_ms: u32) -> (poll: Self)
        ensures
            poll == Self::fresh(address, mask, expected, attempts, delay_ms),
    {
        RegisterPoll {
            address,
            mask,
            expected,
            delay_ms,
            last: 0,
            poll: BoundedPoll::new(attempts),
        }
    }

    /// Returns the next access, `None` once the value was seen, or the
    /// timeout.
    pub fn request<E>(&self) -> (result: Result<Option<RpuRequest>, RpuError<E>>)
        ensures
            result == self.next::<E>(),
    {
        match self.poll.phase {
            PollPhase::Met => Ok(None),
            PollPhase::Pause => Ok(Some(RpuRequest::Delay { ms: self.delay_ms })),
            PollPhase::Sample => {
                if self.poll.left == 0 {
                    return Err(
                        RpuError::PollTimeout {
                            address: self.address,
                            mask: self.mask,
                            expected: self.expected,
                            last: self.last,
                        },
                    );
                }
                Ok(Some(read_register(self.address)))
            },
        }
    }

    /// Takes the outcome of the access that [`RegisterPoll::request`] asked
    /// for.
    pub fn resume<E>(&mut self, reply: Result<&[u8], RpuError<E>>) -> (result: Result<
        (),
        RpuError<E>,
    >)
        requires
            old(self).next::<E>() matches Ok(Some(request)) && request.answered_by(reply),
        ensures
            match reply {
                Ok(bytes) => result is Ok && *final(self) == old(self).after(bytes@),
                Err(error) => result == Err::<(), RpuError<E>>(error) && *final(self) == *old(self),
            },
    {
        let bytes: &[u8] = match reply {
            Ok(bytes) => bytes,
            Err(error) => return Err(error),
        };
        if self.poll.phase == PollPhase::Pause {
            self.poll.paused();
        } else {
            let value: u32 = codec::read_u32(bytes, 0);
            self.last = value;
            self.poll.sampled(value & self.mask == self.expected);
        }
        Ok(())
    }
}

/// The stages of a processor reset.
#[derive(Clone, Copy, Debug, PartialEq, Eq, Structural)]
pub enum ResetStage {
    /// Pulse the reset bit.
    Assert,
    /// Wait until the reset bit clears.
    AwaitClear,
    /// Wait until the processor reports the wait state.
    AwaitWait,
    /// The processor waits.
    Waiting,
}

/// Pulses a processor's reset and waits for the MIPS wait state.
#[derive(Clone, Copy, Debug, PartialEq, Eq, Structural)]
pub struct ProcessorReset {
    pub processor: Processor,
    pub stage: ResetStage,
    pub poll: RegisterPoll,
}

impl ProcessorReset {
    /// The poll of the reset bit.
    pub open spec fn clear_poll(processor: Processor) -> RegisterPoll {
        RegisterPoll::fresh(
            match processor {
                Processor::Lmac => RPU_REG_MIPS_MCU_CONTROL,
                Processor::Umac => RPU_REG_MIPS_MCU2_CONTROL,
            },
            1,
            0,
            RESET_POLL_ATTEMPTS,
            RESET_POLL_DELAY_MS,
        )
    }

    /// The poll of the wait state.
    pub open spec fn wait_poll(processor: Processor) -> RegisterPoll {
        RegisterPoll::fresh(
            match processor {
                Processor::Lmac => RPU_REG_MIPS_MCU_WAIT_STATUS,
                Processor::Umac => RPU_REG_MIPS_MCU2_WAIT_STATUS,
            },
            1,
            1,
            RESET_POLL_ATTEMPTS,
            RESET_POLL_DELAY_MS,
        )
    }

    /// A stage that polls has not yet seen its value.
    pub open spec fn wf(self) -> bool {
        self.stage == ResetStage::AwaitClear || self.stage == ResetStage::AwaitWait
            ==> self.poll.poll.phase != PollPhase::Met
    }

    /// The access that comes next.
    pub open spec fn next<E>(self) -> Result<Option<RpuRequest>, RpuError<E>> {
        match self.stage {
            ResetStage::Assert => Ok(
                Some(write_register_request(Self::clear_poll(self.processor).address, 1)),
            ),
            ResetStage::Waiting => Ok(None),
            _ => self.poll.next::<E>(),
        }
    }

    /// The sequence after a successful access.
    pub open spec fn after(self, bytes: Seq<u8>) -> ProcessorReset {
        let polled = self.poll.after(bytes);
        match self.stage {
            ResetStage::Assert => ProcessorReset {
                stage: ResetStage::AwaitClear,
                poll: Self::clear_poll(self.processor),
                ..self
            },
            ResetStage::Waiting => self,
            _ => if polled.poll.phase != PollPhase::Met {
                ProcessorReset { poll: polled, ..self }
            } else if self.stage == ResetStage::AwaitClear {
                ProcessorReset {
                    stage: ResetStage::AwaitWait,
                    poll: Self::wait_poll(self.processor),
                    ..self
                }
            } else {
                ProcessorReset { stage: ResetStage::Waiting, poll: polled, ..self }
            },
        }
    }

    /// Starts a reset.
    pub fn new(processor: Processor) -> (reset: Self)
        ensures
            reset.processor == processor,
            reset.stage == ResetStage::Assert,
            reset.poll == Self::clear_poll(processor),
            reset.wf(),
    {
        ProcessorReset {
            processor,
            stage: ResetStage::Assert,
            poll: RegisterPoll::new(
                processor.control_register(),
                1,
                0,
                RESET_POLL_ATTEMPTS,
                RESET_POLL_DELAY_MS,
            ),
        }
    }

    /// Returns the next access, `None` once the processor waits, or the
    /// timeout.
    pub fn request<E>(&self) -> (result: Result<Option<RpuRequest>, RpuError<E>>)
        requires
            self.wf(),
        ensures
            result == self.next::<E>(),
    {
        match self.stage {
            ResetStage::Assert => Ok(Some(write_register(self.processor.control_register(), 1))),
            ResetStage::Waiting => Ok(None),
            ResetStage::AwaitClear => self.poll.request(),
            ResetStage::AwaitWait => self.poll.request(),
        }
    }

    /// Takes the outcome of the access that [`ProcessorReset::request`] asked
    /// for.
    pub fn resume<E>(&mut self, reply: Result<&[u8], RpuError<E>>) -> (result: Result<
        (),
        RpuError<E>,
    >)
        requires
            old(self).wf(),
            old(self).next::<E>() matches Ok(Some(request)) && request.answered_by(reply),
        ensures
            final(self).wf(),
            match reply {
                Ok(bytes) => result is Ok && *final(self) == old(self).after(bytes@),
                Err(error) => result == Err::<(), RpuError<E>>(error) && *final(self) == *old(self),
            },
    {
        match self.stage {
            ResetStage::Assert => {
                match reply {
                    Ok(_) => {},
                    Err(error) => return Err(error),
                }
                self.stage = ResetStage::AwaitClear;
                self.poll =
                RegisterPoll::new(
                    self.processor.control_register(),
                    1,
                    0,
                    RESET_POLL_ATTEMPTS,
                    RESET_POLL_DELAY_MS,
                );
            },
            ResetStage::Waiting => {},
            ResetStage::AwaitClear => {
                self.poll.resume(reply)?;
                if self.poll.poll.phase == PollPhase::Met {
                    self.stage = ResetStage::AwaitWait;
                    self.poll =
                    RegisterPoll::new(
                        self.processor.wait_register(),
                        1,
                        1,
                        RESET_POLL_ATTEMPTS,
                        RESET_POLL_DELAY_MS,
                    );
                }
            },
            ResetStage::AwaitWait => {
                self.poll.resume(reply)?;
                if self.poll.poll.phase == PollPhase::Met {
                    self.stage = ResetStage::Waiting;
                }
            },
        }
        Ok(())
    }
}

/// The host sees the RPU through one linear window for each region: system and
/// peripheral bus, global memory and packet memory are shared, and each processor
/// has its own code memory; nothing else is visible.
pub proof fn law_address_map(processor: Processor, address: u32)
    ensures
        mapped(processor, address) == (if 0xa400_0000 <= address <= 0xa400_7fff {
            Some((address - 0xa400_0000) as u32)
        } else if 0xa500_0000 <= address <= 0xa503_ffff {
            Some((0x4_0000 + (address - 0xa500_0000)) as u32)
        } else if 0xb700_0000 <= address <= 0xb701_01ff {
            Some((0x8_0000 + (address - 0xb700_0000)) as u32)
        } else if 0xb000_0000 <= address <= 0xb003_0fff {
            Some((0xc_0000 + (address - 0xb000_0000)) as u32)
        } else if processor is Lmac && (0x8000_0000 <= address <= 0x8003_3fff || 0x8004_0000
            <= address <= 0x8004_bfff || 0x8008_0000 <= address <= 0x8008_ffff) {
            Some((0x10_0000 + (address - 0x8000_0000)) as u32)
        } else if processor is Umac && (0x8000_0000 <= address <= 0x8006_17ff || 0x8008_0000
            <= address <= 0x800a_3fff || 0x8010_0000 <= address <= 0x8013_7fff) {
            Some((0x20_0000 + (address - 0x8000_0000)) as u32)
        } else {
            None::<u32>
        }),
{
    lemma_region(processor, address);
    let all = regions(processor);
    assert(all[0].holds(address) || all[1].holds(address) || all[2].holds(address)
        || all[3].holds(address) || all[4].holds(address) || all[5].holds(address)
        || all[6].holds(address) || region_index(processor, address) is None);
}

/// An access is accepted exactly when it starts on a word and its padded length
/// stays inside one region; otherwise the first rule that it breaks is named.
pub proof fn law_access_rules<E>(processor: Processor, address: u32, len: int)
    requires
        0 <= len,
        len + 3 <= usize::MAX,
    ensures
        address % 4 != 0 ==> access_check::<E>(processor, address, len) == Err::<(), RpuError<E>>(
            RpuError::Unaligned,
        ),
        address % 4 == 0 ==> (access_check::<E>(processor, address, len) is Ok <==> range_fault(
            processor,
            address,
            word_padded(len),
        ) is None),
        access_check::<E>(processor, address, len) is Ok <==> accessible(processor, address, len),
        range_fault(processor, address, word_padded(len)) is None ==> mapped(processor, address)
            is Some,
        mapped(processor, address) is None && address + word_padded(len) <= u32::MAX ==> range_fault(
            processor,
            address,
            word_padded(len),
        ) == Some(AddressError::Unsupported(address)),
{
}

/// Lengths on the bus are whole words: the next one at or above the length.
pub proof fn law_words_pad_lengths(len: int)
    requires
        0 <= len,
    ensures
        word_padded(len) % 4 == 0,
        len <= word_padded(len) < len + 4,
        whole_words(len) % 4 == 0,
        len - 4 < whole_words(len) <= len,
{
}

/// An access moves whole words in chunks of at most 4096 bytes, all full but the
/// last, and the odd bytes at its end in a transfer of their own.
pub proof fn law_transfers_are_word_chunks(len: int, index: int)
    requires
        0 <= len,
        0 <= index < transfer_total(len),
    ensures
        ({
            let start = transfer_start(len, index);
            let size = transfer_start(len, index + 1) - start;
            &&& start % 4 == 0
            &&& 0 < size <= 4096
            &&& size % 4 != 0 ==> index == transfer_total(len) - 1 && size < 4
            &&& len % 4 != 0 && index == transfer_total(len) - 1 ==> size == len % 4
            &&& size < 4096 && size % 4 == 0 ==> start + size == len / 4 * 4
        }),
{
    lemma_transfer_bounds(len, index);
    let words = len / 4;
    let whole = whole_words(len);
    let start = transfer_start(len, index);
    let end = transfer_start(len, index + 1);
    if index < chunk_count(len) {
        lemma_word_multiple(1024 * index);
        if whole - start <= 4096 {
            lemma_word_multiple(words - 1024 * index);
            assert(end - start == 4 * (words - 1024 * index));
        } else {
            assert(end - start == 4096);
        }
    } else {
        lemma_word_multiple(words);
        assert(end - start == len - whole);
    }
}

proof fn lemma_word_multiple(words: int)
    ensures
        (4 * words) % 4 == 0,
{
}

/// Indirect access needs a word address in the indirect window and whole words; it
/// writes the word index to the processor's control register and then each word, in
/// order, to its data register.
pub proof fn law_indirect_access<E>(
    processor: Processor,
    encoded_address: u32,
    data: Seq<u8>,
    index: int,
)
    requires
        0 <= index < data.len() / 4,
    ensures
        indirect_check::<E>(encoded_address, data.len() as int) is Ok <==> 0xc000_0000
            <= encoded_address < 0xc100_0000 && encoded_address % 4 == 0 && data.len() % 4 == 0,
        ({
            let words = indirect_words(processor, encoded_address, data);
            let control = if processor is Lmac {
                0xa400_0030u32
            } else {
                0xa400_0130u32
            };
            let port = if processor is Lmac {
                0xa400_0034u32
            } else {
                0xa400_0134u32
            };
            &&& words.len() == 1 + data.len() / 4
            &&& 0xc000_0000 <= encoded_address < 0xc100_0000 ==> words[0] == (
            control,
            ((encoded_address - 0xc000_0000) / 4) as u32,
        )
            &&& words[1 + index] == (port, codec::u32_at(data, 4 * index))
        }),
{
}

/// Waking the RPU writes the wake request, waits until status register 2 shows it
/// and then until status register 1 reports the RPU awake.
pub proof fn law_wake_confirms_before_waiting<E>(wake: Wake, status: Seq<u8>)
    requires
        wake.wf(),
        status.len() == 1,
    ensures
        wake.stage == WakeStage::Request ==> wake.next::<E>() == Ok::<
            Option<RpuRequest>,
            RpuError<E>,
        >(Some(RpuRequest::WriteStatus { opcode: 0x3f, value: 1 })) && wake.after(status).stage
            == WakeStage::Confirm,
        (wake.stage == WakeStage::Confirm || wake.stage == WakeStage::Await) && wake.poll.phase
            == PollPhase::Sample && wake.poll.left > 0 ==> wake.next::<E>() == Ok::<
            Option<RpuRequest>,
            RpuError<E>,
        >(
            Some(
                RpuRequest::ReadStatus {
                    opcode: if wake.stage == WakeStage::Confirm {
                        0x2f
                    } else {
                        0x1f
                    },
                },
            ),
        ),
        wake.stage == WakeStage::Confirm && wake.poll.phase == PollPhase::Sample ==> (wake.after(
            status,
        ).stage == WakeStage::Await <==> status[0] & 1 != 0),
        wake.stage == WakeStage::Await && wake.poll.phase == PollPhase::Sample ==> (wake.after(
            status,
        ).stage == WakeStage::Awake <==> status[0] & 2 != 0),
        wake.after(status).stage == WakeStage::Awake && wake.stage != WakeStage::Awake
            ==> wake.stage == WakeStage::Await,
        (wake.stage == WakeStage::Confirm || wake.stage == WakeStage::Await) && wake.poll.phase
            == PollPhase::Sample && wake.poll.left == 0 ==> wake.next::<E>() == Err::<
            Option<RpuRequest>,
            RpuError<E>,
        >(RpuError::Timeout),
        wake.stage == WakeStage::Awake ==> wake.next::<E>() == Ok::<
            Option<RpuRequest>,
            RpuError<E>,
        >(None),
{
}

/// A register poll reads its register until the masked value is the expected one,
/// pausing in between, and reports the last value when the attempts run out.
pub proof fn law_register_polls_compare_masked_values<E>(poll: RegisterPoll, value: Seq<u8>)
    requires
        value.len() == 4,
        poll.poll.phase == PollPhase::Sample,
    ensures
        poll.poll.left > 0 ==> poll.next::<E>() == Ok::<Option<RpuRequest>, RpuError<E>>(
            Some(RpuRequest::Read { processor: Processor::Lmac, address: poll.address, len: 4 }),
        ),
        poll.poll.left == 0 ==> poll.next::<E>() == Err::<Option<RpuRequest>, RpuError<E>>(
            RpuError::PollTimeout {
                address: poll.address,
                mask: poll.mask,
                expected: poll.expected,
                last: poll.last,
            },
        ),
        poll.poll.left > 0 ==> {
            &&& poll.after(value).last == codec::u32_at(value, 0)
            &&& poll.after(value).poll.phase == PollPhase::Met <==> codec::u32_at(value, 0)
                & poll.mask == poll.expected
            &&& poll.after(value).poll.phase != PollPhase::Met ==> poll.after(value).next::<E>()
                == Ok::<Option<RpuRequest>, RpuError<E>>(
                Some(RpuRequest::Delay { ms: poll.delay_ms }),
            ) && poll.after(value).poll.left == poll.poll.left - 1
        },
{
}

/// Resetting a processor asserts its reset bit, waits until the bit clears and then
/// until the processor reports that it waits, at most fifty times each.
pub proof fn law_reset_waits_for_the_processor<E>(reset: ProcessorReset, value: Seq<u8>)
    requires
        reset.wf(),
        value.len() == 4,
    ensures
        ({
            let control = if reset.processor is Lmac {
                0xa400_0000u32
            } else {
                0xa400_0100u32
            };
            let waiting = if reset.processor is Lmac {
                0xa400_0018u32
            } else {
                0xa400_0118u32
            };
            let after = reset.after(value);
            &&& after.processor == reset.processor
            &&& reset.stage == ResetStage::Assert ==> {
                &&& reset.next::<E>() == Ok::<Option<RpuRequest>, RpuError<E>>(
                    Some(
                        RpuRequest::WriteWord {
                            processor: Processor::Lmac,
                            address: control,
                            value: 1,
                        },
                    ),
                )
                &&& after.stage == ResetStage::AwaitClear
                &&& after.poll.address == control && after.poll.mask == 1 && after.poll.expected
                    == 0
                &&& after.poll.poll.left == 50 && after.poll.delay_ms == 10
            }
            &&& reset.stage != ResetStage::AwaitWait && after.stage == ResetStage::AwaitWait ==> {
                &&& reset.stage == ResetStage::AwaitClear
                &&& codec::u32_at(value, 0) & reset.poll.mask == reset.poll.expected
                &&& after.poll.address == waiting && after.poll.mask == 1 && after.poll.expected
                    == 1
                &&& after.poll.poll.left == 50 && after.poll.delay_ms == 10
            }
            &&& reset.stage != ResetStage::Waiting && after.stage == ResetStage::Waiting
                ==> reset.stage == ResetStage::AwaitWait && codec::u32_at(value, 0)
                & reset.poll.mask == reset.poll.expected
        }),
{
}

/// The registers of the two processors, the clock gate and the ready bit.
pub proof fn law_processor_registers(
    processor: Processor,
    control: u32,
    wait: u32,
    clocks: RpuRequest,
    status: u8,
    ready: bool,
)
    requires
        call_ensures(Processor::control_register, (processor,), control),
        call_ensures(Processor::wait_register, (processor,), wait),
        call_ensures(enable_clocks, (), clocks),
        call_ensures(firmware_ready, (status,), ready),
    ensures
        control == (if processor is Lmac {
            0xa400_0000u32
        } else {
            0xa400_0100u32
        }),
        wait == control + 0x18,
        clocks == (RpuRequest::WriteWord {
            processor: Processor::Lmac,
            address: 0xa500_8c20,
            value: 0x100,
        }),
        ready <==> status & 4 != 0,
{
}

/// What a transfer puts on the bus is its part of the data, filled up with zeros to
/// whole words.
pub proof fn law_transfer_bytes(data: Seq<u8>, transfer: Transfer, i: int)
    requires
        transfer.start + transfer.len <= data.len(),
        transfer.len <= transfer.wire_len,
        0 <= i < transfer.wire_len,
    ensures
        transfer_bytes_of(data, transfer).len() == transfer.wire_len,
        i < transfer.len ==> transfer_bytes_of(data, transfer)[i] == data[transfer.start + i],
        i >= transfer.len ==> transfer_bytes_of(data, transfer)[i] == 0,
{
}

/// A transfer reaches the host address of its first byte and moves whole words from
/// there.
pub proof fn law_transfers_reach_their_address(
    processor: Processor,
    address: u32,
    len: usize,
    index: usize,
    transfer: Transfer,
)
    requires
        call_ensures(transfer_at, (processor, address, len, index), transfer),
    ensures
        mapped(processor, (address + transfer.start) as u32) == Some(transfer.host),
        transfer.wire_len % 4 == 0,
        transfer.len <= transfer.wire_len < transfer.len + 4,
        0 < transfer.len <= 4096,
{
}

/// A status read is answered by one byte, a memory read by the bytes that it asks
/// for, and a register by a word.
pub proof fn law_replies_have_the_asked_length(
    processor: Processor,
    address: u32,
    len: usize,
    value: u32,
    opcode: u8,
)
    ensures
        (RpuRequest::ReadStatus { opcode }).reply_len() == 1,
        (RpuRequest::Read { processor, address, len }).reply_len() == len,
        read_register_request(address).reply_len() == 4,
        read_register_request(address) == (RpuRequest::Read {
            processor: Processor::Lmac,
            address,
            len: 4,
        }),
        write_register_request(address, value).reply_len() == 0,
{
}

} // verus!
