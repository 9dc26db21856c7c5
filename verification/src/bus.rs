//! SPI framing of the nRF70 host bus.
//!
//! A transport turns each host-bus access into SPI transactions. The
//! functions here say which transactions those are and what bytes they
//! carry; chip select must stay active for the whole of each one.

use vstd::prelude::*;

verus! {

/// Fast-read command used by the nRF70 host interface.
pub const OPCODE_FAST_READ: u8 = 0x0b;

/// Page-program command used by the nRF70 host interface.
pub const OPCODE_WRITE: u8 = 0x02;

/// Read status register 1.
pub const OPCODE_READ_STATUS_1: u8 = 0x1f;

/// Read status register 2.
pub const OPCODE_READ_STATUS_2: u8 = 0x2f;

/// Write status register 2.
pub const OPCODE_WRITE_STATUS_2: u8 = 0x3f;

/// Incrementing-address flag of the host bus.
pub const INCREMENTING_ADDRESS_MASK: u32 = 0x80_0000;

/// RPU wake request bit in status register 2.
pub const RPU_WAKE_REQUEST: u8 = 1;

/// RPU awake indication in status register 1.
pub const RPU_AWAKE: u8 = 2;

/// RPU firmware-ready indication in status register 1.
pub const RPU_READY: u8 = 4;

/// Most read-latency words of a configuration.
pub const MAX_SLAVE_LATENCY_WORDS: usize = 8;

/// Opcode, address and one turnaround byte of a read.
pub const READ_HEADER_LEN: usize = 5;

/// Opcode and address of a write.
pub const WRITE_HEADER_LEN: usize = 4;

/// Bytes per transaction where reads need latency.
pub const HIGH_LATENCY_READ_WORD_LEN: usize = 4;

/// Largest payload of one SPI transaction, a complete firmware chunk.
pub const MAX_SPI_DATA_LEN: usize = 4096;

/// Longest SPI transaction: header, latency and payload.
pub const SPI_IO_BUFFER_LEN: usize = READ_HEADER_LEN + 4 * MAX_SLAVE_LATENCY_WORDS
    + MAX_SPI_DATA_LEN;

/// Largest host-bus address.
pub const MAX_WIRE_ADDRESS: u32 = 0x00ff_ffff;

/// Static SPI framing settings.
///
/// The fields stay private, so every configuration has a latency that fits
/// the transfer buffer and a mask that fits the host address space.
#[derive(Clone, Copy, Debug, PartialEq, Eq)]
pub struct SpiConfig {
    address_mask: u32,
    slave_latency_words: u8,
    nordic_memory_map_latency: bool,
}

/// Whether settings are inside the limits of the bus.
pub open spec fn valid_settings(address_mask: u32, slave_latency_words: u8) -> bool {
    address_mask <= MAX_WIRE_ADDRESS && slave_latency_words <= MAX_SLAVE_LATENCY_WORDS
}

impl SpiConfig {
    #[verifier::type_invariant]
    spec fn inv(self) -> bool {
        valid_settings(self.address_mask, self.slave_latency_words)
    }

    /// Address bits added to each block transfer.
    pub closed spec fn mask(self) -> u32 {
        self.address_mask
    }

    /// Fixed read latency in words.
    pub closed spec fn latency(self) -> u8 {
        self.slave_latency_words
    }

    /// Whether the region table decides the read latency.
    pub closed spec fn table(self) -> bool {
        self.nordic_memory_map_latency
    }

    /// Latency words of a read at `address`.
    pub open spec fn latency_at(self, address: u32) -> u8 {
        if self.table() {
            region_latency(address & !self.mask())
        } else {
            self.latency()
        }
    }

    /// The default configuration: incrementing addresses, no latency.
    pub fn nordic_default() -> (config: Self)
        ensures
            config.mask() == INCREMENTING_ADDRESS_MASK,
            config.latency() == 0,
            !config.table(),
    {
        SpiConfig {
            address_mask: INCREMENTING_ADDRESS_MASK,
            slave_latency_words: 0,
            nordic_memory_map_latency: false,
        }
    }

    /// The configuration that looks read latency up per memory region.
    pub fn nordic_memory_map() -> (config: Self)
        ensures
            config.mask() == INCREMENTING_ADDRESS_MASK,
            config.latency() == 0,
            config.table(),
    {
        SpiConfig {
            address_mask: INCREMENTING_ADDRESS_MASK,
            slave_latency_words: 0,
            nordic_memory_map_latency: true,
        }
    }

    /// Creates validated settings.
    pub fn new(address_mask: u32, slave_latency_words: u8) -> (config: Option<Self>)
        ensures
            match config {
                Some(config) => {
                    &&& valid_settings(address_mask, slave_latency_words)
                    &&& config.mask() == address_mask
                    &&& config.latency() == slave_latency_words
                    &&& !config.table()
                },
                None => !valid_settings(address_mask, slave_latency_words),
            },
    {
        if address_mask > MAX_WIRE_ADDRESS || slave_latency_words as usize
            > MAX_SLAVE_LATENCY_WORDS {
            return None;
        }
        Some(SpiConfig { address_mask, slave_latency_words, nordic_memory_map_latency: false })
    }

    /// Returns the address bits added to each block transfer.
    pub fn address_mask(self) -> (mask: u32)
        ensures
            mask == self.mask(),
            mask <= MAX_WIRE_ADDRESS,
    {
        proof {
            use_type_invariant(&self);
        }
        self.address_mask
    }

    /// Returns the number of 32-bit read-latency words.
    pub fn slave_latency_words(self) -> (words: u8)
        ensures
            words == self.latency(),
            words <= MAX_SLAVE_LATENCY_WORDS,
    {
        proof {
            use_type_invariant(&self);
        }
        self.slave_latency_words
    }

    /// Returns true when reads use the region-specific latency table.
    pub fn uses_nordic_memory_map_latency(self) -> (table: bool)
        ensures
            table == self.table(),
    {
        self.nordic_memory_map_latency
    }

    /// Returns the latency words of a read at `address`.
    pub fn read_latency_words(self, address: u32) -> (words: u8)
        ensures
            words == self.latency_at(address),
            words <= MAX_SLAVE_LATENCY_WORDS,
    {
        proof {
            use_type_invariant(&self);
        }
        if !self.nordic_memory_map_latency {
            return self.slave_latency_words;
        }
        memory_map_latency_words(address & !self.address_mask)
    }
}

impl Default for SpiConfig {
    fn default() -> (config: Self)
        ensures
            config.mask() == INCREMENTING_ADDRESS_MASK,
            config.latency() == 0,
            !config.table(),
    {
        SpiConfig::nordic_default()
    }
}

/// Read latency of a host address: two words in the system and global RAM
/// regions, one in the other slow regions, none in packet RAM and elsewhere.
pub open spec fn region_latency(address: u32) -> u8 {
    if 0x009000 <= address <= 0x03ffff || 0x080000 <= address <= 0x092000 {
        2
    } else if address <= 0x07ffff || 0x100000 <= address <= 0x134000 || 0x140000 <= address
        <= 0x14c000 || 0x180000 <= address <= 0x190000 || 0x200000 <= address <= 0x261800
        || 0x280000 <= address <= 0x2a4000 || 0x300000 <= address <= 0x338000 {
        1
    } else {
        0
    }
}

/// Looks the read latency of a host address up.
pub fn memory_map_latency_words(address: u32) -> (words: u8)
    ensures
        words == region_latency(address),
{
    if address <= 0x0f0fff {
        return low_memory_latency_words(address);
    }
    if is_high_one_word_region(address) {
        return 1;
    }
    0
}

fn low_memory_latency_words(address: u32) -> (words: u8)
    requires
        address <= 0x0f0fff,
    ensures
        words == region_latency(address),
{
    if address <= 0x008fff {
        1
    } else if address <= 0x03ffff {
        2
    } else if address <= 0x07ffff {
        1
    } else if address <= 0x092000 {
        2
    } else {
        0
    }
}

fn is_high_one_word_region(address: u32) -> (slow: bool)
    requires
        address > 0x0f0fff,
    ensures
        slow == (region_latency(address) == 1),
        !slow ==> region_latency(address) == 0,
{
    (0x100000 <= address && address <= 0x134000) || (0x140000 <= address && address <= 0x14c000)
        || (0x180000 <= address && address <= 0x190000) || (0x200000 <= address && address
        <= 0x261800) || (0x280000 <= address && address <= 0x2a4000) || (0x300000 <= address
        && address <= 0x338000)
}

/// The address a block transfer puts on the wire.
pub open spec fn wire_address_of(mask: u32, address: u32) -> u32 {
    (address | mask) & 0x00ff_ffff
}

/// The address that a single-word transfer puts on the wire.
pub open spec fn word_address_of(address: u32) -> u32 {
    address & 0x00ff_ffff
}

/// Every wire address fits in the three address bytes of a header.
pub proof fn law_wire_addresses_fit(mask: u32, address: u32)
    ensures
        wire_address_of(mask, address) <= MAX_WIRE_ADDRESS,
        word_address_of(address) <= MAX_WIRE_ADDRESS,
{
    assert((address | mask) & 0x00ff_ffff <= 0x00ff_ffff) by (bit_vector);
    assert(address & 0x00ff_ffff <= 0x00ff_ffff) by (bit_vector);
}

/// The opcode and the big-endian address bytes.
pub open spec fn frame_header(opcode: u8, wire: u32) -> Seq<u8> {
    seq![
        opcode,
        (wire / 65536 % 256) as u8,
        (wire / 256 % 256) as u8,
        (wire % 256) as u8,
    ]
}

/// A run of `count` equal bytes.
pub open spec fn filled(byte: u8, count: nat) -> Seq<u8> {
    Seq::new(count, |i: int| byte)
}

/// One SPI transaction of a host-bus access.
#[derive(Clone, Copy, Debug, PartialEq, Eq, Structural)]
pub struct Transaction {
    /// Host address of the first byte.
    pub address: u32,
    /// Offset of the first byte in the caller's data.
    pub start: usize,
    /// Number of data bytes.
    pub len: usize,
    /// Whether the wire address carries the configured mask.
    pub incrementing: bool,
}

/// Whether a read of this configuration goes word by word.
pub open spec fn word_at_a_time(config: SpiConfig, address: u32) -> bool {
    config.table() && config.latency_at(address) != 0
}

/// Data bytes per read transaction.
pub open spec fn read_unit(config: SpiConfig, address: u32) -> int {
    if word_at_a_time(config, address) {
        HIGH_LATENCY_READ_WORD_LEN as int
    } else {
        MAX_SPI_DATA_LEN as int
    }
}

/// Number of transactions that cover `len` bytes in units of `unit` bytes.
pub open spec fn transaction_count(len: int, unit: int) -> int {
    (len + unit - 1) / unit
}

/// Every transaction of the access starts at a 32-bit address.
pub open spec fn addressable(address: u32, len: int, unit: int) -> bool {
    len > 0 ==> address + (len - 1) / unit * unit <= u32::MAX
}

/// The transaction with the given index of an access.
pub open spec fn transaction_of(
    address: u32,
    len: int,
    unit: int,
    incrementing: bool,
    index: int,
) -> Transaction {
    let start = index * unit;
    Transaction {
        address: (address + start) as u32,
        start: start as usize,
        len: (if len - start < unit {
            len - start
        } else {
            unit
        }) as usize,
        incrementing,
    }
}

/// All transactions of an access, in order.
pub open spec fn transactions(address: u32, len: int, unit: int, incrementing: bool) -> Seq<
    Transaction,
> {
    Seq::new(
        transaction_count(len, unit) as nat,
        |i: int| transaction_of(address, len, unit, incrementing, i),
    )
}

/// An index names a transaction exactly if its first byte is inside the
/// access, and then it starts no later than the last one.
proof fn lemma_transaction_index(len: int, unit: int, index: int)
    requires
        0 < unit,
        0 <= len,
        0 <= index,
    ensures
        index < transaction_count(len, unit) <==> index * unit < len,
        index * unit < len ==> index * unit <= (len - 1) / unit * unit,
        transaction_count(len, unit) >= 0,
        len == 0 <==> transaction_count(len, unit) == 0,
        index + 1 == transaction_count(len, unit) ==> index * unit + unit >= len,
{
    let count = transaction_count(len, unit);
    let last = (len - 1) / unit;
    vstd::arithmetic::div_mod::lemma_fundamental_div_mod(len + unit - 1, unit);
    vstd::arithmetic::div_mod::lemma_mod_bound(len + unit - 1, unit);
    vstd::arithmetic::div_mod::lemma_fundamental_div_mod(len - 1, unit);
    vstd::arithmetic::div_mod::lemma_mod_bound(len - 1, unit);
    assert(count * unit <= len + unit - 1 < count * unit + unit) by (nonlinear_arith)
        requires
            len + unit - 1 == unit * count + (len + unit - 1) % unit,
            0 <= (len + unit - 1) % unit < unit,
    ;
    assert(last * unit <= len - 1 < last * unit + unit) by (nonlinear_arith)
        requires
            len - 1 == unit * last + (len - 1) % unit,
            0 <= (len - 1) % unit < unit,
    ;
    assert(index < count ==> index * unit < len) by (nonlinear_arith)
        requires
            0 < unit,
            count * unit <= len + unit - 1,
    ;
    assert(index >= count ==> index * unit >= len) by (nonlinear_arith)
        requires
            0 < unit,
            len + unit - 1 < count * unit + unit,
    ;
    assert(index * unit < len ==> index * unit <= last * unit) by (nonlinear_arith)
        requires
            0 < unit,
            len - 1 < last * unit + unit,
    ;
    assert(count >= 0) by (nonlinear_arith)
        requires
            0 < unit,
            0 <= len,
            len + unit - 1 < count * unit + unit,
    ;
    assert(len == 0 ==> count == 0) by (nonlinear_arith)
        requires
            0 < unit,
            0 <= count,
            count * unit <= len + unit - 1,
    ;
    assert(count == 0 ==> len == 0) by (nonlinear_arith)
        requires
            0 < unit,
            0 <= len,
            len + unit - 1 < count * unit + unit,
    ;
    assert(index + 1 == count ==> index * unit + unit >= len) by (nonlinear_arith)
        requires
            len + unit - 1 < count * unit + unit,
    ;
}

/// The transactions of an access cover its bytes without gap or overlap: each
/// starts where the one before it ended, none is empty or longer than the
/// unit, and the last one ends at the end.
pub proof fn law_transactions_tile(address: u32, len: int, unit: int, incrementing: bool)
    requires
        unit == HIGH_LATENCY_READ_WORD_LEN || unit == MAX_SPI_DATA_LEN,
        0 < len <= usize::MAX,
        addressable(address, len, unit),
    ensures
        ({
            let all = transactions(address, len, unit, incrementing);
            &&& all.len() > 0
            &&& all[0].start == 0
            &&& forall|i: int| #![trigger all[i]]
                0 <= i < all.len() ==> 0 < all[i].len <= unit && all[i].address == address
                    + all[i].start
            &&& forall|i: int, j: int| #![trigger all[i], all[j]]
                0 <= i && j == i + 1 && j < all.len() ==> all[j].start == all[i].start + all[i].len
            &&& all.last().start + all.last().len == len
        }),
{
    let all = transactions(address, len, unit, incrementing);
    let n = transaction_count(len, unit);
    lemma_transaction_index(len, unit, 0);
    assert forall|i: int| #![trigger all[i]] 0 <= i < n implies 0 < all[i].len <= unit
        && all[i].address == address + all[i].start && all[i].start == i * unit by {
        lemma_transaction_index(len, unit, i);
        assert(0 <= i * unit) by (nonlinear_arith)
            requires
                0 <= i,
                0 < unit,
        ;
    }
    assert forall|i: int, j: int| #![trigger all[i], all[j]]
        0 <= i && j == i + 1 && j < all.len() implies all[j].start == all[i].start + all[i].len by {
        lemma_transaction_index(len, unit, j);
        assert(j * unit == i * unit + unit) by (nonlinear_arith)
            requires
                j == i + 1,
        ;
    }
    lemma_transaction_index(len, unit, n - 1);
    assert(all.last() == all[n - 1]);
}

/// Lists the SPI transactions of a read.
///
/// A read under the region table goes word by word where its first address
/// has latency; any other read uses incrementing chunks.
pub fn plan_read(config: SpiConfig, address: u32, len: usize) -> (plan: Vec<Transaction>)
    requires
        addressable(address, len as int, read_unit(config, address)),
    ensures
        plan@ == transactions(
            address,
            len as int,
            read_unit(config, address),
            !word_at_a_time(config, address),
        ),
{
    if config.uses_nordic_memory_map_latency() && config.read_latency_words(address) != 0 {
        plan_units(address, len, HIGH_LATENCY_READ_WORD_LEN, false)
    } else {
        plan_units(address, len, MAX_SPI_DATA_LEN, true)
    }
}

/// Lists the SPI transactions of a write: incrementing chunks.
pub fn plan_write(address: u32, len: usize) -> (plan: Vec<Transaction>)
    requires
        addressable(address, len as int, MAX_SPI_DATA_LEN as int),
    ensures
        plan@ == transactions(address, len as int, MAX_SPI_DATA_LEN as int, true),
{
    plan_units(address, len, MAX_SPI_DATA_LEN, true)
}

fn plan_units(address: u32, len: usize, unit: usize, incrementing: bool) -> (plan: Vec<Transaction>)
    requires
        unit == HIGH_LATENCY_READ_WORD_LEN || unit == MAX_SPI_DATA_LEN,
        addressable(address, len as int, unit as int),
    ensures
        plan@ == transactions(address, len as int, unit as int, incrementing),
{
    let mut plan: Vec<Transaction> = Vec::new();
    let mut done: usize = 0;
    let ghost whole = transactions(address, len as int, unit as int, incrementing);
    proof {
        lemma_transaction_index(len as int, unit as int, 0);
    }
    while done < len
        invariant
            unit == 4 || unit == 4096,
            addressable(address, len as int, unit as int),
            whole == transactions(address, len as int, unit as int, incrementing),
            done <= len,
            done < len ==> done == plan@.len() * unit,
            done == len ==> plan@.len() == whole.len(),
            plan@.len() <= whole.len(),
            whole.len() == transaction_count(len as int, unit as int),
            plan@ =~= whole.subrange(0, plan@.len() as int),
        decreases len - done,
    {
        let room: usize = len - done;
        let count: usize = if room < unit {
            room
        } else {
            unit
        };
        let ghost index = plan@.len() as int;
        proof {
            lemma_transaction_index(len as int, unit as int, index);
            lemma_transaction_index(len as int, unit as int, index + 1);
        }
        let start: u32 = address + done as u32;
        let transaction = Transaction { address: start, start: done, len: count, incrementing };
        assert(transaction == transaction_of(
            address,
            len as int,
            unit as int,
            incrementing,
            index,
        ));
        plan.push(transaction);
        done = done + count;
        assert((index + 1) * unit == index * unit + unit) by (nonlinear_arith);
    }
    assert(plan@ =~= whole);
    plan
}

/// What a read transaction sends: the header, zeros during the latency clocks
/// and the over-read character while the data is received.
pub open spec fn read_frame_bytes(config: SpiConfig, transaction: Transaction) -> Seq<u8> {
    let wire = if transaction.incrementing {
        wire_address_of(config.mask(), transaction.address)
    } else {
        word_address_of(transaction.address)
    };
    frame_header(OPCODE_FAST_READ, wire) + seq![0u8] + filled(
        0,
        (4 * config.latency_at(transaction.address)) as nat,
    ) + filled(0xff, transaction.len as nat)
}

/// Offset of the data in what a read transaction receives.
pub open spec fn read_data_start(config: SpiConfig, transaction: Transaction) -> int {
    READ_HEADER_LEN + 4 * config.latency_at(transaction.address)
}

/// Builds what a read transaction sends.
pub fn read_frame(config: SpiConfig, transaction: Transaction) -> (frame: Vec<u8>)
    ensures
        frame@ == read_frame_bytes(config, transaction),
{
    let wire: u32 = if transaction.incrementing {
        wire_address(config, transaction.address)
    } else {
        transaction.address & 0x00ff_ffff
    };
    let latency: usize = config.read_latency_words(transaction.address) as usize * 4;
    let mut frame: Vec<u8> = Vec::new();
    push_header(&mut frame, OPCODE_FAST_READ, wire);
    frame.push(0);
    push_fill(&mut frame, 0, latency);
    push_fill(&mut frame, 0xff, transaction.len);
    frame
}

/// Copies the data of a read transaction out of what was received.
pub fn take_read_data(
    config: SpiConfig,
    transaction: Transaction,
    received: &[u8],
    data: &mut [u8],
)
    requires
        received@.len() == read_data_start(config, transaction) + transaction.len,
        transaction.start + transaction.len <= old(data)@.len(),
    ensures
        final(data)@ == old(data)@.subrange(0, transaction.start as int) + received@.skip(
            read_data_start(config, transaction),
        ) + old(data)@.skip(transaction.start + transaction.len),
{
    let from: usize = READ_HEADER_LEN + config.read_latency_words(transaction.address) as usize * 4;
    assert(transaction.start + transaction.len <= data.len());
    assert(from + transaction.len <= received.len());
    let ghost before = data@;
    let ghost payload = received@.skip(from as int);
    let mut i: usize = 0;
    while i < transaction.len
        invariant
            i <= transaction.len,
            from + transaction.len == received@.len(),
            from + transaction.len <= usize::MAX,
            payload == received@.skip(from as int),
            data@.len() == before.len(),
            transaction.start + transaction.len <= before.len(),
            transaction.start + transaction.len <= usize::MAX,
            data@ =~= before.subrange(0, transaction.start as int) + payload.subrange(0, i as int)
                + before.skip(transaction.start + i),
        decreases transaction.len - i,
    {
        data[transaction.start + i] = received[from + i];
        i = i + 1;
    }
    assert(payload.subrange(0, transaction.len as int) =~= payload);
}

/// What a write transaction sends.
pub open spec fn write_frame_bytes(
    config: SpiConfig,
    transaction: Transaction,
    data: Seq<u8>,
) -> Seq<u8> {
    frame_header(OPCODE_WRITE, wire_address_of(config.mask(), transaction.address))
        + data.subrange(transaction.start as int, transaction.start + transaction.len)
}

/// Builds what a write transaction sends.
pub fn write_frame(config: SpiConfig, transaction: Transaction, data: &[u8]) -> (frame: Vec<u8>)
    requires
        transaction.start + transaction.len <= data@.len(),
    ensures
        frame@ == write_frame_bytes(config, transaction, data@),
{
    assert(transaction.start + transaction.len <= data.len());
    let mut frame: Vec<u8> = Vec::new();
    push_header(&mut frame, OPCODE_WRITE, wire_address(config, transaction.address));
    push_all(&mut frame, &data[transaction.start..transaction.start + transaction.len]);
    frame
}

/// Returns the address a block transfer puts on the wire.
pub fn wire_address(config: SpiConfig, address: u32) -> (wire: u32)
    ensures
        wire == wire_address_of(config.mask(), address),
{
    (address | config.address_mask()) & 0x00ff_ffff
}

/// Builds the six-byte status read transaction.
pub fn status_read_frame(opcode: u8) -> (frame: [u8; 6])
    ensures
        frame@ == seq![opcode, 0, 0, 0, 0, 0],
{
    [opcode, 0, 0, 0, 0, 0]
}

/// Returns the status that a status read transaction received.
pub fn status_value(received: [u8; 6]) -> (status: u8)
    ensures
        status == received@[1],
{
    received[1]
}

/// Builds the status write transaction.
pub fn status_write_frame(opcode: u8, value: u8) -> (frame: [u8; 2])
    ensures
        frame@ == seq![opcode, value],
{
    [opcode, value]
}

fn push_header(frame: &mut Vec<u8>, opcode: u8, wire: u32)
    ensures
        final(frame)@ == old(frame)@ + frame_header(opcode, wire),
{
    frame.push(opcode);
    frame.push((wire / 65536 % 256) as u8);
    frame.push((wire / 256 % 256) as u8);
    frame.push((wire % 256) as u8);
}

fn push_fill(frame: &mut Vec<u8>, byte: u8, count: usize)
    ensures
        final(frame)@ == old(frame)@ + filled(byte, count as nat),
{
    let mut i: usize = 0;
    while i < count
        invariant
            i <= count,
            frame@ =~= old(frame)@ + filled(byte, i as nat),
        decreases count - i,
    {
        frame.push(byte);
        i = i + 1;
    }
}

/// Appends a byte string.
pub fn push_all(frame: &mut Vec<u8>, bytes: &[u8])
    ensures
        final(frame)@ == old(frame)@ + bytes@,
{
    let mut i: usize = 0;
    while i < bytes.len()
        invariant
            i <= bytes@.len(),
            frame@ =~= old(frame)@ + bytes@.subrange(0, i as int),
        decreases bytes@.len() - i,
    {
        frame.push(bytes[i]);
        i = i + 1;
    }
}

/// An SPI device together with its framing settings.
pub struct SpiTransport<SPI> {
    /// The SPI device.
    pub spi: SPI,
    /// Framing settings.
    pub config: SpiConfig,
}

impl<SPI> SpiTransport<SPI> {
    /// Creates a transport with incrementing addresses enabled.
    pub fn new(spi: SPI) -> (transport: Self)
        ensures
            transport.spi == spi,
            transport.config.mask() == INCREMENTING_ADDRESS_MASK,
            transport.config.latency() == 0,
            !transport.config.table(),
    {
        SpiTransport { spi, config: SpiConfig::nordic_default() }
    }

    /// Creates a transport with explicit framing settings.
    pub fn with_config(spi: SPI, config: SpiConfig) -> (transport: Self)
        ensures
            transport.spi == spi,
            transport.config == config,
    {
        SpiTransport { spi, config }
    }

    /// Returns the framing settings.
    pub fn config(&self) -> (config: SpiConfig)
        ensures
            config == self.config,
    {
        self.config
    }

    /// Borrows the underlying SPI device.
    pub fn spi_mut(&mut self) -> (spi: &mut SPI)
        ensures
            *spi == old(self).spi,
            final(self).spi == *final(spi),
            final(self).config == old(self).config,
    {
        &mut self.spi
    }

    /// Releases the underlying SPI device.
    pub fn into_inner(self) -> (spi: SPI)
        ensures
            spi == self.spi,
    {
        self.spi
    }
}

/// Every transaction starts with its opcode and a 24-bit address, most significant
/// byte first.
pub proof fn law_frame_headers_are_big_endian(opcode: u8, wire: u32)
    requires
        wire <= 0xff_ffff,
    ensures
        frame_header(opcode, wire).len() == 4,
        frame_header(opcode, wire)[0] == opcode,
        0x1_0000 * frame_header(opcode, wire)[1] + 0x100 * frame_header(opcode, wire)[2]
            + frame_header(opcode, wire)[3] == wire,
{
}

/// Block transfers set the address bits of the mask and keep the others below 24
/// bits; single words are addressed without the mask.
pub proof fn law_wire_addresses_carry_the_mask(mask: u32, address: u32)
    requires
        address <= 0x7f_ffff,
    ensures
        wire_address_of(0x80_0000, address) == 0x80_0000 + address,
        wire_address_of(0, address) == address,
        word_address_of(address) == address,
        wire_address_of(mask, address) & mask == mask & 0xff_ffff,
        wire_address_of(mask, address) | mask & 0xff_ffff == wire_address_of(mask, address),
{
    assert((address | 0x80_0000) & 0x00ff_ffff == 0x80_0000 + address) by (bit_vector)
        requires
            address <= 0x7f_ffff,
    ;
    assert((address | 0) & 0x00ff_ffff == address && address & 0x00ff_ffff == address)
        by (bit_vector)
        requires
            address <= 0x7f_ffff,
    ;
    assert(((address | mask) & 0x00ff_ffff) & mask == mask & 0xff_ffff) by (bit_vector);
    assert(((address | mask) & 0x00ff_ffff) | mask & 0xff_ffff == (address | mask) & 0x00ff_ffff)
        by (bit_vector);
}

/// The read latency of a host address under the region table: two words from the
/// system bus behind its first 36 KiB and from global memory, one from the rest of
/// the buses and from code memory, none from packet memory.
pub proof fn law_region_latencies(address: u32)
    ensures
        address < 0x9000 ==> region_latency(address) == 1,
        0x9000 <= address < 0x4_0000 ==> region_latency(address) == 2,
        0x4_0000 <= address < 0x8_0000 ==> region_latency(address) == 1,
        0x8_0000 <= address <= 0x9_2000 ==> region_latency(address) == 2,
        0x9_2000 < address < 0x10_0000 ==> region_latency(address) == 0,
        0x10_0000 <= address <= 0x13_4000 ==> region_latency(address) == 1,
        0x13_4000 < address < 0x14_0000 ==> region_latency(address) == 0,
        0x14_0000 <= address <= 0x14_c000 ==> region_latency(address) == 1,
        0x14_c000 < address < 0x18_0000 ==> region_latency(address) == 0,
        0x18_0000 <= address <= 0x19_0000 ==> region_latency(address) == 1,
        0x19_0000 < address < 0x20_0000 ==> region_latency(address) == 0,
        0x20_0000 <= address <= 0x26_1800 ==> region_latency(address) == 1,
        0x26_1800 < address < 0x28_0000 ==> region_latency(address) == 0,
        0x28_0000 <= address <= 0x2a_4000 ==> region_latency(address) == 1,
        0x2a_4000 < address < 0x30_0000 ==> region_latency(address) == 0,
        0x30_0000 <= address <= 0x33_8000 ==> region_latency(address) == 1,
        0x33_8000 < address ==> region_latency(address) == 0,
{
}

/// The mask bits do not change the latency of an address, and without the region
/// table every address has the configured latency.
pub proof fn law_latency_ignores_the_mask(config: SpiConfig, address: u32)
    ensures
        config.latency_at(address | config.mask()) == config.latency_at(address),
        !config.table() ==> config.latency_at(address) == config.latency(),
        config.table() && config.mask() == 0x80_0000 && address <= 0x7f_ffff ==> config.latency_at(
            address,
        ) == region_latency(address),
{
    let mask = config.mask();
    assert((address | mask) & !mask == address & !mask) by (bit_vector);
    assert(address <= 0x7f_ffff ==> address & !0x80_0000u32 == address) by (bit_vector);
}

/// A read sends the fast-read opcode, the address and a dummy byte, waits the
/// latency of the address in zero words and clocks the data in behind them.
pub proof fn law_read_frame_layout(config: SpiConfig, transaction: Transaction)
    ensures
        ({
            let frame = read_frame_bytes(config, transaction);
            let latency = 4 * config.latency_at(transaction.address);
            let wire = if transaction.incrementing {
                wire_address_of(config.mask(), transaction.address)
            } else {
                word_address_of(transaction.address)
            };
            &&& frame.len() == 5 + latency + transaction.len
            &&& frame[0] == 0x0b
            &&& 0x1_0000 * frame[1] + 0x100 * frame[2] + frame[3] == wire
            &&& forall|i: int| 4 <= i < 5 + latency ==> #[trigger] frame[i] == 0
            &&& forall|i: int| 5 + latency <= i < frame.len() ==> #[trigger] frame[i] == 0xff
            &&& read_data_start(config, transaction) == 5 + latency
        }),
{
    let wire = if transaction.incrementing {
        wire_address_of(config.mask(), transaction.address)
    } else {
        word_address_of(transaction.address)
    };
    law_wire_addresses_fit(config.mask(), transaction.address);
    law_frame_headers_are_big_endian(OPCODE_FAST_READ, wire);
}

/// A write sends the write opcode, the masked address and its part of the data.
pub proof fn law_write_frame_layout(config: SpiConfig, transaction: Transaction, data: Seq<u8>)
    requires
        transaction.start + transaction.len <= data.len(),
    ensures
        ({
            let frame = write_frame_bytes(config, transaction, data);
            &&& frame.len() == 4 + transaction.len
            &&& frame[0] == 0x02
            &&& 0x1_0000 * frame[1] + 0x100 * frame[2] + frame[3] == wire_address_of(
                config.mask(),
                transaction.address,
            )
            &&& frame.skip(4) == data.subrange(
                transaction.start as int,
                transaction.start + transaction.len,
            )
        }),
{
    let frame = write_frame_bytes(config, transaction, data);
    law_wire_addresses_fit(config.mask(), transaction.address);
    law_frame_headers_are_big_endian(
        OPCODE_WRITE,
        wire_address_of(config.mask(), transaction.address),
    );
    assert(frame.skip(4) =~= data.subrange(
        transaction.start as int,
        transaction.start + transaction.len,
    ));
}

/// Reads from slow regions under the region table go word by word, all others in
/// blocks of at most 4096 bytes.
pub proof fn law_slow_reads_go_word_by_word(config: SpiConfig, address: u32)
    ensures
        read_unit(config, address) == (if config.table() && config.latency_at(address) > 0 {
            4int
        } else {
            4096int
        }),
{
}

/// A status transaction carries its opcode first; the status comes back in the
/// second byte of a read.
pub proof fn law_status_frames(
    opcode: u8,
    value: u8,
    read: [u8; 6],
    written: [u8; 2],
    received: [u8; 6],
    status: u8,
)
    requires
        call_ensures(status_read_frame, (opcode,), read),
        call_ensures(status_write_frame, (opcode, value), written),
        call_ensures(status_value, (received,), status),
    ensures
        read@[0] == opcode,
        forall|i: int| 1 <= i < 6 ==> read@[i] == 0,
        written@[0] == opcode,
        written@[1] == value,
        status == received@[1],
{
}

/// Settings are valid exactly when the mask fits the wire address and the latency
/// fits the transfer buffer; the Nordic settings increment addresses without
/// latency of their own.
pub proof fn law_spi_settings(
    address_mask: u32,
    slave_latency_words: u8,
    plain: SpiConfig,
    mapped: SpiConfig,
)
    requires
        call_ensures(SpiConfig::nordic_default, (), plain),
        call_ensures(SpiConfig::nordic_memory_map, (), mapped),
    ensures
        valid_settings(address_mask, slave_latency_words) <==> address_mask < 0x100_0000
            && slave_latency_words <= 8,
        plain.mask() == 0x80_0000 && plain.latency() == 0 && !plain.table(),
        mapped.mask() == 0x80_0000 && mapped.latency() == 0 && mapped.table(),
{
}

} // verus!
