//! Bounded little-endian codec primitives.

use vstd::prelude::*;

use crate::protocol::ProtocolError;

verus! {

/// Little-endian image of a 16-bit value.
#[verifier::opaque]
pub open spec fn le16(v: u16) -> Seq<u8> {
    seq![(v % 256) as u8, (v / 256) as u8]
}

/// Little-endian image of a 32-bit value.
#[verifier::opaque]
pub open spec fn le32(v: u32) -> Seq<u8> {
    seq![
        (v % 256) as u8,
        (v / 256 % 256) as u8,
        (v / 65536 % 256) as u8,
        (v / 16777216) as u8,
    ]
}

/// Little-endian image of a 64-bit value: its low word, then its high word.
#[verifier::opaque]
pub open spec fn le64(v: u64) -> Seq<u8> {
    le32((v % 0x1_0000_0000) as u32) + le32((v / 0x1_0000_0000) as u32)
}

/// A 16-bit image has two bytes.
pub broadcast proof fn lemma_le16_len(v: u16)
    ensures
        #[trigger] le16(v).len() == 2,
{
    reveal(le16);
}

/// A 32-bit image has four bytes.
pub broadcast proof fn lemma_le32_len(v: u32)
    ensures
        #[trigger] le32(v).len() == 4,
{
    reveal(le32);
}

/// A 64-bit image has eight bytes.
pub broadcast proof fn lemma_le64_len(v: u64)
    ensures
        #[trigger] le64(v).len() == 8,
{
    reveal(le64);
    lemma_le32_len((v % 0x1_0000_0000) as u32);
    lemma_le32_len((v / 0x1_0000_0000) as u32);
}

/// The lengths of the integer images.
pub broadcast group group_image_lengths {
    lemma_le16_len,
    lemma_le32_len,
    lemma_le64_len,
}

/// Concatenated little-endian images of a list of 32-bit values.
pub open spec fn le32_list(values: Seq<u32>) -> Seq<u8>
    decreases values.len(),
{
    if values.len() == 0 {
        Seq::empty()
    } else {
        le32_list(values.drop_last()) + le32(values.last())
    }
}

/// A run of `count` zero bytes.
pub open spec fn zero_bytes(count: nat) -> Seq<u8> {
    Seq::new(count, |i: int| 0u8)
}

/// `value` followed by zeros up to `width` bytes.
pub open spec fn padded(value: Seq<u8>, width: nat) -> Seq<u8> {
    value + zero_bytes((width - value.len()) as nat)
}

/// The 16-bit little-endian value stored at `offset`.
pub open spec fn u16_at(bytes: Seq<u8>, offset: int) -> u16 {
    (bytes[offset] + 256 * bytes[offset + 1]) as u16
}

/// The signed 16-bit little-endian value stored at `offset`.
pub open spec fn i16_at(bytes: Seq<u8>, offset: int) -> i16 {
    u16_at(bytes, offset) as i16
}

/// The 32-bit little-endian value stored at `offset`.
pub open spec fn u32_at(bytes: Seq<u8>, offset: int) -> u32 {
    (bytes[offset] + 256 * bytes[offset + 1] + 65536 * bytes[offset + 2] + 16777216 * bytes[offset
        + 3]) as u32
}

/// The signed 32-bit little-endian value stored at `offset`.
pub open spec fn i32_at(bytes: Seq<u8>, offset: int) -> i32 {
    u32_at(bytes, offset) as i32
}

/// The 64-bit little-endian value stored at `offset`.
pub open spec fn u64_at(bytes: Seq<u8>, offset: int) -> u64 {
    (u32_at(bytes, offset) + 0x1_0000_0000 * u32_at(bytes, offset + 4)) as u64
}

/// The 16-bit big-endian value stored at `offset`.
pub open spec fn be16_at(bytes: Seq<u8>, offset: int) -> u16 {
    (256 * bytes[offset] + bytes[offset + 1]) as u16
}

/// Big-endian image of a 16-bit value.
pub open spec fn be16(v: u16) -> Seq<u8> {
    seq![(v / 256) as u8, (v % 256) as u8]
}

/// A 16-bit value reads back from wherever its image was stored.
pub proof fn law_u16_round_trip(bytes: Seq<u8>, offset: int, v: u16)
    requires
        0 <= offset,
        offset + 2 <= bytes.len(),
        bytes.subrange(offset, offset + 2) == le16(v),
    ensures
        u16_at(bytes, offset) == v,
{
    reveal(le16);
    let image = bytes.subrange(offset, offset + 2);
    assert(image[0] == bytes[offset]);
    assert(image[1] == bytes[offset + 1]);
}

/// A 32-bit value reads back from wherever its image was stored.
pub proof fn law_u32_round_trip(bytes: Seq<u8>, offset: int, v: u32)
    requires
        0 <= offset,
        offset + 4 <= bytes.len(),
        bytes.subrange(offset, offset + 4) == le32(v),
    ensures
        u32_at(bytes, offset) == v,
{
    reveal(le32);
    let image = bytes.subrange(offset, offset + 4);
    assert(image[0] == bytes[offset]);
    assert(image[1] == bytes[offset + 1]);
    assert(image[2] == bytes[offset + 2]);
    assert(image[3] == bytes[offset + 3]);
}

/// A signed 32-bit value reads back from wherever its image was stored.
pub proof fn law_i32_round_trip(bytes: Seq<u8>, offset: int, v: i32)
    requires
        0 <= offset,
        offset + 4 <= bytes.len(),
        bytes.subrange(offset, offset + 4) == le32(v as u32),
    ensures
        i32_at(bytes, offset) == v,
{
    law_u32_round_trip(bytes, offset, v as u32);
    assert((v as u32) as i32 == v) by (bit_vector);
}

/// A 64-bit value reads back from wherever its image was stored.
pub proof fn law_u64_round_trip(bytes: Seq<u8>, offset: int, v: u64)
    requires
        0 <= offset,
        offset + 8 <= bytes.len(),
        bytes.subrange(offset, offset + 8) == le64(v),
    ensures
        u64_at(bytes, offset) == v,
{
    broadcast use group_image_lengths;

    reveal(le64);
    let low = (v % 0x1_0000_0000) as u32;
    let high = (v / 0x1_0000_0000) as u32;
    let image = bytes.subrange(offset, offset + 8);
    assert(bytes.subrange(offset, offset + 4) =~= image.subrange(0, 4));
    assert(image.subrange(0, 4) =~= le32(low));
    assert(bytes.subrange(offset + 4, offset + 8) =~= image.subrange(4, 8));
    assert(image.subrange(4, 8) =~= le32(high));
    law_u32_round_trip(bytes, offset, low);
    law_u32_round_trip(bytes, offset + 4, high);
}

/// Integers are stored with their least significant byte first: the bytes of an
/// image, weighted by their position, sum up to the value.
pub proof fn law_images_are_little_endian(half: u16, word: u32, long: u64)
    ensures
        le16(half).len() == 2,
        le16(half)[0] + 0x100 * le16(half)[1] == half,
        le32(word).len() == 4,
        le32(word)[0] + 0x100 * le32(word)[1] + 0x1_0000 * le32(word)[2] + 0x100_0000
            * le32(word)[3] == word,
        le64(long).len() == 8,
        le64(long)[0] + 0x100 * le64(long)[1] + 0x1_0000 * le64(long)[2] + 0x100_0000
            * le64(long)[3] + 0x1_0000_0000 * le64(long)[4] + 0x100_0000_0000 * le64(long)[5]
            + 0x1_0000_0000_0000 * le64(long)[6] + 0x100_0000_0000_0000 * le64(long)[7] == long,
{
    reveal(le16);
    reveal(le64);
    let low = (long % 0x1_0000_0000) as u32;
    let high = (long / 0x1_0000_0000) as u32;
    lemma_le32_sum(word);
    lemma_le32_sum(low);
    lemma_le32_sum(high);
    assert(low + 0x1_0000_0000 * high == long);
}

/// The bytes of a 32-bit image sum up to the value.
proof fn lemma_le32_sum(v: u32)
    ensures
        le32(v).len() == 4,
        le32(v)[0] + 0x100 * le32(v)[1] + 0x1_0000 * le32(v)[2] + 0x100_0000 * le32(v)[3] == v,
{
    reveal(le32);
}

/// Reading an integer weighs every byte by its position, least significant byte
/// first; a signed value is negative exactly when its last byte has the top bit
/// set; a big-endian value has its most significant byte first.
pub proof fn law_values_weigh_their_bytes(bytes: Seq<u8>, offset: int)
    ensures
        u16_at(bytes, offset) == bytes[offset] + 0x100 * bytes[offset + 1],
        i16_at(bytes, offset) == bytes[offset] + 0x100 * bytes[offset + 1] - (if bytes[offset + 1]
            >= 0x80 {
            0x1_0000int
        } else {
            0
        }),
        u32_at(bytes, offset) == bytes[offset] + 0x100 * bytes[offset + 1] + 0x1_0000 * bytes[offset
            + 2] + 0x100_0000 * bytes[offset + 3],
        i32_at(bytes, offset) == bytes[offset] + 0x100 * bytes[offset + 1] + 0x1_0000 * bytes[offset
            + 2] + 0x100_0000 * bytes[offset + 3] - (if bytes[offset + 3] >= 0x80 {
            0x1_0000_0000int
        } else {
            0
        }),
        u64_at(bytes, offset) == bytes[offset] + 0x100 * bytes[offset + 1] + 0x1_0000 * bytes[offset
            + 2] + 0x100_0000 * bytes[offset + 3] + 0x1_0000_0000 * bytes[offset + 4]
            + 0x100_0000_0000 * bytes[offset + 5] + 0x1_0000_0000_0000 * bytes[offset + 6]
            + 0x100_0000_0000_0000 * bytes[offset + 7],
        be16_at(bytes, offset) == 0x100 * bytes[offset] + bytes[offset + 1],
{
    let half = u16_at(bytes, offset);
    assert(half as i16 == (if half >= 0x8000 {
        half - 0x1_0000
    } else {
        half as int
    })) by (bit_vector);
    let word = u32_at(bytes, offset);
    assert(word as i32 == (if word >= 0x8000_0000 {
        word - 0x1_0000_0000
    } else {
        word as int
    })) by (bit_vector);
}

/// A big-endian image starts with the most significant byte.
pub proof fn law_big_endian_image(v: u16)
    ensures
        be16(v).len() == 2,
        0x100 * be16(v)[0] + be16(v)[1] == v,
{
}

/// A padded field holds its value first and zeros up to its width, and a list
/// holds its entries four bytes apart.
pub proof fn law_fixed_fields(value: Seq<u8>, width: nat, list: Seq<u32>, index: int)
    requires
        value.len() <= width,
        0 <= index < list.len(),
    ensures
        padded(value, width).len() == width,
        padded(value, width).subrange(0, value.len() as int) == value,
        forall|i: int| value.len() <= i < width ==> #[trigger] padded(value, width)[i] == 0,
        le32_list(list).len() == 4 * list.len(),
        u32_at(le32_list(list), 4 * index) == list[index],
{
    lemma_le32_list_len(list);
    lemma_le32_list_entry(list, index);
    assert(padded(value, width).subrange(0, value.len() as int) =~= value);
}

/// Entry `index` of a list is read back at four times its index.
proof fn lemma_le32_list_entry(list: Seq<u32>, index: int)
    requires
        0 <= index < list.len(),
    ensures
        u32_at(le32_list(list), 4 * index) == list[index],
    decreases list.len(),
{
    broadcast use group_image_lengths;

    let front = list.drop_last();
    let image = le32_list(list);
    lemma_le32_list_len(front);
    assert(image == le32_list(front) + le32(list.last()));
    if index == list.len() - 1 {
        assert(image.subrange(4 * index, 4 * index + 4) =~= le32(list.last()));
        law_u32_round_trip(image, 4 * index, list.last());
    } else {
        lemma_le32_list_entry(front, index);
        assert(image[4 * index + 0] == le32_list(front)[4 * index + 0]);
        assert(image[4 * index + 1] == le32_list(front)[4 * index + 1]);
        assert(image[4 * index + 2] == le32_list(front)[4 * index + 2]);
        assert(image[4 * index + 3] == le32_list(front)[4 * index + 3]);
    }
}

/// Appends little-endian fields to a caller-owned buffer.
pub struct Writer<'a> {
    /// Storage being filled.
    pub bytes: &'a mut [u8],
    /// Number of bytes written so far.
    pub position: usize,
}

impl<'a> Writer<'a> {
    /// The write position lies inside the storage.
    pub open spec fn wf(&self) -> bool {
        self.position <= self.bytes@.len()
    }

    /// The bytes written so far.
    pub open spec fn written(&self) -> Seq<u8> {
        self.bytes@.subrange(0, self.position as int)
    }

    /// The bytes that have not been overwritten yet.
    pub open spec fn rest(&self) -> Seq<u8> {
        self.bytes@.subrange(self.position as int, self.bytes@.len() as int)
    }

    /// Starts writing at the beginning of `bytes`.
    pub fn new(bytes: &'a mut [u8]) -> (writer: Self)
        ensures
            writer.wf(),
            writer.written() == Seq::<u8>::empty(),
            writer.rest() == old(bytes)@,
            final(writer.bytes)@ == final(bytes)@,
    {
        Writer { bytes, position: 0 }
    }

    /// Number of bytes written.
    pub fn len(&self) -> (len: usize)
        requires
            self.wf(),
        ensures
            len == self.written().len(),
    {
        self.position
    }

    /// Ends writing and returns the number of bytes written.
    pub fn finish(self) -> (len: usize)
        requires
            self.wf(),
        ensures
            len == self.written().len(),
            final(self.bytes)@ == self.written() + self.rest(),
    {
        assert(self.bytes@ =~= self.written() + self.rest());
        self.position
    }

    /// Writes one byte.
    pub fn u8(&mut self, value: u8) -> (result: Result<(), ProtocolError>)
        requires
            old(self).wf(),
        ensures
            final(self).wf(),
            final(final(self).bytes)@ == final(old(self).bytes)@,
            match result {
                Ok(()) => {
                    &&& old(self).rest().len() >= 1
                    &&& final(self).written() == old(self).written() + seq![value]
                    &&& final(self).rest() == old(self).rest().skip(1)
                },
                Err(error) => {
                    &&& error == ProtocolError::BufferTooSmall
                    &&& old(self).rest().len() < 1
                    &&& *final(self) == *old(self)
                },
            },
    {
        self.bytes(&[value])
    }

    /// Writes one 16-bit value.
    pub fn u16(&mut self, value: u16) -> (result: Result<(), ProtocolError>)
        requires
            old(self).wf(),
        ensures
            final(self).wf(),
            final(final(self).bytes)@ == final(old(self).bytes)@,
            match result {
                Ok(()) => {
                    &&& old(self).rest().len() >= 2
                    &&& final(self).written() == old(self).written() + le16(value)
                    &&& final(self).rest() == old(self).rest().skip(2)
                },
                Err(error) => {
                    &&& error == ProtocolError::BufferTooSmall
                    &&& old(self).rest().len() < 2
                    &&& *final(self) == *old(self)
                },
            },
    {
        broadcast use group_image_lengths;

        let image = u16_bytes(value);
        self.bytes(&image)
    }

    /// Writes one 32-bit value.
    pub fn u32(&mut self, value: u32) -> (result: Result<(), ProtocolError>)
        requires
            old(self).wf(),
        ensures
            final(self).wf(),
            final(final(self).bytes)@ == final(old(self).bytes)@,
            match result {
                Ok(()) => {
                    &&& old(self).rest().len() >= 4
                    &&& final(self).written() == old(self).written() + le32(value)
                    &&& final(self).rest() == old(self).rest().skip(4)
                },
                Err(error) => {
                    &&& error == ProtocolError::BufferTooSmall
                    &&& old(self).rest().len() < 4
                    &&& *final(self) == *old(self)
                },
            },
    {
        broadcast use group_image_lengths;

        let image = u32_bytes(value);
        self.bytes(&image)
    }

    /// Writes one signed 32-bit value.
    pub fn i32(&mut self, value: i32) -> (result: Result<(), ProtocolError>)
        requires
            old(self).wf(),
        ensures
            final(self).wf(),
            final(final(self).bytes)@ == final(old(self).bytes)@,
            match result {
                Ok(()) => {
                    &&& old(self).rest().len() >= 4
                    &&& final(self).written() == old(self).written() + le32(value as u32)
                    &&& final(self).rest() == old(self).rest().skip(4)
                },
                Err(error) => {
                    &&& error == ProtocolError::BufferTooSmall
                    &&& old(self).rest().len() < 4
                    &&& *final(self) == *old(self)
                },
            },
    {
        broadcast use group_image_lengths;

        self.u32(value as u32)
    }

    /// Writes one 64-bit value.
    pub fn u64(&mut self, value: u64) -> (result: Result<(), ProtocolError>)
        requires
            old(self).wf(),
        ensures
            final(self).wf(),
            final(final(self).bytes)@ == final(old(self).bytes)@,
            match result {
                Ok(()) => {
                    &&& old(self).rest().len() >= 8
                    &&& final(self).written() == old(self).written() + le64(value)
                    &&& final(self).rest() == old(self).rest().skip(8)
                },
                Err(error) => {
                    &&& error == ProtocolError::BufferTooSmall
                    &&& old(self).rest().len() < 8
                    &&& *final(self) == *old(self)
                },
            },
    {
        broadcast use group_image_lengths;

        let image = u64_bytes(value);
        self.bytes(&image)
    }

    /// Writes a byte string.
    pub fn bytes(&mut self, value: &[u8]) -> (result: Result<(), ProtocolError>)
        requires
            old(self).wf(),
        ensures
            final(self).wf(),
            final(final(self).bytes)@ == final(old(self).bytes)@,
            match result {
                Ok(()) => {
                    &&& old(self).rest().len() >= value@.len()
                    &&& final(self).written() == old(self).written() + value@
                    &&& final(self).rest() == old(self).rest().skip(value@.len() as int)
                },
                Err(error) => {
                    &&& error == ProtocolError::BufferTooSmall
                    &&& old(self).rest().len() < value@.len()
                    &&& *final(self) == *old(self)
                },
            },
    {
        let limit: usize = self.bytes.len();
        let room: usize = limit - self.position;
        if value.len() > room {
            return Err(ProtocolError::BufferTooSmall);
        }
        let start: usize = self.position;
        let mut i: usize = 0;
        while i < value.len()
            invariant
                i <= value@.len(),
                start == old(self).position,
                self.position == start,
                self.bytes@.len() == old(self).bytes@.len(),
                self.bytes@.len() == limit,
                start + value@.len() <= self.bytes@.len(),
                final(self.bytes)@ == final(old(self).bytes)@,
                self.bytes@ =~= old(self).bytes@.subrange(0, start as int) + value@.subrange(
                    0,
                    i as int,
                ) + old(self).bytes@.subrange(start + i, old(self).bytes@.len() as int),
            decreases value@.len() - i,
        {
            self.bytes[start + i] = value[i];
            i = i + 1;
        }
        self.position = start + value.len();
        Ok(())
    }

    /// Writes `count` zero bytes.
    pub fn zeros(&mut self, count: usize) -> (result: Result<(), ProtocolError>)
        requires
            old(self).wf(),
        ensures
            final(self).wf(),
            final(final(self).bytes)@ == final(old(self).bytes)@,
            match result {
                Ok(()) => {
                    &&& old(self).rest().len() >= count
                    &&& final(self).written() == old(self).written() + zero_bytes(count as nat)
                    &&& final(self).rest() == old(self).rest().skip(count as int)
                },
                Err(error) => {
                    &&& error == ProtocolError::BufferTooSmall
                    &&& old(self).rest().len() < count
                    &&& *final(self) == *old(self)
                },
            },
    {
        let limit: usize = self.bytes.len();
        let room: usize = limit - self.position;
        if count > room {
            return Err(ProtocolError::BufferTooSmall);
        }
        let start: usize = self.position;
        let mut i: usize = 0;
        while i < count
            invariant
                i <= count,
                start == old(self).position,
                self.position == start,
                self.bytes@.len() == old(self).bytes@.len(),
                self.bytes@.len() == limit,
                start + count <= self.bytes@.len(),
                final(self.bytes)@ == final(old(self).bytes)@,
                self.bytes@ =~= old(self).bytes@.subrange(0, start as int) + zero_bytes(i as nat)
                    + old(self).bytes@.subrange(start + i, old(self).bytes@.len() as int),
            decreases count - i,
        {
            self.bytes[start + i] = 0;
            i = i + 1;
        }
        self.position = start + count;
        Ok(())
    }

    /// Writes a byte string and pads it with zeros to `width` bytes.
    pub fn fixed(&mut self, value: &[u8], width: usize) -> (result: Result<(), ProtocolError>)
        requires
            old(self).wf(),
        ensures
            final(self).wf(),
            final(final(self).bytes)@ == final(old(self).bytes)@,
            match result {
                Ok(()) => {
                    &&& value@.len() <= width
                    &&& old(self).rest().len() >= width
                    &&& final(self).written() == old(self).written() + padded(
                        value@,
                        width as nat,
                    )
                    &&& final(self).rest() == old(self).rest().skip(width as int)
                },
                Err(error) => if value@.len() > width {
                    &&& error == ProtocolError::LimitExceeded
                    &&& *final(self) == *old(self)
                } else {
                    &&& error == ProtocolError::BufferTooSmall
                    &&& old(self).rest().len() < width
                },
            },
    {
        if value.len() > width {
            return Err(ProtocolError::LimitExceeded);
        }
        self.bytes(value)?;
        self.zeros(width - value.len())
    }

    /// Writes a list of 32-bit values and pads it with zeros to `count` values.
    pub fn fixed_u32(&mut self, value: &[u32], count: usize) -> (result: Result<
        (),
        ProtocolError,
    >)
        requires
            old(self).wf(),
            count * 4 <= usize::MAX,
        ensures
            final(self).wf(),
            final(final(self).bytes)@ == final(old(self).bytes)@,
            match result {
                Ok(()) => {
                    &&& value@.len() <= count
                    &&& old(self).rest().len() >= 4 * count
                    &&& final(self).written() == old(self).written() + padded(
                        le32_list(value@),
                        (4 * count) as nat,
                    )
                    &&& final(self).rest() == old(self).rest().skip(4 * count)
                },
                Err(error) => if value@.len() > count {
                    &&& error == ProtocolError::LimitExceeded
                    &&& *final(self) == *old(self)
                } else {
                    &&& error == ProtocolError::BufferTooSmall
                    &&& old(self).rest().len() < 4 * count
                },
            },
    {
        if value.len() > count {
            return Err(ProtocolError::LimitExceeded);
        }
        self.u32_list(value)?;
        proof {
            lemma_le32_list_len(value@);
        }
        self.zeros((count - value.len()) * 4)
    }

    /// Writes a list of 32-bit values.
    pub fn u32_list(&mut self, value: &[u32]) -> (result: Result<(), ProtocolError>)
        requires
            old(self).wf(),
        ensures
            final(self).wf(),
            final(final(self).bytes)@ == final(old(self).bytes)@,
            match result {
                Ok(()) => {
                    &&& old(self).rest().len() >= 4 * value@.len()
                    &&& final(self).written() == old(self).written() + le32_list(value@)
                    &&& final(self).rest() == old(self).rest().skip(4 * value@.len() as int)
                },
                Err(error) => {
                    &&& error == ProtocolError::BufferTooSmall
                    &&& old(self).rest().len() < 4 * value@.len()
                },
            },
    {
        broadcast use group_image_lengths;

        let mut i: usize = 0;
        while i < value.len()
            invariant
                i <= value@.len(),
                self.wf(),
                final(self.bytes)@ == final(old(self).bytes)@,
                old(self).rest().len() >= 4 * i,
                self.written() =~= old(self).written() + le32_list(value@.subrange(0, i as int)),
                self.rest() =~= old(self).rest().skip(4 * i),
            decreases value@.len() - i,
        {
            self.u32(value[i])?;
            proof {
                let grown = value@.subrange(0, i + 1);
                assert(grown.drop_last() =~= value@.subrange(0, i as int));
                assert(grown.last() == value@[i as int]);
            }
            i = i + 1;
        }
        assert(value@.subrange(0, value@.len() as int) =~= value@);
        Ok(())
    }
}

/// Every entry of a 32-bit list takes four bytes.
pub proof fn lemma_le32_list_len(values: Seq<u32>)
    ensures
        le32_list(values).len() == 4 * values.len(),
    decreases values.len(),
{
    if values.len() > 0 {
        lemma_le32_list_len(values.drop_last());
        lemma_le32_len(values.last());
    }
}

/// Little-endian bytes of a 16-bit value.
pub fn u16_bytes(value: u16) -> (bytes: [u8; 2])
    ensures
        bytes@ == le16(value),
{
    reveal(le16);
    [(value % 256) as u8, (value / 256) as u8]
}

/// Little-endian bytes of a 32-bit value.
pub fn u32_bytes(value: u32) -> (bytes: [u8; 4])
    ensures
        bytes@ == le32(value),
{
    reveal(le32);
    [
        (value % 256) as u8,
        (value / 256 % 256) as u8,
        (value / 65536 % 256) as u8,
        (value / 16777216) as u8,
    ]
}

/// Little-endian bytes of a 64-bit value.
pub fn u64_bytes(value: u64) -> (bytes: [u8; 8])
    ensures
        bytes@ == le64(value),
{
    broadcast use group_image_lengths;

    reveal(le64);
    let low = u32_bytes((value % 0x1_0000_0000) as u32);
    let high = u32_bytes((value / 0x1_0000_0000) as u32);
    [low[0], low[1], low[2], low[3], high[0], high[1], high[2], high[3]]
}

/// Reads a 16-bit value.
pub fn read_u16(bytes: &[u8], offset: usize) -> (value: u16)
    requires
        offset + 2 <= bytes@.len(),
    ensures
        value == u16_at(bytes@, offset as int),
{
    bytes[offset] as u16 + 256 * bytes[offset + 1] as u16
}

/// Reads a signed 16-bit value.
pub fn read_i16(bytes: &[u8], offset: usize) -> (value: i16)
    requires
        offset + 2 <= bytes@.len(),
    ensures
        value == i16_at(bytes@, offset as int),
{
    read_u16(bytes, offset) as i16
}

/// Reads a big-endian 16-bit value.
pub fn read_be16(bytes: &[u8], offset: usize) -> (value: u16)
    requires
        offset + 2 <= bytes@.len(),
    ensures
        value == be16_at(bytes@, offset as int),
{
    256 * bytes[offset] as u16 + bytes[offset + 1] as u16
}

/// Reads a 32-bit value.
pub fn read_u32(bytes: &[u8], offset: usize) -> (value: u32)
    requires
        offset + 4 <= bytes@.len(),
    ensures
        value == u32_at(bytes@, offset as int),
{
    bytes[offset] as u32 + 256 * bytes[offset + 1] as u32 + 65536 * bytes[offset + 2] as u32
        + 16777216 * bytes[offset + 3] as u32
}

/// Reads a signed 32-bit value.
pub fn read_i32(bytes: &[u8], offset: usize) -> (value: i32)
    requires
        offset + 4 <= bytes@.len(),
    ensures
        value == i32_at(bytes@, offset as int),
{
    read_u32(bytes, offset) as i32
}

/// Reads a 64-bit value.
pub fn read_u64(bytes: &[u8], offset: usize) -> (value: u64)
    requires
        offset + 8 <= bytes@.len(),
    ensures
        value == u64_at(bytes@, offset as int),
{
    assert(offset + 8 <= bytes.len());
    read_u32(bytes, offset) as u64 + 0x1_0000_0000 * read_u32(bytes, offset + 4) as u64
}

} // verus!
