//! One direction of the bounded packet queue.
//!
//! A lane is a fixed set of frame slots. A slot is free, owned by the holder
//! of its index and epoch, or ready. Ready slots are handed out in the order
//! in which they were committed; the order is kept in wrapping 32-bit stamps.

use vstd::prelude::*;

use crate::bridge::MAX_FRAME_LEN;

verus! {

/// Largest slot count whose wrapping order stamps stay comparable.
pub const MAX_SLOTS: usize = 0x7fff_ffff;

/// Ownership state of one slot.
#[derive(Clone, Copy, Debug, PartialEq, Eq, Structural)]
pub enum SlotState {
    /// The slot holds no frame.
    Free,
    /// The slot holds a complete frame that waits for its consumer.
    Ready,
    /// The slot is owned by a reservation, a token or a lease.
    InUse,
}

/// Bookkeeping of one slot.
#[derive(Clone, Copy)]
pub struct SlotMeta {
    pub len: usize,
    pub state: SlotState,
    pub order: u32,
    pub epoch: u32,
}

impl SlotMeta {
    /// An empty slot.
    pub fn new() -> (slot: Self)
        ensures
            slot == (SlotMeta { len: 0, state: SlotState::Free, order: 0, epoch: 0 }),
    {
        SlotMeta { len: 0, state: SlotState::Free, order: 0, epoch: 0 }
    }
}

/// Storage of one complete frame.
#[derive(Clone, Copy)]
pub struct Frame {
    pub bytes: [u8; MAX_FRAME_LEN],
}

/// What became of a commit.
#[derive(Clone, Copy, Debug, PartialEq, Eq, Structural)]
pub enum CommitOutcome {
    /// The frame is ready.
    Committed,
    /// The link epoch had changed; the slot is free again.
    StaleRetired,
    /// The caller did not own the slot.
    Rejected,
}

/// Number of slots in one state.
pub open spec fn count(slots: Seq<SlotMeta>, state: SlotState) -> nat
    decreases slots.len(),
{
    if slots.len() == 0 {
        0
    } else {
        count(slots.drop_last(), state) + if slots.last().state == state {
            1nat
        } else {
            0nat
        }
    }
}

/// The stamp given `age` commits ago.
pub open spec fn stamp(next_order: u32, age: int) -> u32 {
    ((next_order - age) % 0x1_0000_0000) as u32
}

proof fn lemma_count_update(slots: Seq<SlotMeta>, index: int, slot: SlotMeta, state: SlotState)
    requires
        0 <= index < slots.len(),
    ensures
        count(slots.update(index, slot), state) == count(slots, state) - (if slots[index].state
            == state {
            1int
        } else {
            0int
        }) + (if slot.state == state {
            1int
        } else {
            0int
        }),
    decreases slots.len(),
{
    let updated = slots.update(index, slot);
    if index == slots.len() - 1 {
        assert(updated.drop_last() =~= slots.drop_last());
    } else {
        assert(updated.drop_last() =~= slots.drop_last().update(index, slot));
        lemma_count_update(slots.drop_last(), index, slot, state);
    }
}

proof fn lemma_count_total(slots: Seq<SlotMeta>)
    ensures
        count(slots, SlotState::Free) + count(slots, SlotState::Ready) + count(
            slots,
            SlotState::InUse,
        ) == slots.len(),
    decreases slots.len(),
{
    if slots.len() > 0 {
        lemma_count_total(slots.drop_last());
    }
}

proof fn lemma_count_none(slots: Seq<SlotMeta>, state: SlotState)
    requires
        forall|i: int| 0 <= i < slots.len() ==> slots[i].state != state,
    ensures
        count(slots, state) == 0,
    decreases slots.len(),
{
    if slots.len() > 0 {
        assert forall|i: int| 0 <= i < slots.drop_last().len() implies slots.drop_last()[i].state
            != state by {
            assert(slots.drop_last()[i] == slots[i]);
        }
        lemma_count_none(slots.drop_last(), state);
    }
}

proof fn lemma_count_all(slots: Seq<SlotMeta>, state: SlotState)
    requires
        forall|i: int| 0 <= i < slots.len() ==> slots[i].state == state,
    ensures
        count(slots, state) == slots.len(),
    decreases slots.len(),
{
    if slots.len() > 0 {
        assert forall|i: int| 0 <= i < slots.drop_last().len() implies slots.drop_last()[i].state
            == state by {
            assert(slots.drop_last()[i] == slots[i]);
        }
        lemma_count_all(slots.drop_last(), state);
    }
}

proof fn lemma_count_some(slots: Seq<SlotMeta>, index: int)
    requires
        0 <= index < slots.len(),
    ensures
        count(slots, slots[index].state) > 0,
    decreases slots.len(),
{
    if index < slots.len() - 1 {
        assert(slots.drop_last()[index] == slots[index]);
        lemma_count_some(slots.drop_last(), index);
    }
}

/// Compares two stamps whose ages differ by less than half the stamp range.
pub open spec fn older(candidate: u32, current: u32) -> bool {
    (candidate - current) % 0x1_0000_0000 >= 0x8000_0000
}

/// Of two stamps within [`MAX_SLOTS`] commits, the one with the larger age is
/// the older one.
pub proof fn law_older_follows_age(next_order: u32, age: int, other_age: int)
    requires
        0 <= age <= MAX_SLOTS,
        0 <= other_age <= MAX_SLOTS,
    ensures
        older(stamp(next_order, age), stamp(next_order, other_age)) <==> age > other_age,
{
}

/// Returns whether `candidate` was stamped before `current`.
pub fn order_is_older(candidate: u32, current: u32) -> (is_older: bool)
    ensures
        is_older == older(candidate, current),
{
    let distance: u32 = candidate.wrapping_sub(current);
    assert((distance & 0x8000_0000 != 0) == (distance >= 0x8000_0000)) by (bit_vector);
    distance & 0x8000_0000 != 0
}

/// The fixed slots of one direction.
pub struct Lane<const N: usize> {
    pub slots: [SlotMeta; N],
    pub frames: [Frame; N],
    /// Number of slots that are not free.
    pub occupied: usize,
    /// Number of ready slots.
    pub ready: usize,
    /// Stamp of the next commit.
    pub next_order: u32,
    /// Indices of the ready slots, oldest first.
    pub queue: Ghost<Seq<int>>,
}

impl<const N: usize> Lane<N> {
    /// The counters agree with the slots, the queue lists exactly the ready
    /// slots in the order of their stamps, and every length fits its slot.
    pub open spec fn wf(&self) -> bool {
        &&& N <= MAX_SLOTS
        &&& self.ready == count(self.slots@, SlotState::Ready)
        &&& self.occupied == count(self.slots@, SlotState::Ready) + count(
            self.slots@,
            SlotState::InUse,
        )
        &&& self.queue@.len() == self.ready
        &&& self.queue@.no_duplicates()
        &&& forall|k: int|
            0 <= k < self.queue@.len() ==> 0 <= #[trigger] self.queue@[k] < N
                && self.slots@[self.queue@[k]].state is Ready && self.slots@[self.queue@[k]].order
                == stamp(self.next_order, self.queue@.len() - k)
        &&& forall|i: int|
            0 <= i < N && (#[trigger] self.slots@[i]).state is Ready ==> self.queue@.contains(i)
        &&& forall|i: int|
            0 <= i < N ==> (#[trigger] self.slots@[i]).len <= MAX_FRAME_LEN && (
            self.slots@[i].state is Free ==> self.slots@[i].len == 0)
    }

    /// The frame held by one slot.
    pub open spec fn frame(&self, index: int) -> Seq<u8> {
        self.frames@[index].bytes@.subrange(0, self.slots@[index].len as int)
    }

    /// The ready frames, oldest first.
    pub open spec fn ready_frames(&self) -> Seq<Seq<u8>> {
        Seq::new(self.queue@.len(), |k: int| self.frame(self.queue@[k]))
    }

    /// Whether the holder of `index` and `epoch` owns the slot.
    pub open spec fn owned(&self, index: int, epoch: u32) -> bool {
        &&& 0 <= index < N
        &&& self.slots@[index].state is InUse
        &&& self.slots@[index].epoch == epoch
    }

    /// Nothing but the bookkeeping of one slot differs, and no bytes do.
    pub open spec fn only_slot_changed(&self, before: &Self, index: int) -> bool {
        &&& self.frames == before.frames
        &&& forall|i: int| 0 <= i < N && i != index ==> self.slots@[i] == before.slots@[i]
    }

    /// The slots and frames other than those of `index` are kept.
    pub open spec fn others_kept(&self, before: &Self, index: int) -> bool {
        &&& forall|i: int| 0 <= i < N && i != index ==> self.slots@[i] == before.slots@[i]
        &&& forall|i: int| 0 <= i < N && i != index ==> self.frames@[i] == before.frames@[i]
    }

    /// The slot is the free one with the lowest index.
    pub open spec fn is_first_free(&self, index: int) -> bool {
        &&& 0 <= index < N
        &&& self.slots@[index].state is Free
        &&& forall|i: int| 0 <= i < index ==> !((#[trigger] self.slots@[i]).state is Free)
    }

    /// Nothing but the bytes of one slot differs.
    pub open spec fn only_bytes_changed(&self, before: &Self, index: int) -> bool {
        &&& self.slots == before.slots
        &&& self.occupied == before.occupied
        &&& self.ready == before.ready
        &&& self.next_order == before.next_order
        &&& self.queue == before.queue
        &&& forall|i: int| 0 <= i < N && i != index ==> self.frames@[i] == before.frames@[i]
    }

    /// A lane that was never used: every slot is free and every byte zero.
    pub open spec fn unused(&self) -> bool {
        &&& self.queue@ == Seq::<int>::empty()
        &&& self.occupied == 0
        &&& self.ready == 0
        &&& self.next_order == 0
        &&& forall|i: int|
            0 <= i < N ==> (#[trigger] self.slots@[i]) == (SlotMeta {
                len: 0,
                state: SlotState::Free,
                order: 0,
                epoch: 0,
            })
        &&& forall|i: int, k: int|
            0 <= i < N && 0 <= k < MAX_FRAME_LEN ==> #[trigger] self.frames@[i].bytes@[k] == 0
    }

    /// A lane of free slots.
    pub fn new() -> (lane: Self)
        requires
            N <= MAX_SLOTS,
        ensures
            lane.wf(),
            lane.unused(),
    {
        let lane = Lane {
            slots: [SlotMeta { len: 0, state: SlotState::Free, order: 0, epoch: 0 }; N],
            frames: [Frame { bytes: [0u8; MAX_FRAME_LEN] }; N],
            occupied: 0,
            ready: 0,
            next_order: 0,
            queue: Ghost(Seq::empty()),
        };
        proof {
            lemma_count_none(lane.slots@, SlotState::Ready);
            lemma_count_none(lane.slots@, SlotState::InUse);
        }
        lane
    }

    /// Finds the free slot with the lowest index.
    pub fn first_free(&self) -> (found: Option<usize>)
        requires
            self.wf(),
        ensures
            match found {
                Some(index) => self.is_first_free(index as int),
                None => {
                    &&& forall|i: int| 0 <= i < N ==> !((#[trigger] self.slots@[i]).state is Free)
                    &&& self.occupied == N
                },
            },
            found is Some <==> self.occupied < N,
    {
        let mut index: usize = 0;
        while index < N
            invariant
                index <= N,
                self.wf(),
                forall|i: int| 0 <= i < index ==> !((#[trigger] self.slots@[i]).state is Free),
            decreases N - index,
        {
            if self.slots[index].state == SlotState::Free {
                proof {
                    lemma_count_some(self.slots@, index as int);
                    lemma_count_total(self.slots@);
                }
                return Some(index);
            }
            index = index + 1;
        }
        proof {
            lemma_count_none(self.slots@, SlotState::Free);
            lemma_count_total(self.slots@);
        }
        None
    }

    /// Finds the ready slot that was committed first.
    pub fn oldest_ready(&self) -> (found: Option<usize>)
        requires
            self.wf(),
        ensures
            match found {
                Some(index) => self.queue@.len() > 0 && index == self.queue@[0],
                None => self.queue@.len() == 0,
            },
    {
        let mut oldest: Option<usize> = None;
        let mut index: usize = 0;
        while index < N
            invariant
                index <= N,
                self.wf(),
                match oldest {
                    None => forall|i: int|
                        0 <= i < index ==> !((#[trigger] self.slots@[i]).state is Ready),
                    Some(current) => {
                        &&& current < index
                        &&& self.slots@[current as int].state is Ready
                        &&& forall|k: int|
                            0 <= k < self.queue@.len() && #[trigger] self.queue@[k] < index
                                ==> self.queue@.index_of(current as int) <= k
                    },
                },
            decreases N - index,
        {
            if self.slots[index].state == SlotState::Ready {
                proof {
                    self.lemma_ready_position(index as int);
                }
                match oldest {
                    None => {
                        oldest = Some(index);
                    },
                    Some(current) => {
                        proof {
                            self.lemma_ready_position(current as int);
                            self.lemma_ready_length();
                            let a = self.queue@.index_of(index as int);
                            let b = self.queue@.index_of(current as int);
                            law_older_follows_age(
                                self.next_order,
                                self.queue@.len() - a,
                                self.queue@.len() - b,
                            );
                        }
                        if order_is_older(self.slots[index].order, self.slots[current].order) {
                            oldest = Some(index);
                        }
                    },
                }
            }
            index = index + 1;
        }
        proof {
            match oldest {
                None => {
                    if self.queue@.len() > 0 {
                        assert(self.slots@[self.queue@[0]].state is Ready);
                    }
                },
                Some(current) => {
                    self.lemma_ready_position(current as int);
                    assert(self.queue@[0] < N);
                },
            }
        }
        oldest
    }

    proof fn lemma_ready_position(&self, index: int)
        requires
            self.wf(),
            0 <= index < N,
            self.slots@[index].state is Ready,
        ensures
            0 <= self.queue@.index_of(index) < self.queue@.len(),
            self.queue@[self.queue@.index_of(index)] == index,
            self.slots@[index].order == stamp(
                self.next_order,
                self.queue@.len() - self.queue@.index_of(index),
            ),
            forall|k: int|
                0 <= k < self.queue@.len() && #[trigger] self.queue@[k] == index ==> k
                    == self.queue@.index_of(index),
    {
        assert(self.queue@.contains(index));
    }

    proof fn lemma_ready_length(&self)
        requires
            self.wf(),
        ensures
            self.queue@.len() <= N,
    {
        lemma_count_total(self.slots@);
    }

    /// Every slot is occupied or free.
    pub proof fn lemma_occupied(&self)
        requires
            self.wf(),
        ensures
            self.occupied + count(self.slots@, SlotState::Free) == N,
    {
        lemma_count_total(self.slots@);
    }

    /// Takes ownership of a free slot for `epoch`.
    pub fn reserve(&mut self, epoch: u32) -> (reserved: Option<usize>)
        requires
            old(self).wf(),
        ensures
            final(self).wf(),
            final(self).queue@ == old(self).queue@,
            final(self).ready_frames() == old(self).ready_frames(),
            reserved is Some <==> old(self).occupied < N,
            match reserved {
                Some(index) => {
                    &&& old(self).is_first_free(index as int)
                    &&& final(self).slots@[index as int].len == 0
                    &&& final(self).owned(index as int, epoch)
                    &&& final(self).only_slot_changed(old(self), index as int)
                    &&& final(self).occupied == old(self).occupied + 1
                    &&& final(self).ready == old(self).ready
                    &&& final(self).next_order == old(self).next_order
                },
                None => *final(self) == *old(self),
            },
    {
        let index: usize = match self.first_free() {
            Some(index) => index,
            None => return None,
        };
        let slot = SlotMeta {
            len: 0,
            state: SlotState::InUse,
            order: self.slots[index].order,
            epoch,
        };
        self.slots[index] = slot;
        self.occupied = self.occupied + 1;
        proof {
            lemma_count_update(old(self).slots@, index as int, slot, SlotState::Ready);
            lemma_count_update(old(self).slots@, index as int, slot, SlotState::InUse);
            assert(self.ready_frames() =~= old(self).ready_frames());
        }
        Some(index)
    }

    /// Copies a frame into an owned slot.
    pub fn store(&mut self, index: usize, bytes: &[u8])
        requires
            old(self).wf(),
            index < N,
            old(self).slots@[index as int].state is InUse,
            bytes@.len() <= MAX_FRAME_LEN,
        ensures
            final(self).wf(),
            final(self).only_bytes_changed(old(self), index as int),
            final(self).ready_frames() == old(self).ready_frames(),
            final(self).frames@[index as int].bytes@ == bytes@ + old(
                self).frames@[index as int].bytes@.skip(bytes@.len() as int),
            final(self).frames@[index as int].bytes@.subrange(0, bytes@.len() as int) == bytes@,
    {
        let mut frame = self.frames[index];
        let ghost before = frame.bytes@;
        let mut i: usize = 0;
        while i < bytes.len()
            invariant
                i <= bytes@.len() <= MAX_FRAME_LEN,
                before.len() == MAX_FRAME_LEN,
                frame.bytes@ =~= bytes@.subrange(0, i as int) + before.skip(i as int),
            decreases bytes@.len() - i,
        {
            frame.bytes[i] = bytes[i];
            i = i + 1;
        }
        assert(bytes@.subrange(0, bytes@.len() as int) =~= bytes@);
        self.frames[index] = frame;
        assert(self.ready_frames() =~= old(self).ready_frames());
    }

    /// Borrows the storage of a slot.
    pub fn storage_mut(&mut self, index: usize) -> (bytes: &mut [u8; MAX_FRAME_LEN])
        requires
            index < N,
        ensures
            *bytes == old(self).frames@[index as int].bytes,
            final(self).only_bytes_changed(old(self), index as int),
            final(self).frames@[index as int].bytes == *final(bytes),
    {
        &mut self.frames[index].bytes
    }

    /// The ready frames do not depend on the bytes of a slot that is not
    /// ready.
    pub proof fn lemma_bytes_changed(&self, before: &Self, index: int)
        requires
            before.wf(),
            0 <= index < N,
            !(before.slots@[index].state is Ready),
            self.only_bytes_changed(before, index),
        ensures
            self.wf(),
            self.ready_frames() == before.ready_frames(),
    {
        assert(self.ready_frames() =~= before.ready_frames());
    }

    /// Publishes `len` bytes of an owned slot, unless the link epoch changed.
    pub fn commit(&mut self, index: usize, epoch: u32, current: u32, len: usize) -> (outcome:
        CommitOutcome)
        requires
            old(self).wf(),
            index < N,
            len <= MAX_FRAME_LEN,
        ensures
            final(self).wf(),
            final(self).frames == old(self).frames,
            final(self).only_slot_changed(old(self), index as int),
            match outcome {
                CommitOutcome::Committed => {
                    &&& old(self).owned(index as int, epoch) && current == epoch
                    &&& final(self).slots@[index as int] == (SlotMeta {
                        len,
                        state: SlotState::Ready,
                        order: old(self).next_order,
                        epoch,
                    })
                    &&& final(self).queue@ == old(self).queue@.push(index as int)
                    &&& final(self).ready_frames() == old(self).ready_frames().push(
                        old(self).frames@[index as int].bytes@.subrange(0, len as int),
                    )
                    &&& final(self).occupied == old(self).occupied
                    &&& final(self).ready == old(self).ready + 1
                },
                CommitOutcome::StaleRetired => {
                    &&& old(self).owned(index as int, epoch) && current != epoch
                    &&& final(self).slots@[index as int].state is Free
                    &&& final(self).queue@ == old(self).queue@
                    &&& final(self).ready_frames() == old(self).ready_frames()
                    &&& final(self).occupied == old(self).occupied - 1
                    &&& final(self).ready == old(self).ready
                    &&& final(self).next_order == old(self).next_order
                },
                CommitOutcome::Rejected => {
                    &&& !old(self).owned(index as int, epoch)
                    &&& *final(self) == *old(self)
                },
            },
    {
        let before = self.slots[index];
        if before.state != SlotState::InUse || before.epoch != epoch {
            return CommitOutcome::Rejected;
        }
        if current != epoch {
            self.retire(index);
            return CommitOutcome::StaleRetired;
        }
        let slot = SlotMeta { len, state: SlotState::Ready, order: self.next_order, epoch };
        proof {
            lemma_count_total(self.slots@);
            lemma_count_some(self.slots@, index as int);
            lemma_count_update(self.slots@, index as int, slot, SlotState::Ready);
            lemma_count_update(self.slots@, index as int, slot, SlotState::InUse);
        }
        self.slots[index] = slot;
        self.next_order = self.next_order.wrapping_add(1);
        self.ready = self.ready + 1;
        self.queue = Ghost(self.queue@.push(index as int));
        proof {
            let queue = self.queue@;
            let earlier = old(self).queue@;
            assert forall|k: int| 0 <= k < queue.len() implies 0 <= #[trigger] queue[k] < N
                && self.slots@[queue[k]].state is Ready && self.slots@[queue[k]].order == stamp(
                self.next_order,
                queue.len() - k,
            ) by {
                if k < earlier.len() {
                    assert(queue[k] == earlier[k]);
                    assert(earlier[k] != index);
                    lemma_stamp_ages(old(self).next_order, self.next_order, earlier.len() - k);
                } else {
                    lemma_stamp_ages(old(self).next_order, self.next_order, 0);
                }
            }
            assert forall|i: int|
                0 <= i < N && (#[trigger] self.slots@[i]).state is Ready implies queue.contains(
                i,
            ) by {
                if i == index {
                    assert(queue[earlier.len() as int] == i);
                } else {
                    assert(old(self).slots@[i].state is Ready);
                    let k = choose|k: int| 0 <= k < earlier.len() && earlier[k] == i;
                    assert(queue[k] == i);
                }
            }
            assert(self.ready_frames() =~= old(self).ready_frames().push(
                old(self).frames@[index as int].bytes@.subrange(0, len as int),
            ));
        }
        CommitOutcome::Committed
    }

    fn retire(&mut self, index: usize)
        requires
            old(self).wf(),
            index < N,
            old(self).slots@[index as int].state is InUse,
        ensures
            final(self).wf(),
            final(self).frames == old(self).frames,
            final(self).only_slot_changed(old(self), index as int),
            final(self).slots@[index as int].state is Free,
            final(self).queue@ == old(self).queue@,
            final(self).ready_frames() == old(self).ready_frames(),
            final(self).occupied == old(self).occupied - 1,
            final(self).ready == old(self).ready,
            final(self).next_order == old(self).next_order,
    {
        let before = self.slots[index];
        let slot = SlotMeta {
            len: 0,
            state: SlotState::Free,
            order: before.order,
            epoch: before.epoch,
        };
        proof {
            lemma_count_some(self.slots@, index as int);
            lemma_count_update(self.slots@, index as int, slot, SlotState::Ready);
            lemma_count_update(self.slots@, index as int, slot, SlotState::InUse);
        }
        self.slots[index] = slot;
        self.occupied = self.occupied - 1;
        assert(self.ready_frames() =~= old(self).ready_frames());
    }

    /// Gives an owned slot back. Returns whether the caller owned it.
    pub fn release(&mut self, index: usize, epoch: u32) -> (released: bool)
        requires
            old(self).wf(),
            index < N,
        ensures
            final(self).wf(),
            released == old(self).owned(index as int, epoch),
            final(self).frames == old(self).frames,
            final(self).only_slot_changed(old(self), index as int),
            final(self).queue@ == old(self).queue@,
            final(self).ready_frames() == old(self).ready_frames(),
            final(self).ready == old(self).ready,
            final(self).next_order == old(self).next_order,
            released ==> final(self).slots@[index as int].state is Free && final(self).occupied
                == old(self).occupied - 1,
            !released ==> *final(self) == *old(self),
    {
        let before = self.slots[index];
        if before.state == SlotState::InUse && before.epoch == epoch {
            self.retire(index);
            true
        } else {
            false
        }
    }

    /// Takes ownership of the oldest ready slot.
    pub fn take(&mut self) -> (taken: Option<(usize, u32)>)
        requires
            old(self).wf(),
        ensures
            final(self).wf(),
            match taken {
                Some((index, epoch)) => {
                    &&& old(self).queue@.len() > 0
                    &&& index == old(self).queue@[0]
                    &&& index < N
                    &&& epoch == old(self).slots@[index as int].epoch
                    &&& final(self).owned(index as int, epoch)
                    &&& final(self).frame(index as int) == old(self).frame(index as int)
                    &&& final(self).slots@[index as int].len == old(self).slots@[index as int].len
                    &&& final(self).only_slot_changed(old(self), index as int)
                    &&& final(self).queue@ == old(self).queue@.drop_first()
                    &&& final(self).ready_frames() == old(self).ready_frames().drop_first()
                    &&& final(self).occupied == old(self).occupied
                    &&& final(self).ready == old(self).ready - 1
                    &&& final(self).next_order == old(self).next_order
                },
                None => old(self).queue@.len() == 0 && *final(self) == *old(self),
            },
    {
        let index: usize = match self.oldest_ready() {
            Some(index) => index,
            None => return None,
        };
        let before = self.slots[index];
        let slot = SlotMeta {
            len: before.len,
            state: SlotState::InUse,
            order: before.order,
            epoch: before.epoch,
        };
        proof {
            lemma_count_some(self.slots@, index as int);
            lemma_count_update(self.slots@, index as int, slot, SlotState::Ready);
            lemma_count_update(self.slots@, index as int, slot, SlotState::InUse);
        }
        self.slots[index] = slot;
        self.ready = self.ready - 1;
        self.queue = Ghost(self.queue@.drop_first());
        proof {
            let queue = self.queue@;
            let earlier = old(self).queue@;
            assert forall|k: int| 0 <= k < queue.len() implies 0 <= #[trigger] queue[k] < N
                && self.slots@[queue[k]].state is Ready && self.slots@[queue[k]].order == stamp(
                self.next_order,
                queue.len() - k,
            ) by {
                assert(queue[k] == earlier[k + 1]);
                assert(earlier[k + 1] != earlier[0]);
            }
            assert forall|i: int|
                0 <= i < N && (#[trigger] self.slots@[i]).state is Ready implies queue.contains(
                i,
            ) by {
                assert(old(self).slots@[i].state is Ready);
                let k = choose|k: int| 0 <= k < earlier.len() && earlier[k] == i;
                assert(k != 0);
                assert(queue[k - 1] == i);
            }
            assert(self.ready_frames() =~= old(self).ready_frames().drop_first());
        }
        Some((index, before.epoch))
    }

    /// Frees every ready slot. Owned slots are left to their holders.
    pub fn flush(&mut self)
        requires
            old(self).wf(),
        ensures
            final(self).wf(),
            final(self).frames == old(self).frames,
            final(self).queue@ == Seq::<int>::empty(),
            final(self).ready == 0,
            final(self).occupied == count(old(self).slots@, SlotState::InUse),
            final(self).next_order == old(self).next_order,
            forall|i: int|
                0 <= i < N ==> (#[trigger] final(self).slots@[i]) == (if old(
                    self).slots@[i].state is Ready {
                    SlotMeta { len: 0, state: SlotState::Free, ..old(self).slots@[i] }
                } else {
                    old(self).slots@[i]
                }),
    {
        let mut index: usize = 0;
        while index < N
            invariant
                index <= N,
                old(self).wf(),
                N <= MAX_SLOTS,
                self.frames == old(self).frames,
                self.next_order == old(self).next_order,
                self.ready == count(self.slots@, SlotState::Ready),
                self.occupied == count(self.slots@, SlotState::Ready) + count(
                    self.slots@,
                    SlotState::InUse,
                ),
                count(self.slots@, SlotState::InUse) == count(old(self).slots@, SlotState::InUse),
                forall|i: int|
                    index <= i < N ==> (#[trigger] self.slots@[i]) == old(self).slots@[i],
                forall|i: int|
                    0 <= i < index ==> (#[trigger] self.slots@[i]) == (if old(
                        self).slots@[i].state is Ready {
                        SlotMeta { len: 0, state: SlotState::Free, ..old(self).slots@[i] }
                    } else {
                        old(self).slots@[i]
                    }),
            decreases N - index,
        {
            let before = self.slots[index];
            if before.state == SlotState::Ready {
                let slot = SlotMeta {
                    len: 0,
                    state: SlotState::Free,
                    order: before.order,
                    epoch: before.epoch,
                };
                proof {
                    lemma_count_some(self.slots@, index as int);
                    lemma_count_update(self.slots@, index as int, slot, SlotState::Ready);
                    lemma_count_update(self.slots@, index as int, slot, SlotState::InUse);
                }
                self.slots[index] = slot;
                self.occupied = self.occupied - 1;
                self.ready = self.ready - 1;
            }
            index = index + 1;
        }
        self.queue = Ghost(Seq::empty());
        proof {
            lemma_count_none(self.slots@, SlotState::Ready);
        }
    }

    /// Length of an owned slot's frame, while the link epoch is still the
    /// owner's.
    pub fn len_for(&self, index: usize, epoch: u32, current: u32) -> (len: Option<usize>)
        ensures
            match len {
                Some(len) => {
                    &&& self.owned(index as int, epoch)
                    &&& current == epoch
                    &&& len == self.slots@[index as int].len
                },
                None => !self.owned(index as int, epoch) || current != epoch,
            },
    {
        if index >= N {
            return None;
        }
        let slot = self.slots[index];
        if slot.state == SlotState::InUse && slot.epoch == epoch && current == epoch {
            Some(slot.len)
        } else {
            None
        }
    }

    /// Borrows the frame of a slot.
    pub fn frame_bytes(&self, index: usize) -> (bytes: &[u8])
        requires
            self.wf(),
            index < N,
        ensures
            bytes@ == self.frame(index as int),
    {
        let len: usize = self.slots[index].len;
        assert(self.slots@[index as int].len <= MAX_FRAME_LEN);
        let bytes: &[u8] = &self.frames[index].bytes;
        &bytes[0..len]
    }
}

proof fn lemma_stamp_ages(earlier: u32, later: u32, age: int)
    requires
        later == (if earlier == u32::MAX {
            0
        } else {
            earlier + 1
        }),
        0 <= age,
    ensures
        stamp(later, age + 1) == stamp(earlier, age),
{
    if earlier == u32::MAX {
        assert((0 - (age + 1)) % 0x1_0000_0000 == (u32::MAX - age) % 0x1_0000_0000) by {
            vstd::arithmetic::div_mod::lemma_mod_add_multiples_vanish(
                0 - (age + 1),
                0x1_0000_0000,
            );
        }
    }
}

/// Frames leave in the order in which they were committed: a later commit
/// changes neither the first frame nor what follows it, and waits behind
/// them.
pub proof fn law_committed_frame_waits_behind<const N: usize>(
    before: Lane<N>,
    after: Lane<N>,
    frame: Seq<u8>,
)
    requires
        before.ready_frames().len() > 0,
        after.ready_frames() == before.ready_frames().push(frame),
    ensures
        after.ready_frames()[0] == before.ready_frames()[0],
        after.ready_frames().drop_first() == before.ready_frames().drop_first().push(frame),
        after.ready_frames().last() == frame,
{
    assert(after.ready_frames().drop_first() =~= before.ready_frames().drop_first().push(frame));
}

/// A lane hands out the frame that has waited longest and keeps the others in their
/// order.
pub proof fn law_lanes_are_fifo<const N: usize>(index: usize, epoch: u32)
    ensures
        forall|lane: &mut Lane<N>| #[trigger]
            call_ensures(Lane::<N>::take, (lane,), Some((index, epoch)))
                ==> lane.ready_frames().len() > 0 && final(lane).frame(index as int)
                == lane.ready_frames()[0] && final(lane).ready_frames()
                == lane.ready_frames().drop_first() && final(lane).slots@[index as int].state
                is InUse,
        forall|lane: &mut Lane<N>| #[trigger]
            call_ensures(Lane::<N>::take, (lane,), None) ==> lane.ready_frames().len() == 0,
{
}

/// A committed frame is the one that was stored, behind every frame that waits; a
/// frame of an earlier epoch is dropped and frees its slot, and a slot that is not
/// owned is left alone.
pub proof fn law_commits_append<const N: usize>(
    index: usize,
    epoch: u32,
    current: u32,
    len: usize,
    outcome: CommitOutcome,
)
    ensures
        forall|lane: &mut Lane<N>| #[trigger]
            call_ensures(Lane::<N>::commit, (lane, index, epoch, current, len), outcome) ==> {
                let owned = lane.slots@[index as int].state is InUse
                    && lane.slots@[index as int].epoch == epoch && index < N;
                let stored = lane.frames@[index as int].bytes@.subrange(0, len as int);
                &&& outcome == CommitOutcome::Committed <==> owned && current == epoch
                &&& outcome == CommitOutcome::StaleRetired <==> owned && current != epoch
                &&& outcome == CommitOutcome::Committed ==> final(lane).ready_frames()
                    == lane.ready_frames().push(stored)
                &&& outcome == CommitOutcome::StaleRetired ==> final(lane).ready_frames()
                    == lane.ready_frames() && final(lane).slots@[index as int].state is Free
                &&& outcome == CommitOutcome::Rejected ==> *final(lane) == *lane
            },
{
}

/// What is stored in a slot is what the slot holds from its first byte on.
pub proof fn law_stored_bytes_are_kept<const N: usize>(index: usize, bytes: &[u8])
    ensures
        forall|lane: &mut Lane<N>| #[trigger]
            call_ensures(Lane::<N>::store, (lane, index, bytes), ()) ==> final(lane).frames@[index as int].bytes@.subrange(0, bytes@.len() as int) == bytes@ && final(lane).slots == lane.slots && final(lane).ready_frames() == lane.ready_frames(),
{
}

/// A reserved slot was free, belongs to the epoch it is reserved for, and no slot is
/// refused while one is free; releasing it makes it free again.
pub proof fn law_slots_are_lent_once<const N: usize>(
    epoch: u32,
    reserved: Option<usize>,
    index: usize,
    released: bool,
)
    ensures
        forall|lane: &mut Lane<N>| #[trigger]
            call_ensures(Lane::<N>::reserve, (lane, epoch), reserved) ==> {
                &&& reserved matches Some(own) ==> own < N && lane.slots@[own as int].state is Free
                    && final(lane).slots@[own as int].state is InUse && final(lane).slots@[own as int].epoch == epoch && (forall|i: int|
                    0 <= i < own ==> !((#[trigger] lane.slots@[i]).state is Free))
                &&& reserved is None ==> lane.occupied >= N && *final(lane) == *lane
                &&& final(lane).ready_frames() == lane.ready_frames()
            },
        forall|lane: &mut Lane<N>| #[trigger]
            call_ensures(Lane::<N>::release, (lane, index, epoch), released) ==> {
                &&& released ==> index < N && lane.slots@[index as int].state is InUse
                    && lane.slots@[index as int].epoch == epoch && final(lane).slots@[index as int].state is Free
                &&& !released ==> *final(lane) == *lane
                &&& final(lane).ready_frames() == lane.ready_frames()
            },
{
}

/// Flushing drops every frame that waits and keeps every slot that is in use.
pub proof fn law_flushing_drops_waiting_frames<const N: usize>()
    ensures
        forall|lane: &mut Lane<N>| #[trigger]
            call_ensures(Lane::<N>::flush, (lane,), ()) ==> final(lane).ready_frames().len() == 0
                && (forall|i: int|
                0 <= i < N ==> {
                    &&& (#[trigger] lane.slots@[i]).state is Ready ==> final(lane).slots@[i].state
                        is Free
                    &&& !(lane.slots@[i].state is Ready) ==> final(lane).slots@[i] == lane.slots@[i]
                }),
{
}

} // verus!
