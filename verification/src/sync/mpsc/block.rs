//! A block of message slots.

use vstd::prelude::*;

verus! {

/// The number of slots in a block.
pub const BLOCK_CAP: usize = 32;

/// Flag of the readiness word: the producers have moved past the block.
pub const RELEASED: u64 = 0x1_0000_0000;

/// Flag of the readiness word: the send half was closed at this block.
pub const TX_CLOSED: u64 = 0x2_0000_0000;

/// The result of reading a slot that holds no pending value but is past the
/// end of the stream, or that holds a value.
#[derive(Debug, PartialEq, Eq)]
pub enum Read<T> {
    /// The value that was in the slot.
    Value(T),
    /// The send half is closed and the slot will never be written.
    Closed,
}

/// Whether bit `slot` of a readiness word is set.
pub open spec fn bit_set(bits: u64, slot: usize) -> bool {
    bits & (1u64 << (slot as u64)) != 0
}

proof fn lemma_bits_after_set(bits: u64, slot: u64, other: u64)
    by (bit_vector)
    requires
        slot < 32,
        other < 34,
    ensures
        ((bits | (1u64 << slot)) & (1u64 << other) != 0) == ((bits & (1u64 << other) != 0)
            || other == slot),
{
}

proof fn lemma_bits_after_flag(bits: u64, flag: u64, other: u64)
    by (bit_vector)
    requires
        flag == 32 || flag == 33,
        other < 34,
    ensures
        ((bits | (1u64 << flag)) & (1u64 << other) != 0) == ((bits & (1u64 << other) != 0)
            || other == flag),
        1u64 << 32 == 0x1_0000_0000,
        1u64 << 33 == 0x2_0000_0000,
{
}

proof fn lemma_bits_of_zero(other: u64)
    by (bit_vector)
    requires
        other < 34,
    ensures
        0u64 & (1u64 << other) == 0,
{
}

/// A block in the chain: `BLOCK_CAP` slots for the messages with positions
/// `start_index .. start_index + BLOCK_CAP`.
pub struct Block<T> {
    /// The position in the channel of the first slot of the block.
    start_index: usize,
    /// The slots. A slot holds a value from when it is written until it is
    /// read.
    slots: Vec<Option<T>>,
    /// Bitfield: one bit per slot that has been written, and the flags
    /// `RELEASED` and `TX_CLOSED`.
    ready_slots: u64,
    /// The tail position observed when the producers moved past the block.
    observed_tail_position: usize,
}

impl<T> Block<T> {
    /// The position of the first slot.
    pub closed spec fn spec_start_index(&self) -> usize {
        self.start_index
    }

    /// The slots as they stand.
    pub closed spec fn slots(&self) -> Seq<Option<T>> {
        self.slots@
    }

    /// The readiness word.
    pub closed spec fn bits(&self) -> u64 {
        self.ready_slots
    }

    /// Whether slot `slot` has been written since the block was last blank.
    pub open spec fn is_ready(&self, slot: usize) -> bool {
        bit_set(self.bits(), slot)
    }

    /// Whether the producers have moved past the block.
    pub open spec fn is_released(&self) -> bool {
        bit_set(self.bits(), 32)
    }

    /// Whether the send half was closed at this block.
    pub open spec fn is_tx_closed(&self) -> bool {
        bit_set(self.bits(), 33)
    }

    /// The tail position recorded at release, if the block was released.
    pub closed spec fn spec_observed_tail_position(&self) -> Option<usize> {
        if bit_set(self.ready_slots, 32) {
            Some(self.observed_tail_position)
        } else {
            None
        }
    }

    /// A block has `BLOCK_CAP` slots.
    pub open spec fn wf(&self) -> bool {
        self.slots().len() == BLOCK_CAP
    }

    /// A block that has not been written: no slot ready, no flag set, no
    /// slot holding a value.
    pub open spec fn is_blank(&self) -> bool {
        &&& self.wf()
        &&& forall|i: usize| i < 34 ==> !#[trigger] bit_set(self.bits(), i)
        &&& forall|i: int| 0 <= i < BLOCK_CAP ==> #[trigger] self.slots()[i] is None
    }

    /// A blank block whose first slot has position `start_index`.
    pub fn new(start_index: usize) -> (b: Block<T>)
        ensures
            b.is_blank(),
            b.spec_start_index() == start_index,
            b.spec_observed_tail_position() is None,
    {
        let mut slots: Vec<Option<T>> = Vec::new();
        while slots.len() < BLOCK_CAP
            invariant
                slots.len() <= BLOCK_CAP,
                forall|i: int| 0 <= i < slots.len() ==> #[trigger] slots@[i] is None,
            decreases BLOCK_CAP - slots.len(),
        {
            slots.push(None);
        }
        proof {
            assert forall|i: usize| i < 34 implies !#[trigger] bit_set(0u64, i) by {
                lemma_bits_of_zero(i as u64);
            }
        }
        Block { start_index, slots, ready_slots: 0, observed_tail_position: 0 }
    }

    /// The position of the first slot.
    pub fn start_index(&self) -> (i: usize)
        ensures
            i == self.spec_start_index(),
    {
        self.start_index
    }

    /// Returns `true` if the block holds the slot for position `index`.
    pub fn is_at_index(&self, index: usize) -> (b: bool)
        ensures
            b == (self.spec_start_index() <= index && index - self.spec_start_index()
                < BLOCK_CAP),
    {
        index >= self.start_index && index - self.start_index < BLOCK_CAP
    }

    /// Writes `value` into slot `slot` and marks the slot ready.
    pub fn write(&mut self, slot: usize, value: T)
        requires
            old(self).wf(),
            slot < BLOCK_CAP,
        ensures
            final(self).wf(),
            final(self).spec_start_index() == old(self).spec_start_index(),
            final(self).spec_observed_tail_position() == old(self).spec_observed_tail_position(),
            final(self).slots() == old(self).slots().update(slot as int, Some(value)),
            forall|i: usize|
                i < 34 ==> (#[trigger] bit_set(final(self).bits(), i) == (bit_set(
                    old(self).bits(),
                    i,
                ) || i == slot)),
    {
        proof {
            assert forall|i: usize| i < 34 implies (#[trigger] bit_set(
                self.ready_slots | (1u64 << (slot as u64)),
                i,
            ) == (bit_set(self.ready_slots, i) || i == slot)) by {
                lemma_bits_after_set(self.ready_slots, slot as u64, i as u64);
            }
        }
        self.slots[slot] = Some(value);
        self.ready_slots = self.ready_slots | (1u64 << (slot as u64));
    }

    /// Reads the value at the given slot.
    ///
    /// Returns the value if the slot is ready and takes it out of the slot.
    /// Returns `Closed` if the slot is not ready and the send half was closed
    /// at this block, and `None` if the slot is not ready yet.
    pub fn read(&mut self, slot: usize) -> (res: Option<Read<T>>)
        requires
            old(self).wf(),
            slot < BLOCK_CAP,
            old(self).is_ready(slot) ==> old(self).slots()[slot as int] is Some,
        ensures
            final(self).wf(),
            final(self).spec_start_index() == old(self).spec_start_index(),
            final(self).bits() == old(self).bits(),
            final(self).spec_observed_tail_position() == old(self).spec_observed_tail_position(),
            old(self).is_ready(slot) ==> res == Some(
                Read::Value(old(self).slots()[slot as int]->Some_0),
            ) && final(self).slots() == old(self).slots().update(slot as int, None),
            !old(self).is_ready(slot) ==> final(self).slots() == old(self).slots() && res == (
            if old(self).is_tx_closed() {
                Some(Read::<T>::Closed)
            } else {
                None
            }),
    {
        if self.ready_slots & (1u64 << (slot as u64)) == 0 {
            proof {
                lemma_bits_after_flag(0, 33, 33);
            }
            if self.ready_slots & TX_CLOSED != 0 {
                return Some(Read::Closed);
            }
            return None;
        }
        let value = self.slots[slot].take();
        match value {
            Some(v) => Some(Read::Value(v)),
            None => None,
        }
    }

    /// Resets the block to a blank state, so that it can be used again.
    pub fn reclaim(&mut self)
        requires
            old(self).wf(),
            forall|i: int| 0 <= i < BLOCK_CAP ==> #[trigger] old(self).slots()[i] is None,
        ensures
            final(self).is_blank(),
            final(self).spec_observed_tail_position() is None,
    {
        proof {
            assert forall|i: usize| i < 34 implies !#[trigger] bit_set(0u64, i) by {
                lemma_bits_of_zero(i as u64);
            }
        }
        self.start_index = 0;
        self.ready_slots = 0;
        self.observed_tail_position = 0;
    }

    /// Records that the producers have moved past the block, with the tail
    /// position at that moment.
    pub fn tx_release(&mut self, tail_position: usize)
        ensures
            final(self).spec_start_index() == old(self).spec_start_index(),
            final(self).slots() == old(self).slots(),
            final(self).spec_observed_tail_position() == Some(tail_position),
            forall|i: usize|
                i < 34 ==> (#[trigger] bit_set(final(self).bits(), i) == (bit_set(
                    old(self).bits(),
                    i,
                ) || i == 32)),
    {
        proof {
            assert forall|i: usize| i < 34 implies (#[trigger] bit_set(
                self.ready_slots | 0x1_0000_0000u64,
                i,
            ) == (bit_set(self.ready_slots, i) || i == 32)) by {
                lemma_bits_after_flag(self.ready_slots, 32, i as u64);
            }
        }
        self.observed_tail_position = tail_position;
        self.ready_slots = self.ready_slots | RELEASED;
    }

    /// Marks the block as the one at which the send half was closed.
    pub fn tx_close(&mut self)
        ensures
            final(self).spec_start_index() == old(self).spec_start_index(),
            final(self).slots() == old(self).slots(),
            final(self).spec_observed_tail_position() == old(self).spec_observed_tail_position(),
            forall|i: usize|
                i < 34 ==> (#[trigger] bit_set(final(self).bits(), i) == (bit_set(
                    old(self).bits(),
                    i,
                ) || i == 33)),
    {
        proof {
            assert forall|i: usize| i < 34 implies (#[trigger] bit_set(
                self.ready_slots | 0x2_0000_0000u64,
                i,
            ) == (bit_set(self.ready_slots, i) || i == 33)) by {
                lemma_bits_after_flag(self.ready_slots, 33, i as u64);
            }
        }
        self.ready_slots = self.ready_slots | TX_CLOSED;
    }

    /// Returns `true` if the send half was closed at this block.
    pub fn tx_closed(&self) -> (b: bool)
        ensures
            b == self.is_tx_closed(),
    {
        proof {
            lemma_bits_after_flag(0, 33, 33);
        }
        self.ready_slots & TX_CLOSED != 0
    }

    /// Returns the tail position observed at release, if the block was
    /// released.
    pub fn observed_tail_position(&self) -> (res: Option<usize>)
        ensures
            res == self.spec_observed_tail_position(),
    {
        proof {
            lemma_bits_after_flag(0, 32, 32);
        }
        if self.ready_slots & RELEASED == 0 {
            None
        } else {
            Some(self.observed_tail_position)
        }
    }

    /// Gives the block the position that follows a block starting at
    /// `prev_start`, as it is linked behind that block.
    pub fn set_start_after(&mut self, prev_start: usize)
        requires
            prev_start <= usize::MAX - BLOCK_CAP,
        ensures
            final(self).spec_start_index() == prev_start + BLOCK_CAP,
            final(self).slots() == old(self).slots(),
            final(self).bits() == old(self).bits(),
            final(self).spec_observed_tail_position() == old(self).spec_observed_tail_position(),
    {
        self.start_index = prev_start + BLOCK_CAP;
    }
}

} // verus!
