//! A FIFO list of blocks.
//!
//! The blocks form a chain in the order of their positions. The producers
//! write at `tail_position` and append blocks at the end of the chain. The
//! consumer reads at `index`, moves `head` along the chain, and detaches the
//! blocks it has drained from the front of the chain, to offer them back as
//! new capacity at the end.

use crate::sync::mpsc::block::{bit_set, Block, Read, BLOCK_CAP};
use vstd::prelude::*;

verus! {

/// The last position a message can be written at.
pub const MAX_POSITION: usize = usize::MAX / 2 - 256;

/// How many blocks behind the producers' block a reclaimed block is offered
/// to before it is freed instead.
pub const RECLAIM_TRIES: usize = 3;

/// The producers' half of the list. It owns the chain of blocks.
pub struct Tx<T> {
    /// The chain. Its first block is the oldest block pending reclamation.
    blocks: Vec<Block<T>>,
    /// The place in the chain of the block the producers write to.
    block_tail: usize,
    /// The position to push the next message at.
    tail_position: usize,
}

/// The consumer's half of the list.
pub struct Rx {
    /// The place in the chain of the block being read.
    head: usize,
    /// The position of the next message to read.
    index: usize,
}

impl Rx {
    /// The position of the next message to read.
    pub closed spec fn spec_index(&self) -> int {
        self.index as int
    }

    /// The position of the next message to read: the number of messages
    /// popped so far.
    pub fn index(&self) -> (n: usize)
        ensures
            n == self.spec_index(),
    {
        self.index
    }

    /// Whether the head is the block that holds the slot for `index`.
    pub closed spec fn head_holds_index<T>(&self, tx: &Tx<T>) -> bool {
        tx.base() + 32 * self.head <= self.index < tx.base() + 32 * self.head + 32
    }
}

/// What the invariant of the list asks of one block of the chain: it starts
/// at `start`; a slot is marked ready exactly when its position is below the
/// tail position, and holds a value exactly when its position has been
/// pushed and not popped; it carries the tail position behind its last slot
/// exactly if the producers have moved past it; and it does not carry the
/// closed flag unless it is the producers' block.
pub closed spec fn block_ok<T>(
    b: Block<T>,
    start: int,
    index: int,
    tail: int,
    released: bool,
    is_tail: bool,
) -> bool {
    &&& b.wf()
    &&& b.spec_start_index() == start
    &&& forall|i: int|
        0 <= i < 32 ==> (#[trigger] b.slots()[i] is Some) == (index <= start + i < tail)
    &&& forall|i: usize| i < 32 ==> #[trigger] bit_set(b.bits(), i) == (start + i < tail)
    &&& b.spec_observed_tail_position() == (if released {
        Some((start + 32) as usize)
    } else {
        None
    })
    &&& !is_tail ==> !bit_set(b.bits(), 33)
}

/// Creates the two halves of an empty list. They share one initial block.
pub fn channel<T>() -> (res: (Tx<T>, Rx))
    ensures
        res.0.wf(&res.1),
        res.0.queue(&res.1) == Seq::<T>::empty(),
        !res.0.is_closed(),
        res.0.spec_tail_position() == 0,
        res.0.spare_blocks() == 0,
        res.0.base() == 0,
        res.1.spec_index() == 0,
        res.1.head_holds_index(&res.0),
        !res.0.front_reclaimable(&res.1),
{
    // Create the initial block shared between the tx and rx halves.
    let initial_block = Block::new(0);
    let mut blocks: Vec<Block<T>> = Vec::new();
    blocks.push(initial_block);
    let tx = Tx { blocks, block_tail: 0, tail_position: 0 };
    let rx = Rx { head: 0, index: 0 };
    proof {
        assert(tx.queue(&rx) =~= Seq::<T>::empty());
    }
    (tx, rx)
}

impl<T> Tx<T> {
    /// The position the next message is pushed at: the number of messages
    /// pushed so far.
    pub closed spec fn spec_tail_position(&self) -> int {
        self.tail_position as int
    }

    /// The number of blank blocks linked behind the producers' block.
    pub closed spec fn spare_blocks(&self) -> int {
        self.blocks@.len() - 1 - self.block_tail
    }

    /// Whether the send half has been closed.
    pub closed spec fn is_closed(&self) -> bool {
        self.blocks@[self.block_tail as int].is_tx_closed()
    }

    /// The position of the first slot of the chain.
    pub closed spec fn base(&self) -> int {
        self.blocks@[0].spec_start_index() as int
    }

    /// Whether the chain has a block that holds the slot for position
    /// `index`.
    pub closed spec fn covers(&self, index: int) -> bool {
        self.base() <= index < self.base() + 32 * self.blocks@.len()
    }

    /// Whether the first block of the chain can be detached: it lies before
    /// the consumer's head, the producers have moved past it, and the tail
    /// position they observed on the way is not beyond the consumer's
    /// position.
    pub closed spec fn front_reclaimable(&self, rx: &Rx) -> bool {
        rx.head != 0 && match self.blocks@[0].spec_observed_tail_position() {
            Some(observed) => observed <= rx.index,
            None => false,
        }
    }

    /// The slot for position `g`.
    pub closed spec fn slot_at(&self, g: int) -> Option<T> {
        self.blocks@[(g - self.base()) / 32].slots()[(g - self.base()) % 32]
    }

    /// The messages pushed and not yet popped, oldest first.
    pub closed spec fn queue(&self, rx: &Rx) -> Seq<T> {
        Seq::new(
            (self.tail_position - rx.index) as nat,
            |k: int| self.slot_at(rx.index + k)->Some_0,
        )
    }

    /// Whether the block at place `p` of the chain is as the invariant wants
    /// it.
    pub closed spec fn block_ok_at(&self, rx: &Rx, p: int) -> bool {
        block_ok(
            self.blocks@[p],
            self.base() + 32 * p,
            rx.index as int,
            self.tail_position as int,
            p < self.block_tail,
            p == self.block_tail,
        )
    }

    /// The invariant of the list. (The positions are counted in blocks of 32
    /// slots, which is `BLOCK_CAP`.)
    ///
    /// The blocks of the chain cover consecutive positions. A slot is marked
    /// ready exactly when its position is below the tail position, and holds
    /// a value exactly when its position has been pushed and not popped. The
    /// blocks that the producers have moved past carry the tail position
    /// observed on the way, which is the position behind their last slot.
    /// Only the producers' block can carry the closed flag.
    pub closed spec fn wf(&self, rx: &Rx) -> bool {
        let len = self.blocks@.len() as int;
        let base = self.base();
        &&& len >= 1
        &&& (rx.head as int) < len
        &&& (self.block_tail as int) < len
        &&& len - 1 - self.block_tail <= RECLAIM_TRIES
        &&& self.tail_position <= MAX_POSITION
        &&& base <= rx.index <= self.tail_position
        &&& base + 32 * rx.head <= rx.index <= base + 32 * rx.head + 32
        &&& base + 32 * self.block_tail <= self.tail_position <= base + 32 * self.block_tail
            + 32
        &&& forall|p: int| 0 <= p < len ==> #[trigger] self.block_ok_at(rx, p)
        &&& self.is_closed() ==> self.tail_position < base + 32 * self.block_tail + 32
    }

    /// The messages in flight are those pushed and not yet popped: the
    /// read position and the length of the queue add up to the tail
    /// position. The chain never has more than `RECLAIM_TRIES` spare blocks.
    pub proof fn lemma_positions(&self, rx: &Rx)
        requires
            self.wf(rx),
        ensures
            0 <= rx.spec_index(),
            rx.spec_index() + self.queue(rx).len() == self.spec_tail_position(),
            0 <= self.spare_blocks() <= RECLAIM_TRIES,
    {
    }

    /// The number of blank blocks linked behind the producers' block.
    pub fn spare_block_count(&self) -> (n: usize)
        ensures
            self.spare_blocks() >= 0 ==> n == self.spare_blocks(),
    {
        let len = self.blocks.len();
        if self.block_tail < len {
            len - 1 - self.block_tail
        } else {
            0
        }
    }

    /// The number of messages pushed so far.
    pub fn tail_position(&self) -> (n: usize)
        ensures
            n == self.spec_tail_position(),
    {
        self.tail_position
    }

    /// Makes the producers' block the one that holds the tail position:
    /// where the block is full, the producers move on to the next block of
    /// the chain, which is allocated if there is none.
    fn find_block(&mut self, Ghost(rx): Ghost<Rx>)
        requires
            old(self).wf(&rx),
            !old(self).is_closed(),
        ensures
            final(self).wf(&rx),
            !final(self).is_closed(),
            final(self).queue(&rx) == old(self).queue(&rx),
            final(self).spec_tail_position() == old(self).spec_tail_position(),
            final(self).tail_position < final(self).base() + 32 * final(self).block_tail + 32,
            final(self).base() == old(self).base(),
            final(self).blocks@.len() >= old(self).blocks@.len(),
    {
        let tail = self.block_tail;
        proof {
            assert(self.block_ok_at(&rx, tail as int));
        }
        if self.tail_position - self.blocks[tail].start_index() == BLOCK_CAP {
            let ghost before = self.blocks@;
            self.blocks[tail].tx_release(self.tail_position);
            if tail + 1 == self.blocks.len() {
                self.blocks.push(Block::new(self.tail_position));
            }
            self.block_tail = tail + 1;
            proof {
                let len = self.blocks@.len() as int;
                if tail + 1 < before.len() {
                    assert(old(self).block_ok_at(&rx, tail + 1));
                }
                assert forall|p: int| 0 <= p < len implies #[trigger] self.block_ok_at(&rx, p) by {
                    if p < before.len() {
                        assert(old(self).block_ok_at(&rx, p));
                    }
                }
                assert(self.queue(&rx) =~= old(self).queue(&rx)) by {
                    assert forall|g: int| rx.index <= g < self.tail_position implies #[trigger] self.slot_at(g) == old(self).slot_at(g) by {
                        let p = (g - self.base()) / 32;
                        assert(0 <= p < before.len());
                        assert(old(self).block_ok_at(&rx, p));
                    }
                }
            }
        }
    }

    /// Pushes a value at the tail position and marks its slot ready.
    pub fn push(&mut self, Ghost(rx): Ghost<Rx>, value: T)
        requires
            old(self).wf(&rx),
            !old(self).is_closed(),
            old(self).spec_tail_position() < MAX_POSITION,
        ensures
            final(self).wf(&rx),
            !final(self).is_closed(),
            final(self).queue(&rx) == old(self).queue(&rx).push(value),
            final(self).spec_tail_position() == old(self).spec_tail_position() + 1,
    {
        self.find_block(Ghost(rx));
        let ghost mid = *self;
        let tail = self.block_tail;
        proof {
            assert(self.block_ok_at(&rx, tail as int));
        }
        let offset = self.tail_position - self.blocks[tail].start_index();
        self.blocks[tail].write(offset, value);
        self.tail_position = self.tail_position + 1;
        proof {
            let len = self.blocks@.len() as int;
            let base = self.base();
            assert(mid.block_ok_at(&rx, tail as int));
            assert(base == mid.base());
            assert forall|p: int| 0 <= p < len implies #[trigger] self.block_ok_at(&rx, p) by {
                assert(mid.block_ok_at(&rx, p));
            }
            assert(!bit_set(mid.blocks@[tail as int].bits(), 33));
            assert(self.queue(&rx) =~= old(self).queue(&rx).push(value)) by {
                assert forall|g: int| rx.index <= g < mid.tail_position implies #[trigger] self.slot_at(g) == mid.slot_at(g) by {
                    let p = (g - base) / 32;
                    assert(0 <= p < len);
                }
                assert(self.slot_at(mid.tail_position as int) == Some(value));
            }
        }
    }

    /// Closes the send half of the list.
    ///
    /// Similar to pushing a value, but instead of writing a value and marking
    /// the slot ready, the closed flag is set on the block that holds the
    /// tail position.
    pub fn close(&mut self, Ghost(rx): Ghost<Rx>)
        requires
            old(self).wf(&rx),
        ensures
            final(self).wf(&rx),
            final(self).is_closed(),
            final(self).queue(&rx) == old(self).queue(&rx),
            final(self).spec_tail_position() == old(self).spec_tail_position(),
    {
        if self.is_tx_closed() {
            return ;
        }
        self.find_block(Ghost(rx));
        let ghost mid = *self;
        let tail = self.block_tail;
        self.blocks[tail].tx_close();
        proof {
            let len = self.blocks@.len() as int;
            let base = self.base();
            assert(mid.block_ok_at(&rx, tail as int));
            assert forall|p: int| 0 <= p < len implies #[trigger] self.block_ok_at(&rx, p) by {
                assert(mid.block_ok_at(&rx, p));
            }
            assert(self.queue(&rx) =~= mid.queue(&rx)) by {
                assert forall|g: int| rx.index <= g < mid.tail_position implies #[trigger] self.slot_at(g) == mid.slot_at(g) by {
                    let p = (g - base) / 32;
                    assert(0 <= p < len);
                }
            }
        }
    }

    /// Returns `true` if the send half has been closed.
    fn is_tx_closed(&self) -> (b: bool)
        requires
            (self.block_tail as int) < self.blocks@.len(),
        ensures
            b == self.is_closed(),
    {
        self.blocks[self.block_tail].tx_closed()
    }

    /// Links `block` behind the block at place `curr` of the chain, if that
    /// block is the last one. Otherwise the block is handed back.
    fn try_push(&mut self, Ghost(rx): Ghost<Rx>, curr: usize, block: Block<T>) -> (res: Result<
        (),
        Block<T>,
    >)
        requires
            old(self).wf(&rx),
            block.is_blank(),
            block.spec_observed_tail_position() is None,
            old(self).block_tail <= curr < old(self).blocks@.len(),
            curr < old(self).block_tail + RECLAIM_TRIES,
        ensures
            final(self).wf(&rx),
            final(self).queue(&rx) == old(self).queue(&rx),
            final(self).is_closed() == old(self).is_closed(),
            final(self).tail_position == old(self).tail_position,
            final(self).block_tail == old(self).block_tail,
            final(self).base() == old(self).base(),
            res is Ok <==> curr + 1 == old(self).blocks@.len(),
            res is Ok ==> final(self).blocks@.len() == old(self).blocks@.len() + 1,
            res is Err ==> final(self).blocks@ == old(self).blocks@ && res->Err_0 == block,
    {
        if curr + 1 != self.blocks.len() {
            return Err(block);
        }
        let mut block = block;
        let ghost before = *self;
        proof {
            assert(self.block_ok_at(&rx, curr as int));
        }
        block.set_start_after(self.blocks[curr].start_index());
        self.blocks.push(block);
        proof {
            let len = self.blocks@.len() as int;
            let base = self.base();
            assert(base == before.base());
            assert forall|p: int| 0 <= p < len implies #[trigger] self.block_ok_at(&rx, p) by {
                if p < len - 1 {
                    assert(before.block_ok_at(&rx, p));
                }
            }
            assert(self.blocks@[self.block_tail as int] == before.blocks@[self.block_tail as int]);
            assert(self.queue(&rx) =~= before.queue(&rx)) by {
                assert forall|g: int| rx.index <= g < self.tail_position implies #[trigger] self.slot_at(
                    g,
                ) == before.slot_at(g) by {
                    let p = (g - base) / 32;
                    assert(0 <= p < len - 1);
                }
            }
        }
        Ok(())
    }

    /// Takes back a block that the consumer has drained and detached.
    ///
    /// The block is reset and offered as new capacity at the end of the
    /// chain: to the producers' block, and then to the blocks behind it, at
    /// most `RECLAIM_TRIES` blocks in all. If none of them is the last block
    /// of the chain, the block is freed. Returns `true` if the block was
    /// linked.
    pub fn reclaim_block(&mut self, Ghost(rx): Ghost<Rx>, block: Block<T>) -> (reused: bool)
        requires
            old(self).wf(&rx),
            block.wf(),
            forall|i: int| 0 <= i < BLOCK_CAP ==> #[trigger] block.slots()[i] is None,
        ensures
            final(self).wf(&rx),
            final(self).queue(&rx) == old(self).queue(&rx),
            final(self).is_closed() == old(self).is_closed(),
            final(self).spec_tail_position() == old(self).spec_tail_position(),
            final(self).base() == old(self).base(),
            reused == (old(self).spare_blocks() < RECLAIM_TRIES),
            final(self).spare_blocks() == old(self).spare_blocks() + if reused {
                1int
            } else {
                0int
            },
    {
        // The block has been removed from the chain and ownership is
        // reclaimed. Before dropping the block, see if it can be reused by
        // linking it at the end of the chain. First, reset the data.
        let mut block = block;
        block.reclaim();

        // Walk at most three blocks
        let mut curr = self.block_tail;
        let mut tries: usize = 0;
        while tries < RECLAIM_TRIES
            invariant
                self.wf(&rx),
                self.queue(&rx) == old(self).queue(&rx),
                self.is_closed() == old(self).is_closed(),
                self.tail_position == old(self).tail_position,
                self.block_tail == old(self).block_tail,
                self.blocks@ == old(self).blocks@,
                block.is_blank(),
                block.spec_observed_tail_position() is None,
                tries <= RECLAIM_TRIES,
                curr == self.block_tail + tries,
                curr < self.blocks@.len(),
            decreases RECLAIM_TRIES - tries,
        {
            match self.try_push(Ghost(rx), curr, block) {
                Ok(()) => {
                    return true;
                },
                Err(back) => {
                    block = back;
                    curr = curr + 1;
                },
            }
            tries = tries + 1;
        }
        false
    }
}

impl Rx {
    /// Tries advancing the head to the block that holds the position
    /// `index`.
    ///
    /// Returns `true` if the head is at that block, `false` if the chain has
    /// no such block yet. That is a normal state of an empty list whose last
    /// block is full, and no error.
    pub fn try_advancing_head<T>(&mut self, tx: &Tx<T>) -> (at_index: bool)
        requires
            tx.wf(&*old(self)),
        ensures
            tx.wf(&*final(self)),
            final(self).spec_index() == old(self).spec_index(),
            tx.queue(&*final(self)) == tx.queue(&*old(self)),
            at_index == tx.covers(old(self).spec_index()),
            at_index ==> final(self).head_holds_index(tx),
            old(self).head_holds_index(tx) ==> *final(self) == *old(self),
            !at_index ==> tx.queue(&*old(self)).len() == 0 && !tx.is_closed() && *final(self)
                == *old(self),
    {
        loop
            invariant
                tx.wf(&*self),
                self.index == old(self).index,
                self.head >= old(self).head,
                self.head > old(self).head ==> tx.covers(self.index as int),
                tx.queue(&*self) == tx.queue(&*old(self)),
            decreases tx.blocks@.len() - self.head,
        {
            proof {
                assert(tx.block_ok_at(&*self, self.head as int));
            }
            if tx.blocks[self.head].is_at_index(self.index) {
                return true;
            }
            if self.head + 1 < tx.blocks.len() {
                let ghost at = *self;
                self.head = self.head + 1;
                proof {
                    assert forall|p: int| 0 <= p < tx.blocks@.len() implies #[trigger] tx.block_ok_at(
                        &*self,
                        p,
                    ) by {
                        assert(tx.block_ok_at(&at, p));
                    }
                }
            } else {
                return false;
            }
        }
    }

    /// Detaches the blocks that the consumer has drained from the front of
    /// the chain and offers them back to the producers.
    ///
    /// A block is detached if the producers have moved past it and the tail
    /// position they observed on the way is not beyond the consumer's
    /// position. The walk stops at the first block that is not, and at the
    /// head. Each detached block is reset and offered to the producers as a
    /// spare block at the end of the chain; it is freed only when the chain
    /// has `RECLAIM_TRIES` spare blocks already.
    pub fn reclaim_blocks<T>(&mut self, tx: &mut Tx<T>)
        requires
            old(tx).wf(&*old(self)),
        ensures
            final(tx).wf(&*final(self)),
            final(self).spec_index() == old(self).spec_index(),
            final(tx).queue(&*final(self)) == old(tx).queue(&*old(self)),
            final(tx).is_closed() == old(tx).is_closed(),
            final(tx).spec_tail_position() == old(tx).spec_tail_position(),
            old(self).head_holds_index(old(tx)) ==> final(self).head_holds_index(final(tx)),
            !final(tx).front_reclaimable(&*final(self)),
            old(tx).base() <= final(tx).base() <= final(self).spec_index(),
            !old(tx).front_reclaimable(&*old(self)) ==> final(tx).base() == old(tx).base(),
            old(tx).front_reclaimable(&*old(self)) ==> final(tx).base() > old(tx).base(),
            (final(tx).base() - old(tx).base()) % 32 == 0,
            final(tx).spare_blocks() == (if old(tx).spare_blocks() + (final(tx).base() - old(tx).base()) / 32 <= RECLAIM_TRIES {
                old(tx).spare_blocks() + (final(tx).base() - old(tx).base()) / 32
            } else {
                RECLAIM_TRIES as int
            }),
    {
        while self.head != 0
            invariant
                tx.wf(&*self),
                self.index == old(self).index,
                tx.queue(&*self) == old(tx).queue(&*old(self)),
                tx.is_closed() == old(tx).is_closed(),
                tx.tail_position == old(tx).tail_position,
                tx.base() + 32 * self.head == old(tx).base() + 32 * old(self).head,
                old(tx).base() <= tx.base(),
                tx.base() == old(tx).base() ==> *tx == *old(tx) && *self == *old(self),
                !old(tx).front_reclaimable(&*old(self)) ==> tx.base() == old(tx).base(),
                0 <= old(tx).spare_blocks() <= RECLAIM_TRIES,
                (tx.base() - old(tx).base()) % 32 == 0,
                tx.spare_blocks() == (if old(tx).spare_blocks() + (tx.base() - old(tx).base())
                    / 32 <= RECLAIM_TRIES {
                    old(tx).spare_blocks() + (tx.base() - old(tx).base()) / 32
                } else {
                    RECLAIM_TRIES as int
                }),
            decreases self.head,
        {
            // Look at the block that would be freed.
            let observed_tail_position = tx.blocks[0].observed_tail_position();

            let required_index = match observed_tail_position {
                Some(i) => i,
                None => return ,
            };

            if required_index > self.index {
                return ;
            }
            let ghost before = *tx;
            let ghost rx_before = *self;
            proof {
                assert(before.block_ok_at(&rx_before, 0));
                assert(before.blocks@[0].spec_observed_tail_position() is Some);
                assert(before.block_tail >= 1);
                assert forall|i: int| 0 <= i < BLOCK_CAP implies #[trigger] before.blocks@[0].slots()[i] is None by {
                    assert((before.blocks@[0].slots()[i] is Some) == (rx_before.index
                        <= before.base() + 32 * 0 + i < before.tail_position));
                }
            }

            // Detach the block: the next block becomes the first of the
            // chain.
            let block = tx.blocks.remove(0);
            tx.block_tail = tx.block_tail - 1;
            self.head = self.head - 1;

            proof {
                let len = tx.blocks@.len() as int;
                let base = tx.base();
                assert(before.block_ok_at(&rx_before, 1));
                assert(base == before.base() + 32);
                assert forall|p: int| 0 <= p < len implies #[trigger] tx.block_ok_at(&*self, p) by {
                    assert(before.block_ok_at(&rx_before, p + 1));
                }
                assert(tx.blocks@[tx.block_tail as int] == before.blocks@[before.block_tail as int]);
                assert(tx.queue(&*self) =~= before.queue(&rx_before)) by {
                    assert forall|g: int| self.index <= g < tx.tail_position implies #[trigger] tx.slot_at(
                        g,
                    ) == before.slot_at(g) by {
                        let p = (g - base) / 32;
                        assert(0 <= p < len);
                        assert((g - before.base()) / 32 == p + 1);
                        assert((g - before.base()) % 32 == (g - base) % 32);
                    }
                }
            }

            // Push the emptied block onto the back of the chain, making it
            // available to the producers.
            let _ = tx.reclaim_block(Ghost(*self), block);
        }
    }

    /// Pops the next value off the queue.
    ///
    /// Returns the oldest message if there is one, `Closed` if there is none
    /// and the send half has been closed, and `None` if there is none yet.
    pub fn pop<T>(&mut self, tx: &mut Tx<T>) -> (res: Option<Read<T>>)
        requires
            old(tx).wf(&*old(self)),
        ensures
            final(tx).wf(&*final(self)),
            final(tx).is_closed() == old(tx).is_closed(),
            final(tx).spec_tail_position() == old(tx).spec_tail_position(),
            old(tx).queue(&*old(self)).len() > 0 ==> res == Some(
                Read::Value(old(tx).queue(&*old(self))[0]),
            ) && final(tx).queue(&*final(self)) == old(tx).queue(&*old(self)).drop_first(),
            old(tx).queue(&*old(self)).len() == 0 ==> final(tx).queue(&*final(self)).len() == 0
                && res == (if old(tx).is_closed() {
                Some(Read::<T>::Closed)
            } else {
                None
            }),
            final(self).spec_index() == old(self).spec_index() + (if old(tx).queue(
                &*old(self),
            ).len() > 0 {
                1int
            } else {
                0int
            }),
            old(tx).base() <= final(tx).base(),
            old(tx).front_reclaimable(&*old(self)) && old(tx).covers(old(self).spec_index())
                ==> final(tx).base() > old(tx).base(),
            !old(tx).covers(old(self).spec_index()) ==> final(tx).base() == old(tx).base(),
            !old(tx).front_reclaimable(&*old(self)) && old(self).head_holds_index(old(tx))
                ==> final(tx).base() == old(tx).base() && final(tx).spare_blocks() == old(tx).spare_blocks(),
    {
        // Advance `head`, if needed
        if !self.try_advancing_head(tx) {
            return None;
        }
        self.reclaim_blocks(tx);

        let ghost before = *tx;
        let ghost rx_before = *self;
        let head = self.head;
        proof {
            assert(before.block_ok_at(&rx_before, head as int));
            let slot = (self.index - before.base() - 32 * head) as int;
            assert((before.blocks@[head as int].slots()[slot] is Some) == (self.index
                <= before.base() + 32 * head + slot < before.tail_position));
            let su = slot as usize;
            assert(bit_set(before.blocks@[head as int].bits(), su) == (before.base() + 32 * head
                + su < before.tail_position));
        }
        let slot = self.index - tx.blocks[head].start_index();
        let ret = tx.blocks[head].read(slot);

        if let Some(Read::Value(..)) = ret {
            self.index = self.index + 1;
        }
        proof {
            let len = tx.blocks@.len() as int;
            let base = tx.base();
            assert(base == before.base());
            assert forall|p: int| 0 <= p < len implies #[trigger] tx.block_ok_at(&*self, p) by {
                assert(before.block_ok_at(&rx_before, p));
            }
            if rx_before.index < before.tail_position {
                assert(before.slot_at(rx_before.index as int) == before.blocks@[head as int].slots()[slot as int]);
                assert(tx.queue(&*self) =~= before.queue(&rx_before).drop_first()) by {
                    assert forall|g: int| self.index <= g < tx.tail_position implies #[trigger] tx.slot_at(
                        g,
                    ) == before.slot_at(g) by {
                        let p = (g - base) / 32;
                        assert(0 <= p < len);
                    }
                }
            } else {
                if before.is_closed() {
                    assert(head == before.block_tail);
                }
            }
        }
        ret
    }
}

} // verus!
