use tokio2::future::{Context, Poll, Waker};
use tokio2::sync::mpsc::block::{Block, Read, BLOCK_CAP};
use tokio2::sync::mpsc::chan::{channel, Semaphore};
use tokio2::sync::mpsc::error::{ClosedError, SendError, TrySendError};
use tokio2::sync::mpsc::unbounded::unbounded_channel;
use tokio2::sync::task::AtomicWaker;

#[test]
fn block_slots_are_read_once_in_any_order() {
    let mut block: Block<&str> = Block::new(64);
    assert_eq!(block.start_index(), 64);
    assert!(block.is_at_index(64));
    assert!(block.is_at_index(64 + BLOCK_CAP - 1));
    assert!(!block.is_at_index(64 + BLOCK_CAP));
    assert!(!block.is_at_index(63));
    assert_eq!(block.read(0), None);
    block.write(3, "c");
    block.write(0, "a");
    assert_eq!(block.read(1), None);
    assert_eq!(block.read(3), Some(Read::Value("c")));
    assert_eq!(block.read(0), Some(Read::Value("a")));
}

#[test]
fn block_reports_closed_only_for_slots_not_written() {
    let mut block: Block<u8> = Block::new(0);
    block.write(0, 1);
    assert!(!block.tx_closed());
    block.tx_close();
    assert!(block.tx_closed());
    assert_eq!(block.read(0), Some(Read::Value(1)));
    assert_eq!(block.read(1), Some(Read::Closed));
}

#[test]
fn block_release_records_the_tail_position() {
    let mut block: Block<u8> = Block::new(0);
    assert_eq!(block.observed_tail_position(), None);
    block.tx_release(32);
    assert_eq!(block.observed_tail_position(), Some(32));
    block.reclaim();
    assert_eq!(block.observed_tail_position(), None);
    assert!(!block.tx_closed());
    assert_eq!(block.read(0), None);
    block.set_start_after(96);
    assert_eq!(block.start_index(), 128);
}

#[test]
fn semaphore_counts_messages_in_flight() {
    let mut sem = Semaphore::new();
    assert!(sem.is_idle());
    assert_eq!(sem.try_acquire(), Ok(()));
    assert_eq!(sem.try_acquire(), Ok(()));
    assert!(!sem.is_idle());
    sem.add_permit();
    sem.close();
    assert_eq!(sem.try_acquire(), Err(()));
    assert!(!sem.is_idle());
    sem.add_permit();
    assert!(sem.is_idle());
}

#[test]
fn atomic_waker_keeps_the_last_registration() {
    let mut w = AtomicWaker::new();
    assert_eq!(w.wake(), None);
    w.register_by_ref(&Waker::Task(1));
    w.register_by_ref(&Waker::Task(2));
    assert_eq!(w.wake(), Some(Waker::Task(2)));
    assert_eq!(w.wake(), None);
    assert_eq!(AtomicWaker::default().wake(), None);
}

#[test]
fn error_values_carry_what_was_not_sent() {
    assert_eq!(TrySendError::Full(3).into_inner(), 3);
    assert_eq!(TrySendError::Closed(4).into_inner(), 4);
    assert_eq!(SendError::from_try(TrySendError::Closed(5)), SendError(5));
    assert_eq!(ClosedError::new(), ClosedError::new());
}

#[test]
fn messages_come_out_in_the_order_of_the_sends() {
    let (tx, mut rx) = unbounded_channel::<u32>();
    let tx2 = tx.clone_sender(&mut rx);
    assert_eq!(rx.sender_count(), 2);
    let mut cx = Context::from_waker(Waker::Root);
    // two producers, interleaved
    for i in 0..100u32 {
        if i % 3 == 0 {
            assert_eq!(tx2.send(&mut rx, i), Ok(None));
        } else {
            assert_eq!(tx.send(&mut rx, i), Ok(None));
        }
    }
    for i in 0..100u32 {
        assert_eq!(rx.recv(&mut cx), Poll::Ready(Some(i)));
    }
    assert_eq!(rx.recv(&mut cx), Poll::Pending);
}

#[test]
fn blocks_are_reused_over_many_rounds() {
    let (tx, mut rx) = unbounded_channel::<usize>();
    let mut cx = Context::from_waker(Waker::Root);
    let mut next_in = 0usize;
    let mut next_out = 0usize;
    for round in 0..40usize {
        // the queue grows and shrinks by different amounts, so that the
        // consumer crosses block boundaries at changing distances from the
        // producers
        for _ in 0..(round * 7 % 150 + 1) {
            assert!(rx.has_room());
            assert!(tx.send(&mut rx, next_in).is_ok());
            next_in += 1;
        }
        for _ in 0..(round * 5 % 90 + 1) {
            if next_out < next_in {
                assert_eq!(rx.recv(&mut cx), Poll::Ready(Some(next_out)));
                next_out += 1;
            }
        }
    }
    while next_out < next_in {
        assert_eq!(rx.recv(&mut cx), Poll::Ready(Some(next_out)));
        next_out += 1;
    }
    assert_eq!(rx.recv(&mut cx), Poll::Pending);
    assert_eq!(tx.drop_sender(&mut rx), Some(Waker::Root));
    assert_eq!(rx.recv(&mut cx), Poll::Ready(None));
}

#[test]
fn exactly_one_block_of_messages() {
    let (tx, mut rx) = unbounded_channel::<usize>();
    let mut cx = Context::from_waker(Waker::Root);
    for i in 0..BLOCK_CAP {
        assert!(tx.send(&mut rx, i).is_ok());
    }
    for i in 0..BLOCK_CAP {
        assert_eq!(rx.recv(&mut cx), Poll::Ready(Some(i)));
    }
    // the only block is full and drained: no next block yet
    assert_eq!(rx.recv(&mut cx), Poll::Pending);
    assert!(tx.send(&mut rx, 99).is_ok());
    assert_eq!(rx.recv(&mut cx), Poll::Ready(Some(99)));
    // closing right at a block boundary
    for i in 0..(BLOCK_CAP - 1) {
        assert!(tx.send(&mut rx, i).is_ok());
    }
    assert_eq!(tx.drop_sender(&mut rx), None);
    for i in 0..(BLOCK_CAP - 1) {
        assert_eq!(rx.recv(&mut cx), Poll::Ready(Some(i)));
    }
    assert_eq!(rx.recv(&mut cx), Poll::Ready(None));
}

#[test]
fn dropping_all_senders_ends_the_stream_after_the_buffered_messages() {
    let (tx, mut rx) = unbounded_channel::<&str>();
    let tx2 = tx.clone_sender(&mut rx);
    let mut cx = Context::from_waker(Waker::Task(1));
    assert_eq!(tx.send(&mut rx, "a"), Ok(None));
    assert_eq!(tx2.send(&mut rx, "b"), Ok(None));
    assert_eq!(tx.drop_sender(&mut rx), None);
    assert_eq!(tx2.send(&mut rx, "c"), Ok(None));
    assert_eq!(tx2.drop_sender(&mut rx), None);
    assert_eq!(rx.sender_count(), 0);
    assert_eq!(rx.recv(&mut cx), Poll::Ready(Some("a")));
    assert_eq!(rx.recv(&mut cx), Poll::Ready(Some("b")));
    assert_eq!(rx.recv(&mut cx), Poll::Ready(Some("c")));
    assert_eq!(rx.recv(&mut cx), Poll::Ready(None));
    assert_eq!(rx.recv(&mut cx), Poll::Ready(None));
    assert_eq!(rx.recv(&mut cx), Poll::Ready(None));
}

#[test]
fn pending_receive_registers_the_waker_for_the_next_send() {
    let (tx, mut rx) = unbounded_channel::<u8>();
    let mut first = Context::from_waker(Waker::Task(1));
    let mut second = Context::from_waker(Waker::Task(2));
    assert_eq!(rx.recv(&mut first), Poll::Pending);
    assert_eq!(rx.recv(&mut second), Poll::Pending);
    // the handle registered last is the one to invoke, once
    assert_eq!(tx.send(&mut rx, 1), Ok(Some(Waker::Task(2))));
    assert_eq!(tx.send(&mut rx, 2), Ok(None));
    assert_eq!(rx.recv(&mut first), Poll::Ready(Some(1)));
    assert_eq!(rx.recv(&mut first), Poll::Ready(Some(2)));
    assert_eq!(rx.recv(&mut first), Poll::Pending);
    assert_eq!(tx.drop_sender(&mut rx), Some(Waker::Task(1)));
    assert_eq!(rx.recv(&mut first), Poll::Ready(None));
}

#[test]
fn closed_receiver_refuses_sends_and_drains() {
    let (tx, mut rx) = unbounded_channel::<u8>();
    let mut cx = Context::from_waker(Waker::Root);
    assert_eq!(tx.send(&mut rx, 1), Ok(None));
    rx.close();
    assert_eq!(tx.send(&mut rx, 2), Err(SendError(2)));
    assert_eq!(rx.recv(&mut cx), Poll::Ready(Some(1)));
    assert_eq!(rx.recv(&mut cx), Poll::Ready(None));
    assert_eq!(rx.recv(&mut cx), Poll::Ready(None));
}

#[test]
fn chan_try_send_hands_the_value_back_when_closed() {
    let mut chan = channel::<String>();
    assert_eq!(chan.senders(), 1);
    assert_eq!(chan.sent(), 0);
    assert_eq!(chan.try_send("x".to_string()), Ok(None));
    assert_eq!(chan.sent(), 1);
    chan.close();
    assert_eq!(chan.try_send("y".to_string()), Err(TrySendError::Closed("y".to_string())));
    assert_eq!(chan.sent(), 1);
    chan.clone_sender();
    assert_eq!(chan.drop_sender(), None);
    assert_eq!(chan.drop_sender(), None);
    let mut cx = Context::from_waker(Waker::Root);
    assert_eq!(chan.recv(&mut cx), Poll::Ready(Some("x".to_string())));
    assert_eq!(chan.recv(&mut cx), Poll::Ready(None));
}

#[test]
fn read_position_moves_only_when_a_value_is_read() {
    let mut chan = channel::<u8>();
    let mut cx = Context::from_waker(Waker::Root);
    assert_eq!((chan.sent(), chan.received()), (0, 0));
    // empty for now: nothing is read
    assert_eq!(chan.recv(&mut cx), Poll::Pending);
    assert_eq!(chan.received(), 0);
    assert!(chan.try_send(7).is_ok());
    assert!(chan.try_send(8).is_ok());
    assert_eq!(chan.recv(&mut cx), Poll::Ready(Some(7)));
    assert_eq!((chan.sent(), chan.received()), (2, 1));
    assert_eq!(chan.recv(&mut cx), Poll::Ready(Some(8)));
    assert_eq!(chan.received(), 2);
    chan.drop_sender();
    // closed: the position stays
    assert_eq!(chan.recv(&mut cx), Poll::Ready(None));
    assert_eq!(chan.recv(&mut cx), Poll::Ready(None));
    assert_eq!((chan.sent(), chan.received()), (2, 2));
}

#[test]
fn new_list_pops_nothing_and_stays_at_position_zero() {
    let (mut tx, mut rx) = tokio2::sync::mpsc::list::channel::<u8>();
    assert_eq!(tx.tail_position(), 0);
    assert_eq!(rx.index(), 0);
    assert_eq!(rx.pop(&mut tx), None);
    assert_eq!(rx.index(), 0);
    assert!(!rx.try_advancing_head(&tx) || rx.index() == 0);
    rx.reclaim_blocks(&mut tx);
    assert_eq!(rx.pop(&mut tx), None);
    assert_eq!(rx.index(), 0);
}

#[test]
fn drained_blocks_become_spare_capacity_up_to_three() {
    let mut chan = channel::<usize>();
    let mut cx = Context::from_waker(Waker::Root);
    assert_eq!(chan.spare_blocks(), 0);
    // five blocks of messages
    for i in 0..5 * BLOCK_CAP {
        assert!(chan.try_send(i).is_ok());
    }
    assert_eq!(chan.spare_blocks(), 0);
    // the first block is handed back when the consumer enters the second
    for i in 0..BLOCK_CAP {
        assert_eq!(chan.recv(&mut cx), Poll::Ready(Some(i)));
    }
    assert_eq!(chan.spare_blocks(), 0);
    assert_eq!(chan.recv(&mut cx), Poll::Ready(Some(BLOCK_CAP)));
    assert_eq!(chan.spare_blocks(), 1);
    for i in BLOCK_CAP + 1..2 * BLOCK_CAP + 1 {
        assert_eq!(chan.recv(&mut cx), Poll::Ready(Some(i)));
    }
    assert_eq!(chan.spare_blocks(), 2);
    for i in 2 * BLOCK_CAP + 1..3 * BLOCK_CAP + 1 {
        assert_eq!(chan.recv(&mut cx), Poll::Ready(Some(i)));
    }
    assert_eq!(chan.spare_blocks(), 3);
    // the fourth drained block finds three spare blocks and is freed
    for i in 3 * BLOCK_CAP + 1..5 * BLOCK_CAP {
        assert_eq!(chan.recv(&mut cx), Poll::Ready(Some(i)));
    }
    assert_eq!(chan.spare_blocks(), 3);
    assert_eq!(chan.recv(&mut cx), Poll::Pending);
    assert_eq!(chan.spare_blocks(), 3);
    // the producers move on into a spare block
    assert!(chan.try_send(7).is_ok());
    assert_eq!(chan.spare_blocks(), 2);
    // and the block they left is handed back in turn
    assert_eq!(chan.recv(&mut cx), Poll::Ready(Some(7)));
    assert_eq!(chan.spare_blocks(), 3);
}
