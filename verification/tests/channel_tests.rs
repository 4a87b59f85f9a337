use addr_channel::channel::{channel, Async, SendError};

const P1_TASK: u64 = 11;
const P2_TASK: u64 = 22;
const P3_TASK: u64 = 33;
const RX_TASK: u64 = 99;

#[test]
fn single_thread_backpressure() {
    // buffer = 2: two sends fit, the third is rejected until a pop frees a slot.
    let (mut tx, mut rx, mut inner) = channel::<u64>(2);
    assert_eq!(tx.try_send(&mut inner, 1), Ok(()));
    assert_eq!(tx.try_send(&mut inner, 2), Ok(()));
    assert_eq!(tx.try_send(&mut inner, 3), Err(SendError::NotReady(3)));
    assert_eq!(rx.poll(&mut inner, RX_TASK), Async::Ready(Some(1)));
    assert_eq!(tx.try_send(&mut inner, 3), Ok(()));
    assert_eq!(rx.poll(&mut inner, RX_TASK), Async::Ready(Some(2)));
    assert_eq!(rx.poll(&mut inner, RX_TASK), Async::Ready(Some(3)));
    tx.release(&mut inner);
    assert_eq!(rx.poll(&mut inner, RX_TASK), Async::Ready(None));
}

#[test]
fn unbounded_do_send() {
    // buffer = 0 is unbounded: a thousand fire-and-forget sends all succeed
    // and come back out in order.
    let (tx, mut rx, mut inner) = channel::<u64>(0);
    for i in 0..1000u64 {
        assert_eq!(tx.do_send(&mut inner, i), Ok(()));
    }
    for i in 0..1000u64 {
        assert_eq!(rx.poll(&mut inner, RX_TASK), Async::Ready(Some(i)));
    }
    assert_eq!(rx.poll(&mut inner, RX_TASK), Async::NotReady);
}

#[test]
fn backpressure_wake() {
    // buffer = 1: the second producer parks, and the pop of the envelope it
    // contended on wakes it, after which its retry succeeds.
    let (mut p1, mut rx, mut inner) = channel::<&str>(1);
    let mut p2 = p1.clone_handle(&mut inner);
    assert_eq!(p1.send(&mut inner, P1_TASK, "a"), Ok(()));
    assert_eq!(p2.send(&mut inner, P2_TASK, "b"), Err(SendError::NotReady("b")));
    // The parking slot now holds the producer's task.
    assert!(inner.sender_tasks[p2.task_id].is_parked);
    assert_eq!(inner.sender_tasks[p2.task_id].task, Some(P2_TASK));
    assert_eq!(rx.poll(&mut inner, RX_TASK), Async::Ready(Some("a")));
    // The pop notified the parked producer: its slot is clear again.
    assert!(!inner.sender_tasks[p2.task_id].is_parked);
    assert_eq!(inner.sender_tasks[p2.task_id].task, None);
    assert_eq!(p2.send(&mut inner, P2_TASK, "b"), Ok(()));
    assert_eq!(rx.poll(&mut inner, RX_TASK), Async::Ready(Some("b")));
}

#[test]
fn last_sender_sentinel() {
    // Three producers each send one message and are released; the consumer
    // sees the three envelopes in push order, then exactly one sentinel.
    let (p1, mut rx, mut inner) = channel::<u64>(4);
    let p2 = p1.clone_handle(&mut inner);
    let p3 = p1.clone_handle(&mut inner);
    assert_eq!(p1.do_send(&mut inner, 1), Ok(()));
    p1.release(&mut inner);
    assert_eq!(p2.do_send(&mut inner, 2), Ok(()));
    p2.release(&mut inner);
    assert_eq!(p3.do_send(&mut inner, 3), Ok(()));
    p3.release(&mut inner);
    assert_eq!(rx.poll(&mut inner, RX_TASK), Async::Ready(Some(1)));
    assert_eq!(rx.poll(&mut inner, RX_TASK), Async::Ready(Some(2)));
    assert_eq!(rx.poll(&mut inner, RX_TASK), Async::Ready(Some(3)));
    assert_eq!(rx.poll(&mut inner, RX_TASK), Async::Ready(None));
}

#[test]
fn close_drains_parked() {
    // Two parked producers are both woken by the consumer's close and then
    // observe the closure; the envelope committed before the close is still
    // delivered, followed by end-of-stream.
    let (mut p1, mut rx, mut inner) = channel::<&str>(1);
    let mut p2 = p1.clone_handle(&mut inner);
    let mut p3 = p1.clone_handle(&mut inner);
    assert_eq!(p1.send(&mut inner, P1_TASK, "a"), Ok(()));
    assert_eq!(p2.send(&mut inner, P2_TASK, "b"), Err(SendError::NotReady("b")));
    assert_eq!(p3.send(&mut inner, P3_TASK, "c"), Err(SendError::NotReady("c")));
    rx.close(&mut inner);
    assert!(!inner.sender_tasks[p2.task_id].is_parked);
    assert!(!inner.sender_tasks[p3.task_id].is_parked);
    assert_eq!(p2.send(&mut inner, P2_TASK, "b"), Err(SendError::Closed("b")));
    assert_eq!(p3.send(&mut inner, P3_TASK, "c"), Err(SendError::Closed("c")));
    assert_eq!(rx.poll(&mut inner, RX_TASK), Async::Ready(Some("a")));
    assert_eq!(rx.poll(&mut inner, RX_TASK), Async::Ready(None));
}

#[test]
fn close_then_drain() {
    // After close, every producer operation reports Closed and hands the
    // message back, while everything committed before the close is drained.
    let (mut tx, mut rx, mut inner) = channel::<u64>(8);
    assert_eq!(tx.try_send(&mut inner, 10), Ok(()));
    assert_eq!(tx.try_send(&mut inner, 20), Ok(()));
    rx.close(&mut inner);
    assert!(!tx.connected(&inner));
    assert_eq!(tx.try_send(&mut inner, 30), Err(SendError::Closed(30)));
    assert_eq!(tx.send(&mut inner, P1_TASK, 40), Err(SendError::Closed(40)));
    assert_eq!(tx.do_send(&mut inner, 50), Err(SendError::Closed(50)));
    // The consumer stays connected while envelopes remain.
    assert!(rx.connected(&inner));
    assert_eq!(rx.poll(&mut inner, RX_TASK), Async::Ready(Some(10)));
    assert_eq!(rx.poll(&mut inner, RX_TASK), Async::Ready(Some(20)));
    assert_eq!(rx.poll(&mut inner, RX_TASK), Async::Ready(None));
    assert!(!rx.connected(&inner));
}

#[test]
fn reopen_after_close() {
    // sender() on a closed consumer re-opens the channel and hands out a
    // live producer.
    let (mut tx, mut rx, mut inner) = channel::<u64>(4);
    rx.close(&mut inner);
    assert_eq!(tx.try_send(&mut inner, 1), Err(SendError::Closed(1)));
    let mut fresh = rx.sender(&mut inner);
    assert!(fresh.connected(&inner));
    assert_eq!(fresh.try_send(&mut inner, 2), Ok(()));
    assert_eq!(rx.poll(&mut inner, RX_TASK), Async::Ready(Some(2)));
}

#[test]
fn receiver_release_drains() {
    // Releasing the consumer closes the channel and drains what was left.
    let (mut tx, rx, mut inner) = channel::<u64>(4);
    assert_eq!(tx.try_send(&mut inner, 1), Ok(()));
    assert_eq!(tx.try_send(&mut inner, 2), Ok(()));
    rx.release(&mut inner);
    assert!(!tx.connected(&inner));
    assert_eq!(tx.try_send(&mut inner, 3), Err(SendError::Closed(3)));
}

#[test]
fn do_send_bypasses_backpressure() {
    // do_send never parks and never reports NotReady, even over capacity.
    let (tx, mut rx, mut inner) = channel::<u64>(1);
    assert_eq!(tx.do_send(&mut inner, 1), Ok(()));
    assert_eq!(tx.do_send(&mut inner, 2), Ok(()));
    assert_eq!(tx.do_send(&mut inner, 3), Ok(()));
    assert_eq!(rx.poll(&mut inner, RX_TASK), Async::Ready(Some(1)));
    assert_eq!(rx.poll(&mut inner, RX_TASK), Async::Ready(Some(2)));
    assert_eq!(rx.poll(&mut inner, RX_TASK), Async::Ready(Some(3)));
}

#[test]
fn consumer_parks_when_empty() {
    // On an empty open channel the consumer parks; the next send leaves a
    // pending wake-up that the following poll consumes.
    let (mut tx, mut rx, mut inner) = channel::<u64>(4);
    assert_eq!(rx.poll(&mut inner, RX_TASK), Async::NotReady);
    assert!(!inner.recv_task.unparked);
    assert_eq!(inner.recv_task.task, Some(RX_TASK));
    assert_eq!(tx.try_send(&mut inner, 5), Ok(()));
    // The send took the consumer's task handle to wake it.
    assert!(inner.recv_task.unparked);
    assert_eq!(inner.recv_task.task, None);
    assert_eq!(rx.poll(&mut inner, RX_TASK), Async::Ready(Some(5)));
}

#[test]
fn parked_sender_is_not_ready_until_woken() {
    // A parked producer keeps reporting NotReady without enqueuing anything,
    // and its stored task handle is refreshed to nothing on a bare retry.
    let (mut p1, mut rx, mut inner) = channel::<u64>(1);
    let mut p2 = p1.clone_handle(&mut inner);
    assert_eq!(p1.send(&mut inner, P1_TASK, 1), Ok(()));
    assert_eq!(p2.send(&mut inner, P2_TASK, 2), Err(SendError::NotReady(2)));
    assert_eq!(p2.try_send(&mut inner, 2), Err(SendError::NotReady(2)));
    assert_eq!(inner.sender_tasks[p2.task_id].task, None);
    assert!(inner.sender_tasks[p2.task_id].is_parked);
    assert_eq!(rx.poll(&mut inner, RX_TASK), Async::Ready(Some(1)));
    assert_eq!(p2.try_send(&mut inner, 2), Ok(()));
    assert_eq!(rx.poll(&mut inner, RX_TASK), Async::Ready(Some(2)));
}

#[test]
fn count_matches_queue_at_rest() {
    // Count conservation, observed through the packed state word.
    let (tx, mut rx, mut inner) = channel::<u64>(0);
    for i in 0..10u64 {
        assert_eq!(tx.do_send(&mut inner, i), Ok(()));
    }
    let st = addr_channel::decode_state(inner.state);
    assert!(st.is_open);
    assert_eq!(st.num_messages, 10);
    for i in 0..4u64 {
        assert_eq!(rx.poll(&mut inner, RX_TASK), Async::Ready(Some(i)));
    }
    let st = addr_channel::decode_state(inner.state);
    assert_eq!(st.num_messages, 6);
}

#[test]
fn bounded_queue_never_overfills() {
    // No phantom capacity: with back-pressured sends the resident envelopes
    // never exceed the buffer.
    let (mut tx, mut rx, mut inner) = channel::<u64>(3);
    for round in 0..5u64 {
        let mut sent = 0u64;
        loop {
            match tx.try_send(&mut inner, round * 100 + sent) {
                Ok(()) => sent += 1,
                Err(SendError::NotReady(_)) => break,
                Err(SendError::Closed(_)) => panic!("channel closed unexpectedly"),
            }
        }
        assert_eq!(sent, 3);
        let st = addr_channel::decode_state(inner.state);
        assert!(st.num_messages <= inner.buffer + inner.num_senders);
        for k in 0..sent {
            assert_eq!(rx.poll(&mut inner, RX_TASK), Async::Ready(Some(round * 100 + k)));
        }
        // The failed send parked the producer; the pops above woke it.
        assert_eq!(rx.poll(&mut inner, RX_TASK), Async::NotReady);
    }
}

#[test]
fn num_senders_tracks_handles() {
    let (p1, mut rx, mut inner) = channel::<u64>(4);
    assert_eq!(inner.num_senders, 1);
    let p2 = p1.clone_handle(&mut inner);
    let p3 = rx.sender(&mut inner);
    assert_eq!(inner.num_senders, 3);
    p2.release(&mut inner);
    assert_eq!(inner.num_senders, 2);
    p3.release(&mut inner);
    p1.release(&mut inner);
    assert_eq!(inner.num_senders, 0);
    // Only the very last release pushed the sentinel.
    assert_eq!(rx.poll(&mut inner, RX_TASK), Async::Ready(None));
    assert_eq!(rx.poll(&mut inner, RX_TASK), Async::Ready(None));
}

#[test]
fn fifo_per_producer() {
    // FIFO: messages of one producer with no intervening rejection come out
    // in the order they were sent.
    let (mut tx, mut rx, mut inner) = channel::<u64>(8);
    for i in [3u64, 1, 4, 1, 5, 9, 2, 6] {
        assert_eq!(tx.try_send(&mut inner, i), Ok(()));
    }
    for i in [3u64, 1, 4, 1, 5, 9, 2, 6] {
        assert_eq!(rx.poll(&mut inner, RX_TASK), Async::Ready(Some(i)));
    }
}
