use addr_channel::{PopResult, Queue};

#[test]
fn pop_empty_reports_empty() {
    let mut q: Queue<u64> = Queue::new();
    assert_eq!(q.len(), 0);
    assert_eq!(q.pop(), PopResult::Empty);
}

#[test]
fn push_pop_is_fifo() {
    let mut q: Queue<u64> = Queue::new();
    q.push(1);
    q.push(2);
    q.push(3);
    assert_eq!(q.len(), 3);
    assert_eq!(q.pop(), PopResult::Data(1));
    q.push(4);
    assert_eq!(q.pop(), PopResult::Data(2));
    assert_eq!(q.pop(), PopResult::Data(3));
    assert_eq!(q.pop(), PopResult::Data(4));
    assert_eq!(q.pop(), PopResult::Empty);
}
