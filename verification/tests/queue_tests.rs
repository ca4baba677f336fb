use mixer_bridge::queue::{BoundedQueue, QUEUE_CAPACITY};

#[test]
fn fifo_order_is_preserved() {
    let mut q: BoundedQueue<u32> = BoundedQueue::new();
    assert!(q.submit(1));
    assert!(q.submit(2));
    assert!(q.submit(3));
    assert_eq!(q.poll(), Some(1));
    assert_eq!(q.poll(), Some(2));
    assert_eq!(q.poll(), Some(3));
    assert_eq!(q.poll(), None);
}

#[test]
fn poll_on_empty_queue_returns_none() {
    let mut q: BoundedQueue<u32> = BoundedQueue::new();
    assert_eq!(q.poll(), None);
    assert_eq!(q.len(), 0);
}

#[test]
fn submit_on_full_queue_returns_false_and_enqueues_nothing() {
    let mut q: BoundedQueue<u32> = BoundedQueue::new();
    for n in 0..10 {
        assert!(q.submit(n));
    }
    assert_eq!(q.len(), QUEUE_CAPACITY);
    assert!(!q.submit(99));
    assert_eq!(q.len(), 10);
    // The dropped message is really gone: draining yields the first
    // ten submissions, in order, and nothing more.
    for n in 0..10 {
        assert_eq!(q.poll(), Some(n));
    }
    assert_eq!(q.poll(), None);
}

#[test]
fn queue_accepts_again_after_draining() {
    let mut q: BoundedQueue<u32> = BoundedQueue::new();
    for n in 0..10 {
        assert!(q.submit(n));
    }
    assert!(!q.submit(10));
    assert_eq!(q.poll(), Some(0));
    assert!(q.submit(10));
    assert_eq!(q.len(), 10);
}
