use passthrough::SampleQueue;

#[test]
fn fifo_round_trip_fills_then_empties() {
    let cap = 4usize;
    let mut q = SampleQueue::new(cap);
    let pushed = [1u32, 2, 3];
    for &s in pushed.iter() {
        assert!(q.push(s));
    }
    let mut out = Vec::new();
    for _ in 0..cap {
        out.push(q.pop());
    }
    assert_eq!(out, vec![Some(1), Some(2), Some(3), None]);
}

#[test]
fn fifo_round_trip_exact_capacity() {
    let mut q = SampleQueue::new(3);
    for s in [7u32, 8, 9] {
        assert!(q.push(s));
    }
    assert!(q.is_full());
    assert_eq!(q.pop(), Some(7));
    assert_eq!(q.pop(), Some(8));
    assert_eq!(q.pop(), Some(9));
    assert!(q.is_empty());
}

#[test]
fn push_into_full_queue_is_rejected() {
    let mut q = SampleQueue::new(2);
    assert!(q.push(10));
    assert!(q.push(20));
    assert!(!q.push(30));
    assert_eq!(q.len(), 2);
    assert_eq!(q.pop(), Some(10));
    assert_eq!(q.pop(), Some(20));
    assert_eq!(q.pop(), None);
}

#[test]
fn pop_empty_queue_is_empty() {
    let mut q = SampleQueue::new(5);
    assert_eq!(q.pop(), None);
    assert_eq!(q.len(), 0);
    assert_eq!(q.capacity(), 5);
}

#[test]
fn push_slice_stops_at_capacity() {
    let mut q = SampleQueue::new(3);
    assert!(q.push(1));
    assert_eq!(q.push_slice(&[2, 3, 4, 5]), 2);
    assert_eq!(q.len(), 3);
    assert_eq!(q.pop(), Some(1));
    assert_eq!(q.pop(), Some(2));
    assert_eq!(q.pop(), Some(3));
    assert_eq!(q.pop(), None);
}

#[test]
fn queue_wraps_around() {
    let mut q = SampleQueue::new(2);
    for round in 0u32..5 {
        assert!(q.push(round * 2));
        assert!(q.push(round * 2 + 1));
        assert_eq!(q.pop(), Some(round * 2));
        assert_eq!(q.pop(), Some(round * 2 + 1));
    }
    assert!(q.is_empty());
}
