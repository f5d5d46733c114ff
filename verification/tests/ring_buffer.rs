use sensor_history::ring::RingBuffer;

fn collect(buffer: &RingBuffer<u64>) -> Vec<u64> {
    let mut items = Vec::new();
    let mut it = buffer.iter();
    while let Some(item) = it.next() {
        items.push(*item);
    }
    items
}

#[test]
fn capacity_invariant_occupancy_is_min_of_pushes_and_capacity() {
    for n in 0..10u64 {
        let mut buffer = RingBuffer::<u64>::new(4);
        for v in 0..n {
            buffer.push(v);
        }
        let expected = if n < 4 { n as usize } else { 4 };
        assert_eq!(buffer.len(), expected);
    }
}

#[test]
fn eviction_order_keeps_newest_in_order() {
    let mut buffer = RingBuffer::<u64>::new(3);
    for v in [1, 2, 3, 4] {
        buffer.push(v);
    }
    assert_eq!(collect(&buffer), vec![2, 3, 4]);
}

#[test]
fn fresh_buffer_is_empty_and_not_full() {
    let buffer = RingBuffer::<u64>::new(5);
    assert!(buffer.is_empty());
    assert!(!buffer.is_full());
    assert_eq!(buffer.len(), 0);
}

#[test]
fn exactly_capacity_pushes_make_full_not_empty() {
    let mut buffer = RingBuffer::<u64>::new(3);
    for v in [10, 20, 30] {
        buffer.push(v);
    }
    assert!(buffer.is_full());
    assert!(!buffer.is_empty());
}

#[test]
fn pop_on_empty_returns_none_never_a_stale_value() {
    let mut buffer = RingBuffer::<u64>::new(2);
    assert_eq!(buffer.pop(), None);
    buffer.push(7);
    assert_eq!(buffer.pop(), Some(7));
    assert_eq!(buffer.pop(), None);
    assert_eq!(buffer.pop(), None);
}

#[test]
fn pop_returns_oldest_first() {
    let mut buffer = RingBuffer::<u64>::new(4);
    for v in [1, 2, 3] {
        buffer.push(v);
    }
    assert_eq!(buffer.pop(), Some(1));
    assert_eq!(buffer.pop(), Some(2));
    buffer.push(4);
    assert_eq!(buffer.pop(), Some(3));
    assert_eq!(buffer.pop(), Some(4));
    assert!(buffer.is_empty());
}

#[test]
fn iterate_twice_yields_identical_sequences() {
    let mut buffer = RingBuffer::<u64>::new(3);
    for v in [5, 6, 7, 8] {
        buffer.push(v);
    }
    let first = collect(&buffer);
    let second = collect(&buffer);
    assert_eq!(first, second);
    assert_eq!(first, vec![6, 7, 8]);
}

#[test]
fn iteration_length_is_occupancy_not_capacity() {
    let mut buffer = RingBuffer::<u64>::new(10);
    buffer.push(1);
    buffer.push(2);
    assert_eq!(collect(&buffer).len(), 2);
}

#[test]
fn many_wraps_keep_oldest_to_newest_order() {
    let mut buffer = RingBuffer::<u64>::new(3);
    for v in 0..20 {
        buffer.push(v);
    }
    assert_eq!(collect(&buffer), vec![17, 18, 19]);
    assert_eq!(buffer.pop(), Some(17));
    assert_eq!(collect(&buffer), vec![18, 19]);
}

#[test]
fn zero_capacity_buffer_is_both_empty_and_full_and_retains_nothing() {
    let mut buffer = RingBuffer::<u64>::new(0);
    assert!(buffer.is_empty());
    assert!(buffer.is_full());
    buffer.push(1);
    assert!(buffer.is_empty());
    assert_eq!(buffer.pop(), None);
    assert_eq!(collect(&buffer), Vec::<u64>::new());
}
