use fssh::queue::{BoundedQueue, INPUT_QUEUE_CAPACITY};

#[test]
fn capacity_constant_matches_session_queue() {
    assert_eq!(INPUT_QUEUE_CAPACITY, 32);
}

#[test]
fn full_queue_refuses_without_dropping() {
    let mut q = BoundedQueue::new(2);
    assert!(q.try_enqueue(vec![1]));
    assert!(q.try_enqueue(vec![2]));
    assert!(!q.try_enqueue(vec![3]));
    assert_eq!(q.len(), 2);
    assert_eq!(q.dequeue(), Some(vec![1]));
    assert_eq!(q.dequeue(), Some(vec![2]));
    assert_eq!(q.dequeue(), None);
}

#[test]
fn order_is_first_in_first_out() {
    let mut q = BoundedQueue::new(8);
    for i in 0u8..5 {
        assert!(q.try_enqueue(vec![i]));
    }
    for i in 0u8..5 {
        assert_eq!(q.dequeue(), Some(vec![i]));
    }
    assert_eq!(q.dequeue(), None);
}

#[test]
fn refused_entry_leaves_queue_unchanged() {
    let mut q = BoundedQueue::new(1);
    assert!(q.try_enqueue(vec![7, 8]));
    assert!(!q.try_enqueue(vec![9]));
    assert_eq!(q.dequeue(), Some(vec![7, 8]));
    assert_eq!(q.dequeue(), None);
}
