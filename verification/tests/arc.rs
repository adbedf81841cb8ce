use shared_cells::arc::{AtomicStrongHandle, SharedHeap, UpgradeStep, MAX_SHARED};
use shared_cells::atomic::{AtomicCounter, MemOrder};
use shared_cells::rc::RcError;

#[test]
fn atomic_counter_steps() {
    let mut c = AtomicCounter::new(5);
    assert_eq!(c.fetch_add(3, MemOrder::Relaxed), 5);
    assert_eq!(c.load(MemOrder::Acquire), 8);
    assert_eq!(c.fetch_sub(8, MemOrder::Release), 8);
    assert_eq!(c.peek(), 0);
    c.store(9, MemOrder::SeqCst);
    c.fence(MemOrder::AcqRel);
    assert_eq!(c.peek(), 9);
}

#[test]
fn atomic_counter_wraps_around() {
    let mut c = AtomicCounter::new(usize::MAX);
    assert_eq!(c.fetch_add(2, MemOrder::Relaxed), usize::MAX);
    assert_eq!(c.peek(), 1);
    assert_eq!(c.fetch_sub(3, MemOrder::Relaxed), 1);
    assert_eq!(c.peek(), usize::MAX - 1);
}

#[test]
fn compare_exchange_swaps_only_on_the_expected_value() {
    let mut c = AtomicCounter::new(4);
    assert_eq!(c.compare_exchange(3, 10, MemOrder::Acquire), Err(4));
    assert_eq!(c.peek(), 4);
    assert_eq!(c.compare_exchange(4, 10, MemOrder::Acquire), Ok(4));
    assert_eq!(c.peek(), 10);
}

#[test]
fn shared_counts_follow_clones_and_drops() {
    let mut heap: SharedHeap<String> = SharedHeap::new();
    let a = heap.new_strong(String::from("shared"));
    let mut others: Vec<AtomicStrongHandle> = Vec::new();
    for _ in 0..4 {
        others.push(heap.clone_strong(&a).unwrap());
    }
    assert_eq!(heap.strong_count(&a), 5);
    assert_eq!(heap.weak_count(&a), 0);
    for h in others {
        assert_eq!(heap.deref(&h), "shared");
        assert_eq!(heap.drop_strong(h), None);
    }
    assert_eq!(heap.strong_count(&a), 1);
    assert_eq!(heap.drop_strong(a), Some(String::from("shared")));
}

#[test]
fn shared_upgrade_follows_the_owners() {
    let mut heap: SharedHeap<u32> = SharedHeap::new();
    let a = heap.new_strong(11);
    let w = heap.downgrade(&a).unwrap();
    let w2 = heap.clone_weak(&w).unwrap();
    assert_eq!(heap.weak_count(&a), 2);
    assert_eq!(heap.owners(&w), 1);
    let up = heap.upgrade(&w).unwrap().unwrap();
    assert_eq!(heap.strong_count(&a), 2);
    assert_eq!(heap.drop_strong(up), None);
    assert_eq!(heap.drop_strong(a), Some(11));
    assert!(matches!(heap.upgrade(&w), Ok(None)));
    assert!(matches!(heap.upgrade(&w2), Ok(None)));
    heap.drop_weak(w);
    heap.drop_weak(w2);
}

#[test]
fn upgrade_attempt_with_a_stale_observation_retries() {
    let mut heap: SharedHeap<u32> = SharedHeap::new();
    let a = heap.new_strong(1);
    let b = heap.clone_strong(&a).unwrap();
    let w = heap.downgrade(&a).unwrap();
    // The thread saw one owner; by now there are two.
    match heap.upgrade_attempt(&w, 1) {
        UpgradeStep::Retry(now) => assert_eq!(now, 2),
        _ => panic!("a stale observation must not be granted"),
    }
    assert_eq!(heap.strong_count(&a), 2);
    match heap.upgrade_attempt(&w, 2) {
        UpgradeStep::Granted(h) => {
            assert_eq!(heap.strong_count(&a), 3);
            assert_eq!(heap.drop_strong(h), None);
        }
        _ => panic!("a fresh observation is granted"),
    }
    assert!(matches!(heap.upgrade_attempt(&w, 0), UpgradeStep::Gone));
    assert!(matches!(heap.upgrade_attempt(&w, MAX_SHARED), UpgradeStep::Overflow));
    assert_eq!(heap.strong_count(&a), 2);
    assert_eq!(heap.drop_strong(b), None);
    assert_eq!(heap.drop_strong(a), Some(1));
    heap.drop_weak(w);
}

#[test]
fn max_shared_is_half_the_word() {
    assert_eq!(MAX_SHARED, usize::MAX / 2);
}

#[test]
fn a_full_shared_counter_refuses_one_more_handle() {
    let mut heap: SharedHeap<u8> = SharedHeap::with_limit(3);
    assert_eq!(heap.count_limit(), 3);
    let a = heap.new_strong(1);
    let b = heap.clone_strong(&a).unwrap();
    let c = heap.clone_strong(&a).unwrap();
    assert!(matches!(heap.clone_strong(&a), Err(RcError::CountOverflow)));
    assert_eq!(heap.strong_count(&a), 3);
    // The weak counter also counts the share that the owners hold together.
    let w1 = heap.downgrade(&a).unwrap();
    let w2 = heap.clone_weak(&w1).unwrap();
    assert!(matches!(heap.downgrade(&a), Err(RcError::CountOverflow)));
    assert!(matches!(heap.clone_weak(&w1), Err(RcError::CountOverflow)));
    assert_eq!(heap.weak_count(&a), 2);
    assert!(matches!(heap.upgrade(&w1), Err(RcError::CountOverflow)));
    assert!(matches!(heap.upgrade_attempt(&w1, 3), UpgradeStep::Overflow));
    assert_eq!(heap.drop_strong(c), None);
    assert_eq!(heap.drop_strong(b), None);
    assert_eq!(heap.drop_strong(a), Some(1));
    // With the owners gone their share is free for an observer.
    let w3 = heap.clone_weak(&w1).unwrap();
    assert!(matches!(heap.clone_weak(&w1), Err(RcError::CountOverflow)));
    heap.drop_weak(w1);
    heap.drop_weak(w2);
    heap.drop_weak(w3);
    assert_eq!(SharedHeap::<u8>::new().count_limit(), MAX_SHARED);
}

#[test]
fn block_outlives_payload_while_observed() {
    let mut heap: SharedHeap<String> = SharedHeap::new();
    let a = heap.new_strong(String::from("p"));
    let w = heap.downgrade(&a).unwrap();
    assert_eq!(heap.drop_strong(a), Some(String::from("p")));
    assert_eq!(heap.owners(&w), 0);
    assert!(matches!(heap.upgrade(&w), Ok(None)));
    heap.drop_weak(w);
}
