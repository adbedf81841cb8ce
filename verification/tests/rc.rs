use shared_cells::rc::{Heap, RcError, StrongHandle, WeakHandle};

#[test]
fn new_block_counts_one_owner_and_no_observer() {
    let mut heap: Heap<u32> = Heap::new();
    let h = heap.new_strong(7);
    assert_eq!(heap.strong_count(&h), 1);
    assert_eq!(heap.weak_count(&h), 0);
    assert_eq!(*heap.deref(&h), 7);
    assert_eq!(h.slot(), 0);
    assert!(heap.is_allocated(0));
}

#[test]
fn strong_count_is_one_plus_clones_minus_drops() {
    let mut heap: Heap<u32> = Heap::new();
    let first = heap.new_strong(1);
    let mut handles: Vec<StrongHandle> = Vec::new();
    for _ in 0..5 {
        handles.push(heap.clone_strong(&first).unwrap());
    }
    assert_eq!(heap.strong_count(&first), 6);
    for _ in 0..3 {
        let h = handles.pop().unwrap();
        assert_eq!(heap.drop_strong(h), None);
    }
    assert_eq!(heap.strong_count(&first), 1 + 5 - 3);
    for h in handles {
        assert_eq!(heap.drop_strong(h), None);
    }
    assert_eq!(heap.strong_count(&first), 1);
}

#[test]
fn clones_and_drops_in_mixed_order() {
    let mut heap: Heap<&'static str> = Heap::new();
    let a = heap.new_strong("x");
    let b = heap.clone_strong(&a).unwrap();
    assert_eq!(heap.drop_strong(a), None);
    let c = heap.clone_strong(&b).unwrap();
    let d = heap.clone_strong(&c).unwrap();
    assert_eq!(heap.strong_count(&d), 3);
    assert_eq!(heap.drop_strong(b), None);
    assert_eq!(heap.drop_strong(c), None);
    assert_eq!(heap.strong_count(&d), 1);
    assert_eq!(heap.drop_strong(d), Some("x"));
    assert!(!heap.is_allocated(0));
}

#[test]
fn last_drop_hands_the_payload_out_exactly_once() {
    let mut heap: Heap<String> = Heap::new();
    let a = heap.new_strong(String::from("payload"));
    let b = heap.clone_strong(&a).unwrap();
    let w1 = heap.downgrade(&a).unwrap();
    let w2 = heap.clone_weak(&w1).unwrap();
    let mut destructed = 0;
    if heap.drop_strong(a).is_some() {
        destructed += 1;
    }
    assert_eq!(destructed, 0);
    if let Some(p) = heap.drop_strong(b) {
        assert_eq!(p, "payload");
        destructed += 1;
    }
    assert_eq!(destructed, 1);
    // The block outlives the payload while observers remain.
    assert!(heap.is_allocated(0));
    assert_eq!(heap.owners(&w1), 0);
    heap.drop_weak(w1);
    assert!(heap.is_allocated(0));
    heap.drop_weak(w2);
    assert!(!heap.is_allocated(0));
    assert_eq!(destructed, 1);
}

#[test]
fn block_is_freed_with_the_last_owner_when_nobody_observes() {
    let mut heap: Heap<u8> = Heap::new();
    let a = heap.new_strong(3);
    assert_eq!(heap.drop_strong(a), Some(3));
    assert!(!heap.is_allocated(0));
    assert!(!heap.is_allocated(1));
}

#[test]
fn upgrade_follows_the_owners() {
    let mut heap: Heap<i32> = Heap::new();
    let five = heap.new_strong(5);
    let weak = heap.downgrade(&five).unwrap();
    assert_eq!(heap.weak_count(&five), 1);
    let up = heap.upgrade(&weak).unwrap().unwrap();
    assert_eq!(heap.strong_count(&five), 2);
    assert_eq!(*heap.deref(&up), 5);
    assert_eq!(heap.drop_strong(up), None);
    assert_eq!(heap.drop_strong(five), Some(5));
    assert!(matches!(heap.upgrade(&weak), Ok(None)));
    let other = heap.clone_weak(&weak).unwrap();
    assert!(matches!(heap.upgrade(&other), Ok(None)));
    heap.drop_weak(other);
    heap.drop_weak(weak);
    assert!(!heap.is_allocated(0));
}

#[test]
fn parent_owns_child_and_child_observes_parent() {
    // A owns B; B holds a weak reference back to A.
    struct A {
        child: StrongHandle,
    }
    struct B {
        parent: Option<WeakHandle>,
    }
    let mut parents: Heap<A> = Heap::new();
    let mut children: Heap<B> = Heap::new();
    let b = children.new_strong(B { parent: None });
    let a = parents.new_strong(A { child: children.clone_strong(&b).unwrap() });
    let back = parents.downgrade(&a).unwrap();
    children.payload_mut(&b).parent = Some(back);
    assert_eq!(children.strong_count(&b), 2);
    assert_eq!(parents.weak_count(&a), 1);

    // Dropping A destructs A's payload, which gives up its handle to B.
    let payload = parents.drop_strong(a).unwrap();
    assert_eq!(children.drop_strong(payload.child).map(|_| ()), None);
    assert_eq!(children.strong_count(&b), 1);

    // B's way back to A now leads nowhere.
    let back = children.payload_mut(&b).parent.take().unwrap();
    assert!(matches!(parents.upgrade(&back), Ok(None)));
    parents.drop_weak(back);
    assert!(!parents.is_allocated(0));

    // Dropping B afterwards frees it, once.
    let last = children.drop_strong(b);
    assert!(last.is_some());
    assert!(last.unwrap().parent.is_none());
    assert!(!children.is_allocated(0));
}

#[test]
fn payload_can_be_changed_in_place() {
    let mut heap: Heap<Vec<u8>> = Heap::new();
    let a = heap.new_strong(vec![1]);
    let b = heap.clone_strong(&a).unwrap();
    heap.payload_mut(&a).push(2);
    assert_eq!(heap.deref(&b), &vec![1, 2]);
    assert_eq!(heap.strong_count(&a), 2);
    assert_eq!(heap.drop_strong(a), None);
    assert_eq!(heap.drop_strong(b), Some(vec![1, 2]));
}

#[test]
fn slots_are_handed_out_in_order() {
    let mut heap: Heap<u8> = Heap::new();
    let a = heap.new_strong(1);
    let b = heap.new_strong(2);
    let w = heap.downgrade(&b).unwrap();
    assert_eq!(a.slot(), 0);
    assert_eq!(b.slot(), 1);
    assert_eq!(w.slot(), 1);
    assert_eq!(heap.drop_strong(a), Some(1));
    assert_eq!(heap.drop_strong(b), Some(2));
    heap.drop_weak(w);
}

#[test]
fn count_overflow_is_the_only_error() {
    assert_eq!(RcError::CountOverflow, RcError::CountOverflow);
    assert_eq!(format!("{:?}", RcError::CountOverflow), "CountOverflow");
}

#[test]
fn a_full_counter_refuses_one_more_handle() {
    let mut heap: Heap<u8> = Heap::with_limit(2);
    assert_eq!(heap.count_limit(), 2);
    let a = heap.new_strong(1);
    let b = heap.clone_strong(&a).unwrap();
    assert!(matches!(heap.clone_strong(&a), Err(RcError::CountOverflow)));
    assert_eq!(heap.strong_count(&a), 2);
    let w1 = heap.downgrade(&a).unwrap();
    let w2 = heap.clone_weak(&w1).unwrap();
    assert!(matches!(heap.downgrade(&a), Err(RcError::CountOverflow)));
    assert!(matches!(heap.clone_weak(&w2), Err(RcError::CountOverflow)));
    assert!(matches!(heap.upgrade(&w1), Err(RcError::CountOverflow)));
    assert_eq!(heap.weak_count(&a), 2);
    assert_eq!(heap.drop_strong(b), None);
    // There is room again.
    let c = heap.upgrade(&w1).unwrap().unwrap();
    assert_eq!(heap.strong_count(&a), 2);
    assert_eq!(heap.drop_strong(c), None);
    assert_eq!(heap.drop_strong(a), Some(1));
    heap.drop_weak(w1);
    heap.drop_weak(w2);
    assert_eq!(Heap::<u8>::new().count_limit(), usize::MAX);
}
