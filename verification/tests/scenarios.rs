use shared_cells::cycles::{reference_cycle, List};
use shared_cells::rc::Heap;
use shared_cells::rc_scenarios::{test_arc, test_rc, test_rc_count, test_thread_rc};
use shared_cells::refcell::RefCell;

#[test]
fn two_handles_count_two() {
    assert_eq!(test_rc(), (2, 2));
}

#[test]
fn counts_follow_scopes() {
    assert_eq!(test_rc_count(), vec![1, 2, 3, 2]);
}

#[test]
fn gadgets_keep_their_owner_alive() {
    let lines = shared_cells::rc_scenarios::test_gadget();
    assert_eq!(lines, vec![(1, String::from("Gadget Man")), (2, String::from("Gadget Man"))]);
}

#[test]
fn clones_that_are_given_up_leave_one_owner() {
    assert_eq!(test_thread_rc(), 1);
}

#[test]
fn threads_read_through_their_own_handles() {
    let (read, count) = test_arc();
    assert_eq!(read.len(), 10);
    assert!(read.iter().all(|s| s == "多线程漫游者"));
    assert_eq!(count, 1);
}

#[test]
fn a_cycle_of_owners_is_never_reclaimed() {
    let (counts, heap) = reference_cycle();
    assert_eq!(counts, vec![1, 2, 1, 2, 2]);
    // The end marker was replaced and reclaimed; the two nodes leak.
    assert!(!heap.is_allocated(0));
    assert!(heap.is_allocated(1));
    assert!(heap.is_allocated(2));
}

#[test]
fn weak_handle_sees_the_value_only_while_it_is_owned() {
    assert_eq!(shared_cells::cycles::test_weak(), (Some(5), None));
}

#[test]
fn weak_back_references_leave_nothing_behind() {
    let (lines, owners, gadgets) = shared_cells::cycles::test_gadget();
    assert_eq!(lines, vec![(1, String::from("Gadget Man")), (2, String::from("Gadget Man"))]);
    assert!(!owners.is_allocated(0));
    assert!(!gadgets.is_allocated(0));
    assert!(!gadgets.is_allocated(1));
}

#[test]
fn tree_counts() {
    let (counts, parent) = shared_cells::cycles::test_tree();
    assert_eq!(counts, vec![(1, 0), (1, 1), (2, 0), (1, 0)]);
    assert_eq!(parent, None);
}

#[test]
fn tail_of_a_list() {
    let mut heap: Heap<List> = Heap::new();
    let end = heap.new_strong(List::Nil);
    assert!(heap.deref(&end).tail().is_none());
    let node = List::Cons(5, RefCell::new(end));
    let link = node.tail().unwrap();
    assert_eq!(link.inspect().slot(), 0);
    if let List::Cons(_, cell) = node {
        assert!(heap.drop_strong(cell.into_inner()).is_some());
    }
}
