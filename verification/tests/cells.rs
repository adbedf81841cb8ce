use shared_cells::cell::{is_even, retain_even, Cell};
use shared_cells::cell_scenarios::{test_cell, test_msg_queue, test_rc_refcell, test_refcell};
use shared_cells::messenger::{Messenger, MsgQueue};
use shared_cells::refcell::{BorrowError, RefCell};

#[test]
fn cell_set_then_get() {
    let mut c = Cell::new(1u32);
    assert_eq!(c.get(), 1);
    c.set(9);
    assert_eq!(c.get(), 9);
    assert_eq!(c.get(), 9);
}

#[test]
fn cell_replace_returns_the_prior_value() {
    let mut c = Cell::new('a');
    assert_eq!(c.replace('b'), 'a');
    assert_eq!(c.get(), 'b');
    assert_eq!(c.replace('c'), 'b');
    assert_eq!(c.into_inner(), 'c');
}

#[test]
fn even_numbers() {
    assert!(is_even(0));
    assert!(is_even(-4));
    assert!(!is_even(7));
    assert!(!is_even(-1));
    assert!(!is_even(i32::MAX));
    assert!(is_even(i32::MIN));
}

#[test]
fn retain_even_keeps_order() {
    let mut nums = vec![1, 2, 3, 4, 6, 7, 8, -2, -3];
    retain_even(&mut nums);
    assert_eq!(nums, vec![2, 4, 6, 8, -2]);
    let mut none = vec![1, 3, 5];
    retain_even(&mut none);
    assert_eq!(none, Vec::<i32>::new());
    let mut all = vec![0, 2];
    retain_even(&mut all);
    assert_eq!(all, vec![0, 2]);
    let mut empty: Vec<i32> = Vec::new();
    retain_even(&mut empty);
    assert!(empty.is_empty());
}

#[test]
fn writer_excludes_readers_and_writers() {
    let mut cell = RefCell::new(String::from("v"));
    let w = cell.try_borrow_mut().unwrap();
    assert!(cell.is_exclusive());
    assert!(matches!(cell.try_borrow(), Err(BorrowError::BorrowConflict)));
    assert!(matches!(cell.try_borrow_mut(), Err(BorrowError::BorrowConflict)));
    cell.get_mut(&w).push('!');
    assert_eq!(cell.peek(&w), "v!");
    cell.release_mut(w);
    assert!(!cell.is_exclusive());
    let r = cell.try_borrow().unwrap();
    assert_eq!(cell.read(&r), "v!");
    cell.release(r);
    let w = cell.try_borrow_mut().unwrap();
    cell.release_mut(w);
}

#[test]
fn reader_excludes_writer_until_released() {
    let mut cell = RefCell::new(3u8);
    let r1 = cell.try_borrow().unwrap();
    assert!(matches!(cell.try_borrow_mut(), Err(BorrowError::BorrowConflict)));
    let r2 = cell.try_borrow().unwrap();
    assert_eq!(cell.readers(), 2);
    cell.release(r1);
    assert!(matches!(cell.try_borrow_mut(), Err(BorrowError::BorrowConflict)));
    assert_eq!(cell.readers(), 1);
    cell.release(r2);
    assert_eq!(cell.readers(), 0);
    let w = cell.try_borrow_mut().unwrap();
    assert_eq!(cell.write(&w, 4), 3);
    cell.release_mut(w);
    assert_eq!(*cell.inspect(), 4);
    assert_eq!(cell.into_inner(), 4);
}

#[test]
fn borrows_that_are_known_to_be_admissible() {
    let mut cell = RefCell::new(1i64);
    let a = cell.borrow();
    let b = cell.borrow();
    assert_eq!(*cell.read(&a) + *cell.read(&b), 2);
    cell.release(a);
    cell.release(b);
    let w = cell.borrow_mut();
    *cell.get_mut(&w) += 41;
    cell.release_mut(w);
    assert_eq!(cell.into_inner(), 42);
}

#[test]
fn borrow_errors_are_distinct() {
    assert_ne!(BorrowError::BorrowConflict, BorrowError::CountOverflow);
}

#[test]
fn cell_scenario() {
    assert_eq!(test_cell(), ("asdf", "qwer"));
}

#[test]
fn refcell_scenario() {
    assert_eq!(test_refcell(), (Some(BorrowError::BorrowConflict), None));
}

#[test]
fn shared_cell_scenario() {
    let (a, b, c) = test_rc_refcell();
    assert_eq!(a, "我很善变，还拥有多个主人, oh yeah!");
    assert_eq!(a, b);
    assert_eq!(b, c);
}

#[test]
fn queue_keeps_what_was_sent() {
    let mut mq = MsgQueue::new();
    assert_eq!(mq.len(), 0);
    mq.send(String::from("one"));
    mq.send(String::from("two"));
    assert_eq!(mq.len(), 2);
    assert_eq!(test_msg_queue().len(), 1);
}

#[test]
fn a_full_reader_count_refuses_one_more_reader() {
    let mut cell = RefCell::with_limit(7u8, 2);
    let a = cell.try_borrow().unwrap();
    let b = cell.try_borrow().unwrap();
    assert!(matches!(cell.try_borrow(), Err(BorrowError::CountOverflow)));
    assert_eq!(cell.readers(), 2);
    assert!(matches!(cell.try_borrow_mut(), Err(BorrowError::BorrowConflict)));
    cell.release(a);
    let c = cell.try_borrow().unwrap();
    cell.release(b);
    cell.release(c);
    let w = cell.try_borrow_mut().unwrap();
    // A writer is refused as a conflict, whatever the count.
    assert!(matches!(cell.try_borrow(), Err(BorrowError::BorrowConflict)));
    cell.release_mut(w);
    let mut none = RefCell::with_limit(0u8, 0);
    assert!(matches!(none.try_borrow(), Err(BorrowError::CountOverflow)));
    let w = none.try_borrow_mut().unwrap();
    none.release_mut(w);
}
