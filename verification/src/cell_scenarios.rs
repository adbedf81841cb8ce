//! Interior mutability at work: short programs over the two kinds of cell,
//! each returning what it observed.
use crate::cell::Cell;
use crate::messenger::{Messenger, MsgQueue};
use crate::rc::Heap;
use crate::refcell::{BorrowError, RefCell};
use vstd::prelude::*;
use vstd::string::*;

verus! {

/// Reads a cell, overwrites it and reads it again. Returns both readings.
pub fn test_cell() -> (seen: (&'static str, &'static str))
    ensures
        seen.0@ == "asdf"@,
        seen.1@ == "qwer"@,
{
    let mut c = Cell::new("asdf");
    let one = c.get();
    c.set("qwer");
    let two = c.get();
    (one, two)
}

/// Asks for the exclusive borrow of a cell while a shared borrow is out, and
/// again once the shared borrow has been handed back. Returns why each
/// request was refused, if it was.
pub fn test_refcell() -> (refused: (Option<BorrowError>, Option<BorrowError>))
    ensures
        refused == (Some(BorrowError::BorrowConflict), None::<BorrowError>),
{
    let mut s = RefCell::new(String::from_str("hello, world"));
    let s1 = s.borrow();
    let early = match s.try_borrow_mut() {
        Ok(s2) => {
            s.release_mut(s2);
            None
        },
        Err(e) => Some(e),
    };
    s.release(s1);
    let late = match s.try_borrow_mut() {
        Ok(s2) => {
            s.release_mut(s2);
            None
        },
        Err(e) => Some(e),
    };
    (early, late)
}

/// Sends one message to a queue and returns the queue.
pub fn test_msg_queue() -> (mq: MsgQueue)
    ensures
        mq.ready(),
        mq.sent().len() == 1,
        mq.sent()[0]@ == "hello, world"@,
{
    let mut mq = MsgQueue::new();
    mq.send(String::from_str("hello, world"));
    mq
}

/// Three owners share one string in a cell; one of them appends to it.
/// Returns the string as each owner sees it afterwards.
pub fn test_rc_refcell() -> (seen: (String, String, String))
    ensures
        seen.0@ == "我很善变，还拥有多个主人"@ + ", oh yeah!"@,
        seen.1@ == seen.0@,
        seen.2@ == seen.0@,
{
    let mut heap: Heap<RefCell<String>> = Heap::new();
    let s = heap.new_strong(RefCell::new(String::from_str("我很善变，还拥有多个主人")));
    let s1 = heap.clone_strong(&s).unwrap();
    let s2 = heap.clone_strong(&s).unwrap();
    let cell = heap.payload_mut(&s2);
    let guard = cell.borrow_mut();
    cell.get_mut(&guard).append(", oh yeah!");
    cell.release_mut(guard);
    let seen = (
        heap.deref(&s).inspect().clone(),
        heap.deref(&s1).inspect().clone(),
        heap.deref(&s2).inspect().clone(),
    );
    let _ = heap.drop_strong(s2);
    let _ = heap.drop_strong(s1);
    let _ = heap.drop_strong(s);
    seen
}

} // verus!
