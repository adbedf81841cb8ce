//! Sending messages through a receiver that is only borrowed.
use crate::refcell::{BorrowState, RefCell};
use vstd::prelude::*;

verus! {

/// Something that messages can be sent to.
pub trait Messenger {
    /// The messages sent so far, oldest first.
    spec fn sent(&self) -> Seq<String>;

    /// No borrow is out that would stand in the way of sending.
    spec fn ready(&self) -> bool;

    fn send(&mut self, msg: String)
        requires
            old(self).ready(),
        ensures
            final(self).ready(),
            final(self).sent() == old(self).sent().push(msg),
    ;
}

/// A queue that keeps what was sent to it.
pub struct MsgQueue {
    msg_cache: RefCell<Vec<String>>,
}

impl MsgQueue {
    pub fn new() -> (mq: MsgQueue)
        ensures
            mq.ready(),
            mq.sent() == Seq::<String>::empty(),
    {
        MsgQueue { msg_cache: RefCell::new(Vec::new()) }
    }

    /// How many messages the queue keeps.
    pub fn len(&self) -> (n: usize)
        requires
            self.ready(),
        ensures
            n == self.sent().len(),
    {
        self.msg_cache.inspect().len()
    }
}

impl Messenger for MsgQueue {
    closed spec fn sent(&self) -> Seq<String> {
        self.msg_cache.value()@
    }

    closed spec fn ready(&self) -> bool {
        self.msg_cache.wf() && self.msg_cache.state() == BorrowState::Unshared
    }

    fn send(&mut self, msg: String) {
        let guard = self.msg_cache.borrow_mut();
        let cache = self.msg_cache.get_mut(&guard);
        cache.push(msg);
        self.msg_cache.release_mut(guard);
    }
}

} // verus!
