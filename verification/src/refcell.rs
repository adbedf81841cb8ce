//! A cell whose aliasing rule, one writer or many readers, is checked when a
//! borrow is asked for rather than when the program is compiled.
use crate::rc::ThreadBound;
use vstd::prelude::*;

verus! {

/// Who currently holds a borrow of a cell.
pub enum BorrowState {
    /// Nobody.
    Unshared,
    /// This many readers, at least one.
    Shared(nat),
    /// One writer.
    Exclusive,
}

impl BorrowState {
    /// A reader count of zero is written `Unshared`.
    pub open spec fn wf(self) -> bool {
        self matches BorrowState::Shared(n) ==> n >= 1
    }

    /// How many readers hold a borrow.
    pub open spec fn readers(self) -> nat {
        match self {
            BorrowState::Shared(n) => n,
            _ => 0,
        }
    }

    /// A reader may join: there is no writer.
    pub open spec fn admits_reader(self) -> bool {
        !(self is Exclusive)
    }

    /// A writer may enter: there is nobody.
    pub open spec fn admits_writer(self) -> bool {
        self is Unshared
    }

    pub open spec fn after_share(self) -> BorrowState {
        BorrowState::Shared(self.readers() + 1)
    }

    pub open spec fn after_lock(self) -> BorrowState {
        BorrowState::Exclusive
    }

    /// One reader less.
    pub open spec fn after_unshare(self) -> BorrowState {
        if self.readers() <= 1 {
            BorrowState::Unshared
        } else {
            BorrowState::Shared((self.readers() - 1) as nat)
        }
    }

    pub open spec fn after_unlock(self) -> BorrowState {
        BorrowState::Unshared
    }
}

/// Why a borrow was refused.
#[derive(Clone, Copy, Debug, PartialEq, Eq, Structural)]
pub enum BorrowError {
    /// The borrow would break "one writer or many readers".
    BorrowConflict,
    /// One more reader would not fit in the counter.
    CountOverflow,
}

/// Proof of a shared borrow; handed back to end it.
pub struct Ref {
    thread: ThreadBound,
}

/// Proof of an exclusive borrow; handed back to end it.
pub struct RefMut {
    thread: ThreadBound,
}

/// A value with a borrow state that is checked at run time.
pub struct RefCell<T> {
    value: T,
    readers: usize,
    writer: bool,
    limit: usize,
    thread: ThreadBound,
}

impl<T> RefCell<T> {
    /// The value in the cell.
    pub closed spec fn value(&self) -> T {
        self.value
    }

    /// Who holds a borrow.
    pub closed spec fn state(&self) -> BorrowState {
        if self.writer {
            BorrowState::Exclusive
        } else if self.readers == 0 {
            BorrowState::Unshared
        } else {
            BorrowState::Shared(self.readers as nat)
        }
    }

    /// How many readers the cell admits at once.
    pub closed spec fn reader_limit(&self) -> nat {
        self.limit as nat
    }

    /// The reader count fits the counter, and a writer is alone.
    pub closed spec fn wf(&self) -> bool {
        self.writer ==> self.readers == 0
    }

    pub proof fn lemma_state_wf(&self)
        ensures
            self.state().wf(),
            self.state().readers() <= usize::MAX,
    {
    }

    /// A cell that admits as many readers as the machine word counts.
    pub fn new(value: T) -> (cell: RefCell<T>)
        ensures
            cell.wf(),
            cell.value() == value,
            cell.state() == BorrowState::Unshared,
            cell.reader_limit() == usize::MAX,
    {
        RefCell { value, readers: 0, writer: false, limit: usize::MAX, thread: ThreadBound::new() }
    }

    /// A cell that admits `limit` readers at once.
    pub fn with_limit(value: T, limit: usize) -> (cell: RefCell<T>)
        ensures
            cell.wf(),
            cell.value() == value,
            cell.state() == BorrowState::Unshared,
            cell.reader_limit() == limit,
    {
        RefCell { value, readers: 0, writer: false, limit, thread: ThreadBound::new() }
    }

    /// Asks for a shared borrow, and says why not if it is refused.
    pub fn try_borrow(&mut self) -> (r: Result<Ref, BorrowError>)
        requires
            old(self).wf(),
        ensures
            final(self).wf(),
            final(self).reader_limit() == old(self).reader_limit(),
            final(self).value() == old(self).value(),
            match r {
                Ok(_) => old(self).state().admits_reader() && old(self).state().readers() < old(self).reader_limit() && final(self).state() == old(self).state().after_share(),
                Err(BorrowError::BorrowConflict) => !old(self).state().admits_reader()
                    && final(self).state() == old(self).state(),
                Err(BorrowError::CountOverflow) => old(self).state().admits_reader() && old(self).state().readers() >= old(self).reader_limit() && final(self).state() == old(self).state(),
            },
    {
        if self.writer {
            Err(BorrowError::BorrowConflict)
        } else if self.readers >= self.limit {
            Err(BorrowError::CountOverflow)
        } else {
            self.readers = self.readers + 1;
            Ok(Ref { thread: ThreadBound::new() })
        }
    }

    /// Asks for the exclusive borrow, and says why not if it is refused.
    pub fn try_borrow_mut(&mut self) -> (r: Result<RefMut, BorrowError>)
        requires
            old(self).wf(),
        ensures
            final(self).wf(),
            final(self).reader_limit() == old(self).reader_limit(),
            final(self).value() == old(self).value(),
            match r {
                Ok(_) => old(self).state().admits_writer() && final(self).state() == old(self).state().after_lock(),
                Err(e) => e == BorrowError::BorrowConflict && !old(self).state().admits_writer()
                    && final(self).state() == old(self).state(),
            },
    {
        if self.writer || self.readers > 0 {
            Err(BorrowError::BorrowConflict)
        } else {
            self.writer = true;
            Ok(RefMut { thread: ThreadBound::new() })
        }
    }

    /// Takes a shared borrow that is known to be admissible.
    pub fn borrow(&mut self) -> (guard: Ref)
        requires
            old(self).wf(),
            old(self).state().admits_reader(),
            old(self).state().readers() < old(self).reader_limit(),
        ensures
            final(self).wf(),
            final(self).reader_limit() == old(self).reader_limit(),
            final(self).value() == old(self).value(),
            final(self).state() == old(self).state().after_share(),
    {
        self.readers = self.readers + 1;
        Ref { thread: ThreadBound::new() }
    }

    /// Takes the exclusive borrow that is known to be admissible.
    pub fn borrow_mut(&mut self) -> (guard: RefMut)
        requires
            old(self).wf(),
            old(self).state().admits_writer(),
        ensures
            final(self).wf(),
            final(self).reader_limit() == old(self).reader_limit(),
            final(self).value() == old(self).value(),
            final(self).state() == old(self).state().after_lock(),
    {
        self.writer = true;
        RefMut { thread: ThreadBound::new() }
    }

    /// Ends a shared borrow.
    pub fn release(&mut self, guard: Ref)
        requires
            old(self).wf(),
            old(self).state() is Shared,
        ensures
            final(self).wf(),
            final(self).reader_limit() == old(self).reader_limit(),
            final(self).value() == old(self).value(),
            final(self).state() == old(self).state().after_unshare(),
    {
        self.readers = self.readers - 1;
    }

    /// Ends the exclusive borrow.
    pub fn release_mut(&mut self, guard: RefMut)
        requires
            old(self).wf(),
            old(self).state() is Exclusive,
        ensures
            final(self).wf(),
            final(self).reader_limit() == old(self).reader_limit(),
            final(self).value() == old(self).value(),
            final(self).state() == old(self).state().after_unlock(),
    {
        self.writer = false;
    }

    /// Looks at the value while nobody writes to it.
    pub fn inspect(&self) -> (value: &T)
        requires
            !(self.state() is Exclusive),
        ensures
            *value == self.value(),
    {
        &self.value
    }

    /// Reads through a shared borrow.
    pub fn read(&self, guard: &Ref) -> (value: &T)
        requires
            self.state() is Shared,
        ensures
            *value == self.value(),
    {
        &self.value
    }

    /// Reads through the exclusive borrow.
    pub fn peek(&self, guard: &RefMut) -> (value: &T)
        requires
            self.state() is Exclusive,
        ensures
            *value == self.value(),
    {
        &self.value
    }

    /// The value itself, to be changed in place through the exclusive borrow.
    pub fn get_mut(&mut self, guard: &RefMut) -> (value: &mut T)
        requires
            old(self).wf(),
            old(self).state() is Exclusive,
        ensures
            *value == old(self).value(),
            final(self).value() == *final(value),
            final(self).state() == old(self).state(),
            final(self).reader_limit() == old(self).reader_limit(),
            final(self).wf(),
    {
        &mut self.value
    }

    /// Stores `value` through the exclusive borrow and returns what was there.
    pub fn write(&mut self, guard: &RefMut, value: T) -> (previous: T)
        requires
            old(self).wf(),
            old(self).state() is Exclusive,
        ensures
            final(self).wf(),
            final(self).reader_limit() == old(self).reader_limit(),
            previous == old(self).value(),
            final(self).value() == value,
            final(self).state() == old(self).state(),
    {
        let mut incoming = value;
        core::mem::swap(&mut self.value, &mut incoming);
        incoming
    }

    /// The value, once the cell itself is given up.
    pub fn into_inner(self) -> (value: T)
        ensures
            value == self.value(),
    {
        self.value
    }

    /// How many readers hold a borrow.
    pub fn readers(&self) -> (n: usize)
        ensures
            n == self.state().readers(),
    {
        if self.writer {
            0
        } else {
            self.readers
        }
    }

    /// Whether a writer holds the borrow.
    pub fn is_exclusive(&self) -> (b: bool)
        ensures
            b == (self.state() is Exclusive),
    {
        self.writer
    }
}

/// One request made of a cell's borrow state.
pub enum BorrowOp {
    /// A shared borrow is asked for.
    TryShare,
    /// The exclusive borrow is asked for.
    TryLock,
    /// A reader hands its borrow back.
    Unshare,
    /// The writer hands its borrow back.
    Unlock,
}

/// The request is one that may be made in state `s`: a borrow can always be
/// asked for, and is handed back only by one who holds it.
pub open spec fn permitted(s: BorrowState, op: BorrowOp) -> bool {
    match op {
        BorrowOp::TryShare | BorrowOp::TryLock => true,
        BorrowOp::Unshare => s is Shared,
        BorrowOp::Unlock => s is Exclusive,
    }
}

/// The request is granted in state `s`.
pub open spec fn granted(s: BorrowState, op: BorrowOp) -> bool {
    match op {
        BorrowOp::TryShare => s.admits_reader(),
        BorrowOp::TryLock => s.admits_writer(),
        BorrowOp::Unshare => s is Shared,
        BorrowOp::Unlock => s is Exclusive,
    }
}

/// The state after a request; a refused request changes nothing.
pub open spec fn respond(s: BorrowState, op: BorrowOp) -> BorrowState {
    if !granted(s, op) {
        s
    } else {
        match op {
            BorrowOp::TryShare => s.after_share(),
            BorrowOp::TryLock => s.after_lock(),
            BorrowOp::Unshare => s.after_unshare(),
            BorrowOp::Unlock => s.after_unlock(),
        }
    }
}

/// The state after a history of requests on a new cell, oldest first.
pub open spec fn state_after(ops: Seq<BorrowOp>) -> BorrowState
    decreases ops.len(),
{
    if ops.len() == 0 {
        BorrowState::Unshared
    } else {
        respond(state_after(ops.drop_last()), ops.last())
    }
}

/// Every borrow that the history hands back is held at that moment.
pub open spec fn orderly(ops: Seq<BorrowOp>) -> bool
    decreases ops.len(),
{
    ops.len() > 0 ==> orderly(ops.drop_last()) && permitted(
        state_after(ops.drop_last()),
        ops.last(),
    )
}

/// Readers that hold a borrow at the end of the history: those granted one
/// less those that handed theirs back.
pub open spec fn readers_out(ops: Seq<BorrowOp>) -> int
    decreases ops.len(),
{
    if ops.len() == 0 {
        0
    } else {
        let before = state_after(ops.drop_last());
        readers_out(ops.drop_last()) + match ops.last() {
            BorrowOp::TryShare => if granted(before, BorrowOp::TryShare) {
                1int
            } else {
                0int
            },
            BorrowOp::Unshare => -1int,
            _ => 0int,
        }
    }
}

/// Writers that hold the borrow at the end of the history.
pub open spec fn writers_out(ops: Seq<BorrowOp>) -> int
    decreases ops.len(),
{
    if ops.len() == 0 {
        0
    } else {
        let before = state_after(ops.drop_last());
        writers_out(ops.drop_last()) + match ops.last() {
            BorrowOp::TryLock => if granted(before, BorrowOp::TryLock) {
                1int
            } else {
                0int
            },
            BorrowOp::Unlock => -1int,
            _ => 0int,
        }
    }
}

/// While the writer holds its borrow every request for a borrow is refused;
/// once it is handed back both kinds are granted again.
pub proof fn law_writer_excludes(s: BorrowState)
    requires
        s is Exclusive,
    ensures
        !granted(s, BorrowOp::TryShare),
        !granted(s, BorrowOp::TryLock),
        respond(s, BorrowOp::TryShare) == s,
        respond(s, BorrowOp::TryLock) == s,
        granted(respond(s, BorrowOp::Unlock), BorrowOp::TryShare),
        granted(respond(s, BorrowOp::Unlock), BorrowOp::TryLock),
{
}

/// While a reader holds a borrow the exclusive borrow is refused and further
/// readers are admitted; when the only reader hands its borrow back the
/// exclusive borrow is granted.
pub proof fn law_readers_exclude_writer(s: BorrowState)
    requires
        s.wf(),
        s is Shared,
    ensures
        !granted(s, BorrowOp::TryLock),
        respond(s, BorrowOp::TryLock) == s,
        granted(s, BorrowOp::TryShare),
        respond(s, BorrowOp::Unshare).readers() == s.readers() - 1,
        s.readers() == 1 ==> granted(respond(s, BorrowOp::Unshare), BorrowOp::TryLock),
{
}

/// After any orderly history the state counts exactly the borrows that are
/// out, and these are one writer or any number of readers, never both.
pub proof fn law_one_writer_or_many_readers(ops: Seq<BorrowOp>)
    requires
        orderly(ops),
    ensures
        state_after(ops).wf(),
        readers_out(ops) == state_after(ops).readers(),
        writers_out(ops) == if state_after(ops) is Exclusive {
            1int
        } else {
            0int
        },
        !(readers_out(ops) > 0 && writers_out(ops) > 0),
    decreases ops.len(),
{
    if ops.len() > 0 {
        law_one_writer_or_many_readers(ops.drop_last());
    }
}

} // verus!
