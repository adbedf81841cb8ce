//! Exclusive access to one value for many threads, and waiting on a
//! condition.
//!
//! Blocking is the host's work. The lock decides: each request returns what
//! the calling thread has to do next, and each release names the thread that
//! the host has to wake.
use vstd::prelude::*;

verus! {

/// Names a thread of the host.
pub type ThreadId = usize;

/// Proof that a thread holds the lock; handed back to release it.
pub struct Guard {
    owner: ThreadId,
}

impl Guard {
    /// The thread that holds the lock through this guard.
    pub closed spec fn owner(&self) -> ThreadId {
        self.owner
    }

    /// The thread that holds the lock through this guard.
    pub fn thread(&self) -> (thread: ThreadId)
        ensures
            thread == self.owner(),
    {
        self.owner
    }
}

/// What a thread that asked for the lock has to do next.
pub enum Acquire {
    /// The lock was free and is now held by the asking thread.
    Acquired(Guard),
    /// The lock is held: the thread has joined the wait queue and sleeps
    /// until it is woken, then asks again.
    Blocked,
    /// A holder ended abnormally: the value may be inconsistent.
    LockPoisoned,
}

/// Why a request that does not wait was refused.
#[derive(Clone, Copy, Debug, PartialEq, Eq, Structural)]
pub enum TryLockError {
    /// The lock is held by some thread.
    WouldBlock,
    /// A holder ended abnormally: the value may be inconsistent.
    LockPoisoned,
}

/// The thread to wake when waiters are woken one at a time: the one that has
/// waited longest.
pub open spec fn next_waiter(waiting: Seq<ThreadId>) -> Option<ThreadId> {
    if waiting.len() > 0 {
        Some(waiting[0])
    } else {
        None
    }
}

/// The waiters once the one that has waited longest, if any, has been woken.
pub open spec fn after_wake(waiting: Seq<ThreadId>) -> Seq<ThreadId> {
    if waiting.len() > 0 {
        waiting.subrange(1, waiting.len() as int)
    } else {
        waiting
    }
}

/// A value that one thread at a time may reach.
pub struct Lock<T> {
    value: T,
    holder: Option<ThreadId>,
    poisoned: bool,
    queue: Vec<ThreadId>,
}

impl<T> Lock<T> {
    /// The protected value.
    pub closed spec fn value(&self) -> T {
        self.value
    }

    /// The thread that holds the lock, if it is held.
    pub closed spec fn holder(&self) -> Option<ThreadId> {
        self.holder
    }

    /// Whether a holder has ended abnormally since the lock was last cleared.
    pub closed spec fn poisoned(&self) -> bool {
        self.poisoned
    }

    /// The threads that sleep until the lock is released, longest first.
    pub closed spec fn waiting(&self) -> Seq<ThreadId> {
        self.queue@
    }

    /// The guard is the one under which the lock is held.
    pub open spec fn held_by(&self, guard: &Guard) -> bool {
        self.holder() == Some(guard.owner())
    }

    /// A poisoned lock is free: nobody can have acquired it since.
    pub open spec fn wf(&self) -> bool {
        self.poisoned() ==> self.holder() is None
    }

    pub fn new(value: T) -> (lock: Lock<T>)
        ensures
            lock.wf(),
            lock.value() == value,
            lock.holder() is None,
            !lock.poisoned(),
            lock.waiting() == Seq::<ThreadId>::empty(),
    {
        Lock { value, holder: None, poisoned: false, queue: Vec::new() }
    }

    /// `thread` asks for the lock and is ready to wait for it.
    pub fn acquire(&mut self, thread: ThreadId) -> (r: Acquire)
        requires
            old(self).wf(),
        ensures
            final(self).wf(),
            final(self).value() == old(self).value(),
            final(self).poisoned() == old(self).poisoned(),
            match r {
                Acquire::LockPoisoned => old(self).poisoned() && final(self).holder() == old(self).holder() && final(self).waiting() == old(self).waiting(),
                Acquire::Acquired(guard) => !old(self).poisoned() && old(self).holder() is None
                    && guard.owner() == thread && final(self).holder() == Some(thread) && final(self).waiting() == old(self).waiting(),
                Acquire::Blocked => !old(self).poisoned() && old(self).holder() is Some && final(self).holder() == old(self).holder() && final(self).waiting() == old(self).waiting().push(thread),
            },
    {
        if self.poisoned {
            Acquire::LockPoisoned
        } else if self.holder.is_none() {
            self.holder = Some(thread);
            Acquire::Acquired(Guard { owner: thread })
        } else {
            self.queue.push(thread);
            Acquire::Blocked
        }
    }

    /// `thread` asks for the lock and will not wait for it.
    pub fn try_acquire(&mut self, thread: ThreadId) -> (r: Result<Guard, TryLockError>)
        requires
            old(self).wf(),
        ensures
            final(self).wf(),
            final(self).value() == old(self).value(),
            final(self).poisoned() == old(self).poisoned(),
            final(self).waiting() == old(self).waiting(),
            match r {
                Ok(guard) => !old(self).poisoned() && old(self).holder() is None && guard.owner()
                    == thread && final(self).holder() == Some(thread),
                Err(TryLockError::LockPoisoned) => old(self).poisoned() && final(self).holder()
                    == old(self).holder(),
                Err(TryLockError::WouldBlock) => !old(self).poisoned() && old(self).holder() is Some
                    && final(self).holder() == old(self).holder(),
            },
    {
        if self.poisoned {
            Err(TryLockError::LockPoisoned)
        } else if self.holder.is_none() {
            self.holder = Some(thread);
            Ok(Guard { owner: thread })
        } else {
            Err(TryLockError::WouldBlock)
        }
    }

    fn wake_one(&mut self) -> (woken: Option<ThreadId>)
        ensures
            woken == next_waiter(old(self).waiting()),
            final(self).waiting() == after_wake(old(self).waiting()),
            final(self).value() == old(self).value(),
            final(self).holder() == old(self).holder(),
            final(self).poisoned() == old(self).poisoned(),
    {
        if self.queue.len() > 0 {
            let first = self.queue.remove(0);
            assert(self.queue@ =~= old(self).queue@.subrange(1, old(self).queue@.len() as int));
            Some(first)
        } else {
            None
        }
    }

    /// Releases the lock and names the one waiter that is to be woken.
    pub fn release(&mut self, guard: Guard) -> (woken: Option<ThreadId>)
        requires
            old(self).wf(),
            old(self).held_by(&guard),
        ensures
            final(self).wf(),
            final(self).holder() is None,
            final(self).value() == old(self).value(),
            final(self).poisoned() == old(self).poisoned(),
            woken == next_waiter(old(self).waiting()),
            final(self).waiting() == after_wake(old(self).waiting()),
    {
        self.holder = None;
        self.wake_one()
    }

    /// The holder ended abnormally: the lock is released and poisoned.
    pub fn abandon(&mut self, guard: Guard) -> (woken: Option<ThreadId>)
        requires
            old(self).wf(),
            old(self).held_by(&guard),
        ensures
            final(self).wf(),
            final(self).holder() is None,
            final(self).poisoned(),
            final(self).value() == old(self).value(),
            woken == next_waiter(old(self).waiting()),
            final(self).waiting() == after_wake(old(self).waiting()),
    {
        self.holder = None;
        self.poisoned = true;
        self.wake_one()
    }

    /// Declares the value consistent again.
    pub fn clear_poison(&mut self)
        requires
            old(self).wf(),
        ensures
            final(self).wf(),
            !final(self).poisoned(),
            final(self).value() == old(self).value(),
            final(self).holder() == old(self).holder(),
            final(self).waiting() == old(self).waiting(),
    {
        self.poisoned = false;
    }

    /// Whether a holder has ended abnormally since the lock was last cleared.
    pub fn is_poisoned(&self) -> (b: bool)
        ensures
            b == self.poisoned(),
    {
        self.poisoned
    }

    /// Whether some thread holds the lock.
    pub fn is_held(&self) -> (b: bool)
        ensures
            b == (self.holder() is Some),
    {
        self.holder.is_some()
    }

    /// The thread that holds the lock, if it is held.
    pub fn holder_id(&self) -> (holder: Option<ThreadId>)
        ensures
            holder == self.holder(),
    {
        self.holder
    }

    /// How many threads sleep until the lock is released.
    pub fn waiters(&self) -> (n: usize)
        ensures
            n == self.waiting().len(),
    {
        self.queue.len()
    }

    /// A copy of the value, taken without the lock by one who knows that no
    /// holder is writing.
    pub fn peek(&self) -> (value: T) where T: Copy
        ensures
            value == self.value(),
    {
        self.value
    }

    /// The value, once the lock itself is given up.
    pub fn into_inner(self) -> (value: T)
        ensures
            value == self.value(),
    {
        self.value
    }

    /// Reads the value under the guard.
    pub fn get(&self, guard: &Guard) -> (value: &T)
        requires
            self.held_by(guard),
        ensures
            *value == self.value(),
    {
        &self.value
    }

    /// Stores `value` under the guard and returns what was there.
    pub fn set(&mut self, guard: &Guard, value: T) -> (previous: T)
        requires
            old(self).wf(),
            old(self).held_by(guard),
        ensures
            final(self).wf(),
            previous == old(self).value(),
            final(self).value() == value,
            final(self).holder() == old(self).holder(),
            final(self).poisoned() == old(self).poisoned(),
            final(self).waiting() == old(self).waiting(),
    {
        let mut incoming = value;
        core::mem::swap(&mut self.value, &mut incoming);
        incoming
    }
}

/// Threads that sleep until a condition is announced.
pub struct Condvar {
    sleepers: Vec<ThreadId>,
}

impl Condvar {
    /// The threads that wait for a notification, longest first.
    pub closed spec fn view(&self) -> Seq<ThreadId> {
        self.sleepers@
    }

    pub fn new() -> (cv: Condvar)
        ensures
            cv@ == Seq::<ThreadId>::empty(),
    {
        Condvar { sleepers: Vec::new() }
    }

    /// The holder gives the lock up and goes to sleep until it is notified.
    /// Names the thread that the release wakes. Once notified, the sleeper
    /// asks for the lock again and then looks at its condition anew.
    pub fn wait<T>(&mut self, lock: &mut Lock<T>, guard: Guard) -> (woken: Option<ThreadId>)
        requires
            old(lock).wf(),
            old(lock).held_by(&guard),
        ensures
            final(self)@ == old(self)@.push(guard.owner()),
            final(lock).wf(),
            final(lock).holder() is None,
            final(lock).value() == old(lock).value(),
            final(lock).poisoned() == old(lock).poisoned(),
            woken == next_waiter(old(lock).waiting()),
            final(lock).waiting() == after_wake(old(lock).waiting()),
    {
        self.sleepers.push(guard.thread());
        lock.release(guard)
    }

    /// Wakes the thread that has waited longest. With nobody waiting the
    /// notification is lost.
    pub fn notify_one(&mut self) -> (woken: Option<ThreadId>)
        ensures
            woken == next_waiter(old(self)@),
            final(self)@ == after_wake(old(self)@),
    {
        if self.sleepers.len() > 0 {
            let first = self.sleepers.remove(0);
            assert(self.sleepers@ =~= old(self).sleepers@.subrange(
                1,
                old(self).sleepers@.len() as int,
            ));
            Some(first)
        } else {
            None
        }
    }

    /// Wakes every waiting thread.
    pub fn notify_all(&mut self) -> (woken: Vec<ThreadId>)
        ensures
            woken@ == old(self)@,
            final(self)@ == Seq::<ThreadId>::empty(),
    {
        let mut woken: Vec<ThreadId> = Vec::new();
        core::mem::swap(&mut self.sleepers, &mut woken);
        woken
    }
}

} // verus!
