//! Atomic counters and flags at work: short programs in which the steps of
//! the threads are written out in one order, each returning what it
//! observed.
use crate::atomic::{AtomicCounter, MemOrder};
use crate::lock::{Acquire, Lock};
use crate::schedule::add_n_times;
use vstd::prelude::*;

verus! {

/// How often each thread increments the counter in [`test_atomic`].
pub const N_TIMES: usize = 10000000;

/// How many threads increment the counter in [`test_atomic`].
pub const N_THREADS: usize = 10;

/// Each of [`N_THREADS`] threads adds one to a shared counter [`N_TIMES`]
/// times. Returns the counter.
pub fn test_atomic() -> (total: usize)
    ensures
        total == N_TIMES * N_THREADS,
{
    let mut r = AtomicCounter::new(0);
    let mut t: usize = 0;
    while t < N_THREADS
        invariant
            t <= N_THREADS,
            r@ == t * N_TIMES,
        decreases N_THREADS - t,
    {
        add_n_times(&mut r, N_TIMES);
        t = t + 1;
    }
    r.load(MemOrder::Relaxed)
}

/// A count kept behind a lock.
pub struct Counter {
    pub count: u64,
}

/// Adds one to a count behind a lock, and nothing to an atomic counter.
/// Returns the count, and what the atomic counter held before.
pub fn test_mutex_atomic() -> (seen: (u64, usize))
    ensures
        seen == (1u64, 0usize),
{
    let mut n = Lock::new(Counter { count: 0 });
    let count = match n.acquire(0) {
        Acquire::Acquired(guard) => {
            let next = n.get(&guard).count + 1;
            let _ = n.set(&guard, Counter { count: next });
            let _ = n.release(guard);
            next
        },
        _ => 0,
    };
    let mut n = AtomicCounter::new(0);
    let before = n.fetch_add(0, MemOrder::Relaxed);
    (count, before)
}

/// A datum that one thread writes, and a flag by which it tells another that
/// the datum is there.
pub struct Mailbox {
    data: u64,
    ready: AtomicCounter,
}

impl Mailbox {
    /// The datum.
    pub closed spec fn data(&self) -> u64 {
        self.data
    }

    /// Whether the flag is up.
    pub closed spec fn ready(&self) -> bool {
        self.ready@ != 0
    }

    /// While the flag is up the datum is the one that was sent.
    pub open spec fn wf(&self) -> bool {
        self.ready() ==> self.data() == 100
    }

    /// A mailbox with the flag down.
    pub fn new() -> (mailbox: Mailbox)
        ensures
            mailbox.wf(),
            !mailbox.ready(),
            mailbox.data() == 0,
    {
        Mailbox { data: 0, ready: AtomicCounter::new(0) }
    }

    /// Clears the datum and lowers the flag.
    pub fn reset(&mut self)
        ensures
            final(self).wf(),
            !final(self).ready(),
            final(self).data() == 0,
    {
        self.data = 0;
        self.ready.store(0, MemOrder::Relaxed);
    }

    /// Writes the datum, then raises the flag with a release, so that whoever
    /// sees the flag up also sees the datum.
    pub fn producer(&mut self)
        ensures
            final(self).wf(),
            final(self).ready(),
            final(self).data() == 100,
    {
        self.data = 100;
        self.ready.store(1, MemOrder::Release);
    }

    /// Looks once at the flag, with an acquire, and reads the datum if the
    /// flag is up.
    pub fn consumer(&mut self) -> (seen: Option<u64>)
        requires
            old(self).wf(),
        ensures
            final(self).wf(),
            final(self).ready() == old(self).ready(),
            final(self).data() == old(self).data(),
            seen == if old(self).ready() {
                Some(100u64)
            } else {
                None
            },
    {
        if self.ready.load(MemOrder::Acquire) != 0 {
            Some(self.data)
        } else {
            None
        }
    }
}

/// One round of sending a datum from one thread to another: the receiver
/// looks `polls` times before the sender has run, and once after. Returns
/// what the receiver read in the end.
pub fn test_memory_barrier(polls: usize) -> (seen: Option<u64>)
    ensures
        seen == Some(100u64),
{
    let mut mailbox = Mailbox::new();
    mailbox.reset();
    let mut i: usize = 0;
    while i < polls
        invariant
            mailbox.wf(),
            !mailbox.ready(),
        decreases polls - i,
    {
        let early = mailbox.consumer();
        i = i + 1;
    }
    mailbox.producer();
    mailbox.consumer()
}

/// A thread spins on a flag until another thread lowers it. The spinner
/// looks `spins` times before the other thread runs. Returns how many times
/// it found the flag still up.
pub fn test_atomic_multi_thread(spins: usize) -> (waited: usize)
    ensures
        waited == spins,
{
    let mut spinlock = AtomicCounter::new(1);
    let mut waited: usize = 0;
    let mut held = true;
    let mut i: usize = 0;
    while i < spins
        invariant
            i <= spins,
            waited == i,
            spinlock@ == 1,
        decreases spins - i,
    {
        if spinlock.load(MemOrder::SeqCst) != 0 {
            waited = waited + 1;
        }
        i = i + 1;
    }
    spinlock.store(0, MemOrder::SeqCst);
    if spinlock.load(MemOrder::SeqCst) != 0 {
        waited = waited + 1;
    }
    waited
}

} // verus!
