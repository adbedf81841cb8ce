//! Locks and condition variables at work: short programs in which the steps
//! of the threads are written out in one order, each returning what it
//! observed.
use crate::exclusion::{Phase, Workshop};
use crate::lock::{Acquire, Condvar, Lock, ThreadId, TryLockError};
use crate::refcell::RefCell;
use vstd::prelude::*;

verus! {

/// One thread locks a value, changes it and releases the lock. Returns the
/// value.
pub fn test_mutex_single_thread() -> (value: i32)
    ensures
        value == 6,
{
    let mut m = Lock::new(5i32);
    match m.acquire(0) {
        Acquire::Acquired(num) => {
            let _ = m.set(&num, 6);
            let _ = m.release(num);
        },
        _ => {},
    }
    m.peek()
}

/// One thread asks for a lock that it already holds: it is put to sleep, and
/// nobody is left to wake it. Returns the value as the first acquisition left
/// it, and whether the second request blocked.
pub fn test_dead_lock() -> (seen: (i32, bool))
    ensures
        seen == (6i32, true),
{
    let mut m = Lock::new(5i32);
    match m.acquire(0) {
        Acquire::Acquired(num) => {
            let _ = m.set(&num, 6);
            let blocked = match m.acquire(0) {
                Acquire::Blocked => true,
                Acquire::Acquired(num1) => {
                    let _ = m.set(&num1, 7);
                    false
                },
                Acquire::LockPoisoned => false,
            };
            (*m.get(&num), blocked)
        },
        _ => (m.peek(), false),
    }
}

/// Ten threads each add one to a counter under a lock, one thread after the
/// other. Returns the counter.
pub fn test_mutex_multi_thread() -> (total: usize)
    ensures
        total == 10,
{
    let mut shop = Workshop::new(10);
    let mut t: usize = 0;
    while t < 10
        invariant
            t <= 10,
            shop.wf(),
            shop@.phases.len() == 10,
            shop@.steps == 4 * t,
            shop@.counter == t,
            shop@.inside is None,
            forall|u: int| 0 <= u < 10 ==> #[trigger] shop@.phases[u] == Phase::Idle,
        decreases 10 - t,
    {
        shop.step(t);
        shop.step(t);
        shop.step(t);
        shop.step(t);
        t = t + 1;
    }
    shop.value()
}

/// Whether a thread that asks for a lock twice in a row blocks on the second
/// request.
pub fn test_deadlock_single_thread() -> (blocked: bool)
    ensures
        blocked,
{
    let mut data = Lock::new(0i32);
    let d1 = data.acquire(0);
    let d2 = data.acquire(0);
    match d2 {
        Acquire::Blocked => true,
        _ => false,
    }
}

/// Two threads take two locks in opposite order: the first takes the one,
/// the second the other, then each asks for the lock that the other holds.
/// Returns whether both ended up asleep.
pub fn test_deadlock_multi_thread() -> (deadlocked: bool)
    ensures
        deadlocked,
{
    let mut mutex1 = Lock::new(0i64);
    let mut mutex2 = Lock::new(0i64);
    let first = mutex1.acquire(0);
    let second = mutex2.acquire(1);
    let first_waits = match mutex2.acquire(0) {
        Acquire::Blocked => true,
        _ => false,
    };
    let second_waits = match mutex1.acquire(1) {
        Acquire::Blocked => true,
        _ => false,
    };
    first_waits && second_waits
}

/// As [`test_deadlock_multi_thread`], but each thread asks for its second
/// lock without waiting. Returns how the two requests were answered; both
/// threads go on and release what they hold.
pub fn test_try_lock() -> (answers: (Option<TryLockError>, Option<TryLockError>))
    ensures
        answers == (Some(TryLockError::WouldBlock), Some(TryLockError::WouldBlock)),
{
    let mut mutex1 = Lock::new(0i64);
    let mut mutex2 = Lock::new(0i64);
    let held1 = mutex1.try_acquire(0).unwrap();
    let held2 = mutex2.try_acquire(1).unwrap();
    let first = match mutex2.try_acquire(0) {
        Ok(guard) => {
            let _ = mutex2.release(guard);
            None
        },
        Err(e) => Some(e),
    };
    let second = match mutex1.try_acquire(1) {
        Ok(guard) => {
            let _ = mutex1.release(guard);
            None
        },
        Err(e) => Some(e),
    };
    let _ = mutex1.release(held1);
    let _ = mutex2.release(held2);
    (first, second)
}

/// Two readers at once, then one writer alone. Returns what each reader saw
/// and what the writer left.
pub fn test_rw_lock() -> (seen: (i32, i32, i32))
    ensures
        seen == (5i32, 5i32, 6i32),
{
    let mut lock = RefCell::new(5i32);
    let r1 = lock.borrow();
    let r2 = lock.borrow();
    let one = *lock.read(&r1);
    let two = *lock.read(&r2);
    lock.release(r1);
    lock.release(r2);
    let w = lock.borrow_mut();
    let before = *lock.peek(&w);
    let _ = lock.write(&w, before + 1);
    let after = *lock.peek(&w);
    lock.release_mut(w);
    (one, two, after)
}

/// Who reports a count in [`test_condvar`].
#[derive(Clone, Copy, Debug, PartialEq, Eq, Structural)]
pub enum Speaker {
    /// The thread that waits for the flag.
    Inner,
    /// The thread that raises the flag.
    Outside,
}

/// What has been reported after `n` rounds: in each round the count of the
/// thread that raises the flag, then that of the thread that waited.
pub open spec fn rounds(n: nat) -> Seq<(Speaker, i32)>
    decreases n,
{
    if n == 0 {
        Seq::empty()
    } else {
        rounds((n - 1) as nat).push((Speaker::Outside, n as i32)).push((Speaker::Inner, n as i32))
    }
}

/// One thread raises a flag under a lock and notifies; another waits for the
/// flag, lowers it and counts. After three rounds the first raises the flag
/// once more and stops without notifying.
///
/// Returns the counts in the order in which they were reported, and the flag
/// at the end.
pub fn test_condvar() -> (report: (Vec<(Speaker, i32)>, bool))
    ensures
        report.0@ == rounds(3),
        report.1,
{
    let main: ThreadId = 0;
    let waiter: ThreadId = 1;
    let mut lines: Vec<(Speaker, i32)> = Vec::new();
    let mut flag = Lock::new(false);
    let mut cond = Condvar::new();

    // The waiter starts: it finds the flag down and goes to sleep.
    let mut inner: i32 = 0;
    match flag.acquire(waiter) {
        Acquire::Acquired(guard) => {
            let _ = cond.wait(&mut flag, guard);
        },
        _ => {},
    }
    let mut outside: i32 = 0;
    while outside < 3
        invariant
            0 <= outside <= 3,
            inner == outside,
            flag.wf(),
            !flag.poisoned(),
            flag.holder() is None,
            flag.waiting().len() == 0,
            !flag.value(),
            cond@ == if inner < 3 {
                seq![1usize]
            } else {
                Seq::<ThreadId>::empty()
            },
            main == 0,
            waiter == 1,
            lines@ == rounds(outside as nat),
        decreases 3 - outside,
    {
        // The main thread raises the flag, reports and notifies.
        match flag.acquire(main) {
            Acquire::Acquired(guard) => {
                let _ = flag.set(&guard, true);
                let _ = flag.release(guard);
            },
            _ => {},
        }
        outside = outside + 1;
        lines.push((Speaker::Outside, outside));
        let woken = cond.notify_one();
        // The waiter wakes, takes the lock again and looks at the flag.
        match flag.acquire(waiter) {
            Acquire::Acquired(guard) => {
                if *flag.get(&guard) {
                    let _ = flag.set(&guard, false);
                    inner = inner + 1;
                    lines.push((Speaker::Inner, inner));
                }
                if inner < 3 {
                    let _ = cond.wait(&mut flag, guard);
                } else {
                    let _ = flag.release(guard);
                }
            },
            _ => {},
        }
    }
    match flag.acquire(main) {
        Acquire::Acquired(guard) => {
            let _ = flag.set(&guard, true);
            let _ = flag.release(guard);
        },
        _ => {},
    }
    (lines, flag.peek())
}

/// One thread waits under a lock until a flag is raised; another raises it
/// and notifies. Returns the flag as the waiting thread finds it in the end,
/// and whether it had to sleep, given which of the two took the lock first.
pub fn test_condition(child_first: bool) -> (seen: (bool, bool))
    ensures
        seen == (true, !child_first),
{
    let main: ThreadId = 0;
    let child: ThreadId = 1;
    let mut lock = Lock::new(false);
    let mut cvar = Condvar::new();
    let mut slept = false;
    if !child_first {
        // The main thread finds the flag down and goes to sleep.
        match lock.acquire(main) {
            Acquire::Acquired(started) => {
                if !*lock.get(&started) {
                    let _ = cvar.wait(&mut lock, started);
                    slept = true;
                } else {
                    let _ = lock.release(started);
                }
            },
            _ => {},
        }
    }
    // The child raises the flag and notifies whoever sleeps.
    match lock.acquire(child) {
        Acquire::Acquired(started) => {
            let _ = lock.set(&started, true);
            let _ = cvar.notify_one();
            let _ = lock.release(started);
        },
        _ => {},
    }
    // The main thread takes the lock, for the first time or again, and looks
    // at the flag.
    let started = match lock.acquire(main) {
        Acquire::Acquired(guard) => {
            let flag = *lock.get(&guard);
            let _ = lock.release(guard);
            flag
        },
        _ => false,
    };
    (started, slept)
}

} // verus!
