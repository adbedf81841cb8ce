use shared_cells::lock::{Acquire, Condvar, Guard, Lock, TryLockError};
use shared_cells::sync_scenarios::{
    test_condition, test_condvar, test_dead_lock, test_deadlock_multi_thread,
    test_deadlock_single_thread, test_mutex_multi_thread, test_mutex_single_thread, test_rw_lock,
    test_try_lock, Speaker,
};

fn acquired(a: Acquire) -> Guard {
    match a {
        Acquire::Acquired(g) => g,
        _ => panic!("the lock was expected to be free"),
    }
}

#[test]
fn acquire_and_release() {
    let mut lock = Lock::new(1u32);
    assert!(!lock.is_held());
    let g = acquired(lock.acquire(7));
    assert_eq!(g.thread(), 7);
    assert!(lock.is_held());
    assert_eq!(*lock.get(&g), 1);
    assert_eq!(lock.set(&g, 2), 1);
    assert_eq!(lock.release(g), None);
    assert!(!lock.is_held());
    assert_eq!(lock.peek(), 2);
    assert_eq!(lock.into_inner(), 2);
}

#[test]
fn waiters_are_woken_one_at_a_time_longest_first() {
    let mut lock = Lock::new(());
    let g = acquired(lock.acquire(1));
    assert!(matches!(lock.acquire(2), Acquire::Blocked));
    assert!(matches!(lock.acquire(3), Acquire::Blocked));
    assert_eq!(lock.waiters(), 2);
    assert_eq!(lock.release(g), Some(2));
    assert_eq!(lock.waiters(), 1);
    let g = acquired(lock.acquire(2));
    assert_eq!(lock.release(g), Some(3));
    let g = acquired(lock.acquire(3));
    assert_eq!(lock.release(g), None);
    assert_eq!(lock.waiters(), 0);
}

#[test]
fn try_acquire_does_not_wait() {
    let mut lock = Lock::new(0u8);
    let g = lock.try_acquire(1).unwrap();
    assert!(matches!(lock.try_acquire(2), Err(TryLockError::WouldBlock)));
    assert_eq!(lock.waiters(), 0);
    assert_eq!(lock.release(g), None);
    let g = lock.try_acquire(2).unwrap();
    assert_eq!(g.thread(), 2);
    assert_eq!(lock.release(g), None);
}

#[test]
fn poison_is_reported_until_it_is_cleared() {
    let mut lock = Lock::new(5i32);
    let g = acquired(lock.acquire(1));
    assert!(matches!(lock.acquire(2), Acquire::Blocked));
    lock.set(&g, 6);
    assert_eq!(lock.abandon(g), Some(2));
    assert!(lock.is_poisoned());
    assert!(!lock.is_held());
    assert!(matches!(lock.acquire(2), Acquire::LockPoisoned));
    assert!(matches!(lock.acquire(3), Acquire::LockPoisoned));
    assert!(matches!(lock.try_acquire(3), Err(TryLockError::LockPoisoned)));
    lock.clear_poison();
    assert!(!lock.is_poisoned());
    let g = acquired(lock.acquire(3));
    assert_eq!(*lock.get(&g), 6);
    assert_eq!(lock.release(g), None);
}

#[test]
fn wait_releases_the_lock_and_notify_wakes_in_order() {
    let mut lock = Lock::new(false);
    let mut cv = Condvar::new();
    let g = acquired(lock.acquire(1));
    assert!(matches!(lock.acquire(9), Acquire::Blocked));
    assert_eq!(cv.wait(&mut lock, g), Some(9));
    assert!(!lock.is_held());
    let g = acquired(lock.acquire(2));
    assert_eq!(cv.wait(&mut lock, g), None);
    assert_eq!(cv.notify_one(), Some(1));
    assert_eq!(cv.notify_one(), Some(2));
    // A notification with nobody waiting is lost.
    assert_eq!(cv.notify_one(), None);
    let g = acquired(lock.acquire(1));
    assert_eq!(cv.wait(&mut lock, g), None);
    assert_eq!(cv.notify_one(), Some(1));
}

#[test]
fn notify_all_wakes_everybody() {
    let mut lock = Lock::new(0u8);
    let mut cv = Condvar::new();
    for t in [4usize, 5, 6] {
        let g = acquired(lock.acquire(t));
        cv.wait(&mut lock, g);
    }
    assert_eq!(cv.notify_all(), vec![4, 5, 6]);
    assert_eq!(cv.notify_all(), Vec::<usize>::new());
    assert_eq!(cv.notify_one(), None);
}

#[test]
fn lock_scenarios() {
    assert_eq!(test_mutex_single_thread(), 6);
    assert_eq!(test_dead_lock(), (6, true));
    assert_eq!(test_mutex_multi_thread(), 10);
    assert!(test_deadlock_single_thread());
    assert!(test_deadlock_multi_thread());
    assert_eq!(
        test_try_lock(),
        (Some(TryLockError::WouldBlock), Some(TryLockError::WouldBlock))
    );
    assert_eq!(test_rw_lock(), (5, 5, 6));
}

#[test]
fn condvar_scenario() {
    let (lines, flag) = test_condvar();
    assert_eq!(
        lines,
        vec![
            (Speaker::Outside, 1),
            (Speaker::Inner, 1),
            (Speaker::Outside, 2),
            (Speaker::Inner, 2),
            (Speaker::Outside, 3),
            (Speaker::Inner, 3),
        ]
    );
    assert!(flag);
}

#[test]
fn condition_scenario() {
    assert_eq!(test_condition(true), (true, false));
    assert_eq!(test_condition(false), (true, true));
}
