use shared_cells::atomic::AtomicCounter;
use shared_cells::atomic_scenarios::{
    test_atomic, test_atomic_multi_thread, test_memory_barrier, test_mutex_atomic, Mailbox,
    N_THREADS, N_TIMES,
};
use shared_cells::exclusion::{Phase, Workshop};
use shared_cells::schedule::{add_n_times, count_through_handles, run_increments};

fn round_robin(threads: usize, each: usize) -> Vec<usize> {
    let mut s = Vec::new();
    for _ in 0..each {
        for t in 0..threads {
            s.push(t);
        }
    }
    s
}

fn in_blocks(threads: usize, each: usize) -> Vec<usize> {
    let mut s = Vec::new();
    for t in 0..threads {
        for _ in 0..each {
            s.push(t);
        }
    }
    s
}

// A fixed scramble: no two runs differ, and no thread is favoured.
fn scrambled(threads: usize, each: usize) -> Vec<usize> {
    let mut s = round_robin(threads, each);
    let n = s.len();
    let mut x: usize = 12345;
    for i in (1..n).rev() {
        x = x.wrapping_mul(6364136223846793005).wrapping_add(1442695040888963407);
        s.swap(i, (x >> 33) % (i + 1));
    }
    s
}

#[test]
fn add_n_times_adds_n() {
    let mut c = AtomicCounter::new(10);
    add_n_times(&mut c, 0);
    assert_eq!(c.peek(), 10);
    add_n_times(&mut c, 1000);
    assert_eq!(c.peek(), 1010);
}

#[test]
fn no_update_is_lost_under_any_schedule() {
    for schedule in [round_robin(8, 250), in_blocks(8, 250), scrambled(8, 250)] {
        let mut c = AtomicCounter::new(0);
        let found = run_increments(&mut c, &schedule);
        assert_eq!(c.peek(), 8 * 250);
        // Every increment found a value of its own.
        for (i, v) in found.iter().enumerate() {
            assert_eq!(*v, i);
        }
    }
}

#[test]
fn increments_start_from_the_value_found() {
    let mut c = AtomicCounter::new(usize::MAX - 1);
    let found = run_increments(&mut c, &vec![0, 1, 0]);
    assert_eq!(found, vec![usize::MAX - 1, usize::MAX, 0]);
    assert_eq!(c.peek(), 1);
}

#[test]
fn atomic_scenarios() {
    assert_eq!(test_atomic(), N_TIMES * N_THREADS);
    assert_eq!(test_atomic(), 100_000_000);
    assert_eq!(test_mutex_atomic(), (1, 0));
    assert_eq!(test_memory_barrier(0), Some(100));
    assert_eq!(test_memory_barrier(17), Some(100));
    assert_eq!(test_atomic_multi_thread(0), 0);
    assert_eq!(test_atomic_multi_thread(5), 5);
}

#[test]
fn mailbox_hands_the_datum_over_only_when_the_flag_is_up() {
    let mut m = Mailbox::new();
    assert_eq!(m.consumer(), None);
    m.producer();
    assert_eq!(m.consumer(), Some(100));
    assert_eq!(m.consumer(), Some(100));
    m.reset();
    assert_eq!(m.consumer(), None);
}

fn completed(shop: &Workshop, threads: usize) -> usize {
    (0..threads).map(|t| shop.rounds(t)).sum()
}

#[test]
fn locked_increments_are_all_counted() {
    // Four steps make a round, so with each thread scheduled 4 * k times in
    // blocks every thread completes k rounds.
    let mut shop = Workshop::new(5);
    shop.run(&in_blocks(5, 4 * 20));
    assert_eq!(shop.value(), 5 * 20);
    for t in 0..5 {
        assert_eq!(shop.rounds(t), 20);
        assert_eq!(shop.phase_of(t), Phase::Idle);
    }
}

#[test]
fn counter_matches_completed_rounds_under_interleaving() {
    for schedule in [round_robin(6, 400), scrambled(6, 400), scrambled(3, 1000)] {
        let threads = 6;
        let mut shop = Workshop::new(threads);
        shop.run(&schedule);
        let in_flight =
            (0..threads).filter(|t| shop.phase_of(*t) == Phase::Stored).count();
        assert!(in_flight <= 1);
        assert_eq!(shop.value(), completed(&shop, threads) + in_flight);
        let inside = (0..threads).filter(|t| shop.phase_of(*t) != Phase::Idle).count();
        assert!(inside <= 1);
    }
}

#[test]
fn a_thread_outside_waits_while_another_is_inside() {
    let mut shop = Workshop::new(2);
    shop.step(0);
    assert_eq!(shop.phase_of(0), Phase::Entered);
    shop.step(1);
    shop.step(1);
    assert_eq!(shop.phase_of(1), Phase::Idle);
    shop.step(0);
    assert_eq!(shop.phase_of(0), Phase::Loaded);
    shop.step(0);
    assert_eq!(shop.phase_of(0), Phase::Stored);
    assert_eq!(shop.value(), 1);
    assert_eq!(shop.rounds(0), 0);
    shop.step(0);
    assert_eq!(shop.rounds(0), 1);
    shop.step(1);
    assert_eq!(shop.phase_of(1), Phase::Entered);
    // A thread that the workshop does not have makes no step.
    shop.step(9);
    assert_eq!(shop.value(), 1);
}

#[test]
fn no_update_through_a_handle_is_lost() {
    assert_eq!(count_through_handles(8, &round_robin(8, 250)), 2000);
    assert_eq!(count_through_handles(8, &in_blocks(8, 250)), 2000);
    assert_eq!(count_through_handles(8, &scrambled(8, 250)), 2000);
    assert_eq!(count_through_handles(1, &vec![0, 0, 0]), 3);
    assert_eq!(count_through_handles(0, &vec![]), 0);
}

#[test]
fn a_turn_that_names_no_thread_is_skipped() {
    assert_eq!(count_through_handles(2, &vec![0, 5, 1, 2, 1]), 3);
    assert_eq!(count_through_handles(0, &vec![0, 1]), 0);
}

#[test]
fn workshop_reports_who_is_inside() {
    let mut shop = Workshop::new(3);
    assert_eq!(shop.threads(), 3);
    assert_eq!(shop.inside(), None);
    shop.step(2);
    assert_eq!(shop.inside(), Some(2));
    shop.run(&vec![2, 2, 2]);
    assert_eq!(shop.inside(), None);
    assert_eq!(shop.value(), 1);
}
