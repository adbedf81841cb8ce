use shared_cells::atomic::AtomicCounter;
use shared_cells::globals::{
    checked_generate_id, count_requests, generate_id, init, test_lazy_static, test_once, Factory,
    Logger, MAX_ID,
};
use shared_cells::once::OnceSlot;
use shared_cells::slices::{checked_split_at_mut, first, split_at_mut};

#[test]
fn slot_is_filled_once() {
    let mut slot: OnceSlot<u32> = OnceSlot::new();
    assert!(!slot.is_initialized());
    assert_eq!(slot.get(), None);
    assert_eq!(slot.set(1), Ok(()));
    assert_eq!(slot.set(2), Err(2));
    assert_eq!(slot.get(), Some(&1));
    assert!(slot.is_initialized());
    assert_eq!(slot.take(), Some(1));
    assert_eq!(slot.get(), None);
}

#[test]
fn init_runs_on_first_use_only() {
    let mut slot: OnceSlot<String> = OnceSlot::new();
    let mut calls = 0;
    assert_eq!(
        slot.get_or_init(|| {
            calls += 1;
            String::from("first")
        }),
        "first"
    );
    assert_eq!(
        slot.get_or_init(|| {
            calls += 1;
            String::from("second")
        }),
        "first"
    );
    assert_eq!(calls, 1);
    assert!(!slot.fill_with(|| String::from("third")));
    assert_eq!(slot.get().unwrap(), "first");
    let mut other: OnceSlot<u8> = OnceSlot::new();
    assert!(other.fill_with(|| 4));
    assert_eq!(other.get(), Some(&4));
}

#[test]
fn whoever_comes_first_initialises() {
    assert_eq!(test_once(true), 1);
    assert_eq!(test_once(false), 2);
}

#[test]
fn logger_is_created_on_first_request() {
    let mut slot: OnceSlot<Logger> = OnceSlot::new();
    assert!(Logger::global(&mut slot));
    assert!(!Logger::global(&mut slot));
    assert!(!Logger::global(&mut slot));
    let logger = slot.get().unwrap();
    assert_eq!(logger.log(String::from("some message")), "some message");
}

#[test]
fn identifiers_count_up_from_one() {
    let mut counter = AtomicCounter::new(0);
    assert_eq!(generate_id(&mut counter), 1);
    assert_eq!(generate_id(&mut counter), 2);
    assert_eq!(Factory::new(&mut counter).factory_id, 3);
    assert_eq!(checked_generate_id(&mut counter), Some(4));
    assert_eq!(counter.peek(), 4);
}

#[test]
fn identifiers_run_out_at_the_limit() {
    assert_eq!(MAX_ID, usize::MAX / 2);
    let mut counter = AtomicCounter::new(MAX_ID - 1);
    assert_eq!(checked_generate_id(&mut counter), Some(MAX_ID));
    assert_eq!(checked_generate_id(&mut counter), None);
    assert_eq!(counter.peek(), MAX_ID);
    let mut beyond = AtomicCounter::new(MAX_ID + 5);
    assert_eq!(checked_generate_id(&mut beyond), None);
    assert_eq!(beyond.peek(), MAX_ID + 5);
}

#[test]
fn global_scenarios() {
    assert_eq!(count_requests(), 100);
    assert_eq!(test_lazy_static(), "Sunface, Jack, Allen, Myth");
    let settings = init().unwrap();
    assert_eq!(settings.a, "A");
    assert_eq!(settings.b, "B");
}

#[test]
fn split_gives_two_writable_halves() {
    let mut v = vec![1, 2, 3, 4, 5, 6];
    let r = &mut v[..];
    let (a, b) = split_at_mut(r, 3);
    assert_eq!(a, &mut [1, 2, 3]);
    assert_eq!(b, &mut [4, 5, 6]);
    a[0] = 10;
    b[2] = 60;
    assert_eq!(v, vec![10, 2, 3, 4, 5, 60]);
}

#[test]
fn split_at_the_ends() {
    let mut v = vec![7, 8];
    {
        let (a, b) = split_at_mut(&mut v, 0);
        assert!(a.is_empty());
        assert_eq!(b, &mut [7, 8]);
    }
    {
        let (a, b) = split_at_mut(&mut v, 2);
        assert_eq!(a, &mut [7, 8]);
        assert!(b.is_empty());
    }
    assert!(checked_split_at_mut(&mut v, 3).is_none());
    let (a, b) = checked_split_at_mut(&mut v, 1).unwrap();
    assert_eq!((a.len(), b.len()), (1, 1));
}

#[test]
fn first_of_a_slice() {
    assert_eq!(first(&[4, 5]), Some(&4));
    assert_eq!(first(&[]), None);
}
