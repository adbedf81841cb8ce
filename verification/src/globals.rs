//! State that a whole program shares: counters, an identifier source, and
//! values that are made when they are first asked for.
use crate::atomic::{AtomicCounter, MemOrder};
use crate::lock::{Acquire, Lock};
use crate::once::OnceSlot;
use vstd::prelude::*;
use vstd::string::*;

verus! {

/// The largest identifier that is handed out.
pub const MAX_ID: usize = usize::MAX / 2;

/// Counts a hundred requests on a counter that starts at zero. Returns the
/// counter.
pub fn count_requests() -> (received: usize)
    ensures
        received == 100,
{
    let mut request_recv = AtomicCounter::new(0);
    let mut i: usize = 0;
    while i < 100
        invariant
            i <= 100,
            request_recv@ == i,
        decreases 100 - i,
    {
        request_recv.fetch_add(1, MemOrder::Relaxed);
        i = i + 1;
    }
    request_recv.load(MemOrder::Relaxed)
}

/// The next identifier: one more than the counter holds. The identifiers
/// must not be used up.
pub fn generate_id(counter: &mut AtomicCounter) -> (id: usize)
    requires
        old(counter)@ < MAX_ID,
    ensures
        id == old(counter)@ + 1,
        final(counter)@ == id,
{
    let current_val = counter.load(MemOrder::Relaxed);
    counter.fetch_add(1, MemOrder::Relaxed);
    counter.load(MemOrder::Relaxed)
}

/// The next identifier, or `None` once the identifiers are used up.
pub fn checked_generate_id(counter: &mut AtomicCounter) -> (id: Option<usize>)
    ensures
        match id {
            Some(id) => old(counter)@ < MAX_ID && id == old(counter)@ + 1 && final(counter)@
                == id,
            None => old(counter)@ >= MAX_ID && final(counter)@ == old(counter)@,
        },
{
    if counter.peek() >= MAX_ID {
        None
    } else {
        Some(generate_id(counter))
    }
}

/// Something that is numbered when it is made.
pub struct Factory {
    pub factory_id: usize,
}

impl Factory {
    pub fn new(counter: &mut AtomicCounter) -> (factory: Factory)
        requires
            old(counter)@ < MAX_ID,
        ensures
            factory.factory_id == old(counter)@ + 1,
            final(counter)@ == factory.factory_id,
    {
        Self { factory_id: generate_id(counter) }
    }
}

/// The names that a program starts with.
pub open spec fn first_names() -> Seq<char> {
    "Sunface, Jack, Allen"@
}

/// Makes the list of names, behind its lock.
fn make_names() -> (lock: Lock<String>)
    ensures
        lock.wf(),
        lock.value()@ == first_names(),
        lock.holder() is None,
        !lock.poisoned(),
{
    Lock::new(String::from_str("Sunface, Jack, Allen"))
}

/// A list of names behind a lock is made on first use, and one name is then
/// added to it. Returns the list.
pub fn test_lazy_static() -> (names: String)
    ensures
        names@ == first_names() + ", Myth"@,
{
    let mut slot: OnceSlot<Lock<String>> = OnceSlot::new();
    let made = slot.fill_with(make_names);
    match slot.take() {
        Some(mut lock) => {
            match lock.acquire(0) {
                Acquire::Acquired(v) => {
                    let mut names = lock.get(&v).clone();
                    names.append(", Myth");
                    let _ = lock.set(&v, names);
                    let _ = lock.release(v);
                },
                _ => {},
            }
            lock.into_inner()
        },
        None => String::new(),
    }
}

/// Settings that are built once and then live as long as the program.
#[derive(Debug)]
pub struct Settings {
    pub a: String,
    pub b: String,
}

/// Builds the settings.
pub fn init() -> (settings: Option<Settings>)
    ensures
        settings matches Some(c) && c.a@ == "A"@ && c.b@ == "B"@,
{
    let c = Settings { a: String::from_str("A"), b: String::from_str("B") };
    Some(c)
}

/// The one logger of a program.
#[derive(Debug)]
pub struct Logger;

impl Logger {
    /// The logger in `slot`, made now if this is the first request. Tells
    /// whether it was made now.
    pub fn global(slot: &mut OnceSlot<Logger>) -> (created: bool)
        ensures
            created == (old(slot)@ is None),
            final(slot)@ is Some,
    {
        slot.fill_with(Logger::create)
    }

    fn create() -> Logger {
        Logger
    }

    /// The line that logging `message` writes.
    pub fn log(&self, message: String) -> (line: String)
        ensures
            line == message,
    {
        message
    }
}

/// Two threads both try to run an initialisation that may run once: one
/// would store 1, the other 2. Returns what is stored in the end, given which
/// of the two came first.
pub fn test_once(one_first: bool) -> (val: usize)
    ensures
        val == if one_first {
            1usize
        } else {
            2usize
        },
{
    let mut init: OnceSlot<usize> = OnceSlot::new();
    if one_first {
        let _ = init.set(1);
        let _ = init.set(2);
    } else {
        let _ = init.set(2);
        let _ = init.set(1);
    }
    match init.get() {
        Some(v) => *v,
        None => 0,
    }
}

} // verus!
