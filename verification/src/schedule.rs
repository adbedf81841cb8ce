//! Threads as schedules: the order in which their steps reach shared state.
//!
//! A schedule names, turn by turn, the thread that makes the next step. What
//! is proved of every schedule holds however a host interleaves its threads.
use crate::arc::{AtomicStrongHandle, SharedHeap, MAX_SHARED};
use crate::atomic::{wrapping_sum, AtomicCounter, MemOrder};
use crate::lock::ThreadId;
use crate::rc::Block;
use vstd::prelude::*;

verus! {

/// How many turns `thread` has in the schedule.
pub open spec fn turns(schedule: Seq<ThreadId>, thread: ThreadId) -> nat
    decreases schedule.len(),
{
    if schedule.len() == 0 {
        0
    } else {
        turns(schedule.drop_last(), thread) + if schedule.last() == thread {
            1nat
        } else {
            0nat
        }
    }
}

/// Each of the threads `0..threads` has exactly `each` turns, and nobody
/// else has any.
pub open spec fn balanced(schedule: Seq<ThreadId>, threads: usize, each: nat) -> bool {
    &&& forall|i: int| 0 <= i < schedule.len() ==> (#[trigger] schedule[i]) < threads
    &&& forall|t: ThreadId| t < threads ==> #[trigger] turns(schedule, t) == each
}

/// The schedule without the turns of `thread`.
spec fn without(schedule: Seq<ThreadId>, thread: ThreadId) -> Seq<ThreadId>
    decreases schedule.len(),
{
    if schedule.len() == 0 {
        schedule
    } else if schedule.last() == thread {
        without(schedule.drop_last(), thread)
    } else {
        without(schedule.drop_last(), thread).push(schedule.last())
    }
}

proof fn lemma_without(schedule: Seq<ThreadId>, thread: ThreadId)
    ensures
        without(schedule, thread).len() + turns(schedule, thread) == schedule.len(),
        forall|i: int|
            0 <= i < without(schedule, thread).len() ==> exists|j: int|
                0 <= j < schedule.len() && schedule[j] == #[trigger] without(schedule, thread)[i]
                    && schedule[j] != thread,
        forall|t: ThreadId|
            t != thread ==> #[trigger] turns(without(schedule, thread), t) == turns(schedule, t),
    decreases schedule.len(),
{
    if schedule.len() > 0 {
        let prefix = schedule.drop_last();
        lemma_without(prefix, thread);
        let rest = without(schedule, thread);
        assert forall|i: int| 0 <= i < rest.len() implies exists|j: int|
            0 <= j < schedule.len() && schedule[j] == #[trigger] rest[i] && schedule[j]
                != thread by {
            if i < without(prefix, thread).len() {
                let j = choose|j: int|
                    0 <= j < prefix.len() && prefix[j] == without(prefix, thread)[i] && prefix[j]
                        != thread;
                assert(schedule[j] == prefix[j]);
            } else {
                assert(schedule[schedule.len() - 1] == rest[i]);
            }
        }
        assert forall|t: ThreadId| t != thread implies #[trigger] turns(rest, t) == turns(
            schedule,
            t,
        ) by {
            if schedule.last() != thread {
                assert(rest.drop_last() =~= without(prefix, thread));
                assert(rest.last() == schedule.last());
            }
            assert(turns(without(prefix, thread), t) == turns(prefix, t));
        }
    }
}

/// A balanced schedule has as many turns as there are threads times the
/// turns of each.
pub proof fn lemma_balanced_length(schedule: Seq<ThreadId>, threads: usize, each: nat)
    requires
        balanced(schedule, threads, each),
    ensures
        schedule.len() == threads * each,
    decreases threads,
{
    if threads == 0 {
        if schedule.len() > 0 {
            assert(schedule[0] < threads);
        }
    } else {
        let last: ThreadId = (threads - 1) as usize;
        lemma_without(schedule, last);
        let rest = without(schedule, last);
        assert forall|i: int| 0 <= i < rest.len() implies (#[trigger] rest[i]) < last by {
            let j = choose|j: int|
                0 <= j < schedule.len() && schedule[j] == rest[i] && schedule[j] != last;
            assert(schedule[j] < threads);
        }
        assert forall|t: ThreadId| t < last implies #[trigger] turns(rest, t) == each by {
            assert(turns(schedule, t) == each);
        }
        lemma_balanced_length(rest, last, each);
        assert(turns(schedule, last) == each);
        assert(threads * each == last * each + each) by (nonlinear_arith)
            requires
                threads == last + 1,
        ;
    }
}

/// One thread's work on a shared counter: `n` relaxed increments by one.
pub fn add_n_times(counter: &mut AtomicCounter, n: usize)
    ensures
        final(counter)@ == wrapping_sum(old(counter)@, n),
{
    let mut i: usize = 0;
    while i < n
        invariant
            i <= n,
            counter@ == wrapping_sum(old(counter)@, i),
        decreases n - i,
    {
        counter.fetch_add(1, MemOrder::Relaxed);
        i = i + 1;
    }
}

/// Lets the threads increment the counter by one, turn by turn as the
/// schedule says, and returns the value that each increment found.
///
/// Every increment finds a value of its own: the start value plus the number
/// of increments before it, whoever made them.
pub fn run_increments(counter: &mut AtomicCounter, schedule: &Vec<ThreadId>) -> (found: Vec<usize>)
    ensures
        final(counter)@ == wrapping_sum(old(counter)@, schedule@.len() as usize),
        found@.len() == schedule@.len(),
        forall|i: int|
            0 <= i < found@.len() ==> #[trigger] found@[i] == wrapping_sum(
                old(counter)@,
                i as usize,
            ),
{
    let mut found: Vec<usize> = Vec::new();
    let mut i: usize = 0;
    while i < schedule.len()
        invariant
            i <= schedule@.len(),
            counter@ == wrapping_sum(old(counter)@, i),
            found@.len() == i,
            forall|k: int|
                0 <= k < found@.len() ==> #[trigger] found@[k] == wrapping_sum(
                    old(counter)@,
                    k as usize,
                ),
        decreases schedule@.len() - i,
    {
        let previous = counter.fetch_add(1, MemOrder::Relaxed);
        found.push(previous);
        i = i + 1;
    }
    found
}

/// With each of `threads` threads making `each` increments, a counter that
/// started at zero ends at `threads * each` under every schedule, provided
/// the counter can hold that number.
pub proof fn law_no_lost_updates(schedule: Seq<ThreadId>, threads: usize, each: nat)
    requires
        balanced(schedule, threads, each),
        threads * each <= usize::MAX,
    ensures
        wrapping_sum(0, schedule.len() as usize) == threads * each,
{
    lemma_balanced_length(schedule, threads, each);
}

/// How many turns of the schedule name one of the threads `0..threads`.
pub open spec fn turns_below(schedule: Seq<ThreadId>, threads: usize) -> nat
    decreases schedule.len(),
{
    if schedule.len() == 0 {
        0
    } else {
        turns_below(schedule.drop_last(), threads) + if schedule.last() < threads {
            1nat
        } else {
            0nat
        }
    }
}

proof fn lemma_turns_below_bounded(schedule: Seq<ThreadId>, threads: usize)
    ensures
        turns_below(schedule, threads) <= schedule.len(),
    decreases schedule.len(),
{
    if schedule.len() > 0 {
        lemma_turns_below_bounded(schedule.drop_last(), threads);
    }
}

/// The heap holds one block: a counter at `count` with `owners` owning
/// handles and no others.
spec fn holds(heap: Seq<Option<Block<AtomicCounter>>>, owners: int, count: int) -> bool {
    &&& heap.len() == 1
    &&& heap[0] matches Some(b)
    &&& b.strong == owners
    &&& b.weak == 0
    &&& b.value matches Some(c)
    &&& c@ == count
}

/// One counter is shared by `threads` threads, each through an owning handle
/// of its own. Turn by turn as the schedule says, a thread adds one through
/// its handle; a turn that names no thread is skipped. At the end every
/// thread gives its handle up. Returns what the counter then holds.
pub fn count_through_handles(threads: usize, schedule: &Vec<ThreadId>) -> (total: usize)
    requires
        threads < MAX_SHARED,
    ensures
        total == turns_below(schedule@, threads),
{
    let mut heap: SharedHeap<AtomicCounter> = SharedHeap::new();
    let first = heap.new_strong(AtomicCounter::new(0));
    let mut handles: Vec<AtomicStrongHandle> = Vec::new();
    while handles.len() < threads
        invariant
            handles@.len() <= threads < MAX_SHARED,
            heap.wf(),
            heap.limit() == MAX_SHARED,
            first@ == 0,
            holds(heap@, handles@.len() as int + 1, 0),
            forall|i: int| 0 <= i < handles@.len() ==> (#[trigger] handles@[i])@ == 0,
        decreases threads - handles@.len(),
    {
        let handle = heap.clone_strong(&first).unwrap();
        handles.push(handle);
    }
    let mut i: usize = 0;
    while i < schedule.len()
        invariant
            i <= schedule@.len(),
            handles@.len() == threads,
            heap.wf(),
            first@ == 0,
            holds(
                heap@,
                threads + 1,
                turns_below(schedule@.subrange(0, i as int), threads) as int,
            ),
            forall|k: int| 0 <= k < handles@.len() ==> (#[trigger] handles@[k])@ == 0,
        decreases schedule@.len() - i,
    {
        proof {
            let longer = schedule@.subrange(0, i + 1);
            assert(longer.drop_last() =~= schedule@.subrange(0, i as int));
            assert(longer.last() == schedule@[i as int]);
            lemma_turns_below_bounded(longer, threads);
        }
        let t = schedule[i];
        if t < threads {
            let counter = heap.payload_mut(&handles[t]);
            counter.fetch_add(1, MemOrder::Relaxed);
        }
        i = i + 1;
    }
    assert(schedule@.subrange(0, schedule@.len() as int) =~= schedule@);
    while handles.len() > 0
        invariant
            handles@.len() <= threads,
            heap.wf(),
            first@ == 0,
            holds(heap@, handles@.len() as int + 1, turns_below(schedule@, threads) as int),
            forall|k: int| 0 <= k < handles@.len() ==> (#[trigger] handles@[k])@ == 0,
        decreases handles@.len(),
    {
        let handle = handles.pop().unwrap();
        let _ = heap.drop_strong(handle);
    }
    match heap.drop_strong(first) {
        Some(counter) => counter.peek(),
        None => 0,
    }
}

/// With each of `threads` threads adding `each` times through its handle,
/// the counter ends at `threads * each` under every schedule.
pub proof fn law_no_lost_updates_through_handles(
    schedule: Seq<ThreadId>,
    threads: usize,
    each: nat,
)
    requires
        balanced(schedule, threads, each),
    ensures
        turns_below(schedule, threads) == threads * each,
{
    lemma_balanced_length(schedule, threads, each);
    lemma_all_turns_below(schedule, threads);
}

proof fn lemma_all_turns_below(schedule: Seq<ThreadId>, threads: usize)
    requires
        forall|i: int| 0 <= i < schedule.len() ==> (#[trigger] schedule[i]) < threads,
    ensures
        turns_below(schedule, threads) == schedule.len(),
    decreases schedule.len(),
{
    if schedule.len() > 0 {
        let prefix = schedule.drop_last();
        assert forall|i: int| 0 <= i < prefix.len() implies (#[trigger] prefix[i]) < threads by {
            assert(prefix[i] == schedule[i]);
        }
        lemma_all_turns_below(prefix, threads);
        assert(schedule.last() == schedule[schedule.len() - 1]);
    }
}

} // verus!
