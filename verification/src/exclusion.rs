//! Workers that increment one counter under a lock, stepped in any order.
//!
//! Each worker repeats four steps: take the lock, read the counter, write
//! back the value read plus one, release. Between any two steps of one worker
//! any number of steps of others may fall.
use crate::lock::{Guard, Lock, ThreadId};
use vstd::prelude::*;

verus! {

/// Where a worker stands in its round.
#[derive(Clone, Copy, Debug, PartialEq, Eq, Structural)]
pub enum Phase {
    /// Outside the lock, about to ask for it.
    Idle,
    /// Holds the lock, about to read the counter.
    Entered,
    /// Has read the counter, about to write.
    Loaded,
    /// Has written, about to release.
    Stored,
}

/// The workshop as the contracts see it.
pub struct Floor {
    /// The shared counter.
    pub counter: nat,
    /// The worker that is inside the lock, if one is.
    pub inside: Option<ThreadId>,
    /// Where each worker stands in its round.
    pub phases: Seq<Phase>,
    /// The rounds that each worker has completed.
    pub rounds: Seq<nat>,
    /// The steps made so far.
    pub steps: nat,
}

/// The sum of the numbers.
pub open spec fn sum(s: Seq<nat>) -> nat
    decreases s.len(),
{
    if s.len() == 0 {
        0
    } else {
        sum(s.drop_last()) + s.last()
    }
}

impl Floor {
    /// `threads` idle workers around a counter at zero.
    pub open spec fn initial(threads: nat) -> Floor {
        Floor {
            counter: 0,
            inside: None,
            phases: Seq::new(threads, |i: int| Phase::Idle),
            rounds: Seq::new(threads, |i: int| 0nat),
            steps: 0,
        }
    }

    /// The floor after `thread` has made its next step. A thread that asks
    /// for the lock while another is inside stays where it is; a thread that
    /// the workshop does not have makes no step.
    pub open spec fn step(self, thread: ThreadId) -> Floor {
        let t = thread as int;
        let counted = Floor { steps: self.steps + 1, ..self };
        if t >= self.phases.len() {
            counted
        } else {
            match self.phases[t] {
                Phase::Idle => if self.inside is None {
                    Floor {
                        inside: Some(thread),
                        phases: self.phases.update(t, Phase::Entered),
                        ..counted
                    }
                } else {
                    counted
                },
                Phase::Entered => Floor {
                    phases: self.phases.update(t, Phase::Loaded),
                    ..counted
                },
                Phase::Loaded => Floor {
                    counter: self.counter + 1,
                    phases: self.phases.update(t, Phase::Stored),
                    ..counted
                },
                Phase::Stored => Floor {
                    inside: None,
                    phases: self.phases.update(t, Phase::Idle),
                    rounds: self.rounds.update(t, self.rounds[t] + 1),
                    ..counted
                },
            }
        }
    }

    /// The floor after the workers have stepped in the order that the
    /// schedule gives.
    pub open spec fn run(self, schedule: Seq<ThreadId>) -> Floor
        decreases schedule.len(),
    {
        if schedule.len() == 0 {
            self
        } else {
            self.run(schedule.drop_last()).step(schedule.last())
        }
    }

    /// One if a worker has written and not yet released, else zero.
    pub open spec fn in_flight(self) -> nat {
        if self.inside matches Some(t) && self.phases[t as int] == Phase::Stored {
            1
        } else {
            0
        }
    }

    /// Mutual exclusion, and no lost update: only the worker inside the lock
    /// is in the middle of a round, and the counter equals the rounds
    /// completed, plus one while a worker has written and not yet released.
    pub open spec fn sound(self) -> bool {
        &&& self.phases.len() == self.rounds.len()
        &&& self.phases.len() <= usize::MAX
        &&& (self.inside matches Some(t) ==> t < self.phases.len() && self.phases[t as int]
            != Phase::Idle)
        &&& forall|t: int|
            0 <= t < self.phases.len() && #[trigger] self.phases[t] != Phase::Idle
                ==> self.inside == Some(t as usize)
        &&& self.counter == sum(self.rounds) + self.in_flight()
        &&& self.counter <= self.steps
    }
}

proof fn lemma_sum_update(s: Seq<nat>, t: int, v: nat)
    requires
        0 <= t < s.len(),
    ensures
        sum(s.update(t, v)) == sum(s) - s[t] + v,
    decreases s.len(),
{
    let updated = s.update(t, v);
    if t == s.len() - 1 {
        assert(updated.drop_last() =~= s.drop_last());
    } else {
        assert(updated.drop_last() =~= s.drop_last().update(t, v));
        lemma_sum_update(s.drop_last(), t, v);
    }
}

proof fn lemma_sum_uniform(s: Seq<nat>, each: nat)
    requires
        forall|t: int| 0 <= t < s.len() ==> #[trigger] s[t] == each,
    ensures
        sum(s) == s.len() * each,
    decreases s.len(),
{
    if s.len() > 0 {
        let prefix = s.drop_last();
        assert forall|t: int| 0 <= t < prefix.len() implies #[trigger] prefix[t] == each by {
            assert(prefix[t] == s[t]);
        }
        lemma_sum_uniform(prefix, each);
        assert(s.len() * each == prefix.len() * each + each) by (nonlinear_arith)
            requires
                s.len() == prefix.len() + 1,
        ;
    }
}

proof fn lemma_sum_bounds(s: Seq<nat>, t: int)
    requires
        0 <= t < s.len(),
    ensures
        s[t] <= sum(s),
    decreases s.len(),
{
    if t < s.len() - 1 {
        lemma_sum_bounds(s.drop_last(), t);
    }
}

/// A workshop in which nobody has stepped yet is sound.
pub proof fn law_initial_is_sound(threads: usize)
    ensures
        Floor::initial(threads as nat).sound(),
{
    lemma_sum_uniform(Floor::initial(threads as nat).rounds, 0);
}

/// Whoever steps, a sound workshop stays sound.
pub proof fn law_step_keeps_sound(floor: Floor, thread: ThreadId)
    requires
        floor.sound(),
    ensures
        floor.step(thread).sound(),
{
    let t = thread as int;
    if t < floor.phases.len() {
        if floor.phases[t] == Phase::Stored {
            lemma_sum_update(floor.rounds, t, floor.rounds[t] + 1);
        }
    }
}

/// Under every schedule, with any number of workers: at most one worker is
/// in the middle of a round, and the counter equals the rounds completed,
/// plus one while a worker has written and not yet released. No increment is
/// lost and none is counted twice.
pub proof fn law_mutual_exclusion(threads: usize, schedule: Seq<ThreadId>)
    ensures
        Floor::initial(threads as nat).run(schedule).sound(),
    decreases schedule.len(),
{
    if schedule.len() == 0 {
        law_initial_is_sound(threads);
    } else {
        law_mutual_exclusion(threads, schedule.drop_last());
        law_step_keeps_sound(
            Floor::initial(threads as nat).run(schedule.drop_last()),
            schedule.last(),
        );
    }
}

/// When every one of the workers has completed `each` rounds and none is
/// inside, the counter is the number of workers times `each`.
pub proof fn law_all_increments_counted(floor: Floor, each: nat)
    requires
        floor.sound(),
        floor.inside is None,
        forall|t: int| 0 <= t < floor.rounds.len() ==> #[trigger] floor.rounds[t] == each,
    ensures
        floor.counter == floor.rounds.len() * each,
{
    lemma_sum_uniform(floor.rounds, each);
}

/// One thread of the workshop.
pub struct Worker {
    phase: Phase,
    guard: Option<Guard>,
    local: usize,
    done: usize,
}

/// A counter behind a lock, and the workers that increment it.
pub struct Workshop {
    lock: Lock<usize>,
    workers: Vec<Worker>,
    steps: Ghost<nat>,
}

impl Workshop {
    pub closed spec fn view(&self) -> Floor {
        Floor {
            counter: self.lock.value() as nat,
            inside: self.lock.holder(),
            phases: Seq::new(self.workers@.len(), |i: int| self.workers@[i].phase),
            rounds: Seq::new(self.workers@.len(), |i: int| self.workers@[i].done as nat),
            steps: self.steps@,
        }
    }

    /// What the workers and the lock keep between them, besides what the
    /// floor shows.
    pub closed spec fn wf(&self) -> bool {
        &&& self@.sound()
        &&& self.lock.wf()
        &&& !self.lock.poisoned()
        &&& forall|t: int|
            0 <= t < self.workers@.len() ==> {
                let w = #[trigger] self.workers@[t];
                &&& (w.guard is Some <==> w.phase != Phase::Idle)
                &&& (w.guard matches Some(g) ==> g.owner() == t)
                &&& (w.phase == Phase::Loaded ==> w.local == self.lock.value())
            }
    }

    /// A well-formed workshop is sound.
    pub proof fn lemma_sound(&self)
        requires
            self.wf(),
        ensures
            self@.sound(),
    {
    }

    /// A workshop of `threads` idle workers around a counter at zero.
    pub fn new(threads: usize) -> (shop: Workshop)
        ensures
            shop.wf(),
            shop@ == Floor::initial(threads as nat),
    {
        let mut workers: Vec<Worker> = Vec::new();
        let mut i: usize = 0;
        while i < threads
            invariant
                i <= threads,
                workers@.len() == i,
                forall|t: int|
                    0 <= t < i ==> {
                        let w = #[trigger] workers@[t];
                        w.guard is None && w.phase == Phase::Idle && w.done == 0
                    },
            decreases threads - i,
        {
            workers.push(Worker { phase: Phase::Idle, guard: None, local: 0, done: 0 });
            i = i + 1;
        }
        let shop = Workshop { lock: Lock::new(0), workers, steps: Ghost(0) };
        proof {
            let floor = Floor::initial(threads as nat);
            assert(shop@.phases =~= floor.phases);
            assert(shop@.rounds =~= floor.rounds);
            law_initial_is_sound(threads);
        }
        shop
    }

    /// `thread` makes the next step of its round.
    pub fn step(&mut self, thread: ThreadId)
        requires
            old(self).wf(),
            old(self)@.steps < usize::MAX,
        ensures
            final(self).wf(),
            final(self)@ == old(self)@.step(thread),
    {
        proof {
            law_step_keeps_sound(self@, thread);
        }
        self.steps = Ghost((self.steps@ + 1) as nat);
        if thread >= self.workers.len() {
            assert(self@.phases =~= old(self)@.phases);
            assert(self@.rounds =~= old(self)@.rounds);
            return ;
        }
        let phase = self.workers[thread].phase;
        let ghost t = thread as int;
        match phase {
            Phase::Idle => {
                match self.lock.try_acquire(thread) {
                    Ok(guard) => {
                        let w = &mut self.workers[thread];
                        w.guard = Some(guard);
                        w.phase = Phase::Entered;
                        assert(self@.phases =~= old(self)@.phases.update(t, Phase::Entered));
                    },
                    Err(_) => {
                        assert(self@.phases =~= old(self)@.phases);
                    },
                }
                assert(self@.rounds =~= old(self)@.rounds);
            },
            Phase::Entered => {
                let seen = match &self.workers[thread].guard {
                    Some(guard) => *self.lock.get(guard),
                    None => 0,
                };
                let w = &mut self.workers[thread];
                w.local = seen;
                w.phase = Phase::Loaded;
                assert(self@.phases =~= old(self)@.phases.update(t, Phase::Loaded));
                assert(self@.rounds =~= old(self)@.rounds);
            },
            Phase::Loaded => {
                proof {
                    assert forall|u: int|
                        0 <= u < old(self).workers@.len() && u != t implies old(self).workers@[u].phase == Phase::Idle by {
                        assert(old(self)@.phases[u] == old(self).workers@[u].phase);
                        assert(old(self)@.phases[t] == Phase::Loaded);
                    }
                }
                let next = self.workers[thread].local + 1;
                match &self.workers[thread].guard {
                    Some(guard) => {
                        self.lock.set(guard, next);
                    },
                    None => {},
                }
                let w = &mut self.workers[thread];
                w.phase = Phase::Stored;
                assert(self@.phases =~= old(self)@.phases.update(t, Phase::Stored));
                assert(self@.rounds =~= old(self)@.rounds);
            },
            Phase::Stored => {
                proof {
                    lemma_sum_bounds(old(self)@.rounds, t);
                }
                let taken = self.workers[thread].guard.take();
                match taken {
                    Some(guard) => {
                        self.lock.release(guard);
                    },
                    None => {},
                }
                let w = &mut self.workers[thread];
                w.done = w.done + 1;
                w.phase = Phase::Idle;
                assert(self@.phases =~= old(self)@.phases.update(t, Phase::Idle));
                assert(self@.rounds =~= old(self)@.rounds.update(t, old(self)@.rounds[t] + 1));
            },
        }
    }

    /// Lets the workers step in the order that the schedule gives.
    pub fn run(&mut self, schedule: &Vec<ThreadId>)
        requires
            old(self).wf(),
            old(self)@.steps + schedule@.len() <= usize::MAX,
        ensures
            final(self).wf(),
            final(self)@ == old(self)@.run(schedule@),
    {
        let mut i: usize = 0;
        while i < schedule.len()
            invariant
                i <= schedule@.len(),
                self.wf(),
                self@ == old(self)@.run(schedule@.subrange(0, i as int)),
                self@.steps == old(self)@.steps + i,
                old(self)@.steps + schedule@.len() <= usize::MAX,
            decreases schedule@.len() - i,
        {
            proof {
                let longer = schedule@.subrange(0, i + 1);
                assert(longer.drop_last() =~= schedule@.subrange(0, i as int));
                assert(longer.last() == schedule@[i as int]);
            }
            self.step(schedule[i]);
            i = i + 1;
        }
        assert(schedule@.subrange(0, schedule@.len() as int) =~= schedule@);
    }

    /// The value of the shared counter.
    pub fn value(&self) -> (v: usize)
        ensures
            v == self@.counter,
    {
        self.lock.peek()
    }

    /// How many workers there are.
    pub fn threads(&self) -> (n: usize)
        ensures
            n == self@.phases.len(),
    {
        self.workers.len()
    }

    /// The rounds that `thread` has completed.
    pub fn rounds(&self, thread: ThreadId) -> (n: usize)
        requires
            thread < self@.rounds.len(),
        ensures
            n == self@.rounds[thread as int],
    {
        self.workers[thread].done
    }

    /// Where `thread` stands in its round.
    pub fn phase_of(&self, thread: ThreadId) -> (p: Phase)
        requires
            thread < self@.phases.len(),
        ensures
            p == self@.phases[thread as int],
    {
        self.workers[thread].phase
    }

    /// The worker that is inside the lock, if one is.
    pub fn inside(&self) -> (t: Option<ThreadId>)
        ensures
            t == self@.inside,
    {
        self.lock.holder_id()
    }
}

} // verus!
