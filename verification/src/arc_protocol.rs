//! The counting protocol of shared blocks, one atomic access at a time.
//!
//! An operation on a handle is a short sequence of accesses, and accesses
//! of other threads may fall between any two of them. Here each access is a
//! step of its own, so what is proved of every sequence of steps holds
//! however the threads are interleaved.
use crate::rc::Block;
use vstd::prelude::*;

verus! {

/// One control block and the threads around it.
pub struct Protocol {
    /// The strong counter.
    pub strong: nat,
    /// The weak counter: observers, and the owners' share.
    pub weak: nat,
    /// Owning handles that are not being given up.
    pub owners: nat,
    /// Non-owning handles that are not being given up.
    pub observers: nat,
    /// Threads that took the strong counter to zero and have yet to destruct
    /// the payload.
    pub destructing: nat,
    /// Threads that have destructed the payload and have yet to give up the
    /// owners' share.
    pub sharing: nat,
    /// Threads that took the weak counter to zero and have yet to deallocate
    /// the block.
    pub freeing: nat,
    /// Whether the payload is alive.
    pub payload: bool,
    /// Whether the block is allocated.
    pub block: bool,
    /// How many times the payload has been destructed.
    pub destructed: nat,
    /// How many times the block has been deallocated.
    pub freed: nat,
}

/// One atomic step of some thread.
pub enum Step {
    /// Increment of the strong counter through an owning handle.
    CloneStrong,
    /// Increment of the weak counter through an owning handle.
    Downgrade,
    /// Increment of the weak counter through a non-owning handle.
    CloneWeak,
    /// Read of the payload through an owning handle.
    Read,
    /// Decrement of the strong counter, by which an owning handle ends.
    DropStrong,
    /// Destruction of the payload by the thread that took the strong counter
    /// to zero.
    Destruct,
    /// Decrement of the weak counter by the thread that has destructed the
    /// payload.
    GiveUpShare,
    /// Decrement of the weak counter, by which a non-owning handle ends.
    DropWeak,
    /// Deallocation of the block by the thread that took the weak counter to
    /// zero.
    Free,
    /// Compare-and-swap of the strong counter from `observed` to one more,
    /// through a non-owning handle.
    Upgrade { observed: nat },
}

/// The block when its first owning handle has been made.
pub open spec fn initial() -> Protocol {
    Protocol {
        strong: 1,
        weak: 1,
        owners: 1,
        observers: 0,
        destructing: 0,
        sharing: 0,
        freeing: 0,
        payload: true,
        block: true,
        destructed: 0,
        freed: 0,
    }
}

/// Some thread is in a position to make the step.
pub open spec fn enabled(p: Protocol, step: Step) -> bool {
    match step {
        Step::CloneStrong | Step::Downgrade | Step::Read | Step::DropStrong => p.owners > 0,
        Step::CloneWeak | Step::DropWeak => p.observers > 0,
        Step::Upgrade { observed } => p.observers > 0,
        Step::Destruct => p.destructing > 0,
        Step::GiveUpShare => p.sharing > 0,
        Step::Free => p.freeing > 0,
    }
}

/// The step touches only memory that is there: counters of an allocated
/// block, and a payload that is alive.
pub open spec fn safe(p: Protocol, step: Step) -> bool {
    match step {
        Step::Read | Step::Destruct => p.block && p.payload,
        _ => p.block,
    }
}

/// The state after a step.
pub open spec fn next(p: Protocol, step: Step) -> Protocol {
    match step {
        Step::CloneStrong => Protocol { strong: p.strong + 1, owners: p.owners + 1, ..p },
        Step::Downgrade | Step::CloneWeak => Protocol {
            weak: p.weak + 1,
            observers: p.observers + 1,
            ..p
        },
        Step::Read => p,
        Step::DropStrong => Protocol {
            strong: (p.strong - 1) as nat,
            owners: (p.owners - 1) as nat,
            destructing: if p.strong == 1 {
                p.destructing + 1
            } else {
                p.destructing
            },
            ..p
        },
        Step::Destruct => Protocol {
            destructing: (p.destructing - 1) as nat,
            sharing: p.sharing + 1,
            payload: false,
            destructed: p.destructed + 1,
            ..p
        },
        Step::GiveUpShare => Protocol {
            weak: (p.weak - 1) as nat,
            sharing: (p.sharing - 1) as nat,
            freeing: if p.weak == 1 {
                p.freeing + 1
            } else {
                p.freeing
            },
            ..p
        },
        Step::DropWeak => Protocol {
            weak: (p.weak - 1) as nat,
            observers: (p.observers - 1) as nat,
            freeing: if p.weak == 1 {
                p.freeing + 1
            } else {
                p.freeing
            },
            ..p
        },
        Step::Free => Protocol {
            freeing: (p.freeing - 1) as nat,
            block: false,
            freed: p.freed + 1,
            ..p
        },
        Step::Upgrade { observed } => if observed > 0 && p.strong == observed {
            Protocol { strong: p.strong + 1, owners: p.owners + 1, ..p }
        } else {
            p
        },
    }
}

/// What holds between the counters and the handles in every state that
/// steps lead to.
pub open spec fn consistent(p: Protocol) -> bool {
    &&& p.strong == p.owners
    &&& p.weak == p.observers + if p.owners + p.destructing + p.sharing > 0 {
        1nat
    } else {
        0nat
    }
    &&& p.destructing + p.sharing <= 1
    &&& (p.owners > 0 ==> p.destructing + p.sharing == 0)
    &&& (p.payload <==> p.owners + p.destructing > 0)
    &&& p.freeing <= 1
    &&& (p.weak > 0 ==> p.freeing == 0)
    &&& (p.block <==> p.weak + p.freeing > 0)
    &&& p.destructed == if p.payload {
        0nat
    } else {
        1nat
    }
    &&& p.freed == if p.block {
        0nat
    } else {
        1nat
    }
}

/// The state after a sequence of steps, oldest first.
pub open spec fn after(p: Protocol, steps: Seq<Step>) -> Protocol
    decreases steps.len(),
{
    if steps.len() == 0 {
        p
    } else {
        next(after(p, steps.drop_last()), steps.last())
    }
}

/// Every step of the sequence is made by a thread in a position to make it.
pub open spec fn possible(p: Protocol, steps: Seq<Step>) -> bool
    decreases steps.len(),
{
    steps.len() > 0 ==> possible(p, steps.drop_last()) && enabled(
        after(p, steps.drop_last()),
        steps.last(),
    )
}

/// Nobody holds a handle and nobody is in the middle of giving one up.
pub open spec fn at_rest(p: Protocol) -> bool {
    p.owners == 0 && p.observers == 0 && p.destructing == 0 && p.sharing == 0 && p.freeing == 0
}

/// A step that is possible is safe, and keeps the state consistent.
pub proof fn law_step_is_safe(p: Protocol, step: Step)
    requires
        consistent(p),
        enabled(p, step),
    ensures
        safe(p, step),
        consistent(next(p, step)),
{
}

/// However the steps of the threads are interleaved: every step touches only
/// memory that is there, the payload is destructed at most once, and the
/// block is deallocated at most once and never before the payload is
/// destructed.
pub proof fn law_every_interleaving_is_safe(steps: Seq<Step>)
    requires
        possible(initial(), steps),
    ensures
        consistent(after(initial(), steps)),
        forall|i: int|
            0 <= i < steps.len() ==> safe(
                after(initial(), steps.subrange(0, i)),
                #[trigger] steps[i],
            ),
        after(initial(), steps).destructed <= 1,
        after(initial(), steps).freed <= 1,
        after(initial(), steps).freed == 1 ==> after(initial(), steps).destructed == 1,
    decreases steps.len(),
{
    if steps.len() > 0 {
        let prefix = steps.drop_last();
        law_every_interleaving_is_safe(prefix);
        law_step_is_safe(after(initial(), prefix), steps.last());
        assert forall|i: int| 0 <= i < steps.len() implies safe(
            after(initial(), steps.subrange(0, i)),
            #[trigger] steps[i],
        ) by {
            if i < prefix.len() {
                assert(steps.subrange(0, i) =~= prefix.subrange(0, i));
                assert(steps[i] == prefix[i]);
            } else {
                assert(steps.subrange(0, i) =~= prefix);
            }
        }
    }
}

/// Once every handle has been given up and every thread has finished what
/// it began, the payload has been destructed exactly once and the block
/// deallocated exactly once.
pub proof fn law_reclaimed_exactly_once(steps: Seq<Step>)
    requires
        possible(initial(), steps),
        at_rest(after(initial(), steps)),
    ensures
        after(initial(), steps).destructed == 1,
        after(initial(), steps).freed == 1,
{
    law_every_interleaving_is_safe(steps);
}

/// An upgrade is granted only while an owning handle exists, whatever the
/// thread has observed and however long ago.
pub proof fn law_upgrade_needs_an_owner(p: Protocol, observed: nat)
    requires
        consistent(p),
        p.observers > 0,
    ensures
        next(p, Step::Upgrade { observed }).owners > p.owners ==> p.owners > 0 && p.payload,
        p.owners == 0 ==> next(p, Step::Upgrade { observed }) == p,
{
}

/// The block as the contracts of the handles see it, in a state in which no
/// thread is in the middle of giving a handle up.
pub open spec fn seen<T>(p: Protocol, value: T) -> Block<T> {
    Block {
        value: if p.payload {
            Some(value)
        } else {
            None
        },
        strong: p.owners,
        weak: p.observers,
    }
}

/// The steps that giving up an owning handle consists of.
pub open spec fn drop_strong_steps(p: Protocol) -> Seq<Step> {
    if p.strong == 1 {
        if p.weak == 1 {
            seq![Step::DropStrong, Step::Destruct, Step::GiveUpShare, Step::Free]
        } else {
            seq![Step::DropStrong, Step::Destruct, Step::GiveUpShare]
        }
    } else {
        seq![Step::DropStrong]
    }
}

/// The steps that giving up a non-owning handle consists of.
pub open spec fn drop_weak_steps(p: Protocol) -> Seq<Step> {
    if p.weak == 1 {
        seq![Step::DropWeak, Step::Free]
    } else {
        seq![Step::DropWeak]
    }
}

proof fn lemma_after_unfold(p: Protocol, steps: Seq<Step>)
    ensures
        steps.len() == 1 ==> after(p, steps) == next(p, steps[0]),
        steps.len() == 2 ==> after(p, steps) == next(next(p, steps[0]), steps[1]),
        steps.len() == 3 ==> after(p, steps) == next(next(next(p, steps[0]), steps[1]), steps[2]),
        steps.len() == 4 ==> after(p, steps) == next(
            next(next(next(p, steps[0]), steps[1]), steps[2]),
            steps[3],
        ),
{
    reveal_with_fuel(after, 5);
    if steps.len() >= 1 {
        let s1 = steps.drop_last();
        if steps.len() >= 2 {
            let s2 = s1.drop_last();
            assert(s1.last() == steps[steps.len() - 2]);
            if steps.len() >= 3 {
                let s3 = s2.drop_last();
                assert(s2.last() == steps[steps.len() - 3]);
                if steps.len() >= 4 {
                    assert(s3.last() == steps[steps.len() - 4]);
                }
            }
        }
    }
}

/// Run to its end without a step of another thread in between, each
/// operation on a handle changes the block as its contract says; where the
/// contract says that the block is deallocated, it is.
pub proof fn law_operations_refine<T>(p: Protocol, value: T)
    requires
        consistent(p),
        p.destructing == 0 && p.sharing == 0 && p.freeing == 0,
    ensures
        p.owners > 0 ==> seen(next(p, Step::CloneStrong), value) == seen(p, value).after_clone(),
        p.owners > 0 ==> seen(next(p, Step::Downgrade), value) == seen(
            p,
            value,
        ).after_downgrade(),
        p.observers > 0 ==> seen(next(p, Step::CloneWeak), value) == seen(
            p,
            value,
        ).after_downgrade(),
        p.owners > 0 ==> seen(after(p, drop_strong_steps(p)), value) == seen(p, value).after_drop()
            && (after(p, drop_strong_steps(p)).block <==> !seen(
            p,
            value,
        ).after_drop().unreferenced()),
        p.observers > 0 ==> seen(after(p, drop_weak_steps(p)), value) == seen(
            p,
            value,
        ).after_weak_drop() && (after(p, drop_weak_steps(p)).block <==> !seen(
            p,
            value,
        ).after_weak_drop().unreferenced()),
        p.observers > 0 ==> seen(next(p, Step::Upgrade { observed: p.strong }), value)
            == if p.owners > 0 {
            seen(p, value).after_clone()
        } else {
            seen(p, value)
        },
{
    lemma_after_unfold(p, drop_strong_steps(p));
    lemma_after_unfold(p, drop_weak_steps(p));
}

} // verus!
