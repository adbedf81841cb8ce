//! Histories of one control block, and what holds of every history.
use crate::rc::Block;
use vstd::prelude::*;

verus! {

/// One event in the life of a control block after its creation.
pub enum HandleOp {
    /// An owning handle is cloned.
    CloneStrong,
    /// An owning handle is dropped.
    DropStrong,
    /// A non-owning handle is derived from an owning one.
    Downgrade,
    /// A non-owning handle is cloned.
    CloneWeak,
    /// A non-owning handle is dropped.
    DropWeak,
    /// A non-owning handle asks for an owning one.
    Upgrade,
}

/// The operation acts through a handle that exists in state `b`.
pub open spec fn enabled<T>(b: Block<T>, op: HandleOp) -> bool {
    match op {
        HandleOp::CloneStrong | HandleOp::DropStrong | HandleOp::Downgrade => b.strong > 0,
        HandleOp::CloneWeak | HandleOp::DropWeak | HandleOp::Upgrade => b.weak > 0,
    }
}

/// The block after one operation.
pub open spec fn step<T>(b: Block<T>, op: HandleOp) -> Block<T> {
    match op {
        HandleOp::CloneStrong => b.after_clone(),
        HandleOp::DropStrong => b.after_drop(),
        HandleOp::Downgrade | HandleOp::CloneWeak => b.after_downgrade(),
        HandleOp::DropWeak => b.after_weak_drop(),
        HandleOp::Upgrade => if b.strong > 0 {
            b.after_clone()
        } else {
            b
        },
    }
}

/// The block after a history, oldest operation first.
pub open spec fn run<T>(b: Block<T>, ops: Seq<HandleOp>) -> Block<T>
    decreases ops.len(),
{
    if ops.len() == 0 {
        b
    } else {
        step(run(b, ops.drop_last()), ops.last())
    }
}

/// Every operation of the history acts through a handle that exists when it
/// is made.
pub open spec fn runnable<T>(b: Block<T>, ops: Seq<HandleOp>) -> bool
    decreases ops.len(),
{
    ops.len() > 0 ==> runnable(b, ops.drop_last()) && enabled(
        run(b, ops.drop_last()),
        ops.last(),
    )
}

/// How many owning handles the history has created: the clones, and the
/// upgrades made while the payload was alive.
pub open spec fn gained<T>(b: Block<T>, ops: Seq<HandleOp>) -> nat
    decreases ops.len(),
{
    if ops.len() == 0 {
        0
    } else {
        let before = run(b, ops.drop_last());
        let one: nat = match ops.last() {
            HandleOp::CloneStrong => 1,
            HandleOp::Upgrade => if before.strong > 0 {
                1
            } else {
                0
            },
            _ => 0,
        };
        gained(b, ops.drop_last()) + one
    }
}

/// How many owning handles the history has dropped.
pub open spec fn dropped(ops: Seq<HandleOp>) -> nat
    decreases ops.len(),
{
    if ops.len() == 0 {
        0
    } else {
        dropped(ops.drop_last()) + if ops.last() is DropStrong {
            1nat
        } else {
            0nat
        }
    }
}

/// How many times the history has destructed the payload: once for each drop
/// of an owning handle that was the only one.
pub open spec fn destructions<T>(b: Block<T>, ops: Seq<HandleOp>) -> nat
    decreases ops.len(),
{
    if ops.len() == 0 {
        0
    } else {
        let before = run(b, ops.drop_last());
        destructions(b, ops.drop_last()) + if ops.last() is DropStrong && before.strong == 1 {
            1nat
        } else {
            0nat
        }
    }
}

/// The history consists of clones and drops of owning handles only.
pub open spec fn clones_and_drops(ops: Seq<HandleOp>) -> bool {
    forall|i: int| 0 <= i < ops.len() ==> (#[trigger] ops[i] is CloneStrong || ops[i] is DropStrong)
}

/// How many clones of owning handles the history holds.
pub open spec fn cloned(ops: Seq<HandleOp>) -> nat
    decreases ops.len(),
{
    if ops.len() == 0 {
        0
    } else {
        cloned(ops.drop_last()) + if ops.last() is CloneStrong {
            1nat
        } else {
            0nat
        }
    }
}

/// A well-formed block stays well-formed through every history.
pub proof fn law_history_keeps_wf<T>(b: Block<T>, ops: Seq<HandleOp>)
    requires
        b.wf(),
        runnable(b, ops),
    ensures
        run(b, ops).wf(),
    decreases ops.len(),
{
    if ops.len() > 0 {
        law_history_keeps_wf(b, ops.drop_last());
    }
}

/// After any history, the number of owning handles is the one the block
/// started with, plus those created, minus those dropped; and no more were
/// dropped than existed.
pub proof fn law_strong_count<T>(b: Block<T>, ops: Seq<HandleOp>)
    requires
        runnable(b, ops),
    ensures
        dropped(ops) <= b.strong + gained(b, ops),
        run(b, ops).strong == b.strong + gained(b, ops) - dropped(ops),
    decreases ops.len(),
{
    if ops.len() > 0 {
        law_strong_count(b, ops.drop_last());
    }
}

/// After N clones and M drops of owning handles, in any order in which each
/// acts through an existing handle, a new block counts `1 + N - M` owners.
pub proof fn law_clones_and_drops<T>(value: T, ops: Seq<HandleOp>)
    requires
        clones_and_drops(ops),
        runnable(Block::fresh(value), ops),
    ensures
        dropped(ops) <= 1 + cloned(ops),
        run(Block::fresh(value), ops).strong == 1 + cloned(ops) - dropped(ops),
{
    let b = Block::fresh(value);
    lemma_gained_is_cloned(b, ops);
    law_strong_count(b, ops);
}

proof fn lemma_gained_is_cloned<T>(b: Block<T>, ops: Seq<HandleOp>)
    requires
        clones_and_drops(ops),
    ensures
        gained(b, ops) == cloned(ops),
    decreases ops.len(),
{
    if ops.len() > 0 {
        let prefix = ops.drop_last();
        assert forall|i: int| 0 <= i < prefix.len() implies (#[trigger] prefix[i] is CloneStrong
            || prefix[i] is DropStrong) by {
            assert(prefix[i] == ops[i]);
        }
        lemma_gained_is_cloned(b, prefix);
        assert(ops.last() == ops[ops.len() - 1]);
    }
}

/// Once the last owning handle is gone, no history brings one back.
pub proof fn law_no_resurrection<T>(b: Block<T>, ops: Seq<HandleOp>)
    requires
        b.strong == 0,
        runnable(b, ops),
    ensures
        run(b, ops).strong == 0,
        run(b, ops).value == b.value,
    decreases ops.len(),
{
    if ops.len() > 0 {
        law_no_resurrection(b, ops.drop_last());
    }
}

/// The payload of a new block is destructed at most once, and exactly once
/// when the history ends with no owning handle, whatever happens to the
/// non-owning handles.
pub proof fn law_destructed_once<T>(value: T, ops: Seq<HandleOp>)
    requires
        runnable(Block::fresh(value), ops),
    ensures
        destructions(Block::fresh(value), ops) == if run(Block::fresh(value), ops).strong == 0 {
            1nat
        } else {
            0nat
        },
        run(Block::fresh(value), ops).value == if run(Block::fresh(value), ops).strong == 0 {
            None
        } else {
            Some(value)
        },
    decreases ops.len(),
{
    if ops.len() > 0 {
        law_destructed_once(value, ops.drop_last());
    }
}

/// While an owning handle exists an upgrade grants another; after the last
/// one is gone it grants none, however many non-owning handles are left.
pub proof fn law_upgrade_follows_owners<T>(b: Block<T>)
    requires
        b.weak > 0,
    ensures
        b.strong > 0 ==> step(b, HandleOp::Upgrade).strong == b.strong + 1,
        b.strong == 0 ==> step(b, HandleOp::Upgrade) == b,
{
}

} // verus!
