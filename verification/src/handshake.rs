//! Waiting for a condition without losing the wake-up.
//!
//! One thread waits until a flag is up; another raises the flag and
//! notifies. Both touch the flag only under the lock, and the waiter gives
//! up the lock and goes to sleep in one step. Each step below is one such
//! step of one of the two, so what is proved of every sequence of steps
//! holds however the two are interleaved.
use vstd::prelude::*;

verus! {

/// Where the waiting thread stands.
#[derive(Clone, Copy, PartialEq, Eq, Structural)]
pub enum Waiter {
    /// About to take the lock.
    Arriving,
    /// Holds the lock, about to look at the flag.
    Looking,
    /// Asleep on the condition, the lock given up.
    Asleep,
    /// Holds the lock and has seen the flag up.
    Satisfied,
    /// Has released the lock and gone on.
    Gone,
}

/// Where the notifying thread stands.
#[derive(Clone, Copy, PartialEq, Eq, Structural)]
pub enum Notifier {
    /// About to take the lock.
    Arriving,
    /// Holds the lock, about to raise the flag.
    Raising,
    /// Has raised the flag, about to release the lock.
    Releasing,
    /// Has released the lock, about to notify.
    Notifying,
    /// Has notified and gone on.
    Gone,
}

/// The two threads, the lock and the flag.
pub struct Handshake {
    pub waiter: Waiter,
    pub notifier: Notifier,
    /// Whether the lock is held.
    pub held: bool,
    /// The condition.
    pub flag: bool,
    /// Whether the sleeping waiter has been notified.
    pub woken: bool,
}

/// Which of the two threads makes a step.
#[derive(Clone, Copy, PartialEq, Eq, Structural)]
pub enum Turn {
    OfWaiter,
    OfNotifier,
}

/// Both threads are about to begin, and the flag is down.
pub open spec fn begin() -> Handshake {
    Handshake {
        waiter: Waiter::Arriving,
        notifier: Notifier::Arriving,
        held: false,
        flag: false,
        woken: false,
    }
}

/// The thread whose turn it is can make a step: it has not gone on, it is
/// not kept out by the lock, and it is not asleep without having been
/// notified.
pub open spec fn can_step(h: Handshake, turn: Turn) -> bool {
    match turn {
        Turn::OfWaiter => match h.waiter {
            Waiter::Arriving => !h.held,
            Waiter::Looking | Waiter::Satisfied => true,
            Waiter::Asleep => h.woken,
            Waiter::Gone => false,
        },
        Turn::OfNotifier => match h.notifier {
            Notifier::Arriving => !h.held,
            Notifier::Gone => false,
            _ => true,
        },
    }
}

/// The state after the step of the thread whose turn it is.
pub open spec fn advance(h: Handshake, turn: Turn) -> Handshake {
    match turn {
        Turn::OfWaiter => match h.waiter {
            Waiter::Arriving => Handshake { waiter: Waiter::Looking, held: true, ..h },
            Waiter::Looking => if h.flag {
                Handshake { waiter: Waiter::Satisfied, ..h }
            } else {
                Handshake { waiter: Waiter::Asleep, held: false, woken: false, ..h }
            },
            Waiter::Asleep => Handshake { waiter: Waiter::Arriving, woken: false, ..h },
            Waiter::Satisfied => Handshake { waiter: Waiter::Gone, held: false, ..h },
            Waiter::Gone => h,
        },
        Turn::OfNotifier => match h.notifier {
            Notifier::Arriving => Handshake { notifier: Notifier::Raising, held: true, ..h },
            Notifier::Raising => Handshake { notifier: Notifier::Releasing, flag: true, ..h },
            Notifier::Releasing => Handshake { notifier: Notifier::Notifying, held: false, ..h },
            Notifier::Notifying => Handshake {
                notifier: Notifier::Gone,
                woken: h.waiter == Waiter::Asleep,
                ..h
            },
            Notifier::Gone => h,
        },
    }
}

/// What holds in every state that steps lead to: the lock is held by
/// exactly the thread that is in the middle of its critical section, the
/// flag is up once the notifier has raised it, and a waiter that sleeps
/// unnotified still has its notification coming.
pub open spec fn orderly(h: Handshake) -> bool {
    &&& h.held <==> (h.waiter == Waiter::Looking || h.waiter == Waiter::Satisfied || h.notifier
        == Notifier::Raising || h.notifier == Notifier::Releasing)
    &&& !((h.waiter == Waiter::Looking || h.waiter == Waiter::Satisfied) && (h.notifier
        == Notifier::Raising || h.notifier == Notifier::Releasing))
    &&& h.flag <==> (h.notifier == Notifier::Releasing || h.notifier == Notifier::Notifying
        || h.notifier == Notifier::Gone)
    &&& (h.waiter == Waiter::Satisfied || h.waiter == Waiter::Gone ==> h.flag)
    &&& (h.waiter == Waiter::Asleep && !h.woken ==> h.notifier != Notifier::Gone)
    &&& (h.woken ==> h.waiter == Waiter::Asleep)
}

/// The state after a sequence of turns, oldest first.
pub open spec fn play(h: Handshake, turns: Seq<Turn>) -> Handshake
    decreases turns.len(),
{
    if turns.len() == 0 {
        h
    } else {
        advance(play(h, turns.drop_last()), turns.last())
    }
}

/// Every turn of the sequence is taken by a thread that can step.
pub open spec fn playable(h: Handshake, turns: Seq<Turn>) -> bool
    decreases turns.len(),
{
    turns.len() > 0 ==> playable(h, turns.drop_last()) && can_step(
        play(h, turns.drop_last()),
        turns.last(),
    )
}

/// A step keeps the state orderly.
pub proof fn law_step_keeps_order(h: Handshake, turn: Turn)
    requires
        orderly(h),
        can_step(h, turn),
    ensures
        orderly(advance(h, turn)),
{
}

/// However the two threads are interleaved, the wake-up is not lost: the
/// waiter is never left asleep and unnotified by a notifier that has gone
/// on. Until both have gone on one of them can step, and the waiter goes on
/// only with the flag up.
pub proof fn law_no_lost_wakeup(turns: Seq<Turn>)
    requires
        playable(begin(), turns),
    ensures
        orderly(play(begin(), turns)),
        !(play(begin(), turns).waiter == Waiter::Asleep && !play(begin(), turns).woken && play(
            begin(),
            turns,
        ).notifier == Notifier::Gone),
        play(begin(), turns).waiter == Waiter::Gone ==> play(begin(), turns).flag,
        !(play(begin(), turns).waiter == Waiter::Gone && play(begin(), turns).notifier
            == Notifier::Gone) ==> can_step(play(begin(), turns), Turn::OfWaiter) || can_step(
            play(begin(), turns),
            Turn::OfNotifier,
        ),
    decreases turns.len(),
{
    if turns.len() > 0 {
        law_no_lost_wakeup(turns.drop_last());
        law_step_keeps_order(play(begin(), turns.drop_last()), turns.last());
    }
}

} // verus!
