//! Owning and non-owning handles whose counters are atomic, for values that
//! several threads share.
//!
//! The counts follow the same rules as in [`crate::rc`]; what differs is how
//! they are reached: by single indivisible accesses, each with the weakest
//! memory ordering that keeps destruction safe.
use crate::atomic::{Access, AtomicCounter, MemOrder};
use crate::rc::{Block, RcError};
use vstd::prelude::*;

verus! {

/// The largest count a shared block accepts. Half the word, so that an
/// increment that is undone a moment later can never wrap around.
pub const MAX_SHARED: usize = usize::MAX / 2;

/// Which counter of a block an access went to.
pub enum Counter {
    Strong,
    Weak,
}

/// One atomic access to a counter of the block in `slot`.
pub struct Event {
    pub slot: int,
    pub counter: Counter,
    pub access: Access,
}

/// Owning handle to a shared block.
pub struct AtomicStrongHandle {
    slot: usize,
}

/// Non-owning handle to a shared block.
pub struct AtomicWeakHandle {
    slot: usize,
}

impl AtomicStrongHandle {
    /// The slot of the block that the handle refers to.
    pub closed spec fn view(&self) -> int {
        self.slot as int
    }
}

impl AtomicWeakHandle {
    /// The slot of the block that the handle refers to.
    pub closed spec fn view(&self) -> int {
        self.slot as int
    }
}

/// The executable control block of a shared value.
///
/// The weak counter counts one more than the non-owning handles while any
/// owning handle exists: the owners together hold one reference to the
/// block. So each of the two decisions that may be taken once only, to
/// destruct the payload and to deallocate the block, falls to the one thread
/// whose decrement took a counter from one to zero.
pub struct SharedBlock<T> {
    value: Option<T>,
    strong: AtomicCounter,
    weak: AtomicCounter,
}

/// The reference to the block that the owners hold together.
pub open spec fn owners_share(strong: nat) -> nat {
    if strong > 0 {
        1
    } else {
        0
    }
}

/// What the weak counter of a block holds: its non-owning handles and the
/// owners' share.
pub open spec fn weak_counter<T>(b: Block<T>) -> nat {
    b.weak + owners_share(b.strong)
}

impl<T> SharedBlock<T> {
    pub closed spec fn view(&self) -> Block<T> {
        Block {
            value: self.value,
            strong: self.strong@ as nat,
            weak: (self.weak@ - owners_share(self.strong@ as nat)) as nat,
        }
    }

    spec fn coherent(&self) -> bool {
        &&& self.strong@ <= MAX_SHARED
        &&& 0 < self.weak@ <= MAX_SHARED
        &&& self.weak@ >= owners_share(self.strong@ as nat)
        &&& (self.value is Some <==> self.strong@ > 0)
    }
}

/// What one attempt to upgrade came to.
pub enum UpgradeStep {
    /// The count was raised; here is the owning handle.
    Granted(AtomicStrongHandle),
    /// No owning handle is left: there is nothing to upgrade to.
    Gone,
    /// The count had moved on since it was observed; this is its value now.
    Retry(usize),
    /// One more owning handle would not fit in the counter.
    Overflow,
}

/// All control blocks that the threads of a program share.
pub struct SharedHeap<T> {
    slots: Vec<Option<SharedBlock<T>>>,
    limit: usize,
    log: Ghost<Seq<Event>>,
}

/// The events that the strong counter of `slot` contributes for `accesses`.
pub open spec fn on_strong(slot: int, accesses: Seq<Access>) -> Seq<Event> {
    Seq::new(accesses.len(), |i: int| Event { slot, counter: Counter::Strong, access: accesses[i] })
}

/// The events that the weak counter of `slot` contributes for `accesses`.
pub open spec fn on_weak(slot: int, accesses: Seq<Access>) -> Seq<Event> {
    Seq::new(accesses.len(), |i: int| Event { slot, counter: Counter::Weak, access: accesses[i] })
}

impl<T> SharedHeap<T> {
    pub closed spec fn view(&self) -> Seq<Option<Block<T>>> {
        Seq::new(
            self.slots@.len(),
            |i: int|
                match self.slots@[i] {
                    Some(cb) => Some(cb@),
                    None => None,
                },
        )
    }

    /// Every atomic access made so far, oldest first.
    pub closed spec fn log(&self) -> Seq<Event> {
        self.log@
    }

    /// The largest count that a block of this heap accepts.
    pub closed spec fn limit(&self) -> nat {
        self.limit as nat
    }

    /// Every allocated block is referenced, holds a payload exactly while it
    /// is owned, and has counters within the accepted range.
    pub closed spec fn wf(&self) -> bool {
        &&& 1 <= self.limit <= MAX_SHARED
        &&& forall|i: int|
            0 <= i < self.slots@.len() ==> (#[trigger] self.slots@[i] matches Some(cb)
                ==> cb.coherent())
    }

    /// What well-formedness says of an allocated block.
    pub proof fn lemma_wf(&self, slot: int)
        requires
            self.wf(),
            self.allocated(slot),
        ensures
            self.block(slot).wf(),
            !self.block(slot).unreferenced(),
            self.block(slot).strong <= MAX_SHARED,
            weak_counter(self.block(slot)) <= MAX_SHARED,
            1 <= self.limit() <= MAX_SHARED,
    {
        assert(self.slots@[slot] is Some);
    }

    /// The slot holds an allocated block.
    pub open spec fn allocated(&self, slot: int) -> bool {
        0 <= slot < self@.len() && self@[slot] is Some
    }

    /// The block in an allocated slot.
    pub open spec fn block(&self, slot: int) -> Block<T> {
        self@[slot]->0
    }

    /// The handle is one of the owning handles counted in its block.
    pub open spec fn owns(&self, h: &AtomicStrongHandle) -> bool {
        self.allocated(h@) && self.block(h@).strong > 0
    }

    /// The handle is one of the non-owning handles counted in its block.
    pub open spec fn observes(&self, w: &AtomicWeakHandle) -> bool {
        self.allocated(w@) && self.block(w@).weak > 0
    }

    /// What stays in a slot once its block has the given state.
    pub open spec fn retained(b: Block<T>) -> Option<Block<T>> {
        if b.unreferenced() {
            None
        } else {
            Some(b)
        }
    }

    /// A heap whose counters count up to [`MAX_SHARED`].
    pub fn new() -> (heap: SharedHeap<T>)
        ensures
            heap.wf(),
            heap@.len() == 0,
            heap.limit() == MAX_SHARED,
            heap.log() == Seq::<Event>::empty(),
    {
        SharedHeap { slots: Vec::new(), limit: MAX_SHARED, log: Ghost(Seq::empty()) }
    }

    /// A heap whose counters count up to `limit`, which is at least one and
    /// at most [`MAX_SHARED`].
    pub fn with_limit(limit: usize) -> (heap: SharedHeap<T>)
        requires
            1 <= limit <= MAX_SHARED,
        ensures
            heap.wf(),
            heap@.len() == 0,
            heap.limit() == limit,
            heap.log() == Seq::<Event>::empty(),
    {
        SharedHeap { slots: Vec::new(), limit, log: Ghost(Seq::empty()) }
    }

    /// The largest count that a block of this heap accepts.
    pub fn count_limit(&self) -> (limit: usize)
        ensures
            limit == self.limit(),
    {
        self.limit
    }

    /// Allocates a control block for `value` and returns its first owning
    /// handle.
    pub fn new_strong(&mut self, value: T) -> (h: AtomicStrongHandle)
        requires
            old(self).wf(),
        ensures
            final(self).wf(),
            final(self).limit() == old(self).limit(),
            h@ == old(self)@.len(),
            final(self)@ == old(self)@.push(Some(Block::fresh(value))),
            final(self).log() == old(self).log(),
    {
        let slot = self.slots.len();
        self.slots.push(
            Some(
                SharedBlock {
                    value: Some(value),
                    strong: AtomicCounter::new(1),
                    weak: AtomicCounter::new(1),
                },
            ),
        );
        assert(self@ =~= old(self)@.push(Some(Block::fresh(value))));
        AtomicStrongHandle { slot }
    }

    /// How many owning handles the block of `h` has at this moment.
    pub fn strong_count(&self, h: &AtomicStrongHandle) -> (n: usize)
        requires
            self.wf(),
            self.owns(h),
        ensures
            n == self.block(h@).strong,
    {
        match &self.slots[h.slot] {
            Some(cb) => cb.strong.peek(),
            None => 0,
        }
    }

    /// How many non-owning handles the block of `h` has at this moment.
    pub fn weak_count(&self, h: &AtomicStrongHandle) -> (n: usize)
        requires
            self.wf(),
            self.owns(h),
        ensures
            n == self.block(h@).weak,
    {
        match &self.slots[h.slot] {
            Some(cb) => cb.weak.peek() - 1,
            None => 0,
        }
    }

    /// The payload behind an owning handle.
    pub fn deref(&self, h: &AtomicStrongHandle) -> (value: &T)
        requires
            self.wf(),
            self.owns(h),
        ensures
            self.block(h@).value == Some(*value),
    {
        match &self.slots[h.slot] {
            Some(cb) => {
                assert(cb@ == self.block(h@));
                cb.value.as_ref().unwrap()
            },
            None => unreached(),
        }
    }

    /// The payload behind an owning handle, for a payload that is itself a
    /// cell or a counter and is changed through its own operations.
    pub fn payload_mut(&mut self, h: &AtomicStrongHandle) -> (value: &mut T)
        requires
            old(self).wf(),
            old(self).owns(h),
        ensures
            old(self).block(h@).value == Some(*value),
            final(self)@ == old(self)@.update(
                h@,
                Some(Block { value: Some(*final(value)), ..old(self).block(h@) }),
            ),
            final(self).log() == old(self).log(),
            final(self).limit() == old(self).limit(),
            final(self).wf(),
    {
        match &mut self.slots[h.slot] {
            Some(cb) => match &mut cb.value {
                Some(v) => v,
                None => unreached(),
            },
            None => unreached(),
        }
    }

    /// One more owning handle to the block of `h`: a relaxed increment, since
    /// the payload is already visible to whoever holds `h`.
    pub fn clone_strong(&mut self, h: &AtomicStrongHandle) -> (r: Result<
        AtomicStrongHandle,
        RcError,
    >)
        requires
            old(self).wf(),
            old(self).owns(h),
        ensures
            final(self).wf(),
            final(self).limit() == old(self).limit(),
            match r {
                Ok(h2) => old(self).block(h@).strong < old(self).limit() && h2@ == h@ && final(self)@
                    == old(self)@.update(h@, Some(old(self).block(h@).after_clone()))
                    && final(self).log() == old(self).log() + on_strong(
                    h@,
                    seq![Access::FetchAdd(MemOrder::Relaxed)],
                ),
                Err(e) => e == RcError::CountOverflow && old(self).block(h@).strong >= old(self).limit()
                    && final(self)@ == old(self)@ && final(self).log() == old(self).log()
                    + on_strong(
                    h@,
                    seq![Access::FetchAdd(MemOrder::Relaxed), Access::FetchSub(MemOrder::Relaxed)],
                ),
            },
    {
        let slot = h.slot;
        let limit = self.limit;
        let ghost mut delta: Seq<Access> = Seq::empty();
        let mut overflow = false;
        match &mut self.slots[slot] {
            Some(cb) => {
                let ghost t0 = cb.strong.trace();
                let previous = cb.strong.fetch_add(1, MemOrder::Relaxed);
                if previous >= limit {
                    cb.strong.fetch_sub(1, MemOrder::Relaxed);
                    overflow = true;
                }
                proof {
                    delta = cb.strong.trace().skip(t0.len() as int);
                    if overflow {
                        assert(delta =~= seq![
                            Access::FetchAdd(MemOrder::Relaxed),
                            Access::FetchSub(MemOrder::Relaxed),
                        ]);
                    } else {
                        assert(delta =~= seq![Access::FetchAdd(MemOrder::Relaxed)]);
                    }
                }
            },
            None => {},
        }
        self.log = Ghost(self.log@ + on_strong(slot as int, delta));
        if overflow {
            assert(self@ =~= old(self)@);
            Err(RcError::CountOverflow)
        } else {
            assert(self@ =~= old(self)@.update(h@, Some(old(self).block(h@).after_clone())));
            Ok(AtomicStrongHandle { slot })
        }
    }

    /// A non-owning handle to the block of `h`: a relaxed increment.
    pub fn downgrade(&mut self, h: &AtomicStrongHandle) -> (r: Result<AtomicWeakHandle, RcError>)
        requires
            old(self).wf(),
            old(self).owns(h),
        ensures
            final(self).wf(),
            final(self).limit() == old(self).limit(),
            Self::raised(old(self), final(self), h@, r is Err),
            match r {
                Ok(w) => w@ == h@,
                Err(e) => e == RcError::CountOverflow,
            },
    {
        let slot = h.slot;
        let overflow = self.raise_weak(slot);
        if overflow {
            Err(RcError::CountOverflow)
        } else {
            Ok(AtomicWeakHandle { slot })
        }
    }

    /// One more non-owning handle to the block of `w`: a relaxed increment.
    pub fn clone_weak(&mut self, w: &AtomicWeakHandle) -> (r: Result<AtomicWeakHandle, RcError>)
        requires
            old(self).wf(),
            old(self).observes(w),
        ensures
            final(self).wf(),
            final(self).limit() == old(self).limit(),
            Self::raised(old(self), final(self), w@, r is Err),
            match r {
                Ok(w2) => w2@ == w@,
                Err(e) => e == RcError::CountOverflow,
            },
    {
        let slot = w.slot;
        let overflow = self.raise_weak(slot);
        if overflow {
            Err(RcError::CountOverflow)
        } else {
            Ok(AtomicWeakHandle { slot })
        }
    }

    /// How the heap `after` follows from `before` when one more non-owning
    /// handle to the block in `slot` was asked for. The request overflows
    /// exactly when the weak counter is full; the increment is then taken
    /// back.
    pub open spec fn raised(
        before: &SharedHeap<T>,
        after: &SharedHeap<T>,
        slot: int,
        overflow: bool,
    ) -> bool {
        &&& overflow == (weak_counter(before.block(slot)) >= before.limit())
        &&& overflow ==> after@ == before@ && after.log() == before.log() + on_weak(
            slot,
            seq![Access::FetchAdd(MemOrder::Relaxed), Access::FetchSub(MemOrder::Relaxed)],
        )
        &&& !overflow ==> after@ == before@.update(
            slot,
            Some(before.block(slot).after_downgrade()),
        ) && after.log() == before.log() + on_weak(
            slot,
            seq![Access::FetchAdd(MemOrder::Relaxed)],
        )
    }

    /// Raises the weak counter of an allocated block by one, and takes the
    /// increment back if the counter was full.
    fn raise_weak(&mut self, slot: usize) -> (overflow: bool)
        requires
            old(self).wf(),
            old(self).allocated(slot as int),
        ensures
            final(self).wf(),
            final(self).limit() == old(self).limit(),
            Self::raised(old(self), final(self), slot as int, overflow),
    {
        let limit = self.limit;
        let ghost mut delta: Seq<Access> = Seq::empty();
        let mut overflow = false;
        match &mut self.slots[slot] {
            Some(cb) => {
                let ghost t0 = cb.weak.trace();
                let previous = cb.weak.fetch_add(1, MemOrder::Relaxed);
                if previous >= limit {
                    cb.weak.fetch_sub(1, MemOrder::Relaxed);
                    overflow = true;
                }
                proof {
                    delta = cb.weak.trace().skip(t0.len() as int);
                    if overflow {
                        assert(delta =~= seq![
                            Access::FetchAdd(MemOrder::Relaxed),
                            Access::FetchSub(MemOrder::Relaxed),
                        ]);
                    } else {
                        assert(delta =~= seq![Access::FetchAdd(MemOrder::Relaxed)]);
                    }
                }
            },
            None => {},
        }
        self.log = Ghost(self.log@ + on_weak(slot as int, delta));
        if overflow {
            assert(self@ =~= old(self)@);
        } else {
            assert(self@ =~= old(self)@.update(
                slot as int,
                Some(old(self).block(slot as int).after_downgrade()),
            ));
        }
        overflow
    }

    /// The accesses by which a handle is given up: a release decrement, and
    /// an acquire fence if the decrement took the counter to zero.
    pub open spec fn drop_accesses(to_zero: bool) -> Seq<Access> {
        if to_zero {
            seq![Access::FetchSub(MemOrder::Release), Access::Fence(MemOrder::Acquire)]
        } else {
            seq![Access::FetchSub(MemOrder::Release)]
        }
    }

    /// The accesses by which the last owner gives up the owners' share of
    /// the block; none for an owner that is not the last.
    pub open spec fn share_accesses(last_owner: bool, to_zero: bool) -> Seq<Access> {
        if last_owner {
            Self::drop_accesses(to_zero)
        } else {
            Seq::empty()
        }
    }

    /// Gives up one owning handle.
    ///
    /// The decrement releases, so that everything this thread wrote to the
    /// payload is published. Only the thread that takes the count to zero
    /// fences to acquire, and only then takes the payload out. That thread
    /// then gives up the owners' share of the block, and deallocates the
    /// block if this takes the weak counter to zero.
    pub fn drop_strong(&mut self, h: AtomicStrongHandle) -> (payload: Option<T>)
        requires
            old(self).wf(),
            old(self).owns(&h),
        ensures
            final(self).wf(),
            final(self).limit() == old(self).limit(),
            payload == (if old(self).block(h@).strong == 1 {
                old(self).block(h@).value
            } else {
                None
            }),
            final(self)@ == old(self)@.update(
                h@,
                Self::retained(old(self).block(h@).after_drop()),
            ),
            final(self).log() == old(self).log() + on_strong(
                h@,
                Self::drop_accesses(old(self).block(h@).strong == 1),
            ) + on_weak(
                h@,
                Self::share_accesses(
                    old(self).block(h@).strong == 1,
                    old(self).block(h@).weak == 0,
                ),
            ),
    {
        let slot = h.slot;
        let ghost last = old(self).block(h@).strong == 1;
        let ghost to_zero = old(self).block(h@).weak == 0;
        let ghost mut on_own: Seq<Access> = Seq::empty();
        let ghost mut on_share: Seq<Access> = Seq::empty();
        let mut payload: Option<T> = None;
        let mut unreferenced = false;
        match &mut self.slots[slot] {
            Some(cb) => {
                let ghost t0 = cb.strong.trace();
                let ghost u0 = cb.weak.trace();
                let previous = cb.strong.fetch_sub(1, MemOrder::Release);
                if previous == 1 {
                    cb.strong.fence(MemOrder::Acquire);
                    payload = cb.value.take();
                    let shared = cb.weak.fetch_sub(1, MemOrder::Release);
                    if shared == 1 {
                        cb.weak.fence(MemOrder::Acquire);
                        unreferenced = true;
                    }
                }
                proof {
                    on_own = cb.strong.trace().skip(t0.len() as int);
                    on_share = cb.weak.trace().skip(u0.len() as int);
                    assert(on_own =~= Self::drop_accesses(last));
                    assert(on_share =~= Self::share_accesses(last, to_zero));
                }
            },
            None => {},
        }
        if unreferenced {
            let _ = self.slots[slot].take();
        }
        self.log = Ghost(self.log@ + on_strong(slot as int, on_own) + on_weak(slot as int, on_share));
        assert(self@ =~= old(self)@.update(
            h@,
            Self::retained(old(self).block(h@).after_drop()),
        ));
        payload
    }

    /// Gives up one non-owning handle: a release decrement. The thread that
    /// takes the weak counter to zero fences to acquire and deallocates the
    /// block; that can only be after the last owner has given up the owners'
    /// share.
    pub fn drop_weak(&mut self, w: AtomicWeakHandle)
        requires
            old(self).wf(),
            old(self).observes(&w),
        ensures
            final(self).wf(),
            final(self).limit() == old(self).limit(),
            final(self)@ == old(self)@.update(
                w@,
                Self::retained(old(self).block(w@).after_weak_drop()),
            ),
            final(self).log() == old(self).log() + on_weak(
                w@,
                Self::drop_accesses(weak_counter(old(self).block(w@)) == 1),
            ),
    {
        let slot = w.slot;
        let ghost to_zero = weak_counter(old(self).block(w@)) == 1;
        let ghost mut on_own: Seq<Access> = Seq::empty();
        let mut unreferenced = false;
        match &mut self.slots[slot] {
            Some(cb) => {
                let ghost t0 = cb.weak.trace();
                let previous = cb.weak.fetch_sub(1, MemOrder::Release);
                if previous == 1 {
                    cb.weak.fence(MemOrder::Acquire);
                    unreferenced = true;
                }
                proof {
                    on_own = cb.weak.trace().skip(t0.len() as int);
                    assert(on_own =~= Self::drop_accesses(to_zero));
                }
            },
            None => {},
        }
        if unreferenced {
            let _ = self.slots[slot].take();
        }
        self.log = Ghost(self.log@ + on_weak(slot as int, on_own));
        assert(self@ =~= old(self)@.update(
            w@,
            Self::retained(old(self).block(w@).after_weak_drop()),
        ));
    }

    /// How many owning handles the block behind a non-owning handle has at
    /// this moment.
    pub fn owners(&self, w: &AtomicWeakHandle) -> (n: usize)
        requires
            self.observes(w),
        ensures
            n == self.block(w@).strong,
    {
        match &self.slots[w.slot] {
            Some(cb) => cb.strong.peek(),
            None => 0,
        }
    }

    /// One attempt to turn a non-owning handle into an owning one, made by a
    /// thread that has seen the strong count at `observed`, perhaps a while
    /// ago.
    ///
    /// The count is raised by one compare-and-swap against `observed`, so
    /// that it cannot have dropped to zero between the check and the
    /// increment. An attempt that lost the race changes nothing and reports
    /// the count as it is now.
    pub fn upgrade_attempt(&mut self, w: &AtomicWeakHandle, observed: usize) -> (step: UpgradeStep)
        requires
            old(self).wf(),
            old(self).observes(w),
        ensures
            final(self).wf(),
            final(self).limit() == old(self).limit(),
            match step {
                UpgradeStep::Gone => observed == 0 && final(self)@ == old(self)@ && final(self).log()
                    == old(self).log(),
                UpgradeStep::Overflow => observed >= old(self).limit() && final(self)@ == old(self)@
                    && final(self).log() == old(self).log(),
                UpgradeStep::Granted(h) => 0 < observed < old(self).limit() && observed == old(self).block(
                    w@,
                ).strong && h@ == w@ && final(self)@ == old(self)@.update(
                    w@,
                    Some(old(self).block(w@).after_clone()),
                ) && final(self).log() == old(self).log() + on_strong(
                    w@,
                    seq![Access::CompareExchange { swapped: true, order: MemOrder::Acquire }],
                ),
                UpgradeStep::Retry(now) => 0 < observed < old(self).limit() && observed != old(self).block(
                    w@,
                ).strong && now == old(self).block(w@).strong && final(self)@ == old(self)@
                    && final(self).log() == old(self).log() + on_strong(
                    w@,
                    seq![Access::CompareExchange { swapped: false, order: MemOrder::Acquire }],
                ),
            },
    {
        if observed == 0 {
            return UpgradeStep::Gone;
        }
        if observed >= self.limit {
            return UpgradeStep::Overflow;
        }
        let slot = w.slot;
        let ghost mut delta: Seq<Access> = Seq::empty();
        let mut outcome: Result<usize, usize> = Ok(0);
        match &mut self.slots[slot] {
            Some(cb) => {
                let ghost t0 = cb.strong.trace();
                outcome = cb.strong.compare_exchange(observed, observed + 1, MemOrder::Acquire);
                proof {
                    delta = cb.strong.trace().skip(t0.len() as int);
                    assert(delta =~= seq![
                        Access::CompareExchange { swapped: outcome is Ok, order: MemOrder::Acquire },
                    ]);
                }
            },
            None => {},
        }
        self.log = Ghost(self.log@ + on_strong(slot as int, delta));
        match outcome {
            Ok(_) => {
                assert(self@ =~= old(self)@.update(w@, Some(old(self).block(w@).after_clone())));
                UpgradeStep::Granted(AtomicStrongHandle { slot })
            },
            Err(now) => {
                assert(self@ =~= old(self)@);
                UpgradeStep::Retry(now)
            },
        }
    }

    /// An owning handle from a non-owning one, if the payload is still alive:
    /// a relaxed load, then attempts until one is not lost to a race.
    pub fn upgrade(&mut self, w: &AtomicWeakHandle) -> (r: Result<
        Option<AtomicStrongHandle>,
        RcError,
    >)
        requires
            old(self).wf(),
            old(self).observes(w),
        ensures
            final(self).wf(),
            final(self).limit() == old(self).limit(),
            match r {
                Ok(Some(h)) => 0 < old(self).block(w@).strong < old(self).limit() && h@ == w@ && final(self)@
                    == old(self)@.update(w@, Some(old(self).block(w@).after_clone())) && final(self).log() == old(self).log() + on_strong(
                    w@,
                    seq![
                        Access::Load(MemOrder::Relaxed),
                        Access::CompareExchange { swapped: true, order: MemOrder::Acquire },
                    ],
                ),
                Ok(None) => old(self).block(w@).strong == 0 && final(self)@ == old(self)@
                    && final(self).log() == old(self).log() + on_strong(
                    w@,
                    seq![Access::Load(MemOrder::Relaxed)],
                ),
                Err(e) => e == RcError::CountOverflow && old(self).block(w@).strong >= old(self).limit()
                    && final(self)@ == old(self)@ && final(self).log() == old(self).log()
                    + on_strong(w@, seq![Access::Load(MemOrder::Relaxed)]),
            },
    {
        let slot = w.slot;
        let ghost mut delta: Seq<Access> = Seq::empty();
        let mut observed: usize = 0;
        match &mut self.slots[slot] {
            Some(cb) => {
                let ghost t0 = cb.strong.trace();
                observed = cb.strong.load(MemOrder::Relaxed);
                proof {
                    delta = cb.strong.trace().skip(t0.len() as int);
                    assert(delta =~= seq![Access::Load(MemOrder::Relaxed)]);
                }
            },
            None => {},
        }
        self.log = Ghost(self.log@ + on_strong(slot as int, delta));
        assert(self@ =~= old(self)@);
        let ghost loaded = self.log();
        loop
            invariant
                self.wf(),
                self.observes(w),
                self@ == old(self)@,
                self.limit() == old(self).limit(),
                self.log() == loaded,
                loaded == old(self).log() + on_strong(w@, seq![Access::Load(MemOrder::Relaxed)]),
                observed == self.block(w@).strong,
                observed <= MAX_SHARED,
            decreases 0int,
        {
            match self.upgrade_attempt(w, observed) {
                UpgradeStep::Granted(h) => {
                    proof {
                        let one = seq![Access::Load(MemOrder::Relaxed)];
                        let two = seq![
                            Access::CompareExchange { swapped: true, order: MemOrder::Acquire },
                        ];
                        assert(on_strong(w@, one) + on_strong(w@, two) =~= on_strong(
                            w@,
                            seq![
                                Access::Load(MemOrder::Relaxed),
                                Access::CompareExchange { swapped: true, order: MemOrder::Acquire },
                            ],
                        ));
                        assert(self.log() == old(self).log() + (on_strong(w@, one) + on_strong(
                            w@,
                            two,
                        )));
                    }
                    return Ok(Some(h));
                },
                UpgradeStep::Gone => {
                    return Ok(None);
                },
                UpgradeStep::Overflow => {
                    return Err(RcError::CountOverflow);
                },
                UpgradeStep::Retry(now) => {
                    observed = now;
                },
            }
        }
    }
}

} // verus!
