//! Single-threaded owning and non-owning handles over plain counters.
use core::marker::PhantomData;
use std::rc::Rc;
use vstd::prelude::*;

verus! {

/// Binds whatever holds it to the thread that made it: a value with this
/// marker can neither be sent to another thread nor be shared with one.
pub struct ThreadBound {
    marker: PhantomData<Rc<()>>,
}

impl ThreadBound {
    pub fn new() -> ThreadBound {
        ThreadBound { marker: PhantomData }
    }
}

/// What one control block holds, as the contracts see it.
///
/// `value` is present exactly while `strong > 0`; the block itself stays
/// allocated while either count is positive.
pub struct Block<T> {
    pub value: Option<T>,
    pub strong: nat,
    pub weak: nat,
}

impl<T> Block<T> {
    /// The block that the first owning handle creates.
    pub open spec fn fresh(value: T) -> Block<T> {
        Block { value: Some(value), strong: 1, weak: 0 }
    }

    /// The payload is alive exactly while an owning handle exists.
    pub open spec fn wf(self) -> bool {
        self.value is Some <==> self.strong > 0
    }

    /// Neither kind of handle refers to the block any more.
    pub open spec fn unreferenced(self) -> bool {
        self.strong == 0 && self.weak == 0
    }

    pub open spec fn after_clone(self) -> Block<T> {
        Block { strong: self.strong + 1, ..self }
    }

    /// One owning handle less; the payload leaves with the last one.
    pub open spec fn after_drop(self) -> Block<T> {
        if self.strong == 1 {
            Block { value: None, strong: 0, weak: self.weak }
        } else {
            Block { strong: (self.strong - 1) as nat, ..self }
        }
    }

    pub open spec fn after_downgrade(self) -> Block<T> {
        Block { weak: self.weak + 1, ..self }
    }

    pub open spec fn after_weak_drop(self) -> Block<T> {
        Block { weak: (self.weak - 1) as nat, ..self }
    }
}

/// Why a counting operation could not be carried out.
#[derive(Clone, Copy, Debug, PartialEq, Eq, Structural)]
pub enum RcError {
    /// One more handle would not fit in the counter.
    CountOverflow,
}

/// The executable control block: the payload and its two counters.
pub struct ControlBlock<T> {
    value: Option<T>,
    strong: usize,
    weak: usize,
}

impl<T> ControlBlock<T> {
    pub closed spec fn view(&self) -> Block<T> {
        Block { value: self.value, strong: self.strong as nat, weak: self.weak as nat }
    }
}

/// Owning handle: keeps the payload of its block alive.
pub struct StrongHandle {
    slot: usize,
    thread: ThreadBound,
}

/// Non-owning handle: keeps the block allocated, not the payload.
pub struct WeakHandle {
    slot: usize,
    thread: ThreadBound,
}

impl StrongHandle {
    /// The slot of the block that the handle refers to.
    pub closed spec fn view(&self) -> int {
        self.slot as int
    }

    /// The slot of the block that the handle refers to.
    pub fn slot(&self) -> (slot: usize)
        ensures
            slot == self@,
    {
        self.slot
    }
}

impl WeakHandle {
    /// The slot of the block that the handle refers to.
    pub closed spec fn view(&self) -> int {
        self.slot as int
    }

    /// The slot of the block that the handle refers to.
    pub fn slot(&self) -> (slot: usize)
        ensures
            slot == self@,
    {
        self.slot
    }
}

/// All control blocks of one thread. A slot is `None` once its block has been
/// deallocated.
pub struct Heap<T> {
    slots: Vec<Option<ControlBlock<T>>>,
    limit: usize,
    thread: ThreadBound,
}

impl<T> Heap<T> {
    pub closed spec fn view(&self) -> Seq<Option<Block<T>>> {
        Seq::new(
            self.slots@.len(),
            |i: int|
                match self.slots@[i] {
                    Some(cb) => Some(cb@),
                    None => None,
                },
        )
    }

    /// The largest count that a block of this heap accepts.
    pub closed spec fn limit(&self) -> nat {
        self.limit as nat
    }

    /// The counters count at least to one, and every allocated block is
    /// referenced and holds a payload exactly while it is owned.
    pub open spec fn wf(&self) -> bool {
        &&& self.limit() >= 1
        &&& forall|i: int|
            0 <= i < self@.len() ==> (#[trigger] self@[i] matches Some(b) ==> b.wf()
                && !b.unreferenced())
    }

    /// The slot holds an allocated block.
    pub open spec fn allocated(&self, slot: int) -> bool {
        0 <= slot < self@.len() && self@[slot] is Some
    }

    /// The block in an allocated slot.
    pub open spec fn block(&self, slot: int) -> Block<T> {
        self@[slot]->0
    }

    /// The handle is one of the owning handles counted in its block.
    pub open spec fn owns(&self, h: &StrongHandle) -> bool {
        self.allocated(h@) && self.block(h@).strong > 0
    }

    /// The handle is one of the non-owning handles counted in its block.
    pub open spec fn observes(&self, w: &WeakHandle) -> bool {
        self.allocated(w@) && self.block(w@).weak > 0
    }

    /// A heap whose counters use the whole machine word.
    pub fn new() -> (heap: Heap<T>)
        ensures
            heap.wf(),
            heap@.len() == 0,
            heap.limit() == usize::MAX,
    {
        Heap { slots: Vec::new(), limit: usize::MAX, thread: ThreadBound::new() }
    }

    /// A heap whose counters count up to `limit`, which is at least one.
    pub fn with_limit(limit: usize) -> (heap: Heap<T>)
        requires
            limit >= 1,
        ensures
            heap.wf(),
            heap@.len() == 0,
            heap.limit() == limit,
    {
        Heap { slots: Vec::new(), limit, thread: ThreadBound::new() }
    }

    /// The largest count that a block of this heap accepts.
    pub fn count_limit(&self) -> (limit: usize)
        ensures
            limit == self.limit(),
    {
        self.limit
    }

    /// Allocates a control block for `value` and returns its first owning
    /// handle.
    pub fn new_strong(&mut self, value: T) -> (h: StrongHandle)
        requires
            old(self).wf(),
        ensures
            final(self).wf(),
            final(self).limit() == old(self).limit(),
            h@ == old(self)@.len(),
            final(self)@ == old(self)@.push(Some(Block::fresh(value))),
    {
        let slot = self.slots.len();
        self.slots.push(Some(ControlBlock { value: Some(value), strong: 1, weak: 0 }));
        assert(self@ =~= old(self)@.push(Some(Block::fresh(value))));
        StrongHandle { slot, thread: ThreadBound::new() }
    }

    fn strong_of(&self, slot: usize) -> (n: usize)
        requires
            self.allocated(slot as int),
        ensures
            n == self.block(slot as int).strong,
    {
        match &self.slots[slot] {
            Some(cb) => cb.strong,
            None => 0,
        }
    }

    fn weak_of(&self, slot: usize) -> (n: usize)
        requires
            self.allocated(slot as int),
        ensures
            n == self.block(slot as int).weak,
    {
        match &self.slots[slot] {
            Some(cb) => cb.weak,
            None => 0,
        }
    }

    /// One more owning handle to the block of `h`.
    pub fn clone_strong(&mut self, h: &StrongHandle) -> (r: Result<StrongHandle, RcError>)
        requires
            old(self).wf(),
            old(self).owns(h),
        ensures
            final(self).wf(),
            final(self).limit() == old(self).limit(),
            match r {
                Ok(h2) => old(self).block(h@).strong < old(self).limit() && h2@ == h@ && final(self)@
                    == old(self)@.update(h@, Some(old(self).block(h@).after_clone())),
                Err(e) => e == RcError::CountOverflow && old(self).block(h@).strong >= old(self).limit()
                    && final(self)@ == old(self)@,
            },
    {
        let slot = h.slot;
        if self.strong_of(slot) >= self.limit {
            return Err(RcError::CountOverflow);
        }
        match &mut self.slots[slot] {
            Some(cb) => {
                cb.strong = cb.strong + 1;
            },
            None => {},
        }
        assert(self@ =~= old(self)@.update(h@, Some(old(self).block(h@).after_clone())));
        Ok(StrongHandle { slot, thread: ThreadBound::new() })
    }

    /// Gives up one owning handle. The payload comes out with the last one;
    /// the block is deallocated once no handle of either kind is left.
    pub fn drop_strong(&mut self, h: StrongHandle) -> (payload: Option<T>)
        requires
            old(self).wf(),
            old(self).owns(&h),
        ensures
            final(self).wf(),
            final(self).limit() == old(self).limit(),
            payload == (if old(self).block(h@).strong == 1 {
                old(self).block(h@).value
            } else {
                None
            }),
            final(self)@ == old(self)@.update(
                h@,
                Self::retained(old(self).block(h@).after_drop()),
            ),
    {
        let slot = h.slot;
        let strong = self.strong_of(slot);
        let weak = self.weak_of(slot);
        let payload = if strong > 1 {
            match &mut self.slots[slot] {
                Some(cb) => {
                    cb.strong = cb.strong - 1;
                },
                None => {},
            }
            None
        } else if weak > 0 {
            let mut taken: Option<T> = None;
            match &mut self.slots[slot] {
                Some(cb) => {
                    cb.strong = 0;
                    taken = cb.value.take();
                },
                None => {},
            }
            taken
        } else {
            match self.slots[slot].take() {
                Some(cb) => cb.value,
                None => None,
            }
        };
        assert(self@ =~= old(self)@.update(
            h@,
            Self::retained(old(self).block(h@).after_drop()),
        ));
        payload
    }

    /// What stays in a slot once its block has the given state.
    pub open spec fn retained(b: Block<T>) -> Option<Block<T>> {
        if b.unreferenced() {
            None
        } else {
            Some(b)
        }
    }

    /// A non-owning handle to the block of `h`.
    pub fn downgrade(&mut self, h: &StrongHandle) -> (r: Result<WeakHandle, RcError>)
        requires
            old(self).wf(),
            old(self).owns(h),
        ensures
            final(self).wf(),
            final(self).limit() == old(self).limit(),
            match r {
                Ok(w) => old(self).block(h@).weak < old(self).limit() && w@ == h@ && final(self)@
                    == old(self)@.update(h@, Some(old(self).block(h@).after_downgrade())),
                Err(e) => e == RcError::CountOverflow && old(self).block(h@).weak >= old(self).limit()
                    && final(self)@ == old(self)@,
            },
    {
        let slot = h.slot;
        if self.weak_of(slot) >= self.limit {
            return Err(RcError::CountOverflow);
        }
        match &mut self.slots[slot] {
            Some(cb) => {
                cb.weak = cb.weak + 1;
            },
            None => {},
        }
        assert(self@ =~= old(self)@.update(h@, Some(old(self).block(h@).after_downgrade())));
        Ok(WeakHandle { slot, thread: ThreadBound::new() })
    }

    /// The payload behind an owning handle.
    pub fn deref(&self, h: &StrongHandle) -> (value: &T)
        requires
            self.wf(),
            self.owns(h),
        ensures
            self.block(h@).value == Some(*value),
    {
        match &self.slots[h.slot] {
            Some(cb) => {
                assert(cb@ == self.block(h@));
                cb.value.as_ref().unwrap()
            },
            None => unreached(),
        }
    }

    /// The payload behind an owning handle, for a payload that is itself a
    /// cell and is changed through the cell's own operations.
    pub fn payload_mut(&mut self, h: &StrongHandle) -> (value: &mut T)
        requires
            old(self).wf(),
            old(self).owns(h),
        ensures
            old(self).block(h@).value == Some(*value),
            final(self)@ == old(self)@.update(
                h@,
                Some(Block { value: Some(*final(value)), ..old(self).block(h@) }),
            ),
            final(self).limit() == old(self).limit(),
            final(self).wf(),
    {
        match &mut self.slots[h.slot] {
            Some(cb) => match &mut cb.value {
                Some(v) => v,
                None => unreached(),
            },
            None => unreached(),
        }
    }

    /// Whether the slot holds a block that has not been deallocated.
    pub fn is_allocated(&self, slot: usize) -> (b: bool)
        ensures
            b == self.allocated(slot as int),
    {
        slot < self.slots.len() && self.slots[slot].is_some()
    }

    /// How many owning handles the block of `h` has.
    pub fn strong_count(&self, h: &StrongHandle) -> (n: usize)
        requires
            self.owns(h),
        ensures
            n == self.block(h@).strong,
    {
        self.strong_of(h.slot)
    }

    /// How many non-owning handles the block of `h` has.
    pub fn weak_count(&self, h: &StrongHandle) -> (n: usize)
        requires
            self.owns(h),
        ensures
            n == self.block(h@).weak,
    {
        self.weak_of(h.slot)
    }

    /// One more non-owning handle to the block of `w`.
    pub fn clone_weak(&mut self, w: &WeakHandle) -> (r: Result<WeakHandle, RcError>)
        requires
            old(self).wf(),
            old(self).observes(w),
        ensures
            final(self).wf(),
            final(self).limit() == old(self).limit(),
            match r {
                Ok(w2) => old(self).block(w@).weak < old(self).limit() && w2@ == w@ && final(self)@
                    == old(self)@.update(w@, Some(old(self).block(w@).after_downgrade())),
                Err(e) => e == RcError::CountOverflow && old(self).block(w@).weak >= old(self).limit()
                    && final(self)@ == old(self)@,
            },
    {
        let slot = w.slot;
        if self.weak_of(slot) >= self.limit {
            return Err(RcError::CountOverflow);
        }
        match &mut self.slots[slot] {
            Some(cb) => {
                cb.weak = cb.weak + 1;
            },
            None => {},
        }
        assert(self@ =~= old(self)@.update(w@, Some(old(self).block(w@).after_downgrade())));
        Ok(WeakHandle { slot, thread: ThreadBound::new() })
    }

    /// Gives up one non-owning handle; the block is deallocated if no handle
    /// of either kind is left.
    pub fn drop_weak(&mut self, w: WeakHandle)
        requires
            old(self).wf(),
            old(self).observes(&w),
        ensures
            final(self).wf(),
            final(self).limit() == old(self).limit(),
            final(self)@ == old(self)@.update(
                w@,
                Self::retained(old(self).block(w@).after_weak_drop()),
            ),
    {
        let slot = w.slot;
        let strong = self.strong_of(slot);
        let weak = self.weak_of(slot);
        if strong == 0 && weak == 1 {
            let _ = self.slots[slot].take();
        } else {
            match &mut self.slots[slot] {
                Some(cb) => {
                    cb.weak = cb.weak - 1;
                },
                None => {},
            }
        }
        assert(self@ =~= old(self)@.update(
            w@,
            Self::retained(old(self).block(w@).after_weak_drop()),
        ));
    }

    /// An owning handle from a non-owning one, if the payload is still alive.
    pub fn upgrade(&mut self, w: &WeakHandle) -> (r: Result<Option<StrongHandle>, RcError>)
        requires
            old(self).wf(),
            old(self).observes(w),
        ensures
            final(self).wf(),
            final(self).limit() == old(self).limit(),
            match r {
                Ok(Some(h)) => 0 < old(self).block(w@).strong < old(self).limit() && h@ == w@
                    && final(self)@ == old(self)@.update(
                    w@,
                    Some(old(self).block(w@).after_clone()),
                ),
                Ok(None) => old(self).block(w@).strong == 0 && final(self)@ == old(self)@,
                Err(e) => e == RcError::CountOverflow && old(self).block(w@).strong >= old(self).limit()
                    && final(self)@ == old(self)@,
            },
    {
        let slot = w.slot;
        let strong = self.strong_of(slot);
        if strong == 0 {
            return Ok(None);
        }
        if strong >= self.limit {
            return Err(RcError::CountOverflow);
        }
        match &mut self.slots[slot] {
            Some(cb) => {
                cb.strong = cb.strong + 1;
            },
            None => {},
        }
        assert(self@ =~= old(self)@.update(w@, Some(old(self).block(w@).after_clone())));
        Ok(Some(StrongHandle { slot, thread: ThreadBound::new() }))
    }

    /// How many owning handles the block behind a non-owning handle has.
    pub fn owners(&self, w: &WeakHandle) -> (n: usize)
        requires
            self.observes(w),
        ensures
            n == self.block(w@).strong,
    {
        self.strong_of(w.slot)
    }
}

} // verus!
