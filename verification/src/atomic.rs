//! Counters whose every access is one indivisible step with a stated memory
//! ordering.
//!
//! A counter is reached through `&mut`, so an access cannot be torn; threads
//! are represented by the order in which their accesses arrive.
use vstd::prelude::*;

verus! {

/// How an atomic access is ordered against the accesses around it.
#[derive(Clone, Copy, Debug, PartialEq, Eq, Structural)]
pub enum MemOrder {
    /// Orders nothing.
    Relaxed,
    /// Earlier writes of this thread are visible to whoever acquires.
    Release,
    /// Later reads of this thread see what was released.
    Acquire,
    /// Both.
    AcqRel,
    /// Both, in one order that all threads agree on.
    SeqCst,
}

/// One access, as it appears in a counter's trace.
pub enum Access {
    Load(MemOrder),
    Store(MemOrder),
    FetchAdd(MemOrder),
    FetchSub(MemOrder),
    /// A compare-and-swap; `swapped` tells whether it took effect.
    CompareExchange { swapped: bool, order: MemOrder },
    Fence(MemOrder),
}

/// A machine word that is only ever changed by indivisible steps.
pub struct AtomicCounter {
    value: usize,
    trace: Ghost<Seq<Access>>,
}

/// `a + b` as a machine word computes it.
pub open spec fn wrapping_sum(a: usize, b: usize) -> usize {
    if a + b > usize::MAX {
        (a + b - usize::MAX - 1) as usize
    } else {
        (a + b) as usize
    }
}

/// `a - b` as a machine word computes it.
pub open spec fn wrapping_diff(a: usize, b: usize) -> usize {
    if a < b {
        (a - b + usize::MAX + 1) as usize
    } else {
        (a - b) as usize
    }
}

impl AtomicCounter {
    /// The current value.
    pub closed spec fn view(&self) -> usize {
        self.value
    }

    /// Every access made so far, oldest first.
    pub closed spec fn trace(&self) -> Seq<Access> {
        self.trace@
    }

    pub fn new(value: usize) -> (counter: AtomicCounter)
        ensures
            counter@ == value,
            counter.trace() == Seq::<Access>::empty(),
    {
        AtomicCounter { value, trace: Ghost(Seq::empty()) }
    }

    /// Reads the value without taking part in any ordering.
    pub fn peek(&self) -> (value: usize)
        ensures
            value == self@,
    {
        self.value
    }

    pub fn load(&mut self, order: MemOrder) -> (value: usize)
        ensures
            value == old(self)@,
            final(self)@ == old(self)@,
            final(self).trace() == old(self).trace().push(Access::Load(order)),
    {
        self.trace = Ghost(self.trace@.push(Access::Load(order)));
        self.value
    }

    pub fn store(&mut self, value: usize, order: MemOrder)
        ensures
            final(self)@ == value,
            final(self).trace() == old(self).trace().push(Access::Store(order)),
    {
        self.trace = Ghost(self.trace@.push(Access::Store(order)));
        self.value = value;
    }

    /// Adds `n`, wrapping around, and returns the value from before.
    pub fn fetch_add(&mut self, n: usize, order: MemOrder) -> (previous: usize)
        ensures
            previous == old(self)@,
            final(self)@ == wrapping_sum(old(self)@, n),
            final(self).trace() == old(self).trace().push(Access::FetchAdd(order)),
    {
        let previous = self.value;
        self.trace = Ghost(self.trace@.push(Access::FetchAdd(order)));
        self.value = if previous > usize::MAX - n {
            previous - (usize::MAX - n) - 1
        } else {
            previous + n
        };
        previous
    }

    /// Subtracts `n`, wrapping around, and returns the value from before.
    pub fn fetch_sub(&mut self, n: usize, order: MemOrder) -> (previous: usize)
        ensures
            previous == old(self)@,
            final(self)@ == wrapping_diff(old(self)@, n),
            final(self).trace() == old(self).trace().push(Access::FetchSub(order)),
    {
        let previous = self.value;
        self.trace = Ghost(self.trace@.push(Access::FetchSub(order)));
        self.value = if previous < n {
            usize::MAX - (n - previous) + 1
        } else {
            previous - n
        };
        previous
    }

    /// Stores `new` if the counter holds `expected`. Returns the value from
    /// before, as `Ok` if the store was made.
    pub fn compare_exchange(&mut self, expected: usize, new: usize, order: MemOrder) -> (r: Result<
        usize,
        usize,
    >)
        ensures
            match r {
                Ok(previous) => previous == old(self)@ && old(self)@ == expected && final(self)@
                    == new,
                Err(previous) => previous == old(self)@ && old(self)@ != expected && final(self)@
                    == old(self)@,
            },
            final(self).trace() == old(self).trace().push(
                Access::CompareExchange { swapped: r is Ok, order },
            ),
    {
        let previous = self.value;
        if previous == expected {
            self.trace = Ghost(
                self.trace@.push(Access::CompareExchange { swapped: true, order }),
            );
            self.value = new;
            Ok(previous)
        } else {
            self.trace = Ghost(
                self.trace@.push(Access::CompareExchange { swapped: false, order }),
            );
            Err(previous)
        }
    }

    /// A fence: changes no value, and is recorded in the trace.
    pub fn fence(&mut self, order: MemOrder)
        ensures
            final(self)@ == old(self)@,
            final(self).trace() == old(self).trace().push(Access::Fence(order)),
    {
        self.trace = Ghost(self.trace@.push(Access::Fence(order)));
    }
}

} // verus!
