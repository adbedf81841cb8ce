//! A cell for values that are duplicated rather than referenced, so that no
//! borrow needs to be tracked.
use crate::rc::ThreadBound;
use vstd::prelude::*;

verus! {

/// A slot holding one `Copy` value.
pub struct Cell<T: Copy> {
    value: T,
    thread: ThreadBound,
}

impl<T: Copy> Cell<T> {
    /// The value in the cell.
    pub closed spec fn view(&self) -> T {
        self.value
    }

    pub fn new(value: T) -> (cell: Cell<T>)
        ensures
            cell@ == value,
    {
        Cell { value, thread: ThreadBound::new() }
    }

    /// A copy of the stored value.
    pub fn get(&self) -> (value: T)
        ensures
            value == self@,
    {
        self.value
    }

    /// The cell with `value` stored in place of what it holds.
    pub closed spec fn after_set(self, value: T) -> Cell<T> {
        Cell { value, ..self }
    }

    /// Overwrites the stored value.
    pub fn set(&mut self, value: T)
        ensures
            *final(self) == old(self).after_set(value),
            final(self)@ == value,
    {
        self.value = value;
    }

    /// Stores `value` and returns what was stored before.
    pub fn replace(&mut self, value: T) -> (previous: T)
        ensures
            previous == old(self)@,
            *final(self) == old(self).after_set(value),
            final(self)@ == value,
    {
        let previous = self.value;
        self.value = value;
        previous
    }

    /// The value, once the cell itself is given up.
    pub fn into_inner(self) -> (value: T)
        ensures
            value == self@,
    {
        self.value
    }
}

/// Whether a number is even.
pub open spec fn spec_is_even(i: int) -> bool {
    i % 2 == 0
}

/// Whether `i` is even.
pub fn is_even(i: i32) -> (even: bool)
    ensures
        even == spec_is_even(i as int),
{
    i % 2 == 0
}

/// Keeps the even numbers of `nums`, in their order, and drops the rest.
///
/// Each number is copied out through a [`Cell`] before its place may be
/// overwritten, so the vector is compacted in place while it is being walked.
pub fn retain_even(nums: &mut Vec<i32>)
    ensures
        final(nums)@ == old(nums)@.filter(|x: i32| spec_is_even(x as int)),
{
    let ghost keep = |x: i32| spec_is_even(x as int);
    let n = nums.len();
    let mut kept: usize = 0;
    let mut i: usize = 0;
    while i < n
        invariant
            n == nums.len(),
            n == old(nums)@.len(),
            kept <= i <= n,
            keep == |x: i32| spec_is_even(x as int),
            nums@.subrange(0, kept as int) == old(nums)@.subrange(0, i as int).filter(keep),
            nums@.subrange(i as int, n as int) == old(nums)@.subrange(i as int, n as int),
        decreases n - i,
    {
        let slot = Cell::new(nums[i]);
        let ghost before = nums@;
        proof {
            let head = old(nums)@.subrange(0, i as int);
            let next = old(nums)@.subrange(0, i + 1);
            assert(next.drop_last() == head);
            assert(next.last() == old(nums)@[i as int]);
            assert(nums@[i as int] == nums@.subrange(i as int, n as int)[0]);
            reveal(Seq::filter);
        }
        if is_even(slot.get()) {
            nums.set(kept, slot.get());
            proof {
                assert(nums@.subrange(0, kept + 1) == before.subrange(0, kept as int).push(
                    slot@,
                ));
                assert(nums@.subrange(i + 1, n as int) == before.subrange(i as int, n as int).subrange(
                    1,
                    n - i,
                ));
            }
            kept = kept + 1;
        } else {
            proof {
                assert(nums@.subrange(i + 1, n as int) == before.subrange(i as int, n as int).subrange(
                    1,
                    n - i,
                ));
            }
        }
        i = i + 1;
    }
    nums.truncate(kept);
    proof {
        assert(old(nums)@.subrange(0, n as int) == old(nums)@);
    }
}

/// Whatever a cell held, after a value is set the cell holds that value; a
/// replacement yields what was held and leaves the new value in place.
pub proof fn law_cell_holds_last_write<T: Copy>(cell: Cell<T>, written: T)
    ensures
        cell.after_set(written)@ == written,
        cell.after_set(written).after_set(cell@) == cell,
{
}

} // verus!
