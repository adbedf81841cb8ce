use vstd::prelude::*;

verus! {

/// Sum of two machine words.
pub fn add(left: usize, right: usize) -> (sum: usize)
    requires
        left + right <= usize::MAX,
    ensures
        sum == left + right,
{
    left + right
}

} // verus!
