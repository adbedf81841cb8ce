//! Splitting a mutable slice into two parts that do not overlap.
use vstd::prelude::*;

verus! {

/// The part of `slice` before `mid` and the part from `mid` on, both
/// writable. What is written to either part is written to `slice`.
pub fn split_at_mut(slice: &mut [i32], mid: usize) -> (parts: (&mut [i32], &mut [i32]))
    requires
        mid <= old(slice)@.len(),
    ensures
        parts.0@ == old(slice)@.subrange(0, mid as int),
        parts.1@ == old(slice)@.subrange(mid as int, old(slice)@.len() as int),
        final(slice)@ == final(parts.0)@ + final(parts.1)@,
{
    slice.split_at_mut(mid)
}

/// As [`split_at_mut`], for a `mid` that has not been checked: `None` if it
/// lies beyond the end.
pub fn checked_split_at_mut(slice: &mut [i32], mid: usize) -> (parts: Option<
    (&mut [i32], &mut [i32]),
>)
    ensures
        match parts {
            Some(parts) => mid <= old(slice)@.len() && parts.0@ == old(slice)@.subrange(
                0,
                mid as int,
            ) && parts.1@ == old(slice)@.subrange(mid as int, old(slice)@.len() as int)
                && final(slice)@ == final(parts.0)@ + final(parts.1)@,
            None => mid > old(slice)@.len() && final(slice)@ == old(slice)@,
        },
{
    if mid <= slice.len() {
        Some(slice.split_at_mut(mid))
    } else {
        None
    }
}

/// The first element, if there is one.
pub fn first(arr: &[i32]) -> (r: Option<&i32>)
    ensures
        match r {
            Some(x) => arr@.len() > 0 && *x == arr@[0],
            None => arr@.len() == 0,
        },
{
    arr.first()
}

} // verus!
