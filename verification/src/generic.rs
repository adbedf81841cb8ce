//! Code that is written once for many types.
use vstd::prelude::*;

verus! {

/// The largest number of a list that is not empty: the first of the largest,
/// if there are several.
pub fn largest(list: &[i32]) -> (num: &i32)
    requires
        list@.len() > 0,
    ensures
        forall|i: int| 0 <= i < list@.len() ==> list@[i] <= *num,
        exists|i: int| 0 <= i < list@.len() && list@[i] == *num,
{
    let mut at: usize = 0;
    let mut i: usize = 0;
    while i < list.len()
        invariant
            i <= list@.len(),
            at < list@.len(),
            forall|k: int| 0 <= k < i ==> list@[k] <= list@[at as int],
        decreases list@.len() - i,
    {
        if list[i] > list[at] {
            at = i;
        }
        i = i + 1;
    }
    &list[at]
}

/// The largest character of a list that is not empty.
pub fn largest_char(list: &[char]) -> (c: &char)
    requires
        list@.len() > 0,
    ensures
        forall|i: int| 0 <= i < list@.len() ==> list@[i] as u32 <= *c as u32,
        exists|i: int| 0 <= i < list@.len() && list@[i] == *c,
{
    let mut at: usize = 0;
    let mut i: usize = 0;
    while i < list.len()
        invariant
            i <= list@.len(),
            at < list@.len(),
            forall|k: int| 0 <= k < i ==> list@[k] as u32 <= list@[at as int] as u32,
        decreases list@.len() - i,
    {
        if list[i] as u32 > list[at] as u32 {
            at = i;
        }
        i = i + 1;
    }
    &list[at]
}

/// The largest of five numbers, and the largest of four characters.
pub fn test_largest() -> (r: (i32, char))
    ensures
        r == (100i32, 'y'),
{
    let number_list: [i32; 5] = [34, 50, 25, 100, 65];
    let result = *largest(number_list.as_slice());
    assert(number_list@[3] == 100);
    let char_list: [char; 4] = ['y', 'm', 'a', 'q'];
    let c = *largest_char(char_list.as_slice());
    assert(char_list@[0] == 'y');
    (result, c)
}

/// A point whose coordinates may be of two types.
pub struct Point<T, U> {
    pub x: T,
    pub y: U,
}

impl<T, U> Point<T, U> {
    /// A point with the x of this one and the y of the other.
    pub fn mixup<V, W>(self, other: Point<V, W>) -> (p: Point<T, W>)
        ensures
            p.x == self.x,
            p.y == other.y,
    {
        Point { x: self.x, y: other.y }
    }
}

} // verus!
