//! Values behind a pointer: boxes, and a box of one's own.
use vstd::prelude::*;
use vstd::string::*;

verus! {

/// A pointer of one's own to a value.
pub struct MyBox<T> {
    v: T,
}

impl<T> MyBox<T> {
    /// The value pointed to.
    pub closed spec fn view(&self) -> T {
        self.v
    }

    pub fn new(x: T) -> (b: MyBox<T>)
        ensures
            b@ == x,
    {
        MyBox { v: x }
    }

    /// The value pointed to, to be changed in place.
    pub fn deref_mut(&mut self) -> (value: &mut T)
        ensures
            *value == old(self)@,
            final(self)@ == *final(value),
    {
        &mut self.v
    }
}

impl<T> core::ops::Deref for MyBox<T> {
    type Target = T;

    /// The value pointed to.
    fn deref(&self) -> (value: &T)
        ensures
            *value == self@,
    {
        &self.v
    }
}

/// The sum of two numbers that each sit in a box in a vector.
pub fn test_box_memory() -> (sum: i32)
    ensures
        sum == 3,
{
    let mut arr: Vec<Box<i32>> = Vec::new();
    arr.push(Box::new(1));
    arr.push(Box::new(2));
    let (first, second) = (&arr[0], &arr[1]);
    let sum = **first + **second;
    sum
}

/// What is found behind a reference, behind a box, and behind a box of one's
/// own.
pub fn test_deref() -> (seen: (i32, i32, i32))
    ensures
        seen == (5i32, 2i32, 5i32),
{
    let x: i32 = 5;
    let y = &x;
    let boxed = Box::new(1i32);
    let sum = *boxed + 1;
    let mine = MyBox::new(5i32);
    (*y, sum, *mine)
}

/// Appends to a string that sits in a box of one's own.
pub fn test_main() -> (s: MyBox<String>)
    ensures
        s@@ == "hello, "@ + "world"@,
{
    let mut s = MyBox::new(String::from_str("hello, "));
    s.deref_mut().append("world");
    s
}

} // verus!
