//! Rectangles with whole-number sides.
use vstd::prelude::*;

verus! {

/// A rectangle, by its width and height in pixels.
#[derive(Debug)]
pub struct Rectangle {
    width: u32,
    height: u32,
}

impl Rectangle {
    /// Width and height.
    pub closed spec fn view(&self) -> (nat, nat) {
        (self.width as nat, self.height as nat)
    }

    pub fn new(w: u32, h: u32) -> (r: Rectangle)
        ensures
            r@ == (w as nat, h as nat),
    {
        Rectangle { width: w, height: h }
    }

    /// The area in square pixels, which has to fit the result type.
    pub fn area(&self) -> (a: u32)
        requires
            self@.0 * self@.1 <= u32::MAX,
        ensures
            a == self@.0 * self@.1,
    {
        self.width * self.height
    }

    /// The area in square pixels, or `None` if it does not fit the result
    /// type.
    pub fn checked_area(&self) -> (a: Option<u32>)
        ensures
            match a {
                Some(a) => a == self@.0 * self@.1,
                None => self@.0 * self@.1 > u32::MAX,
            },
    {
        self.width.checked_mul(self.height)
    }

    pub fn width(&self) -> (w: u32)
        ensures
            w == self@.0,
    {
        return self.width;
    }

    /// Whether `other` fits strictly inside this rectangle, sides parallel.
    pub fn can_hold(&self, other: &Rectangle) -> (fits: bool)
        ensures
            fits == (self@.0 > other@.0 && self@.1 > other@.1),
    {
        self.width > other.width && self.height > other.height
    }
}

} // verus!
