//! Operators on types of one's own, and methods that share a name.
use vstd::prelude::*;

verus! {

/// A point in the plane.
#[derive(Debug, PartialEq)]
pub struct Point {
    pub x: i32,
    pub y: i32,
}

impl core::ops::Add for Point {
    type Output = Point;

    /// The sum, coordinate by coordinate.
    fn add(self, other: Point) -> (sum: Point) {
        Point { x: self.x + other.x, y: self.y + other.y }
    }
}

impl vstd::std_specs::ops::AddSpecImpl for Point {
    open spec fn obeys_add_spec() -> bool {
        true
    }

    /// Both coordinates of the sum fit.
    open spec fn add_req(self, other: Point) -> bool {
        &&& i32::MIN <= self.x + other.x <= i32::MAX
        &&& i32::MIN <= self.y + other.y <= i32::MAX
    }

    open spec fn add_spec(self, other: Point) -> Point {
        Point { x: (self.x + other.x) as i32, y: (self.y + other.y) as i32 }
    }
}

/// A length in millimetres.
pub struct Millimeters(pub u32);

/// A length in metres.
pub struct Meters(pub u32);

impl core::ops::Add<Meters> for Millimeters {
    type Output = Millimeters;

    /// The sum, in millimetres.
    fn add(self, other: Meters) -> (sum: Millimeters) {
        Millimeters(self.0 + (other.0 * 1000))
    }
}

impl vstd::std_specs::ops::AddSpecImpl<Meters> for Millimeters {
    open spec fn obeys_add_spec() -> bool {
        true
    }

    /// The sum fits.
    open spec fn add_req(self, other: Meters) -> bool {
        self.0 + other.0 * 1000 <= u32::MAX
    }

    open spec fn add_spec(self, other: Meters) -> Millimeters {
        Millimeters((self.0 + other.0 * 1000) as u32)
    }
}

/// The sum of two points that are given.
pub fn test_point_add() -> (sum: Point)
    ensures
        sum.x == 3,
        sum.y == 3,
{
    Point { x: 1, y: 0 } + Point { x: 2, y: 3 }
}

/// Somebody who flies a plane.
pub trait Pilot {
    fn fly(&self) -> (said: &'static str)
        ensures
            said@ == "This is your captain speaking."@,
    ;
}

/// Somebody who flies without one.
pub trait Wizard {
    fn fly(&self) -> (said: &'static str)
        ensures
            said@ == "Up!"@,
    ;
}

/// A person who is both, and tries on their own as well.
pub struct Human;

impl Pilot for Human {
    fn fly(&self) -> (said: &'static str) {
        "This is your captain speaking."
    }
}

impl Wizard for Human {
    fn fly(&self) -> (said: &'static str) {
        "Up!"
    }
}

impl Human {
    pub fn fly(&self) -> (said: &'static str)
        ensures
            said@ == "*waving arms furiously*"@,
    {
        "*waving arms furiously*"
    }
}

/// What a person says when flying: as themselves, as a pilot, as a wizard.
pub fn test_fly() -> (said: (&'static str, &'static str, &'static str))
    ensures
        said.0@ == "*waving arms furiously*"@,
        said.1@ == "This is your captain speaking."@,
        said.2@ == "Up!"@,
{
    let person = Human;
    (person.fly(), Pilot::fly(&person), Wizard::fly(&person))
}

/// A counter that always yields twenty.
pub struct Twenty {
    pub name: i32,
}

impl crate::iter::Iterator for Twenty {
    type Item = u32;

    open spec fn peek(&self) -> Option<u32> {
        Some(20u32)
    }

    open spec fn advanced(&self) -> Twenty {
        *self
    }

    fn next(&mut self) -> (item: Option<u32>) {
        Some(20)
    }
}

} // verus!
