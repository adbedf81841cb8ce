//! Two public functions over a helper and constants that stay private.
use vstd::prelude::*;

verus! {

pub const I: i32 = 3;

const J: i32 = 4;

fn semisecret(x: i32) -> (r: i32)
    requires
        x + J <= i32::MAX,
    ensures
        r == x + J,
{
    x + J
}

/// `z` times the sum of the two constants.
pub fn bar(z: i32) -> (r: i32)
    requires
        i32::MIN <= 7 * z <= i32::MAX,
    ensures
        r == 7 * z,
{
    semisecret(I) * z
}

/// `y` plus the sum of the two constants.
pub fn foo(y: i32) -> (r: i32)
    requires
        7 + y <= i32::MAX,
    ensures
        r == 7 + y,
{
    semisecret(I) + y
}

} // verus!
