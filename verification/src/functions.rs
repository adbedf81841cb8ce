//! Small functions over numbers and text: parameters, return values, and
//! blocks that are expressions.
use vstd::prelude::*;

verus! {

/// The sum of two numbers that has to fit the result type.
pub fn add(i: i32, j: i32) -> (sum: i32)
    requires
        i32::MIN <= i + j <= i32::MAX,
    ensures
        sum == i + j,
{
    i + j
}

/// The sum of two numbers, or `None` if it does not fit the result type.
pub fn checked_add(i: i32, j: i32) -> (sum: Option<i32>)
    ensures
        match sum {
            Some(s) => s == i + j,
            None => i + j < i32::MIN || i + j > i32::MAX,
        },
{
    i.checked_add(j)
}

/// Five less for numbers above five, five more for the others.
pub fn plus_or_minus(x: i32) -> (r: i32)
    ensures
        r == if x > 5 {
            x - 5
        } else {
            x + 5
        },
{
    if x > 5 {
        return x - 5;
    }
    x + 5
}

/// Empties the text.
pub fn clear(text: &mut String)
    ensures
        final(text)@ == Seq::<char>::empty(),
{
    *text = String::new();
}

/// `x` and `y` with one and five added before they are summed.
pub fn add_with_extra(x: i32, y: i32) -> (r: i32)
    requires
        i32::MIN <= x + y + 6 <= i32::MAX,
        x < i32::MAX,
        y <= i32::MAX - 5,
    ensures
        r == x + y + 6,
{
    let x = x + 1;
    let y = y + 5;
    x + y
}

/// "odd" for the numbers whose remainder by two is one, "even" for the
/// others. The remainder has the sign of the number, so no negative number
/// is called odd.
pub fn parity(x: i32) -> (word: &'static str)
    ensures
        word@ == if x > 0 && x % 2 == 1 {
            "odd"@
        } else {
            "even"@
        },
{
    if x % 2 == 1 {
        "odd"
    } else {
        "even"
    }
}

/// A byte plus twenty, wrapping around at 256.
pub fn int_over(a: u8) -> (b: u8)
    ensures
        b == (a + 20) % 256,
{
    a.wrapping_add(20)
}

/// The results of the bit operations on two small numbers: and, or,
/// exclusive or, complement of the second, and the first shifted left and
/// right by the second.
pub fn bit_operation() -> (r: (i32, i32, i32, i32, i32, i32))
    ensures
        r == (2i32, 3i32, 1i32, -4i32, 16i32, 0i32),
{
    let a: i32 = 2;
    let b: i32 = 3;
    assert(2i32 & 3i32 == 2i32) by (bit_vector);
    assert(2i32 | 3i32 == 3i32) by (bit_vector);
    assert(2i32 ^ 3i32 == 1i32) by (bit_vector);
    assert(!3i32 == -4i32) by (bit_vector);
    assert(2i32 << 3i32 == 16i32) by (bit_vector);
    assert(2i32 >> 3i32 == 0i32) by (bit_vector);
    (a & b, a | b, a ^ b, !b, a << b, a >> b)
}

/// A value that is bound anew three times: five, then one more, and twice
/// that in an inner scope. Returns the inner and the outer value.
pub fn shadowing() -> (seen: (i32, i32))
    ensures
        seen == (12i32, 6i32),
{
    let x: i32 = 5;
    let x: i32 = x + 1;
    let inner = {
        let x: i32 = x * 2;
        x
    };
    (inner, x)
}

} // verus!
