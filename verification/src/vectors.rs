//! Growing, shrinking and cutting vectors.
use vstd::prelude::*;

verus! {

/// A walk through the operations of a vector. Returns the vector after the
/// insertion; what the removal and the three pops took out; the vector
/// after two numbers were appended and all but one cut off; what was cut out
/// of the middle of five numbers, and what stayed; and the middle of five
/// numbers as a copy.
pub fn test_vec_fn() -> (r: (
    Vec<i32>,
    (i32, Option<i32>, Option<i32>, Option<i32>),
    Vec<i32>,
    (Vec<i32>, Vec<i32>),
    Vec<i32>,
))
    ensures
        r.0@ == seq![1i32, 2, 3],
        r.1 == (2i32, Some(3i32), Some(1i32), None::<i32>),
        r.2@ == seq![11i32],
        r.3.0@ == seq![22i32, 33, 44],
        r.3.1@ == seq![11i32, 55],
        r.4@ == seq![22i32, 33, 44],
{
    let mut v: Vec<i32> = Vec::with_capacity(10);
    v.push(1);
    v.push(2);
    v.insert(2, 3);
    let inserted = v.clone();
    assert(inserted@ =~= seq![1i32, 2, 3]);
    let removed = v.remove(1);
    let p1 = v.pop();
    let p2 = v.pop();
    let p3 = v.pop();
    v.clear();

    let mut v1: Vec<i32> = Vec::new();
    v1.push(11);
    v1.push(22);
    v.append(&mut v1);
    v.truncate(1);
    let cut = v.clone();
    assert(cut@ =~= seq![11i32]);

    let mut v: Vec<i32> = Vec::new();
    v.push(11);
    v.push(22);
    v.push(33);
    v.push(44);
    v.push(55);
    let whole = v.clone();
    let mut m = v.split_off(1);
    let mut tail = m.split_off(3);
    v.append(&mut tail);
    assert(m@ =~= seq![22i32, 33, 44]);
    assert(v@ =~= seq![11i32, 55]);

    let mut middle: Vec<i32> = Vec::new();
    let mut i: usize = 1;
    while i <= 3
        invariant
            1 <= i <= 4,
            whole@ == seq![11i32, 22, 33, 44, 55],
            middle@ == whole@.subrange(1, i as int),
        decreases 4 - i,
    {
        middle.push(whole[i]);
        i = i + 1;
    }
    assert(middle@ =~= seq![22i32, 33, 44]);
    (inserted, (removed, p1, p2, p3), cut, (m, v), middle)
}

/// The third of five numbers, by index and by a lookup that may fail, and
/// the lookup of an element that is not there.
pub fn test_vec() -> (r: (i32, Option<i32>, Option<i32>))
    ensures
        r == (3i32, Some(3i32), None::<i32>),
{
    let mut v: Vec<i32> = Vec::new();
    v.push(1);
    v.push(2);
    v.push(3);
    v.push(4);
    v.push(5);
    let third = v[2];
    let found = if 2 < v.len() {
        Some(v[2])
    } else {
        None
    };
    let missing = if 100 < v.len() {
        Some(v[100])
    } else {
        None
    };
    (third, found, missing)
}

/// Adds ten to every number.
pub fn add_ten(v: &mut Vec<i32>)
    requires
        forall|i: int| 0 <= i < old(v)@.len() ==> old(v)@[i] <= i32::MAX - 10,
    ensures
        final(v)@.len() == old(v)@.len(),
        forall|i: int| 0 <= i < old(v)@.len() ==> final(v)@[i] == old(v)@[i] + 10,
{
    let mut i: usize = 0;
    while i < v.len()
        invariant
            i <= v@.len(),
            v@.len() == old(v)@.len(),
            forall|k: int| 0 <= k < i ==> v@[k] == old(v)@[k] + 10,
            forall|k: int| i <= k < v@.len() ==> v@[k] == old(v)@[k],
            forall|k: int| 0 <= k < old(v)@.len() ==> old(v)@[k] <= i32::MAX - 10,
        decreases v@.len() - i,
    {
        let x = v[i];
        v.set(i, x + 10);
        i = i + 1;
    }
}

} // verus!
