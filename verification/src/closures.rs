//! Functions that are values: called by others, kept in structures, and
//! chosen at run time.
use vstd::prelude::*;

verus! {

/// A query whose first answer is kept and given to every later call.
#[verifier::reject_recursive_types(E)]
pub struct Cacher<T, E> where T: Fn(E) -> E, E: Copy {
    query: T,
    value: Option<E>,
}

impl<T, E> Cacher<T, E> where T: Fn(E) -> E, E: Copy {
    /// The answer that is kept, if the query has been made.
    pub closed spec fn cached(&self) -> Option<E> {
        self.value
    }

    /// The query.
    pub closed spec fn query(&self) -> T {
        self.query
    }

    pub fn new(query: T) -> (cacher: Cacher<T, E>)
        ensures
            cacher.cached() is None,
            cacher.query() == query,
    {
        Cacher { query, value: None }
    }

    /// The answer that is kept; if none is, the answer of the query to
    /// `arg`, which is then kept.
    pub fn value(&mut self, arg: E) -> (v: E)
        requires
            old(self).cached() is None ==> old(self).query().requires((arg,)),
        ensures
            final(self).cached() == Some(v),
            final(self).query() == old(self).query(),
            old(self).cached() matches Some(kept) ==> v == kept,
            old(self).cached() is None ==> old(self).query().ensures((arg,), v),
    {
        match self.value {
            Some(v) => v,
            None => {
                let v = (self.query)(arg);
                self.value = Some(v);
                v
            },
        }
    }
}

/// What a day's training consists of.
#[derive(Clone, Copy, Debug, PartialEq, Eq, Structural)]
pub enum Workout {
    /// So many push-ups, then as many sets of bench press.
    Strength { pushups: u32, bench: u32 },
    /// A day off.
    Rest,
    /// So many minutes of running.
    Run { minutes: u32 },
}

/// Plans the training. At a low intensity it is strength; at a high one it
/// is a run, unless the number drawn is three, which means rest.
pub fn workout(intensity: u32, random_number: u32) -> (plan: Workout)
    ensures
        plan == if intensity < 25 {
            (Workout::Strength { pushups: intensity, bench: intensity })
        } else if random_number == 3 {
            Workout::Rest
        } else {
            (Workout::Run { minutes: intensity })
        },
{
    if intensity < 25 {
        Workout::Strength { pushups: intensity, bench: intensity }
    } else if random_number == 3 {
        Workout::Rest
    } else {
        Workout::Run { minutes: intensity }
    }
}

/// Calls a function that may be called many times, once.
pub fn exec2<F: Fn()>(f: F)
    requires
        f.requires(()),
    ensures
        f.ensures((), ()),
{
    f()
}

/// Calls a function that may be called once.
pub fn exec3<F: FnOnce()>(f: F)
    requires
        f.requires(()),
    ensures
        f.ensures((), ()),
{
    f()
}

/// Calls a function that may be called many times, once.
pub fn exec5<F: Fn()>(f: F)
    requires
        f.requires(()),
    ensures
        f.ensures((), ()),
{
    f()
}

/// Calls a function of a text with a greeting.
pub fn exec1<'a, F: Fn(&'a str)>(f: F)
    requires
        f.requires(("hello",)),
    ensures
        f.ensures(("hello",), ()),
{
    f("hello")
}

/// Calls a function that may be called once with three and, being copied,
/// again with four. Returns both answers.
pub fn fn_once<F>(func: F) -> (answers: (bool, bool)) where F: FnOnce(usize) -> bool + Copy
    requires
        func.requires((3usize,)),
        func.requires((4usize,)),
    ensures
        func.ensures((3usize,), answers.0),
        func.ensures((4usize,), answers.1),
{
    let first = func(3);
    let second = func(4);
    (first, second)
}

/// A closure that adds what it has captured, and one that compares with it.
/// Returns their answers.
pub fn test_closure() -> (r: (i32, bool))
    ensures
        r == (3i32, true),
{
    let x: i32 = 1;
    let sum = |y: i32| -> (s: i32)
        requires
            y < 100,
        ensures
            s == x + y,
        { x + y };
    let three = sum(2);
    let x: i32 = 4;
    let equal_to_x = |z: i32| -> (b: bool)
        ensures
            b == (z == x),
        { z == x };
    let y: i32 = 4;
    (three, equal_to_x(y))
}

/// Adds or takes away five, as a function made at run time does: adds for
/// arguments to the factory above one, takes away for the others.
pub fn test_factory(x: i32, arg: i32) -> (r: i32)
    requires
        i32::MIN + 5 <= arg <= i32::MAX - 5,
    ensures
        r == if x > 1 {
            arg + 5
        } else {
            arg - 5
        },
{
    let num: i32 = 5;
    if x > 1 {
        arg + num
    } else {
        arg - num
    }
}

} // verus!
