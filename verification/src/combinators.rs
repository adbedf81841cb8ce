//! Chaining values that may be absent or may be errors.
use vstd::prelude::*;
use vstd::string::*;

verus! {

/// How many characters a text has.
pub fn character_count(s: &str) -> (n: usize)
    ensures
        n == s@.len(),
{
    s.unicode_len()
}

/// The second step of a chain, which always has an answer.
fn some2(first: &'static str) -> (r: Option<&'static str>)
    ensures
        r matches Some(s) && s@ == "some2"@,
{
    Some("some2")
}

/// The second step of a chain, which never has an answer.
fn none2(first: &'static str) -> (r: Option<&'static str>)
    ensures
        r is None,
{
    None
}

/// A second step is taken only after a first that has an answer, and the
/// chain has the answer of the second. Returns the four chains of a present
/// or absent first step and a second step that answers or does not.
pub fn test_and_then() -> (r: (
    Option<&'static str>,
    Option<&'static str>,
    Option<&'static str>,
    Option<&'static str>,
))
    ensures
        r.0 matches Some(s) && s@ == "some2"@,
        r.1 is None,
        r.2 is None,
        r.3 is None,
{
    let s1: Option<&'static str> = Some("some1");
    let n: Option<&'static str> = None;
    (s1.and_then(some2), s1.and_then(none2), n.and_then(some2), n.and_then(none2))
}

/// Mapping changes what is there and keeps what is missing or wrong.
/// Returns a present and an absent text, and a right and a wrong one, each
/// mapped to its number of characters.
pub fn test_map() -> (r: (Option<usize>, Option<usize>, Result<usize, &'static str>, Result<
    usize,
    &'static str,
>))
    ensures
        r.0 == Some(5usize),
        r.1 is None,
        r.2 == Ok::<usize, &'static str>(5usize),
        r.3 matches Err(e) && e@ == "abcde"@,
{
    proof {
        reveal_strlit("abcde");
    }
    let s1: Option<&'static str> = Some("abcde");
    let n1: Option<&'static str> = None;
    let o1: Result<&'static str, &'static str> = Ok("abcde");
    let e1: Result<&'static str, &'static str> = Err("abcde");
    (
        s1.map(character_count),
        n1.map(character_count),
        o1.map(character_count),
        e1.map(character_count),
    )
}

/// The message for a value that is missing.
fn err_message() -> (m: &'static str)
    ensures
        m@ == "error message"@,
{
    "error message"
}

/// What is there becomes a success, and what is missing the error that is
/// given.
pub fn test_ok_or() -> (r: (Result<&'static str, &'static str>, Result<&'static str, &'static str>))
    ensures
        r.0 matches Ok(s) && s@ == "abcde"@,
        r.1 matches Err(e) && e@ == "error message"@,
{
    let s: Option<&'static str> = Some("abcde");
    let n: Option<&'static str> = None;
    (s.ok_or("error message"), n.ok_or("error message"))
}

/// What is there becomes a success, and what is missing the error that a
/// function makes.
pub fn test_ok_or_else() -> (r: (
    Result<&'static str, &'static str>,
    Result<&'static str, &'static str>,
))
    ensures
        r.0 matches Ok(s) && s@ == "abcde"@,
        r.1 matches Err(e) && e@ == "error message"@,
{
    let s: Option<&'static str> = Some("abcde");
    let n: Option<&'static str> = None;
    (s.ok_or_else(err_message), n.ok_or_else(err_message))
}

} // verus!
