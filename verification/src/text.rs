//! Strings that are borrowed, handed over and handed back, and slices of
//! them.
use vstd::prelude::*;
use vstd::string::*;

verus! {

/// How many bytes a text takes up.
pub open spec fn byte_len(s: Seq<char>) -> nat {
    vstd::utf8::encode_utf8(s).len()
}

/// The length of a borrowed string, in bytes.
pub fn calculate_length(s: &String) -> (len: usize)
    ensures
        len == byte_len(s@) as usize,
{
    s.as_str().len()
}

/// Appends to a string that is borrowed mutably, and returns what the string
/// then reads.
pub fn change(some_string: &mut String) -> (line: String)
    ensures
        final(some_string)@ == old(some_string)@ + ", world"@,
        line@ == final(some_string)@,
{
    some_string.append(", world");
    some_string.clone()
}

/// A string that is handed to the caller rather than borrowed from a local.
pub fn no_dangle() -> (s: String)
    ensures
        s@ == "hello"@,
{
    let s = String::from_str("hello");
    s
}

/// Makes a string and hands it to the caller.
pub fn gives_ownership() -> (s: String)
    ensures
        s@ == "hello"@,
{
    let some_string = String::from_str("hello");
    some_string
}

/// Takes a string and hands the same string back.
pub fn takes_and_gives_back(a_string: String) -> (s: String)
    ensures
        s == a_string,
{
    a_string
}

/// Hands a string back together with its length in bytes.
pub fn measure(s: String) -> (r: (String, usize))
    ensures
        r.0 == s,
        r.1 == byte_len(s@) as usize,
{
    let length = s.as_str().len();
    (s, length)
}

/// The string that has more bytes; the second if both have as many.
pub fn longest<'a>(x: &'a str, y: &'a str) -> (r: &'a str)
    ensures
        r == if byte_len(x@) as usize > byte_len(y@) as usize {
            x
        } else {
            y
        },
{
    if x.len() > y.len() {
        x
    } else {
        y
    }
}

/// A string that owes nothing to the arguments.
pub fn longest1(_x: &str, _y: &str) -> (s: String)
    ensures
        s@ == "really long string"@,
{
    String::from_str("really long string")
}

/// How many characters of `s` come before its first space; all of them if it
/// has none.
pub open spec fn first_word_len(s: Seq<char>) -> int
    decreases s.len(),
{
    if s.len() == 0 || s[0] == ' ' {
        0
    } else {
        1 + first_word_len(s.subrange(1, s.len() as int))
    }
}

proof fn lemma_first_word_len(s: Seq<char>, k: int)
    requires
        0 <= k <= s.len(),
        forall|i: int| 0 <= i < k ==> s[i] != ' ',
        k == s.len() || s[k] == ' ',
    ensures
        first_word_len(s) == k,
    decreases s.len(),
{
    if k > 0 {
        let rest = s.subrange(1, s.len() as int);
        assert forall|i: int| 0 <= i < k - 1 implies rest[i] != ' ' by {
            assert(rest[i] == s[i + 1]);
        }
        assert(s[0] != ' ');
        lemma_first_word_len(rest, k - 1);
    }
}

/// The part of `s` before its first space; all of `s` if it has none.
pub fn first_word(s: &str) -> (word: &str)
    ensures
        word@ == s@.subrange(0, first_word_len(s@)),
{
    let n = s.unicode_len();
    let mut i: usize = 0;
    while i < n
        invariant
            i <= n,
            n == s@.len(),
            forall|k: int| 0 <= k < i ==> s@[k] != ' ',
        decreases n - i,
    {
        if s.get_char(i) == ' ' {
            proof {
                lemma_first_word_len(s@, i as int);
            }
            return s.substring_char(0, i);
        }
        i = i + 1;
    }
    proof {
        lemma_first_word_len(s@, n as int);
    }
    s.substring_char(0, n)
}

/// A part of a text that somebody found worth keeping.
pub struct ImportantExcerpt<'a> {
    pub part: &'a str,
}

impl<'a> ImportantExcerpt<'a> {
    pub fn level(&self) -> (l: i32)
        ensures
            l == 3,
    {
        3
    }

    /// The excerpt; what is announced does not change it.
    pub fn announce_and_return_part(&self, announcement: &str) -> (part: &str)
        ensures
            part == self.part,
    {
        self.part
    }
}

/// A greeting for `x`.
pub fn foo(x: &str) -> (greeting: String)
    ensures
        greeting@ == "Hello, "@ + x@,
{
    let a = String::from_str("Hello, ").concat(x);
    a
}

/// The name under which everybody is greeted.
pub fn get_person() -> (name: String)
    ensures
        name@ == "sunface"@,
{
    String::from_str("sunface")
}

/// Two strings joined, the first of which is given up for it.
pub fn add() -> (s3: String)
    ensures
        s3@ == "hello,"@ + "world!"@,
{
    let s1 = String::from_str("hello,");
    let s2 = String::from_str("world!");
    let s3 = s1.concat(s2.as_str());
    s3
}

/// Somebody who signs in.
pub struct User {
    pub active: bool,
    pub username: String,
    pub email: String,
    pub sign_in_count: u64,
}

/// A new user: active, and signed in once.
pub fn build_user(email: String, username: String) -> (user: User)
    ensures
        user.email == email,
        user.username == username,
        user.active,
        user.sign_in_count == 1,
{
    User { email, username, active: true, sign_in_count: 1 }
}

/// A person with a name and an age.
#[derive(Debug)]
pub struct Person {
    pub name: String,
    pub age: u8,
}

impl Person {
    pub fn new(name: String, age: u8) -> (p: Person)
        ensures
            p.name == name,
            p.age == age,
    {
        Person { name, age }
    }
}

/// A dog, which has a name for its young of its own and one as an animal.
pub struct Dog;

/// Something whose young have a name.
pub trait Animal {
    /// The name, as the contracts see it.
    spec fn young() -> Seq<char>;

    fn baby_name() -> (name: String)
        ensures
            name@ == Self::young(),
    ;
}

impl Dog {
    pub fn baby_name() -> (name: String)
        ensures
            name@ == "Spot"@,
    {
        String::from_str("Spot")
    }
}

impl Animal for Dog {
    open spec fn young() -> Seq<char> {
        "puppy"@
    }

    fn baby_name() -> (name: String) {
        String::from_str("puppy")
    }
}

/// Both names of a dog's young: the dog's own, and the one it has as an
/// animal.
pub fn test_baby_name() -> (names: (String, String))
    ensures
        names.0@ == "Spot"@,
        names.1@ == "puppy"@,
{
    (Dog::baby_name(), <Dog as Animal>::baby_name())
}

} // verus!
