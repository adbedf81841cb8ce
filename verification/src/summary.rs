//! Things that can be summed up in a line.
use vstd::prelude::*;
use vstd::string::*;

verus! {

/// An article.
pub struct Post {
    pub title: String,
    pub author: String,
    pub content: String,
}

/// A short message.
pub struct Weibo {
    pub username: String,
    pub content: String,
}

/// What a summary line says around the author's name.
pub open spec fn read_more(author: Seq<char>) -> Seq<char> {
    "(Read more from "@ + author + "...)"@
}

/// Something with an author, which can be summed up.
pub trait Summary {
    /// How the author is named in a summary.
    spec fn author_line(&self) -> Seq<char>;

    fn summarize_author(&self) -> (line: String)
        ensures
            line@ == self.author_line(),
    ;

    /// The summary: an invitation to read more from the author.
    fn summarize(&self) -> (line: String)
        ensures
            line@ == read_more(self.author_line()),
    {
        let mut line = String::from_str("(Read more from ");
        let author = self.summarize_author();
        line.append(author.as_str());
        line.append("...)");
        line
    }
}

impl Summary for Weibo {
    open spec fn author_line(&self) -> Seq<char> {
        "@"@ + self.username@
    }

    fn summarize_author(&self) -> (line: String) {
        let mut line = String::from_str("@");
        line.append(self.username.as_str());
        line
    }
}

/// A pair of two values of one type.
pub struct Pair<T> {
    pub x: T,
    pub y: T,
}

impl<T> Pair<T> {
    pub fn new(x: T, y: T) -> (pair: Pair<T>)
        ensures
            pair.x == x,
            pair.y == y,
    {
        Self { x, y }
    }
}

/// Something that can be summed up, without saying what it is.
pub fn returns_summarizable() -> (item: impl Summary)
    ensures
        item.author_line() == "@sunface"@,
{
    proof {
        reveal_strlit("@");
        reveal_strlit("sunface");
        reveal_strlit("@sunface");
        assert("@"@ + "sunface"@ =~= "@sunface"@);
    }
    Weibo {
        username: String::from_str("sunface"),
        content: String::from_str("m1 max太厉害了，电脑再也不会卡"),
    }
}

} // verus!
