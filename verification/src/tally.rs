//! Counting how often each word occurs.
use vstd::prelude::*;
use vstd::string::*;

verus! {

/// How often `w` occurs among `words`.
pub open spec fn occurrences(words: Seq<String>, w: Seq<char>) -> nat
    decreases words.len(),
{
    if words.len() == 0 {
        0
    } else {
        occurrences(words.drop_last(), w) + if words.last()@ == w {
            1nat
        } else {
            0nat
        }
    }
}

/// What a list of entries says of `w`: the count of the last entry for it.
spec fn lookup(entries: Seq<(String, usize)>, w: Seq<char>) -> nat
    decreases entries.len(),
{
    if entries.len() == 0 {
        0
    } else if entries.last().0@ == w {
        entries.last().1 as nat
    } else {
        lookup(entries.drop_last(), w)
    }
}

proof fn lemma_lookup_absent(entries: Seq<(String, usize)>, w: Seq<char>)
    requires
        forall|i: int| 0 <= i < entries.len() ==> (#[trigger] entries[i]).0@ != w,
    ensures
        lookup(entries, w) == 0,
    decreases entries.len(),
{
    if entries.len() > 0 {
        let prefix = entries.drop_last();
        assert forall|i: int| 0 <= i < prefix.len() implies (#[trigger] prefix[i]).0@ != w by {
            assert(prefix[i] == entries[i]);
        }
        assert(entries.last() == entries[entries.len() - 1]);
        lemma_lookup_absent(prefix, w);
    }
}

proof fn lemma_lookup_at(entries: Seq<(String, usize)>, at: int)
    requires
        0 <= at < entries.len(),
        forall|i: int, j: int|
            0 <= i < j < entries.len() ==> (#[trigger] entries[i]).0@ != (#[trigger] entries[j]).0@,
    ensures
        lookup(entries, entries[at].0@) == entries[at].1,
    decreases entries.len(),
{
    if at < entries.len() - 1 {
        let prefix = entries.drop_last();
        assert(entries.last() == entries[entries.len() - 1]);
        assert(prefix[at] == entries[at]);
        assert forall|i: int, j: int| 0 <= i < j < prefix.len() implies (#[trigger] prefix[i]).0@
            != (#[trigger] prefix[j]).0@ by {
            assert(prefix[i] == entries[i]);
            assert(prefix[j] == entries[j]);
        }
        lemma_lookup_at(prefix, at);
    }
}

proof fn lemma_lookup_update(
    entries: Seq<(String, usize)>,
    at: int,
    entry: (String, usize),
    w: Seq<char>,
)
    requires
        0 <= at < entries.len(),
        entry.0@ == entries[at].0@,
        forall|i: int, j: int|
            0 <= i < j < entries.len() ==> (#[trigger] entries[i]).0@ != (#[trigger] entries[j]).0@,
    ensures
        lookup(entries.update(at, entry), w) == if w == entry.0@ {
            entry.1 as nat
        } else {
            lookup(entries, w)
        },
    decreases entries.len(),
{
    let updated = entries.update(at, entry);
    assert(entries.last() == entries[entries.len() - 1]);
    if at == entries.len() - 1 {
        assert(updated.drop_last() =~= entries.drop_last());
        if w == entry.0@ {
        } else {
        }
    } else {
        let prefix = entries.drop_last();
        assert(updated.drop_last() =~= prefix.update(at, entry));
        assert(updated.last() == entries.last());
        assert(prefix[at] == entries[at]);
        assert forall|i: int, j: int| 0 <= i < j < prefix.len() implies (#[trigger] prefix[i]).0@
            != (#[trigger] prefix[j]).0@ by {
            assert(prefix[i] == entries[i]);
            assert(prefix[j] == entries[j]);
        }
        lemma_lookup_update(prefix, at, entry, w);
        assert(entries.last().0@ != entries[at].0@);
    }
}

/// Words and how often each was counted.
pub struct Tally {
    entries: Vec<(String, usize)>,
}

impl Tally {
    /// How often `w` has been counted.
    pub closed spec fn count(&self, w: Seq<char>) -> nat {
        lookup(self.entries@, w)
    }

    /// No word has two entries, and no entry is empty.
    pub closed spec fn wf(&self) -> bool {
        &&& forall|i: int, j: int|
            0 <= i < j < self.entries@.len() ==> (#[trigger] self.entries@[i]).0@ != (
            #[trigger] self.entries@[j]).0@
        &&& forall|i: int| 0 <= i < self.entries@.len() ==> (#[trigger] self.entries@[i]).1 > 0
    }

    pub fn new() -> (tally: Tally)
        ensures
            tally.wf(),
            forall|w: Seq<char>| tally.count(w) == 0,
    {
        Tally { entries: Vec::new() }
    }

    fn position(&self, word: &String) -> (at: Option<usize>)
        ensures
            match at {
                Some(i) => i < self.entries@.len() && self.entries@[i as int].0@ == word@,
                None => forall|i: int|
                    0 <= i < self.entries@.len() ==> (#[trigger] self.entries@[i]).0@ != word@,
            },
    {
        let mut i: usize = 0;
        while i < self.entries.len()
            invariant
                i <= self.entries@.len(),
                forall|k: int| 0 <= k < i ==> (#[trigger] self.entries@[k]).0@ != word@,
            decreases self.entries@.len() - i,
        {
            if self.entries[i].0 == *word {
                return Some(i);
            }
            i = i + 1;
        }
        None
    }

    /// How often `word` has been counted.
    pub fn get(&self, word: &String) -> (n: usize)
        requires
            self.wf(),
        ensures
            n == self.count(word@),
    {
        match self.position(word) {
            Some(i) => {
                proof {
                    lemma_lookup_at(self.entries@, i as int);
                }
                self.entries[i].1
            },
            None => {
                proof {
                    lemma_lookup_absent(self.entries@, word@);
                }
                0
            },
        }
    }

    /// Counts `word` once more.
    pub fn add(&mut self, word: String)
        requires
            old(self).wf(),
            old(self).count(word@) < usize::MAX,
        ensures
            final(self).wf(),
            forall|w: Seq<char>|
                #[trigger] final(self).count(w) == old(self).count(w) + if w == word@ {
                    1nat
                } else {
                    0nat
                },
    {
        match self.position(&word) {
            Some(i) => {
                proof {
                    lemma_lookup_at(self.entries@, i as int);
                }
                let n = self.entries[i].1;
                let ghost before = self.entries@;
                self.entries.set(i, (word, n + 1));
                proof {
                    assert forall|w: Seq<char>|
                        #[trigger] self.count(w) == old(self).count(w) + if w == word@ {
                            1nat
                        } else {
                            0nat
                        } by {
                        lemma_lookup_update(before, i as int, (word, (n + 1) as usize), w);
                    }
                }
            },
            None => {
                proof {
                    lemma_lookup_absent(self.entries@, word@);
                }
                let ghost before = self.entries@;
                self.entries.push((word, 1));
                proof {
                    assert(self.entries@.drop_last() =~= before);
                    assert(self.entries@.last() == (word, 1usize));
                }
            },
        }
    }

    /// The words that have been counted, each with its count, in the order
    /// in which they first came.
    pub fn into_entries(self) -> (entries: Vec<(String, usize)>)
        requires
            self.wf(),
        ensures
            forall|i: int|
                0 <= i < entries@.len() ==> self.count((#[trigger] entries@[i]).0@) == entries@[i].1
                    && entries@[i].1 > 0,
            forall|i: int, j: int|
                0 <= i < j < entries@.len() ==> (#[trigger] entries@[i]).0@ != (
                #[trigger] entries@[j]).0@,
            forall|w: Seq<char>|
                self.count(w) > 0 ==> exists|i: int|
                    0 <= i < entries@.len() && (#[trigger] entries@[i]).0@ == w,
    {
        proof {
            assert forall|i: int| 0 <= i < self.entries@.len() implies self.count(
                (#[trigger] self.entries@[i]).0@,
            ) == self.entries@[i].1 by {
                lemma_lookup_at(self.entries@, i);
            }
            assert forall|w: Seq<char>| self.count(w) > 0 implies exists|i: int|
                0 <= i < self.entries@.len() && (#[trigger] self.entries@[i]).0@ == w by {
                if forall|i: int|
                    0 <= i < self.entries@.len() ==> (#[trigger] self.entries@[i]).0@ != w {
                    lemma_lookup_absent(self.entries@, w);
                }
            }
        }
        self.entries
    }
}

/// Counts every word of the list.
pub fn word_counts(words: Vec<String>) -> (tally: Tally)
    ensures
        tally.wf(),
        forall|w: Seq<char>| #[trigger] tally.count(w) == occurrences(words@, w),
{
    let ghost all = words@;
    let mut tally = Tally::new();
    let mut rest = words;
    let mut reversed: Vec<String> = Vec::new();
    while rest.len() > 0
        invariant
            rest@.len() + reversed@.len() == all.len(),
            forall|i: int| 0 <= i < rest@.len() ==> rest@[i] == all[i],
            forall|i: int|
                0 <= i < reversed@.len() ==> reversed@[i] == all[all.len() - 1 - i],
        decreases rest@.len(),
    {
        let word = rest.pop().unwrap();
        reversed.push(word);
    }
    let mut done: usize = 0;
    let n = reversed.len();
    while reversed.len() > 0
        invariant
            n == all.len(),
            done + reversed@.len() == n,
            forall|i: int|
                0 <= i < reversed@.len() ==> reversed@[i] == all[all.len() - 1 - i],
            tally.wf(),
            forall|w: Seq<char>|
                #[trigger] tally.count(w) == occurrences(all.subrange(0, done as int), w),
        decreases reversed@.len(),
    {
        let word = reversed.pop().unwrap();
        proof {
            assert(word == all[done as int]);
            lemma_occurrences_bounded(all.subrange(0, done as int), word@);
            let longer = all.subrange(0, done + 1);
            assert(longer.drop_last() =~= all.subrange(0, done as int));
            assert(longer.last() == word);
        }
        tally.add(word);
        done = done + 1;
    }
    assert(all.subrange(0, all.len() as int) =~= all);
    tally
}

proof fn lemma_occurrences_bounded(words: Seq<String>, w: Seq<char>)
    ensures
        occurrences(words, w) <= words.len(),
    decreases words.len(),
{
    if words.len() > 0 {
        lemma_occurrences_bounded(words.drop_last(), w);
    }
}

} // verus!
