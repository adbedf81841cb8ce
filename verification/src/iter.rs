//! Sequences that are produced one element at a time.
use vstd::prelude::*;

verus! {

/// Something that yields items, one per call.
pub trait Iterator: Sized {
    type Item;

    /// The item that the next call yields, if it yields one.
    spec fn peek(&self) -> Option<Self::Item>;

    /// The iterator as the next call leaves it.
    spec fn advanced(&self) -> Self;

    /// The next item, or `None` when none is left.
    fn next(&mut self) -> (item: Option<Self::Item>)
        ensures
            item == old(self).peek(),
            *final(self) == old(self).advanced(),
    ;
}

/// Counts from one to five.
pub struct Counter {
    count: u32,
}

impl Counter {
    /// How many items the counter has yielded.
    pub closed spec fn view(&self) -> nat {
        self.count as nat
    }

    pub fn new() -> (counter: Counter)
        ensures
            counter@ == 0,
    {
        Counter { count: 0 }
    }

    /// A counter yields the number after its count until it has yielded
    /// five, and then nothing.
    pub proof fn lemma_counts(&self)
        requires
            self@ <= 5,
        ensures
            self.peek() == if self@ < 5 {
                Some((self@ + 1) as u32)
            } else {
                None
            },
            self.advanced()@ == if self@ < 5 {
                self@ + 1
            } else {
                self@
            },
    {
    }
}

impl Iterator for Counter {
    type Item = u32;

    closed spec fn peek(&self) -> Option<u32> {
        if self.count < 5 {
            Some((self.count + 1) as u32)
        } else {
            None
        }
    }

    closed spec fn advanced(&self) -> Counter {
        if self.count < 5 {
            Counter { count: (self.count + 1) as u32 }
        } else {
            *self
        }
    }

    fn next(&mut self) -> (item: Option<u32>) {
        if self.count < 5 {
            self.count += 1;
            Some(self.count)
        } else {
            None
        }
    }
}

/// Everything a counter yields until it is exhausted, and what it yields
/// after that.
pub fn test_counter() -> (seen: (Vec<u32>, Option<u32>))
    ensures
        seen.0@ == seq![1u32, 2, 3, 4, 5],
        seen.1 is None,
{
    let mut counter = Counter::new();
    let mut seen: Vec<u32> = Vec::new();
    let mut i: usize = 0;
    while i < 5
        invariant
            i <= 5,
            counter@ == i,
            seen@ == seq![1u32, 2, 3, 4, 5].subrange(0, i as int),
        decreases 5 - i,
    {
        proof {
            counter.lemma_counts();
        }
        match counter.next() {
            Some(x) => {
                seen.push(x);
            },
            None => {},
        }
        i = i + 1;
    }
    proof {
        counter.lemma_counts();
    }
    let after = counter.next();
    (seen, after)
}

/// The sum of the elements at even positions, counting from zero.
pub open spec fn sum_even_positions(v: Seq<u64>) -> int
    decreases v.len(),
{
    if v.len() == 0 {
        0
    } else {
        sum_even_positions(v.drop_last()) + if (v.len() - 1) % 2 == 0 {
            v.last() as int
        } else {
            0
        }
    }
}

/// The sum of every other element of `v`, beginning with the first, if it
/// fits the result type.
pub fn sum_alternate(v: &Vec<u64>) -> (sum: Option<u64>)
    ensures
        match sum {
            Some(s) => s == sum_even_positions(v@),
            None => sum_even_positions(v@) > u64::MAX,
        },
{
    let mut sum: u64 = 0;
    let mut i: usize = 0;
    while i < v.len()
        invariant
            i <= v@.len(),
            sum == sum_even_positions(v@.subrange(0, i as int)),
        decreases v@.len() - i,
    {
        proof {
            assert(v@.subrange(0, i + 1).drop_last() =~= v@.subrange(0, i as int));
        }
        if i % 2 == 0 {
            match sum.checked_add(v[i]) {
                Some(s) => {
                    sum = s;
                },
                None => {
                    proof {
                        lemma_sum_grows(v@, i + 1);
                    }
                    return None;
                },
            }
        }
        i = i + 1;
    }
    assert(v@.subrange(0, v@.len() as int) =~= v@);
    Some(sum)
}

proof fn lemma_sum_grows(v: Seq<u64>, k: int)
    requires
        0 <= k <= v.len(),
    ensures
        sum_even_positions(v.subrange(0, k)) <= sum_even_positions(v),
    decreases v.len() - k,
{
    if k < v.len() {
        assert(v.subrange(0, k + 1).drop_last() =~= v.subrange(0, k));
        lemma_sum_grows(v, k + 1);
    } else {
        assert(v.subrange(0, k) =~= v);
    }
}

/// A shoe.
pub struct Shoe {
    pub size: u32,
    pub style: String,
}

/// The shoes of one size, in the order in which they came.
pub fn shoes_in_size(shoes: Vec<Shoe>, shoe_size: u32) -> (fitting: Vec<Shoe>)
    ensures
        fitting@ == shoes@.filter(|s: Shoe| s.size == shoe_size),
{
    let ghost all = shoes@;
    let ghost fits = |s: Shoe| s.size == shoe_size;
    let mut shoes = shoes;
    let mut fitting: Vec<Shoe> = Vec::new();
    // Taken from the end, so the fitting ones come out in reverse.
    let mut reversed: Vec<Shoe> = Vec::new();
    while shoes.len() > 0
        invariant
            shoes@.len() <= all.len(),
            shoes@ == all.subrange(0, shoes@.len() as int),
            fits == |s: Shoe| s.size == shoe_size,
            reversed@.reverse() == all.subrange(shoes@.len() as int, all.len() as int).filter(fits),
        decreases shoes@.len(),
    {
        let ghost before = shoes@;
        let shoe = shoes.pop().unwrap();
        proof {
            let n = before.len() as int;
            let tail = all.subrange(n, all.len() as int);
            let longer = all.subrange(n - 1, all.len() as int);
            assert(longer =~= seq![shoe] + tail);
            lemma_filter_front(shoe, tail, fits);
        }
        if shoe.size == shoe_size {
            let ghost r0 = reversed@;
            reversed.push(shoe);
            assert(reversed@.reverse() =~= seq![shoe] + r0.reverse());
        }
    }
    assert(all.subrange(0, all.len() as int) =~= all);
    while reversed.len() > 0
        invariant
            fitting@ + reversed@.reverse() == all.filter(fits),
        decreases reversed@.len(),
    {
        let ghost r0 = reversed@;
        let ghost f0 = fitting@;
        let shoe = reversed.pop().unwrap();
        fitting.push(shoe);
        assert(r0.reverse() =~= seq![shoe] + reversed@.reverse());
        assert(fitting@ + reversed@.reverse() =~= f0 + r0.reverse());
    }
    assert(reversed@.reverse() =~= Seq::<Shoe>::empty());
    assert(fitting@ + Seq::<Shoe>::empty() =~= fitting@);
    fitting
}

proof fn lemma_filter_front<A>(x: A, s: Seq<A>, pred: spec_fn(A) -> bool)
    ensures
        (seq![x] + s).filter(pred) == if pred(x) {
            seq![x] + s.filter(pred)
        } else {
            s.filter(pred)
        },
{
    Seq::filter_distributes_over_add(seq![x], s, pred);
    reveal(Seq::filter);
    let one = seq![x];
    assert(one.drop_last() =~= Seq::<A>::empty());
    assert(one.last() == x);
    assert(Seq::<A>::empty().filter(pred) =~= Seq::<A>::empty());
    assert(one.drop_last().filter(pred) =~= Seq::<A>::empty());
    assert(Seq::<A>::empty().push(x) =~= seq![x]);
    assert(seq![x].filter(pred) =~= if pred(x) {
        seq![x]
    } else {
        Seq::<A>::empty()
    });
    assert(Seq::<A>::empty() + s.filter(pred) =~= s.filter(pred));
}

} // verus!
