//! Shared ownership at work: short programs over a heap of control blocks,
//! each returning what it observed.
use crate::arc::SharedHeap;
use crate::rc::{Heap, StrongHandle};
use vstd::prelude::*;
use vstd::string::*;

verus! {

/// Two handles to one string: the count as seen through the first handle and
/// as seen through the second.
pub fn test_rc() -> (counts: (usize, usize))
    ensures
        counts == (2usize, 2usize),
{
    let mut heap: Heap<String> = Heap::new();
    let a = heap.new_strong(String::from_str("hello, world"));
    let b = heap.clone_strong(&a).unwrap();
    let counts = (heap.strong_count(&a), heap.strong_count(&b));
    heap.drop_strong(b);
    heap.drop_strong(a);
    counts
}

/// The owner count of a string after its creation, after a clone, after a
/// second clone in an inner scope, and after that scope has ended.
pub fn test_rc_count() -> (counts: Vec<usize>)
    ensures
        counts@ == seq![1usize, 2, 3, 2],
{
    let mut counts: Vec<usize> = Vec::new();
    let mut heap: Heap<String> = Heap::new();
    let a = heap.new_strong(String::from_str("test ref counting"));
    counts.push(heap.strong_count(&a));
    let b = heap.clone_strong(&a).unwrap();
    counts.push(heap.strong_count(&a));
    let c = heap.clone_strong(&a).unwrap();
    counts.push(heap.strong_count(&c));
    heap.drop_strong(c);
    counts.push(heap.strong_count(&a));
    heap.drop_strong(b);
    heap.drop_strong(a);
    counts
}

/// Somebody who owns gadgets.
pub struct Owner {
    pub name: String,
}

/// A tool that knows its owner.
pub struct Gadget {
    pub id: i32,
    pub owner: StrongHandle,
}

/// Two gadgets share their owner. The handle that created the owner is given
/// up first; the gadgets still reach the owner through theirs. Returns, for
/// each gadget, its number and its owner's name.
pub fn test_gadget() -> (lines: Vec<(i32, String)>)
    ensures
        lines@.len() == 2,
        lines@[0].0 == 1 && lines@[0].1@ == "Gadget Man"@,
        lines@[1].0 == 2 && lines@[1].1@ == "Gadget Man"@,
{
    let mut owners: Heap<Owner> = Heap::new();
    let gadget_owner = owners.new_strong(Owner { name: String::from_str("Gadget Man") });
    let gadget1 = Gadget { id: 1, owner: owners.clone_strong(&gadget_owner).unwrap() };
    let gadget2 = Gadget { id: 2, owner: owners.clone_strong(&gadget_owner).unwrap() };
    owners.drop_strong(gadget_owner);
    let mut lines: Vec<(i32, String)> = Vec::new();
    lines.push((gadget1.id, owners.deref(&gadget1.owner).name.clone()));
    lines.push((gadget2.id, owners.deref(&gadget2.owner).name.clone()));
    owners.drop_strong(gadget1.owner);
    owners.drop_strong(gadget2.owner);
    lines
}

/// Ten clones in a row, each given up before the next is made, as a loop
/// does that hands nothing to a thread. Returns the owner count at the end.
pub fn test_thread_rc() -> (count: usize)
    ensures
        count == 1,
{
    let mut heap: Heap<String> = Heap::new();
    let s = heap.new_strong(String::from_str("多线程漫游者"));
    let mut i: usize = 0;
    while i < 10
        invariant
            heap.wf(),
            heap.limit() == usize::MAX,
            heap.owns(&s),
            heap.block(s@).strong == 1,
        decreases 10 - i,
    {
        let local = heap.clone_strong(&s).unwrap();
        heap.drop_strong(local);
        i = i + 1;
    }
    let count = heap.strong_count(&s);
    heap.drop_strong(s);
    count
}

/// Ten threads are each handed an owning handle to one string; each reads
/// the string and gives its handle up. Returns what the threads read, and the
/// owner count once the last of them has ended.
pub fn test_arc() -> (report: (Vec<String>, usize))
    ensures
        report.0@.len() == 10,
        forall|i: int| 0 <= i < 10 ==> (#[trigger] report.0@[i])@ == "多线程漫游者"@,
        report.1 == 1,
{
    let mut heap: SharedHeap<String> = SharedHeap::new();
    let s = heap.new_strong(String::from_str("多线程漫游者"));
    let mut read: Vec<String> = Vec::new();
    let mut i: usize = 0;
    while i < 10
        invariant
            i <= 10,
            heap.wf(),
            heap.limit() == crate::arc::MAX_SHARED,
            heap.owns(&s),
            heap.block(s@).strong == 1,
            heap.block(s@).value matches Some(text) && text@ == "多线程漫游者"@,
            read@.len() == i,
            forall|k: int| 0 <= k < i ==> (#[trigger] read@[k])@ == "多线程漫游者"@,
        decreases 10 - i,
    {
        let handed = heap.clone_strong(&s).unwrap();
        read.push(heap.deref(&handed).clone());
        let _ = heap.drop_strong(handed);
        i = i + 1;
    }
    let count = heap.strong_count(&s);
    let _ = heap.drop_strong(s);
    (read, count)
}

} // verus!
