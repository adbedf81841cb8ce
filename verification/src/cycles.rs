//! Graphs of shared values: how owning references form a cycle that is never
//! reclaimed, and how a non-owning reference avoids it.
use crate::rc::{Heap, StrongHandle, WeakHandle};
use crate::refcell::RefCell;
use vstd::prelude::*;
use vstd::string::*;

verus! {

/// A list whose links can be redirected after the list has been built.
pub enum List {
    Cons(i32, RefCell<StrongHandle>),
    Nil,
}

impl List {
    /// The link to the rest of the list, if this is not its end.
    pub fn tail(&self) -> (link: Option<&RefCell<StrongHandle>>)
        ensures
            match link {
                Some(cell) => self matches List::Cons(_, item) && *cell == item,
                None => self is Nil,
            },
    {
        match self {
            List::Cons(_, item) => Some(item),
            List::Nil => None,
        }
    }
}

/// Two list nodes are made to point at each other.
///
/// Returns the owner count of the first node when it is made, of the first
/// and the second once the second points at the first, and of the second and
/// the first once the first points back; and the heap after both nodes have
/// been given up by the program: each still has the owner that the other
/// holds, so neither is ever reclaimed.
pub fn reference_cycle() -> (report: (Vec<usize>, Heap<List>))
    ensures
        report.0@ == seq![1usize, 2, 1, 2, 2],
        report.1.wf(),
        report.1@.len() == 3,
        !report.1.allocated(0),
        report.1.allocated(1) && report.1.block(1).strong == 1,
        report.1.allocated(2) && report.1.block(2).strong == 1,
{
    let mut counts: Vec<usize> = Vec::new();
    let mut heap: Heap<List> = Heap::new();
    let end = heap.new_strong(List::Nil);
    let a = heap.new_strong(List::Cons(5, RefCell::new(end)));
    counts.push(heap.strong_count(&a));

    let to_a = heap.clone_strong(&a).unwrap();
    let b = heap.new_strong(List::Cons(10, RefCell::new(to_a)));
    counts.push(heap.strong_count(&a));
    counts.push(heap.strong_count(&b));

    let to_b = heap.clone_strong(&b).unwrap();
    let first = heap.payload_mut(&a);
    let replaced = match first {
        List::Cons(_, link) => {
            let guard = link.borrow_mut();
            let previous = link.write(&guard, to_b);
            link.release_mut(guard);
            previous
        },
        List::Nil => unreached(),
    };
    let _ = heap.drop_strong(replaced);
    counts.push(heap.strong_count(&b));
    counts.push(heap.strong_count(&a));

    let _ = heap.drop_strong(a);
    let _ = heap.drop_strong(b);
    (counts, heap)
}

/// A weak handle is upgraded while the value is owned, and again after the
/// only owner has given it up. Returns what each upgrade reached.
pub fn test_weak() -> (seen: (Option<i32>, Option<i32>))
    ensures
        seen == (Some(5i32), None::<i32>),
{
    let mut heap: Heap<i32> = Heap::new();
    let five = heap.new_strong(5);
    let weak_five = heap.downgrade(&five).unwrap();
    let first = match heap.upgrade(&weak_five).unwrap() {
        Some(strong_five) => {
            let value = *heap.deref(&strong_five);
            heap.drop_strong(strong_five);
            Some(value)
        },
        None => None,
    };
    heap.drop_strong(five);
    let second = match heap.upgrade(&weak_five).unwrap() {
        Some(strong_five) => {
            let value = *heap.deref(&strong_five);
            heap.drop_strong(strong_five);
            Some(value)
        },
        None => None,
    };
    heap.drop_weak(weak_five);
    (first, second)
}

/// Somebody who owns gadgets, and knows them without keeping them alive.
pub struct Owner {
    pub name: String,
    pub gadgets: RefCell<Vec<WeakHandle>>,
}

/// A tool that keeps its owner alive.
pub struct Gadget {
    pub id: i32,
    pub owner: StrongHandle,
}

/// Enters a gadget in its owner's list.
fn register(owners: &mut Heap<Owner>, owner: &StrongHandle, gadget: WeakHandle)
    requires
        old(owners).wf(),
        old(owners).owns(owner),
        old(owners).block(owner@).value->0.gadgets.wf(),
        old(owners).block(owner@).value->0.gadgets.state() is Unshared,
    ensures
        final(owners).wf(),
        final(owners).limit() == old(owners).limit(),
        final(owners)@.len() == old(owners)@.len(),
        forall|i: int|
            0 <= i < old(owners)@.len() && i != owner@ ==> final(owners)@[i] == old(owners)@[i],
        final(owners).owns(owner),
        final(owners).block(owner@).strong == old(owners).block(owner@).strong,
        final(owners).block(owner@).weak == old(owners).block(owner@).weak,
        final(owners).block(owner@).value->0.name == old(owners).block(owner@).value->0.name,
        final(owners).block(owner@).value->0.gadgets.wf(),
        final(owners).block(owner@).value->0.gadgets.state() is Unshared,
        final(owners).block(owner@).value->0.gadgets.value()@ == old(owners).block(
            owner@,
        ).value->0.gadgets.value()@.push(gadget),
{
    let person = owners.payload_mut(owner);
    let guard = person.gadgets.borrow_mut();
    person.gadgets.get_mut(&guard).push(gadget);
    person.gadgets.release_mut(guard);
}

/// An owner and two gadgets that refer to each other, the gadgets by owning
/// handles, the owner by non-owning ones, so that no cycle of owners forms.
///
/// Returns, for each gadget in the owner's list, its number and its owner's
/// name; and both heaps after the program has given up its handles: nothing
/// is left allocated.
pub fn test_gadget() -> (report: (Vec<(i32, String)>, Heap<Owner>, Heap<Gadget>))
    ensures
        report.0@.len() == 2,
        report.0@[0].0 == 1 && report.0@[0].1@ == "Gadget Man"@,
        report.0@[1].0 == 2 && report.0@[1].1@ == "Gadget Man"@,
        report.1@ == seq![None::<crate::rc::Block<Owner>>],
        report.2@ == seq![None::<crate::rc::Block<Gadget>>, None::<crate::rc::Block<Gadget>>],
{
    let mut owners: Heap<Owner> = Heap::new();
    let mut gadgets: Heap<Gadget> = Heap::new();
    let gadget_owner = owners.new_strong(
        Owner { name: String::from_str("Gadget Man"), gadgets: RefCell::new(Vec::new()) },
    );
    let gadget1 = gadgets.new_strong(
        Gadget { id: 1, owner: owners.clone_strong(&gadget_owner).unwrap() },
    );
    let gadget2 = gadgets.new_strong(
        Gadget { id: 2, owner: owners.clone_strong(&gadget_owner).unwrap() },
    );
    let known1 = gadgets.downgrade(&gadget1).unwrap();
    register(&mut owners, &gadget_owner, known1);
    let known2 = gadgets.downgrade(&gadget2).unwrap();
    register(&mut owners, &gadget_owner, known2);

    let mut lines: Vec<(i32, String)> = Vec::new();
    let list = owners.deref(&gadget_owner).gadgets.inspect();
    let ghost all = gadgets@;
    let mut i: usize = 0;
    while i < list.len()
        invariant
            list@.len() == 2,
            i <= 2,
            list@[0]@ == 0 && list@[1]@ == 1,
            gadgets.wf(),
            gadgets.limit() == usize::MAX,
            gadgets@ == all,
            all.len() == 2,
            forall|k: int|
                0 <= k < 2 ==> (#[trigger] all[k]) is Some && all[k]->0.strong == 1 && all[k]->0.weak
                    == 1 && all[k]->0.value is Some && all[k]->0.value->0.id == k + 1
                    && all[k]->0.value->0.owner@ == 0,
            owners.wf(),
            owners.allocated(0),
            owners.block(0).strong == 3,
            owners.block(0).value->0.name@ == "Gadget Man"@,
            lines@.len() == i,
            forall|k: int|
                0 <= k < i ==> (#[trigger] lines@[k]).0 == k + 1 && lines@[k].1@
                    == "Gadget Man"@,
        decreases 2 - i,
    {
        let gadget = gadgets.upgrade(&list[i]).unwrap().unwrap();
        let tool = gadgets.deref(&gadget);
        lines.push((tool.id, owners.deref(&tool.owner).name.clone()));
        let _ = gadgets.drop_strong(gadget);
        i = i + 1;
    }

    // The program ends: the gadgets go first, and each gives up its owner.
    let tool2 = gadgets.drop_strong(gadget2).unwrap();
    let _ = owners.drop_strong(tool2.owner);
    let tool1 = gadgets.drop_strong(gadget1).unwrap();
    let _ = owners.drop_strong(tool1.owner);
    // Then the owner, and with it the list of gadgets it knew.
    let person = owners.drop_strong(gadget_owner).unwrap();
    let mut known = person.gadgets.into_inner();
    let second = known.pop().unwrap();
    gadgets.drop_weak(second);
    let first = known.pop().unwrap();
    gadgets.drop_weak(first);
    (lines, owners, gadgets)
}

/// A node of a tree: it owns its children and only observes its parent.
pub struct Node {
    pub value: i32,
    pub parent: RefCell<Option<WeakHandle>>,
    pub children: RefCell<Vec<StrongHandle>>,
}

/// Destructs a node that has left the heap: gives up the handles it held.
fn destruct_node(heap: &mut Heap<Node>, node: Node)
    requires
        old(heap).wf(),
        node.parent.value() is None,
        node.children.value()@.len() == 1,
        old(heap).owns(&node.children.value()@[0]),
    ensures
        final(heap).wf(),
        final(heap).limit() == old(heap).limit(),
        final(heap)@ == old(heap)@.update(
            node.children.value()@[0]@,
            Heap::<Node>::retained(old(heap).block(node.children.value()@[0]@).after_drop()),
        ),
{
    let mut children = node.children.into_inner();
    let child = children.pop().unwrap();
    let _ = heap.drop_strong(child);
}

/// A leaf is adopted by a branch, which then goes away.
///
/// Returns the owner and observer counts of the leaf when it is alone, of the
/// branch and of the leaf while the branch exists, and of the leaf after the
/// branch is gone; and the value of the leaf's parent as the leaf finds it at
/// the end.
pub fn test_tree() -> (report: (Vec<(usize, usize)>, Option<i32>))
    ensures
        report.0@ == seq![(1usize, 0usize), (1usize, 1usize), (2usize, 0usize), (1usize, 0usize)],
        report.1 is None,
{
    let mut counts: Vec<(usize, usize)> = Vec::new();
    let mut heap: Heap<Node> = Heap::new();
    let leaf = heap.new_strong(
        Node { value: 3, parent: RefCell::new(None), children: RefCell::new(Vec::new()) },
    );
    counts.push((heap.strong_count(&leaf), heap.weak_count(&leaf)));

    let mut kids: Vec<StrongHandle> = Vec::new();
    kids.push(heap.clone_strong(&leaf).unwrap());
    let branch = heap.new_strong(
        Node { value: 5, parent: RefCell::new(None), children: RefCell::new(kids) },
    );
    let to_branch = heap.downgrade(&branch).unwrap();
    let node = heap.payload_mut(&leaf);
    let guard = node.parent.borrow_mut();
    let _ = node.parent.write(&guard, Some(to_branch));
    node.parent.release_mut(guard);
    counts.push((heap.strong_count(&branch), heap.weak_count(&branch)));
    counts.push((heap.strong_count(&leaf), heap.weak_count(&leaf)));

    // The scope of the branch ends: its only owning handle goes, and with it
    // the payload and the handle to the leaf that the payload held.
    let gone = heap.drop_strong(branch).unwrap();
    destruct_node(&mut heap, gone);

    // The leaf looks for its parent.
    let node = heap.payload_mut(&leaf);
    let guard = node.parent.borrow_mut();
    let link = node.parent.write(&guard, None);
    node.parent.release_mut(guard);
    let parent = match link {
        Some(w) => {
            let found = match heap.upgrade(&w).unwrap() {
                Some(p) => {
                    let value = heap.deref(&p).value;
                    heap.drop_strong(p);
                    Some(value)
                },
                None => None,
            };
            heap.drop_weak(w);
            found
        },
        None => None,
    };
    counts.push((heap.strong_count(&leaf), heap.weak_count(&leaf)));
    let last = heap.drop_strong(leaf);
    (counts, parent)
}

} // verus!
