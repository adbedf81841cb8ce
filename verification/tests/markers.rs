use shared_cells::arc::{AtomicStrongHandle, AtomicWeakHandle, SharedHeap};
use shared_cells::atomic::AtomicCounter;
use shared_cells::cell::Cell;
use shared_cells::lock::{Condvar, Guard, Lock};
use shared_cells::once::OnceSlot;
use shared_cells::rc::{Heap, StrongHandle, WeakHandle};
use shared_cells::refcell::{Ref, RefCell, RefMut};

// Resolves for one implementation only, that is when `T` is not `Send`.
trait BoundToThread<A> {
    fn proved() {}
}

impl<T: ?Sized> BoundToThread<()> for T {}

impl<T: ?Sized + Send> BoundToThread<u8> for T {}

// Likewise for `Sync`.
trait NotShared<A> {
    fn proved() {}
}

impl<T: ?Sized> NotShared<()> for T {}

impl<T: ?Sized + Sync> NotShared<u8> for T {}

fn crosses_threads<T: Send + Sync>() {}

#[test]
fn single_threaded_types_stay_on_their_thread() {
    <Heap<u8> as BoundToThread<_>>::proved();
    <StrongHandle as BoundToThread<_>>::proved();
    <WeakHandle as BoundToThread<_>>::proved();
    <Cell<u8> as BoundToThread<_>>::proved();
    <RefCell<u8> as BoundToThread<_>>::proved();
    <Ref as BoundToThread<_>>::proved();
    <RefMut as BoundToThread<_>>::proved();
    <Heap<u8> as NotShared<_>>::proved();
    <StrongHandle as NotShared<_>>::proved();
    <WeakHandle as NotShared<_>>::proved();
    <Cell<u8> as NotShared<_>>::proved();
    <RefCell<u8> as NotShared<_>>::proved();
}

#[test]
fn shared_types_cross_threads() {
    crosses_threads::<SharedHeap<u8>>();
    crosses_threads::<AtomicStrongHandle>();
    crosses_threads::<AtomicWeakHandle>();
    crosses_threads::<AtomicCounter>();
    crosses_threads::<Lock<u8>>();
    crosses_threads::<Guard>();
    crosses_threads::<Condvar>();
    crosses_threads::<OnceSlot<u8>>();
}
