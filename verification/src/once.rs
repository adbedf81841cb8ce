//! A slot that is empty until it is first asked for, is filled exactly once,
//! and from then on only read.
use vstd::prelude::*;

verus! {

/// A value that is made on first use.
pub struct OnceSlot<T> {
    value: Option<T>,
}

impl<T> OnceSlot<T> {
    /// What the slot holds, if it has been filled.
    pub closed spec fn view(&self) -> Option<T> {
        self.value
    }

    pub fn new() -> (slot: OnceSlot<T>)
        ensures
            slot@ is None,
    {
        OnceSlot { value: None }
    }

    /// The value, if the slot has been filled.
    pub fn get(&self) -> (value: Option<&T>)
        ensures
            match value {
                Some(v) => self@ == Some(*v),
                None => self@ is None,
            },
    {
        self.value.as_ref()
    }

    /// Fills an empty slot with `value`; a filled slot stays as it is and
    /// `value` is handed back.
    pub fn set(&mut self, value: T) -> (r: Result<(), T>)
        ensures
            match r {
                Ok(_) => old(self)@ is None && final(self)@ == Some(value),
                Err(back) => old(self)@ is Some && back == value && final(self)@ == old(self)@,
            },
    {
        if self.value.is_some() {
            Err(value)
        } else {
            self.value = Some(value);
            Ok(())
        }
    }

    /// Fills the slot by `init` if it is empty. Tells whether it did; `init`
    /// is called in that case only.
    pub fn fill_with<F: FnOnce() -> T>(&mut self, init: F) -> (filled: bool)
        requires
            init.requires(()),
        ensures
            filled == (old(self)@ is None),
            !filled ==> final(self)@ == old(self)@,
            filled ==> final(self)@ is Some && init.ensures((), final(self)@->0),
    {
        if self.value.is_some() {
            false
        } else {
            self.value = Some(init());
            true
        }
    }

    /// The value of the slot, made by `init` if the slot was empty.
    pub fn get_or_init<F: FnOnce() -> T>(&mut self, init: F) -> (value: &T)
        requires
            init.requires(()),
        ensures
            final(self)@ == Some(*value),
            old(self)@ is Some ==> final(self)@ == old(self)@,
            old(self)@ is None ==> init.ensures((), *value),
    {
        if self.value.is_none() {
            self.value = Some(init());
        }
        self.value.as_ref().unwrap()
    }

    /// Empties the slot and returns what it held.
    pub fn take(&mut self) -> (value: Option<T>)
        ensures
            value == old(self)@,
            final(self)@ is None,
    {
        self.value.take()
    }

    /// Whether the slot has been filled.
    pub fn is_initialized(&self) -> (b: bool)
        ensures
            b == (self@ is Some),
    {
        self.value.is_some()
    }
}

/// A filled slot is never filled again: whatever is offered later, it keeps
/// what the first offer put in.
pub proof fn law_filled_once<T>(first: T, later: Seq<T>)
    ensures
        offered(Some(first), later) == Some(first),
        offered(None, seq![first] + later) == Some(first),
    decreases later.len(),
{
    if later.len() > 0 {
        law_filled_once(first, later.drop_last());
        assert((seq![first] + later).drop_last() =~= seq![first] + later.drop_last());
    } else {
        let only = seq![first] + later;
        assert(only.drop_last() =~= Seq::<T>::empty());
        assert(only.last() == first);
        assert(offered::<T>(None, only.drop_last()) is None);
    }
}

/// What a slot holds after the values of `offers` have been offered to it in
/// turn, as [`OnceSlot::set`] does.
pub open spec fn offered<T>(slot: Option<T>, offers: Seq<T>) -> Option<T>
    decreases offers.len(),
{
    if offers.len() == 0 {
        slot
    } else {
        match offered(slot, offers.drop_last()) {
            Some(v) => Some(v),
            None => Some(offers.last()),
        }
    }
}

} // verus!
