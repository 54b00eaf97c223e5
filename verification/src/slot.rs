//! A slot that is filled at most once.

use vstd::prelude::*;

verus! {

/// A slot that starts empty, is filled by the first caller that asks for its
/// value, and keeps that value from then on.
pub struct LazySlot<T> {
    value: Option<T>,
}

impl<T> View for LazySlot<T> {
    type V = Option<T>;

    closed spec fn view(&self) -> Option<T> {
        self.value
    }
}

impl<T> LazySlot<T> {
    /// What one call of [`get_or_init`](Self::get_or_init) does: afterwards
    /// the slot holds what the call returned, and a slot that was filled
    /// before is left as it was.
    pub open spec fn init_step(pre: LazySlot<T>, post: LazySlot<T>, result: T) -> bool {
        &&& post@ == Some(result)
        &&& pre@ is Some ==> post@ == pre@
    }

    /// An empty slot.
    pub fn new() -> (slot: LazySlot<T>)
        ensures
            slot@ is None,
    {
        LazySlot { value: None }
    }

    /// Whether the slot has been filled.
    pub fn is_initialized(&self) -> (filled: bool)
        ensures
            filled == (self@ is Some),
    {
        self.value.is_some()
    }

    /// The value in the slot, if it has been filled.
    pub fn get(&self) -> (value: Option<&T>)
        ensures
            match self@ {
                Some(held) => value == Some(&held),
                None => value is None,
            },
    {
        self.value.as_ref()
    }

    /// The value in the slot; an empty slot is first filled with what
    /// `factory` returns.
    ///
    /// `factory` is consumed, so it runs at most once. It runs only for an
    /// empty slot: for a filled one the caller need not even meet its
    /// precondition, and the value that the slot held is the result.
    pub fn get_or_init<F: FnOnce() -> T>(&mut self, factory: F) -> (value: &T)
        requires
            old(self)@ is None ==> factory.requires(()),
        ensures
            Self::init_step(*old(self), *final(self), *value),
            old(self)@ is None ==> factory.ensures((), *value),
    {
        if self.value.is_none() {
            self.value = Some(factory());
        }
        self.value.as_ref().unwrap()
    }

    /// Once a slot is filled it stays as it is: of two calls in a row, the
    /// second returns what the first returned and leaves the slot unchanged,
    /// whatever factories the callers brought.
    pub proof fn lemma_filled_once(
        before: LazySlot<T>,
        between: LazySlot<T>,
        after: LazySlot<T>,
        first: T,
        second: T,
    )
        requires
            Self::init_step(before, between, first),
            Self::init_step(between, after, second),
        ensures
            second == first,
            after@ == between@,
    {
    }
}

} // verus!
