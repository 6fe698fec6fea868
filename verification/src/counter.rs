//! The counter: one `i32`, read with `get` and changed only by saturating steps.

use crate::saturating::{saturate, saturating_add, saturating_sub};
use vstd::prelude::*;

verus! {

/// A single signed 32-bit value. Its view is the value that `get` returns, as
/// a mathematical integer.
pub struct Counter {
    value: i32,
}

impl View for Counter {
    type V = int;

    open spec fn view(&self) -> int {
        self.spec_get() as int
    }
}

impl Counter {
    /// The counter that `new` returns for `init_value`.
    pub closed spec fn spec_new(init_value: i32) -> Counter {
        Counter { value: init_value }
    }

    /// The counter that `default` returns.
    pub open spec fn spec_default() -> Counter {
        Counter::spec_new(0)
    }

    /// The value that `get` returns for this counter.
    pub closed spec fn spec_get(&self) -> i32 {
        self.value
    }

    /// A counter that holds `init_value`.
    #[verifier::when_used_as_spec(spec_new)]
    pub fn new(init_value: i32) -> (counter: Counter)
        ensures
            counter == Counter::spec_new(init_value),
            counter@ == init_value,
    {
        Counter { value: init_value }
    }

    /// A counter that holds zero, made by `new`.
    #[verifier::when_used_as_spec(spec_default)]
    pub fn default() -> (counter: Counter)
        ensures
            counter == Counter::spec_default(),
            counter@ == 0,
    {
        Counter::new(0)
    }

    /// Adds one; a counter at `i32::MAX` stays there.
    pub fn increment(&mut self)
        ensures
            final(self)@ == saturate(old(self)@ + 1),
            old(self)@ < i32::MAX ==> final(self)@ == old(self)@ + 1,
            old(self)@ == i32::MAX ==> final(self)@ == i32::MAX,
    {
        self.value = saturating_add(self.value, 1);
    }

    /// Subtracts one; a counter at `i32::MIN` stays there.
    pub fn decrement(&mut self)
        ensures
            final(self)@ == saturate(old(self)@ - 1),
            old(self)@ > i32::MIN ==> final(self)@ == old(self)@ - 1,
            old(self)@ == i32::MIN ==> final(self)@ == i32::MIN,
    {
        self.value = saturating_sub(self.value, 1);
    }

    /// Adds `by`, which may be negative; a sum that an `i32` cannot hold
    /// becomes the bound that it has passed.
    pub fn modify_by(&mut self, by: i32)
        ensures
            final(self)@ == saturate(old(self)@ + by),
    {
        self.value = saturating_add(self.value, by);
    }

    /// The value that the counter holds.
    #[verifier::when_used_as_spec(spec_get)]
    pub fn get(&self) -> (value: i32)
        ensures
            value == self.spec_get(),
            value == self@,
    {
        self.value
    }

    /// Reading a counter made from `v` gives `v`.
    pub proof fn lemma_new_then_get(v: i32)
        ensures
            Counter::new(v).get() == v,
    {
    }

    /// Reading a default counter gives zero.
    pub proof fn lemma_default_then_get()
        ensures
            Counter::default().get() == 0,
    {
    }
}

} // verus!
