//! The store, its model and its operations.

use vstd::prelude::*;

verus! {

/// A store that always holds exactly one `u32`.
pub struct Survey {
    /// The value held.
    value: u32,
}

impl View for Survey {
    type V = u32;

    /// A store is modelled by the value it holds, and by nothing else.
    closed spec fn view(&self) -> u32 {
        self.value
    }
}

impl Survey {
    /// The store that holds `init_value`.
    pub closed spec fn spec_new(init_value: u32) -> Self {
        Survey { value: init_value }
    }

    /// The store that holds zero.
    pub open spec fn spec_default() -> Self {
        Self::spec_new(0)
    }

    /// The store as it is once `value` has been written to it: what it held
    /// before is gone.
    pub open spec fn spec_set(self, value: u32) -> Self {
        Self::spec_new(value)
    }

    /// The value that a read returns.
    pub open spec fn spec_get(&self) -> u32 {
        self@
    }

    /// Creates a store that holds `init_value`.
    #[verifier::when_used_as_spec(spec_new)]
    pub fn new(init_value: u32) -> (s: Self)
        ensures
            s == Self::spec_new(init_value),
            s@ == init_value,
    {
        Self { value: init_value }
    }

    /// Creates a store that holds zero: the same store as `new(0)`.
    #[verifier::when_used_as_spec(spec_default)]
    pub fn default() -> (s: Self)
        ensures
            s == Self::new(0),
            s@ == 0,
    {
        Self::new(0)
    }

    /// Replaces the value held with `value`.
    pub fn set(&mut self, value: u32)
        ensures
            *final(self) == old(self).spec_set(value),
            final(self)@ == value,
    {
        self.value = value;
    }

    /// Returns the value held, and leaves the store as it is.
    #[verifier::when_used_as_spec(spec_get)]
    pub fn get(&self) -> (value: u32)
        ensures
            value == self@,
    {
        self.value
    }

    /// Two stores that hold the same value are the same store.
    pub proof fn lemma_view_injective(a: Self, b: Self)
        requires
            a@ == b@,
        ensures
            a == b,
    {
    }

    /// A read of a store created with `init_value` returns `init_value`.
    pub proof fn lemma_new_then_get(init_value: u32)
        ensures
            Self::new(init_value).get() == init_value,
    {
    }
}

} // verus!
