//! What the operations of a store add up to: the two constructions compared,
//! and reads after one write, after the same write twice, and after any run of
//! writes.

use crate::store::Survey;
use vstd::prelude::*;

verus! {

/// The store reached from `s` by writing the values of `values` to it, first
/// to last.
pub open spec fn after_writes(s: Survey, values: Seq<u32>) -> Survey
    decreases values.len(),
{
    if values.len() == 0 {
        s
    } else {
        after_writes(s, values.drop_last()).spec_set(values.last())
    }
}

/// The default store is the store created with zero, and a read of either
/// returns zero.
pub proof fn lemma_default_is_new_zero()
    ensures
        Survey::default() == Survey::new(0),
        Survey::default().get() == 0,
        Survey::default().get() == Survey::new(0).get(),
{
    Survey::lemma_new_then_get(0);
}

/// A read after a write returns the value written, whatever the store was
/// created with.
pub proof fn lemma_write_then_read(v1: u32, v2: u32)
    ensures
        Survey::new(v1).spec_set(v2).get() == v2,
{
    Survey::lemma_new_then_get(v2);
}

/// Writing `v` twice leaves the store as writing it once does, and a read
/// returns `v` either way.
pub proof fn lemma_set_idempotent(s: Survey, v: u32)
    ensures
        s.spec_set(v).spec_set(v) == s.spec_set(v),
        s.spec_set(v).spec_set(v).get() == v,
        s.spec_set(v).get() == v,
{
    Survey::lemma_new_then_get(v);
}

/// Writing to a store the value that it already holds changes nothing.
pub proof fn lemma_set_held_value(s: Survey)
    ensures
        s.spec_set(s.get()) == s,
{
    Survey::lemma_new_then_get(s.get());
    Survey::lemma_view_injective(s.spec_set(s.get()), s);
}

/// After a run of writes that is not empty, a read returns the value written
/// last; no earlier write and no earlier state shows through.
pub proof fn lemma_last_write_wins(s: Survey, values: Seq<u32>)
    requires
        values.len() > 0,
    ensures
        after_writes(s, values).get() == values.last(),
{
    Survey::lemma_new_then_get(values.last());
}

} // verus!
