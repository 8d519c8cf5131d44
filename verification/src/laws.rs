//! The container's governing laws, stated over its abstract model.
//!
//! A `PushVec` only ever grows: each mutating operation either appends a
//! batch of elements at the end (`push` appends one, `extend` appends many)
//! or overwrites one element in place (`write_ref`).  An arbitrary run of
//! appends is modelled here by [`apply_grows`], which folds a sequence of
//! batches onto the container's contents; the lemmas then say, for every
//! such run, that the length only grows, that every existing index keeps its
//! element, and that a handle taken before the run still addresses the same
//! logical element after it.

use vstd::prelude::*;

use crate::PushVec;

verus! {

/// The contents of a container that held `s` after an arbitrary run of
/// appends, one batch per entry of `batches` (a push is a batch of one, a
/// bulk extend a batch of many).
pub open spec fn apply_grows<T>(s: Seq<T>, batches: Seq<Seq<T>>) -> Seq<T>
    decreases batches.len(),
{
    if batches.len() == 0 {
        s
    } else {
        apply_grows(s + batches.first(), batches.drop_first())
    }
}

/// The total number of elements an arbitrary run of appends adds.
pub open spec fn total_added<T>(batches: Seq<Seq<T>>) -> nat
    decreases batches.len(),
{
    if batches.len() == 0 {
        0
    } else {
        batches.first().len() + total_added(batches.drop_first())
    }
}

/// Monotonic length: after any run of pushes and extends, the length is the
/// length before plus the number of elements added — in particular it never
/// decreases.
pub proof fn lemma_monotonic_length<T>(s: Seq<T>, batches: Seq<Seq<T>>)
    ensures
        apply_grows(s, batches).len() == s.len() + total_added(batches),
        apply_grows(s, batches).len() >= s.len(),
    decreases batches.len(),
{
    if batches.len() > 0 {
        lemma_monotonic_length(s + batches.first(), batches.drop_first());
    }
}

/// Index stability: an element's index never changes.  Whatever run of
/// pushes and extends follows, the element at each already-occupied index is
/// still the one that was there before the run.
pub proof fn lemma_index_stability<T>(s: Seq<T>, batches: Seq<Seq<T>>)
    ensures
        forall|i: int| 0 <= i < s.len() ==> apply_grows(s, batches)[i] == s[i],
    decreases batches.len(),
{
    if batches.len() > 0 {
        lemma_index_stability(s + batches.first(), batches.drop_first());
        assert forall|i: int| 0 <= i < s.len() implies apply_grows(s, batches)[i] == s[i] by {
            assert((s + batches.first())[i] == s[i]);
        }
    }
}

/// Reference validity across growth: a handle taken at index `i` is still in
/// bounds after any run of appends, and writing value `v` through it is
/// observable at index `i` afterwards while every other element and the
/// length stay untouched — the handle and the canonical element at index `i`
/// denote the same storage.
pub proof fn lemma_reference_valid_across_growth<T>(
    s: Seq<T>,
    batches: Seq<Seq<T>>,
    i: int,
    v: T,
)
    requires
        0 <= i < s.len(),
    ensures
        i < apply_grows(s, batches).len(),
        apply_grows(s, batches).update(i, v)[i] == v,
        apply_grows(s, batches).update(i, v).len() == apply_grows(s, batches).len(),
        forall|j: int|
            0 <= j < apply_grows(s, batches).len() && j != i ==> apply_grows(s, batches).update(
                i,
                v,
            )[j] == apply_grows(s, batches)[j],
{
    lemma_monotonic_length(s, batches);
}

/// A run of appends amounts to concatenating all its batches at the end.
pub proof fn lemma_apply_grows_is_concat<T>(s: Seq<T>, batches: Seq<Seq<T>>)
    ensures
        apply_grows(s, batches) == s + batches.flatten(),
    decreases batches.len(),
{
    if batches.len() == 0 {
        assert(s + batches.flatten() =~= s);
    } else {
        lemma_apply_grows_is_concat(s + batches.first(), batches.drop_first());
        assert((s + batches.first()) + batches.drop_first().flatten() =~= s + (batches.first()
            + batches.drop_first().flatten()));
    }
}

/// Unwrap fidelity: starting from an empty container, any run of pushes and
/// extends leaves exactly the appended values, in order — so unwrapping then
/// yields them verbatim.
pub proof fn lemma_unwrap_fidelity<T>(batches: Seq<Seq<T>>)
    ensures
        apply_grows(Seq::<T>::empty(), batches) == batches.flatten(),
{
    lemma_apply_grows_is_concat(Seq::<T>::empty(), batches);
    assert(Seq::<T>::empty() + batches.flatten() =~= batches.flatten());
}

/// Construction round-trip: a container built from a plain vector unwraps
/// to that same vector, element for element.
pub fn construction_round_trip<T>(a: Vec<T>) -> (r: Vec<T>)
    ensures
        r@ == a@,
{
    PushVec::from_vec(a).into_vec()
}

} // verus!
