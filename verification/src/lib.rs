//! An append-only vector, `PushVec<T>`: elements can be pushed but never
//! removed, so the position of an element is fixed for the container's whole
//! life.
//!
//! Because nothing is ever removed or shifted, a caller may keep a handle
//! ([`ElemRef`]) to an element that was pushed earlier and still read or
//! mutate that element after any number of further pushes.  A handle records
//! only the element's index; each access re-derives the element's location
//! from the backing storage at that moment, so growth of the backing storage
//! never invalidates a handle.

use vstd::prelude::*;

mod laws;

pub use laws::construction_round_trip;
pub use laws::apply_grows;
pub use laws::total_added;
pub use laws::lemma_monotonic_length;
pub use laws::lemma_index_stability;
pub use laws::lemma_apply_grows_is_concat;
pub use laws::lemma_reference_valid_across_growth;
pub use laws::lemma_unwrap_fidelity;

verus! {

/// An outstanding reference: a handle to one element of a [`PushVec`].
///
/// The handle records the element's index, which never changes once the
/// element is pushed (the container supports no removal and no insertion at
/// a position).  It therefore stays usable across any number of later
/// pushes, including ones that make the backing storage reallocate: each
/// read or write through the handle re-derives the element's location from
/// the backing storage at that moment.
///
/// A handle is meaningful only for the container it was obtained from; using
/// it with another container is not detected and simply addresses whatever
/// that container holds at the same index.
#[derive(Clone, Copy, Debug, PartialEq, Eq)]
pub struct ElemRef {
    /// The element's position, fixed when the handle is created.
    pub index: usize,
}

impl ElemRef {
    /// The handle denotes an element of a container whose contents are `s`.
    pub open spec fn valid_for<T>(self, s: Seq<T>) -> bool {
        self.index < s.len()
    }
}

/// A vector-like container that supports only growth: push, bulk extend and
/// in-place mutation, but no removal.
///
/// Its abstract value (the view `self@`) is the sequence of its elements in
/// insertion order.  Every operation below states how it relates to that
/// sequence; the sequence's length never decreases.
#[derive(Clone, Debug, PartialEq, Eq, PartialOrd, Ord, Hash)]
pub struct PushVec<T> {
    vec: Vec<T>,
}

impl<T> View for PushVec<T> {
    type V = Seq<T>;

    closed spec fn view(&self) -> Seq<T> {
        self.vec@
    }
}

impl<T> PushVec<T> {
    /// Creates a new, empty `PushVec<T>`.
    pub fn new() -> (r: Self)
        ensures
            r@ == Seq::<T>::empty(),
    {
        PushVec { vec: Vec::new() }
    }

    /// Creates a `PushVec<T>` from a `Vec<T>`, taking the vector over
    /// verbatim: same elements, same order.
    pub fn from_vec(vec: Vec<T>) -> (r: Self)
        ensures
            r@ == vec@,
    {
        PushVec { vec }
    }

    /// Cheaply converts a `PushVec<T>` into a `Vec<T>`: the backing storage
    /// is handed over as it is, no element is copied.
    pub fn into_vec(self) -> (r: Vec<T>)
        ensures
            r@ == self@,
    {
        self.vec
    }

    /// Returns an immutable reference to the underlying `Vec<T>`.
    pub fn as_vec(&self) -> (r: &Vec<T>)
        ensures
            r@ == self@,
    {
        &self.vec
    }

    /// Returns the number of elements the container currently holds.
    pub fn len(&self) -> (r: usize)
        ensures
            r == self@.len(),
    {
        self.vec.len()
    }

    /// Returns `true` if the container holds no elements.
    pub fn is_empty(&self) -> (r: bool)
        ensures
            r <==> self@.len() == 0,
    {
        self.vec.is_empty()
    }

    /// Pushes an element to the back of the container and returns an
    /// outstanding reference to it.
    ///
    /// The new element's index is the length before the push; every element
    /// that was present keeps its position and its value, so handles issued
    /// earlier stay valid.
    pub fn push(&mut self, item: T) -> (r: ElemRef)
        ensures
            final(self)@ == old(self)@.push(item),
            final(self)@.len() == old(self)@.len() + 1,
            r.index == old(self)@.len(),
            r.valid_for(final(self)@),
    {
        let idx: usize = self.vec.len();
        self.vec.push(item);
        ElemRef { index: idx }
    }

    /// Returns a reference to the element at `index`, or `None` when `index`
    /// is at or beyond the current length.
    pub fn get(&self, index: usize) -> (r: Option<&T>)
        ensures
            r is Some <==> index < self@.len(),
            r matches Some(e) ==> *e == self@[index as int],
    {
        if index < self.vec.len() {
            Some(&self.vec[index])
        } else {
            None
        }
    }

    /// Returns an outstanding reference to the element at `index`, or `None`
    /// when `index` is at or beyond the current length.  The container itself
    /// is left unchanged.
    pub fn get_mut(&mut self, index: usize) -> (r: Option<ElemRef>)
        ensures
            final(self)@ == old(self)@,
            r is Some <==> index < old(self)@.len(),
            r matches Some(h) ==> h.index == index,
    {
        if index < self.vec.len() {
            Some(ElemRef { index })
        } else {
            None
        }
    }

    /// Reads the element an outstanding reference denotes.
    pub fn read_ref(&self, r: ElemRef) -> (e: &T)
        requires
            r.valid_for(self@),
        ensures
            *e == self@[r.index as int],
    {
        &self.vec[r.index]
    }

    /// Overwrites, in place, the element an outstanding reference denotes.
    /// All other elements, and the length, are untouched.
    pub fn write_ref(&mut self, r: ElemRef, value: T)
        requires
            r.valid_for(old(self)@),
        ensures
            final(self)@ == old(self)@.update(r.index as int, value),
            final(self)@.len() == old(self)@.len(),
    {
        let e = &mut self.vec[r.index];
        *e = value;
    }

    /// Appends every element of `other`, in order, to the back of the
    /// container.  Existing elements keep their positions and their values.
    pub fn extend(&mut self, mut other: Vec<T>)
        ensures
            final(self)@ == old(self)@ + other@,
            final(self)@.len() == old(self)@.len() + other@.len(),
    {
        self.vec.append(&mut other);
    }

    /// Returns a reference to the element at `index`.  Unlike [`Self::get`],
    /// the index must be in bounds.
    pub fn index(&self, index: usize) -> (r: &T)
        requires
            index < self@.len(),
        ensures
            *r == self@[index as int],
    {
        &self.vec[index]
    }

    /// Returns a mutable reference to the element at `index`, for in-place
    /// mutation within the borrow's scope.  Unlike [`Self::get_mut`], the
    /// index must be in bounds.
    pub fn index_mut(&mut self, index: usize) -> (r: &mut T)
        requires
            index < old(self)@.len(),
        ensures
            *r == old(self)@[index as int],
            final(self)@ == old(self)@.update(index as int, *final(r)),
    {
        &mut self.vec[index]
    }

    /// Borrows the elements as a plain slice, for bulk read-only use.
    pub fn as_slice(&self) -> (r: &[T])
        ensures
            r@ == self@,
    {
        self.vec.as_slice()
    }

    /// Borrows the elements as a plain mutable slice, for bulk in-place
    /// mutation that does not change the length (a sort, a bulk update).
    pub fn as_mut_slice(&mut self) -> (r: &mut [T])
        ensures
            r@ == old(self)@,
            final(r)@ == final(self)@,
    {
        self.vec.as_mut_slice()
    }

    /// Returns one outstanding reference per element, in index order: the
    /// handle at position `i` denotes the element at index `i`.  The handles
    /// reflect the length at call time; elements pushed later get none here.
    pub fn iter(&self) -> (r: Vec<ElemRef>)
        ensures
            r@.len() == self@.len(),
            forall|i: int| 0 <= i < r@.len() ==> (#[trigger] r@[i]).index == i,
    {
        let mut out: Vec<ElemRef> = Vec::new();
        let mut i: usize = 0;
        while i < self.vec.len()
            invariant
                i <= self.vec.len(),
                out@.len() == i,
                forall|j: int| 0 <= j < out@.len() ==> (#[trigger] out@[j]).index == j,
            decreases self.vec.len() - i,
        {
            out.push(ElemRef { index: i });
            i = i + 1;
        }
        out
    }

    /// Like [`Self::iter`]: one outstanding reference per element, in index
    /// order, each usable for mutation through [`Self::write_ref`].  The
    /// container itself is left unchanged.
    pub fn iter_mut(&mut self) -> (r: Vec<ElemRef>)
        ensures
            final(self)@ == old(self)@,
            r@.len() == old(self)@.len(),
            forall|i: int| 0 <= i < r@.len() ==> (#[trigger] r@[i]).index == i,
    {
        self.iter()
    }

    /// Consumes the container and returns its elements, in order, for
    /// by-value iteration.
    pub fn into_iter(self) -> (r: Vec<T>)
        ensures
            r@ == self@,
    {
        self.vec
    }
}

impl<T> vstd::std_specs::convert::FromSpecImpl<Vec<T>> for PushVec<T> {
    open spec fn obeys_from_spec() -> bool {
        true
    }

    closed spec fn from_spec(v: Vec<T>) -> PushVec<T> {
        PushVec { vec: v }
    }
}

impl<T> vstd::std_specs::convert::FromSpecImpl<PushVec<T>> for Vec<T> {
    open spec fn obeys_from_spec() -> bool {
        true
    }

    closed spec fn from_spec(v: PushVec<T>) -> Vec<T> {
        v.vec
    }
}

impl<T> From<Vec<T>> for PushVec<T> {
    /// Same conversion as [`PushVec::from_vec`].
    fn from(vec: Vec<T>) -> (r: Self)
        ensures
            r@ == vec@,
    {
        PushVec { vec }
    }
}

impl<T> From<PushVec<T>> for Vec<T> {
    /// Same conversion as [`PushVec::into_vec`].
    fn from(v: PushVec<T>) -> (r: Self)
        ensures
            r@ == v@,
    {
        v.vec
    }
}

impl<T> Default for PushVec<T> {
    /// The default container is the empty one.
    fn default() -> (r: Self)
        ensures
            r@ == Seq::<T>::empty(),
    {
        PushVec { vec: Vec::new() }
    }
}

} // verus!
