//! An ordered collection of [`Access`] values: the materialized access set
//! of a borrow specification.
//!
//! The list is small — typically a handful of entries — and scanned
//! linearly, so it is held in a vector that stores short lists inline. It
//! may contain duplicates: the same type required by two positions of a
//! composite specification is kept twice, never deduplicated.

use vstd::prelude::*;

use crate::access::Access;
use crate::access::AccessView;

verus! {

/// An ordered list of [`Access`] values; the access set some borrow
/// specification declares or some query requires.
///
/// The backing vector is opaque to the verifier; `stored_accesses` names
/// what one holds, and the methods below state how each call changes it.
/// Its view is the sequence of the accesses' views, in order. Duplicates
/// are legal and preserved.
#[verifier::external_body]
pub struct Borrows {
    items: smallvec::SmallVec<[Access; 4]>,
}

/// The accesses held by the backing vector, in order, by their views.
pub uninterp spec fn stored_accesses(v: Borrows) -> Seq<AccessView>;

impl View for Borrows {
    type V = Seq<AccessView>;

    open spec fn view(&self) -> Seq<AccessView> {
        stored_accesses(*self)
    }
}

impl Borrows {
    /// An empty access set.
    ///
    /// Relies on smallvec::SmallVec::new: the fresh vector is empty.
    #[verifier::external_body]
    pub fn new() -> (r: Borrows)
        ensures
            stored_accesses(r) == Seq::<AccessView>::empty(),
    {
        Borrows { items: smallvec::SmallVec::new() }
    }

    /// The number of accesses in the set.
    ///
    /// Relies on smallvec::SmallVec::len, through its slice view.
    #[verifier::external_body]
    pub fn len(&self) -> (r: usize)
        ensures
            r == stored_accesses(*self).len(),
    {
        self.items.len()
    }

    /// The access at position `i`.
    ///
    /// Relies on smallvec's index, through its slice view.
    #[verifier::external_body]
    pub fn get(&self, i: usize) -> (r: &Access)
        requires
            i < stored_accesses(*self).len(),
        ensures
            r@ == stored_accesses(*self)[i as int],
    {
        &self.items[i]
    }

    /// Appends one access at the end; nothing is deduplicated.
    ///
    /// Relies on smallvec::SmallVec::push: the value is appended at the end.
    #[verifier::external_body]
    pub fn push(&mut self, a: Access)
        ensures
            stored_accesses(*final(self)) == stored_accesses(*old(self)).push(a@),
    {
        self.items.push(a)
    }

    /// Moves every access of `other` to the end of this set, in order,
    /// leaving `other` empty.
    ///
    /// Relies on smallvec::SmallVec::append: the other vector's items are
    /// moved to the end of this one, in order, and it is left empty.
    #[verifier::external_body]
    pub fn append(&mut self, other: &mut Borrows)
        ensures
            stored_accesses(*final(self)) == stored_accesses(*old(self)) + stored_accesses(*old(other)),
            stored_accesses(*final(other)) == Seq::<AccessView>::empty(),
    {
        self.items.append(&mut other.items)
    }

    /// Whether some entry of this set covers the required access `req`.
    pub fn has_access(&self, req: &Access) -> (r: bool)
        ensures
            r == crate::subset::covered_by(req@, self@),
    {
        let n = self.len();
        let mut j: usize = 0;
        while j < n
            invariant
                n == self@.len(),
                0 <= j <= n,
                forall|k: int| 0 <= k < j ==> !crate::access::covers(self@[k], req@),
            decreases n - j,
        {
            if self.get(j).grants(req) {
                return true;
            }
            j = j + 1;
        }
        false
    }

    /// Whether every access of this set is covered by `reference`.
    pub fn is_subset_of(&self, reference: &Borrows) -> (r: bool)
        ensures
            r == crate::subset::subset_of(self@, reference@),
    {
        let n = self.len();
        let mut i: usize = 0;
        while i < n
            invariant
                n == self@.len(),
                0 <= i <= n,
                forall|k: int| 0 <= k < i ==> crate::subset::covered_by(self@[k], reference@),
            decreases n - i,
        {
            if !reference.has_access(self.get(i)) {
                return false;
            }
            i = i + 1;
        }
        true
    }
}

} // verus!
