//! The compatibility algorithm: is every access of a candidate set covered,
//! with sufficient exclusivity, by a reference set?

use vstd::prelude::*;

use crate::access::covers;
use crate::access::AccessView;

verus! {

/// The required access `req` is covered by the granted set `grants`: some
/// entry names the same type and grants at least as much exclusivity.
pub open spec fn covered_by(req: AccessView, grants: Seq<AccessView>) -> bool {
    exists|j: int| 0 <= j < grants.len() && covers(grants[j], req)
}

/// Every access of `candidate` is covered by `reference`. This is a
/// per-item capability-coverage check, not a set inclusion: one reference
/// entry may cover any number of candidate entries, and the candidate may
/// ask for less exclusivity than the reference grants, but never for more,
/// nor for a type the reference does not name.
pub open spec fn subset_of(candidate: Seq<AccessView>, reference: Seq<AccessView>) -> bool {
    forall|i: int| 0 <= i < candidate.len() ==> covered_by(candidate[i], reference)
}

/// Every access set covers itself: each entry covers itself, since an
/// access never asks for more exclusivity than it grants.
pub proof fn lemma_subset_reflexive(s: Seq<AccessView>)
    ensures
        subset_of(s, s),
{
    assert forall|i: int| 0 <= i < s.len() implies covered_by(s[i], s) by {
        assert(covers(s[i], s[i]));
    }
}

/// A candidate whose every access is shared is covered by any reference
/// that names each of its types, regardless of the reference's exclusivity.
pub proof fn lemma_shared_covered_regardless_of_exclusivity(
    candidate: Seq<AccessView>,
    reference: Seq<AccessView>,
)
    requires
        forall|i: int| 0 <= i < candidate.len() ==> !candidate[i].exclusive,
        forall|i: int| 0 <= i < candidate.len() ==> exists|j: int|
            0 <= j < reference.len() && #[trigger] reference[j].type_id == #[trigger] candidate[i].type_id,
    ensures
        subset_of(candidate, reference),
{
    assert forall|i: int| 0 <= i < candidate.len() implies covered_by(candidate[i], reference) by {
        let j = choose|j: int|
            0 <= j < reference.len() && reference[j].type_id == candidate[i].type_id;
        assert(covers(reference[j], candidate[i]));
    }
}

/// An exclusive requirement is never covered by a reference that grants
/// only shared access to that type.
pub proof fn lemma_exclusive_needs_exclusive(
    candidate: Seq<AccessView>,
    reference: Seq<AccessView>,
    i: int,
)
    requires
        0 <= i < candidate.len(),
        candidate[i].exclusive,
        forall|j: int|
            0 <= j < reference.len() && reference[j].type_id == candidate[i].type_id
                ==> !reference[j].exclusive,
    ensures
        !subset_of(candidate, reference),
{
    assert(!covered_by(candidate[i], reference));
}

/// Duplicate accesses never cause a false negative: repeating an entry of a
/// covered candidate leaves it covered, because one reference entry may
/// cover both copies.
pub proof fn lemma_duplicate_preserves_subset(
    candidate: Seq<AccessView>,
    reference: Seq<AccessView>,
    i: int,
)
    requires
        subset_of(candidate, reference),
        0 <= i < candidate.len(),
    ensures
        subset_of(candidate.push(candidate[i]), reference),
{
    let extended = candidate.push(candidate[i]);
    assert forall|k: int| 0 <= k < extended.len() implies covered_by(extended[k], reference) by {
        if k < candidate.len() {
            assert(extended[k] == candidate[k]);
        } else {
            assert(extended[k] == candidate[i]);
        }
    }
}

/// The union of access sets preserves every member access: each side of a
/// composite is still covered by the whole, so no deduplication can
/// silently drop a conflicting write.
pub proof fn lemma_union_preserves_members(a: Seq<AccessView>, b: Seq<AccessView>)
    ensures
        subset_of(a, a + b),
        subset_of(b, a + b),
{
    assert forall|i: int| 0 <= i < a.len() implies covered_by(a[i], a + b) by {
        assert(covers((a + b)[i], a[i]));
    }
    assert forall|i: int| 0 <= i < b.len() implies covered_by(b[i], a + b) by {
        assert(covers((a + b)[a.len() + i], b[i]));
    }
}

/// The union of access sets is associative: composing composite borrow
/// specifications in either grouping declares the same accesses.
pub proof fn lemma_union_associative(
    a: Seq<AccessView>,
    b: Seq<AccessView>,
    c: Seq<AccessView>,
)
    ensures
        (a + b) + c == a + (b + c),
{
    assert((a + b) + c =~= a + (b + c));
}

} // verus!
