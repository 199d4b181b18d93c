//! Type-level borrow specifications: a type that declares, by its shape
//! alone, which component accesses a piece of code needs.
//!
//! Leaves are [`Shared`] and [`Excl`] markers over a component identity;
//! composites are tuples of specifications, whose access set is the
//! concatenation — duplicates preserved — of their members' sets.

use vstd::prelude::*;
use vstd::string::StringExecFns;

use crate::access::decimal_of;
use crate::access::push_decimal;
use crate::access::Access;
use crate::access::AccessView;
use crate::access::TypeKey;
use crate::borrows::Borrows;
use crate::subset::covered_by;
use crate::subset::subset_of;

verus! {

/// A specification standing for one access.
pub trait IntoAccess: Sized {
    /// The access this specification stands for, its diagnostic label
    /// included.
    spec fn spec_access() -> AccessView;

    /// Materializes the access, with its diagnostic label.
    fn access() -> (r: Access)
        ensures
            r@ == Self::spec_access(),
    ;
}

/// A specification that declares a set of accesses: a single component
/// read or write, a tuple of specifications, or a subworld.
pub trait ComponentBorrow {
    /// The access set this specification declares.
    spec fn spec_borrows() -> Seq<AccessView>;

    /// Materializes the declared access list; rebuilt fresh on each call,
    /// never deduplicated.
    fn borrows() -> (r: Borrows)
        ensures
            r@ == Self::spec_borrows(),
    ;

    /// The diagnostic label naming this specification.
    spec fn spec_label() -> Seq<char>;

    /// A human-readable label naming this specification, for diagnostics.
    fn label() -> (r: String)
        ensures
            r@ == Self::spec_label(),
    ;
}

/// Shared (read) access to the component type with identity `ID`.
pub struct Shared<const ID: u64>;

/// Exclusive (write) access to the component type with identity `ID`.
pub struct Excl<const ID: u64>;

impl<const ID: u64> IntoAccess for Shared<ID> {
    open spec fn spec_access() -> AccessView {
        AccessView {
            type_id: TypeKey::Component(ID),
            exclusive: false,
            name: "component "@ + decimal_of(ID as nat),
        }
    }

    fn access() -> (r: Access) {
        let mut name = String::from_str("component ");
        push_decimal(&mut name, ID);
        Access::new(TypeKey::Component(ID), false, name)
    }
}

impl<const ID: u64> IntoAccess for Excl<ID> {
    open spec fn spec_access() -> AccessView {
        AccessView {
            type_id: TypeKey::Component(ID),
            exclusive: true,
            name: "component "@ + decimal_of(ID as nat),
        }
    }

    fn access() -> (r: Access) {
        let mut name = String::from_str("component ");
        push_decimal(&mut name, ID);
        Access::new(TypeKey::Component(ID), true, name)
    }
}

impl<const ID: u64> ComponentBorrow for Shared<ID> {
    open spec fn spec_borrows() -> Seq<AccessView> {
        seq![Self::spec_access()]
    }

    fn borrows() -> (r: Borrows) {
        let mut b = Borrows::new();
        b.push(Self::access());
        proof {
            assert(b@ =~= Self::spec_borrows());
        }
        b
    }

    open spec fn spec_label() -> Seq<char> {
        "shared component "@ + decimal_of(ID as nat)
    }

    fn label() -> (r: String) {
        let mut l = String::from_str("shared component ");
        push_decimal(&mut l, ID);
        l
    }
}

impl<const ID: u64> ComponentBorrow for Excl<ID> {
    open spec fn spec_borrows() -> Seq<AccessView> {
        seq![Self::spec_access()]
    }

    fn borrows() -> (r: Borrows) {
        let mut b = Borrows::new();
        b.push(Self::access());
        proof {
            assert(b@ =~= Self::spec_borrows());
        }
        b
    }

    open spec fn spec_label() -> Seq<char> {
        "exclusive component "@ + decimal_of(ID as nat)
    }

    fn label() -> (r: String) {
        let mut l = String::from_str("exclusive component ");
        push_decimal(&mut l, ID);
        l
    }
}

impl<X: ComponentBorrow> ComponentBorrow for (X,) {
    open spec fn spec_borrows() -> Seq<AccessView> {
        X::spec_borrows()
    }

    fn borrows() -> (r: Borrows) {
        X::borrows()
    }

    open spec fn spec_label() -> Seq<char> {
        "("@ + X::spec_label() + ",)"@
    }

    fn label() -> (r: String) {
        let mut l = String::from_str("(");
        let x = X::label();
        l.append(x.as_str());
        l.append(",)");
        l
    }
}

impl<X: ComponentBorrow, Y: ComponentBorrow> ComponentBorrow for (X, Y) {
    open spec fn spec_borrows() -> Seq<AccessView> {
        X::spec_borrows() + Y::spec_borrows()
    }

    fn borrows() -> (r: Borrows) {
        let mut b = X::borrows();
        let mut rest = Y::borrows();
        b.append(&mut rest);
        b
    }

    open spec fn spec_label() -> Seq<char> {
        "("@ + X::spec_label() + ", "@ + Y::spec_label() + ")"@
    }

    fn label() -> (r: String) {
        let mut l = String::from_str("(");
        let x = X::label();
        l.append(x.as_str());
        l.append(", ");
        let y = Y::label();
        l.append(y.as_str());
        l.append(")");
        l
    }
}

impl<X: ComponentBorrow, Y: ComponentBorrow, Z: ComponentBorrow> ComponentBorrow for (X, Y, Z) {
    open spec fn spec_borrows() -> Seq<AccessView> {
        X::spec_borrows() + Y::spec_borrows() + Z::spec_borrows()
    }

    fn borrows() -> (r: Borrows) {
        let mut b = X::borrows();
        let mut middle = Y::borrows();
        let mut rest = Z::borrows();
        b.append(&mut middle);
        b.append(&mut rest);
        b
    }

    open spec fn spec_label() -> Seq<char> {
        "("@ + X::spec_label() + ", "@ + Y::spec_label() + ", "@ + Z::spec_label() + ")"@
    }

    fn label() -> (r: String) {
        let mut l = String::from_str("(");
        let x = X::label();
        l.append(x.as_str());
        l.append(", ");
        let y = Y::label();
        l.append(y.as_str());
        l.append(", ");
        let z = Z::label();
        l.append(z.as_str());
        l.append(")");
        l
    }
}

/// Every component-access specification is a subset of itself: each
/// access it declares covers itself.
pub proof fn lemma_specification_reflexive<T: ComponentBorrow>()
    ensures
        subset_of(T::spec_borrows(), T::spec_borrows()),
{
    crate::subset::lemma_subset_reflexive(T::spec_borrows());
}

/// Whether the specification `T` declares an access covering `U`'s access:
/// same type, and not exclusive when `T` only grants shared access.
pub fn has<T: ComponentBorrow, U: IntoAccess>() -> (r: bool)
    ensures
        r == covered_by(U::spec_access(), T::spec_borrows()),
{
    let declared = T::borrows();
    let req = U::access();
    declared.has_access(&req)
}

/// Whether every access the candidate specification `S` declares is
/// covered, with sufficient exclusivity, by `T`'s declared set.
pub fn is_subset<S: ComponentBorrow, T: ComponentBorrow>() -> (r: bool)
    ensures
        r == subset_of(S::spec_borrows(), T::spec_borrows()),
{
    let candidate = S::borrows();
    let reference = T::borrows();
    candidate.is_subset_of(&reference)
}

} // verus!

