//! The access model on concrete values: conflicts, coverage, and the
//! subset check over built borrow lists.

use hecs_schedule::access::Access;
use hecs_schedule::access::TypeKey;
use hecs_schedule::borrows::Borrows;
use hecs_schedule::component_borrow::has;
use hecs_schedule::component_borrow::is_subset;
use hecs_schedule::component_borrow::ComponentBorrow;
use hecs_schedule::component_borrow::Excl;
use hecs_schedule::component_borrow::Shared;

#[test]
fn conflicts_same_type_needs_an_exclusive_side() {
    let shared_a = Access::new(TypeKey::Component(1), false, String::from("a"));
    let shared_b = Access::new(TypeKey::Component(1), false, String::from("a"));
    let excl_a = Access::new(TypeKey::Component(1), true, String::from("a"));
    let shared_other = Access::new(TypeKey::Component(2), false, String::from("b"));
    assert!(!shared_a.conflicts_with(&shared_b));
    assert!(shared_a.conflicts_with(&excl_a));
    assert!(excl_a.conflicts_with(&shared_a));
    assert!(excl_a.conflicts_with(&excl_a));
    assert!(!excl_a.conflicts_with(&shared_other));
}

#[test]
fn grants_requires_same_type_and_enough_exclusivity() {
    let shared = Access::new(TypeKey::Component(1), false, String::from("a"));
    let excl = Access::new(TypeKey::Component(1), true, String::from("a"));
    let other = Access::new(TypeKey::Component(2), true, String::from("b"));
    assert!(shared.grants(&shared));
    assert!(excl.grants(&shared));
    assert!(excl.grants(&excl));
    assert!(!shared.grants(&excl));
    assert!(!other.grants(&shared));
}

#[test]
fn borrows_keeps_order_and_duplicates() {
    let mut b = Borrows::new();
    assert_eq!(b.len(), 0);
    b.push(Access::new(TypeKey::Component(7), false, String::from("c")));
    b.push(Access::new(TypeKey::Component(7), false, String::from("c")));
    b.push(Access::new(TypeKey::Component(9), true, String::from("d")));
    assert_eq!(b.len(), 3);
    assert_eq!(b.get(0).type_id, TypeKey::Component(7));
    assert!(!b.get(0).exclusive);
    assert_eq!(b.get(1).type_id, TypeKey::Component(7));
    assert_eq!(b.get(2).type_id, TypeKey::Component(9));
    assert!(b.get(2).exclusive);
}

#[test]
fn borrows_append_moves_everything_in_order() {
    let mut left = Borrows::new();
    left.push(Access::new(TypeKey::Component(1), false, String::from("a")));
    let mut right = Borrows::new();
    right.push(Access::new(TypeKey::Component(2), true, String::from("b")));
    right.push(Access::new(TypeKey::World, false, String::from("w")));
    left.append(&mut right);
    assert_eq!(left.len(), 3);
    assert_eq!(right.len(), 0);
    assert_eq!(left.get(0).type_id, TypeKey::Component(1));
    assert_eq!(left.get(1).type_id, TypeKey::Component(2));
    assert_eq!(left.get(2).type_id, TypeKey::World);
}

#[test]
fn has_access_scans_for_a_covering_entry() {
    let mut b = Borrows::new();
    b.push(Access::new(TypeKey::Component(1), false, String::from("a")));
    b.push(Access::new(TypeKey::Component(2), true, String::from("b")));
    let shared_one = Access::new(TypeKey::Component(1), false, String::from("a"));
    let excl_one = Access::new(TypeKey::Component(1), true, String::from("a"));
    let shared_two = Access::new(TypeKey::Component(2), false, String::from("b"));
    let three = Access::new(TypeKey::Component(3), false, String::from("c"));
    assert!(b.has_access(&shared_one));
    assert!(!b.has_access(&excl_one));
    assert!(b.has_access(&shared_two));
    assert!(!b.has_access(&three));
}

#[test]
fn subset_is_reflexive_on_a_mixed_specification() {
    assert!(is_subset::<(Shared<1>, Excl<2>), (Shared<1>, Excl<2>)>());
    assert!(is_subset::<Shared<1>, Shared<1>>());
    assert!(is_subset::<Excl<5>, Excl<5>>());
}

#[test]
fn all_shared_candidate_is_covered_whatever_the_exclusivity() {
    assert!(is_subset::<(Shared<1>, Shared<2>), (Excl<1>, Excl<2>)>());
    assert!(is_subset::<(Shared<1>, Shared<2>), (Shared<1>, Excl<2>)>());
    assert!(is_subset::<(Shared<2>,), (Shared<1>, Excl<2>, Shared<3>)>());
}

#[test]
fn exclusive_request_is_not_covered_by_shared_grant() {
    assert!(!is_subset::<(Excl<1>,), (Shared<1>,)>());
    assert!(!is_subset::<(Shared<2>, Excl<1>), (Shared<1>, Shared<2>)>());
    assert!(is_subset::<(Excl<1>,), (Excl<1>,)>());
}

#[test]
fn duplicate_candidate_entries_never_cause_a_false_negative() {
    assert!(is_subset::<(Shared<1>, Shared<1>), (Shared<1>,)>());
    assert!(is_subset::<(Excl<1>, Excl<1>), (Excl<1>,)>());
    assert!(is_subset::<(Shared<1>, Shared<1>, Shared<1>), (Excl<1>,)>());
}

#[test]
fn undeclared_type_is_never_covered() {
    assert!(!is_subset::<(Shared<3>,), (Shared<1>, Excl<2>)>());
    assert!(!has::<(Shared<1>, Excl<2>), Shared<3>>());
}

#[test]
fn has_checks_one_access_against_the_declaration() {
    assert!(has::<(Shared<1>, Excl<2>), Shared<1>>());
    assert!(has::<(Shared<1>, Excl<2>), Excl<2>>());
    assert!(has::<(Shared<1>, Excl<2>), Shared<2>>());
    assert!(!has::<(Shared<1>, Excl<2>), Excl<1>>());
}

#[test]
fn tuple_borrows_concatenate_without_deduplication() {
    let b = <(Shared<1>, Excl<2>, Shared<1>) as ComponentBorrow>::borrows();
    assert_eq!(b.len(), 3);
    assert_eq!(b.get(0).type_id, TypeKey::Component(1));
    assert!(!b.get(0).exclusive);
    assert_eq!(b.get(1).type_id, TypeKey::Component(2));
    assert!(b.get(1).exclusive);
    assert_eq!(b.get(2).type_id, TypeKey::Component(1));
    assert!(!b.get(2).exclusive);
    assert_eq!(b.get(0).name, "component 1");
    assert_eq!(b.get(1).name, "component 2");
}
