//! A restricted capability over the shared entity world.
//!
//! A [`SubWorldRaw`] pairs a handle to the world with a type-level borrow
//! specification `T`; every operation on it is checked against `T`'s
//! declared access set before the underlying world is touched.

use vstd::prelude::*;
use vstd::string::StringExecFns;

use core::marker::PhantomData;

use crate::access::Access;
use crate::access::AccessView;
use crate::access::TypeKey;
use crate::borrows::Borrows;
use crate::component_borrow::is_subset;
use crate::component_borrow::ComponentBorrow;
use crate::component_borrow::IntoAccess;
use crate::error::Error;
use crate::subset::covered_by;
use crate::subset::subset_of;

verus! {

/// Declaration of the entity/component storage engine's world for the
/// verifier; values of it are opaque, only its access rules are modeled.
#[verifier::external_type_specification]
#[verifier::external_body]
pub struct ExWorld(hecs::World);

/// Declaration of the storage engine's entity identifier.
#[verifier::external_type_specification]
#[verifier::external_body]
pub struct ExEntity(hecs::Entity);

/// Handle to a checked query: the world reference the query `Q` was
/// approved against, tagged with `Q`. The storage engine takes the
/// component borrows themselves only when the embedding code starts the
/// approved query on the held reference.
pub struct QueryHandle<'w, Q> {
    world: &'w hecs::World,
    marker: PhantomData<Q>,
}

impl<'w, Q> QueryHandle<'w, Q> {
    /// The world the query was approved against; the embedding code runs
    /// the approved query `Q`, and no other, on it.
    pub fn world_for_query(&self) -> &'w hecs::World {
        self.world
    }
}

/// Handle to a checked single-entity query: the world reference and the
/// live entity the query `Q` was approved against.
pub struct QueryOneHandle<'w, Q> {
    world: &'w hecs::World,
    entity: hecs::Entity,
    marker: PhantomData<Q>,
}

impl<'w, Q> QueryOneHandle<'w, Q> {
    /// The entity this handle was approved for.
    pub closed spec fn spec_entity(&self) -> hecs::Entity {
        self.entity
    }

    /// The world the query was approved against.
    pub fn world_for_query(&self) -> &'w hecs::World {
        self.world
    }

    /// The entity the query was approved against; alive when the handle
    /// was produced.
    pub fn entity(&self) -> (r: hecs::Entity)
        ensures
            r == self.spec_entity(),
    {
        self.entity
    }
}

/// Declaration of the runtime-checked shared borrow cell.
#[verifier::external_type_specification]
#[verifier::external_body]
#[verifier::reject_recursive_types(T)]
pub struct ExAtomicRefCell<T: ?Sized>(atomic_refcell::AtomicRefCell<T>);

/// Declaration of the shared borrow handle the cell hands out.
#[verifier::external_type_specification]
#[verifier::external_body]
#[verifier::reject_recursive_types(T)]
pub struct ExAtomicRef<'b, T: ?Sized>(atomic_refcell::AtomicRef<'b, T>);

/// Declaration of the cell's borrow conflict error.
#[verifier::external_type_specification]
#[verifier::external_body]
pub struct ExBorrowError(atomic_refcell::BorrowError);

/// Relies on Deref::deref: the world reached through the handle.
#[verifier::external_body]
fn world_of<'w, A: core::ops::Deref<Target = hecs::World>>(handle: &'w A) -> &'w hecs::World {
    &**handle
}

/// Relies on hecs::World::contains: whether the entity is currently alive.
#[verifier::external_body]
fn world_contains(world: &hecs::World, entity: hecs::Entity) -> bool {
    world.contains(entity)
}

/// Relies on hecs::World::satisfies: whether the entity is alive and its
/// archetype holds the component. Reads metadata only: it takes no
/// dynamic component borrow and cannot panic on one.
#[verifier::external_body]
fn world_satisfies_component<C: hecs::Component>(
    world: &hecs::World,
    entity: hecs::Entity,
) -> bool {
    world.satisfies::<&C>(entity)
}

/// Relies on atomic_refcell::AtomicRefCell::try_borrow: a shared borrow
/// that fails, rather than blocks, while an exclusive borrow is
/// outstanding.
#[verifier::external_body]
fn cell_try_borrow<'b>(
    cell: &'b atomic_refcell::AtomicRefCell<hecs::World>,
) -> Result<atomic_refcell::AtomicRef<'b, hecs::World>, atomic_refcell::BorrowError> {
    cell.try_borrow()
}

/// Handle to a checked single-component read: the world reference and the
/// entity that was alive and held the component `C` when the handle was
/// produced. The embedding code performs the read — shared, never mutable
/// — on the held reference; the storage engine takes the dynamic borrow
/// only then.
pub struct ComponentHandle<'w, C> {
    world: &'w hecs::World,
    entity: hecs::Entity,
    marker: PhantomData<C>,
}

impl<'w, C> ComponentHandle<'w, C> {
    /// The entity this handle was approved for.
    pub closed spec fn spec_entity(&self) -> hecs::Entity {
        self.entity
    }

    /// The world the read was approved against.
    pub fn world_for_component(&self) -> &'w hecs::World {
        self.world
    }

    /// The entity the read was approved for.
    pub fn entity(&self) -> (r: hecs::Entity)
        ensures
            r == self.spec_entity(),
    {
        self.entity
    }
}

/// A subworld referencing the world by a runtime-checked shared borrow;
/// the common form inside a scheduling pass.
pub type SubWorld<'a, T> = SubWorldRaw<atomic_refcell::AtomicRef<'a, hecs::World>, T>;

/// A subworld referencing the world by a plain shared reference.
pub type SubWorldRef<'a, T> = SubWorldRaw<&'a hecs::World, T>;

/// A handle to the world, restricted at the type level to the accesses the
/// borrow specification `T` declares.
pub struct SubWorldRaw<A, T> {
    world: A,
    marker: PhantomData<T>,
}

/// The capability to split a full resource handle into a restricted one
/// carrying a marker for its allowed access set.
pub trait Split: Sized {
    /// The unrestricted handle this view is split from.
    type Superset;

    /// Restricts the handle; the declared access set of the result governs
    /// every later operation through it.
    fn split(world: Self::Superset) -> Self;
}

impl<A, T> SubWorldRaw<A, T> {
    /// The world handle this subworld wraps.
    pub closed spec fn spec_world(&self) -> A {
        self.world
    }

    /// Splits the world into a subworld: the handle is taken as it is,
    /// and nothing is checked here; every world operation is checked
    /// against `T` when it is attempted.
    pub fn new(world: A) -> (r: Self)
        ensures
            r.spec_world() == world,
    {
        SubWorldRaw { world, marker: PhantomData }
    }
}

impl<A, T: ComponentBorrow> SubWorldRaw<A, T> {
    /// Whether the subworld's declared set covers the single access `U`:
    /// same type, and not exclusive where `T` only grants shared access.
    pub fn has<U: IntoAccess>(&self) -> (r: bool)
        ensures
            r == covered_by(U::spec_access(), T::spec_borrows()),
    {
        crate::component_borrow::has::<T, U>()
    }

    /// Whether every access the candidate specification `U` declares is
    /// covered by the subworld's declared set.
    pub fn has_all<U: ComponentBorrow>(&self) -> (r: bool)
        ensures
            r == subset_of(U::spec_borrows(), T::spec_borrows()),
    {
        is_subset::<U, T>()
    }
}

impl<A: core::ops::Deref<Target = hecs::World>, T: ComponentBorrow> SubWorldRaw<A, T> {
    /// Queries the subworld, unchecked at run time: the candidate
    /// specification `S`, which by the caller's convention stands for the
    /// query `Q`, must already be known to be covered. Attempting an undeclared access this way is a
    /// logic error, not a recoverable condition; callers that want an
    /// error instead use `try_query`.
    pub fn query<'w, Q, S: ComponentBorrow>(&'w self) -> QueryHandle<'w, Q>
        requires
            subset_of(S::spec_borrows(), T::spec_borrows()),
    {
        QueryHandle { world: world_of(&self.world), marker: PhantomData }
    }

    /// Queries the subworld; fails with the two access sets when the
    /// candidate specification `S` is not covered by the declared set. By
    /// convention the caller pairs the storage engine's query `Q` with
    /// the specification `S` that stands for it; the library checks `S`.
    pub fn try_query<'w, Q, S: ComponentBorrow>(&'w self) -> (r: Result<
        QueryHandle<'w, Q>,
        Error,
    >)
        ensures
            r is Ok <==> subset_of(S::spec_borrows(), T::spec_borrows()),
            match r {
                Ok(_) => true,
                Err(e) => match e {
                    Error::IncompatibleSubworld { subworld, query } => subworld@
                        == T::spec_borrows() && query@ == S::spec_borrows(),
                    _ => false,
                },
            },
    {
        if !is_subset::<S, T>() {
            Err(
                Error::IncompatibleSubworld { subworld: T::borrows(), query: S::borrows() },
            )
        } else {
            Ok(QueryHandle { world: world_of(&self.world), marker: PhantomData })
        }
    }

    /// Queries a single entity. Fails with the two access sets when `S` is
    /// not covered, and with `NoSuchEntity` naming the entity when it is
    /// not alive in storage.
    pub fn query_one<'w, Q, S: ComponentBorrow>(
        &'w self,
        entity: hecs::Entity,
    ) -> (r: Result<QueryOneHandle<'w, Q>, Error>)
        ensures
            !subset_of(S::spec_borrows(), T::spec_borrows()) ==> match r {
                Err(e) => match e {
                    Error::IncompatibleSubworld { subworld, query } => subworld@
                        == T::spec_borrows() && query@ == S::spec_borrows(),
                    _ => false,
                },
                Ok(_) => false,
            },
            subset_of(S::spec_borrows(), T::spec_borrows()) ==> match r {
                Ok(h) => h.spec_entity() == entity,
                Err(e) => match e {
                    Error::NoSuchEntity(missing) => missing == entity,
                    _ => false,
                },
            },
    {
        if !is_subset::<S, T>() {
            return Err(
                Error::IncompatibleSubworld { subworld: T::borrows(), query: S::borrows() },
            );
        }
        let world = world_of(&self.world);
        if !world_contains(world, entity) {
            return Err(Error::NoSuchEntity(entity));
        }
        Ok(QueryOneHandle { world, entity, marker: PhantomData })
    }

    /// A handle for a single shared (read-only) component read; a mutable
    /// borrow must go through `query_one` instead, since the world is
    /// only ever immutably borrowed here. By convention the caller pairs
    /// the component type `C` with the specification `U` that stands for
    /// it; the library checks `U`. Fails with the declared set and the
    /// single requested access when `U` is not covered, and with
    /// `NoSuchEntity` naming the entity when it is not alive or lacks the
    /// component.
    pub fn get<'w, C: hecs::Component, U: IntoAccess>(&'w self, entity: hecs::Entity) -> (r: Result<
        ComponentHandle<'w, C>,
        Error,
    >)
        ensures
            !covered_by(U::spec_access(), T::spec_borrows()) ==> match r {
                Err(e) => match e {
                    Error::IncompatibleSubworld { subworld, query } => subworld@
                        == T::spec_borrows() && query@ == seq![U::spec_access()],
                    _ => false,
                },
                Ok(_) => false,
            },
            covered_by(U::spec_access(), T::spec_borrows()) ==> match r {
                Ok(h) => h.spec_entity() == entity,
                Err(e) => match e {
                    Error::NoSuchEntity(missing) => missing == entity,
                    _ => false,
                },
            },
    {
        if !self.has::<U>() {
            let mut query = Borrows::new();
            query.push(U::access());
            proof {
                assert(query@ =~= seq![U::spec_access()]);
            }
            return Err(Error::IncompatibleSubworld { subworld: T::borrows(), query });
        }
        let world = world_of(&self.world);
        if !world_satisfies_component::<C>(world, entity) {
            return Err(Error::NoSuchEntity(entity));
        }
        Ok(ComponentHandle { world, entity, marker: PhantomData })
    }
}

impl<A: core::ops::Deref<Target = hecs::World>, T: ComponentBorrow> Split for SubWorldRaw<A, T> {
    type Superset = A;

    fn split(world: A) -> (r: Self)
        ensures
            r.spec_world() == world,
    {
        Self::new(world)
    }
}

impl<A, T: ComponentBorrow> ComponentBorrow for SubWorldRaw<A, T> {
    /// A subworld's accesses are `T`'s accesses plus an implicit shared
    /// access to the world container itself.
    open spec fn spec_borrows() -> Seq<AccessView> {
        T::spec_borrows().push(
            AccessView { type_id: TypeKey::World, exclusive: false, name: "world"@ },
        )
    }

    fn borrows() -> (r: Borrows) {
        let mut access = T::borrows();
        access.push(Access::new(TypeKey::World, false, String::from_str("world")));
        access
    }

    open spec fn spec_label() -> Seq<char> {
        "subworld over "@ + T::spec_label()
    }

    fn label() -> (r: String) {
        let mut l = String::from_str("subworld over ");
        let inner = T::label();
        l.append(inner.as_str());
        l
    }
}

/// A subworld may do everything its declared specification `T` allows:
/// adding the implicit world access never drops or weakens a declared
/// access.
pub proof fn lemma_subworld_covers_declaration<A, T: ComponentBorrow>()
    ensures
        subset_of(T::spec_borrows(), SubWorldRaw::<A, T>::spec_borrows()),
{
    let declared = T::spec_borrows();
    let whole = SubWorldRaw::<A, T>::spec_borrows();
    assert forall|i: int| 0 <= i < declared.len() implies covered_by(declared[i], whole) by {
        assert(whole[i] == declared[i]);
        assert(crate::access::covers(whole[i], declared[i]));
    }
}

impl<'a, T: ComponentBorrow> SubWorldRaw<atomic_refcell::AtomicRef<'a, hecs::World>, T> {
    /// Obtains the subworld from the shared world cell, performing exactly
    /// one runtime-checked shared borrow — never an exclusive one: the
    /// declared access set, not exclusivity over the whole world, is what
    /// prevents conflicts. Fails fast with a `Borrow` error naming `T`
    /// when an exclusive borrow is outstanding; the handle is released
    /// when the subworld is dropped.
    pub fn borrow(cell: &'a atomic_refcell::AtomicRefCell<hecs::World>) -> (r: Result<Self, Error>)
        ensures
            r matches Err(e) ==> (e matches Error::Borrow(label) && label@ == T::spec_label()),
    {
        match cell_try_borrow(cell) {
            Ok(world) => Ok(Self::new(world)),
            Err(_) => Err(Error::Borrow(T::label())),
        }
    }
}

} // verus!
