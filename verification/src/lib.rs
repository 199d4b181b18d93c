//! Access-declaration and borrow-compatibility layer for a shared entity
//! world.
//!
//! A piece of code declares, up front, the set of component types it will
//! read or write. The [`subset`] module decides whether one such declared
//! set covers another, and [`subworld`] wraps a handle to the shared world
//! so that every query is checked against the declaration before the world
//! is touched. A scheduler can then hand one world to several concurrently
//! running units of work, knowing that none of them performs an access it
//! did not declare.

pub mod access;
pub mod borrows;
pub mod component_borrow;
pub mod error;
pub mod subset;
pub mod subworld;

pub use access::Access;
pub use access::AccessView;
pub use access::TypeKey;
pub use borrows::Borrows;
pub use component_borrow::ComponentBorrow;
pub use component_borrow::Excl;
pub use component_borrow::IntoAccess;
pub use component_borrow::Shared;
pub use error::Error;
pub use subworld::ComponentHandle;
pub use subworld::QueryHandle;
pub use subworld::QueryOneHandle;
pub use subworld::Split;
pub use subworld::SubWorld;
pub use subworld::SubWorldRaw;
pub use subworld::SubWorldRef;
