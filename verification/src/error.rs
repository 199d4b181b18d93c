//! The error taxonomy of the access-checked world operations.

use vstd::prelude::*;

use crate::borrows::Borrows;

verus! {

/// Why an access-checked world operation failed.
pub enum Error {
    /// A requested query or get needs an access the subworld's declared set
    /// does not cover; carries both sets for diagnostics. Recoverable: the
    /// `try_*` operations return it, the unchecked ones treat it as a logic
    /// error instead.
    IncompatibleSubworld { subworld: Borrows, query: Borrows },
    /// The entity does not exist in storage, or lacks the requested
    /// component. Always returned as a value, never a panic.
    NoSuchEntity(hecs::Entity),
    /// The world resource is already exclusively borrowed; carries the
    /// label of the declared access set whose borrow failed. The caller
    /// may retry on a later scheduling pass.
    Borrow(String),
}

} // verus!
