//! Identities, role tags and the error kinds of the domain.
use vstd::prelude::*;

verus! {

/// An externally verifiable identity. Two principals are the same exactly
/// when their identifiers are equal.
#[derive(Clone, Copy, Debug, PartialEq, Eq, Hash, Structural)]
pub struct Principal {
    pub id: u64,
}

impl Principal {
    pub fn new(id: u64) -> (r: Principal)
        ensures
            r.id == id,
    {
        Principal { id }
    }
}

/// An opaque capability tag. The registry only records membership; it does
/// not interpret a role's meaning.
#[derive(Clone, Copy, Debug, PartialEq, Eq, Hash, Structural)]
pub enum Role {
    /// The role that guards granting and revoking.
    Admin,
    Operator,
    Treasurer,
    /// A role outside the fixed vocabulary, named by an interned identifier.
    Custom(u64),
}

/// The named failures of the domain. Each aborts the whole operation and
/// leaves the state as it was.
#[derive(Clone, Copy, Debug, PartialEq, Eq, Hash, Structural)]
pub enum VaultError {
    /// `initialize` was called on a domain that already has an admin.
    AlreadyInitialized,
    /// The admin was read before the domain was initialized.
    NotInitialized,
    /// The caller does not hold the role that the operation requires.
    MissingRole,
    /// The invocation was not authorized by the claimed caller.
    UnauthenticatedCaller,
}

} // verus!
