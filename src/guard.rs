//! The authorization guard: role membership and authentication are two
//! separate checks, made in that order by every privileged operation.
use vstd::prelude::*;

use crate::registry::RoleRegistry;
use crate::types::{Principal, Role, VaultError};

verus! {

/// Fails with `MissingRole` unless `caller` holds `role` in the registry.
pub fn require_role(registry: &RoleRegistry, caller: Principal, role: Role) -> (r: Result<
    (),
    VaultError,
>)
    ensures
        r == (if registry@.holds(caller, role) {
            Ok(())
        } else {
            Err(VaultError::MissingRole)
        }),
{
    if registry.has_role(caller, role) {
        Ok(())
    } else {
        Err(VaultError::MissingRole)
    }
}

/// Fails with `UnauthenticatedCaller` unless the host has verified that the
/// current invocation was authorized by the claimed caller. `authenticated`
/// is that verdict, as the host's authentication service gave it.
pub fn require_authenticated(authenticated: bool) -> (r: Result<(), VaultError>)
    ensures
        r == (if authenticated {
            Ok(())
        } else {
            Err(VaultError::UnauthenticatedCaller)
        }),
{
    if authenticated {
        Ok(())
    } else {
        Err(VaultError::UnauthenticatedCaller)
    }
}

} // verus!
