//! Laws that relate the operations of a domain, stated over its model.
use vstd::prelude::*;

use crate::model::AccessState;
use crate::types::{Principal, Role, VaultError};

verus! {

/// Before initialization no principal holds any role, and reading the admin
/// fails with `NotInitialized`.
pub proof fn lemma_blank_domain(p: Principal, role: Role)
    ensures
        !AccessState::blank().holds(p, role),
        AccessState::blank().admin_result() == Err::<Principal, VaultError>(
            VaultError::NotInitialized,
        ),
{
}

/// Initializing with `a` succeeds; afterwards the admin is `a` and `a` holds
/// the admin role.
pub proof fn lemma_initialize_records_admin(s: AccessState, a: Principal)
    requires
        s.admin is None,
    ensures
        s.set_admin_result() == Ok::<(), VaultError>(()),
        s.initialized(a).admin_result() == Ok::<Principal, VaultError>(a),
        s.initialized(a).holds(a, Role::Admin),
{
}

/// A second initialization fails with `AlreadyInitialized` and leaves the
/// state, and so the admin recorded first, unchanged.
pub proof fn lemma_initialize_once(s: AccessState, a: Principal, b: Principal)
    requires
        s.admin is None,
    ensures
        s.initialized(a).set_admin_result() == Err::<(), VaultError>(
            VaultError::AlreadyInitialized,
        ),
        s.initialized(a).initialized(b) == s.initialized(a),
        s.initialized(a).initialized(b).admin_result() == Ok::<Principal, VaultError>(a),
{
}

/// After initializing with `a`, an authenticated grant of the operator role
/// by `a` to `b` succeeds; `b` then holds the operator role and not the
/// treasurer role.
pub proof fn lemma_grant_after_initialize(a: Principal, b: Principal)
    ensures
        AccessState::blank().initialized(a).guard_result(a, true) == Ok::<(), VaultError>(()),
        AccessState::blank().initialized(a).granted(a, true, b, Role::Operator).holds(
            b,
            Role::Operator,
        ),
        !AccessState::blank().initialized(a).granted(a, true, b, Role::Operator).holds(
            b,
            Role::Treasurer,
        ),
{
}

/// An authenticated revoke of the operator role by a holder of the admin
/// role succeeds and removes it; revoking it again succeeds and changes
/// nothing.
pub proof fn lemma_revoke_twice(s: AccessState, caller: Principal, account: Principal)
    requires
        s.holds(caller, Role::Admin),
    ensures
        s.guard_result(caller, true) == Ok::<(), VaultError>(()),
        !s.revoked(caller, true, account, Role::Operator).holds(account, Role::Operator),
        s.revoked(caller, true, account, Role::Operator).guard_result(caller, true) == Ok::<
            (),
            VaultError,
        >(()),
        s.revoked(caller, true, account, Role::Operator).revoked(
            caller,
            true,
            account,
            Role::Operator,
        ) == s.revoked(caller, true, account, Role::Operator),
{
    let s1 = s.revoked(caller, true, account, Role::Operator);
    assert(s1.revoked(caller, true, account, Role::Operator).grants =~= s1.grants);
}

/// A grant by a caller that is not the admin principal, and that holds no
/// admin role, fails with `MissingRole` and changes nothing, whether or not
/// the invocation was authenticated.
pub proof fn lemma_grant_needs_admin(
    s: AccessState,
    caller: Principal,
    account: Principal,
    authenticated: bool,
)
    requires
        s.admin != Some(caller),
        !s.holds(caller, Role::Admin),
    ensures
        s.guard_result(caller, authenticated) == Err::<(), VaultError>(VaultError::MissingRole),
        s.granted(caller, authenticated, account, Role::Operator) == s,
{
}

/// Two distinct roles granted to one principal are held together, and
/// revoking one leaves the other in place.
pub proof fn lemma_roles_independent(
    s: AccessState,
    caller: Principal,
    account: Principal,
    first: Role,
    second: Role,
)
    requires
        s.holds(caller, Role::Admin),
        first != second,
    ensures
        s.granted(caller, true, account, first).granted(caller, true, account, second).holds(
            account,
            first,
        ),
        s.granted(caller, true, account, first).granted(caller, true, account, second).holds(
            account,
            second,
        ),
        !s.granted(caller, true, account, first).granted(caller, true, account, second).revoked(
            caller,
            true,
            account,
            first,
        ).holds(account, first),
        s.granted(caller, true, account, first).granted(caller, true, account, second).revoked(
            caller,
            true,
            account,
            first,
        ).holds(account, second),
{
}

} // verus!
