//! The public surface of a domain: initialize, grant, revoke, query and
//! read the admin. A failed operation leaves the state as it was.
use vstd::prelude::*;

use crate::guard::{require_authenticated, require_role};
use crate::model::AccessState;
use crate::registry::RoleRegistry;
use crate::types::{Principal, Role, VaultError};

verus! {

/// A domain's persisted state, threaded explicitly through every operation.
///
/// Only a principal that holds the admin role may grant or revoke roles.
/// Granting or revoking the admin role through `grant_role` and
/// `revoke_role` changes who passes that check, but never the admin record
/// that `get_admin` reads: that record is written once, by `initialize`.
pub struct Vault {
    registry: RoleRegistry,
}

impl View for Vault {
    type V = AccessState;

    closed spec fn view(&self) -> AccessState {
        self.registry@
    }
}

impl Vault {
    pub closed spec fn wf(&self) -> bool {
        self.registry.wf()
    }

    /// A domain that was never initialized.
    pub fn new() -> (r: Vault)
        ensures
            r.wf(),
            r@ == AccessState::blank(),
    {
        Vault { registry: RoleRegistry::new() }
    }

    /// Rebuilds a domain from its persisted records: the admin record, if
    /// it was written, and the granted (role, principal) pairs.
    pub fn load(admin: Option<Principal>, grants: &Vec<(Role, Principal)>) -> (r: Vault)
        ensures
            r.wf(),
            r@ == (AccessState { admin, grants: grants@.to_set() }),
    {
        Vault { registry: RoleRegistry::from_records(admin, grants) }
    }

    /// The granted (role, principal) pairs, each listed once, for persisting
    /// beside the admin record that `get_admin` reads.
    pub fn grant_records(&self) -> (r: Vec<(Role, Principal)>)
        requires
            self.wf(),
        ensures
            r@.no_duplicates(),
            r@.to_set() == self@.grants,
    {
        self.registry.grant_records()
    }

    /// The role step of the guard on its own: fails with `MissingRole` unless
    /// `caller` holds `role`. A host checks this before it asks its
    /// authentication service about `caller`.
    pub fn require_role(&self, caller: Principal, role: Role) -> (r: Result<(), VaultError>)
        ensures
            r == (if self@.holds(caller, role) {
                Ok(())
            } else {
                Err(VaultError::MissingRole)
            }),
    {
        require_role(&self.registry, caller, role)
    }

    /// Records `admin` as the domain's admin and grants it the admin role.
    /// Fails with `AlreadyInitialized`, changing nothing, on a domain that
    /// already has an admin.
    pub fn initialize(&mut self, admin: Principal) -> (r: Result<(), VaultError>)
        requires
            old(self).wf(),
        ensures
            final(self).wf(),
            r == old(self)@.set_admin_result(),
            final(self)@ == old(self)@.initialized(admin),
    {
        let r = self.registry.set_admin(admin);
        if r.is_err() {
            return r;
        }
        self.registry.grant(admin, Role::Admin);
        Ok(())
    }

    /// Grants `role` to `account` on behalf of `caller`. Fails with
    /// `MissingRole` if `caller` does not hold the admin role, else with
    /// `UnauthenticatedCaller` if `authenticated` (whether the invocation was
    /// authorized by `caller`) is false; a failure changes nothing.
    pub fn grant_role(
        &mut self,
        caller: Principal,
        account: Principal,
        role: Role,
        authenticated: bool,
    ) -> (r: Result<(), VaultError>)
        requires
            old(self).wf(),
        ensures
            final(self).wf(),
            r == old(self)@.guard_result(caller, authenticated),
            final(self)@ == old(self)@.granted(caller, authenticated, account, role),
    {
        let checked = require_role(&self.registry, caller, Role::Admin);
        if checked.is_err() {
            return checked;
        }
        let checked = require_authenticated(authenticated);
        if checked.is_err() {
            return checked;
        }
        self.registry.grant(account, role);
        Ok(())
    }

    /// Revokes `role` from `account` on behalf of `caller`, under the same
    /// guard as `grant_role`. Revoking a role that is not held succeeds and
    /// changes nothing.
    pub fn revoke_role(
        &mut self,
        caller: Principal,
        account: Principal,
        role: Role,
        authenticated: bool,
    ) -> (r: Result<(), VaultError>)
        requires
            old(self).wf(),
        ensures
            final(self).wf(),
            r == old(self)@.guard_result(caller, authenticated),
            final(self)@ == old(self)@.revoked(caller, authenticated, account, role),
    {
        let checked = require_role(&self.registry, caller, Role::Admin);
        if checked.is_err() {
            return checked;
        }
        let checked = require_authenticated(authenticated);
        if checked.is_err() {
            return checked;
        }
        self.registry.revoke(account, role);
        Ok(())
    }

    /// Whether `account` holds `role`; false for any pair never granted.
    /// A pure query: it reads the state and changes nothing.
    pub fn has_role(&self, account: Principal, role: Role) -> (r: bool)
        ensures
            r == self@.holds(account, role),
    {
        self.registry.has_role(account, role)
    }

    /// The admin recorded by `initialize`; fails with `NotInitialized` before.
    pub fn get_admin(&self) -> (r: Result<Principal, VaultError>)
        ensures
            r == self@.admin_result(),
    {
        self.registry.get_admin()
    }
}

} // verus!
