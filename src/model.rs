//! The mathematical model of the domain: the optional admin record and the
//! role relation as a set of (role, principal) pairs, with the effect of
//! every operation stated as a function on that model.
use vstd::prelude::*;

use crate::types::{Principal, Role, VaultError};

verus! {

/// The abstract state of a domain.
pub struct AccessState {
    /// The principal recorded at bootstrap; `None` before initialization.
    pub admin: Option<Principal>,
    /// The (role, principal) pairs that are currently granted.
    pub grants: Set<(Role, Principal)>,
}

impl AccessState {
    /// A domain that was never initialized: no admin and no grants.
    pub open spec fn blank() -> AccessState {
        AccessState { admin: None, grants: Set::empty() }
    }

    pub open spec fn holds(self, account: Principal, role: Role) -> bool {
        self.grants.contains((role, account))
    }

    /// What reading the admin record yields.
    pub open spec fn admin_result(self) -> Result<Principal, VaultError> {
        match self.admin {
            Some(a) => Ok(a),
            None => Err(VaultError::NotInitialized),
        }
    }

    /// What writing the admin record yields: it may be written only once.
    pub open spec fn set_admin_result(self) -> Result<(), VaultError> {
        if self.admin is Some {
            Err(VaultError::AlreadyInitialized)
        } else {
            Ok(())
        }
    }

    /// The state after writing the admin record; unchanged if it was written.
    pub open spec fn with_admin(self, admin: Principal) -> AccessState {
        if self.admin is Some {
            self
        } else {
            AccessState { admin: Some(admin), ..self }
        }
    }

    pub open spec fn with_grant(self, account: Principal, role: Role) -> AccessState {
        AccessState { grants: self.grants.insert((role, account)), ..self }
    }

    pub open spec fn without_grant(self, account: Principal, role: Role) -> AccessState {
        AccessState { grants: self.grants.remove((role, account)), ..self }
    }

    /// `initialize` writes the admin record and grants the admin the admin
    /// role; on a domain that is already initialized it changes nothing.
    pub open spec fn initialized(self, admin: Principal) -> AccessState {
        if self.admin is Some {
            self
        } else {
            self.with_admin(admin).with_grant(admin, Role::Admin)
        }
    }

    /// The outcome of the guard of a privileged operation: the role check
    /// comes first, authentication second.
    pub open spec fn guard_result(self, caller: Principal, authenticated: bool) -> Result<
        (),
        VaultError,
    > {
        if !self.holds(caller, Role::Admin) {
            Err(VaultError::MissingRole)
        } else if !authenticated {
            Err(VaultError::UnauthenticatedCaller)
        } else {
            Ok(())
        }
    }

    /// The state after `grant_role`: the pair is added only if the guard passes.
    pub open spec fn granted(
        self,
        caller: Principal,
        authenticated: bool,
        account: Principal,
        role: Role,
    ) -> AccessState {
        if self.guard_result(caller, authenticated) is Ok {
            self.with_grant(account, role)
        } else {
            self
        }
    }

    /// The state after `revoke_role`: the pair is removed only if the guard passes.
    pub open spec fn revoked(
        self,
        caller: Principal,
        authenticated: bool,
        account: Principal,
        role: Role,
    ) -> AccessState {
        if self.guard_result(caller, authenticated) is Ok {
            self.without_grant(account, role)
        } else {
            self
        }
    }
}

} // verus!
