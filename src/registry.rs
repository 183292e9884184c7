//! The role registry: the admin record and the role relation.
use vstd::prelude::*;

use crate::model::AccessState;
use crate::types::{Principal, Role, VaultError};

verus! {

/// Owns all role state of a domain. The role relation is kept as a list of
/// distinct (role, principal) pairs.
pub struct RoleRegistry {
    admin: Option<Principal>,
    grants: Vec<(Role, Principal)>,
}

impl View for RoleRegistry {
    type V = AccessState;

    closed spec fn view(&self) -> AccessState {
        AccessState { admin: self.admin, grants: self.grants@.to_set() }
    }
}

/// Removing the only occurrence of a pair from a list without duplicates
/// removes exactly that pair from its set of elements.
proof fn lemma_remove_unique(s: Seq<(Role, Principal)>, i: int)
    requires
        s.no_duplicates(),
        0 <= i < s.len(),
    ensures
        s.remove(i).no_duplicates(),
        s.remove(i).to_set() == s.to_set().remove(s[i]),
{
    let t = s.remove(i);
    assert forall|a: int, b: int| 0 <= a < t.len() && 0 <= b < t.len() && a != b implies t[a]
        != t[b] by {
        let sa = if a < i { a } else { a + 1 };
        let sb = if b < i { b } else { b + 1 };
        assert(t[a] == s[sa]);
        assert(t[b] == s[sb]);
    }
    assert forall|y: (Role, Principal)| #[trigger] t.contains(y) <==> s.contains(y) && y != s[i] by {
        if t.contains(y) {
            let k = choose|k: int| 0 <= k < t.len() && t[k] == y;
            let sk = if k < i { k } else { k + 1 };
            assert(s[sk] == y);
        }
        if s.contains(y) && y != s[i] {
            let k = choose|k: int| 0 <= k < s.len() && s[k] == y;
            if k < i {
                assert(t[k] == y);
            } else {
                assert(k != i);
                assert(t[k - 1] == y);
            }
        }
    }
    assert(t.to_set() =~= s.to_set().remove(s[i]));
}

impl RoleRegistry {
    /// The list holds no pair twice.
    pub closed spec fn wf(&self) -> bool {
        self.grants@.no_duplicates()
    }

    /// A registry of a domain that was never initialized.
    pub fn new() -> (r: RoleRegistry)
        ensures
            r.wf(),
            r@ == AccessState::blank(),
    {
        let r = RoleRegistry { admin: None, grants: Vec::new() };
        assert(r@.grants =~= Set::empty());
        r
    }

    /// Rebuilds a registry from its persisted records: the admin record and
    /// the granted pairs. A pair listed twice is kept once.
    pub fn from_records(admin: Option<Principal>, grants: &Vec<(Role, Principal)>) -> (r:
        RoleRegistry)
        ensures
            r.wf(),
            r@ == (AccessState { admin, grants: grants@.to_set() }),
    {
        let mut r = RoleRegistry { admin, grants: Vec::new() };
        assert(grants@.subrange(0, 0).to_set() =~= Set::empty());
        assert(r.grants@.to_set() =~= Set::empty());
        let mut i: usize = 0;
        while i < grants.len()
            invariant
                i <= grants@.len(),
                r.wf(),
                r@ == (AccessState { admin, grants: grants@.subrange(0, i as int).to_set() }),
            decreases grants@.len() - i,
        {
            let (role, account) = grants[i];
            r.grant(account, role);
            proof {
                assert(grants@.subrange(0, i + 1) =~= grants@.subrange(0, i as int).push(
                    grants@[i as int],
                ));
                grants@.subrange(0, i as int).lemma_push_to_set_commute(grants@[i as int]);
            }
            i += 1;
        }
        assert(grants@.subrange(0, grants@.len() as int) =~= grants@);
        r
    }

    /// The granted pairs, each listed once, for persisting.
    pub fn grant_records(&self) -> (r: Vec<(Role, Principal)>)
        requires
            self.wf(),
        ensures
            r@.no_duplicates(),
            r@.to_set() == self@.grants,
    {
        let mut r: Vec<(Role, Principal)> = Vec::new();
        let mut i: usize = 0;
        while i < self.grants.len()
            invariant
                i <= self.grants@.len(),
                r@ == self.grants@.subrange(0, i as int),
            decreases self.grants@.len() - i,
        {
            r.push(self.grants[i]);
            assert(r@ =~= self.grants@.subrange(0, i + 1));
            i += 1;
        }
        assert(r@ =~= self.grants@);
        r
    }

    /// Writes the admin record; fails if it was already written.
    pub fn set_admin(&mut self, admin: Principal) -> (r: Result<(), VaultError>)
        requires
            old(self).wf(),
        ensures
            final(self).wf(),
            r == old(self)@.set_admin_result(),
            final(self)@ == old(self)@.with_admin(admin),
    {
        if self.admin.is_some() {
            return Err(VaultError::AlreadyInitialized);
        }
        self.admin = Some(admin);
        Ok(())
    }

    /// Reads the admin record; fails if the domain was never initialized.
    pub fn get_admin(&self) -> (r: Result<Principal, VaultError>)
        ensures
            r == self@.admin_result(),
    {
        match self.admin {
            Some(a) => Ok(a),
            None => Err(VaultError::NotInitialized),
        }
    }

    /// The position of the pair in the list, if it is granted.
    fn find(&self, account: Principal, role: Role) -> (r: Option<usize>)
        ensures
            match r {
                Some(i) => i < self.grants@.len() && self.grants@[i as int] == (role, account),
                None => !self.grants@.contains((role, account)),
            },
    {
        let mut i: usize = 0;
        while i < self.grants.len()
            invariant
                0 <= i <= self.grants@.len(),
                forall|j: int| 0 <= j < i ==> self.grants@[j] != (role, account),
            decreases self.grants@.len() - i,
        {
            let (r, p) = self.grants[i];
            if r == role && p == account {
                return Some(i);
            }
            i += 1;
        }
        None
    }

    /// Whether `account` holds `role`. Never fails.
    pub fn has_role(&self, account: Principal, role: Role) -> (r: bool)
        ensures
            r == self@.holds(account, role),
    {
        self.find(account, role).is_some()
    }

    /// Grants `role` to `account`; granting twice is the same as once.
    pub fn grant(&mut self, account: Principal, role: Role)
        requires
            old(self).wf(),
        ensures
            final(self).wf(),
            final(self)@ == old(self)@.with_grant(account, role),
    {
        let found = self.find(account, role);
        if found.is_none() {
            self.grants.push((role, account));
            assert(self.grants@.to_set() =~= old(self).grants@.to_set().insert((role, account))) by {
                assert(self.grants@.last() == (role, account));
                assert forall|y: (Role, Principal)| #[trigger]
                    old(self).grants@.contains(y) implies self.grants@.contains(y) by {
                    let k = choose|k: int| 0 <= k < old(self).grants@.len() && old(self).grants@[k] == y;
                    assert(self.grants@[k] == y);
                }
            }
        } else {
            let i = found.unwrap();
            assert(self.grants@.contains((role, account))) by {
                assert(self.grants@[i as int] == (role, account));
            }
            assert(self@.grants =~= old(self)@.grants.insert((role, account)));
        }
    }

    /// Revokes `role` from `account`; revoking a role that is not held
    /// changes nothing.
    pub fn revoke(&mut self, account: Principal, role: Role)
        requires
            old(self).wf(),
        ensures
            final(self).wf(),
            final(self)@ == old(self)@.without_grant(account, role),
    {
        match self.find(account, role) {
            Some(i) => {
                proof {
                    lemma_remove_unique(self.grants@, i as int);
                }
                self.grants.remove(i);
            },
            None => {
                assert(self@.grants =~= old(self)@.grants.remove((role, account)));
            },
        }
    }
}

} // verus!
