//! Role-based access control: who may grant, pause, set fees and upgrade.

use crate::error::Error;
use crate::state::{follows, without_grant, State, StellarStream};
use crate::types::{Address, Event, Role, RoleGrant, Upgrade, WasmHash};
use vstd::prelude::*;

verus! {

/// Whether the grant at `index` is the oldest one of `role`.
pub open spec fn is_oldest_grant_of(grants: Seq<RoleGrant>, role: Role, index: int) -> bool {
    &&& 0 <= index < grants.len()
    &&& grants[index].role == role
    &&& forall|j: int| 0 <= j < index ==> (#[trigger] grants[j]).role != role
}

impl State {
    /// Granting: an Admin adds a grant; one that stands already is left as it is.
    pub open spec fn grant_role(self, admin: Address, account: Address, role: Role) -> Result<
        (State, Event),
        Error,
    > {
        if !self.has_role(admin, Role::Admin) {
            Err(Error::MissingRole)
        } else if self.has_role(account, role) {
            Ok((self, Event::RoleGranted { admin, account, role }))
        } else {
            Ok(
                (
                    State { grants: self.grants.push(RoleGrant { account, role }), ..self },
                    Event::RoleGranted { admin, account, role },
                ),
            )
        }
    }

    /// Revoking: an Admin takes a grant out, its own Admin grant included.
    pub open spec fn revoke_role(self, admin: Address, account: Address, role: Role) -> Result<
        (State, Event),
        Error,
    > {
        if !self.has_role(admin, Role::Admin) {
            Err(Error::MissingRole)
        } else {
            Ok(
                (
                    State {
                        grants: without_grant(self.grants, RoleGrant { account, role }),
                        ..self
                    },
                    Event::RoleRevoked { admin, account, role },
                ),
            )
        }
    }

    /// The identity that has held Admin for the longest time without a
    /// break, if anyone holds it.
    pub open spec fn admin(self) -> Option<Address> {
        if exists|i: int| is_oldest_grant_of(self.grants, Role::Admin, i) {
            Some(self.grants[choose|i: int| is_oldest_grant_of(self.grants, Role::Admin, i)].account)
        } else {
            None
        }
    }

    /// An upgrade is approved for an Admin and for nobody else.
    pub open spec fn upgrade(self, admin: Address, new_wasm_hash: WasmHash) -> Result<
        Upgrade,
        Error,
    > {
        if self.has_role(admin, Role::Admin) {
            Ok(Upgrade { new_wasm_hash, event: Event::Upgraded { admin, new_wasm_hash } })
        } else {
            Err(Error::MissingRole)
        }
    }
}

impl StellarStream {
    /// Whether `account` holds `role`.
    pub(crate) fn has_role(&self, account: Address, role: Role) -> (held: bool)
        ensures
            held == self@.has_role(account, role),
    {
        self.grant_position(RoleGrant { account, role }).is_some()
    }

    /// Whether `account` holds `role`. Anyone may ask.
    pub fn check_role(&self, account: Address, role: Role) -> (held: bool)
        ensures
            held == self@.has_role(account, role),
    {
        self.has_role(account, role)
    }

    /// Grants `role` to `account` on the word of `admin`, who must hold Admin.
    pub fn grant_role(&mut self, admin: Address, account: Address, role: Role) -> (done: Result<
        Event,
        Error,
    >)
        requires
            old(self)@.valid(),
        ensures
            follows(old(self)@, final(self)@, done, old(self)@.grant_role(admin, account, role)),
            final(self)@.valid(),
    {
        if !self.has_role(admin, Role::Admin) {
            return Err(Error::MissingRole);
        }
        if !self.has_role(account, role) {
            self.push_grant(RoleGrant { account, role });
        }
        Ok(Event::RoleGranted { admin, account, role })
    }

    /// Takes `role` from `account` on the word of `admin`, who must hold
    /// Admin. Nothing keeps an Admin from revoking its own Admin role.
    pub fn revoke_role(&mut self, admin: Address, account: Address, role: Role) -> (done: Result<
        Event,
        Error,
    >)
        requires
            old(self)@.valid(),
        ensures
            follows(old(self)@, final(self)@, done, old(self)@.revoke_role(admin, account, role)),
            final(self)@.valid(),
    {
        if !self.has_role(admin, Role::Admin) {
            return Err(Error::MissingRole);
        }
        let grant = RoleGrant { account, role };
        match self.grant_position(grant) {
            Some(i) => {
                proof {
                    lemma_index_of_unique(self@.grants, grant, i as int);
                    lemma_remove_keeps_distinct(self@.grants, i as int);
                }
                self.remove_grant(i);
            },
            None => {},
        }
        Ok(Event::RoleRevoked { admin, account, role })
    }

    /// The identity that stands for the administration where a single one is
    /// asked for: the holder of the oldest standing Admin grant.
    pub fn get_admin(&self) -> (admin: Option<Address>)
        ensures
            admin == self@.admin(),
    {
        let n = self.grant_count();
        let mut i: usize = 0;
        while i < n
            invariant
                i <= n,
                n == self@.grants.len(),
                forall|j: int| 0 <= j < i ==> (#[trigger] self@.grants[j]).role != Role::Admin,
            decreases n - i,
        {
            let grant = self.grant_at(i);
            if grant.role == Role::Admin {
                proof {
                    lemma_oldest_grant_is_unique(self@.grants, Role::Admin, i as int);
                }
                return Some(grant.account);
            }
            i += 1;
        }
        None
    }

    /// Decides on an upgrade to the code named by `new_wasm_hash`: it is
    /// approved, and the hash handed back for installing, if `admin` holds Admin.
    pub fn upgrade(&self, admin: Address, new_wasm_hash: WasmHash) -> (approved: Result<
        Upgrade,
        Error,
    >)
        ensures
            approved == self@.upgrade(admin, new_wasm_hash),
    {
        if self.has_role(admin, Role::Admin) {
            Ok(Upgrade { new_wasm_hash, event: Event::Upgraded { admin, new_wasm_hash } })
        } else {
            Err(Error::MissingRole)
        }
    }
}

/// Among grants of which none stands twice, a grant is found where it stands.
pub proof fn lemma_index_of_unique(grants: Seq<RoleGrant>, grant: RoleGrant, index: int)
    requires
        grants.no_duplicates(),
        0 <= index < grants.len(),
        grants[index] == grant,
    ensures
        grants.contains(grant),
        grants.index_of(grant) == index,
        without_grant(grants, grant) == grants.remove(index),
{
    let found = grants.index_of(grant);
    assert(0 <= found < grants.len() && grants[found] == grant);
}

/// Taking one grant out leaves no grant standing twice.
pub proof fn lemma_remove_keeps_distinct(grants: Seq<RoleGrant>, index: int)
    requires
        grants.no_duplicates(),
        0 <= index < grants.len(),
    ensures
        grants.remove(index).no_duplicates(),
{
    let rest = grants.remove(index);
    assert forall|i: int, j: int| 0 <= i < rest.len() && 0 <= j < rest.len() && i != j implies rest[i]
        != rest[j] by {
        let oi = if i < index { i } else { i + 1 };
        let oj = if j < index { j } else { j + 1 };
        assert(rest[i] == grants[oi]);
        assert(rest[j] == grants[oj]);
    }
}

/// There is one oldest grant of a role at most.
pub proof fn lemma_oldest_grant_is_unique(grants: Seq<RoleGrant>, role: Role, index: int)
    requires
        is_oldest_grant_of(grants, role, index),
    ensures
        forall|i: int| is_oldest_grant_of(grants, role, i) ==> i == index,
{
    assert forall|i: int| is_oldest_grant_of(grants, role, i) implies i == index by {
        if i < index {
            assert(grants[i].role != role);
        }
        if index < i {
            assert(grants[index].role != role);
        }
    }
}

} // verus!
