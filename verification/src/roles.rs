//! The role registry: three independent sets of account identities that
//! gate mutation. Admins manage all three sets; minters may create units;
//! burners may destroy them. No role implies another.

use vstd::prelude::*;

use crate::actor::ActorId;
use crate::kv::{tbl_contains, tbl_wf, Key, Table};

verus! {

/// The table key under which a role membership is stored.
pub open spec fn role_key(a: ActorId) -> Key {
    (a.id, 0, 0)
}

/// The three role sets. An identity is in a set exactly when the set's
/// table has an entry for it.
pub struct RoleRegistry {
    pub admins: Table<()>,
    pub minters: Table<()>,
    pub burners: Table<()>,
}

impl RoleRegistry {
    pub open spec fn wf(&self) -> bool {
        tbl_wf(self.admins.entries@) && tbl_wf(self.minters.entries@) && tbl_wf(
            self.burners.entries@,
        )
    }

    pub open spec fn is_admin(&self, a: ActorId) -> bool {
        tbl_contains(self.admins.entries@, role_key(a))
    }

    pub open spec fn is_minter(&self, a: ActorId) -> bool {
        tbl_contains(self.minters.entries@, role_key(a))
    }

    pub open spec fn is_burner(&self, a: ActorId) -> bool {
        tbl_contains(self.burners.entries@, role_key(a))
    }

    /// A fresh registry in which the deploying identity alone holds every
    /// role.
    pub fn seed(deployer: ActorId) -> (r: RoleRegistry)
        ensures
            r.wf(),
            r.is_admin(deployer) && r.is_minter(deployer) && r.is_burner(deployer),
            forall|a: ActorId| a@ != deployer@ ==> !r.is_admin(a) && !r.is_minter(a)
                && !r.is_burner(a),
    {
        let mut admins: Table<()> = Table::new();
        let mut minters: Table<()> = Table::new();
        let mut burners: Table<()> = Table::new();
        admins.insert((deployer.id, 0u128, 0u128), ());
        minters.insert((deployer.id, 0u128, 0u128), ());
        burners.insert((deployer.id, 0u128, 0u128), ());
        RoleRegistry { admins, minters, burners }
    }

    pub fn check_admin(&self, a: ActorId) -> (r: bool)
        ensures
            r <==> self.is_admin(a),
    {
        self.admins.contains_key((a.id, 0u128, 0u128))
    }

    pub fn check_minter(&self, a: ActorId) -> (r: bool)
        ensures
            r <==> self.is_minter(a),
    {
        self.minters.contains_key((a.id, 0u128, 0u128))
    }

    pub fn check_burner(&self, a: ActorId) -> (r: bool)
        ensures
            r <==> self.is_burner(a),
    {
        self.burners.contains_key((a.id, 0u128, 0u128))
    }

    /// Puts `to` into the admin set; every other membership is untouched.
    pub fn grant_admin(&mut self, to: ActorId)
        requires
            old(self).wf(),
        ensures
            final(self).wf(),
            final(self).is_admin(to),
            forall|a: ActorId| a@ != to@ ==> (final(self).is_admin(a) <==> old(self).is_admin(a)),
            final(self).minters == old(self).minters,
            final(self).burners == old(self).burners,
    {
        self.admins.insert((to.id, 0u128, 0u128), ());
    }

    /// Puts `to` into the minter set; every other membership is untouched.
    pub fn grant_minter(&mut self, to: ActorId)
        requires
            old(self).wf(),
        ensures
            final(self).wf(),
            final(self).is_minter(to),
            forall|a: ActorId| a@ != to@ ==> (final(self).is_minter(a) <==> old(self).is_minter(
                a,
            )),
            final(self).admins == old(self).admins,
            final(self).burners == old(self).burners,
    {
        self.minters.insert((to.id, 0u128, 0u128), ());
    }

    /// Puts `to` into the burner set; every other membership is untouched.
    pub fn grant_burner(&mut self, to: ActorId)
        requires
            old(self).wf(),
        ensures
            final(self).wf(),
            final(self).is_burner(to),
            forall|a: ActorId| a@ != to@ ==> (final(self).is_burner(a) <==> old(self).is_burner(
                a,
            )),
            final(self).admins == old(self).admins,
            final(self).minters == old(self).minters,
    {
        self.burners.insert((to.id, 0u128, 0u128), ());
    }

    /// Takes `from` out of the admin set; an admin may revoke itself, which
    /// can leave the registry without any admin.
    pub fn revoke_admin(&mut self, from: ActorId)
        requires
            old(self).wf(),
        ensures
            final(self).wf(),
            !final(self).is_admin(from),
            forall|a: ActorId| a@ != from@ ==> (final(self).is_admin(a) <==> old(self).is_admin(
                a,
            )),
            final(self).minters == old(self).minters,
            final(self).burners == old(self).burners,
    {
        self.admins.remove((from.id, 0u128, 0u128));
    }

    /// Takes `from` out of the minter set.
    pub fn revoke_minter(&mut self, from: ActorId)
        requires
            old(self).wf(),
        ensures
            final(self).wf(),
            !final(self).is_minter(from),
            forall|a: ActorId| a@ != from@ ==> (final(self).is_minter(a) <==> old(self).is_minter(
                a,
            )),
            final(self).admins == old(self).admins,
            final(self).burners == old(self).burners,
    {
        self.minters.remove((from.id, 0u128, 0u128));
    }

    /// Takes `from` out of the burner set.
    pub fn revoke_burner(&mut self, from: ActorId)
        requires
            old(self).wf(),
        ensures
            final(self).wf(),
            !final(self).is_burner(from),
            forall|a: ActorId| a@ != from@ ==> (final(self).is_burner(a) <==> old(self).is_burner(
                a,
            )),
            final(self).admins == old(self).admins,
            final(self).minters == old(self).minters,
    {
        self.burners.remove((from.id, 0u128, 0u128));
    }
}

/// The members of one role set, in storage order.
pub fn role_members(t: &Table<()>) -> (r: Vec<ActorId>)
    ensures
        r@.len() == t.entries@.len(),
        forall|i: int| 0 <= i < r@.len() ==> (#[trigger] r@[i]).id == t.entries@[i].0.0,
{
    let n = t.entries.len();
    let mut r: Vec<ActorId> = Vec::new();
    let mut i: usize = 0;
    while i < n
        invariant
            i <= n,
            n == t.entries@.len(),
            r@.len() == i,
            forall|j: int| 0 <= j < i ==> (#[trigger] r@[j]).id == t.entries@[j].0.0,
        decreases n - i,
    {
        let a = ActorId { id: t.entries[i].0.0 };
        r.push(a);
        i = i + 1;
    }
    r
}

} // verus!
