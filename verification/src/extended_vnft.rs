//! The role-gated non-fungible token service: the base ownership ledger
//! plus minting of fresh sequential ids with immutable metadata, burning,
//! and admin-managed roles.

use vstd::prelude::*;

use crate::actor::ActorId;
use crate::kv::{tbl_contains, tbl_count_val, tbl_get, tbl_wf, Key};
use crate::roles::{role_members, RoleRegistry};
use crate::u256::{u256_limit, U256};
use crate::vmt::id_key;
use crate::vnft::{owner_view, TokenId};
use crate::vnft_service::Service as VnftService;

verus! {

/// The description a token carries, fixed when the token is minted.
#[derive(Clone, Debug, Default, PartialEq, Eq)]
pub struct TokenMetadata {
    pub name: String,
    pub description: String,
    pub media: String,
    pub reference: String,
}

/// What a successful role-gated non-fungible mutation announces.
#[derive(Clone, Debug, PartialEq, Eq)]
pub enum Event {
    Minted { to: ActorId, token_metadata: TokenMetadata },
    Burned { from: ActorId, token_id: TokenId },
}

/// Why a role-gated non-fungible call was refused. Every refusal leaves
/// the whole state as it was.
#[derive(Clone, Copy, Debug, PartialEq, Eq, Structural)]
pub enum ServiceError {
    NotAllowedToMint,
    NotAllowedToBurn,
    NotAdmin,
    ZeroAddress,
    TokenAlreadyExists,
    TokenDoesNotExist,
    NumericOverflow,
}

/// Token id to its immutable metadata.
pub type TokenMetadataMap = crate::kv::Table<TokenMetadata>;

/// The extended non-fungible service: base ledger, metadata, the next
/// fresh token id, the role registry, and the log of mint and burn events.
pub struct ExtendedService {
    pub vnft: VnftService,
    pub token_id: U256,
    pub token_metadata_by_id: TokenMetadataMap,
    pub roles: RoleRegistry,
    pub events: Vec<Event>,
}

impl ExtendedService {
    pub open spec fn wf(&self) -> bool {
        self.vnft.wf() && tbl_wf(self.token_metadata_by_id.entries@) && self.roles.wf()
    }

    /// A fresh service: empty collection, ids starting at zero, and the
    /// deploying identity seeded into all three role sets.
    pub fn init(deployer: ActorId, name: String, symbol: String) -> (r: ExtendedService)
        ensures
            r.wf(),
            r.roles.is_admin(deployer) && r.roles.is_minter(deployer) && r.roles.is_burner(
                deployer,
            ),
            forall|a: ActorId| a@ != deployer@ ==> !r.roles.is_admin(a) && !r.roles.is_minter(a)
                && !r.roles.is_burner(a),
            r.vnft.owner_by_id.entries@.len() == 0,
            r.vnft.token_approvals.entries@.len() == 0,
            r.token_metadata_by_id.entries@.len() == 0,
            r.token_id@ == 0,
            r.events@.len() == 0,
            r.vnft.name == name && r.vnft.symbol == symbol,
    {
        ExtendedService {
            vnft: VnftService::init(name, symbol),
            token_id: U256::zero(),
            token_metadata_by_id: TokenMetadataMap::new(),
            roles: RoleRegistry::seed(deployer),
            events: Vec::new(),
        }
    }

    /// Mints a fresh token to `to`, if `caller` holds the minter role: the
    /// next sequential id becomes owned by `to` and carries the given
    /// metadata forever. The recipient must be non-zero.
    pub fn mint(&mut self, caller: ActorId, to: ActorId, token_metadata: TokenMetadata) -> (r:
        Result<(), ServiceError>)
        requires
            old(self).wf(),
        ensures
            final(self).wf(),
            final(self).roles == old(self).roles,
            !old(self).roles.is_minter(caller) ==> r == Err::<(), ServiceError>(
                ServiceError::NotAllowedToMint,
            ),
            old(self).roles.is_minter(caller) ==> {
                &&& to@ == 0 ==> r == Err::<(), ServiceError>(ServiceError::ZeroAddress)
                &&& to@ != 0 && tbl_contains(
                    old(self).token_metadata_by_id.entries@,
                    id_key(old(self).token_id),
                ) ==> r == Err::<(), ServiceError>(ServiceError::TokenAlreadyExists)
                &&& to@ != 0 && !tbl_contains(
                    old(self).token_metadata_by_id.entries@,
                    id_key(old(self).token_id),
                ) && old(self).token_id@ + 1 >= u256_limit() ==> r == Err::<(), ServiceError>(
                    ServiceError::NumericOverflow,
                )
                &&& to@ != 0 && !tbl_contains(
                    old(self).token_metadata_by_id.entries@,
                    id_key(old(self).token_id),
                ) && old(self).token_id@ + 1 < u256_limit() ==> {
                    &&& r == Ok::<(), ServiceError>(())
                    &&& tbl_get(final(self).vnft.owner_by_id.entries@, id_key(old(self).token_id))
                        == Some(to)
                    &&& forall|k2: Key| k2 != id_key(old(self).token_id) ==> tbl_get(
                        final(self).vnft.owner_by_id.entries@,
                        k2,
                    ) == tbl_get(old(self).vnft.owner_by_id.entries@, k2)
                    &&& tbl_get(
                        final(self).token_metadata_by_id.entries@,
                        id_key(old(self).token_id),
                    ) == Some(token_metadata)
                    &&& forall|k2: Key| k2 != id_key(old(self).token_id) ==> tbl_get(
                        final(self).token_metadata_by_id.entries@,
                        k2,
                    ) == tbl_get(old(self).token_metadata_by_id.entries@, k2)
                    &&& final(self).token_id@ == old(self).token_id@ + 1
                    &&& final(self).events@.len() == old(self).events@.len() + 1
                    &&& final(self).events@.last() matches Event::Minted { to: t, .. } && t == to
                    &&& final(self).vnft.token_approvals.entries@ == old(self).vnft.token_approvals.entries@
                }
            },
            r is Err ==> final(self).vnft.owner_by_id.entries@ == old(self).vnft.owner_by_id.entries@ && final(self).token_metadata_by_id.entries@ == old(self).token_metadata_by_id.entries@ && final(self).token_id == old(self).token_id && final(self).events@ == old(self).events@,
    {
        if !self.roles.check_minter(caller) {
            return Err(ServiceError::NotAllowedToMint);
        }
        if to.is_zero() {
            return Err(ServiceError::ZeroAddress);
        }
        let id = self.token_id;
        if self.token_metadata_by_id.contains_key((id.lo, id.hi, 0u128)) {
            return Err(ServiceError::TokenAlreadyExists);
        }
        let one = U256::one();
        let next = match self.token_id.checked_add(&one) {
            Some(v) => v,
            None => {
                return Err(ServiceError::NumericOverflow);
            },
        };
        let event_metadata = token_metadata.clone();
        self.vnft.owner_by_id.insert((id.lo, id.hi, 0u128), to);
        self.token_metadata_by_id.insert((id.lo, id.hi, 0u128), token_metadata);
        self.token_id = next;
        self.events.push(Event::Minted { to, token_metadata: event_metadata });
        Ok(())
    }

    /// Burns `token_id`, if `caller` holds the burner role: the token's
    /// owner, approval and metadata records are all dropped, so its id
    /// reads as owned by the zero account afterwards.
    pub fn burn(&mut self, caller: ActorId, from: ActorId, token_id: TokenId) -> (r: Result<
        (),
        ServiceError,
    >)
        requires
            old(self).wf(),
        ensures
            final(self).wf(),
            final(self).roles == old(self).roles,
            final(self).token_id == old(self).token_id,
            !old(self).roles.is_burner(caller) ==> r == Err::<(), ServiceError>(
                ServiceError::NotAllowedToBurn,
            ),
            old(self).roles.is_burner(caller) ==> {
                &&& owner_view(old(self).vnft.owner_by_id.entries@, token_id) == 0 ==> r
                    == Err::<(), ServiceError>(ServiceError::TokenDoesNotExist)
                &&& owner_view(old(self).vnft.owner_by_id.entries@, token_id) != 0 ==> {
                    &&& r == Ok::<(), ServiceError>(())
                    &&& tbl_get(final(self).vnft.owner_by_id.entries@, id_key(token_id)) is None
                    &&& forall|k2: Key| k2 != id_key(token_id) ==> tbl_get(
                        final(self).vnft.owner_by_id.entries@,
                        k2,
                    ) == tbl_get(old(self).vnft.owner_by_id.entries@, k2)
                    &&& tbl_get(final(self).vnft.token_approvals.entries@, id_key(token_id))
                        is None
                    &&& forall|k2: Key| k2 != id_key(token_id) ==> tbl_get(
                        final(self).vnft.token_approvals.entries@,
                        k2,
                    ) == tbl_get(old(self).vnft.token_approvals.entries@, k2)
                    &&& tbl_get(final(self).token_metadata_by_id.entries@, id_key(token_id))
                        is None
                    &&& forall|k2: Key| k2 != id_key(token_id) ==> tbl_get(
                        final(self).token_metadata_by_id.entries@,
                        k2,
                    ) == tbl_get(old(self).token_metadata_by_id.entries@, k2)
                    &&& final(self).events@ == old(self).events@.push(
                        Event::Burned { from, token_id },
                    )
                }
            },
            r is Err ==> final(self).vnft.owner_by_id.entries@ == old(self).vnft.owner_by_id.entries@ && final(self).vnft.token_approvals.entries@ == old(self).vnft.token_approvals.entries@ && final(self).token_metadata_by_id.entries@ == old(self).token_metadata_by_id.entries@ && final(self).events@ == old(self).events@,
    {
        if !self.roles.check_burner(caller) {
            return Err(ServiceError::NotAllowedToBurn);
        }
        let owner = crate::vnft::owner_of(&self.vnft.owner_by_id, token_id);
        if owner.is_zero() {
            return Err(ServiceError::TokenDoesNotExist);
        }
        self.vnft.owner_by_id.remove((token_id.lo, token_id.hi, 0u128));
        self.vnft.token_approvals.remove((token_id.lo, token_id.hi, 0u128));
        self.token_metadata_by_id.remove((token_id.lo, token_id.hi, 0u128));
        self.events.push(Event::Burned { from, token_id });
        Ok(())
    }

    /// The next id a mint would assign.
    pub fn token_id(&self) -> (r: TokenId)
        ensures
            r == self.token_id,
    {
        self.token_id
    }

    /// The metadata recorded for `token_id`, if it is a live token.
    pub fn token_metadata_by_id(&self, token_id: TokenId) -> (r: Option<&TokenMetadata>)
        requires
            self.wf(),
        ensures
            match r {
                Some(m) => tbl_get(self.token_metadata_by_id.entries@, id_key(token_id)) == Some(
                    *m,
                ),
                None => tbl_get(self.token_metadata_by_id.entries@, id_key(token_id)) is None,
            },
    {
        self.token_metadata_by_id.get((token_id.lo, token_id.hi, 0u128))
    }

    /// The ids currently owned by `owner`, in storage order.
    pub fn tokens_for_owner(&self, owner: ActorId) -> (r: Vec<TokenId>)
        ensures
            r@.len() == tbl_count_val(self.vnft.owner_by_id.entries@, owner),
    {
        let n = self.vnft.owner_by_id.entries.len();
        let mut out: Vec<TokenId> = Vec::new();
        let mut i: usize = 0;
        proof {
            assert(self.vnft.owner_by_id.entries@.take(0) =~= Seq::<(Key, ActorId)>::empty());
        }
        while i < n
            invariant
                i <= n,
                n == self.vnft.owner_by_id.entries@.len(),
                out@.len() == tbl_count_val(self.vnft.owner_by_id.entries@.take(i as int), owner),
            decreases n - i,
        {
            let e = &self.vnft.owner_by_id.entries[i];
            proof {
                assert(self.vnft.owner_by_id.entries@.take(i + 1)
                    =~= self.vnft.owner_by_id.entries@.take(i as int).push(
                    self.vnft.owner_by_id.entries@[i as int],
                ));
                crate::kv::lemma_count_push(
                    self.vnft.owner_by_id.entries@.take(i as int),
                    self.vnft.owner_by_id.entries@[i as int],
                    owner,
                );
            }
            if e.1.id == owner.id {
                out.push(U256 { lo: e.0.0, hi: e.0.1 });
            }
            i = i + 1;
        }
        proof {
            assert(self.vnft.owner_by_id.entries@.take(n as int)
                =~= self.vnft.owner_by_id.entries@);
        }
        out
    }

    /// Admits `to` to the admin role; only an admin may do so.
    pub fn grant_admin_role(&mut self, caller: ActorId, to: ActorId) -> (r: Result<(), ServiceError>)
        requires
            old(self).wf(),
        ensures
            final(self).wf(),
            final(self).vnft == old(self).vnft,
            final(self).events == old(self).events,
            !old(self).roles.is_admin(caller) ==> r == Err::<(), ServiceError>(
                ServiceError::NotAdmin,
            ) && final(self).roles == old(self).roles,
            old(self).roles.is_admin(caller) ==> r == Ok::<(), ServiceError>(()) && final(self).roles.is_admin(to) && (forall|a: ActorId| a@ != to@ ==> (final(self).roles.is_admin(a)
                <==> old(self).roles.is_admin(a))) && final(self).roles.minters == old(self).roles.minters && final(self).roles.burners == old(self).roles.burners,
    {
        if !self.roles.check_admin(caller) {
            return Err(ServiceError::NotAdmin);
        }
        self.roles.grant_admin(to);
        Ok(())
    }

    /// Admits `to` to the minter role; only an admin may do so.
    pub fn grant_minter_role(&mut self, caller: ActorId, to: ActorId) -> (r: Result<
        (),
        ServiceError,
    >)
        requires
            old(self).wf(),
        ensures
            final(self).wf(),
            final(self).vnft == old(self).vnft,
            final(self).events == old(self).events,
            !old(self).roles.is_admin(caller) ==> r == Err::<(), ServiceError>(
                ServiceError::NotAdmin,
            ) && final(self).roles == old(self).roles,
            old(self).roles.is_admin(caller) ==> r == Ok::<(), ServiceError>(()) && final(self).roles.is_minter(to) && (forall|a: ActorId| a@ != to@ ==> (final(self).roles.is_minter(a) <==> old(self).roles.is_minter(a))) && final(self).roles.admins
                == old(self).roles.admins && final(self).roles.burners == old(self).roles.burners,
    {
        if !self.roles.check_admin(caller) {
            return Err(ServiceError::NotAdmin);
        }
        self.roles.grant_minter(to);
        Ok(())
    }

    /// Admits `to` to the burner role; only an admin may do so.
    pub fn grant_burner_role(&mut self, caller: ActorId, to: ActorId) -> (r: Result<
        (),
        ServiceError,
    >)
        requires
            old(self).wf(),
        ensures
            final(self).wf(),
            final(self).vnft == old(self).vnft,
            final(self).events == old(self).events,
            !old(self).roles.is_admin(caller) ==> r == Err::<(), ServiceError>(
                ServiceError::NotAdmin,
            ) && final(self).roles == old(self).roles,
            old(self).roles.is_admin(caller) ==> r == Ok::<(), ServiceError>(()) && final(self).roles.is_burner(to) && (forall|a: ActorId| a@ != to@ ==> (final(self).roles.is_burner(a) <==> old(self).roles.is_burner(a))) && final(self).roles.admins
                == old(self).roles.admins && final(self).roles.minters == old(self).roles.minters,
    {
        if !self.roles.check_admin(caller) {
            return Err(ServiceError::NotAdmin);
        }
        self.roles.grant_burner(to);
        Ok(())
    }

    /// Removes `from` from the admin role; only an admin may do so.
    pub fn revoke_admin_role(&mut self, caller: ActorId, from: ActorId) -> (r: Result<
        (),
        ServiceError,
    >)
        requires
            old(self).wf(),
        ensures
            final(self).wf(),
            final(self).vnft == old(self).vnft,
            final(self).events == old(self).events,
            !old(self).roles.is_admin(caller) ==> r == Err::<(), ServiceError>(
                ServiceError::NotAdmin,
            ) && final(self).roles == old(self).roles,
            old(self).roles.is_admin(caller) ==> r == Ok::<(), ServiceError>(()) && !final(self).roles.is_admin(from) && (forall|a: ActorId| a@ != from@ ==> (final(self).roles.is_admin(a) <==> old(self).roles.is_admin(a))) && final(self).roles.minters
                == old(self).roles.minters && final(self).roles.burners == old(self).roles.burners,
    {
        if !self.roles.check_admin(caller) {
            return Err(ServiceError::NotAdmin);
        }
        self.roles.revoke_admin(from);
        Ok(())
    }

    /// Removes `from` from the minter role; only an admin may do so.
    pub fn revoke_minter_role(&mut self, caller: ActorId, from: ActorId) -> (r: Result<
        (),
        ServiceError,
    >)
        requires
            old(self).wf(),
        ensures
            final(self).wf(),
            final(self).vnft == old(self).vnft,
            final(self).events == old(self).events,
            !old(self).roles.is_admin(caller) ==> r == Err::<(), ServiceError>(
                ServiceError::NotAdmin,
            ) && final(self).roles == old(self).roles,
            old(self).roles.is_admin(caller) ==> r == Ok::<(), ServiceError>(()) && !final(self).roles.is_minter(from) && (forall|a: ActorId| a@ != from@ ==> (final(self).roles.is_minter(a) <==> old(self).roles.is_minter(a))) && final(self).roles.admins
                == old(self).roles.admins && final(self).roles.burners == old(self).roles.burners,
    {
        if !self.roles.check_admin(caller) {
            return Err(ServiceError::NotAdmin);
        }
        self.roles.revoke_minter(from);
        Ok(())
    }

    /// Removes `from` from the burner role; only an admin may do so.
    pub fn revoke_burner_role(&mut self, caller: ActorId, from: ActorId) -> (r: Result<
        (),
        ServiceError,
    >)
        requires
            old(self).wf(),
        ensures
            final(self).wf(),
            final(self).vnft == old(self).vnft,
            final(self).events == old(self).events,
            !old(self).roles.is_admin(caller) ==> r == Err::<(), ServiceError>(
                ServiceError::NotAdmin,
            ) && final(self).roles == old(self).roles,
            old(self).roles.is_admin(caller) ==> r == Ok::<(), ServiceError>(()) && !final(self).roles.is_burner(from) && (forall|a: ActorId| a@ != from@ ==> (final(self).roles.is_burner(a) <==> old(self).roles.is_burner(a))) && final(self).roles.admins
                == old(self).roles.admins && final(self).roles.minters == old(self).roles.minters,
    {
        if !self.roles.check_admin(caller) {
            return Err(ServiceError::NotAdmin);
        }
        self.roles.revoke_burner(from);
        Ok(())
    }

    /// The identities holding the minter role, in storage order.
    pub fn minters(&self) -> (r: Vec<ActorId>)
        ensures
            r@.len() == self.roles.minters.entries@.len(),
            forall|i: int| 0 <= i < r@.len() ==> (#[trigger] r@[i]).id
                == self.roles.minters.entries@[i].0.0,
    {
        role_members(&self.roles.minters)
    }

    /// The identities holding the burner role, in storage order.
    pub fn burners(&self) -> (r: Vec<ActorId>)
        ensures
            r@.len() == self.roles.burners.entries@.len(),
            forall|i: int| 0 <= i < r@.len() ==> (#[trigger] r@[i]).id
                == self.roles.burners.entries@[i].0.0,
    {
        role_members(&self.roles.burners)
    }

    /// The identities holding the admin role, in storage order.
    pub fn admins(&self) -> (r: Vec<ActorId>)
        ensures
            r@.len() == self.roles.admins.entries@.len(),
            forall|i: int| 0 <= i < r@.len() ==> (#[trigger] r@[i]).id
                == self.roles.admins.entries@[i].0.0,
    {
        role_members(&self.roles.admins)
    }
}

} // verus!
