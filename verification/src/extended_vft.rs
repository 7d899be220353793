//! The role-gated fungible token service: the base fungible ledger plus
//! minting and burning, each guarded by the role registry, and admin-only
//! grant and revoke of roles. Built by composition: the extended service
//! holds the base service and forwards its unmodified operations.

use vstd::prelude::*;

use crate::actor::ActorId;
use crate::kv::tbl_contains;
use crate::roles::{role_members, RoleRegistry};
use crate::u256::{u256_limit, U256};
use crate::vft;
use crate::vft::{
    actor_key, allowance_spec, balance_spec, balances_model, mint_fits, spec_batch_mint, Error,
};
use crate::vft_service;
use crate::vft_service::Service as VftService;

verus! {

/// What a successful role-gated mutation announces.
#[derive(Clone, Debug, PartialEq, Eq)]
pub enum Event {
    Minted { to: ActorId, value: U256 },
    Burned { from: ActorId, value: U256 },
    BatchMinted { to: Vec<ActorId>, value: Vec<U256> },
}

/// Why a role-gated call was refused: the caller lacked the required role,
/// or the underlying ledger refused the operation. Either way the whole
/// state is left as it was.
#[derive(Clone, Copy, Debug, PartialEq, Eq, Structural)]
pub enum ServiceError {
    NotAllowedToMint,
    NotAllowedToBurn,
    NotAdmin,
    Ledger(Error),
}

/// The extended fungible service: base ledger, role registry, and the log
/// of mint and burn events.
pub struct ExtendedService {
    pub vft: VftService,
    pub roles: RoleRegistry,
    pub events: Vec<Event>,
}

impl ExtendedService {
    pub open spec fn wf(&self) -> bool {
        self.vft.wf() && self.roles.wf()
    }

    /// A fresh service: empty ledger, and the deploying identity seeded
    /// into all three role sets.
    pub fn seed(deployer: ActorId, name: String, symbol: String, decimals: u8) -> (r:
        ExtendedService)
        ensures
            r.wf(),
            r.roles.is_admin(deployer) && r.roles.is_minter(deployer) && r.roles.is_burner(
                deployer,
            ),
            forall|a: ActorId| a@ != deployer@ ==> !r.roles.is_admin(a) && !r.roles.is_minter(a)
                && !r.roles.is_burner(a),
            r.vft.balances.entries@.len() == 0,
            r.vft.allowances.entries@.len() == 0,
            r.vft.total_supply@ == 0,
            r.vft.events@.len() == 0,
            r.events@.len() == 0,
            r.vft.meta.name == name && r.vft.meta.symbol == symbol && r.vft.meta.decimals
                == decimals,
    {
        ExtendedService {
            vft: VftService::init(name, symbol, decimals),
            roles: RoleRegistry::seed(deployer),
            events: Vec::new(),
        }
    }

    /// Mints `value` to `to`, if `caller` holds the minter role; records a
    /// `Minted` event exactly when the ledger changed.
    pub fn mint(&mut self, caller: ActorId, to: ActorId, value: U256) -> (r: Result<
        bool,
        ServiceError,
    >)
        requires
            old(self).wf(),
        ensures
            final(self).wf(),
            final(self).roles == old(self).roles,
            final(self).vft.allowances.entries@ == old(self).vft.allowances.entries@,
            final(self).vft.meta == old(self).vft.meta,
            final(self).vft.events@ == old(self).vft.events@,
            !old(self).roles.is_minter(caller) ==> r == Err::<bool, ServiceError>(
                ServiceError::NotAllowedToMint,
            ),
            old(self).roles.is_minter(caller) ==> {
                &&& value@ == 0 ==> r == Ok::<bool, ServiceError>(false)
                &&& value@ > 0 && !mint_fits(
                    old(self).vft.balances.entries@,
                    old(self).vft.total_supply@,
                    to,
                    value@,
                ) ==> r == Err::<bool, ServiceError>(ServiceError::Ledger(Error::NumericOverflow))
                &&& value@ > 0 && mint_fits(
                    old(self).vft.balances.entries@,
                    old(self).vft.total_supply@,
                    to,
                    value@,
                ) ==> r == Ok::<bool, ServiceError>(true)
            },
            r == Ok::<bool, ServiceError>(true) ==> {
                &&& final(self).vft.total_supply@ == old(self).vft.total_supply@ + value@
                &&& balance_spec(final(self).vft.balances.entries@, to) == balance_spec(
                    old(self).vft.balances.entries@,
                    to,
                ) + value@
                &&& forall|a: ActorId| a@ != to@ ==> balance_spec(
                    final(self).vft.balances.entries@,
                    a,
                ) == balance_spec(old(self).vft.balances.entries@, a)
                &&& final(self).events@ == old(self).events@.push(Event::Minted { to, value })
            },
            r != Ok::<bool, ServiceError>(true) ==> final(self).vft.balances.entries@ == old(self).vft.balances.entries@ && final(self).vft.total_supply == old(self).vft.total_supply
                && final(self).events@ == old(self).events@,
    {
        if !self.roles.check_minter(caller) {
            return Err(ServiceError::NotAllowedToMint);
        }
        let mutated = match vft::mint(&mut self.vft.balances, &mut self.vft.total_supply, to, value)
        {
            Ok(m) => m,
            Err(e) => {
                return Err(ServiceError::Ledger(e));
            },
        };
        if mutated {
            self.events.push(Event::Minted { to, value });
        }
        Ok(mutated)
    }

    /// Burns `value` from `from`, if `caller` holds the burner role;
    /// records a `Burned` event exactly when the ledger changed.
    pub fn burn(&mut self, caller: ActorId, from: ActorId, value: U256) -> (r: Result<
        bool,
        ServiceError,
    >)
        requires
            old(self).wf(),
        ensures
            final(self).wf(),
            final(self).roles == old(self).roles,
            final(self).vft.allowances.entries@ == old(self).vft.allowances.entries@,
            final(self).vft.meta == old(self).vft.meta,
            final(self).vft.events@ == old(self).vft.events@,
            !old(self).roles.is_burner(caller) ==> r == Err::<bool, ServiceError>(
                ServiceError::NotAllowedToBurn,
            ),
            old(self).roles.is_burner(caller) ==> {
                &&& value@ == 0 ==> r == Ok::<bool, ServiceError>(false)
                &&& value@ > old(self).vft.total_supply@ ==> r == Err::<bool, ServiceError>(
                    ServiceError::Ledger(Error::Underflow),
                )
                &&& 0 < value@ <= old(self).vft.total_supply@ && value@ > balance_spec(
                    old(self).vft.balances.entries@,
                    from,
                ) ==> r == Err::<bool, ServiceError>(
                    ServiceError::Ledger(Error::InsufficientBalance),
                )
                &&& 0 < value@ <= old(self).vft.total_supply@ && value@ <= balance_spec(
                    old(self).vft.balances.entries@,
                    from,
                ) ==> r == Ok::<bool, ServiceError>(true)
            },
            r == Ok::<bool, ServiceError>(true) ==> {
                &&& final(self).vft.total_supply@ == old(self).vft.total_supply@ - value@
                &&& balance_spec(final(self).vft.balances.entries@, from) == balance_spec(
                    old(self).vft.balances.entries@,
                    from,
                ) - value@
                &&& (tbl_contains(final(self).vft.balances.entries@, actor_key(from)) <==>
                    balance_spec(old(self).vft.balances.entries@, from) > value@)
                &&& forall|a: ActorId| a@ != from@ ==> balance_spec(
                    final(self).vft.balances.entries@,
                    a,
                ) == balance_spec(old(self).vft.balances.entries@, a)
                &&& final(self).events@ == old(self).events@.push(Event::Burned { from, value })
            },
            r != Ok::<bool, ServiceError>(true) ==> final(self).vft.balances.entries@ == old(self).vft.balances.entries@ && final(self).vft.total_supply == old(self).vft.total_supply
                && final(self).events@ == old(self).events@,
    {
        if !self.roles.check_burner(caller) {
            return Err(ServiceError::NotAllowedToBurn);
        }
        let mutated = match vft::burn(&mut self.vft.balances, &mut self.vft.total_supply, from, value)
        {
            Ok(m) => m,
            Err(e) => {
                return Err(ServiceError::Ledger(e));
            },
        };
        if mutated {
            self.events.push(Event::Burned { from, value });
        }
        Ok(mutated)
    }

    /// Mints to a whole list of recipients, atomically, if `caller` holds
    /// the minter role; records one `BatchMinted` event for the batch.
    pub fn batch_mint(&mut self, caller: ActorId, to: Vec<ActorId>, value: Vec<U256>) -> (r: Result<
        bool,
        ServiceError,
    >)
        requires
            old(self).wf(),
        ensures
            final(self).wf(),
            final(self).roles == old(self).roles,
            final(self).vft.allowances.entries@ == old(self).vft.allowances.entries@,
            final(self).vft.meta == old(self).vft.meta,
            final(self).vft.events@ == old(self).vft.events@,
            !old(self).roles.is_minter(caller) ==> r == Err::<bool, ServiceError>(
                ServiceError::NotAllowedToMint,
            ),
            old(self).roles.is_minter(caller) ==> {
                &&& to@.len() != value@.len() ==> r == Err::<bool, ServiceError>(
                    ServiceError::Ledger(Error::InvalidInput),
                )
                &&& to@.len() == value@.len() ==> match spec_batch_mint(
                    balances_model(old(self).vft.balances.entries@),
                    old(self).vft.total_supply@,
                    to@,
                    value@,
                ) {
                    Some(out) => {
                        &&& r == Ok::<bool, ServiceError>(true)
                        &&& balances_model(final(self).vft.balances.entries@) == out.0
                        &&& final(self).vft.total_supply@ == out.1
                        &&& final(self).events@ == old(self).events@.push(
                            Event::BatchMinted { to: to, value: value },
                        )
                    },
                    None => r == Err::<bool, ServiceError>(
                        ServiceError::Ledger(Error::NumericOverflow),
                    ),
                }
            },
            r is Err ==> final(self).vft.balances.entries@ == old(self).vft.balances.entries@
                && final(self).vft.total_supply == old(self).vft.total_supply && final(self).events@ == old(self).events@,
    {
        if !self.roles.check_minter(caller) {
            return Err(ServiceError::NotAllowedToMint);
        }
        match vft::batch_mint(&mut self.vft.balances, &mut self.vft.total_supply, &to, &value) {
            Ok(_) => {},
            Err(e) => {
                return Err(ServiceError::Ledger(e));
            },
        }
        self.events.push(Event::BatchMinted { to, value });
        Ok(true)
    }

    /// Admits `to` to the admin role; only an admin may do so.
    pub fn grant_admin_role(&mut self, caller: ActorId, to: ActorId) -> (r: Result<(), ServiceError>)
        requires
            old(self).wf(),
        ensures
            final(self).wf(),
            final(self).vft == old(self).vft,
            final(self).events == old(self).events,
            !old(self).roles.is_admin(caller) ==> r == Err::<(), ServiceError>(
                ServiceError::NotAdmin,
            ) && final(self).roles == old(self).roles,
            old(self).roles.is_admin(caller) ==> {
                &&& r == Ok::<(), ServiceError>(())
                &&& final(self).roles.is_admin(to)
                &&& forall|a: ActorId| a@ != to@ ==> (final(self).roles.is_admin(a) <==> old(self).roles.is_admin(a))
                &&& final(self).roles.minters == old(self).roles.minters
                &&& final(self).roles.burners == old(self).roles.burners
            },
    {
        if !self.roles.check_admin(caller) {
            return Err(ServiceError::NotAdmin);
        }
        self.roles.grant_admin(to);
        Ok(())
    }

    /// Admits `to` to the minter role; only an admin may do so.
    pub fn grant_minter_role(&mut self, caller: ActorId, to: ActorId) -> (r: Result<
        (),
        ServiceError,
    >)
        requires
            old(self).wf(),
        ensures
            final(self).wf(),
            final(self).vft == old(self).vft,
            final(self).events == old(self).events,
            !old(self).roles.is_admin(caller) ==> r == Err::<(), ServiceError>(
                ServiceError::NotAdmin,
            ) && final(self).roles == old(self).roles,
            old(self).roles.is_admin(caller) ==> {
                &&& r == Ok::<(), ServiceError>(())
                &&& final(self).roles.is_minter(to)
                &&& forall|a: ActorId| a@ != to@ ==> (final(self).roles.is_minter(a) <==> old(self).roles.is_minter(a))
                &&& final(self).roles.admins == old(self).roles.admins
                &&& final(self).roles.burners == old(self).roles.burners
            },
    {
        if !self.roles.check_admin(caller) {
            return Err(ServiceError::NotAdmin);
        }
        self.roles.grant_minter(to);
        Ok(())
    }

    /// Admits `to` to the burner role; only an admin may do so.
    pub fn grant_burner_role(&mut self, caller: ActorId, to: ActorId) -> (r: Result<
        (),
        ServiceError,
    >)
        requires
            old(self).wf(),
        ensures
            final(self).wf(),
            final(self).vft == old(self).vft,
            final(self).events == old(self).events,
            !old(self).roles.is_admin(caller) ==> r == Err::<(), ServiceError>(
                ServiceError::NotAdmin,
            ) && final(self).roles == old(self).roles,
            old(self).roles.is_admin(caller) ==> {
                &&& r == Ok::<(), ServiceError>(())
                &&& final(self).roles.is_burner(to)
                &&& forall|a: ActorId| a@ != to@ ==> (final(self).roles.is_burner(a) <==> old(self).roles.is_burner(a))
                &&& final(self).roles.admins == old(self).roles.admins
                &&& final(self).roles.minters == old(self).roles.minters
            },
    {
        if !self.roles.check_admin(caller) {
            return Err(ServiceError::NotAdmin);
        }
        self.roles.grant_burner(to);
        Ok(())
    }

    /// Removes `from` from the admin role; only an admin may do so, and an
    /// admin may remove itself.
    pub fn revoke_admin_role(&mut self, caller: ActorId, from: ActorId) -> (r: Result<
        (),
        ServiceError,
    >)
        requires
            old(self).wf(),
        ensures
            final(self).wf(),
            final(self).vft == old(self).vft,
            final(self).events == old(self).events,
            !old(self).roles.is_admin(caller) ==> r == Err::<(), ServiceError>(
                ServiceError::NotAdmin,
            ) && final(self).roles == old(self).roles,
            old(self).roles.is_admin(caller) ==> {
                &&& r == Ok::<(), ServiceError>(())
                &&& !final(self).roles.is_admin(from)
                &&& forall|a: ActorId| a@ != from@ ==> (final(self).roles.is_admin(a) <==> old(self).roles.is_admin(a))
                &&& final(self).roles.minters == old(self).roles.minters
                &&& final(self).roles.burners == old(self).roles.burners
            },
    {
        if !self.roles.check_admin(caller) {
            return Err(ServiceError::NotAdmin);
        }
        self.roles.revoke_admin(from);
        Ok(())
    }

    /// Removes `from` from the minter role; only an admin may do so.
    pub fn revoke_minter_role(&mut self, caller: ActorId, from: ActorId) -> (r: Result<
        (),
        ServiceError,
    >)
        requires
            old(self).wf(),
        ensures
            final(self).wf(),
            final(self).vft == old(self).vft,
            final(self).events == old(self).events,
            !old(self).roles.is_admin(caller) ==> r == Err::<(), ServiceError>(
                ServiceError::NotAdmin,
            ) && final(self).roles == old(self).roles,
            old(self).roles.is_admin(caller) ==> {
                &&& r == Ok::<(), ServiceError>(())
                &&& !final(self).roles.is_minter(from)
                &&& forall|a: ActorId| a@ != from@ ==> (final(self).roles.is_minter(a) <==> old(self).roles.is_minter(a))
                &&& final(self).roles.admins == old(self).roles.admins
                &&& final(self).roles.burners == old(self).roles.burners
            },
    {
        if !self.roles.check_admin(caller) {
            return Err(ServiceError::NotAdmin);
        }
        self.roles.revoke_minter(from);
        Ok(())
    }

    /// Removes `from` from the burner role; only an admin may do so.
    pub fn revoke_burner_role(&mut self, caller: ActorId, from: ActorId) -> (r: Result<
        (),
        ServiceError,
    >)
        requires
            old(self).wf(),
        ensures
            final(self).wf(),
            final(self).vft == old(self).vft,
            final(self).events == old(self).events,
            !old(self).roles.is_admin(caller) ==> r == Err::<(), ServiceError>(
                ServiceError::NotAdmin,
            ) && final(self).roles == old(self).roles,
            old(self).roles.is_admin(caller) ==> {
                &&& r == Ok::<(), ServiceError>(())
                &&& !final(self).roles.is_burner(from)
                &&& forall|a: ActorId| a@ != from@ ==> (final(self).roles.is_burner(a) <==> old(self).roles.is_burner(a))
                &&& final(self).roles.admins == old(self).roles.admins
                &&& final(self).roles.minters == old(self).roles.minters
            },
    {
        if !self.roles.check_admin(caller) {
            return Err(ServiceError::NotAdmin);
        }
        self.roles.revoke_burner(from);
        Ok(())
    }

    /// The identities holding the minter role, in storage order.
    pub fn minters(&self) -> (r: Vec<ActorId>)
        ensures
            r@.len() == self.roles.minters.entries@.len(),
            forall|i: int| 0 <= i < r@.len() ==> (#[trigger] r@[i]).id
                == self.roles.minters.entries@[i].0.0,
    {
        role_members(&self.roles.minters)
    }

    /// The identities holding the burner role, in storage order.
    pub fn burners(&self) -> (r: Vec<ActorId>)
        ensures
            r@.len() == self.roles.burners.entries@.len(),
            forall|i: int| 0 <= i < r@.len() ==> (#[trigger] r@[i]).id
                == self.roles.burners.entries@[i].0.0,
    {
        role_members(&self.roles.burners)
    }

    /// The identities holding the admin role, in storage order.
    pub fn admins(&self) -> (r: Vec<ActorId>)
        ensures
            r@.len() == self.roles.admins.entries@.len(),
            forall|i: int| 0 <= i < r@.len() ==> (#[trigger] r@[i]).id
                == self.roles.admins.entries@[i].0.0,
    {
        role_members(&self.roles.admins)
    }

    /// Forwards to the base service: sets `owner`'s allowance for
    /// `spender`, with no role involved.
    pub fn approve(&mut self, owner: ActorId, spender: ActorId, value: U256) -> (r: Result<
        bool,
        Error,
    >)
        requires
            old(self).wf(),
        ensures
            final(self).wf(),
            final(self).roles == old(self).roles,
            final(self).events == old(self).events,
            final(self).vft.balances.entries@ == old(self).vft.balances.entries@,
            final(self).vft.total_supply == old(self).vft.total_supply,
            owner@ == spender@ ==> r == Ok::<bool, Error>(false),
            owner@ != spender@ && spender@ == 0 ==> r == Err::<bool, Error>(Error::InvalidInput),
            owner@ != spender@ && spender@ != 0 ==> {
                &&& r == Ok::<bool, Error>(allowance_spec(
                    old(self).vft.allowances.entries@,
                    owner,
                    spender,
                ) != value@)
                &&& allowance_spec(final(self).vft.allowances.entries@, owner, spender) == value@
            },
            r == Ok::<bool, Error>(true) ==> final(self).vft.events@ == old(
                self,
            ).vft.events@.push(vft_service::Event::Approval { owner, spender, value }),
            r != Ok::<bool, Error>(true) ==> final(self).vft.events@ == old(self).vft.events@
                && final(self).vft.allowances.entries@ == old(self).vft.allowances.entries@,
    {
        self.vft.approve(owner, spender, value)
    }

    /// Forwards to the base service: moves `value` from `from` to `to`,
    /// with no role involved.
    pub fn transfer(&mut self, from: ActorId, to: ActorId, value: U256) -> (r: Result<bool, Error>)
        requires
            old(self).wf(),
        ensures
            final(self).wf(),
            final(self).roles == old(self).roles,
            final(self).events == old(self).events,
            final(self).vft.allowances.entries@ == old(self).vft.allowances.entries@,
            final(self).vft.total_supply == old(self).vft.total_supply,
            value@ == 0 || from@ == to@ ==> r == Ok::<bool, Error>(false),
            value@ > 0 && from@ != to@ && value@ > balance_spec(
                old(self).vft.balances.entries@,
                from,
            ) ==> r == Err::<bool, Error>(Error::InsufficientBalance),
            value@ > 0 && from@ != to@ && value@ <= balance_spec(
                old(self).vft.balances.entries@,
                from,
            ) && balance_spec(old(self).vft.balances.entries@, to) + value@ >= u256_limit() ==> r
                == Err::<bool, Error>(Error::NumericOverflow),
            value@ > 0 && from@ != to@ && value@ <= balance_spec(
                old(self).vft.balances.entries@,
                from,
            ) && balance_spec(old(self).vft.balances.entries@, to) + value@ < u256_limit() ==> r
                == Ok::<bool, Error>(true),
            r == Ok::<bool, Error>(true) ==> {
                &&& balance_spec(final(self).vft.balances.entries@, from) == balance_spec(
                    old(self).vft.balances.entries@,
                    from,
                ) - value@
                &&& balance_spec(final(self).vft.balances.entries@, to) == balance_spec(
                    old(self).vft.balances.entries@,
                    to,
                ) + value@
                &&& forall|a: ActorId| a@ != from@ && a@ != to@ ==> balance_spec(
                    final(self).vft.balances.entries@,
                    a,
                ) == balance_spec(old(self).vft.balances.entries@, a)
                &&& final(self).vft.events@ == old(self).vft.events@.push(
                    vft_service::Event::Transfer { from, to, value },
                )
            },
            r != Ok::<bool, Error>(true) ==> final(self).vft.balances.entries@ == old(
                self,
            ).vft.balances.entries@ && final(self).vft.events@ == old(self).vft.events@,
    {
        self.vft.transfer(from, to, value)
    }

    /// Forwards to the base service: moves `value` from `from` to `to` on
    /// behalf of `spender`, consuming allowance unless the spender is the
    /// holder.
    pub fn transfer_from(
        &mut self,
        spender: ActorId,
        from: ActorId,
        to: ActorId,
        value: U256,
    ) -> (r: Result<bool, Error>)
        requires
            old(self).wf(),
        ensures
            final(self).wf(),
            final(self).roles == old(self).roles,
            final(self).events == old(self).events,
            final(self).vft.total_supply == old(self).vft.total_supply,
            spender@ != from@ && allowance_spec(old(self).vft.allowances.entries@, from, spender)
                < value@ ==> r == Err::<bool, Error>(Error::InsufficientAllowance),
            spender@ == from@ || allowance_spec(old(self).vft.allowances.entries@, from, spender)
                >= value@ ==> {
                &&& value@ == 0 || from@ == to@ ==> r == Ok::<bool, Error>(false)
                &&& value@ > 0 && from@ != to@ && value@ > balance_spec(
                    old(self).vft.balances.entries@,
                    from,
                ) ==> r == Err::<bool, Error>(Error::InsufficientBalance)
                &&& value@ > 0 && from@ != to@ && value@ <= balance_spec(
                    old(self).vft.balances.entries@,
                    from,
                ) && balance_spec(old(self).vft.balances.entries@, to) + value@ >= u256_limit()
                    ==> r == Err::<bool, Error>(Error::NumericOverflow)
                &&& value@ > 0 && from@ != to@ && value@ <= balance_spec(
                    old(self).vft.balances.entries@,
                    from,
                ) && balance_spec(old(self).vft.balances.entries@, to) + value@ < u256_limit()
                    ==> r == Ok::<bool, Error>(true)
            },
            r == Ok::<bool, Error>(true) ==> {
                &&& balance_spec(final(self).vft.balances.entries@, from) == balance_spec(
                    old(self).vft.balances.entries@,
                    from,
                ) - value@
                &&& balance_spec(final(self).vft.balances.entries@, to) == balance_spec(
                    old(self).vft.balances.entries@,
                    to,
                ) + value@
                &&& spender@ == from@ ==> final(self).vft.allowances.entries@ == old(
                    self,
                ).vft.allowances.entries@
                &&& spender@ != from@ ==> allowance_spec(
                    final(self).vft.allowances.entries@,
                    from,
                    spender,
                ) == allowance_spec(old(self).vft.allowances.entries@, from, spender) - value@
            },
            r != Ok::<bool, Error>(true) ==> final(self).vft.balances.entries@ == old(
                self,
            ).vft.balances.entries@ && final(self).vft.allowances.entries@ == old(
                self,
            ).vft.allowances.entries@ && final(self).vft.events@ == old(self).vft.events@,
    {
        self.vft.transfer_from(spender, from, to, value)
    }

    /// Forwards to the base service: the balance of `account`.
    pub fn balance_of(&self, account: ActorId) -> (r: U256)
        requires
            self.wf(),
        ensures
            r@ == balance_spec(self.vft.balances.entries@, account),
    {
        self.vft.balance_of(account)
    }

    /// Forwards to the base service: the allowance from `owner` to
    /// `spender`.
    pub fn allowance(&self, owner: ActorId, spender: ActorId) -> (r: U256)
        requires
            self.wf(),
        ensures
            r@ == allowance_spec(self.vft.allowances.entries@, owner, spender),
    {
        self.vft.allowance(owner, spender)
    }

    /// Forwards to the base service: the total number of units in
    /// circulation.
    pub fn total_supply(&self) -> (r: U256)
        ensures
            r == self.vft.total_supply,
    {
        self.vft.total_supply()
    }
}

} // verus!
