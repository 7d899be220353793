//! The fungible token service: owns the balances, allowances, metadata and
//! total supply, and records one event for every call that actually
//! mutates state — and none for a call that does not.

use vstd::prelude::*;

use crate::actor::ActorId;
use crate::kv::{tbl_get, tbl_sum, Key};
use crate::u256::{u256_limit, U256};
use crate::vft;
use crate::vft::{allowance_key, allowance_spec, balance_spec, AllowancesMap, BalancesMap, Error};

verus! {

/// The token's descriptive metadata, fixed at construction.
pub struct Metadata {
    pub name: String,
    pub symbol: String,
    pub decimals: u8,
}

/// What a successful mutation announces to the outside world.
#[derive(Clone, Copy, Debug, PartialEq, Eq, Structural)]
pub enum Event {
    Approval { owner: ActorId, spender: ActorId, value: U256 },
    Transfer { from: ActorId, to: ActorId, value: U256 },
}

/// A fungible token ledger with its event log. The deploying code creates
/// it once with `init` and owns it for the life of the contract.
pub struct Service {
    pub balances: BalancesMap,
    pub allowances: AllowancesMap,
    pub meta: Metadata,
    pub total_supply: U256,
    pub events: Vec<Event>,
}

impl Service {
    /// The service invariant: both maps store no zero entry under unique
    /// keys, and the total supply equals the sum of all balances.
    pub open spec fn wf(&self) -> bool {
        vft::map_wf(self.balances.entries@) && vft::map_wf(self.allowances.entries@)
            && self.total_supply@ == tbl_sum(self.balances.entries@)
    }

    /// A fresh, empty ledger carrying the given metadata.
    pub fn init(name: String, symbol: String, decimals: u8) -> (r: Service)
        ensures
            r.wf(),
            r.balances.entries@.len() == 0,
            r.allowances.entries@.len() == 0,
            r.total_supply@ == 0,
            r.events@.len() == 0,
            r.meta.name == name && r.meta.symbol == symbol && r.meta.decimals == decimals,
    {
        Service {
            balances: BalancesMap::new(),
            allowances: AllowancesMap::new(),
            meta: Metadata { name, symbol, decimals },
            total_supply: U256::zero(),
            events: Vec::new(),
        }
    }

    /// Sets `owner`'s allowance for `spender` to `value`, recording an
    /// `Approval` event exactly when the stored allowance changed.
    pub fn approve(&mut self, owner: ActorId, spender: ActorId, value: U256) -> (r: Result<
        bool,
        Error,
    >)
        requires
            old(self).wf(),
        ensures
            final(self).wf(),
            final(self).balances.entries@ == old(self).balances.entries@,
            final(self).total_supply == old(self).total_supply,
            final(self).meta == old(self).meta,
            owner@ == spender@ ==> r == Ok::<bool, Error>(false),
            owner@ != spender@ && spender@ == 0 ==> r == Err::<bool, Error>(Error::InvalidInput),
            owner@ != spender@ && spender@ != 0 ==> {
                &&& r == Ok::<bool, Error>(allowance_spec(
                    old(self).allowances.entries@,
                    owner,
                    spender,
                ) != value@)
                &&& allowance_spec(final(self).allowances.entries@, owner, spender) == value@
                &&& forall|k2: Key| k2 != allowance_key(owner, spender) ==> tbl_get(
                    final(self).allowances.entries@,
                    k2,
                ) == tbl_get(old(self).allowances.entries@, k2)
            },
            r == Ok::<bool, Error>(true) ==> final(self).events@ == old(self).events@.push(
                Event::Approval { owner, spender, value },
            ),
            r != Ok::<bool, Error>(true) ==> final(self).events@ == old(self).events@ && final(self).allowances.entries@ == old(self).allowances.entries@,
    {
        let mutated = match vft::approve(&mut self.allowances, owner, spender, value) {
            Ok(m) => m,
            Err(e) => {
                return Err(e);
            },
        };
        if mutated {
            self.events.push(Event::Approval { owner, spender, value });
        }
        Ok(mutated)
    }

    /// Moves `value` from `from` to `to`, recording a `Transfer` event
    /// exactly when balances changed.
    pub fn transfer(&mut self, from: ActorId, to: ActorId, value: U256) -> (r: Result<bool, Error>)
        requires
            old(self).wf(),
        ensures
            final(self).wf(),
            final(self).allowances.entries@ == old(self).allowances.entries@,
            final(self).total_supply == old(self).total_supply,
            final(self).meta == old(self).meta,
            value@ == 0 || from@ == to@ ==> r == Ok::<bool, Error>(false),
            value@ > 0 && from@ != to@ && value@ > balance_spec(old(self).balances.entries@, from)
                ==> r == Err::<bool, Error>(Error::InsufficientBalance),
            value@ > 0 && from@ != to@ && value@ <= balance_spec(
                old(self).balances.entries@,
                from,
            ) && balance_spec(old(self).balances.entries@, to) + value@ >= u256_limit() ==> r
                == Err::<bool, Error>(Error::NumericOverflow),
            value@ > 0 && from@ != to@ && value@ <= balance_spec(
                old(self).balances.entries@,
                from,
            ) && balance_spec(old(self).balances.entries@, to) + value@ < u256_limit() ==> r
                == Ok::<bool, Error>(true),
            r == Ok::<bool, Error>(true) ==> {
                &&& balance_spec(final(self).balances.entries@, from) == balance_spec(
                    old(self).balances.entries@,
                    from,
                ) - value@
                &&& balance_spec(final(self).balances.entries@, to) == balance_spec(
                    old(self).balances.entries@,
                    to,
                ) + value@
                &&& forall|a: ActorId| a@ != from@ && a@ != to@ ==> balance_spec(
                    final(self).balances.entries@,
                    a,
                ) == balance_spec(old(self).balances.entries@, a)
                &&& final(self).events@ == old(self).events@.push(
                    Event::Transfer { from, to, value },
                )
            },
            r != Ok::<bool, Error>(true) ==> final(self).balances.entries@ == old(self).balances.entries@ && final(self).events@ == old(self).events@,
    {
        let mutated = match vft::transfer(&mut self.balances, from, to, value) {
            Ok(m) => m,
            Err(e) => {
                return Err(e);
            },
        };
        if mutated {
            self.events.push(Event::Transfer { from, to, value });
        }
        Ok(mutated)
    }

    /// Moves `value` from `from` to `to` on behalf of `spender`, consuming
    /// allowance unless the spender is the holder, and recording a
    /// `Transfer` event exactly when balances changed.
    pub fn transfer_from(
        &mut self,
        spender: ActorId,
        from: ActorId,
        to: ActorId,
        value: U256,
    ) -> (r: Result<bool, Error>)
        requires
            old(self).wf(),
        ensures
            final(self).wf(),
            final(self).total_supply == old(self).total_supply,
            final(self).meta == old(self).meta,
            spender@ != from@ && allowance_spec(old(self).allowances.entries@, from, spender)
                < value@ ==> r == Err::<bool, Error>(Error::InsufficientAllowance),
            spender@ == from@ || allowance_spec(old(self).allowances.entries@, from, spender)
                >= value@ ==> {
                &&& value@ == 0 || from@ == to@ ==> r == Ok::<bool, Error>(false)
                &&& value@ > 0 && from@ != to@ && value@ > balance_spec(
                    old(self).balances.entries@,
                    from,
                ) ==> r == Err::<bool, Error>(Error::InsufficientBalance)
                &&& value@ > 0 && from@ != to@ && value@ <= balance_spec(
                    old(self).balances.entries@,
                    from,
                ) && balance_spec(old(self).balances.entries@, to) + value@ >= u256_limit() ==> r
                    == Err::<bool, Error>(Error::NumericOverflow)
                &&& value@ > 0 && from@ != to@ && value@ <= balance_spec(
                    old(self).balances.entries@,
                    from,
                ) && balance_spec(old(self).balances.entries@, to) + value@ < u256_limit() ==> r
                    == Ok::<bool, Error>(true)
            },
            r == Ok::<bool, Error>(true) ==> {
                &&& balance_spec(final(self).balances.entries@, from) == balance_spec(
                    old(self).balances.entries@,
                    from,
                ) - value@
                &&& balance_spec(final(self).balances.entries@, to) == balance_spec(
                    old(self).balances.entries@,
                    to,
                ) + value@
                &&& forall|a: ActorId| a@ != from@ && a@ != to@ ==> balance_spec(
                    final(self).balances.entries@,
                    a,
                ) == balance_spec(old(self).balances.entries@, a)
                &&& spender@ == from@ ==> final(self).allowances.entries@ == old(self).allowances.entries@
                &&& spender@ != from@ ==> allowance_spec(
                    final(self).allowances.entries@,
                    from,
                    spender,
                ) == allowance_spec(old(self).allowances.entries@, from, spender) - value@
                &&& final(self).events@ == old(self).events@.push(
                    Event::Transfer { from, to, value },
                )
            },
            r != Ok::<bool, Error>(true) ==> final(self).balances.entries@ == old(self).balances.entries@ && final(self).allowances.entries@ == old(self).allowances.entries@ && final(self).events@ == old(self).events@,
    {
        let mutated = match vft::transfer_from(
            &mut self.allowances,
            &mut self.balances,
            spender,
            from,
            to,
            value,
        ) {
            Ok(m) => m,
            Err(e) => {
                return Err(e);
            },
        };
        if mutated {
            self.events.push(Event::Transfer { from, to, value });
        }
        Ok(mutated)
    }

    /// The balance of `account`; absent holders have balance zero.
    pub fn balance_of(&self, account: ActorId) -> (r: U256)
        requires
            self.wf(),
        ensures
            r@ == balance_spec(self.balances.entries@, account),
    {
        vft::balance_of(&self.balances, account)
    }

    /// The allowance from `owner` to `spender`; absent pairs are zero.
    pub fn allowance(&self, owner: ActorId, spender: ActorId) -> (r: U256)
        requires
            self.wf(),
        ensures
            r@ == allowance_spec(self.allowances.entries@, owner, spender),
    {
        vft::allowance(&self.allowances, owner, spender)
    }

    /// The total number of units in circulation.
    pub fn total_supply(&self) -> (r: U256)
        ensures
            r == self.total_supply,
    {
        self.total_supply
    }

    pub fn name(&self) -> (r: &String)
        ensures
            r == &self.meta.name,
    {
        &self.meta.name
    }

    pub fn symbol(&self) -> (r: &String)
        ensures
            r == &self.meta.symbol,
    {
        &self.meta.symbol
    }

    pub fn decimals(&self) -> (r: u8)
        ensures
            r == self.meta.decimals,
    {
        self.meta.decimals
    }

    /// Pre-allocates room for `additional` more balance entries. A pure
    /// capacity hint: observable state is untouched.
    pub fn reserve_capacity(&mut self, additional: usize)
        requires
            old(self).wf(),
            old(self).balances.entries@.len() + additional <= usize::MAX,
        ensures
            final(self).wf(),
            final(self).balances.entries@ == old(self).balances.entries@,
            final(self).allowances.entries@ == old(self).allowances.entries@,
            final(self).total_supply == old(self).total_supply,
            final(self).meta == old(self).meta,
            final(self).events == old(self).events,
    {
        self.balances.entries.reserve(additional);
    }

}

} // verus!
