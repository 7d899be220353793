//! The multi-token service: owns the per-token balances, the blanket
//! operator approvals, the metadata and the per-token total supplies, and
//! records one event for every call that actually mutates state.

use vstd::prelude::*;

use crate::actor::ActorId;
use crate::kv::{tbl_sum_group, tbl_wf};
use crate::u256::U256;
use crate::vft::map_wf;
use crate::vft_service::Metadata;
use crate::vmt;
use crate::vmt::{
    approved_spec, group_of, spec_batch_transfer, supply_of, token_balance, token_balances_model,
    Error, OperatorsMap, TokenBalancesMap, TokenId, TotalSupplyMap,
};

verus! {

/// What a successful multi-token mutation announces.
#[derive(Clone, Debug, PartialEq, Eq)]
pub enum Event {
    Approval { from: ActorId, to: ActorId },
    Transfer { from: ActorId, to: ActorId, ids: Vec<TokenId>, amounts: Vec<U256> },
}

/// A multi-token ledger with its event log.
pub struct Service {
    pub balances: TokenBalancesMap,
    pub allowances: OperatorsMap,
    pub meta: Metadata,
    pub total_supply: TotalSupplyMap,
    pub events: Vec<Event>,
}

impl Service {
    /// Every token id's total supply equals the sum of its holders'
    /// balances.
    pub open spec fn supply_matches(&self) -> bool {
        forall|id: TokenId| #[trigger] supply_of(self.total_supply.entries@, id) == tbl_sum_group(
            self.balances.entries@,
            group_of(id),
        )
    }

    /// The service invariant: no zero entries, unique keys, and supplies
    /// in step with balances.
    pub open spec fn wf(&self) -> bool {
        map_wf(self.balances.entries@) && tbl_wf(self.allowances.entries@) && map_wf(
            self.total_supply.entries@,
        ) && self.supply_matches()
    }

    /// A fresh, empty multi-token ledger carrying the given metadata.
    pub fn seed(name: String, symbol: String, decimals: u8) -> (r: Service)
        ensures
            r.wf(),
            r.balances.entries@.len() == 0,
            r.allowances.entries@.len() == 0,
            r.total_supply.entries@.len() == 0,
            r.events@.len() == 0,
            r.meta.name == name && r.meta.symbol == symbol && r.meta.decimals == decimals,
    {
        let s = Service {
            balances: TokenBalancesMap::new(),
            allowances: OperatorsMap::new(),
            meta: Metadata { name, symbol, decimals },
            total_supply: TotalSupplyMap::new(),
            events: Vec::new(),
        };
        s
    }

    /// Grants `to` blanket approval over every token `owner` holds,
    /// recording an `Approval` event exactly when the call succeeds.
    pub fn approve(&mut self, owner: ActorId, to: ActorId) -> (r: Result<bool, Error>)
        requires
            old(self).wf(),
        ensures
            final(self).wf(),
            final(self).balances.entries@ == old(self).balances.entries@,
            final(self).total_supply.entries@ == old(self).total_supply.entries@,
            final(self).meta == old(self).meta,
            owner@ == to@ ==> r == Ok::<bool, Error>(false),
            owner@ != to@ && to@ == 0 ==> r == Err::<bool, Error>(Error::ZeroAddress),
            owner@ != to@ && to@ != 0 ==> {
                &&& r == Ok::<bool, Error>(true)
                &&& approved_spec(final(self).allowances.entries@, owner, to)
                &&& forall|o2: ActorId, p2: ActorId| o2@ != owner@ || p2@ != to@ ==> (
                approved_spec(final(self).allowances.entries@, o2, p2) <==> approved_spec(
                    old(self).allowances.entries@,
                    o2,
                    p2,
                ))
                &&& final(self).events@ == old(self).events@.push(
                    Event::Approval { from: owner, to },
                )
            },
            r != Ok::<bool, Error>(true) ==> final(self).allowances.entries@ == old(self).allowances.entries@ && final(self).events@ == old(self).events@,
    {
        let mutated = match vmt::approve(&mut self.allowances, owner, to) {
            Ok(m) => m,
            Err(e) => {
                return Err(e);
            },
        };
        if mutated {
            self.events.push(Event::Approval { from: owner, to });
        }
        Ok(mutated)
    }

    /// Moves the listed amounts of the listed token ids from `from` to
    /// `to`, atomically, recording one `Transfer` event for the batch.
    pub fn batch_transfer_from(
        &mut self,
        msg_src: ActorId,
        from: ActorId,
        to: ActorId,
        ids: Vec<TokenId>,
        amounts: Vec<U256>,
    ) -> (r: Result<(), Error>)
        requires
            old(self).wf(),
        ensures
            final(self).wf(),
            final(self).allowances.entries@ == old(self).allowances.entries@,
            final(self).total_supply.entries@ == old(self).total_supply.entries@,
            final(self).meta == old(self).meta,
            from@ == to@ ==> r == Err::<(), Error>(Error::SenderAndRecipientAddressesAreSame),
            from@ != to@ && from@ != msg_src@ && !approved_spec(
                old(self).allowances.entries@,
                from,
                msg_src,
            ) ==> r == Err::<(), Error>(Error::CallerIsNotOwnerOrApproved),
            from@ != to@ && (from@ == msg_src@ || approved_spec(
                old(self).allowances.entries@,
                from,
                msg_src,
            )) ==> {
                &&& to@ == 0 ==> r == Err::<(), Error>(Error::ZeroAddress)
                &&& to@ != 0 && ids@.len() != amounts@.len() ==> r == Err::<(), Error>(
                    Error::LengthMismatch,
                )
                &&& to@ != 0 && ids@.len() == amounts@.len() ==> match spec_batch_transfer(
                    token_balances_model(old(self).balances.entries@),
                    from,
                    to,
                    ids@,
                    amounts@,
                ) {
                    Ok(m) => {
                        &&& r == Ok::<(), Error>(())
                        &&& token_balances_model(final(self).balances.entries@) == m
                        &&& final(self).events@ == old(self).events@.push(
                            Event::Transfer { from, to, ids, amounts },
                        )
                    },
                    Err(e) => r == Err::<(), Error>(e),
                }
            },
            r is Err ==> final(self).balances.entries@ == old(self).balances.entries@ && final(self).events@ == old(self).events@,
    {
        match vmt::transfer_from(
            &mut self.balances,
            &self.allowances,
            msg_src,
            from,
            to,
            &ids,
            &amounts,
        ) {
            Ok(_) => {},
            Err(e) => {
                return Err(e);
            },
        }
        self.events.push(Event::Transfer { from, to, ids, amounts });
        Ok(())
    }

    /// Moves `amount` of the single token `id` from `from` to `to`,
    /// recording one `Transfer` event.
    pub fn transfer_from(
        &mut self,
        msg_src: ActorId,
        from: ActorId,
        to: ActorId,
        id: TokenId,
        amount: U256,
    ) -> (r: Result<(), Error>)
        requires
            old(self).wf(),
        ensures
            final(self).wf(),
            final(self).allowances.entries@ == old(self).allowances.entries@,
            final(self).total_supply.entries@ == old(self).total_supply.entries@,
            final(self).meta == old(self).meta,
            from@ == to@ ==> r == Err::<(), Error>(Error::SenderAndRecipientAddressesAreSame),
            from@ != to@ && from@ != msg_src@ && !approved_spec(
                old(self).allowances.entries@,
                from,
                msg_src,
            ) ==> r == Err::<(), Error>(Error::CallerIsNotOwnerOrApproved),
            from@ != to@ && (from@ == msg_src@ || approved_spec(
                old(self).allowances.entries@,
                from,
                msg_src,
            )) ==> {
                &&& to@ == 0 ==> r == Err::<(), Error>(Error::ZeroAddress)
                &&& to@ != 0 ==> match spec_batch_transfer(
                    token_balances_model(old(self).balances.entries@),
                    from,
                    to,
                    seq![id],
                    seq![amount],
                ) {
                    Ok(m) => {
                        &&& r == Ok::<(), Error>(())
                        &&& token_balances_model(final(self).balances.entries@) == m
                        &&& final(self).events@.len() == old(self).events@.len() + 1
                        &&& final(self).events@.last() matches Event::Transfer {
                            from: f,
                            to: t,
                            ids: i,
                            amounts: a,
                        } && f == from && t == to && i@ == seq![id] && a@ == seq![amount]
                    },
                    Err(e) => r == Err::<(), Error>(e),
                }
            },
            r is Err ==> final(self).balances.entries@ == old(self).balances.entries@ && final(self).events@ == old(self).events@,
    {
        let mut ids: Vec<TokenId> = Vec::new();
        ids.push(id);
        let mut amounts: Vec<U256> = Vec::new();
        amounts.push(amount);
        proof {
            assert(ids@ =~= seq![id]);
            assert(amounts@ =~= seq![amount]);
        }
        self.batch_transfer_from(msg_src, from, to, ids, amounts)
    }

    /// Whether `operator` is approved to move any of `account`'s tokens.
    pub fn is_approved(&self, account: ActorId, operator: ActorId) -> (r: bool)
        ensures
            r <==> approved_spec(self.allowances.entries@, account, operator),
    {
        vmt::is_approved(&self.allowances, &account, &operator)
    }

    /// The balance of `account` for token `id`.
    pub fn balance_of(&self, account: ActorId, id: TokenId) -> (r: U256)
        requires
            self.wf(),
        ensures
            r@ == token_balance(self.balances.entries@, id, account),
    {
        vmt::get_balance(&self.balances, &account, &id)
    }

    /// The balances of a list of accounts for a matching list of token
    /// ids; the two lists must have the same length.
    pub fn balance_of_batch(&self, accounts: &Vec<ActorId>, ids: &Vec<TokenId>) -> (r: Result<
        Vec<U256>,
        Error,
    >)
        requires
            self.wf(),
        ensures
            accounts@.len() != ids@.len() ==> r == Err::<Vec<U256>, Error>(Error::LengthMismatch),
            accounts@.len() == ids@.len() ==> match r {
                Ok(v) => v@.len() == accounts@.len() && forall|i: int| 0 <= i < v@.len()
                    ==> (#[trigger] v@[i])@ == token_balance(
                    self.balances.entries@,
                    ids@[i],
                    accounts@[i],
                ),
                Err(_) => false,
            },
    {
        let n = accounts.len();
        if n != ids.len() {
            return Err(Error::LengthMismatch);
        }
        let mut out: Vec<U256> = Vec::new();
        let mut i: usize = 0;
        while i < n
            invariant
                i <= n,
                n == accounts@.len(),
                n == ids@.len(),
                self.wf(),
                out@.len() == i,
                forall|j: int| 0 <= j < i ==> (#[trigger] out@[j])@ == token_balance(
                    self.balances.entries@,
                    ids@[j],
                    accounts@[j],
                ),
            decreases n - i,
        {
            let b = vmt::get_balance(&self.balances, &accounts[i], &ids[i]);
            out.push(b);
            i = i + 1;
        }
        Ok(out)
    }

    /// Every token id with a live supply, paired with that supply, in
    /// storage order.
    pub fn total_supply(&self) -> (r: Vec<(TokenId, U256)>)
        requires
            self.wf(),
        ensures
            r@.len() == self.total_supply.entries@.len(),
            forall|i: int| 0 <= i < r@.len() ==> (#[trigger] r@[i]).0.lo
                == self.total_supply.entries@[i].0.0 && r@[i].0.hi
                == self.total_supply.entries@[i].0.1 && r@[i].1@
                == self.total_supply.entries@[i].1@,
    {
        let n = self.total_supply.entries.len();
        let mut out: Vec<(TokenId, U256)> = Vec::new();
        let mut i: usize = 0;
        while i < n
            invariant
                i <= n,
                n == self.total_supply.entries@.len(),
                out@.len() == i,
                forall|j: int| 0 <= j < i ==> (#[trigger] out@[j]).0.lo
                    == self.total_supply.entries@[j].0.0 && out@[j].0.hi
                    == self.total_supply.entries@[j].0.1 && out@[j].1@
                    == self.total_supply.entries@[j].1@,
            decreases n - i,
        {
            let e = self.total_supply.entries[i];
            let id = U256 { lo: e.0.0, hi: e.0.1 };
            out.push((id, e.1.get()));
            i = i + 1;
        }
        out
    }

    pub fn name(&self) -> (r: &String)
        ensures
            r == &self.meta.name,
    {
        &self.meta.name
    }

    pub fn symbol(&self) -> (r: &String)
        ensures
            r == &self.meta.symbol,
    {
        &self.meta.symbol
    }

    pub fn decimals(&self) -> (r: u8)
        ensures
            r == self.meta.decimals,
    {
        self.meta.decimals
    }
}

} // verus!
