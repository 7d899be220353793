//! The non-fungible token service: owns the ownership index and the
//! per-token approvals, and records one event for every call that
//! actually mutates state.

use vstd::prelude::*;

use crate::actor::ActorId;
use crate::kv::{tbl_count_val, tbl_get, tbl_wf, Key};
use crate::u256::U256;
use crate::vmt::id_key;
use crate::vnft;
use crate::vnft::{
    approved_view, owner_view, permitted, ApprovalsMap, Error, OwnerByIdMap, TokenId,
};

verus! {

/// What a successful non-fungible mutation announces.
#[derive(Clone, Copy, Debug, PartialEq, Eq, Structural)]
pub enum Event {
    Transfer { from: ActorId, to: ActorId, token_id: TokenId },
    Approval { owner: ActorId, approved: ActorId, token_id: TokenId },
}

/// A non-fungible token ledger with its event log.
pub struct Service {
    pub name: String,
    pub symbol: String,
    pub owner_by_id: OwnerByIdMap,
    pub token_approvals: ApprovalsMap,
    pub events: Vec<Event>,
}

impl Service {
    pub open spec fn wf(&self) -> bool {
        tbl_wf(self.owner_by_id.entries@) && tbl_wf(self.token_approvals.entries@)
    }

    /// A fresh, empty collection with the given name and symbol.
    pub fn init(name: String, symbol: String) -> (r: Service)
        ensures
            r.wf(),
            r.owner_by_id.entries@.len() == 0,
            r.token_approvals.entries@.len() == 0,
            r.events@.len() == 0,
            r.name == name && r.symbol == symbol,
    {
        Service {
            name,
            symbol,
            owner_by_id: OwnerByIdMap::new(),
            token_approvals: ApprovalsMap::new(),
            events: Vec::new(),
        }
    }

    /// Sets or clears the approved operator for `token_id` on behalf of
    /// `source`, recording an `Approval` event on success.
    pub fn approve(&mut self, source: ActorId, approved: ActorId, token_id: TokenId) -> (r: Result<
        (),
        Error,
    >)
        requires
            old(self).wf(),
        ensures
            final(self).wf(),
            final(self).owner_by_id.entries@ == old(self).owner_by_id.entries@,
            final(self).name == old(self).name && final(self).symbol == old(self).symbol,
            owner_view(old(self).owner_by_id.entries@, token_id) == 0 ==> r == Err::<(), Error>(
                Error::TokenDoesNotExist,
            ),
            owner_view(old(self).owner_by_id.entries@, token_id) != 0 && !permitted(
                old(self).token_approvals.entries@,
                source,
                ActorId { id: owner_view(old(self).owner_by_id.entries@, token_id) },
                token_id,
            ) ==> r == Err::<(), Error>(Error::DeniedAccess),
            owner_view(old(self).owner_by_id.entries@, token_id) != 0 && permitted(
                old(self).token_approvals.entries@,
                source,
                ActorId { id: owner_view(old(self).owner_by_id.entries@, token_id) },
                token_id,
            ) ==> {
                &&& owner_view(old(self).owner_by_id.entries@, token_id) == approved@ ==> r
                    == Err::<(), Error>(Error::SelfDealing)
                &&& owner_view(old(self).owner_by_id.entries@, token_id) != approved@ ==> {
                    &&& r == Ok::<(), Error>(())
                    &&& approved_view(final(self).token_approvals.entries@, token_id) == (
                    if approved@ == 0 {
                        0
                    } else {
                        approved@
                    })
                    &&& forall|k2: Key| k2 != id_key(token_id) ==> tbl_get(
                        final(self).token_approvals.entries@,
                        k2,
                    ) == tbl_get(old(self).token_approvals.entries@, k2)
                    &&& final(self).events@.len() == old(self).events@.len() + 1
                }
            },
            r is Err ==> final(self).token_approvals.entries@ == old(
                self,
            ).token_approvals.entries@ && final(self).events@ == old(self).events@,
    {
        let owner = vnft::owner_of(&self.owner_by_id, token_id);
        match vnft::approve(&mut self.token_approvals, source, owner, approved, token_id) {
            Ok(_) => {},
            Err(e) => {
                return Err(e);
            },
        }
        self.events.push(Event::Approval { owner, approved, token_id });
        Ok(())
    }

    /// Moves `token_id` from its owner to `to` on behalf of `source`,
    /// clearing its approval and recording a `Transfer` event on success.
    pub fn transfer(&mut self, source: ActorId, to: ActorId, token_id: TokenId) -> (r: Result<
        (),
        Error,
    >)
        requires
            old(self).wf(),
        ensures
            final(self).wf(),
            final(self).name == old(self).name && final(self).symbol == old(self).symbol,
            owner_view(old(self).owner_by_id.entries@, token_id) == 0 ==> r == Err::<(), Error>(
                Error::TokenDoesNotExist,
            ),
            owner_view(old(self).owner_by_id.entries@, token_id) != 0 && !permitted(
                old(self).token_approvals.entries@,
                source,
                ActorId { id: owner_view(old(self).owner_by_id.entries@, token_id) },
                token_id,
            ) ==> r == Err::<(), Error>(Error::DeniedAccess),
            owner_view(old(self).owner_by_id.entries@, token_id) != 0 && permitted(
                old(self).token_approvals.entries@,
                source,
                ActorId { id: owner_view(old(self).owner_by_id.entries@, token_id) },
                token_id,
            ) ==> {
                &&& source@ == to@ ==> r == Err::<(), Error>(Error::SelfDealing)
                &&& source@ != to@ ==> {
                    &&& r == Ok::<(), Error>(())
                    &&& tbl_get(final(self).owner_by_id.entries@, id_key(token_id)) == Some(to)
                    &&& forall|k2: Key| k2 != id_key(token_id) ==> tbl_get(
                        final(self).owner_by_id.entries@,
                        k2,
                    ) == tbl_get(old(self).owner_by_id.entries@, k2)
                    &&& tbl_get(final(self).token_approvals.entries@, id_key(token_id)) is None
                    &&& forall|k2: Key| k2 != id_key(token_id) ==> tbl_get(
                        final(self).token_approvals.entries@,
                        k2,
                    ) == tbl_get(old(self).token_approvals.entries@, k2)
                    &&& final(self).events@ == old(self).events@.push(
                        Event::Transfer { from: source, to, token_id },
                    )
                }
            },
            r is Err ==> final(self).owner_by_id.entries@ == old(self).owner_by_id.entries@
                && final(self).token_approvals.entries@ == old(self).token_approvals.entries@
                && final(self).events@ == old(self).events@,
    {
        match vnft::transfer(&mut self.token_approvals, &mut self.owner_by_id, source, to, token_id)
        {
            Ok(_) => {},
            Err(e) => {
                return Err(e);
            },
        }
        self.events.push(Event::Transfer { from: source, to, token_id });
        Ok(())
    }

    /// Moves `token_id` from `from` to `to` on behalf of `source`,
    /// clearing its approval and recording a `Transfer` event on success.
    pub fn transfer_from(
        &mut self,
        source: ActorId,
        from: ActorId,
        to: ActorId,
        token_id: TokenId,
    ) -> (r: Result<(), Error>)
        requires
            old(self).wf(),
        ensures
            final(self).wf(),
            final(self).name == old(self).name && final(self).symbol == old(self).symbol,
            owner_view(old(self).owner_by_id.entries@, token_id) == 0 ==> r == Err::<(), Error>(
                Error::TokenDoesNotExist,
            ),
            owner_view(old(self).owner_by_id.entries@, token_id) != 0 && !permitted(
                old(self).token_approvals.entries@,
                source,
                ActorId { id: owner_view(old(self).owner_by_id.entries@, token_id) },
                token_id,
            ) ==> r == Err::<(), Error>(Error::DeniedAccess),
            owner_view(old(self).owner_by_id.entries@, token_id) != 0 && permitted(
                old(self).token_approvals.entries@,
                source,
                ActorId { id: owner_view(old(self).owner_by_id.entries@, token_id) },
                token_id,
            ) ==> {
                &&& from@ != owner_view(old(self).owner_by_id.entries@, token_id) ==> r == Err::<
                    (),
                    Error,
                >(Error::DeniedAccess)
                &&& from@ == owner_view(old(self).owner_by_id.entries@, token_id) && from@ == to@
                    ==> r == Err::<(), Error>(Error::SelfDealing)
                &&& from@ == owner_view(old(self).owner_by_id.entries@, token_id) && from@ != to@
                    ==> {
                    &&& r == Ok::<(), Error>(())
                    &&& tbl_get(final(self).owner_by_id.entries@, id_key(token_id)) == Some(to)
                    &&& forall|k2: Key| k2 != id_key(token_id) ==> tbl_get(
                        final(self).owner_by_id.entries@,
                        k2,
                    ) == tbl_get(old(self).owner_by_id.entries@, k2)
                    &&& tbl_get(final(self).token_approvals.entries@, id_key(token_id)) is None
                    &&& forall|k2: Key| k2 != id_key(token_id) ==> tbl_get(
                        final(self).token_approvals.entries@,
                        k2,
                    ) == tbl_get(old(self).token_approvals.entries@, k2)
                    &&& final(self).events@ == old(self).events@.push(
                        Event::Transfer { from, to, token_id },
                    )
                }
            },
            r is Err ==> final(self).owner_by_id.entries@ == old(self).owner_by_id.entries@
                && final(self).token_approvals.entries@ == old(self).token_approvals.entries@
                && final(self).events@ == old(self).events@,
    {
        match vnft::transfer_from(
            &mut self.token_approvals,
            &mut self.owner_by_id,
            source,
            from,
            to,
            token_id,
        ) {
            Ok(_) => {},
            Err(e) => {
                return Err(e);
            },
        }
        self.events.push(Event::Transfer { from, to, token_id });
        Ok(())
    }

    /// How many token ids `owner` currently owns.
    pub fn balance_of(&self, owner: ActorId) -> (r: U256)
        ensures
            r@ == tbl_count_val(self.owner_by_id.entries@, owner),
    {
        vnft::balance_of(&self.owner_by_id, owner)
    }

    /// The owner of `token_id`, or the zero account when no such token
    /// exists.
    pub fn owner_of(&self, token_id: TokenId) -> (r: ActorId)
        requires
            self.wf(),
        ensures
            r@ == owner_view(self.owner_by_id.entries@, token_id),
    {
        vnft::owner_of(&self.owner_by_id, token_id)
    }

    /// The approved operator for `token_id`, or the zero account.
    pub fn get_approved(&self, token_id: TokenId) -> (r: ActorId)
        requires
            self.wf(),
        ensures
            r@ == approved_view(self.token_approvals.entries@, token_id),
    {
        vnft::get_approved(&self.token_approvals, token_id)
    }

    pub fn name(&self) -> (r: &String)
        ensures
            r == &self.name,
    {
        &self.name
    }

    pub fn symbol(&self) -> (r: &String)
        ensures
            r == &self.symbol,
    {
        &self.symbol
    }
}

} // verus!
