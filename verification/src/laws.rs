//! The cross-cutting guarantees of the ledgers, stated and proved once,
//! over the same spec functions the operation contracts use.

use vstd::prelude::*;

use crate::actor::ActorId;
use crate::kv::{
    lemma_contains_iff_positive, lemma_get_le_sum, tbl_contains, tbl_sum, tbl_sum_group,
};
use crate::vft::{actor_key, balance_spec};
use crate::vmt::{group_of, supply_of, token_key, TokenId};

verus! {

/// A well-formed fungible ledger never stores a zero balance: a holder has
/// an entry exactly when its balance is positive, so absence is the only
/// representation of zero.
pub proof fn lemma_no_zero_balance_entry(s: &crate::vft_service::Service, a: ActorId)
    requires
        s.wf(),
    ensures
        tbl_contains(s.balances.entries@, actor_key(a)) <==> balance_spec(s.balances.entries@, a)
            > 0,
{
    lemma_contains_iff_positive(s.balances.entries@, actor_key(a));
}

/// In a well-formed fungible ledger the total supply equals the sum of all
/// holders' balances, and no single balance exceeds it.
pub proof fn lemma_supply_is_sum_of_balances(s: &crate::vft_service::Service, a: ActorId)
    requires
        s.wf(),
    ensures
        s.total_supply@ == tbl_sum(s.balances.entries@),
        balance_spec(s.balances.entries@, a) <= s.total_supply@,
{
    lemma_get_le_sum(s.balances.entries@, actor_key(a));
}

/// A well-formed multi-token ledger never stores a zero balance either: a
/// (token id, holder) entry exists exactly when that balance is positive.
pub proof fn lemma_no_zero_token_balance_entry(
    s: &crate::vmt_service::Service,
    id: TokenId,
    h: ActorId,
)
    requires
        s.wf(),
    ensures
        tbl_contains(s.balances.entries@, token_key(id, h)) <==> crate::vmt::token_balance(
            s.balances.entries@,
            id,
            h,
        ) > 0,
{
    lemma_contains_iff_positive(s.balances.entries@, token_key(id, h));
}

/// In a well-formed multi-token ledger, every token id's total supply
/// equals the sum over all holders of that id's balances, and no single
/// balance exceeds it.
pub proof fn lemma_token_supply_is_sum_of_balances(
    s: &crate::vmt_service::Service,
    id: TokenId,
    h: ActorId,
)
    requires
        s.wf(),
    ensures
        supply_of(s.total_supply.entries@, id) == tbl_sum_group(s.balances.entries@, group_of(id)),
        crate::vmt::token_balance(s.balances.entries@, id, h) <= supply_of(
            s.total_supply.entries@,
            id,
        ),
{
    crate::kv::lemma_get_le_sum_group(s.balances.entries@, token_key(id, h));
}

} // verus!
