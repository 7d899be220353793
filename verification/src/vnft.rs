//! The non-fungible ledger core: each token id has at most one owner and
//! at most one approved operator, and every successful transfer of an id
//! clears that id's approval.

use vstd::prelude::*;

use crate::actor::ActorId;
use crate::kv::{lemma_count_push, tbl_count_val, tbl_get, tbl_wf, Key, Table};
use crate::u256::U256;
use crate::vmt::id_key;

verus! {

/// A token identifier.
pub type TokenId = U256;

/// Why a non-fungible ledger operation was refused. Every refusal leaves
/// the ledger exactly as it was.
#[derive(Clone, Copy, Debug, PartialEq, Eq, Structural)]
pub enum Error {
    SelfDealing,
    TokenDoesNotExist,
    DeniedAccess,
    NoTokens,
}

/// Token id to current owner.
pub type OwnerByIdMap = Table<ActorId>;

/// Token id to the single approved operator, cleared on every transfer.
pub type ApprovalsMap = Table<ActorId>;

/// The owner recorded for `id`, with absence read as the zero account.
pub open spec fn owner_view(s: Seq<(Key, ActorId)>, id: TokenId) -> u128 {
    match tbl_get(s, id_key(id)) {
        Some(a) => a@,
        None => 0,
    }
}

/// The approved operator recorded for `id`, with absence read as the zero
/// account.
pub open spec fn approved_view(s: Seq<(Key, ActorId)>, id: TokenId) -> u128 {
    match tbl_get(s, id_key(id)) {
        Some(a) => a@,
        None => 0,
    }
}

/// Whether `source` may operate on `id`: it is the owner, or it is the
/// operator approved for `id`.
pub open spec fn permitted(ap: Seq<(Key, ActorId)>, source: ActorId, owner: ActorId, id: TokenId) -> bool {
    owner@ == source@ || (tbl_get(ap, id_key(id)) matches Some(a) && a@ == source@)
}

/// Returns the owner of `token_id`, or the zero account when no such token
/// exists.
pub fn owner_of(owner_by_id: &OwnerByIdMap, token_id: TokenId) -> (r: ActorId)
    requires
        tbl_wf(owner_by_id.entries@),
    ensures
        r@ == owner_view(owner_by_id.entries@, token_id),
{
    match owner_by_id.get((token_id.lo, token_id.hi, 0u128)) {
        Some(a) => *a,
        None => ActorId::zero(),
    }
}

/// Returns how many token ids `owner` currently owns.
pub fn balance_of(owner_by_id: &OwnerByIdMap, owner: ActorId) -> (r: U256)
    ensures
        r@ == tbl_count_val(owner_by_id.entries@, owner),
{
    let n = owner_by_id.entries.len();
    let mut count: usize = 0;
    let mut i: usize = 0;
    proof {
        assert(owner_by_id.entries@.take(0) =~= Seq::<(Key, ActorId)>::empty());
    }
    while i < n
        invariant
            i <= n,
            count <= i,
            n == owner_by_id.entries@.len(),
            count == tbl_count_val(owner_by_id.entries@.take(i as int), owner),
        decreases n - i,
    {
        let e = &owner_by_id.entries[i];
        proof {
            assert(owner_by_id.entries@.take(i + 1) =~= owner_by_id.entries@.take(i as int).push(
                owner_by_id.entries@[i as int],
            ));
            lemma_count_push(
                owner_by_id.entries@.take(i as int),
                owner_by_id.entries@[i as int],
                owner,
            );
        }
        if e.1.id == owner.id {
            count = count + 1;
        }
        i = i + 1;
    }
    proof {
        assert(owner_by_id.entries@.take(n as int) =~= owner_by_id.entries@);
    }
    U256::from_u128(count as u128)
}

/// Returns the approved operator for `token_id`, or the zero account when
/// none is recorded.
pub fn get_approved(approvals: &ApprovalsMap, token_id: TokenId) -> (r: ActorId)
    requires
        tbl_wf(approvals.entries@),
    ensures
        r@ == approved_view(approvals.entries@, token_id),
{
    match approvals.get((token_id.lo, token_id.hi, 0u128)) {
        Some(a) => *a,
        None => ActorId::zero(),
    }
}

/// Checks that `source` may operate on `token_id`: the token must exist
/// (`owner` non-zero) and `source` must be its owner or its approved
/// operator.
fn check_permission(
    source: &ActorId,
    owner: &ActorId,
    token_id: TokenId,
    approvals: &ApprovalsMap,
) -> (r: Result<(), Error>)
    requires
        tbl_wf(approvals.entries@),
    ensures
        owner@ == 0 ==> r == Err::<(), Error>(Error::TokenDoesNotExist),
        owner@ != 0 && !permitted(approvals.entries@, *source, *owner, token_id) ==> r
            == Err::<(), Error>(Error::DeniedAccess),
        owner@ != 0 && permitted(approvals.entries@, *source, *owner, token_id) ==> r
            == Ok::<(), Error>(()),
{
    if owner.is_zero() {
        return Err(Error::TokenDoesNotExist);
    }
    if owner.id == source.id {
        return Ok(());
    }
    match approvals.get((token_id.lo, token_id.hi, 0u128)) {
        Some(a) => {
            if a.id == source.id {
                Ok(())
            } else {
                Err(Error::DeniedAccess)
            }
        },
        None => Err(Error::DeniedAccess),
    }
}

/// Sets or clears the approved operator for `token_id`. The caller
/// `source` must be the owner or the currently approved operator; the
/// owner cannot approve itself; approving the zero account clears the
/// slot.
pub fn approve(
    approvals: &mut ApprovalsMap,
    source: ActorId,
    owner: ActorId,
    approved: ActorId,
    token_id: TokenId,
) -> (r: Result<(), Error>)
    requires
        tbl_wf(old(approvals).entries@),
    ensures
        tbl_wf(final(approvals).entries@),
        owner@ == 0 ==> r == Err::<(), Error>(Error::TokenDoesNotExist),
        owner@ != 0 && !permitted(old(approvals).entries@, source, owner, token_id) ==> r
            == Err::<(), Error>(Error::DeniedAccess),
        owner@ != 0 && permitted(old(approvals).entries@, source, owner, token_id) && owner@
            == approved@ ==> r == Err::<(), Error>(Error::SelfDealing),
        owner@ != 0 && permitted(old(approvals).entries@, source, owner, token_id) && owner@
            != approved@ ==> {
            &&& r == Ok::<(), Error>(())
            &&& approved@ == 0 ==> tbl_get(final(approvals).entries@, id_key(token_id)) is None
            &&& approved@ != 0 ==> tbl_get(final(approvals).entries@, id_key(token_id)) == Some(
                approved,
            )
            &&& forall|k2: Key| k2 != id_key(token_id) ==> tbl_get(final(approvals).entries@, k2)
                == tbl_get(old(approvals).entries@, k2)
        },
        r is Err ==> final(approvals).entries@ == old(approvals).entries@,
{
    match check_permission(&source, &owner, token_id, approvals) {
        Ok(_) => {},
        Err(e) => {
            return Err(e);
        },
    }
    if owner == approved {
        return Err(Error::SelfDealing);
    }
    if approved.is_zero() {
        approvals.remove((token_id.lo, token_id.hi, 0u128));
    } else {
        approvals.insert((token_id.lo, token_id.hi, 0u128), approved);
    }
    Ok(())
}

/// Moves `token_id` from its current owner to `to` and clears the token's
/// approval. The caller `source` must be the owner or the approved
/// operator, and may not send to itself.
pub fn transfer(
    approvals: &mut ApprovalsMap,
    owner_by_id: &mut OwnerByIdMap,
    source: ActorId,
    to: ActorId,
    token_id: TokenId,
) -> (r: Result<(), Error>)
    requires
        tbl_wf(old(approvals).entries@),
        tbl_wf(old(owner_by_id).entries@),
    ensures
        tbl_wf(final(approvals).entries@),
        tbl_wf(final(owner_by_id).entries@),
        owner_view(old(owner_by_id).entries@, token_id) == 0 ==> r == Err::<(), Error>(
            Error::TokenDoesNotExist,
        ),
        owner_view(old(owner_by_id).entries@, token_id) != 0 && !permitted(
            old(approvals).entries@,
            source,
            ActorId { id: owner_view(old(owner_by_id).entries@, token_id) },
            token_id,
        ) ==> r == Err::<(), Error>(Error::DeniedAccess),
        owner_view(old(owner_by_id).entries@, token_id) != 0 && permitted(
            old(approvals).entries@,
            source,
            ActorId { id: owner_view(old(owner_by_id).entries@, token_id) },
            token_id,
        ) && source@ == to@ ==> r == Err::<(), Error>(Error::SelfDealing),
        owner_view(old(owner_by_id).entries@, token_id) != 0 && permitted(
            old(approvals).entries@,
            source,
            ActorId { id: owner_view(old(owner_by_id).entries@, token_id) },
            token_id,
        ) && source@ != to@ ==> {
            &&& r == Ok::<(), Error>(())
            &&& tbl_get(final(owner_by_id).entries@, id_key(token_id)) == Some(to)
            &&& forall|k2: Key| k2 != id_key(token_id) ==> tbl_get(final(owner_by_id).entries@, k2)
                == tbl_get(old(owner_by_id).entries@, k2)
            &&& tbl_get(final(approvals).entries@, id_key(token_id)) is None
            &&& forall|k2: Key| k2 != id_key(token_id) ==> tbl_get(final(approvals).entries@, k2)
                == tbl_get(old(approvals).entries@, k2)
        },
        r is Err ==> final(approvals).entries@ == old(approvals).entries@ && final(owner_by_id).entries@ == old(owner_by_id).entries@,
{
    let owner = owner_of(owner_by_id, token_id);
    match check_permission(&source, &owner, token_id, approvals) {
        Ok(_) => {},
        Err(e) => {
            return Err(e);
        },
    }
    if source == to {
        return Err(Error::SelfDealing);
    }
    owner_by_id.insert((token_id.lo, token_id.hi, 0u128), to);
    approvals.remove((token_id.lo, token_id.hi, 0u128));
    Ok(())
}

/// Moves `token_id` from `from` to `to` on behalf of `source`, clearing
/// the token's approval. `from` must be the current owner; `source` must
/// be the owner or the approved operator; and the two ends must differ.
pub fn transfer_from(
    approvals: &mut ApprovalsMap,
    owner_by_id: &mut OwnerByIdMap,
    source: ActorId,
    from: ActorId,
    to: ActorId,
    token_id: TokenId,
) -> (r: Result<(), Error>)
    requires
        tbl_wf(old(approvals).entries@),
        tbl_wf(old(owner_by_id).entries@),
    ensures
        tbl_wf(final(approvals).entries@),
        tbl_wf(final(owner_by_id).entries@),
        owner_view(old(owner_by_id).entries@, token_id) == 0 ==> r == Err::<(), Error>(
            Error::TokenDoesNotExist,
        ),
        owner_view(old(owner_by_id).entries@, token_id) != 0 && !permitted(
            old(approvals).entries@,
            source,
            ActorId { id: owner_view(old(owner_by_id).entries@, token_id) },
            token_id,
        ) ==> r == Err::<(), Error>(Error::DeniedAccess),
        owner_view(old(owner_by_id).entries@, token_id) != 0 && permitted(
            old(approvals).entries@,
            source,
            ActorId { id: owner_view(old(owner_by_id).entries@, token_id) },
            token_id,
        ) ==> {
            &&& from@ != owner_view(old(owner_by_id).entries@, token_id) ==> r == Err::<
                (),
                Error,
            >(Error::DeniedAccess)
            &&& from@ == owner_view(old(owner_by_id).entries@, token_id) && from@ == to@ ==> r
                == Err::<(), Error>(Error::SelfDealing)
            &&& from@ == owner_view(old(owner_by_id).entries@, token_id) && from@ != to@ ==> {
                &&& r == Ok::<(), Error>(())
                &&& tbl_get(final(owner_by_id).entries@, id_key(token_id)) == Some(to)
                &&& forall|k2: Key| k2 != id_key(token_id) ==> tbl_get(
                    final(owner_by_id).entries@,
                    k2,
                ) == tbl_get(old(owner_by_id).entries@, k2)
                &&& tbl_get(final(approvals).entries@, id_key(token_id)) is None
                &&& forall|k2: Key| k2 != id_key(token_id) ==> tbl_get(
                    final(approvals).entries@,
                    k2,
                ) == tbl_get(old(approvals).entries@, k2)
            }
        },
        r is Err ==> final(approvals).entries@ == old(approvals).entries@ && final(owner_by_id).entries@ == old(owner_by_id).entries@,
{
    let owner = owner_of(owner_by_id, token_id);
    match check_permission(&source, &owner, token_id, approvals) {
        Ok(_) => {},
        Err(e) => {
            return Err(e);
        },
    }
    if from != owner {
        return Err(Error::DeniedAccess);
    }
    if from == to {
        return Err(Error::SelfDealing);
    }
    owner_by_id.insert((token_id.lo, token_id.hi, 0u128), to);
    approvals.remove((token_id.lo, token_id.hi, 0u128));
    Ok(())
}

} // verus!
