//! The multi-token ledger core: a balance per holder per token id, a total
//! supply per token id, and blanket operator approvals (an operator may
//! move any of the owner's tokens; authorization is binary and never
//! consumed).

use vstd::prelude::*;

use crate::actor::ActorId;
use crate::kv::{
    lemma_contains_iff_get, lemma_contains_iff_positive, lemma_get_at_index, lemma_qwf_push,
    lemma_qwf_remove, lemma_sum_group_push, lemma_sum_group_remove, quantity_of, tbl_contains,
    tbl_get, tbl_sum_group, tbl_wf, Key, Table,
};
use crate::u256::{u256_limit, NonZeroU256, U256};
use crate::vft::map_wf;

verus! {

/// A token identifier.
pub type TokenId = U256;

/// Why a multi-token transfer or approval was refused. Every refusal
/// leaves the ledger exactly as it was.
#[derive(Clone, Copy, Debug, PartialEq, Eq, Structural)]
pub enum Error {
    InsufficientAllowance,
    InsufficientBalance,
    NumericOverflow,
    Underflow,
    ZeroAddress,
    SenderAndRecipientAddressesAreSame,
    CallerIsNotOwnerOrApproved,
    LengthMismatch,
}

/// (token id, holder) to non-zero balance.
pub type TokenBalancesMap = Table<NonZeroU256>;

/// Token id to non-zero total supply.
pub type TotalSupplyMap = Table<NonZeroU256>;

/// The set of (owner, operator) pairs: blanket approvals.
pub type OperatorsMap = Table<()>;

/// The table key under which `holder`'s balance of token `id` is stored.
pub open spec fn token_key(id: TokenId, holder: ActorId) -> Key {
    (id.lo, id.hi, holder.id)
}

/// The table key of a per-token-id record (supply, metadata, owner).
pub open spec fn id_key(id: TokenId) -> Key {
    (id.lo, id.hi, 0)
}

/// The group of all balance keys of one token id.
pub open spec fn group_of(id: TokenId) -> (u128, u128) {
    (id.lo, id.hi)
}

/// The table key of an owner-to-operator approval.
pub open spec fn operator_key(owner: ActorId, operator: ActorId) -> Key {
    (owner.id, operator.id, 0)
}

/// The balance of `holder` for token `id`, with absence read as zero.
pub open spec fn token_balance(s: Seq<(Key, NonZeroU256)>, id: TokenId, holder: ActorId) -> nat {
    quantity_of(tbl_get(s, token_key(id, holder)))
}

/// The total supply of token `id`, with absence read as zero.
pub open spec fn supply_of(s: Seq<(Key, NonZeroU256)>, id: TokenId) -> nat {
    quantity_of(tbl_get(s, id_key(id)))
}

/// Whether `operator` holds a blanket approval from `owner`.
pub open spec fn approved_spec(s: Seq<(Key, ())>, owner: ActorId, operator: ActorId) -> bool {
    tbl_contains(s, operator_key(owner, operator))
}

/// Returns the balance of `account` for token `id`.
pub fn get_balance(balances: &TokenBalancesMap, account: &ActorId, id: &TokenId) -> (r: U256)
    requires
        tbl_wf(balances.entries@),
    ensures
        r@ == token_balance(balances.entries@, *id, *account),
{
    match balances.get((id.lo, id.hi, account.id)) {
        Some(v) => v.get(),
        None => U256::zero(),
    }
}

/// Whether `operator` is approved to move any of `account`'s tokens.
pub fn is_approved(allowances: &OperatorsMap, account: &ActorId, operator: &ActorId) -> (r: bool)
    ensures
        r <==> approved_spec(allowances.entries@, *account, *operator),
{
    allowances.contains_key((account.id, operator.id, 0u128))
}

/// Grants `to` blanket approval over every token `owner` holds. A
/// self-approval is a no-op reported as `Ok(false)`; approving the zero
/// account is refused with `ZeroAddress`.
pub fn approve(allowances: &mut OperatorsMap, owner: ActorId, to: ActorId) -> (r: Result<
    bool,
    Error,
>)
    requires
        tbl_wf(old(allowances).entries@),
    ensures
        tbl_wf(final(allowances).entries@),
        owner@ == to@ ==> r == Ok::<bool, Error>(false) && final(allowances).entries@ == old(allowances).entries@,
        owner@ != to@ && to@ == 0 ==> r == Err::<bool, Error>(Error::ZeroAddress) && final(allowances).entries@ == old(allowances).entries@,
        owner@ != to@ && to@ != 0 ==> {
            &&& r == Ok::<bool, Error>(true)
            &&& approved_spec(final(allowances).entries@, owner, to)
            &&& forall|o2: ActorId, p2: ActorId| o2@ != owner@ || p2@ != to@ ==> (approved_spec(
                final(allowances).entries@,
                o2,
                p2,
            ) <==> approved_spec(old(allowances).entries@, o2, p2))
        },
{
    if owner == to {
        return Ok(false);
    }
    if to.is_zero() {
        return Err(Error::ZeroAddress);
    }
    allowances.insert((owner.id, to.id, 0u128), ());
    Ok(true)
}

/// Stores `value` as the balance under `k`, or removes the entry when
/// `value` is zero, and reports the effect on every lookup and every
/// per-token-id sum.
pub fn store_token_quantity(map: &mut Table<NonZeroU256>, k: Key, value: U256)
    requires
        map_wf(old(map).entries@),
    ensures
        map_wf(final(map).entries@),
        quantity_of(tbl_get(final(map).entries@, k)) == value@,
        tbl_contains(final(map).entries@, k) <==> value@ > 0,
        forall|k2: Key| k2 != k ==> tbl_get(final(map).entries@, k2) == tbl_get(
            old(map).entries@,
            k2,
        ),
        forall|k2: Key|
            k2 != k ==> (tbl_contains(final(map).entries@, k2) <==> tbl_contains(
                old(map).entries@,
                k2,
            )),
        forall|g: (u128, u128)| #[trigger] tbl_sum_group(final(map).entries@, g) == tbl_sum_group(
            old(map).entries@,
            g,
        ) + (if (k.0, k.1) == g {
            value@ - quantity_of(tbl_get(old(map).entries@, k))
        } else {
            0int
        }),
{
    let ghost s0 = map.entries@;
    proof {
        lemma_contains_iff_get(s0, k);
    }
    match NonZeroU256::new(value) {
        Some(nz) => {
            map.insert(k, nz);
            proof {
                if tbl_contains(s0, k) {
                    let i = choose|i: int|
                        0 <= i < s0.len() && s0[i].0 == k && map.entries@ == #[trigger] s0.remove(
                            i,
                        ).push((k, nz));
                    lemma_get_at_index(s0, i);
                    lemma_qwf_remove(s0, i);
                    lemma_qwf_push(s0.remove(i), (k, nz));
                    assert forall|g: (u128, u128)| #[trigger] tbl_sum_group(map.entries@, g)
                        == tbl_sum_group(s0, g) + (if (k.0, k.1) == g {
                        value@ - quantity_of(tbl_get(s0, k))
                    } else {
                        0int
                    }) by {
                        lemma_sum_group_remove(s0, i, g);
                        lemma_sum_group_push(s0.remove(i), (k, nz), g);
                    }
                } else {
                    lemma_qwf_push(s0, (k, nz));
                    assert forall|g: (u128, u128)| #[trigger] tbl_sum_group(map.entries@, g)
                        == tbl_sum_group(s0, g) + (if (k.0, k.1) == g {
                        value@ - quantity_of(tbl_get(s0, k))
                    } else {
                        0int
                    }) by {
                        lemma_sum_group_push(s0, (k, nz), g);
                    }
                }
                lemma_contains_iff_positive(map.entries@, k);
            }
        },
        None => {
            map.remove(k);
            proof {
                if tbl_contains(s0, k) {
                    let i = choose|i: int|
                        0 <= i < s0.len() && s0[i].0 == k && map.entries@ == #[trigger] s0.remove(
                            i,
                        );
                    lemma_get_at_index(s0, i);
                    lemma_qwf_remove(s0, i);
                    assert forall|g: (u128, u128)| #[trigger] tbl_sum_group(map.entries@, g)
                        == tbl_sum_group(s0, g) + (if (k.0, k.1) == g {
                        value@ - quantity_of(tbl_get(s0, k))
                    } else {
                        0int
                    }) by {
                        lemma_sum_group_remove(s0, i, g);
                    }
                }
            }
        },
    }
}

/// The mathematical content of a token balances table: every holder's
/// balance of every token id.
pub open spec fn token_balances_model(s: Seq<(Key, NonZeroU256)>) -> Map<(TokenId, ActorId), nat> {
    Map::total(|p: (TokenId, ActorId)| token_balance(s, p.0, p.1))
}

/// A batch transfer, token by token: the resulting balances, or the error
/// of the first step that cannot be carried out.
pub open spec fn spec_batch_transfer(
    b: Map<(TokenId, ActorId), nat>,
    from: ActorId,
    to: ActorId,
    ids: Seq<TokenId>,
    amounts: Seq<U256>,
) -> Result<Map<(TokenId, ActorId), nat>, Error>
    decreases ids.len(),
{
    if ids.len() == 0 {
        Ok(b)
    } else {
        let id = ids[0];
        let a = amounts[0]@;
        let bf = b[(id, from)];
        let bt = b[(id, to)];
        if a == 0 {
            spec_batch_transfer(b, from, to, ids.drop_first(), amounts.drop_first())
        } else if bf < a {
            Err(Error::InsufficientBalance)
        } else if bt + a >= u256_limit() {
            Err(Error::NumericOverflow)
        } else {
            spec_batch_transfer(
                b.insert((id, from), (bf - a) as nat).insert((id, to), (bt + a) as nat),
                from,
                to,
                ids.drop_first(),
                amounts.drop_first(),
            )
        }
    }
}

/// Moves `amount` of token `id` from `from` to `to`: one step of a batch
/// transfer, leaving every per-token-id sum unchanged.
fn transfer_step(
    balances: &mut TokenBalancesMap,
    from: ActorId,
    to: ActorId,
    id: TokenId,
    amount: U256,
) -> (r: Result<(), Error>)
    requires
        map_wf(old(balances).entries@),
        from@ != to@,
    ensures
        map_wf(final(balances).entries@),
        amount@ == 0 ==> r == Ok::<(), Error>(()),
        amount@ > 0 && amount@ > token_balance(old(balances).entries@, id, from) ==> r
            == Err::<(), Error>(Error::InsufficientBalance),
        amount@ > 0 && amount@ <= token_balance(old(balances).entries@, id, from)
            && token_balance(old(balances).entries@, id, to) + amount@ >= u256_limit() ==> r
            == Err::<(), Error>(Error::NumericOverflow),
        amount@ > 0 && amount@ <= token_balance(old(balances).entries@, id, from)
            && token_balance(old(balances).entries@, id, to) + amount@ < u256_limit() ==> r
            == Ok::<(), Error>(()),
        r is Ok && amount@ > 0 ==> {
            &&& token_balance(final(balances).entries@, id, from) == token_balance(
                old(balances).entries@,
                id,
                from,
            ) - amount@
            &&& token_balance(final(balances).entries@, id, to) == token_balance(
                old(balances).entries@,
                id,
                to,
            ) + amount@
            &&& forall|k2: Key|
                k2 != token_key(id, from) && k2 != token_key(id, to) ==> tbl_get(
                    final(balances).entries@,
                    k2,
                ) == tbl_get(old(balances).entries@, k2)
            &&& forall|g: (u128, u128)| #[trigger] tbl_sum_group(final(balances).entries@, g)
                == tbl_sum_group(old(balances).entries@, g)
        },
        r is Err || amount@ == 0 ==> final(balances).entries@ == old(balances).entries@,
{
    if amount.is_zero() {
        return Ok(());
    }
    let new_from = match get_balance(balances, &from, &id).checked_sub(&amount) {
        Some(v) => v,
        None => {
            return Err(Error::InsufficientBalance);
        },
    };
    let new_to = match get_balance(balances, &to, &id).checked_add(&amount) {
        Some(v) => v,
        None => {
            return Err(Error::NumericOverflow);
        },
    };
    store_token_quantity(balances, (id.lo, id.hi, from.id), new_from);
    store_token_quantity(balances, (id.lo, id.hi, to.id), new_to);
    Ok(())
}

/// Moves the listed amounts of the listed token ids from `from` to `to`,
/// atomically: either every step is carried out, or the ledger is left
/// untouched. The caller `msg_src` must be the holder or hold a blanket
/// approval from the holder; the recipient must be a distinct, non-zero
/// account; the two lists must have one amount per id.
pub fn transfer_from(
    balances: &mut TokenBalancesMap,
    allowances: &OperatorsMap,
    msg_src: ActorId,
    from: ActorId,
    to: ActorId,
    ids: &Vec<TokenId>,
    amounts: &Vec<U256>,
) -> (r: Result<(), Error>)
    requires
        map_wf(old(balances).entries@),
        tbl_wf(allowances.entries@),
    ensures
        map_wf(final(balances).entries@),
        from@ == to@ ==> r == Err::<(), Error>(Error::SenderAndRecipientAddressesAreSame),
        from@ != to@ && from@ != msg_src@ && !approved_spec(allowances.entries@, from, msg_src)
            ==> r == Err::<(), Error>(Error::CallerIsNotOwnerOrApproved),
        from@ != to@ && (from@ == msg_src@ || approved_spec(allowances.entries@, from, msg_src))
            ==> {
            &&& to@ == 0 ==> r == Err::<(), Error>(Error::ZeroAddress)
            &&& to@ != 0 && ids@.len() != amounts@.len() ==> r == Err::<(), Error>(
                Error::LengthMismatch,
            )
            &&& to@ != 0 && ids@.len() == amounts@.len() ==> match spec_batch_transfer(
                token_balances_model(old(balances).entries@),
                from,
                to,
                ids@,
                amounts@,
            ) {
                Ok(m) => {
                    &&& r == Ok::<(), Error>(())
                    &&& token_balances_model(final(balances).entries@) == m
                    &&& forall|g: (u128, u128)| #[trigger] tbl_sum_group(
                        final(balances).entries@,
                        g,
                    ) == tbl_sum_group(old(balances).entries@, g)
                },
                Err(e) => r == Err::<(), Error>(e),
            }
        },
        r is Err ==> final(balances).entries@ == old(balances).entries@,
{
    if from == to {
        return Err(Error::SenderAndRecipientAddressesAreSame);
    }
    if from != msg_src && !is_approved(allowances, &from, &msg_src) {
        return Err(Error::CallerIsNotOwnerOrApproved);
    }
    if to.is_zero() {
        return Err(Error::ZeroAddress);
    }
    if ids.len() != amounts.len() {
        return Err(Error::LengthMismatch);
    }
    let ghost b0 = balances.entries@;
    let mut scratch = balances.duplicate();
    let n = ids.len();
    let mut i: usize = 0;
    proof {
        assert(ids@.skip(0) =~= ids@);
        assert(amounts@.skip(0) =~= amounts@);
    }
    while i < n
        invariant
            i <= n,
            n == ids@.len(),
            n == amounts@.len(),
            from@ != to@,
            to@ != 0,
            from@ != msg_src@ ==> approved_spec(allowances.entries@, from, msg_src),
            map_wf(scratch.entries@),
            balances.entries@ == b0,
            b0 == old(balances).entries@,
            map_wf(b0),
            forall|g: (u128, u128)| #[trigger] tbl_sum_group(scratch.entries@, g) == tbl_sum_group(
                b0,
                g,
            ),
            spec_batch_transfer(
                token_balances_model(scratch.entries@),
                from,
                to,
                ids@.skip(i as int),
                amounts@.skip(i as int),
            ) == spec_batch_transfer(token_balances_model(b0), from, to, ids@, amounts@),
        decreases n - i,
    {
        let id = ids[i];
        let a = amounts[i];
        let ghost scratch_pre = scratch.entries@;
        proof {
            assert(ids@.skip(i as int)[0] == id);
            assert(amounts@.skip(i as int)[0] == a);
            assert(ids@.skip(i as int).drop_first() =~= ids@.skip(i + 1));
            assert(amounts@.skip(i as int).drop_first() =~= amounts@.skip(i + 1));
            assert(token_balances_model(scratch_pre)[(id, from)] == token_balance(
                scratch_pre,
                id,
                from,
            ));
            assert(token_balances_model(scratch_pre)[(id, to)] == token_balance(
                scratch_pre,
                id,
                to,
            ));
        }
        match transfer_step(&mut scratch, from, to, id, a) {
            Ok(_) => {
                proof {
                    if a@ > 0 {
                        let bf = token_balance(scratch_pre, id, from);
                        let bt = token_balance(scratch_pre, id, to);
                        assert(token_balances_model(scratch.entries@) =~= token_balances_model(
                            scratch_pre,
                        ).insert((id, from), (bf - a@) as nat).insert((id, to), (bt + a@) as nat))
                            by {
                            assert forall|p: (TokenId, ActorId)|
                                token_balances_model(scratch.entries@)[p] == token_balances_model(
                                    scratch_pre,
                                ).insert((id, from), (bf - a@) as nat).insert(
                                    (id, to),
                                    (bt + a@) as nat,
                                )[p] by {
                                if p != (id, from) && p != (id, to) {
                                    assert(token_key(p.0, p.1) != token_key(id, from)
                                        && token_key(p.0, p.1) != token_key(id, to));
                                }
                            }
                        }
                    }
                }
            },
            Err(e) => {
                proof {
                    assert(spec_batch_transfer(
                        token_balances_model(scratch_pre),
                        from,
                        to,
                        ids@.skip(i as int),
                        amounts@.skip(i as int),
                    ) == Err::<Map<(TokenId, ActorId), nat>, Error>(e));
                }
                return Err(e);
            },
        }
        i = i + 1;
    }
    proof {
        assert(ids@.skip(n as int) =~= Seq::<TokenId>::empty());
        assert(amounts@.skip(n as int) =~= Seq::<U256>::empty());
    }
    *balances = scratch;
    Ok(())
}

} // verus!
