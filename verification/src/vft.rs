//! The fungible ledger core: one balance per holder, a single total supply,
//! and quantity-scoped allowances. These are the pure transition functions;
//! they mutate only the maps they are given and report exactly what changed.

use vstd::prelude::*;

use crate::actor::ActorId;
use crate::kv::{
    lemma_contains_iff_get, lemma_contains_iff_positive, lemma_get_at_index, lemma_qwf_push,
    lemma_qwf_remove, lemma_sum_push, lemma_sum_remove, quantity_of, tbl_contains, tbl_get,
    tbl_quantities_wf, tbl_sum, tbl_wf, Key, Table,
};
use crate::u256::{u256_limit, NonZeroU256, U256};

verus! {

/// Why a fungible ledger operation was refused. Every refusal leaves the
/// ledger exactly as it was.
#[derive(Clone, Copy, Debug, PartialEq, Eq, Structural)]
pub enum Error {
    InsufficientAllowance,
    InsufficientBalance,
    NumericOverflow,
    Underflow,
    InvalidInput,
}

/// Holder account to non-zero balance.
pub type BalancesMap = Table<NonZeroU256>;

/// (owner, spender) to non-zero authorized quantity.
pub type AllowancesMap = Table<NonZeroU256>;

/// The table key under which a holder's balance is stored.
pub open spec fn actor_key(a: ActorId) -> Key {
    (a.id, 0, 0)
}

/// The table key under which an owner-to-spender allowance is stored.
pub open spec fn allowance_key(owner: ActorId, spender: ActorId) -> Key {
    (owner.id, spender.id, 0)
}

/// A balances or allowances table is well formed when its keys are unique
/// and no stored quantity is zero.
pub open spec fn map_wf(s: Seq<(Key, NonZeroU256)>) -> bool {
    tbl_wf(s) && tbl_quantities_wf(s)
}

/// The balance of `a`: the stored quantity, or zero when no entry exists.
pub open spec fn balance_spec(s: Seq<(Key, NonZeroU256)>, a: ActorId) -> nat {
    quantity_of(tbl_get(s, actor_key(a)))
}

/// The allowance from `owner` to `spender`, or zero when no entry exists.
pub open spec fn allowance_spec(s: Seq<(Key, NonZeroU256)>, owner: ActorId, spender: ActorId) -> nat {
    quantity_of(tbl_get(s, allowance_key(owner, spender)))
}

/// Whether minting `value` can be accounted: neither the total supply nor
/// the recipient's balance may leave 256 bits.
pub open spec fn mint_fits(s: Seq<(Key, NonZeroU256)>, supply: nat, to: ActorId, value: nat) -> bool {
    supply + value < u256_limit() && balance_spec(s, to) + value < u256_limit()
}

/// Returns the balance of `account`; absent holders have balance zero.
pub fn balance_of(balances: &BalancesMap, account: ActorId) -> (r: U256)
    requires
        tbl_wf(balances.entries@),
    ensures
        r@ == balance_spec(balances.entries@, account),
{
    match balances.get((account.id, 0u128, 0u128)) {
        Some(v) => v.get(),
        None => U256::zero(),
    }
}

/// Returns the allowance from `owner` to `spender`; absent pairs are zero.
pub fn allowance(allowances: &AllowancesMap, owner: ActorId, spender: ActorId) -> (r: U256)
    requires
        tbl_wf(allowances.entries@),
    ensures
        r@ == allowance_spec(allowances.entries@, owner, spender),
{
    match allowances.get((owner.id, spender.id, 0u128)) {
        Some(v) => v.get(),
        None => U256::zero(),
    }
}

/// Stores `value` under `k`, or removes the entry when `value` is zero, and
/// reports the effect on balances, sum and presence.
fn store_quantity(map: &mut Table<NonZeroU256>, k: Key, value: U256)
    requires
        map_wf(old(map).entries@),
    ensures
        map_wf(final(map).entries@),
        quantity_of(tbl_get(final(map).entries@, k)) == value@,
        tbl_contains(final(map).entries@, k) <==> value@ > 0,
        forall|k2: Key| k2 != k ==> tbl_get(final(map).entries@, k2) == tbl_get(
            old(map).entries@,
            k2,
        ),
        forall|k2: Key|
            k2 != k ==> (tbl_contains(final(map).entries@, k2) <==> tbl_contains(
                old(map).entries@,
                k2,
            )),
        tbl_sum(final(map).entries@) == tbl_sum(old(map).entries@) - quantity_of(
            tbl_get(old(map).entries@, k),
        ) + value@,
{
    let ghost s0 = map.entries@;
    proof {
        lemma_contains_iff_get(s0, k);
    }
    match NonZeroU256::new(value) {
        Some(nz) => {
            map.insert(k, nz);
            proof {
                if tbl_contains(s0, k) {
                    let i = choose|i: int|
                        0 <= i < s0.len() && s0[i].0 == k && map.entries@ == #[trigger] s0.remove(
                            i,
                        ).push((k, nz));
                    lemma_get_at_index(s0, i);
                    lemma_sum_remove(s0, i);
                    lemma_sum_push(s0.remove(i), (k, nz));
                    lemma_qwf_remove(s0, i);
                    lemma_qwf_push(s0.remove(i), (k, nz));
                } else {
                    lemma_sum_push(s0, (k, nz));
                    lemma_qwf_push(s0, (k, nz));
                }
                lemma_contains_iff_positive(map.entries@, k);
            }
        },
        None => {
            map.remove(k);
            proof {
                if tbl_contains(s0, k) {
                    let i = choose|i: int|
                        0 <= i < s0.len() && s0[i].0 == k && map.entries@ == #[trigger] s0.remove(
                            i,
                        );
                    lemma_get_at_index(s0, i);
                    lemma_sum_remove(s0, i);
                    lemma_qwf_remove(s0, i);
                }
            }
        },
    }
}

/// Creates `value` new units for `to`: adds them to the total supply and to
/// the holder's balance. A zero `value` is a no-op reported as `Ok(false)`;
/// the operation fails with `NumericOverflow`, touching nothing, exactly
/// when the supply or the recipient's balance would leave 256 bits.
pub fn mint(balances: &mut BalancesMap, total_supply: &mut U256, to: ActorId, value: U256) -> (r:
    Result<bool, Error>)
    requires
        map_wf(old(balances).entries@),
    ensures
        map_wf(final(balances).entries@),
        value@ == 0 ==> r == Ok::<bool, Error>(false),
        value@ > 0 && !mint_fits(old(balances).entries@, old(total_supply)@, to, value@) ==> r
            == Err::<bool, Error>(Error::NumericOverflow),
        value@ > 0 && mint_fits(old(balances).entries@, old(total_supply)@, to, value@) ==> r
            == Ok::<bool, Error>(true),
        r == Ok::<bool, Error>(true) ==> {
            &&& final(total_supply)@ == old(total_supply)@ + value@
            &&& balance_spec(final(balances).entries@, to) == balance_spec(
                old(balances).entries@,
                to,
            ) + value@
            &&& forall|a: ActorId| a@ != to@ ==> balance_spec(final(balances).entries@, a)
                == balance_spec(old(balances).entries@, a)
            &&& tbl_sum(final(balances).entries@) == tbl_sum(old(balances).entries@) + value@
        },
        r != Ok::<bool, Error>(true) ==> final(balances).entries@ == old(balances).entries@
            && *final(total_supply) == *old(total_supply),
{
    if value.is_zero() {
        return Ok(false);
    }
    let new_total_supply = match total_supply.checked_add(&value) {
        Some(v) => v,
        None => {
            return Err(Error::NumericOverflow);
        },
    };
    let new_to = match balance_of(balances, to).checked_add(&value) {
        Some(v) => v,
        None => {
            return Err(Error::NumericOverflow);
        },
    };
    store_quantity(balances, (to.id, 0u128, 0u128), new_to);
    *total_supply = new_total_supply;
    Ok(true)
}

/// Destroys `value` units held by `from`: removes them from the total
/// supply and from the holder's balance, dropping the entry entirely when
/// the balance reaches zero. A zero `value` is a no-op reported as
/// `Ok(false)`. Fails with `Underflow` when `value` exceeds the total
/// supply, else with `InsufficientBalance` when `value` exceeds the
/// holder's balance; either failure touches nothing.
pub fn burn(balances: &mut BalancesMap, total_supply: &mut U256, from: ActorId, value: U256) -> (r:
    Result<bool, Error>)
    requires
        map_wf(old(balances).entries@),
    ensures
        map_wf(final(balances).entries@),
        value@ == 0 ==> r == Ok::<bool, Error>(false),
        value@ > old(total_supply)@ ==> r == Err::<bool, Error>(Error::Underflow),
        0 < value@ <= old(total_supply)@ && value@ > balance_spec(old(balances).entries@, from)
            ==> r == Err::<bool, Error>(Error::InsufficientBalance),
        0 < value@ <= old(total_supply)@ && value@ <= balance_spec(old(balances).entries@, from)
            ==> r == Ok::<bool, Error>(true),
        r == Ok::<bool, Error>(true) ==> {
            &&& final(total_supply)@ == old(total_supply)@ - value@
            &&& balance_spec(final(balances).entries@, from) == balance_spec(
                old(balances).entries@,
                from,
            ) - value@
            &&& (tbl_contains(final(balances).entries@, actor_key(from)) <==> balance_spec(
                old(balances).entries@,
                from,
            ) > value@)
            &&& forall|a: ActorId| a@ != from@ ==> balance_spec(final(balances).entries@, a)
                == balance_spec(old(balances).entries@, a)
            &&& tbl_sum(final(balances).entries@) == tbl_sum(old(balances).entries@) - value@
        },
        r != Ok::<bool, Error>(true) ==> final(balances).entries@ == old(balances).entries@
            && *final(total_supply) == *old(total_supply),
{
    if value.is_zero() {
        return Ok(false);
    }
    let new_total_supply = match total_supply.checked_sub(&value) {
        Some(v) => v,
        None => {
            return Err(Error::Underflow);
        },
    };
    let new_from = match balance_of(balances, from).checked_sub(&value) {
        Some(v) => v,
        None => {
            return Err(Error::InsufficientBalance);
        },
    };
    store_quantity(balances, (from.id, 0u128, 0u128), new_from);
    *total_supply = new_total_supply;
    Ok(true)
}

/// Moves `value` units from `from` to `to`, leaving the total of all
/// balances unchanged. A zero `value` or a self-transfer is a no-op
/// reported as `Ok(false)`. Fails with `InsufficientBalance` when `value`
/// exceeds the sender's balance, else with `NumericOverflow` when the
/// recipient's balance would leave 256 bits; either failure touches
/// nothing, so the sender is never debited without the recipient being
/// credited.
pub fn transfer(balances: &mut BalancesMap, from: ActorId, to: ActorId, value: U256) -> (r: Result<
    bool,
    Error,
>)
    requires
        map_wf(old(balances).entries@),
    ensures
        map_wf(final(balances).entries@),
        value@ == 0 || from@ == to@ ==> r == Ok::<bool, Error>(false),
        value@ > 0 && from@ != to@ && value@ > balance_spec(old(balances).entries@, from) ==> r
            == Err::<bool, Error>(Error::InsufficientBalance),
        value@ > 0 && from@ != to@ && value@ <= balance_spec(old(balances).entries@, from)
            && balance_spec(old(balances).entries@, to) + value@ >= u256_limit() ==> r
            == Err::<bool, Error>(Error::NumericOverflow),
        value@ > 0 && from@ != to@ && value@ <= balance_spec(old(balances).entries@, from)
            && balance_spec(old(balances).entries@, to) + value@ < u256_limit() ==> r
            == Ok::<bool, Error>(true),
        r == Ok::<bool, Error>(true) ==> {
            &&& balance_spec(final(balances).entries@, from) == balance_spec(
                old(balances).entries@,
                from,
            ) - value@
            &&& balance_spec(final(balances).entries@, to) == balance_spec(
                old(balances).entries@,
                to,
            ) + value@
            &&& (tbl_contains(final(balances).entries@, actor_key(from)) <==> balance_spec(
                old(balances).entries@,
                from,
            ) > value@)
            &&& forall|a: ActorId| a@ != from@ && a@ != to@ ==> balance_spec(
                final(balances).entries@,
                a,
            ) == balance_spec(old(balances).entries@, a)
            &&& tbl_sum(final(balances).entries@) == tbl_sum(old(balances).entries@)
        },
        r != Ok::<bool, Error>(true) ==> final(balances).entries@ == old(balances).entries@,
{
    if value.is_zero() || from == to {
        return Ok(false);
    }
    let new_from = match balance_of(balances, from).checked_sub(&value) {
        Some(v) => v,
        None => {
            return Err(Error::InsufficientBalance);
        },
    };
    let new_to = match balance_of(balances, to).checked_add(&value) {
        Some(v) => v,
        None => {
            return Err(Error::NumericOverflow);
        },
    };
    store_quantity(balances, (from.id, 0u128, 0u128), new_from);
    store_quantity(balances, (to.id, 0u128, 0u128), new_to);
    Ok(true)
}

/// Sets the allowance from `owner` to `spender` to exactly `value`; setting
/// it to zero removes the entry. A self-approval is a no-op reported as
/// `Ok(false)`; approving the zero account is refused with `InvalidInput`.
/// On success the result reports whether the stored allowance actually
/// changed.
pub fn approve(
    allowances: &mut AllowancesMap,
    owner: ActorId,
    spender: ActorId,
    value: U256,
) -> (r: Result<bool, Error>)
    requires
        map_wf(old(allowances).entries@),
    ensures
        map_wf(final(allowances).entries@),
        owner@ == spender@ ==> r == Ok::<bool, Error>(false),
        owner@ != spender@ && spender@ == 0 ==> r == Err::<bool, Error>(Error::InvalidInput),
        owner@ != spender@ && spender@ != 0 ==> {
            &&& r == Ok::<bool, Error>(allowance_spec(old(allowances).entries@, owner, spender)
                != value@)
            &&& allowance_spec(final(allowances).entries@, owner, spender) == value@
            &&& (tbl_contains(final(allowances).entries@, allowance_key(owner, spender)) <==> value@
                > 0)
            &&& forall|k2: Key| k2 != allowance_key(owner, spender) ==> tbl_get(
                final(allowances).entries@,
                k2,
            ) == tbl_get(old(allowances).entries@, k2)
        },
        r == Ok::<bool, Error>(false) || r is Err ==> final(allowances).entries@ == old(
            allowances,
        ).entries@,
{
    if owner == spender {
        return Ok(false);
    }
    if spender.is_zero() {
        return Err(Error::InvalidInput);
    }
    let current = allowance(allowances, owner, spender);
    if current == value {
        proof {
            crate::u256::lemma_u256_eq_is_value_eq(current, value);
            lemma_contains_iff_positive(allowances.entries@, allowance_key(owner, spender));
        }
        return Ok(false);
    }
    proof {
        crate::u256::lemma_u256_eq_is_value_eq(current, value);
    }
    store_quantity(allowances, (owner.id, spender.id, 0u128), value);
    Ok(true)
}

/// Moves `value` units from `from` to `to` on behalf of `spender`. A
/// spender other than the holder must have an allowance of at least
/// `value`, else the call is refused with `InsufficientAllowance`; when the
/// transfer actually happens, that allowance is reduced by `value`, and
/// removed entirely when it reaches zero. The holder spends without any
/// allowance, which is then left untouched.
pub fn transfer_from(
    allowances: &mut AllowancesMap,
    balances: &mut BalancesMap,
    spender: ActorId,
    from: ActorId,
    to: ActorId,
    value: U256,
) -> (r: Result<bool, Error>)
    requires
        map_wf(old(allowances).entries@),
        map_wf(old(balances).entries@),
    ensures
        map_wf(final(allowances).entries@),
        map_wf(final(balances).entries@),
        spender@ != from@ && allowance_spec(old(allowances).entries@, from, spender) < value@
            ==> r == Err::<bool, Error>(Error::InsufficientAllowance) && final(balances).entries@
            == old(balances).entries@,
        spender@ == from@ || allowance_spec(old(allowances).entries@, from, spender) >= value@
            ==> {
            &&& value@ == 0 || from@ == to@ ==> r == Ok::<bool, Error>(false)
            &&& value@ > 0 && from@ != to@ && value@ > balance_spec(old(balances).entries@, from)
                ==> r == Err::<bool, Error>(Error::InsufficientBalance)
            &&& value@ > 0 && from@ != to@ && value@ <= balance_spec(
                old(balances).entries@,
                from,
            ) && balance_spec(old(balances).entries@, to) + value@ >= u256_limit() ==> r
                == Err::<bool, Error>(Error::NumericOverflow)
            &&& value@ > 0 && from@ != to@ && value@ <= balance_spec(
                old(balances).entries@,
                from,
            ) && balance_spec(old(balances).entries@, to) + value@ < u256_limit() ==> r
                == Ok::<bool, Error>(true)
        },
        r == Ok::<bool, Error>(true) ==> {
            &&& balance_spec(final(balances).entries@, from) == balance_spec(
                old(balances).entries@,
                from,
            ) - value@
            &&& balance_spec(final(balances).entries@, to) == balance_spec(
                old(balances).entries@,
                to,
            ) + value@
            &&& forall|a: ActorId| a@ != from@ && a@ != to@ ==> balance_spec(
                final(balances).entries@,
                a,
            ) == balance_spec(old(balances).entries@, a)
            &&& tbl_sum(final(balances).entries@) == tbl_sum(old(balances).entries@)
            &&& spender@ == from@ ==> final(allowances).entries@ == old(allowances).entries@
            &&& spender@ != from@ ==> {
                &&& allowance_spec(final(allowances).entries@, from, spender) == allowance_spec(
                    old(allowances).entries@,
                    from,
                    spender,
                ) - value@
                &&& (tbl_contains(final(allowances).entries@, allowance_key(from, spender)) <==>
                    allowance_spec(old(allowances).entries@, from, spender) > value@)
                &&& forall|k2: Key| k2 != allowance_key(from, spender) ==> tbl_get(
                    final(allowances).entries@,
                    k2,
                ) == tbl_get(old(allowances).entries@, k2)
            }
        },
        r != Ok::<bool, Error>(true) ==> final(balances).entries@ == old(balances).entries@
            && final(allowances).entries@ == old(allowances).entries@,
{
    if spender == from {
        return transfer(balances, from, to, value);
    }
    let current = allowance(allowances, from, spender);
    if current.lt(&value) {
        return Err(Error::InsufficientAllowance);
    }
    let mutated = match transfer(balances, from, to, value) {
        Ok(m) => m,
        Err(e) => {
            return Err(e);
        },
    };
    if mutated {
        let new_allowance = match current.checked_sub(&value) {
            Some(v) => v,
            None => unreached(),
        };
        store_quantity(allowances, (from.id, spender.id, 0u128), new_allowance);
    }
    Ok(mutated)
}

/// The mathematical content of a balances table: every account's balance.
pub open spec fn balances_model(s: Seq<(Key, NonZeroU256)>) -> Map<u128, nat> {
    Map::total(|a: u128| balance_spec(s, ActorId { id: a }))
}

/// A batch mint, recipient by recipient: the resulting balances and supply,
/// or `None` when some step cannot be accounted in 256 bits.
pub open spec fn spec_batch_mint(
    b: Map<u128, nat>,
    supply: nat,
    to: Seq<ActorId>,
    value: Seq<U256>,
) -> Option<(Map<u128, nat>, nat)>
    decreases to.len(),
{
    if to.len() == 0 {
        Some((b, supply))
    } else {
        let a = to[0].id;
        let v = value[0]@;
        if v == 0 {
            spec_batch_mint(b, supply, to.drop_first(), value.drop_first())
        } else if supply + v >= u256_limit() || b[a] + v >= u256_limit() {
            None
        } else {
            spec_batch_mint(
                b.insert(a, (b[a] + v) as nat),
                (supply + v) as nat,
                to.drop_first(),
                value.drop_first(),
            )
        }
    }
}

/// Mints to a whole list of recipients at once, atomically: either every
/// step is accounted, or the ledger is left untouched. Lists of unequal
/// length are refused with `InvalidInput`; a step that cannot be accounted
/// in 256 bits aborts the whole batch with `NumericOverflow`.
pub fn batch_mint(
    balances: &mut BalancesMap,
    total_supply: &mut U256,
    to: &Vec<ActorId>,
    value: &Vec<U256>,
) -> (r: Result<bool, Error>)
    requires
        map_wf(old(balances).entries@),
    ensures
        map_wf(final(balances).entries@),
        to@.len() != value@.len() ==> r == Err::<bool, Error>(Error::InvalidInput),
        to@.len() == value@.len() ==> match spec_batch_mint(
            balances_model(old(balances).entries@),
            old(total_supply)@,
            to@,
            value@,
        ) {
            Some(out) => r == Ok::<bool, Error>(true) && balances_model(final(balances).entries@)
                == out.0 && final(total_supply)@ == out.1,
            None => r == Err::<bool, Error>(Error::NumericOverflow),
        },
        r is Err ==> final(balances).entries@ == old(balances).entries@ && *final(total_supply)
            == *old(total_supply),
        r is Ok ==> tbl_sum(final(balances).entries@) - tbl_sum(old(balances).entries@) == final(total_supply)@ - old(total_supply)@,
{
    if to.len() != value.len() {
        return Err(Error::InvalidInput);
    }
    let ghost b0 = balances.entries@;
    let ghost supply0 = total_supply@;
    let ghost ts_start = *total_supply;
    let mut scratch = balances.duplicate();
    let mut supply = *total_supply;
    let n = to.len();
    let mut i: usize = 0;
    proof {
        assert(to@.skip(0) =~= to@);
        assert(value@.skip(0) =~= value@);
    }
    while i < n
        invariant
            i <= n,
            n == to@.len(),
            n == value@.len(),
            map_wf(scratch.entries@),
            balances.entries@ == b0,
            *total_supply == ts_start,
            b0 == old(balances).entries@,
            supply0 == old(total_supply)@,
            map_wf(b0),
            tbl_sum(scratch.entries@) - tbl_sum(b0) == supply@ - supply0,
            spec_batch_mint(
                balances_model(scratch.entries@),
                supply@,
                to@.skip(i as int),
                value@.skip(i as int),
            ) == spec_batch_mint(balances_model(b0), supply0, to@, value@),
        decreases n - i,
    {
        let a = to[i];
        let v = value[i];
        let ghost scratch_pre = scratch.entries@;
        let ghost supply_pre = supply@;
        proof {
            assert(to@.skip(i as int)[0] == a);
            assert(value@.skip(i as int)[0] == v);
            assert(to@.skip(i as int).drop_first() =~= to@.skip(i + 1));
            assert(value@.skip(i as int).drop_first() =~= value@.skip(i + 1));
            assert(ActorId { id: a.id } == a);
        }
        match mint(&mut scratch, &mut supply, a, v) {
            Ok(_) => {
                proof {
                    if v@ == 0 {
                        assert(scratch.entries@ == scratch_pre);
                    } else {
                        assert(balances_model(scratch.entries@) =~= balances_model(
                            scratch_pre,
                        ).insert(a.id, (balances_model(scratch_pre)[a.id] + v@) as nat)) by {
                            assert forall|x: u128|
                                balances_model(scratch.entries@)[x] == balances_model(
                                    scratch_pre,
                                ).insert(a.id, (balances_model(scratch_pre)[a.id] + v@) as nat)[x] by {
                                let xa = ActorId { id: x };
                                if x != a.id {
                                    assert(xa@ != a@);
                                    assert(balance_spec(scratch.entries@, xa) == balance_spec(
                                        scratch_pre,
                                        xa,
                                    ));
                                }
                            }
                        }
                    }
                }
            },
            Err(_) => {
                proof {
                    assert(balances_model(scratch_pre)[a.id] == balance_spec(scratch_pre, a));
                    assert(spec_batch_mint(
                        balances_model(scratch_pre),
                        supply_pre,
                        to@.skip(i as int),
                        value@.skip(i as int),
                    ) is None);
                }
                return Err(Error::NumericOverflow);
            },
        }
        i = i + 1;
    }
    proof {
        assert(to@.skip(n as int) =~= Seq::<ActorId>::empty());
        assert(value@.skip(n as int) =~= Seq::<U256>::empty());
    }
    *balances = scratch;
    *total_supply = supply;
    Ok(true)
}

} // verus!
