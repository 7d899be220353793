//! Minting and burning for the multi-token ledger. A token id that carries
//! metadata is non-fungible: it holds exactly one unit and can never be
//! minted again. Both operations are atomic over their whole batch.

use vstd::prelude::*;

use crate::actor::ActorId;
use crate::kv::{tbl_contains, tbl_get, tbl_sum_group, tbl_wf, Key, Table};
use crate::u256::{u256_limit, U256};
use crate::vft::map_wf;
use crate::vmt::{
    get_balance, group_of, id_key, store_token_quantity, token_balance, token_balances_model,
    token_key, supply_of, TokenBalancesMap, TokenId, TotalSupplyMap,
};

verus! {

/// Why a mint or burn was refused. Every refusal leaves every map exactly
/// as it was.
#[derive(Clone, Copy, Debug, PartialEq, Eq, Structural)]
pub enum Error {
    ZeroAddress,
    LengthMismatch,
    IdIsNotUnique,
    MintMetadataToFungibleToken,
    TokenAlreadyExists,
    AmountGreaterThanOneForNft,
    WrongId,
    NotEnoughBalance,
    NumericOverflow,
    Underflow,
}

/// The description a non-fungible token id carries, immutable once minted.
#[derive(Clone, Debug, Default, PartialEq, Eq)]
pub struct TokenMetadata {
    pub title: Option<String>,
    pub description: Option<String>,
    pub media: Option<String>,
    pub reference: Option<String>,
}

/// Token id to metadata, for ids minted as non-fungible.
pub type TokenMetadataMap = Table<TokenMetadata>;

/// Token id to the owner recorded when its metadata was minted.
pub type OwnersMap = Table<ActorId>;

/// No token id occurs twice in a batch.
pub open spec fn ids_unique(ids: Seq<TokenId>) -> bool {
    forall|i: int, j: int| 0 <= i < j < ids.len() ==> ids[i] != ids[j]
}

/// The mathematical content of a total-supply table.
pub open spec fn supply_model(s: Seq<(Key, crate::u256::NonZeroU256)>) -> Map<TokenId, nat> {
    Map::total(|id: TokenId| supply_of(s, id))
}

/// The first metadata conflict in a mint batch, checked before anything is
/// accounted: an id that already carries metadata can never be minted
/// again, and metadata can only be minted with a quantity of at most one.
pub open spec fn mint_meta_error(
    md: Seq<(Key, TokenMetadata)>,
    ids: Seq<TokenId>,
    amounts: Seq<U256>,
    meta: Seq<Option<TokenMetadata>>,
) -> Option<Error>
    decreases ids.len(),
{
    if ids.len() == 0 {
        None
    } else if tbl_contains(md, id_key(ids[0])) {
        Some(Error::TokenAlreadyExists)
    } else if meta[0] is Some && amounts[0]@ > 1 {
        Some(Error::MintMetadataToFungibleToken)
    } else {
        mint_meta_error(md, ids.drop_first(), amounts.drop_first(), meta.drop_first())
    }
}

/// A mint batch, id by id: the resulting balances and supplies, or `None`
/// when some step cannot be accounted in 256 bits.
pub open spec fn spec_mint_accounting(
    b: Map<(TokenId, ActorId), nat>,
    s: Map<TokenId, nat>,
    to: ActorId,
    ids: Seq<TokenId>,
    amounts: Seq<U256>,
) -> Option<(Map<(TokenId, ActorId), nat>, Map<TokenId, nat>)>
    decreases ids.len(),
{
    if ids.len() == 0 {
        Some((b, s))
    } else {
        let id = ids[0];
        let a = amounts[0]@;
        let bt = b[(id, to)];
        let st = s[id];
        if a == 0 {
            spec_mint_accounting(b, s, to, ids.drop_first(), amounts.drop_first())
        } else if st + a >= u256_limit() || bt + a >= u256_limit() {
            None
        } else {
            spec_mint_accounting(
                b.insert((id, to), (bt + a) as nat),
                s.insert(id, (st + a) as nat),
                to,
                ids.drop_first(),
                amounts.drop_first(),
            )
        }
    }
}

/// A burn batch, id by id: the resulting balances and supplies, or the
/// error of the first step that cannot be carried out.
pub open spec fn spec_burn_accounting(
    b: Map<(TokenId, ActorId), nat>,
    s: Map<TokenId, nat>,
    from: ActorId,
    ids: Seq<TokenId>,
    amounts: Seq<U256>,
) -> Result<(Map<(TokenId, ActorId), nat>, Map<TokenId, nat>), Error>
    decreases ids.len(),
{
    if ids.len() == 0 {
        Ok((b, s))
    } else {
        let id = ids[0];
        let a = amounts[0]@;
        let bf = b[(id, from)];
        let st = s[id];
        if a == 0 {
            spec_burn_accounting(b, s, from, ids.drop_first(), amounts.drop_first())
        } else if bf < a {
            Err(Error::NotEnoughBalance)
        } else if st == 0 {
            Err(Error::WrongId)
        } else if st < a {
            Err(Error::Underflow)
        } else {
            spec_burn_accounting(
                b.insert((id, from), (bf - a) as nat),
                s.insert(id, (st - a) as nat),
                from,
                ids.drop_first(),
                amounts.drop_first(),
            )
        }
    }
}

/// The first balance shortfall or metadata-quantity conflict in a burn
/// batch, checked against the untouched ledger before anything is
/// accounted.
pub open spec fn burn_check_error(
    md: Seq<(Key, TokenMetadata)>,
    b: Seq<(Key, crate::u256::NonZeroU256)>,
    from: ActorId,
    ids: Seq<TokenId>,
    amounts: Seq<U256>,
) -> Option<Error>
    decreases ids.len(),
{
    if ids.len() == 0 {
        None
    } else if tbl_contains(md, id_key(ids[0])) && amounts[0]@ > 1 {
        Some(Error::AmountGreaterThanOneForNft)
    } else if token_balance(b, ids[0], from) < amounts[0]@ {
        Some(Error::NotEnoughBalance)
    } else {
        burn_check_error(md, b, from, ids.drop_first(), amounts.drop_first())
    }
}

/// Whether some batch position mints metadata onto `id2`.
pub open spec fn mints_meta(
    ids: Seq<TokenId>,
    meta: Seq<Option<TokenMetadata>>,
    id2: TokenId,
    upto: int,
) -> bool {
    exists|i: int| 0 <= i < upto && ids[i] == id2 && meta[i] is Some
}

/// Returns the total supply of token `id`.
pub fn get_supply(total_supply: &TotalSupplyMap, id: &TokenId) -> (r: U256)
    requires
        tbl_wf(total_supply.entries@),
    ensures
        r@ == supply_of(total_supply.entries@, *id),
{
    match total_supply.get((id.lo, id.hi, 0u128)) {
        Some(v) => v.get(),
        None => U256::zero(),
    }
}

/// Mints the listed amounts of the listed token ids to `to`, atomically.
/// A position carrying metadata makes its id non-fungible: the metadata is
/// recorded with `to` as owner, the quantity must be at most one, and the
/// id must not carry metadata already. The recipient must be non-zero, the
/// three lists equally long, and the ids pairwise distinct.
pub fn mint(
    balances: &mut TokenBalancesMap,
    total_supply: &mut TotalSupplyMap,
    token_metadata: &mut TokenMetadataMap,
    owners: &mut OwnersMap,
    to: ActorId,
    ids: &Vec<TokenId>,
    amounts: &Vec<U256>,
    meta: Vec<Option<TokenMetadata>>,
) -> (r: Result<(), Error>)
    requires
        map_wf(old(balances).entries@),
        map_wf(old(total_supply).entries@),
        tbl_wf(old(token_metadata).entries@),
        tbl_wf(old(owners).entries@),
    ensures
        map_wf(final(balances).entries@),
        map_wf(final(total_supply).entries@),
        tbl_wf(final(token_metadata).entries@),
        tbl_wf(final(owners).entries@),
        to@ == 0 ==> r == Err::<(), Error>(Error::ZeroAddress),
        to@ != 0 && (ids@.len() != amounts@.len() || ids@.len() != meta@.len()) ==> r
            == Err::<(), Error>(Error::LengthMismatch),
        to@ != 0 && ids@.len() == amounts@.len() && ids@.len() == meta@.len() && !ids_unique(ids@)
            ==> r == Err::<(), Error>(Error::IdIsNotUnique),
        to@ != 0 && ids@.len() == amounts@.len() && ids@.len() == meta@.len() && ids_unique(ids@)
            ==> match mint_meta_error(old(token_metadata).entries@, ids@, amounts@, meta@) {
            Some(e) => r == Err::<(), Error>(e),
            None => match spec_mint_accounting(
                token_balances_model(old(balances).entries@),
                supply_model(old(total_supply).entries@),
                to,
                ids@,
                amounts@,
            ) {
                Some(out) => {
                    &&& r == Ok::<(), Error>(())
                    &&& token_balances_model(final(balances).entries@) == out.0
                    &&& supply_model(final(total_supply).entries@) == out.1
                },
                None => r == Err::<(), Error>(Error::NumericOverflow),
            },
        },
        r is Ok ==> {
            &&& forall|i: int| 0 <= i < ids@.len() ==> ((#[trigger] meta@[i]) matches Some(m) ==> tbl_get(
                final(token_metadata).entries@,
                id_key(ids@[i]),
            ) == Some(m) && tbl_get(final(owners).entries@, id_key(ids@[i])) == Some(to))
            &&& forall|id2: TokenId| !mints_meta(ids@, meta@, id2, ids@.len() as int) ==> tbl_get(
                final(token_metadata).entries@,
                id_key(id2),
            ) == tbl_get(old(token_metadata).entries@, id_key(id2)) && tbl_get(
                final(owners).entries@,
                id_key(id2),
            ) == tbl_get(old(owners).entries@, id_key(id2))
        },
        r is Err ==> final(balances).entries@ == old(balances).entries@
            && final(total_supply).entries@ == old(total_supply).entries@
            && final(token_metadata).entries@ == old(token_metadata).entries@
            && final(owners).entries@ == old(owners).entries@,
        forall|id2: TokenId| #[trigger] tbl_sum_group(final(balances).entries@, group_of(id2))
            - tbl_sum_group(old(balances).entries@, group_of(id2)) == supply_of(
            final(total_supply).entries@,
            id2,
        ) - supply_of(old(total_supply).entries@, id2),
{
    if to.is_zero() {
        return Err(Error::ZeroAddress);
    }
    let n = ids.len();
    if n != amounts.len() || n != meta.len() {
        return Err(Error::LengthMismatch);
    }
    let mut i: usize = 0;
    while i < n
        invariant
            i <= n,
            n == ids@.len(),
            forall|a: int, b: int| 0 <= a < b < i ==> ids@[a] != ids@[b],
            to@ != 0,
            n == amounts@.len(),
            n == meta@.len(),
            map_wf(old(balances).entries@),
            map_wf(old(total_supply).entries@),
            tbl_wf(old(token_metadata).entries@),
            tbl_wf(old(owners).entries@),
            balances.entries@ == old(balances).entries@,
            total_supply.entries@ == old(total_supply).entries@,
            token_metadata.entries@ == old(token_metadata).entries@,
            owners.entries@ == old(owners).entries@,
        decreases n - i,
    {
        let mut j: usize = 0;
        while j < i
            invariant
                j <= i < n,
                n == ids@.len(),
                forall|a: int, b: int| 0 <= a < b < i ==> ids@[a] != ids@[b],
                forall|a: int| 0 <= a < j ==> ids@[a] != ids@[i as int],
                to@ != 0,
                n == amounts@.len(),
                n == meta@.len(),
                map_wf(old(balances).entries@),
                map_wf(old(total_supply).entries@),
                tbl_wf(old(token_metadata).entries@),
                tbl_wf(old(owners).entries@),
                balances.entries@ == old(balances).entries@,
                total_supply.entries@ == old(total_supply).entries@,
                token_metadata.entries@ == old(token_metadata).entries@,
                owners.entries@ == old(owners).entries@,
            decreases i - j,
        {
            if ids[j] == ids[i] {
                return Err(Error::IdIsNotUnique);
            }
            j = j + 1;
        }
        i = i + 1;
    }
    let ghost md0 = token_metadata.entries@;
    proof {
        assert(ids@.skip(0) =~= ids@);
        assert(amounts@.skip(0) =~= amounts@);
        assert(meta@.skip(0) =~= meta@);
    }
    i = 0;
    while i < n
        invariant
            i <= n,
            n == ids@.len(),
            n == amounts@.len(),
            n == meta@.len(),
            token_metadata.entries@ == md0,
            md0 == old(token_metadata).entries@,
            to@ != 0,
            ids_unique(ids@),
            mint_meta_error(md0, ids@.skip(i as int), amounts@.skip(i as int), meta@.skip(i as int))
                == mint_meta_error(md0, ids@, amounts@, meta@),
            map_wf(old(balances).entries@),
            map_wf(old(total_supply).entries@),
            tbl_wf(old(token_metadata).entries@),
            tbl_wf(old(owners).entries@),
            balances.entries@ == old(balances).entries@,
            total_supply.entries@ == old(total_supply).entries@,
            token_metadata.entries@ == old(token_metadata).entries@,
            owners.entries@ == old(owners).entries@,
        decreases n - i,
    {
        proof {
            assert(ids@.skip(i as int)[0] == ids@[i as int]);
            assert(amounts@.skip(i as int)[0] == amounts@[i as int]);
            assert(meta@.skip(i as int)[0] == meta@[i as int]);
            assert(ids@.skip(i as int).drop_first() =~= ids@.skip(i + 1));
            assert(amounts@.skip(i as int).drop_first() =~= amounts@.skip(i + 1));
            assert(meta@.skip(i as int).drop_first() =~= meta@.skip(i + 1));
        }
        let id = ids[i];
        if token_metadata.contains_key((id.lo, id.hi, 0u128)) {
            proof {
                assert(mint_meta_error(md0, ids@, amounts@, meta@) == Some(
                    Error::TokenAlreadyExists,
                ));
            }
            return Err(Error::TokenAlreadyExists);
        }
        if meta[i].is_some() {
            let one = U256::one();
            if one.lt(&amounts[i]) {
                proof {
                    assert(mint_meta_error(md0, ids@, amounts@, meta@) == Some(
                        Error::MintMetadataToFungibleToken,
                    ));
                }
                return Err(Error::MintMetadataToFungibleToken);
            }
        }
        i = i + 1;
    }
    let ghost b0 = balances.entries@;
    let ghost s0 = total_supply.entries@;
    let mut scratch_b = balances.duplicate();
    let mut scratch_s = total_supply.duplicate();
    i = 0;
    while i < n
        invariant
            i <= n,
            n == ids@.len(),
            n == amounts@.len(),
            map_wf(scratch_b.entries@),
            map_wf(scratch_s.entries@),
            balances.entries@ == b0,
            total_supply.entries@ == s0,
            b0 == old(balances).entries@,
            s0 == old(total_supply).entries@,
            map_wf(b0),
            map_wf(s0),
            to@ != 0,
            n == meta@.len(),
            ids_unique(ids@),
            token_metadata.entries@ == md0,
            owners.entries@ == old(owners).entries@,
            md0 == old(token_metadata).entries@,
            tbl_wf(md0),
            tbl_wf(old(owners).entries@),
            mint_meta_error(md0, ids@, amounts@, meta@) is None,
            forall|id2: TokenId| #[trigger] tbl_sum_group(scratch_b.entries@, group_of(id2))
                - tbl_sum_group(b0, group_of(id2)) == supply_of(scratch_s.entries@, id2)
                - supply_of(s0, id2),
            spec_mint_accounting(
                token_balances_model(scratch_b.entries@),
                supply_model(scratch_s.entries@),
                to,
                ids@.skip(i as int),
                amounts@.skip(i as int),
            ) == spec_mint_accounting(
                token_balances_model(b0),
                supply_model(s0),
                to,
                ids@,
                amounts@,
            ),
        decreases n - i,
    {
        let id = ids[i];
        let a = amounts[i];
        let ghost bpre = scratch_b.entries@;
        let ghost spre = scratch_s.entries@;
        proof {
            assert(ids@.skip(i as int)[0] == id);
            assert(amounts@.skip(i as int)[0] == a);
            assert(ids@.skip(i as int).drop_first() =~= ids@.skip(i + 1));
            assert(amounts@.skip(i as int).drop_first() =~= amounts@.skip(i + 1));
            assert(token_balances_model(bpre)[(id, to)] == token_balance(bpre, id, to));
            assert(supply_model(spre)[id] == supply_of(spre, id));
        }
        let bt = get_balance(&scratch_b, &to, &id);
        let st = get_supply(&scratch_s, &id);
        let new_st = match st.checked_add(&a) {
            Some(v) => v,
            None => {
                proof {
                    assert(spec_mint_accounting(
                        token_balances_model(bpre),
                        supply_model(spre),
                        to,
                        ids@.skip(i as int),
                        amounts@.skip(i as int),
                    ) is None);
                }
                return Err(Error::NumericOverflow);
            },
        };
        let new_bt = match bt.checked_add(&a) {
            Some(v) => v,
            None => {
                proof {
                    assert(spec_mint_accounting(
                        token_balances_model(bpre),
                        supply_model(spre),
                        to,
                        ids@.skip(i as int),
                        amounts@.skip(i as int),
                    ) is None);
                }
                return Err(Error::NumericOverflow);
            },
        };
        if !a.is_zero() {
            store_token_quantity(&mut scratch_b, (id.lo, id.hi, to.id), new_bt);
            store_token_quantity(&mut scratch_s, (id.lo, id.hi, 0u128), new_st);
            proof {
                assert(token_balances_model(scratch_b.entries@) =~= token_balances_model(
                    bpre,
                ).insert((id, to), (token_balance(bpre, id, to) + a@) as nat)) by {
                    assert forall|p: (TokenId, ActorId)|
                        token_balances_model(scratch_b.entries@)[p] == token_balances_model(
                            bpre,
                        ).insert((id, to), (token_balance(bpre, id, to) + a@) as nat)[p] by {
                        if p != (id, to) {
                            assert(token_key(p.0, p.1) != token_key(id, to));
                        }
                    }
                }
                assert(supply_model(scratch_s.entries@) =~= supply_model(spre).insert(
                    id,
                    (supply_of(spre, id) + a@) as nat,
                )) by {
                    assert forall|q: TokenId|
                        supply_model(scratch_s.entries@)[q] == supply_model(spre).insert(
                            id,
                            (supply_of(spre, id) + a@) as nat,
                        )[q] by {
                        if q != id {
                            assert(id_key(q) != id_key(id));
                        }
                    }
                }
            }
        }
        i = i + 1;
    }
    proof {
        assert(ids@.skip(n as int) =~= Seq::<TokenId>::empty());
        assert(amounts@.skip(n as int) =~= Seq::<U256>::empty());
    }
    *balances = scratch_b;
    *total_supply = scratch_s;
    let ghost bc = balances.entries@;
    let ghost sc = total_supply.entries@;
    let ghost own0 = owners.entries@;
    let ghost meta0 = meta@;
    let mut meta = meta;
    let mut j: usize = 0;
    while j < n
        invariant
            j <= n,
            n == ids@.len(),
            n == meta0.len(),
            meta@ == meta0.skip(j as int),
            balances.entries@ == bc,
            total_supply.entries@ == sc,
            tbl_wf(token_metadata.entries@),
            tbl_wf(owners.entries@),
            forall|a: int, b: int| 0 <= a < b < n ==> ids@[a] != ids@[b],
            forall|i2: int| 0 <= i2 < j ==> ((#[trigger] meta0[i2]) matches Some(m) ==> tbl_get(
                token_metadata.entries@,
                id_key(ids@[i2]),
            ) == Some(m) && tbl_get(owners.entries@, id_key(ids@[i2])) == Some(to)),
            forall|id2: TokenId| !mints_meta(ids@, meta0, id2, j as int) ==> tbl_get(
                token_metadata.entries@,
                id_key(id2),
            ) == tbl_get(md0, id_key(id2)) && tbl_get(owners.entries@, id_key(id2)) == tbl_get(
                own0,
                id_key(id2),
            ),
            md0 == old(token_metadata).entries@,
            own0 == old(owners).entries@,
        decreases n - j,
    {
        let id = ids[j];
        let m = meta.remove(0);
        let ghost mdpre = token_metadata.entries@;
        let ghost ownpre = owners.entries@;
        match m {
            Some(tm) => {
                token_metadata.insert((id.lo, id.hi, 0u128), tm);
                owners.insert((id.lo, id.hi, 0u128), to);
                proof {
                    assert(meta0[j as int] == Some(tm));
                    assert forall|id2: TokenId|
                        !mints_meta(ids@, meta0, id2, j + 1) implies tbl_get(
                        token_metadata.entries@,
                        id_key(id2),
                    ) == tbl_get(md0, id_key(id2)) && tbl_get(owners.entries@, id_key(id2))
                        == tbl_get(own0, id_key(id2)) by {
                        assert(!mints_meta(ids@, meta0, id2, j as int));
                        assert(id2 != id);
                        assert(id_key(id2) != id_key(id));
                    }
                    assert forall|i2: int| 0 <= i2 < j + 1 implies ((#[trigger] meta0[i2]) matches Some(
                        mm,
                    ) ==> tbl_get(token_metadata.entries@, id_key(ids@[i2])) == Some(mm)
                        && tbl_get(owners.entries@, id_key(ids@[i2])) == Some(to)) by {
                        if i2 < j && meta0[i2] is Some {
                            assert(ids@[i2] != ids@[j as int]);
                            assert(id_key(ids@[i2]) != id_key(id));
                        }
                    }
                }
            },
            None => {
                proof {
                    assert(meta0[j as int] is None);
                    assert forall|id2: TokenId|
                        !mints_meta(ids@, meta0, id2, j + 1) implies tbl_get(
                        token_metadata.entries@,
                        id_key(id2),
                    ) == tbl_get(md0, id_key(id2)) && tbl_get(owners.entries@, id_key(id2))
                        == tbl_get(own0, id_key(id2)) by {
                        assert(!mints_meta(ids@, meta0, id2, j as int));
                    }
                }
            },
        }
        j = j + 1;
    }
    Ok(())
}

/// Whether some batch position burns a positive amount of `id2`.
pub open spec fn burns_positive(
    ids: Seq<TokenId>,
    amounts: Seq<U256>,
    id2: TokenId,
    upto: int,
) -> bool {
    exists|i: int| 0 <= i < upto && ids[i] == id2 && amounts[i]@ > 0
}

/// Burns the listed amounts of the listed token ids held by `from`,
/// atomically. A non-fungible id (one carrying metadata) can lose at most
/// one unit per step; each step needs a sufficient holder balance and a
/// recorded supply; burning a positive amount of an id drops its recorded
/// owner. Metadata is kept for history.
pub fn burn(
    balances: &mut TokenBalancesMap,
    total_supply: &mut TotalSupplyMap,
    token_metadata: &TokenMetadataMap,
    owners: &mut OwnersMap,
    from: ActorId,
    ids: &Vec<TokenId>,
    amounts: &Vec<U256>,
) -> (r: Result<(), Error>)
    requires
        map_wf(old(balances).entries@),
        map_wf(old(total_supply).entries@),
        tbl_wf(old(owners).entries@),
    ensures
        map_wf(final(balances).entries@),
        map_wf(final(total_supply).entries@),
        tbl_wf(final(owners).entries@),
        ids@.len() != amounts@.len() ==> r == Err::<(), Error>(Error::LengthMismatch),
        ids@.len() == amounts@.len() ==> match burn_check_error(
            token_metadata.entries@,
            old(balances).entries@,
            from,
            ids@,
            amounts@,
        ) {
            Some(e) => r == Err::<(), Error>(e),
            None => match spec_burn_accounting(
                token_balances_model(old(balances).entries@),
                supply_model(old(total_supply).entries@),
                from,
                ids@,
                amounts@,
            ) {
                Ok(out) => {
                    &&& r == Ok::<(), Error>(())
                    &&& token_balances_model(final(balances).entries@) == out.0
                    &&& supply_model(final(total_supply).entries@) == out.1
                },
                Err(e) => r == Err::<(), Error>(e),
            },
        },
        r is Ok ==> {
            &&& forall|i: int| 0 <= i < ids@.len() && (#[trigger] amounts@[i])@ > 0
                ==> !tbl_contains(final(owners).entries@, id_key(ids@[i]))
            &&& forall|id2: TokenId| !burns_positive(ids@, amounts@, id2, ids@.len() as int)
                ==> tbl_get(final(owners).entries@, id_key(id2)) == tbl_get(
                old(owners).entries@,
                id_key(id2),
            )
        },
        r is Err ==> final(balances).entries@ == old(balances).entries@
            && final(total_supply).entries@ == old(total_supply).entries@
            && final(owners).entries@ == old(owners).entries@,
        forall|id2: TokenId| #[trigger] tbl_sum_group(final(balances).entries@, group_of(id2))
            - tbl_sum_group(old(balances).entries@, group_of(id2)) == supply_of(
            final(total_supply).entries@,
            id2,
        ) - supply_of(old(total_supply).entries@, id2),
{
    let n = ids.len();
    if n != amounts.len() {
        return Err(Error::LengthMismatch);
    }
    let ghost b0 = balances.entries@;
    let ghost s0 = total_supply.entries@;
    let ghost md0 = token_metadata.entries@;
    let ghost own0 = owners.entries@;
    proof {
        assert(ids@.skip(0) =~= ids@);
        assert(amounts@.skip(0) =~= amounts@);
    }
    let mut i: usize = 0;
    while i < n
        invariant
            i <= n,
            n == ids@.len(),
            n == amounts@.len(),
            balances.entries@ == b0,
            total_supply.entries@ == s0,
            owners.entries@ == own0,
            token_metadata.entries@ == md0,
            b0 == old(balances).entries@,
            s0 == old(total_supply).entries@,
            own0 == old(owners).entries@,
            map_wf(b0),
            map_wf(s0),
            tbl_wf(own0),
            burn_check_error(md0, b0, from, ids@.skip(i as int), amounts@.skip(i as int))
                == burn_check_error(md0, b0, from, ids@, amounts@),
        decreases n - i,
    {
        proof {
            assert(ids@.skip(i as int)[0] == ids@[i as int]);
            assert(amounts@.skip(i as int)[0] == amounts@[i as int]);
            assert(ids@.skip(i as int).drop_first() =~= ids@.skip(i + 1));
            assert(amounts@.skip(i as int).drop_first() =~= amounts@.skip(i + 1));
        }
        let id = ids[i];
        let a = amounts[i];
        if token_metadata.contains_key((id.lo, id.hi, 0u128)) {
            let one = U256::one();
            if one.lt(&a) {
                proof {
                    assert(burn_check_error(md0, b0, from, ids@, amounts@) == Some(
                        Error::AmountGreaterThanOneForNft,
                    ));
                }
                return Err(Error::AmountGreaterThanOneForNft);
            }
        }
        let bf = get_balance(balances, &from, &id);
        if bf.lt(&a) {
            proof {
                assert(burn_check_error(md0, b0, from, ids@, amounts@) == Some(
                    Error::NotEnoughBalance,
                ));
            }
            return Err(Error::NotEnoughBalance);
        }
        i = i + 1;
    }
    let mut scratch_b = balances.duplicate();
    let mut scratch_s = total_supply.duplicate();
    i = 0;
    while i < n
        invariant
            i <= n,
            n == ids@.len(),
            n == amounts@.len(),
            map_wf(scratch_b.entries@),
            map_wf(scratch_s.entries@),
            balances.entries@ == b0,
            total_supply.entries@ == s0,
            owners.entries@ == own0,
            token_metadata.entries@ == md0,
            b0 == old(balances).entries@,
            s0 == old(total_supply).entries@,
            own0 == old(owners).entries@,
            map_wf(b0),
            map_wf(s0),
            tbl_wf(own0),
            burn_check_error(md0, b0, from, ids@, amounts@) is None,
            forall|id2: TokenId| #[trigger] tbl_sum_group(scratch_b.entries@, group_of(id2))
                - tbl_sum_group(b0, group_of(id2)) == supply_of(scratch_s.entries@, id2)
                - supply_of(s0, id2),
            spec_burn_accounting(
                token_balances_model(scratch_b.entries@),
                supply_model(scratch_s.entries@),
                from,
                ids@.skip(i as int),
                amounts@.skip(i as int),
            ) == spec_burn_accounting(
                token_balances_model(b0),
                supply_model(s0),
                from,
                ids@,
                amounts@,
            ),
        decreases n - i,
    {
        let id = ids[i];
        let a = amounts[i];
        let ghost bpre = scratch_b.entries@;
        let ghost spre = scratch_s.entries@;
        proof {
            assert(ids@.skip(i as int)[0] == id);
            assert(amounts@.skip(i as int)[0] == a);
            assert(ids@.skip(i as int).drop_first() =~= ids@.skip(i + 1));
            assert(amounts@.skip(i as int).drop_first() =~= amounts@.skip(i + 1));
            assert(token_balances_model(bpre)[(id, from)] == token_balance(bpre, id, from));
            assert(supply_model(spre)[id] == supply_of(spre, id));
        }
        if !a.is_zero() {
            let bf = get_balance(&scratch_b, &from, &id);
            let new_bf = match bf.checked_sub(&a) {
                Some(v) => v,
                None => {
                    return Err(Error::NotEnoughBalance);
                },
            };
            let st = get_supply(&scratch_s, &id);
            if st.is_zero() {
                return Err(Error::WrongId);
            }
            let new_st = match st.checked_sub(&a) {
                Some(v) => v,
                None => {
                    return Err(Error::Underflow);
                },
            };
            store_token_quantity(&mut scratch_b, (id.lo, id.hi, from.id), new_bf);
            store_token_quantity(&mut scratch_s, (id.lo, id.hi, 0u128), new_st);
            proof {
                assert(token_balances_model(scratch_b.entries@) =~= token_balances_model(
                    bpre,
                ).insert((id, from), (token_balance(bpre, id, from) - a@) as nat)) by {
                    assert forall|p: (TokenId, ActorId)|
                        token_balances_model(scratch_b.entries@)[p] == token_balances_model(
                            bpre,
                        ).insert((id, from), (token_balance(bpre, id, from) - a@) as nat)[p] by {
                        if p != (id, from) {
                            assert(token_key(p.0, p.1) != token_key(id, from));
                        }
                    }
                }
                assert(supply_model(scratch_s.entries@) =~= supply_model(spre).insert(
                    id,
                    (supply_of(spre, id) - a@) as nat,
                )) by {
                    assert forall|q: TokenId|
                        supply_model(scratch_s.entries@)[q] == supply_model(spre).insert(
                            id,
                            (supply_of(spre, id) - a@) as nat,
                        )[q] by {
                        if q != id {
                            assert(id_key(q) != id_key(id));
                        }
                    }
                }
            }
        }
        i = i + 1;
    }
    proof {
        assert(ids@.skip(n as int) =~= Seq::<TokenId>::empty());
        assert(amounts@.skip(n as int) =~= Seq::<U256>::empty());
    }
    *balances = scratch_b;
    *total_supply = scratch_s;
    let ghost bc = balances.entries@;
    let ghost sc = total_supply.entries@;
    let mut j: usize = 0;
    while j < n
        invariant
            j <= n,
            n == ids@.len(),
            n == amounts@.len(),
            balances.entries@ == bc,
            total_supply.entries@ == sc,
            tbl_wf(owners.entries@),
            own0 == old(owners).entries@,
            forall|i2: int| 0 <= i2 < j && (#[trigger] amounts@[i2])@ > 0 ==> !tbl_contains(
                owners.entries@,
                id_key(ids@[i2]),
            ),
            forall|id2: TokenId| !burns_positive(ids@, amounts@, id2, j as int) ==> tbl_get(
                owners.entries@,
                id_key(id2),
            ) == tbl_get(own0, id_key(id2)),
        decreases n - j,
    {
        let id = ids[j];
        let a = amounts[j];
        let ghost ownpre = owners.entries@;
        if !a.is_zero() {
            owners.remove((id.lo, id.hi, 0u128));
            proof {
                assert forall|i2: int|
                    0 <= i2 < j + 1 && (#[trigger] amounts@[i2])@ > 0 implies !tbl_contains(
                    owners.entries@,
                    id_key(ids@[i2]),
                ) by {
                    if i2 < j && id_key(ids@[i2]) != id_key(id) {
                        assert(tbl_contains(owners.entries@, id_key(ids@[i2])) <==> tbl_contains(
                            ownpre,
                            id_key(ids@[i2]),
                        ));
                    }
                }
                assert forall|id2: TokenId|
                    !burns_positive(ids@, amounts@, id2, j + 1) implies tbl_get(
                    owners.entries@,
                    id_key(id2),
                ) == tbl_get(own0, id_key(id2)) by {
                    assert(!burns_positive(ids@, amounts@, id2, j as int));
                    assert(id2 != id);
                    assert(id_key(id2) != id_key(id));
                }
            }
        } else {
            proof {
                assert forall|id2: TokenId|
                    !burns_positive(ids@, amounts@, id2, j + 1) implies tbl_get(
                    owners.entries@,
                    id_key(id2),
                ) == tbl_get(own0, id_key(id2)) by {
                    assert(!burns_positive(ids@, amounts@, id2, j as int));
                }
            }
        }
        j = j + 1;
    }
    Ok(())
}

/// What a successful role-gated multi-token mutation announces.
#[derive(Clone, Debug, PartialEq, Eq)]
pub enum Event {
    Minted { to: ActorId, ids: Vec<TokenId>, amounts: Vec<U256> },
    Burned { from: ActorId, ids: Vec<TokenId>, amounts: Vec<U256> },
}

/// Why a role-gated multi-token call was refused.
#[derive(Clone, Copy, Debug, PartialEq, Eq, Structural)]
pub enum ServiceError {
    NotAllowedToMint,
    NotAllowedToBurn,
    NotAdmin,
    Ledger(Error),
}

/// The extended multi-token service: base ledger, the metadata and owner
/// records of its non-fungible ids, the role registry, and the log of mint
/// and burn events.
pub struct ExtendedService {
    pub vmt: crate::vmt_service::Service,
    pub token_metadata: TokenMetadataMap,
    pub owners: OwnersMap,
    pub roles: crate::roles::RoleRegistry,
    pub events: Vec<Event>,
}

impl ExtendedService {
    pub open spec fn wf(&self) -> bool {
        self.vmt.wf() && tbl_wf(self.token_metadata.entries@) && tbl_wf(self.owners.entries@)
            && self.roles.wf()
    }

    /// A fresh service: empty ledger, and the deploying identity seeded
    /// into all three role sets.
    pub fn init(deployer: ActorId, name: String, symbol: String, decimals: u8) -> (r:
        ExtendedService)
        ensures
            r.wf(),
            r.roles.is_admin(deployer) && r.roles.is_minter(deployer) && r.roles.is_burner(
                deployer,
            ),
            forall|a: ActorId| a@ != deployer@ ==> !r.roles.is_admin(a) && !r.roles.is_minter(a)
                && !r.roles.is_burner(a),
            r.vmt.balances.entries@.len() == 0,
            r.vmt.total_supply.entries@.len() == 0,
            r.token_metadata.entries@.len() == 0,
            r.owners.entries@.len() == 0,
            r.events@.len() == 0,
            r.vmt.meta.name == name && r.vmt.meta.symbol == symbol && r.vmt.meta.decimals
                == decimals,
    {
        ExtendedService {
            vmt: crate::vmt_service::Service::seed(name, symbol, decimals),
            token_metadata: TokenMetadataMap::new(),
            owners: OwnersMap::new(),
            roles: crate::roles::RoleRegistry::seed(deployer),
            events: Vec::new(),
        }
    }

    /// Mints a whole batch to `to`, if `caller` holds the minter role;
    /// records one `Minted` event for the batch.
    pub fn mint_batch(
        &mut self,
        caller: ActorId,
        to: ActorId,
        ids: Vec<TokenId>,
        amounts: Vec<U256>,
        token_metadata: Vec<Option<TokenMetadata>>,
    ) -> (r: Result<(), ServiceError>)
        requires
            old(self).wf(),
        ensures
            final(self).wf(),
            final(self).roles == old(self).roles,
            final(self).vmt.allowances.entries@ == old(self).vmt.allowances.entries@,
            final(self).vmt.meta == old(self).vmt.meta,
            final(self).vmt.events@ == old(self).vmt.events@,
            !old(self).roles.is_minter(caller) ==> r == Err::<(), ServiceError>(
                ServiceError::NotAllowedToMint,
            ),
            old(self).roles.is_minter(caller) ==> {
                &&& to@ == 0 ==> r == Err::<(), ServiceError>(
                    ServiceError::Ledger(Error::ZeroAddress),
                )
                &&& to@ != 0 && (ids@.len() != amounts@.len() || ids@.len()
                    != token_metadata@.len()) ==> r == Err::<(), ServiceError>(
                    ServiceError::Ledger(Error::LengthMismatch),
                )
                &&& to@ != 0 && ids@.len() == amounts@.len() && ids@.len()
                    == token_metadata@.len() && !ids_unique(ids@) ==> r == Err::<(), ServiceError>(
                    ServiceError::Ledger(Error::IdIsNotUnique),
                )
                &&& to@ != 0 && ids@.len() == amounts@.len() && ids@.len()
                    == token_metadata@.len() && ids_unique(ids@) ==> match mint_meta_error(
                    old(self).token_metadata.entries@,
                    ids@,
                    amounts@,
                    token_metadata@,
                ) {
                    Some(e) => r == Err::<(), ServiceError>(ServiceError::Ledger(e)),
                    None => match spec_mint_accounting(
                        token_balances_model(old(self).vmt.balances.entries@),
                        supply_model(old(self).vmt.total_supply.entries@),
                        to,
                        ids@,
                        amounts@,
                    ) {
                        Some(out) => {
                            &&& r == Ok::<(), ServiceError>(())
                            &&& token_balances_model(final(self).vmt.balances.entries@) == out.0
                            &&& supply_model(final(self).vmt.total_supply.entries@) == out.1
                            &&& final(self).events@ == old(self).events@.push(
                                Event::Minted { to, ids, amounts },
                            )
                        },
                        None => r == Err::<(), ServiceError>(
                            ServiceError::Ledger(Error::NumericOverflow),
                        ),
                    },
                }
            },
            r is Ok ==> forall|i: int| 0 <= i < ids@.len() ==> ((#[trigger] token_metadata@[i])
                matches Some(m) ==> tbl_get(final(self).token_metadata.entries@, id_key(ids@[i]))
                == Some(m) && tbl_get(final(self).owners.entries@, id_key(ids@[i])) == Some(to)),
            r is Ok ==> forall|id2: TokenId| !mints_meta(ids@, token_metadata@, id2, ids@.len() as int)
                ==> tbl_get(final(self).token_metadata.entries@, id_key(id2)) == tbl_get(
                old(self).token_metadata.entries@,
                id_key(id2),
            ) && tbl_get(final(self).owners.entries@, id_key(id2)) == tbl_get(
                old(self).owners.entries@,
                id_key(id2),
            ),
            r is Err ==> final(self).vmt.balances.entries@ == old(self).vmt.balances.entries@
                && final(self).vmt.total_supply.entries@ == old(self).vmt.total_supply.entries@
                && final(self).token_metadata.entries@ == old(self).token_metadata.entries@
                && final(self).owners.entries@ == old(self).owners.entries@ && final(self).events@
                == old(self).events@,
    {
        if !self.roles.check_minter(caller) {
            return Err(ServiceError::NotAllowedToMint);
        }
        let ghost pre = *self;
        match mint(
            &mut self.vmt.balances,
            &mut self.vmt.total_supply,
            &mut self.token_metadata,
            &mut self.owners,
            to,
            &ids,
            &amounts,
            token_metadata,
        ) {
            Ok(_) => {},
            Err(e) => {
                proof {
                    assert(final(self).vmt.supply_matches()) by {
                        assert forall|id2: TokenId| #[trigger] supply_of(
                            self.vmt.total_supply.entries@,
                            id2,
                        ) == tbl_sum_group(self.vmt.balances.entries@, group_of(id2)) by {
                            assert(supply_of(pre.vmt.total_supply.entries@, id2) == tbl_sum_group(
                                pre.vmt.balances.entries@,
                                group_of(id2),
                            ));
                        }
                    }
                }
                return Err(ServiceError::Ledger(e));
            },
        }
        proof {
            assert(self.vmt.supply_matches()) by {
                assert forall|id2: TokenId| #[trigger] supply_of(
                    self.vmt.total_supply.entries@,
                    id2,
                ) == tbl_sum_group(self.vmt.balances.entries@, group_of(id2)) by {
                    assert(supply_of(pre.vmt.total_supply.entries@, id2) == tbl_sum_group(
                        pre.vmt.balances.entries@,
                        group_of(id2),
                    ));
                }
            }
        }
        self.events.push(Event::Minted { to, ids, amounts });
        Ok(())
    }

    /// Mints one token id to `to`, if `caller` holds the minter role.
    pub fn mint(
        &mut self,
        caller: ActorId,
        to: ActorId,
        id: TokenId,
        amount: U256,
        token_metadata: Option<TokenMetadata>,
    ) -> (r: Result<(), ServiceError>)
        requires
            old(self).wf(),
        ensures
            final(self).wf(),
            final(self).roles == old(self).roles,
            !old(self).roles.is_minter(caller) ==> r == Err::<(), ServiceError>(
                ServiceError::NotAllowedToMint,
            ),
            old(self).roles.is_minter(caller) && to@ != 0 ==> match mint_meta_error(
                old(self).token_metadata.entries@,
                seq![id],
                seq![amount],
                seq![token_metadata],
            ) {
                Some(e) => r == Err::<(), ServiceError>(ServiceError::Ledger(e)),
                None => match spec_mint_accounting(
                    token_balances_model(old(self).vmt.balances.entries@),
                    supply_model(old(self).vmt.total_supply.entries@),
                    to,
                    seq![id],
                    seq![amount],
                ) {
                    Some(out) => {
                        &&& r == Ok::<(), ServiceError>(())
                        &&& token_balances_model(final(self).vmt.balances.entries@) == out.0
                        &&& supply_model(final(self).vmt.total_supply.entries@) == out.1
                        &&& final(self).events@.len() == old(self).events@.len() + 1
                        &&& final(self).events@.last() matches Event::Minted {
                            to: t,
                            ids: i,
                            amounts: a,
                        } && t == to && i@ == seq![id] && a@ == seq![amount]
                    },
                    None => r == Err::<(), ServiceError>(
                        ServiceError::Ledger(Error::NumericOverflow),
                    ),
                },
            },
            old(self).roles.is_minter(caller) && to@ == 0 ==> r == Err::<(), ServiceError>(
                ServiceError::Ledger(Error::ZeroAddress),
            ),
            r is Err ==> final(self).vmt.balances.entries@ == old(self).vmt.balances.entries@
                && final(self).vmt.total_supply.entries@ == old(self).vmt.total_supply.entries@
                && final(self).token_metadata.entries@ == old(self).token_metadata.entries@
                && final(self).owners.entries@ == old(self).owners.entries@ && final(self).events@
                == old(self).events@,
    {
        let mut ids: Vec<TokenId> = Vec::new();
        ids.push(id);
        let mut amounts: Vec<U256> = Vec::new();
        amounts.push(amount);
        let mut meta: Vec<Option<TokenMetadata>> = Vec::new();
        meta.push(token_metadata);
        proof {
            assert(ids@ =~= seq![id]);
            assert(amounts@ =~= seq![amount]);
            assert(meta@ =~= seq![meta@[0]]);
        }
        self.mint_batch(caller, to, ids, amounts, meta)
    }

    /// Burns a whole batch from `from`, if `caller` holds the burner role;
    /// records one `Burned` event for the batch.
    pub fn burn_batch(
        &mut self,
        caller: ActorId,
        from: ActorId,
        ids: Vec<TokenId>,
        amounts: Vec<U256>,
    ) -> (r: Result<(), ServiceError>)
        requires
            old(self).wf(),
        ensures
            final(self).wf(),
            final(self).roles == old(self).roles,
            final(self).vmt.allowances.entries@ == old(self).vmt.allowances.entries@,
            final(self).vmt.meta == old(self).vmt.meta,
            final(self).vmt.events@ == old(self).vmt.events@,
            final(self).token_metadata.entries@ == old(self).token_metadata.entries@,
            !old(self).roles.is_burner(caller) ==> r == Err::<(), ServiceError>(
                ServiceError::NotAllowedToBurn,
            ),
            old(self).roles.is_burner(caller) ==> {
                &&& ids@.len() != amounts@.len() ==> r == Err::<(), ServiceError>(
                    ServiceError::Ledger(Error::LengthMismatch),
                )
                &&& ids@.len() == amounts@.len() ==> match burn_check_error(
                    old(self).token_metadata.entries@,
                    old(self).vmt.balances.entries@,
                    from,
                    ids@,
                    amounts@,
                ) {
                    Some(e) => r == Err::<(), ServiceError>(ServiceError::Ledger(e)),
                    None => match spec_burn_accounting(
                        token_balances_model(old(self).vmt.balances.entries@),
                        supply_model(old(self).vmt.total_supply.entries@),
                        from,
                        ids@,
                        amounts@,
                    ) {
                        Ok(out) => {
                            &&& r == Ok::<(), ServiceError>(())
                            &&& token_balances_model(final(self).vmt.balances.entries@) == out.0
                            &&& supply_model(final(self).vmt.total_supply.entries@) == out.1
                            &&& final(self).events@ == old(self).events@.push(
                                Event::Burned { from, ids, amounts },
                            )
                        },
                        Err(e) => r == Err::<(), ServiceError>(ServiceError::Ledger(e)),
                    },
                }
            },
            r is Ok ==> {
                &&& forall|i: int| 0 <= i < ids@.len() && (#[trigger] amounts@[i])@ > 0
                    ==> !tbl_contains(final(self).owners.entries@, id_key(ids@[i]))
                &&& forall|id2: TokenId| !burns_positive(ids@, amounts@, id2, ids@.len() as int)
                    ==> tbl_get(final(self).owners.entries@, id_key(id2)) == tbl_get(
                    old(self).owners.entries@,
                    id_key(id2),
                )
            },
            r is Err ==> final(self).vmt.balances.entries@ == old(self).vmt.balances.entries@
                && final(self).vmt.total_supply.entries@ == old(self).vmt.total_supply.entries@
                && final(self).owners.entries@ == old(self).owners.entries@ && final(self).events@
                == old(self).events@,
    {
        if !self.roles.check_burner(caller) {
            return Err(ServiceError::NotAllowedToBurn);
        }
        let ghost pre = *self;
        match burn(
            &mut self.vmt.balances,
            &mut self.vmt.total_supply,
            &self.token_metadata,
            &mut self.owners,
            from,
            &ids,
            &amounts,
        ) {
            Ok(_) => {},
            Err(e) => {
                proof {
                    assert(self.vmt.supply_matches()) by {
                        assert forall|id2: TokenId| #[trigger] supply_of(
                            self.vmt.total_supply.entries@,
                            id2,
                        ) == tbl_sum_group(self.vmt.balances.entries@, group_of(id2)) by {
                            assert(supply_of(pre.vmt.total_supply.entries@, id2) == tbl_sum_group(
                                pre.vmt.balances.entries@,
                                group_of(id2),
                            ));
                        }
                    }
                }
                return Err(ServiceError::Ledger(e));
            },
        }
        proof {
            assert(self.vmt.supply_matches()) by {
                assert forall|id2: TokenId| #[trigger] supply_of(
                    self.vmt.total_supply.entries@,
                    id2,
                ) == tbl_sum_group(self.vmt.balances.entries@, group_of(id2)) by {
                    assert(supply_of(pre.vmt.total_supply.entries@, id2) == tbl_sum_group(
                        pre.vmt.balances.entries@,
                        group_of(id2),
                    ));
                }
            }
        }
        self.events.push(Event::Burned { from, ids, amounts });
        Ok(())
    }

    /// Burns one token id from `from`, if `caller` holds the burner role.
    pub fn burn(&mut self, caller: ActorId, from: ActorId, id: TokenId, amount: U256) -> (r: Result<
        (),
        ServiceError,
    >)
        requires
            old(self).wf(),
        ensures
            final(self).wf(),
            final(self).roles == old(self).roles,
            final(self).token_metadata.entries@ == old(self).token_metadata.entries@,
            !old(self).roles.is_burner(caller) ==> r == Err::<(), ServiceError>(
                ServiceError::NotAllowedToBurn,
            ),
            old(self).roles.is_burner(caller) ==> match burn_check_error(
                old(self).token_metadata.entries@,
                old(self).vmt.balances.entries@,
                from,
                seq![id],
                seq![amount],
            ) {
                Some(e) => r == Err::<(), ServiceError>(ServiceError::Ledger(e)),
                None => match spec_burn_accounting(
                    token_balances_model(old(self).vmt.balances.entries@),
                    supply_model(old(self).vmt.total_supply.entries@),
                    from,
                    seq![id],
                    seq![amount],
                ) {
                    Ok(out) => {
                        &&& r == Ok::<(), ServiceError>(())
                        &&& token_balances_model(final(self).vmt.balances.entries@) == out.0
                        &&& supply_model(final(self).vmt.total_supply.entries@) == out.1
                        &&& final(self).events@.len() == old(self).events@.len() + 1
                        &&& final(self).events@.last() matches Event::Burned {
                            from: f,
                            ids: i,
                            amounts: a,
                        } && f == from && i@ == seq![id] && a@ == seq![amount]
                    },
                    Err(e) => r == Err::<(), ServiceError>(ServiceError::Ledger(e)),
                },
            },
            r is Err ==> final(self).vmt.balances.entries@ == old(self).vmt.balances.entries@
                && final(self).vmt.total_supply.entries@ == old(self).vmt.total_supply.entries@
                && final(self).owners.entries@ == old(self).owners.entries@ && final(self).events@
                == old(self).events@,
    {
        let mut ids: Vec<TokenId> = Vec::new();
        ids.push(id);
        let mut amounts: Vec<U256> = Vec::new();
        amounts.push(amount);
        proof {
            assert(ids@ =~= seq![id]);
            assert(amounts@ =~= seq![amount]);
        }
        self.burn_batch(caller, from, ids, amounts)
    }

    /// The metadata recorded for `id`, if that id is non-fungible.
    pub fn token_metadata_by_id(&self, id: TokenId) -> (r: Option<&TokenMetadata>)
        requires
            self.wf(),
        ensures
            match r {
                Some(m) => tbl_get(self.token_metadata.entries@, id_key(id)) == Some(*m),
                None => tbl_get(self.token_metadata.entries@, id_key(id)) is None,
            },
    {
        self.token_metadata.get((id.lo, id.hi, 0u128))
    }

    /// The owner recorded when `id`'s metadata was minted, if any.
    pub fn owner_of(&self, id: TokenId) -> (r: ActorId)
        requires
            self.wf(),
        ensures
            r@ == (match tbl_get(self.owners.entries@, id_key(id)) {
                Some(a) => a@,
                None => 0,
            }),
    {
        match self.owners.get((id.lo, id.hi, 0u128)) {
            Some(a) => *a,
            None => ActorId::zero(),
        }
    }
}

} // verus!
