//! The multi-token service: metadata makes an id non-fungible, supplies
//! track balances per id, and operator approval is blanket and binary.

use token_ledger::actor::ActorId;
use token_ledger::extended_vmt::{
    burn, Error as MintBurnError, ExtendedService, OwnersMap, ServiceError, TokenMetadata,
    TokenMetadataMap,
};
use token_ledger::u256::{NonZeroU256, U256};
use token_ledger::vmt::{Error, TokenBalancesMap, TotalSupplyMap};

fn admin() -> ActorId {
    ActorId::from_u64(1)
}

fn holder() -> ActorId {
    ActorId::from_u64(2)
}

fn operator() -> ActorId {
    ActorId::from_u64(3)
}

fn v(x: u64) -> U256 {
    U256::from_u64(x)
}

fn meta() -> TokenMetadata {
    TokenMetadata { title: Some("t".to_string()), description: None, media: None, reference: None }
}

fn seeded() -> ExtendedService {
    ExtendedService::init(admin(), "name".to_string(), "symbol".to_string(), 10)
}

/// Minting metadata with an amount above one is refused: a non-fungible id
/// holds exactly one unit.
#[test]
fn metadata_with_large_amount_fails() {
    let mut s = seeded();
    assert_eq!(
        s.mint(admin(), admin(), v(7), v(2), Some(meta())),
        Err(ServiceError::Ledger(MintBurnError::MintMetadataToFungibleToken))
    );
    assert_eq!(s.vmt.balance_of(admin(), v(7)), v(0));
}

/// Minting onto an id that already carries metadata is refused.
#[test]
fn mint_onto_metadata_id_fails() {
    let mut s = seeded();
    assert_eq!(s.mint(admin(), admin(), v(7), v(1), Some(meta())), Ok(()));
    assert_eq!(
        s.mint(admin(), admin(), v(7), v(1), None),
        Err(ServiceError::Ledger(MintBurnError::TokenAlreadyExists))
    );
    assert_eq!(
        s.mint(admin(), admin(), v(7), v(1), Some(meta())),
        Err(ServiceError::Ledger(MintBurnError::TokenAlreadyExists))
    );
    assert_eq!(s.vmt.balance_of(admin(), v(7)), v(1));
}

/// Each id's supply always equals the sum of its holders' balances.
#[test]
fn supply_tracks_balances_per_id() {
    let mut s = seeded();
    assert_eq!(
        s.mint_batch(admin(), admin(), vec![v(1), v(2)], vec![v(100), v(40)], vec![None, None]),
        Ok(())
    );
    assert_eq!(s.vmt.balance_of(admin(), v(1)), v(100));
    assert_eq!(s.vmt.balance_of(admin(), v(2)), v(40));

    assert_eq!(s.vmt.approve(admin(), operator()), Ok(true));
    assert!(s.vmt.is_approved(admin(), operator()));
    assert_eq!(s.vmt.transfer_from(operator(), admin(), holder(), v(1), v(30)), Ok(()));
    assert_eq!(s.vmt.balance_of(admin(), v(1)), v(70));
    assert_eq!(s.vmt.balance_of(holder(), v(1)), v(30));

    let supply = s.vmt.total_supply();
    let get = |id: U256| {
        supply
            .iter()
            .find(|p| p.0 == id)
            .map(|p| p.1)
            .unwrap_or(U256::zero())
    };
    assert_eq!(get(v(1)), v(100));
    assert_eq!(get(v(2)), v(40));

    assert_eq!(s.burn(admin(), admin(), v(1), v(70)), Ok(()));
    assert_eq!(s.burn_batch(admin(), holder(), vec![v(1)], vec![v(30)]), Ok(()));
    let supply = s.vmt.total_supply();
    assert!(!supply.iter().any(|p| p.0 == v(1)));
}

/// A batch transfer with an unknown operator or a bad shape is refused
/// whole.
#[test]
fn batch_transfer_checks() {
    let mut s = seeded();
    assert_eq!(
        s.mint_batch(admin(), admin(), vec![v(1), v(2)], vec![v(10), v(10)], vec![None, None]),
        Ok(())
    );

    assert_eq!(
        s.vmt.batch_transfer_from(operator(), admin(), holder(), vec![v(1)], vec![v(5)]),
        Err(Error::CallerIsNotOwnerOrApproved)
    );
    assert_eq!(
        s.vmt.batch_transfer_from(admin(), admin(), holder(), vec![v(1), v(2)], vec![v(5)]),
        Err(Error::LengthMismatch)
    );
    assert_eq!(
        s.vmt.batch_transfer_from(admin(), admin(), holder(), vec![v(1), v(2)], vec![v(5), v(11)]),
        Err(Error::InsufficientBalance)
    );
    // The failed batch moved nothing at all.
    assert_eq!(s.vmt.balance_of(admin(), v(1)), v(10));
    assert_eq!(s.vmt.balance_of(admin(), v(2)), v(10));
    assert_eq!(s.vmt.balance_of(holder(), v(1)), v(0));

    assert_eq!(
        s.vmt.batch_transfer_from(admin(), admin(), holder(), vec![v(1), v(2)], vec![v(5), v(6)]),
        Ok(())
    );
    assert_eq!(s.vmt.balance_of(holder(), v(1)), v(5));
    assert_eq!(s.vmt.balance_of(holder(), v(2)), v(6));
}

/// Batch queries return one balance per (account, id) pair.
#[test]
fn balance_of_batch_query() {
    let mut s = seeded();
    assert_eq!(
        s.mint_batch(admin(), admin(), vec![v(1), v(2)], vec![v(3), v(4)], vec![None, None]),
        Ok(())
    );
    let out = s
        .vmt
        .balance_of_batch(&vec![admin(), admin(), holder()], &vec![v(1), v(2), v(1)])
        .unwrap();
    assert_eq!(out, vec![v(3), v(4), v(0)]);
    assert_eq!(
        s.vmt.balance_of_batch(&vec![admin()], &vec![v(1), v(2)]),
        Err(Error::LengthMismatch)
    );
}

/// Burning a non-fungible id accepts at most one unit and drops the
/// recorded owner; roles gate minting and burning.
#[test]
fn nft_like_ids_and_roles() {
    let mut s = seeded();
    assert_eq!(
        s.mint(holder(), holder(), v(9), v(1), None),
        Err(ServiceError::NotAllowedToMint)
    );
    assert_eq!(s.mint(admin(), holder(), v(9), v(1), Some(meta())), Ok(()));
    assert!(s.token_metadata_by_id(v(9)).is_some());

    assert_eq!(
        s.burn(admin(), holder(), v(9), v(2)),
        Err(ServiceError::Ledger(MintBurnError::AmountGreaterThanOneForNft))
    );
    assert_eq!(
        s.burn(holder(), holder(), v(9), v(1)),
        Err(ServiceError::NotAllowedToBurn)
    );
    assert_eq!(s.burn(admin(), holder(), v(9), v(1)), Ok(()));
    assert_eq!(s.vmt.balance_of(holder(), v(9)), v(0));
    // Metadata is kept for history even after the burn.
    assert!(s.token_metadata_by_id(v(9)).is_some());
}

/// The funcs-level burn also guards the supply records themselves: an id
/// with no recorded supply is refused with `WrongId`, and a recorded
/// supply smaller than the amount with `Underflow`.
#[test]
fn burn_supply_record_errors() {
    let holder = holder();
    let id = v(1);

    // Balance recorded, but no supply entry at all.
    let mut balances = TokenBalancesMap::new();
    let mut supply = TotalSupplyMap::new();
    let metadata = TokenMetadataMap::new();
    let mut owners = OwnersMap::new();
    balances.insert((id.lo, id.hi, holder.id), NonZeroU256::new(v(5)).unwrap());
    assert_eq!(
        burn(&mut balances, &mut supply, &metadata, &mut owners, holder, &vec![id], &vec![v(4)]),
        Err(MintBurnError::WrongId)
    );

    // Supply entry present but smaller than the amount.
    supply.insert((id.lo, id.hi, 0), NonZeroU256::new(v(3)).unwrap());
    assert_eq!(
        burn(&mut balances, &mut supply, &metadata, &mut owners, holder, &vec![id], &vec![v(4)]),
        Err(MintBurnError::Underflow)
    );
    // Nothing moved either time.
    assert_eq!(
        token_ledger::vmt::get_balance(&balances, &holder, &id),
        v(5)
    );
}

/// A mint step that cannot be accounted in 256 bits aborts the batch whole.
#[test]
fn mint_overflow_is_atomic() {
    let mut s = seeded();
    assert_eq!(s.mint(admin(), admin(), v(1), U256::max_value(), None), Ok(()));
    assert_eq!(
        s.mint_batch(admin(), admin(), vec![v(2), v(1)], vec![v(5), v(1)], vec![None, None]),
        Err(ServiceError::Ledger(MintBurnError::NumericOverflow))
    );
    assert_eq!(s.vmt.balance_of(admin(), v(2)), v(0));
    assert_eq!(s.vmt.balance_of(admin(), v(1)), U256::max_value());
}
