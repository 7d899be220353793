//! The non-fungible ledger: sequential minting, transfer with approval
//! clearing, burning, and role gating.

use token_ledger::actor::ActorId;
use token_ledger::extended_vnft::{ExtendedService, ServiceError, TokenMetadata};
use token_ledger::u256::U256;
use token_ledger::vnft::Error;

fn owner() -> ActorId {
    ActorId::from_u64(100)
}

fn other() -> ActorId {
    ActorId::from_u64(101)
}

fn operator() -> ActorId {
    ActorId::from_u64(102)
}

fn metadata() -> TokenMetadata {
    TokenMetadata {
        name: "token_name".to_string(),
        description: "token_description".to_string(),
        media: "token_media".to_string(),
        reference: "token_reference".to_string(),
    }
}

fn seeded() -> ExtendedService {
    ExtendedService::init(owner(), "collection_name".to_string(), "collection_symbol".to_string())
}

/// Mint, transfer, approve, transfer back through the operator, and burn.
#[test]
fn mint_transfer_approve_burn() {
    let mut s = seeded();

    assert_eq!(s.mint(owner(), owner(), metadata()), Ok(()));
    assert_eq!(s.vnft.balance_of(owner()), U256::one());
    assert_eq!(s.token_id(), U256::one());
    assert_eq!(s.vnft.owner_of(U256::zero()), owner());

    assert_eq!(s.vnft.transfer(owner(), other(), U256::zero()), Ok(()));
    assert_eq!(s.vnft.owner_of(U256::zero()), other());

    assert_eq!(s.vnft.approve(other(), operator(), U256::zero()), Ok(()));
    assert_eq!(s.vnft.get_approved(U256::zero()), operator());

    assert_eq!(s.vnft.transfer_from(operator(), other(), owner(), U256::zero()), Ok(()));
    assert_eq!(s.vnft.owner_of(U256::zero()), owner());
    // Every successful transfer clears the token's prior approval.
    assert_eq!(s.vnft.get_approved(U256::zero()), ActorId::zero());

    assert_eq!(s.burn(owner(), owner(), U256::zero()), Ok(()));
    assert_eq!(s.vnft.balance_of(owner()), U256::zero());
    // A burned id reads as owned by the zero account.
    assert_eq!(s.vnft.owner_of(U256::zero()), ActorId::zero());
    assert!(s.token_metadata_by_id(U256::zero()).is_none());
}

/// Minting to the zero account is refused with `ZeroAddress`.
#[test]
fn mint_to_zero_address_fails() {
    let mut s = seeded();
    assert_eq!(s.mint(owner(), ActorId::zero(), metadata()), Err(ServiceError::ZeroAddress));
    assert_eq!(s.token_id(), U256::zero());
}

/// The owner's reported balance is the count of ids it holds.
#[test]
fn balance_counts_owned_ids() {
    let mut s = seeded();
    assert_eq!(s.mint(owner(), owner(), metadata()), Ok(()));
    assert_eq!(s.mint(owner(), owner(), metadata()), Ok(()));
    assert_eq!(s.mint(owner(), other(), metadata()), Ok(()));
    assert_eq!(s.vnft.balance_of(owner()), U256::from_u64(2));
    assert_eq!(s.vnft.balance_of(other()), U256::one());
    assert_eq!(s.tokens_for_owner(owner()).len(), 2);

    assert_eq!(s.vnft.transfer(owner(), other(), U256::zero()), Ok(()));
    assert_eq!(s.vnft.balance_of(owner()), U256::one());
    assert_eq!(s.vnft.balance_of(other()), U256::from_u64(2));
}

/// A caller that is neither owner nor approved cannot move or approve a
/// token; an unknown id does not exist; self-dealing is refused.
#[test]
fn permission_errors() {
    let mut s = seeded();
    assert_eq!(s.mint(owner(), owner(), metadata()), Ok(()));

    assert_eq!(s.vnft.transfer(other(), operator(), U256::zero()), Err(Error::DeniedAccess));
    assert_eq!(s.vnft.approve(other(), operator(), U256::zero()), Err(Error::DeniedAccess));
    assert_eq!(s.vnft.transfer(owner(), other(), U256::one()), Err(Error::TokenDoesNotExist));
    assert_eq!(s.vnft.transfer(owner(), owner(), U256::zero()), Err(Error::SelfDealing));
    assert_eq!(s.vnft.approve(owner(), owner(), U256::zero()), Err(Error::SelfDealing));
    assert_eq!(s.vnft.owner_of(U256::zero()), owner());
}

/// Role gating for the non-fungible service: minting and burning need the
/// corresponding role, granted and revoked by an admin.
#[test]
fn nft_role_gating() {
    let mut s = seeded();

    assert_eq!(s.mint(other(), other(), metadata()), Err(ServiceError::NotAllowedToMint));
    assert_eq!(s.grant_minter_role(owner(), other()), Ok(()));
    assert_eq!(s.mint(other(), other(), metadata()), Ok(()));
    assert_eq!(s.vnft.balance_of(other()), U256::one());

    assert_eq!(s.burn(other(), other(), U256::zero()), Err(ServiceError::NotAllowedToBurn));
    assert_eq!(s.grant_burner_role(owner(), other()), Ok(()));
    assert_eq!(s.burn(other(), other(), U256::zero()), Ok(()));
    assert_eq!(s.vnft.balance_of(other()), U256::zero());

    assert_eq!(s.grant_minter_role(other(), operator()), Err(ServiceError::NotAdmin));
    assert_eq!(s.grant_admin_role(owner(), other()), Ok(()));
    assert_eq!(s.admins().len(), 2);
    assert_eq!(s.revoke_admin_role(owner(), other()), Ok(()));
    assert_eq!(s.admins(), vec![owner()]);
    assert_eq!(s.revoke_minter_role(owner(), other()), Ok(()));
    assert_eq!(s.revoke_burner_role(owner(), other()), Ok(()));
    assert_eq!(s.mint(other(), other(), metadata()), Err(ServiceError::NotAllowedToMint));
}
