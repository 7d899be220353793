//! The multi-token transition functions, exercised on bare maps: operator
//! approval, batch transfer, and mint/burn with metadata.

use token_ledger::actor::ActorId;
use token_ledger::extended_vmt::{
    burn, mint, Error as MintBurnError, OwnersMap, TokenMetadata, TokenMetadataMap,
};
use token_ledger::u256::{NonZeroU256, U256};
use token_ledger::vmt;
use token_ledger::vmt::{
    get_balance, is_approved, Error, OperatorsMap, TokenBalancesMap, TotalSupplyMap,
};

fn alice() -> ActorId {
    ActorId::from_u64(1)
}

fn bob() -> ActorId {
    ActorId::from_u64(2)
}

fn dave() -> ActorId {
    ActorId::from_u64(4)
}

fn actor_id() -> ActorId {
    ActorId::from_u64(1)
}

fn token_id() -> U256 {
    U256::from_u64(1)
}

fn token_metadata() -> TokenMetadata {
    TokenMetadata { title: None, description: None, media: None, reference: None }
}

fn quantity(v: u64) -> NonZeroU256 {
    NonZeroU256::new(U256::from_u64(v)).unwrap()
}

#[test]
fn approve() {
    // Creating empty allowances map
    let mut allowances = OperatorsMap::new();

    // # Test case #1: Approve another actor.
    {
        let owner = alice();
        let approved = bob();
        assert!(allowances.entries.is_empty());
        assert_eq!(vmt::approve(&mut allowances, owner, approved), Ok(true));
        assert!(is_approved(&allowances, &owner, &approved));
    }

    // # Test case #2: Error when approving self.
    {
        let owner = alice();
        assert_eq!(vmt::approve(&mut allowances, owner, owner), Ok(false));
    }

    // # Test case #3: Approve zero address (should fail).
    {
        let owner = alice();
        let approved = ActorId::zero();
        assert_eq!(vmt::approve(&mut allowances, owner, approved), Err(Error::ZeroAddress));
    }
}

#[test]
fn transfer_from() {
    // Creating maps for balances and allowances
    let mut balances = TokenBalancesMap::new();
    let mut allowances = OperatorsMap::new();

    let token_id = token_id();
    let owner = alice();
    let approved = bob();
    let recipient = dave();

    // Adding some balance to the owner
    balances.insert((token_id.lo, token_id.hi, owner.id), quantity(100));

    // Approving the transfer
    vmt::approve(&mut allowances, owner, approved).unwrap();

    // # Test case #1: Successful transfer.
    assert_eq!(
        vmt::transfer_from(
            &mut balances,
            &allowances,
            approved,
            owner,
            recipient,
            &vec![token_id],
            &vec![U256::from_u64(50)],
        ),
        Ok(())
    );

    // Check that the balances are updated
    assert_eq!(get_balance(&balances, &owner, &token_id), U256::from_u64(50));
    assert_eq!(get_balance(&balances, &recipient, &token_id), U256::from_u64(50));

    // # Test case #2: Transfer from owner to same recipient (should fail).
    assert_eq!(
        vmt::transfer_from(
            &mut balances,
            &allowances,
            owner,
            owner,
            owner,
            &vec![token_id],
            &vec![U256::from_u64(50)],
        ),
        Err(Error::SenderAndRecipientAddressesAreSame)
    );

    // # Test case #3: Transfer to zero address (should fail).
    assert_eq!(
        vmt::transfer_from(
            &mut balances,
            &allowances,
            approved,
            owner,
            ActorId::zero(),
            &vec![token_id],
            &vec![U256::from_u64(50)],
        ),
        Err(Error::ZeroAddress)
    );

    // # Test case #4: Insufficient balance.
    assert_eq!(
        vmt::transfer_from(
            &mut balances,
            &allowances,
            approved,
            owner,
            recipient,
            &vec![token_id],
            &vec![U256::from_u64(100)],
        ),
        Err(Error::InsufficientBalance)
    );
}

#[test]
fn test_mint_success() {
    let mut balances = TokenBalancesMap::new();
    let mut total_supply = TotalSupplyMap::new();
    let mut metadata_map = TokenMetadataMap::new();
    let mut owners = OwnersMap::new();

    let to = actor_id();
    let ids = vec![token_id()];
    let amounts = vec![U256::one()];
    let meta = vec![Some(token_metadata())];

    let result = mint(
        &mut balances,
        &mut total_supply,
        &mut metadata_map,
        &mut owners,
        to,
        &ids,
        &amounts,
        meta,
    );

    assert!(result.is_ok());
    assert_eq!(get_balance(&balances, &to, &ids[0]), U256::one());
    assert_eq!(
        token_ledger::extended_vmt::get_supply(&total_supply, &ids[0]),
        U256::one()
    );
}

#[test]
fn test_mint_zero_address() {
    let mut balances = TokenBalancesMap::new();
    let mut total_supply = TotalSupplyMap::new();
    let mut metadata_map = TokenMetadataMap::new();
    let mut owners = OwnersMap::new();

    let to = ActorId::zero();
    let ids = vec![token_id()];
    let amounts = vec![U256::one()];
    let meta = vec![None];

    let result = mint(
        &mut balances,
        &mut total_supply,
        &mut metadata_map,
        &mut owners,
        to,
        &ids,
        &amounts,
        meta,
    );

    assert_eq!(result, Err(MintBurnError::ZeroAddress));
}

#[test]
fn test_mint_length_mismatch() {
    let mut balances = TokenBalancesMap::new();
    let mut total_supply = TotalSupplyMap::new();
    let mut metadata_map = TokenMetadataMap::new();
    let mut owners = OwnersMap::new();

    let to = actor_id();
    let ids = vec![token_id()];
    let amounts = vec![U256::one(), U256::one()]; // mismatch length
    let meta = vec![None];

    let result = mint(
        &mut balances,
        &mut total_supply,
        &mut metadata_map,
        &mut owners,
        to,
        &ids,
        &amounts,
        meta,
    );

    assert_eq!(result, Err(MintBurnError::LengthMismatch));
}

#[test]
fn test_mint_duplicate_token_ids() {
    let mut balances = TokenBalancesMap::new();
    let mut total_supply = TotalSupplyMap::new();
    let mut metadata_map = TokenMetadataMap::new();
    let mut owners = OwnersMap::new();

    let to = actor_id();
    let ids = vec![token_id(), token_id()]; // duplicate ids
    let amounts = vec![U256::one(), U256::one()];
    let meta = vec![None, None];

    let result = mint(
        &mut balances,
        &mut total_supply,
        &mut metadata_map,
        &mut owners,
        to,
        &ids,
        &amounts,
        meta,
    );

    assert_eq!(result, Err(MintBurnError::IdIsNotUnique));
}

#[test]
fn test_burn_success() {
    let mut balances = TokenBalancesMap::new();
    let mut total_supply = TotalSupplyMap::new();
    let metadata_map = TokenMetadataMap::new();
    let mut owners = OwnersMap::new();

    let from = actor_id();
    let ids = vec![token_id()];
    let amounts = vec![U256::one()];

    // Simulate minting
    balances.insert((token_id().lo, token_id().hi, from.id), quantity(1));
    total_supply.insert((token_id().lo, token_id().hi, 0), quantity(1));

    let result = burn(
        &mut balances,
        &mut total_supply,
        &metadata_map,
        &mut owners,
        from,
        &ids,
        &amounts,
    );

    assert!(result.is_ok());
    // A balance driven to zero leaves no entry behind: the raw lookup finds
    // nothing, and the read comes back as zero.
    assert_eq!(get_balance(&balances, &from, &ids[0]), U256::zero());
    assert!(!balances.contains_key((token_id().lo, token_id().hi, from.id)));
    assert_eq!(
        token_ledger::extended_vmt::get_supply(&total_supply, &ids[0]),
        U256::zero()
    );
    assert!(!total_supply.contains_key((token_id().lo, token_id().hi, 0)));
}

#[test]
fn test_burn_insufficient_balance() {
    let mut balances = TokenBalancesMap::new();
    let mut total_supply = TotalSupplyMap::new();
    let metadata_map = TokenMetadataMap::new();
    let mut owners = OwnersMap::new();

    let from = actor_id();
    let ids = vec![token_id()];
    let amounts = vec![U256::from_u64(5)];

    // Simulate a balance less than the amount to burn
    balances.insert((token_id().lo, token_id().hi, from.id), quantity(1));
    total_supply.insert((token_id().lo, token_id().hi, 0), quantity(1));

    let result = burn(
        &mut balances,
        &mut total_supply,
        &metadata_map,
        &mut owners,
        from,
        &ids,
        &amounts,
    );

    assert_eq!(result, Err(MintBurnError::NotEnoughBalance));
}

#[test]
fn test_burn_length_mismatch() {
    let mut balances = TokenBalancesMap::new();
    let mut total_supply = TotalSupplyMap::new();
    let metadata_map = TokenMetadataMap::new();
    let mut owners = OwnersMap::new();

    let from = actor_id();
    let ids = vec![token_id()];
    let amounts = vec![U256::one(), U256::one()]; // mismatch length

    let result = burn(
        &mut balances,
        &mut total_supply,
        &metadata_map,
        &mut owners,
        from,
        &ids,
        &amounts,
    );

    assert_eq!(result, Err(MintBurnError::LengthMismatch));
}
