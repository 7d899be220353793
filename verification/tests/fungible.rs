//! The fungible ledger: the full mint/burn/transfer/approve scenario, the
//! no-op and failure paths, role gating, and batch minting.

use token_ledger::actor::ActorId;
use token_ledger::extended_vft::{Event as ExtEvent, ExtendedService, ServiceError};
use token_ledger::program::Program;
use token_ledger::u256::{NonZeroU256, U256};
use token_ledger::vft::{balance_of, transfer, BalancesMap, Error};
use token_ledger::vft_service::Event;

fn admin() -> ActorId {
    ActorId::from_u64(10)
}

fn user1() -> ActorId {
    ActorId::from_u64(11)
}

fn user2() -> ActorId {
    ActorId::from_u64(12)
}

fn v(x: u64) -> U256 {
    U256::from_u64(x)
}

fn seeded() -> ExtendedService {
    ExtendedService::seed(admin(), "name".to_string(), "symbol".to_string(), 10)
}

/// Seed with admin `A`; mint 1000 to `A`, burn 100, transfer 100 to `U1`,
/// approve `U2` for 100, and let `U2` move 100 more from `A` to `U1`.
#[test]
fn scenario_mint_burn_transfer_approve() {
    let mut s = seeded();

    assert_eq!(s.mint(admin(), admin(), v(1000)), Ok(true));
    assert_eq!(s.balance_of(admin()), v(1000));
    assert_eq!(s.total_supply(), v(1000));
    assert_eq!(s.events.len(), 1);
    assert_eq!(s.events[0], ExtEvent::Minted { to: admin(), value: v(1000) });

    assert_eq!(s.burn(admin(), admin(), v(100)), Ok(true));
    assert_eq!(s.balance_of(admin()), v(900));

    assert_eq!(s.transfer(admin(), user1(), v(100)), Ok(true));
    assert_eq!(s.balance_of(admin()), v(800));
    assert_eq!(s.balance_of(user1()), v(100));

    assert_eq!(s.approve(admin(), user2(), v(100)), Ok(true));
    assert_eq!(s.allowance(admin(), user2()), v(100));

    assert_eq!(s.transfer_from(user2(), admin(), user1(), v(100)), Ok(true));
    assert_eq!(s.balance_of(admin()), v(700));
    assert_eq!(s.balance_of(user1()), v(200));
    assert_eq!(s.allowance(admin(), user2()), v(0));

    assert_eq!(s.total_supply(), v(900));
    assert_eq!(
        s.vft.events.last(),
        Some(&Event::Transfer { from: admin(), to: user1(), value: v(100) })
    );
}

/// Minting zero reports "no mutation", emits no event, and changes nothing.
#[test]
fn mint_zero_is_noop() {
    let mut s = seeded();
    assert_eq!(s.mint(admin(), admin(), v(500)), Ok(true));
    let entries_before = s.vft.balances.entries.clone();
    let events_before = s.events.len();

    assert_eq!(s.mint(admin(), user1(), v(0)), Ok(false));

    assert_eq!(s.vft.balances.entries, entries_before);
    assert_eq!(s.events.len(), events_before);
    assert_eq!(s.total_supply(), v(500));
}

/// Burning more than the holder's balance fails with `InsufficientBalance`
/// and leaves balances and supply untouched; more than the whole supply
/// fails with `Underflow`.
#[test]
fn burn_beyond_balance_fails_cleanly() {
    let mut s = seeded();
    assert_eq!(s.mint(admin(), admin(), v(100)), Ok(true));
    assert_eq!(s.mint(admin(), user1(), v(900)), Ok(true));

    assert_eq!(
        s.burn(admin(), admin(), v(500)),
        Err(ServiceError::Ledger(Error::InsufficientBalance))
    );
    assert_eq!(s.balance_of(admin()), v(100));
    assert_eq!(s.total_supply(), v(1000));

    assert_eq!(s.burn(admin(), admin(), v(2000)), Err(ServiceError::Ledger(Error::Underflow)));
    assert_eq!(s.balance_of(admin()), v(100));
    assert_eq!(s.total_supply(), v(1000));
}

/// A burn that drives a balance to zero removes the entry entirely.
#[test]
fn burn_to_zero_removes_entry() {
    let mut s = seeded();
    assert_eq!(s.mint(admin(), user1(), v(7)), Ok(true));
    assert_eq!(s.burn(admin(), user1(), v(7)), Ok(true));
    assert_eq!(s.balance_of(user1()), v(0));
    assert!(!s.vft.balances.contains_key((user1().id, 0, 0)));
}

/// If crediting the recipient would overflow 256 bits, the whole transfer
/// fails and the sender is not debited.
#[test]
fn transfer_overflow_leaves_sender_untouched() {
    let mut balances = BalancesMap::new();
    let rich = user1();
    let poor = user2();
    balances.insert((rich.id, 0, 0), NonZeroU256::new(U256::max_value()).unwrap());
    balances.insert((poor.id, 0, 0), NonZeroU256::new(v(100)).unwrap());

    assert_eq!(transfer(&mut balances, poor, rich, v(100)), Err(Error::NumericOverflow));
    assert_eq!(balance_of(&balances, poor), v(100));
    assert_eq!(balance_of(&balances, rich), U256::max_value());
}

/// Transfers to oneself and transfers of zero are no-ops.
#[test]
fn transfer_noop_cases() {
    let mut s = seeded();
    assert_eq!(s.mint(admin(), admin(), v(10)), Ok(true));
    assert_eq!(s.transfer(admin(), admin(), v(5)), Ok(false));
    assert_eq!(s.transfer(admin(), user1(), v(0)), Ok(false));
    assert_eq!(s.balance_of(admin()), v(10));
    assert_eq!(s.vft.events.len(), 0);
    assert_eq!(s.transfer(admin(), user1(), v(11)), Err(Error::InsufficientBalance));
    assert_eq!(s.balance_of(admin()), v(10));
}

/// A spender without enough allowance is refused before anything moves.
#[test]
fn transfer_from_needs_allowance() {
    let mut s = seeded();
    assert_eq!(s.mint(admin(), admin(), v(100)), Ok(true));
    assert_eq!(
        s.transfer_from(user2(), admin(), user1(), v(50)),
        Err(Error::InsufficientAllowance)
    );
    assert_eq!(s.approve(admin(), user2(), v(49)), Ok(true));
    assert_eq!(
        s.transfer_from(user2(), admin(), user1(), v(50)),
        Err(Error::InsufficientAllowance)
    );
    assert_eq!(s.balance_of(admin()), v(100));
    assert_eq!(s.allowance(admin(), user2()), v(49));
}

/// A maximal allowance is not an "unlimited" sentinel: it is consumed like
/// any other.
#[test]
fn max_allowance_is_consumed() {
    let mut s = seeded();
    assert_eq!(s.mint(admin(), admin(), v(100)), Ok(true));
    assert_eq!(s.approve(admin(), user2(), U256::max_value()), Ok(true));
    assert_eq!(s.transfer_from(user2(), admin(), user1(), v(100)), Ok(true));
    let expected = U256::max_value().checked_sub(&v(100)).unwrap();
    assert_eq!(s.allowance(admin(), user2()), expected);
}

/// Approval semantics: self-approval is a no-op, the zero account is
/// refused, setting the same value reports no change, and zero removes the
/// entry.
#[test]
fn approve_semantics() {
    let mut s = seeded();
    assert_eq!(s.approve(admin(), admin(), v(5)), Ok(false));
    assert_eq!(s.approve(admin(), ActorId::zero(), v(5)), Err(Error::InvalidInput));
    assert_eq!(s.approve(admin(), user1(), v(5)), Ok(true));
    assert_eq!(s.approve(admin(), user1(), v(5)), Ok(false));
    assert_eq!(s.approve(admin(), user1(), v(0)), Ok(true));
    assert_eq!(s.allowance(admin(), user1()), v(0));
    assert!(!s.vft.allowances.contains_key((admin().id, user1().id, 0)));
}

/// Role gating: an identity outside the required set is rejected with no
/// state change; granting the role enables the call and revoking it
/// disables it again.
#[test]
fn role_gating() {
    let mut s = seeded();

    assert_eq!(s.mint(user1(), user1(), v(1000)), Err(ServiceError::NotAllowedToMint));
    assert_eq!(s.balance_of(user1()), v(0));
    assert_eq!(s.events.len(), 0);

    assert_eq!(s.grant_minter_role(admin(), user1()), Ok(()));
    let minters = s.minters();
    assert!(minters.contains(&admin()));
    assert!(minters.contains(&user1()));
    assert_eq!(s.mint(user1(), user1(), v(1000)), Ok(true));
    assert_eq!(s.balance_of(user1()), v(1000));

    assert_eq!(s.burn(user1(), user1(), v(1000)), Err(ServiceError::NotAllowedToBurn));
    assert_eq!(s.grant_burner_role(admin(), user1()), Ok(()));
    let burners = s.burners();
    assert!(burners.contains(&admin()));
    assert!(burners.contains(&user1()));
    assert_eq!(s.burn(user1(), user1(), v(1000)), Ok(true));
    assert_eq!(s.balance_of(user1()), v(0));

    assert_eq!(s.grant_admin_role(admin(), user1()), Ok(()));
    let admins = s.admins();
    assert!(admins.contains(&admin()));
    assert!(admins.contains(&user1()));

    assert_eq!(s.revoke_admin_role(admin(), user1()), Ok(()));
    assert_eq!(s.admins(), vec![admin()]);
    assert_eq!(s.revoke_minter_role(admin(), user1()), Ok(()));
    assert_eq!(s.minters(), vec![admin()]);
    assert_eq!(s.revoke_burner_role(admin(), user1()), Ok(()));
    assert_eq!(s.burners(), vec![admin()]);

    assert_eq!(s.mint(user1(), user1(), v(1)), Err(ServiceError::NotAllowedToMint));
    assert_eq!(s.grant_minter_role(user1(), user1()), Err(ServiceError::NotAdmin));
}

/// Batch minting is atomic: unequal lists are refused, a batch that would
/// overflow half-way leaves nothing behind, and a good batch lands whole.
#[test]
fn batch_mint_atomicity() {
    let mut s = seeded();

    assert_eq!(
        s.batch_mint(admin(), vec![user1()], vec![v(1), v(2)]),
        Err(ServiceError::Ledger(Error::InvalidInput))
    );

    assert_eq!(
        s.batch_mint(admin(), vec![user1(), user2(), user1()], vec![v(1), v(2), v(3)]),
        Ok(true)
    );
    assert_eq!(s.balance_of(user1()), v(4));
    assert_eq!(s.balance_of(user2()), v(2));
    assert_eq!(s.total_supply(), v(6));

    assert_eq!(
        s.batch_mint(admin(), vec![user1(), user2()], vec![v(10), U256::max_value()]),
        Err(ServiceError::Ledger(Error::NumericOverflow))
    );
    assert_eq!(s.balance_of(user1()), v(4));
    assert_eq!(s.balance_of(user2()), v(2));
    assert_eq!(s.total_supply(), v(6));
}

/// The program wrapper seeds the ledger and hands out its services.
#[test]
fn program_wiring() {
    let mut p = Program::new(admin(), "name".to_string(), "symbol".to_string(), 10);
    assert_eq!(p.vft().vft.meta.decimals, 10);
    assert_eq!(p.erc20().name(), "name");
    assert_eq!(p.erc20().symbol(), "symbol");
    assert_eq!(p.service.mint(admin(), admin(), v(3)), Ok(true));
    assert_eq!(p.vft_master().vft.balance_of(admin()), v(3));
}
