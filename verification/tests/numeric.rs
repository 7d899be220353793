//! The 256-bit quantity: checked arithmetic at the limb boundaries, order,
//! and the non-zero wrapper.

use token_ledger::u256::{NonZeroU256, TryFromU256Error, U256};

#[test]
fn checked_add_carries_across_limbs() {
    // 2^128 - 1 plus one carries into the high limb.
    let low_max = U256::max_value().checked_sub(&U256::from_u128(u128::MAX)).unwrap();
    let a = U256::max_value().checked_sub(&low_max).unwrap();
    assert_eq!(a, U256::from_u128(u128::MAX));
    let b = a.checked_add(&U256::one()).unwrap();
    assert!(U256::from_u128(u128::MAX).lt(&b));
    assert_eq!(b.checked_sub(&U256::one()).unwrap(), a);
}

#[test]
fn checked_add_detects_overflow() {
    assert_eq!(U256::max_value().checked_add(&U256::one()), None);
    assert_eq!(U256::max_value().checked_add(&U256::zero()), Some(U256::max_value()));
    let half = U256::max_value().checked_sub(&U256::from_u64(1)).unwrap();
    assert_eq!(half.checked_add(&U256::from_u64(2)), None);
    assert_eq!(half.checked_add(&U256::from_u64(1)), Some(U256::max_value()));
}

#[test]
fn checked_sub_detects_underflow() {
    assert_eq!(U256::zero().checked_sub(&U256::one()), None);
    assert_eq!(U256::one().checked_sub(&U256::one()), Some(U256::zero()));
    // Borrow across the limb boundary.
    let big = U256::from_u128(u128::MAX).checked_add(&U256::from_u64(5)).unwrap();
    let diff = big.checked_sub(&U256::from_u64(6)).unwrap();
    assert_eq!(diff.checked_add(&U256::from_u64(6)).unwrap(), big);
}

#[test]
fn ordering_follows_value() {
    let small = U256::from_u64(7);
    let large = U256::from_u128(u128::MAX).checked_add(&U256::one()).unwrap();
    assert!(small.lt(&large));
    assert!(!large.lt(&small));
    assert!(small.le(&small));
    assert!(small.le(&large));
    assert!(U256::zero().is_zero());
    assert!(!U256::one().is_zero());
}

#[test]
fn non_zero_quantity_construction() {
    assert!(NonZeroU256::new(U256::zero()).is_none());
    assert_eq!(NonZeroU256::try_from_u256(U256::zero()), Err(TryFromU256Error));
    let q = NonZeroU256::new(U256::from_u64(42)).unwrap();
    // Conversion back is total and lossless.
    assert_eq!(q.get(), U256::from_u64(42));
    let q2 = NonZeroU256::try_from_u256(U256::from_u64(42)).unwrap();
    assert_eq!(q, q2);
}
