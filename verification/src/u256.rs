//! The numeric layer of the ledgers: a 256-bit unsigned quantity with
//! checked arithmetic, and a wrapper that can only hold a non-zero quantity.

use vstd::prelude::*;

verus! {

/// One past the largest value a 128-bit limb can hold.
pub open spec fn limb_base() -> nat {
    0x1_0000_0000_0000_0000_0000_0000_0000_0000nat
}

/// One past the largest value a `U256` can hold.
pub open spec fn u256_limit() -> nat {
    0x1_0000_0000_0000_0000_0000_0000_0000_0000_0000_0000_0000_0000_0000_0000_0000_0000nat
}

/// A 256-bit unsigned quantity: the domain of every balance, allowance and
/// total supply in the ledgers. It is stored as two 128-bit limbs; its
/// mathematical value is `lo + hi * 2^128`.
#[derive(Clone, Copy, Debug, PartialEq, Eq, Structural)]
pub struct U256 {
    pub lo: u128,
    pub hi: u128,
}

impl View for U256 {
    type V = nat;

    open spec fn view(&self) -> nat {
        (self.lo + self.hi * limb_base()) as nat
    }
}

/// Two quantities are the same value exactly when they are the same pair of
/// limbs, so `==` on `U256` agrees with equality of mathematical values.
pub proof fn lemma_u256_eq_is_value_eq(a: U256, b: U256)
    ensures
        (a == b) <==> a@ == b@,
{
}

impl U256 {
    pub fn zero() -> (r: U256)
        ensures
            r@ == 0,
    {
        U256 { lo: 0, hi: 0 }
    }

    pub fn one() -> (r: U256)
        ensures
            r@ == 1,
    {
        U256 { lo: 1, hi: 0 }
    }

    /// The largest representable quantity.
    pub fn max_value() -> (r: U256)
        ensures
            r@ == u256_limit() - 1,
    {
        U256 { lo: u128::MAX, hi: u128::MAX }
    }

    pub fn from_u64(v: u64) -> (r: U256)
        ensures
            r@ == v,
    {
        U256 { lo: v as u128, hi: 0 }
    }

    pub fn from_u128(v: u128) -> (r: U256)
        ensures
            r@ == v,
    {
        U256 { lo: v, hi: 0 }
    }

    pub fn is_zero(&self) -> (r: bool)
        ensures
            r <==> self@ == 0,
    {
        self.lo == 0 && self.hi == 0
    }

    pub fn lt(&self, rhs: &U256) -> (r: bool)
        ensures
            r <==> self@ < rhs@,
    {
        self.hi < rhs.hi || (self.hi == rhs.hi && self.lo < rhs.lo)
    }

    pub fn le(&self, rhs: &U256) -> (r: bool)
        ensures
            r <==> self@ <= rhs@,
    {
        self.hi < rhs.hi || (self.hi == rhs.hi && self.lo <= rhs.lo)
    }

    /// The sum, or `None` when it would not fit in 256 bits.
    pub fn checked_add(&self, rhs: &U256) -> (r: Option<U256>)
        ensures
            (r is Some) <==> self@ + rhs@ < u256_limit(),
            r matches Some(s) ==> s@ == self@ + rhs@,
    {
        let (lo, carry): (u128, u128) = match self.lo.checked_add(rhs.lo) {
            Some(l) => (l, 0),
            None => ((self.lo - (u128::MAX - rhs.lo)) - 1, 1),
        };
        let hi_partial = match self.hi.checked_add(rhs.hi) {
            Some(h) => h,
            None => {
                return None;
            },
        };
        let hi = match hi_partial.checked_add(carry) {
            Some(h) => h,
            None => {
                return None;
            },
        };
        Some(U256 { lo, hi })
    }

    /// The difference, or `None` when `rhs` exceeds `self`.
    pub fn checked_sub(&self, rhs: &U256) -> (r: Option<U256>)
        ensures
            (r is Some) <==> rhs@ <= self@,
            r matches Some(d) ==> d@ == self@ - rhs@,
    {
        let (lo, borrow): (u128, u128) = match self.lo.checked_sub(rhs.lo) {
            Some(l) => (l, 0),
            None => (((u128::MAX - rhs.lo) + self.lo) + 1, 1),
        };
        let hi_partial = match self.hi.checked_sub(rhs.hi) {
            Some(h) => h,
            None => {
                proof {
                    assert((rhs.hi - self.hi) * limb_base() >= 1 * limb_base())
                        by (nonlinear_arith)
                        requires
                            rhs.hi - self.hi >= 1,
                    ;
                    assert(rhs.hi * limb_base() - self.hi * limb_base() == (rhs.hi - self.hi)
                        * limb_base()) by (nonlinear_arith);
                }
                return None;
            },
        };
        let hi = match hi_partial.checked_sub(borrow) {
            Some(h) => h,
            None => {
                return None;
            },
        };
        proof {
            if borrow == 1 {
                assert(self.hi >= rhs.hi + 1);
                assert((self.hi - rhs.hi) * limb_base() >= 1 * limb_base()) by (nonlinear_arith)
                    requires
                        self.hi - rhs.hi >= 1,
                ;
                assert(self.hi * limb_base() - rhs.hi * limb_base() == (self.hi - rhs.hi)
                    * limb_base()) by (nonlinear_arith);
                assert(rhs@ <= self@);
                assert(hi * limb_base() == self.hi * limb_base() - rhs.hi * limb_base()
                    - limb_base()) by (nonlinear_arith)
                    requires
                        hi == self.hi - rhs.hi - 1,
                ;
            } else {
                assert(rhs.lo <= self.lo);
                assert(rhs.hi <= self.hi);
                assert(rhs.hi * limb_base() <= self.hi * limb_base()) by (nonlinear_arith)
                    requires
                        rhs.hi <= self.hi,
                ;
                assert(rhs@ <= self@);
                assert(hi * limb_base() == self.hi * limb_base() - rhs.hi * limb_base())
                    by (nonlinear_arith)
                    requires
                        hi == self.hi - rhs.hi,
                ;
            }
        }
        Some(U256 { lo, hi })
    }
}

/// Failure of converting a plain quantity into a `NonZeroU256`: the value was
/// zero.
#[derive(Clone, Copy, Debug, PartialEq, Eq, Structural)]
pub struct TryFromU256Error;

/// A quantity known to be non-zero: the only value shape a ledger ever
/// stores, so that absence of an entry is the sole representation of zero.
#[derive(Clone, Copy, Debug, PartialEq, Eq, Structural)]
pub struct NonZeroU256 {
    value: U256,
}

impl View for NonZeroU256 {
    type V = nat;

    closed spec fn view(&self) -> nat {
        self.value@
    }
}

impl NonZeroU256 {
    /// A stored quantity is well formed when it is not zero.
    pub open spec fn wf(&self) -> bool {
        self@ > 0
    }

    /// `None` exactly when the given quantity is zero.
    pub fn new(v: U256) -> (r: Option<NonZeroU256>)
        ensures
            (r is None) <==> v@ == 0,
            r matches Some(n) ==> n@ == v@ && n.wf(),
    {
        if v.is_zero() {
            None
        } else {
            Some(NonZeroU256 { value: v })
        }
    }

    /// Fails exactly when the given quantity is zero.
    pub fn try_from_u256(v: U256) -> (r: Result<NonZeroU256, TryFromU256Error>)
        ensures
            (r is Err) <==> v@ == 0,
            r matches Ok(n) ==> n@ == v@ && n.wf(),
    {
        if v.is_zero() {
            Err(TryFromU256Error)
        } else {
            Ok(NonZeroU256 { value: v })
        }
    }

    /// Conversion back to a plain quantity is total and lossless.
    pub fn get(&self) -> (r: U256)
        ensures
            r@ == self@,
    {
        self.value
    }
}

} // verus!
