//! Account identities. An identity is an opaque account number; the ledgers
//! only ever compare identities and test for the distinguished zero account.

use vstd::prelude::*;

verus! {

/// An account identity. The zero identity is never a valid holder, spender
/// or recipient; the ledgers reject it wherever it would gain a balance or
/// an authorization.
#[derive(Clone, Copy, Debug, PartialEq, Eq, Structural)]
pub struct ActorId {
    pub id: u128,
}

impl View for ActorId {
    type V = u128;

    open spec fn view(&self) -> u128 {
        self.id
    }
}

impl ActorId {
    /// The distinguished zero account.
    pub fn zero() -> (r: ActorId)
        ensures
            r@ == 0,
    {
        ActorId { id: 0 }
    }

    pub fn from_u64(v: u64) -> (r: ActorId)
        ensures
            r@ == v,
    {
        ActorId { id: v as u128 }
    }

    pub fn from_u128(v: u128) -> (r: ActorId)
        ensures
            r@ == v,
    {
        ActorId { id: v }
    }

    pub fn is_zero(&self) -> (r: bool)
        ensures
            r <==> self@ == 0,
    {
        self.id == 0
    }
}

} // verus!
