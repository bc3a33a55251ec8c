//! The smallest Ethereum denomination as a unit-tagged 256-bit integer.
//! Conversion from and to bare integers is always an explicit, named
//! operation, and arithmetic is checked: overflow and underflow yield an
//! explicit absence of result rather than wraparound.

use vstd::prelude::*;
use crate::u256::{u256_be_bytes, u256_to_arr, U256};

verus! {

/// One ETH in Wei: 10^18.
pub const ETH_IN_WEI: u64 = 1_000_000_000_000_000_000;

/// Newtype to distinguish balances (denominated in Wei) from other 256-bit
/// quantities.
#[derive(Debug, PartialEq, Eq, Structural, PartialOrd, Ord, Copy, Clone)]
pub struct Wei(U256);

impl Wei {
    /// The wrapped 256-bit integer.
    pub closed spec fn raw_spec(self) -> U256 {
        self.0
    }

    /// The amount of Wei this value denotes.
    pub open spec fn as_nat(self) -> nat {
        self.raw_spec().as_nat()
    }

    pub fn zero() -> (r: Self)
        ensures
            r.as_nat() == 0,
    {
        Wei(U256::zero())
    }

    pub fn new(amount: U256) -> (r: Self)
        ensures
            r.raw_spec() == amount,
            r.as_nat() == amount.as_nat(),
    {
        Wei(amount)
    }

    /// Tags a 64-bit amount as Wei; the widened value is unchanged.
    pub fn new_u64(amount: u64) -> (r: Self)
        ensures
            r.as_nat() == amount as nat,
    {
        Wei(U256::from_u64(amount))
    }

    /// Converts a whole-ETH amount by multiplying with 10^18, checked.
    pub fn from_eth(amount: U256) -> (r: Option<Self>)
        ensures
            r is Some <==> amount.as_nat() * (ETH_IN_WEI as nat)
                < 0x10000000000000000000000000000000000000000000000000000000000000000,
            r is Some ==> r->Some_0.as_nat() == amount.as_nat() * (ETH_IN_WEI as nat),
    {
        match amount.checked_mul_u64(ETH_IN_WEI) {
            Some(v) => Some(Wei(v)),
            None => None,
        }
    }

    /// The 32-byte big-endian rendering of the amount;
    /// `crate::u256::lemma_u256_be_bytes_value` ties it to the value.
    pub fn to_bytes(self) -> (r: [u8; 32])
        ensures
            r@ == u256_be_bytes(self.raw_spec()),
    {
        u256_to_arr(&self.0)
    }

    pub fn is_zero(&self) -> (r: bool)
        ensures
            r <==> self.as_nat() == 0,
    {
        self.0.is_zero()
    }

    /// The untagging direction: hands back exactly the wrapped integer.
    pub fn raw(self) -> (r: U256)
        ensures
            r == self.raw_spec(),
            r.as_nat() == self.as_nat(),
    {
        self.0
    }

    /// Never wraps: the result is absent whenever the subtrahend exceeds
    /// the minuend.
    pub fn checked_sub(self, other: Self) -> (r: Option<Self>)
        ensures
            r is Some <==> other.as_nat() <= self.as_nat(),
            r is Some ==> r->Some_0.as_nat() == self.as_nat() - other.as_nat(),
    {
        match self.0.checked_sub(other.0) {
            Some(v) => Some(Wei(v)),
            None => None,
        }
    }

    /// Never wraps: the result is absent whenever the sum needs 257 bits.
    pub fn checked_add(self, other: Self) -> (r: Option<Self>)
        ensures
            r is Some <==> self.as_nat() + other.as_nat()
                < 0x10000000000000000000000000000000000000000000000000000000000000000,
            r is Some ==> r->Some_0.as_nat() == self.as_nat() + other.as_nat(),
    {
        match self.0.checked_add(other.0) {
            Some(v) => Some(Wei(v)),
            None => None,
        }
    }
}

/// Wei round trip: tagging a 64-bit amount as Wei and untagging it again
/// yields the amount widened to 256 bits, exactly as `new_u64` and `raw`
/// promise through the value view.
pub proof fn lemma_wei_u64_round_trip(w: Wei, u: u64)
    requires
        w.as_nat() == u as nat,
    ensures
        w.raw_spec().as_nat() == u as nat,
{
}

/// Any 64-bit ETH amount times 10^18 still fits in 256 bits, so `from_eth`
/// succeeds on every widened 64-bit input.
pub proof fn lemma_eth_u64_always_fits(e: u64)
    ensures
        e as nat * (ETH_IN_WEI as nat)
            < 0x10000000000000000000000000000000000000000000000000000000000000000,
{
    assert(e as nat * 1_000_000_000_000_000_000
        <= 0xffffffffffffffff as nat * 1_000_000_000_000_000_000) by (nonlinear_arith)
        requires
            e <= 0xffffffffffffffff,
    ;
}

} // verus!
