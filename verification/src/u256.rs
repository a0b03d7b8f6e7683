//! Unsigned 256-bit amounts, held as 32 big-endian bytes. The arithmetic is
//! that of `cosmwasm_std::Uint256`.
use vstd::prelude::*;

verus! {

/// The number that a big-endian byte string denotes.
pub open spec fn be_value(s: Seq<u8>) -> nat
    decreases s.len(),
{
    if s.len() == 0 {
        0
    } else {
        be_value(s.drop_last()) * 256 + s.last() as nat
    }
}

/// 2^256: every 256-bit amount lies below it.
pub open spec fn u256_limit() -> nat {
    vstd::arithmetic::power2::pow2(256)
}

/// An unsigned 256-bit integer, stored big-endian.
#[derive(Clone, Copy, Debug, PartialEq, Eq)]
pub struct U256 {
    pub be: [u8; 32],
}

impl U256 {
    /// The number this amount denotes.
    pub open spec fn value(&self) -> nat {
        be_value(self.be@)
    }

    pub fn from_be_bytes(bytes: [u8; 32]) -> (r: U256)
        ensures
            r.be@ == bytes@,
    {
        U256 { be: bytes }
    }

    pub fn to_be_bytes(&self) -> (r: [u8; 32])
        ensures
            r@ == self.be@,
    {
        self.be
    }

    /// The amount `x`, as `Uint256::from(x)` gives it.
    pub fn from_u128(x: u128) -> (r: U256)
        ensures
            r.value() == x,
    {
        uint256_from_u128(x)
    }

    /// `self < other`, by the order of the numbers.
    pub fn lt(&self, other: &U256) -> (r: bool)
        ensures
            r == (self.value() < other.value()),
    {
        uint256_lt(self, other)
    }

    /// The sum, or `None` where it does not fit in 256 bits.
    pub fn checked_add(&self, other: &U256) -> (r: Option<U256>)
        ensures
            r is Some <==> self.value() + other.value() < u256_limit(),
            r matches Some(s) ==> s.value() == self.value() + other.value(),
    {
        uint256_checked_add(self, other)
    }

    /// The product, or `None` where it does not fit in 256 bits.
    pub fn checked_mul(&self, other: &U256) -> (r: Option<U256>)
        ensures
            r is Some <==> self.value() * other.value() < u256_limit(),
            r matches Some(p) ==> p.value() == self.value() * other.value(),
    {
        uint256_checked_mul(self, other)
    }
}

/// `cosmwasm_std::Uint256::from(u128)`, read back with `to_be_bytes`: the
/// 32-byte big-endian form of `x`.
#[verifier::external_body]
fn uint256_from_u128(x: u128) -> (r: U256)
    ensures
        r.value() == x,
{
    U256 { be: cosmwasm_std::Uint256::from(x).to_be_bytes() }
}

/// `<` on `cosmwasm_std::Uint256` (its derived `PartialOrd`, the numeric
/// order), on the values that `Uint256::from_be_bytes` reads from the bytes.
#[verifier::external_body]
fn uint256_lt(a: &U256, b: &U256) -> (r: bool)
    ensures
        r == (a.value() < b.value()),
{
    cosmwasm_std::Uint256::from_be_bytes(a.be) < cosmwasm_std::Uint256::from_be_bytes(b.be)
}

/// `cosmwasm_std::Uint256::checked_add`: the sum when it is below 2^256,
/// an `OverflowError` (here `None`) otherwise.
#[verifier::external_body]
fn uint256_checked_add(a: &U256, b: &U256) -> (r: Option<U256>)
    ensures
        r is Some <==> a.value() + b.value() < u256_limit(),
        r matches Some(s) ==> s.value() == a.value() + b.value(),
{
    let x = cosmwasm_std::Uint256::from_be_bytes(a.be);
    match x.checked_add(cosmwasm_std::Uint256::from_be_bytes(b.be)) {
        Ok(s) => Some(U256 { be: s.to_be_bytes() }),
        Err(_) => None,
    }
}

/// `cosmwasm_std::Uint256::checked_mul`: the product when it is below 2^256,
/// an `OverflowError` (here `None`) otherwise.
#[verifier::external_body]
fn uint256_checked_mul(a: &U256, b: &U256) -> (r: Option<U256>)
    ensures
        r is Some <==> a.value() * b.value() < u256_limit(),
        r matches Some(p) ==> p.value() == a.value() * b.value(),
{
    let x = cosmwasm_std::Uint256::from_be_bytes(a.be);
    match x.checked_mul(cosmwasm_std::Uint256::from_be_bytes(b.be)) {
        Ok(p) => Some(U256 { be: p.to_be_bytes() }),
        Err(_) => None,
    }
}

} // verus!
