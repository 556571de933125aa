//! How the fee on a traded SOL amount is computed and divided between the
//! protocol and the asset's creator.

use vstd::prelude::*;
use crate::constants::{BASIS_POINTS_DENOMINATOR, PERCENT_DENOMINATOR};
use crate::errors::FuseError;

verus! {

/// The fee on one trade and how it is divided.
#[derive(Clone, Copy, Debug, PartialEq, Eq, Structural)]
pub struct FeeSplit {
    /// The whole fee.
    pub total_fee: u64,
    /// The protocol's part, before any referral share is taken from it.
    pub protocol_fee: u64,
    /// The creator's part.
    pub creator_fee: u64,
    /// The traded amount less the whole fee.
    pub net_amount: u64,
}

/// The fee on `amount` at `fee_basis_points`, rounded down.
pub open spec fn total_fee(amount: int, fee_basis_points: int) -> int {
    (amount * fee_basis_points) / 10_000
}

/// The protocol's part of `total_fee` at `protocol_share` percent, rounded
/// down.
pub open spec fn protocol_fee(total_fee: int, protocol_share: int) -> int {
    (total_fee * protocol_share) / 100
}

/// Whether every step of the fee computation stays in range: the two
/// products fit in 64 bits, the protocol's part is no more than the fee, and
/// the fee is no more than the amount.
pub open spec fn fee_split_fits(amount: u64, fee_basis_points: u64, protocol_share: u64) -> bool {
    let total = total_fee(amount as int, fee_basis_points as int);
    let protocol = protocol_fee(total, protocol_share as int);
    &&& amount * fee_basis_points <= u64::MAX
    &&& total * protocol_share <= u64::MAX
    &&& protocol <= total
    &&& total <= amount
}

/// The fee on `amount` and its division, where `fee_split_fits`.
pub open spec fn fee_split(amount: u64, fee_basis_points: u64, protocol_share: u64) -> FeeSplit {
    let total = total_fee(amount as int, fee_basis_points as int);
    let protocol = protocol_fee(total, protocol_share as int);
    FeeSplit {
        total_fee: total as u64,
        protocol_fee: protocol as u64,
        creator_fee: (total - protocol) as u64,
        net_amount: (amount - total) as u64,
    }
}

/// The fee on `amount` and its division between protocol and creator.
/// Refused with `MathOverflow` exactly when a step leaves its range.
pub fn split_fee(amount: u64, fee_basis_points: u64, protocol_share: u64) -> (r: Result<
    FeeSplit,
    FuseError,
>)
    ensures
        r is Ok <==> fee_split_fits(amount, fee_basis_points, protocol_share),
        r matches Err(e) ==> e == FuseError::MathOverflow,
        r matches Ok(split) ==> {
            &&& split.total_fee == (amount * fee_basis_points) / 10_000
            &&& split.protocol_fee == (split.total_fee * protocol_share) / 100
            &&& split.creator_fee == split.total_fee - split.protocol_fee
            &&& split.net_amount == amount - split.total_fee
            &&& split == fee_split(amount, fee_basis_points, protocol_share)
        },
{
    let scaled: u64 = match amount.checked_mul(fee_basis_points) {
        Some(v) => v,
        None => {
            return Err(FuseError::MathOverflow);
        },
    };
    let total: u64 = scaled / BASIS_POINTS_DENOMINATOR;
    let shared: u64 = match total.checked_mul(protocol_share) {
        Some(v) => v,
        None => {
            return Err(FuseError::MathOverflow);
        },
    };
    let protocol: u64 = shared / PERCENT_DENOMINATOR;
    let creator: u64 = match total.checked_sub(protocol) {
        Some(v) => v,
        None => {
            return Err(FuseError::MathOverflow);
        },
    };
    let net: u64 = match amount.checked_sub(total) {
        Some(v) => v,
        None => {
            return Err(FuseError::MathOverflow);
        },
    };
    Ok(FeeSplit { total_fee: total, protocol_fee: protocol, creator_fee: creator, net_amount: net })
}

/// The parts of a fee add up to the fee, the fee and the net amount add up
/// to the traded amount, and the fee is the traded amount times the rate,
/// rounded down.
pub proof fn lemma_fee_split_is_exact(amount: u64, fee_basis_points: u64, protocol_share: u64)
    requires
        fee_split_fits(amount, fee_basis_points, protocol_share),
    ensures
        ({
            let split = fee_split(amount, fee_basis_points, protocol_share);
            &&& split.total_fee == (amount * fee_basis_points) / 10000
            &&& split.protocol_fee == (split.total_fee * protocol_share) / 100
            &&& split.protocol_fee + split.creator_fee == split.total_fee
            &&& split.net_amount + split.total_fee == amount
        }),
{
    let total = total_fee(amount as int, fee_basis_points as int);
    let protocol = protocol_fee(total, protocol_share as int);
    assert(0 <= amount * fee_basis_points) by (nonlinear_arith);
    assert(0 <= total);
    assert(0 <= total * protocol_share) by (nonlinear_arith)
        requires
            0 <= total,
    ;
    assert(0 <= protocol);
}

/// With a rate of at most 10000 basis points and a share of at most 100
/// percent, the fee computation leaves its range only where the first
/// product does not fit in 64 bits.
pub proof fn lemma_fee_split_fits(amount: u64, fee_basis_points: u64, protocol_share: u64)
    requires
        fee_basis_points <= 10000,
        protocol_share <= 100,
        amount * fee_basis_points <= u64::MAX,
    ensures
        fee_split_fits(amount, fee_basis_points, protocol_share),
{
    let total = total_fee(amount as int, fee_basis_points as int);
    let protocol = protocol_fee(total, protocol_share as int);
    assert(0 <= amount * fee_basis_points <= amount * 10000) by (nonlinear_arith)
        requires
            fee_basis_points <= 10000,
    ;
    assert(0 <= total <= amount);
    assert(0 <= total * protocol_share <= total * 100) by (nonlinear_arith)
        requires
            0 <= total,
            protocol_share <= 100,
    ;
    assert(total * 100 <= u64::MAX) by {
        assert(total * 10000 <= amount * fee_basis_points);
    }
    assert(protocol <= total);
}

/// At a rate of at most 10000 basis points a larger amount leaves no
/// smaller net amount, and pays no smaller fee.
pub proof fn lemma_net_amount_is_monotonic(a: u64, b: u64, fee_basis_points: u64)
    requires
        a <= b,
        fee_basis_points <= 10_000,
    ensures
        total_fee(a as int, fee_basis_points as int) <= total_fee(
            b as int,
            fee_basis_points as int,
        ),
        a - total_fee(a as int, fee_basis_points as int) <= b - total_fee(
            b as int,
            fee_basis_points as int,
        ),
        0 <= total_fee(a as int, fee_basis_points as int) <= a,
{
    let fa = total_fee(a as int, fee_basis_points as int);
    let fb = total_fee(b as int, fee_basis_points as int);
    let d = b - a;
    assert(0 <= a * fee_basis_points <= a * 10_000) by (nonlinear_arith)
        requires
            fee_basis_points <= 10_000,
    ;
    assert(b * fee_basis_points == a * fee_basis_points + d * fee_basis_points
        && 0 <= d * fee_basis_points <= d * 10_000) by (nonlinear_arith)
        requires
            d == b - a,
            d >= 0,
            fee_basis_points <= 10_000,
    ;
}

} // verus!
