//! The proportional fee and the split of a gross amount into the merchant's
//! share and the fee.

use crate::error::ErrorCode;
use vstd::prelude::*;

verus! {

/// One basis point is a hundredth of a percent: this many make the whole.
pub const BASIS_POINT_SCALE: u64 = 10_000;

/// The largest fee rate a merchant may register, in basis points (ten percent).
pub const MAX_FEE_BASIS_POINTS: u16 = 1000;

/// The fee on `amount` at `fee_basis_points`, rounded down.
pub open spec fn fee_of(amount: u64, fee_basis_points: u16) -> int {
    (amount as int * fee_basis_points as int) / 10_000
}

/// The split of `amount`: the merchant's share first, the fee second. A fee
/// larger than the amount itself cannot be taken, and is refused.
pub open spec fn split_of(amount: u64, fee_basis_points: u16) -> Result<(u64, u64), ErrorCode> {
    let fee = fee_of(amount, fee_basis_points);
    if fee <= amount {
        Ok(((amount - fee) as u64, fee as u64))
    } else {
        Err(ErrorCode::FeeTooHigh)
    }
}

/// A fee is never negative, never more than the rate's share of the amount,
/// and at a rate of at most the whole it never exceeds the amount.
pub proof fn lemma_fee_bounds(amount: u64, fee_basis_points: u16)
    ensures
        0 <= fee_of(amount, fee_basis_points),
        fee_of(amount, fee_basis_points) * 10_000 <= amount * fee_basis_points,
        amount * fee_basis_points < (fee_of(amount, fee_basis_points) + 1) * 10_000,
        fee_basis_points <= BASIS_POINT_SCALE ==> fee_of(amount, fee_basis_points) <= amount,
        fee_basis_points == 0 ==> fee_of(amount, fee_basis_points) == 0,
{
    let a = amount as int;
    let b = fee_basis_points as int;
    let p = a * b;
    assert(0 <= p) by (nonlinear_arith)
        requires
            0 <= a,
            0 <= b,
            p == a * b,
    ;
    assert(b <= 10_000 ==> p <= a * 10_000) by (nonlinear_arith)
        requires
            0 <= a,
            0 <= b,
            p == a * b,
    ;
    assert(b == 0 ==> p == 0) by (nonlinear_arith)
        requires
            p == a * b,
    ;
}

/// Splits `amount` into the merchant's share and the fee at `fee_basis_points`.
///
/// The fee is `amount * fee_basis_points / 10_000` rounded down, and the two
/// parts always add up to `amount`. At every rate a merchant can register the
/// split succeeds; it is refused only where the fee would exceed the amount.
pub fn split(amount: u64, fee_basis_points: u16) -> (result: Result<(u64, u64), ErrorCode>)
    ensures
        result == split_of(amount, fee_basis_points),
        fee_basis_points <= MAX_FEE_BASIS_POINTS ==> result is Ok,
        result matches Ok((merchant_amount, fee_amount)) ==> {
            &&& merchant_amount + fee_amount == amount
            &&& fee_amount == fee_of(amount, fee_basis_points)
        },
        result matches Err(code) ==> {
            &&& code == ErrorCode::FeeTooHigh
            &&& fee_of(amount, fee_basis_points) > amount
        },
{
    proof {
        lemma_fee_bounds(amount, fee_basis_points);
    }
    let wide_amount: u128 = amount as u128;
    let wide_rate: u128 = fee_basis_points as u128;
    assert(wide_amount * wide_rate <= u128::MAX) by (nonlinear_arith)
        requires
            wide_amount <= u64::MAX,
            wide_rate <= u16::MAX,
    ;
    let product: u128 = match wide_amount.checked_mul(wide_rate) {
        Some(product) => product,
        None => { return Err(ErrorCode::FeeTooHigh); },
    };
    let wide_fee: u128 = match product.checked_div(10_000) {
        Some(fee) => fee,
        None => { return Err(ErrorCode::FeeTooHigh); },
    };
    if wide_fee > u64::MAX as u128 {
        return Err(ErrorCode::FeeTooHigh);
    }
    let fee_amount: u64 = wide_fee as u64;
    match amount.checked_sub(fee_amount) {
        Some(merchant_amount) => Ok((merchant_amount, fee_amount)),
        None => Err(ErrorCode::FeeTooHigh),
    }
}

} // verus!
