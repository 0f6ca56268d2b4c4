use stickypay::error::ErrorCode;
use stickypay::fees::{split, BASIS_POINT_SCALE, MAX_FEE_BASIS_POINTS};

#[test]
fn split_at_two_and_a_half_percent() {
    assert_eq!(split(10_000, 250), Ok((9_750, 250)));
}

#[test]
fn split_rounds_the_fee_down() {
    assert_eq!(split(999, 250), Ok((975, 24)));
    assert_eq!(split(39, 250), Ok((39, 0)));
    assert_eq!(split(40, 250), Ok((39, 1)));
}

#[test]
fn split_without_fee_leaves_everything_to_the_merchant() {
    assert_eq!(split(10_000, 0), Ok((10_000, 0)));
    assert_eq!(split(0, 0), Ok((0, 0)));
    assert_eq!(split(0, 1000), Ok((0, 0)));
}

#[test]
fn split_of_the_largest_amount_at_the_largest_rate() {
    let amount = u64::MAX;
    let (merchant_amount, fee_amount) = split(amount, MAX_FEE_BASIS_POINTS).unwrap();
    assert_eq!(fee_amount, 1_844_674_407_370_955_161);
    assert_eq!(merchant_amount, amount - fee_amount);
}

#[test]
fn split_parts_add_up() {
    let amounts = [0u64, 1, 3, 39, 40, 41, 9_999, 10_000, 10_001, 123_456_789, u64::MAX - 1, u64::MAX];
    let rates = [0u16, 1, 7, 250, 999, 1000];
    for amount in amounts {
        for rate in rates {
            let (merchant_amount, fee_amount) = split(amount, rate).unwrap();
            assert_eq!(merchant_amount as u128 + fee_amount as u128, amount as u128);
            assert_eq!(
                fee_amount as u128,
                amount as u128 * rate as u128 / BASIS_POINT_SCALE as u128
            );
        }
    }
}

#[test]
fn split_at_the_whole_takes_everything() {
    assert_eq!(split(500, 10_000), Ok((0, 500)));
}

#[test]
fn split_refuses_a_fee_above_the_amount() {
    assert_eq!(split(1, 20_000), Err(ErrorCode::FeeTooHigh));
    assert_eq!(split(u64::MAX, u16::MAX), Err(ErrorCode::FeeTooHigh));
    assert_eq!(split(0, u16::MAX), Ok((0, 0)));
}
