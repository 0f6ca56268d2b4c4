use stickypay::settlement::{settle, settle_session};
use stickypay::{Address, ErrorCode, Merchant, Payment, Route, Settlement, Transfer};

fn id(n: u8) -> Address {
    Address::new([n; 32])
}

#[test]
fn settle_names_both_legs() {
    let settlement = settle(None, 10_000, 250, id(5), id(5), id(1), id(6)).unwrap();
    assert_eq!(
        settlement,
        Settlement {
            merchant_leg: Transfer {
                asset: None,
                from: id(5),
                to: id(1),
                authority: id(5),
                amount: 9_750,
            },
            fee_leg: Some(Transfer {
                asset: None,
                from: id(5),
                to: id(6),
                authority: id(5),
                amount: 250,
            }),
        }
    );
}

#[test]
fn settle_skips_a_fee_of_zero() {
    let at_no_rate = settle(None, 10_000, 0, id(5), id(5), id(1), id(6)).unwrap();
    assert_eq!(at_no_rate.fee_leg, None);
    assert_eq!(at_no_rate.merchant_leg.amount, 10_000);
    let rounded_away = settle(None, 39, 250, id(5), id(5), id(1), id(6)).unwrap();
    assert_eq!(rounded_away.fee_leg, None);
    assert_eq!(rounded_away.merchant_leg.amount, 39);
}

#[test]
fn settle_of_a_token_debits_the_holding_on_the_payers_authority() {
    let settlement = settle(Some(id(7)), 400, 1000, id(5), id(15), id(11), id(16)).unwrap();
    assert_eq!(
        settlement.merchant_leg,
        Transfer { asset: Some(id(7)), from: id(15), to: id(11), authority: id(5), amount: 360 }
    );
    assert_eq!(
        settlement.fee_leg,
        Some(Transfer {
            asset: Some(id(7)),
            from: id(15),
            to: id(16),
            authority: id(5),
            amount: 40,
        })
    );
}

#[test]
fn settle_refuses_a_fee_above_the_amount() {
    assert_eq!(settle(None, 1, 20_000, id(5), id(5), id(1), id(6)), Err(ErrorCode::FeeTooHigh));
}

#[test]
fn settle_session_refuses_before_it_changes_anything() {
    let mut merchant = Merchant::register(id(1), "shop".to_string(), 250, 255).unwrap();
    merchant.total_volume = u64::MAX;
    let mut payment =
        Payment::open(id(9), 10, id(3), String::new(), None, 2_000, 1_000, 254).unwrap();
    let (merchant_before, payment_before) = (merchant.clone(), payment.clone());
    let result = settle_session(
        &mut merchant,
        &mut payment,
        &Route::Native,
        1_500,
        id(5),
        id(5),
        id(1),
        id(6),
    );
    assert_eq!(result, Err(ErrorCode::MathOverflow));
    assert_eq!(merchant, merchant_before);
    assert_eq!(payment, payment_before);
}

#[test]
fn settle_session_reports_an_untakeable_fee_before_overflow() {
    let mut merchant = Merchant {
        authority: id(1),
        name: String::new(),
        fee_basis_points: 20_000,
        total_payments: u64::MAX,
        total_volume: 0,
        bump: 255,
    };
    let mut payment =
        Payment::open(id(9), 10, id(3), String::new(), None, 2_000, 1_000, 254).unwrap();
    let result = settle_session(
        &mut merchant,
        &mut payment,
        &Route::Native,
        1_500,
        id(5),
        id(5),
        id(1),
        id(6),
    );
    assert_eq!(result, Err(ErrorCode::FeeTooHigh));
    assert!(!payment.paid);
}
