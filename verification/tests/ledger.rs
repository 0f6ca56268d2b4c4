use stickypay::address::{merchant_address, payment_address};
use stickypay::{Address, ErrorCode, Ledger, Merchant, Payment, Settlement, Transfer};

const NOW: i64 = 1_700_000_000;
const EXPIRY: i64 = NOW + 600;

fn id(n: u8) -> Address {
    Address::new([n; 32])
}

fn program() -> Address {
    id(77)
}

fn authority() -> Address {
    id(1)
}

fn with_session(fee_basis_points: u16, amount: u64, token_mint: Option<Address>) -> Ledger {
    let mut ledger = Ledger::new(program());
    ledger.register_merchant(authority(), "shop".to_string(), fee_basis_points).unwrap().unwrap();
    ledger
        .open_payment_session(
            authority(),
            amount,
            id(3),
            "order 17".to_string(),
            EXPIRY,
            token_mint,
            NOW,
        )
        .unwrap()
        .unwrap();
    ledger
}

fn merchant_key() -> Address {
    merchant_address(&program(), &authority()).unwrap().0
}

fn session_key() -> Address {
    payment_address(&program(), &merchant_key(), &id(3)).unwrap().0
}

#[test]
fn a_new_ledger_is_empty() {
    let ledger = Ledger::new(program());
    assert_eq!(ledger.program_id(), program());
    assert_eq!(ledger.merchant(&merchant_key()), None);
    assert_eq!(ledger.payment(&session_key()), None);
    assert!(!ledger.is_occupied(&merchant_key()));
}

#[test]
fn register_merchant_keeps_the_record_at_its_derived_address() {
    let mut ledger = Ledger::new(program());
    let (key, bump) = merchant_address(&program(), &authority()).unwrap();
    assert_eq!(ledger.register_merchant(authority(), "shop".to_string(), 250), Some(Ok(key)));
    assert_eq!(
        ledger.merchant(&key),
        Some(&Merchant {
            authority: authority(),
            name: "shop".to_string(),
            fee_basis_points: 250,
            total_payments: 0,
            total_volume: 0,
            bump,
        })
    );
    assert!(ledger.is_occupied(&key));
    assert_eq!(ledger.payment(&key), None);
}

#[test]
fn register_merchant_refuses_a_second_registration() {
    let mut ledger = Ledger::new(program());
    ledger.register_merchant(authority(), "shop".to_string(), 250).unwrap().unwrap();
    assert_eq!(
        ledger.register_merchant(authority(), "other".to_string(), 100),
        Some(Err(ErrorCode::AddressOccupied))
    );
    assert_eq!(ledger.merchant(&merchant_key()).unwrap().name, "shop");
    assert!(ledger.register_merchant(id(2), "other".to_string(), 100).unwrap().is_ok());
}

#[test]
fn register_merchant_checks_the_rate_first() {
    let mut ledger = Ledger::new(program());
    assert_eq!(
        ledger.register_merchant(authority(), "shop".to_string(), 1001),
        Some(Err(ErrorCode::FeeTooHigh))
    );
    assert_eq!(ledger.merchant(&merchant_key()), None);
    assert!(ledger.register_merchant(authority(), "shop".to_string(), 1000).unwrap().is_ok());
    assert_eq!(
        ledger.register_merchant(authority(), "shop".to_string(), 1001),
        Some(Err(ErrorCode::FeeTooHigh))
    );
}

#[test]
fn open_payment_session_keeps_the_session_at_its_derived_address() {
    let ledger = with_session(250, 10_000, Some(id(7)));
    let (key, bump) = payment_address(&program(), &merchant_key(), &id(3)).unwrap();
    assert_eq!(
        ledger.payment(&key),
        Some(&Payment {
            merchant: merchant_key(),
            amount: 10_000,
            reference: id(3),
            memo: "order 17".to_string(),
            created_at: NOW,
            expires_at: EXPIRY,
            paid: false,
            cancelled: false,
            paid_at: None,
            payer: None,
            cancelled_at: None,
            token_mint: Some(id(7)),
            bump,
        })
    );
}

#[test]
fn open_payment_session_needs_a_registered_merchant() {
    let mut ledger = Ledger::new(program());
    assert_eq!(
        ledger.open_payment_session(authority(), 10, id(3), String::new(), EXPIRY, None, NOW),
        None
    );
    assert_eq!(ledger.payment(&session_key()), None);
}

#[test]
fn open_payment_session_refuses_a_reference_twice() {
    let mut ledger = with_session(250, 10_000, None);
    assert_eq!(
        ledger.open_payment_session(authority(), 5, id(3), String::new(), EXPIRY, None, NOW),
        Some(Err(ErrorCode::AddressOccupied))
    );
    assert_eq!(ledger.payment(&session_key()).unwrap().amount, 10_000);
    assert!(ledger
        .open_payment_session(authority(), 5, id(4), String::new(), EXPIRY, None, NOW)
        .unwrap()
        .is_ok());
}

#[test]
fn open_payment_session_checks_the_expiry_first() {
    let mut ledger = with_session(250, 10_000, None);
    assert_eq!(
        ledger.open_payment_session(authority(), 5, id(3), String::new(), NOW, None, NOW),
        Some(Err(ErrorCode::InvalidExpiry))
    );
    assert_eq!(
        ledger.open_payment_session(authority(), 5, id(4), String::new(), NOW - 1, None, NOW),
        Some(Err(ErrorCode::InvalidExpiry))
    );
}

#[test]
fn end_to_end_native_settlement() {
    let mut ledger = with_session(250, 10_000, None);
    let settlement = ledger.settle_native(authority(), id(3), id(5), id(6), NOW + 10);
    assert_eq!(
        settlement,
        Some(Ok(Settlement {
            merchant_leg: Transfer {
                asset: None,
                from: id(5),
                to: authority(),
                authority: id(5),
                amount: 9_750,
            },
            fee_leg: Some(Transfer {
                asset: None,
                from: id(5),
                to: id(6),
                authority: id(5),
                amount: 250,
            }),
        }))
    );
    let merchant = ledger.merchant(&merchant_key()).unwrap();
    assert_eq!(merchant.total_payments, 1);
    assert_eq!(merchant.total_volume, 10_000);
    let payment = ledger.payment(&session_key()).unwrap();
    assert!(payment.paid);
    assert_eq!(payment.paid_at, Some(NOW + 10));
    assert_eq!(payment.payer, Some(id(5)));
}

#[test]
fn a_second_settlement_leaves_the_ledger_alone() {
    let mut ledger = with_session(250, 10_000, None);
    ledger.settle_native(authority(), id(3), id(5), id(6), NOW + 10).unwrap().unwrap();
    let merchant = ledger.merchant(&merchant_key()).unwrap().clone();
    let payment = ledger.payment(&session_key()).unwrap().clone();
    assert_eq!(
        ledger.settle_native(authority(), id(3), id(8), id(6), NOW + 20),
        Some(Err(ErrorCode::PaymentAlreadyProcessed))
    );
    assert_eq!(ledger.merchant(&merchant_key()), Some(&merchant));
    assert_eq!(ledger.payment(&session_key()), Some(&payment));
}

#[test]
fn settlement_of_an_unknown_session_is_no_operation() {
    let mut ledger = with_session(250, 10_000, None);
    assert_eq!(ledger.settle_native(authority(), id(4), id(5), id(6), NOW + 10), None);
    assert_eq!(ledger.settle_native(id(2), id(3), id(5), id(6), NOW + 10), None);
    assert_eq!(ledger.cancel_payment_session(authority(), id(4), authority(), NOW + 10), None);
    assert_eq!(ledger.merchant(&merchant_key()).unwrap().total_payments, 0);
}

#[test]
fn token_settlement_on_the_ledger() {
    let mut ledger = with_session(1000, 999, Some(id(7)));
    assert_eq!(
        ledger.settle_token(authority(), id(3), id(8), id(5), id(15), id(11), id(16), id(6), NOW),
        Some(Err(ErrorCode::TokenMintMismatch))
    );
    assert_eq!(
        ledger.settle_native(authority(), id(3), id(5), id(6), NOW),
        Some(Err(ErrorCode::InvalidPaymentType))
    );
    assert_eq!(ledger.merchant(&merchant_key()).unwrap().total_payments, 0);
    let settlement = ledger
        .settle_token(authority(), id(3), id(7), id(5), id(15), id(11), id(16), id(6), NOW)
        .unwrap()
        .unwrap();
    assert_eq!(settlement.merchant_leg.amount, 900);
    assert_eq!(settlement.fee_leg.unwrap().amount, 99);
    assert_eq!(settlement.merchant_leg.asset, Some(id(7)));
    assert_eq!(ledger.merchant(&merchant_key()).unwrap().total_volume, 999);
}

#[test]
fn expired_sessions_are_not_settled_but_stay_cancellable() {
    let mut ledger = with_session(250, 10_000, None);
    assert_eq!(
        ledger.settle_native(authority(), id(3), id(5), id(6), EXPIRY + 1),
        Some(Err(ErrorCode::PaymentExpired))
    );
    assert!(!ledger.payment(&session_key()).unwrap().paid);
    assert_eq!(
        ledger.cancel_payment_session(authority(), id(3), id(9), EXPIRY + 1),
        Some(Ok(()))
    );
    let payment = ledger.payment(&session_key()).unwrap();
    assert!(payment.cancelled);
    assert_eq!(payment.cancelled_at, Some(EXPIRY + 1));
    assert_eq!(
        ledger.settle_native(authority(), id(3), id(5), id(6), NOW),
        Some(Err(ErrorCode::PaymentAlreadyCancelled))
    );
}

#[test]
fn cancellation_on_the_ledger() {
    let mut ledger = with_session(250, 10_000, None);
    assert_eq!(
        ledger.cancel_payment_session(authority(), id(3), id(9), NOW + 1),
        Some(Err(ErrorCode::Unauthorized))
    );
    assert!(!ledger.payment(&session_key()).unwrap().cancelled);
    assert_eq!(
        ledger.cancel_payment_session(authority(), id(3), authority(), NOW + 1),
        Some(Ok(()))
    );
    assert_eq!(
        ledger.cancel_payment_session(authority(), id(3), authority(), NOW + 2),
        Some(Err(ErrorCode::PaymentAlreadyCancelled))
    );
    assert_eq!(ledger.payment(&session_key()).unwrap().cancelled_at, Some(NOW + 1));
    assert_eq!(ledger.merchant(&merchant_key()).unwrap().total_payments, 0);
}

#[test]
fn many_sessions_of_many_merchants_keep_apart() {
    let mut ledger = Ledger::new(program());
    for m in 1..=3u8 {
        ledger.register_merchant(id(m), format!("shop {}", m), 100 * m as u16).unwrap().unwrap();
        for r in 10..13u8 {
            ledger
                .open_payment_session(id(m), 1_000, id(r), String::new(), EXPIRY, None, NOW)
                .unwrap()
                .unwrap();
        }
    }
    let settlement = ledger.settle_native(id(2), id(11), id(5), id(6), NOW).unwrap().unwrap();
    assert_eq!(settlement.merchant_leg.amount, 980);
    assert_eq!(settlement.merchant_leg.to, id(2));
    for m in 1..=3u8 {
        let key = merchant_address(&program(), &id(m)).unwrap().0;
        let merchant = ledger.merchant(&key).unwrap();
        assert_eq!(merchant.total_payments, if m == 2 { 1 } else { 0 });
        assert_eq!(merchant.total_volume, if m == 2 { 1_000 } else { 0 });
        for r in 10..13u8 {
            let session = payment_address(&program(), &key, &id(r)).unwrap().0;
            assert_eq!(ledger.payment(&session).unwrap().paid, m == 2 && r == 11);
        }
    }
}
