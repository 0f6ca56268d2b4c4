use stickypay::ErrorCode;

#[test]
fn every_refusal_has_its_own_text() {
    let all = [
        ErrorCode::FeeTooHigh,
        ErrorCode::PaymentAlreadyProcessed,
        ErrorCode::PaymentExpired,
        ErrorCode::Unauthorized,
        ErrorCode::InvalidExpiry,
        ErrorCode::InvalidPaymentType,
        ErrorCode::TokenMintMismatch,
        ErrorCode::PaymentAlreadyCancelled,
        ErrorCode::MathOverflow,
        ErrorCode::AddressOccupied,
    ];
    for (i, a) in all.iter().enumerate() {
        for (j, b) in all.iter().enumerate() {
            assert_eq!(i == j, a == b);
            assert_eq!(i == j, a.message() == b.message());
        }
    }
}

#[test]
fn refusal_texts() {
    assert_eq!(ErrorCode::FeeTooHigh.message(), "Fee basis points cannot exceed 1000 (10%)");
    assert_eq!(ErrorCode::PaymentAlreadyProcessed.message(), "Payment has already been processed");
    assert_eq!(ErrorCode::PaymentExpired.message(), "Payment has expired");
    assert_eq!(ErrorCode::Unauthorized.message(), "Unauthorized action");
    assert_eq!(ErrorCode::InvalidExpiry.message(), "Invalid expiry timestamp");
    assert_eq!(ErrorCode::InvalidPaymentType.message(), "Invalid payment type");
    assert_eq!(ErrorCode::TokenMintMismatch.message(), "Token mint mismatch");
    assert_eq!(ErrorCode::PaymentAlreadyCancelled.message(), "Payment has already been cancelled");
    assert_eq!(ErrorCode::MathOverflow.message(), "Math overflow error");
    assert_eq!(ErrorCode::AddressOccupied.message(), "Address is already occupied");
}
