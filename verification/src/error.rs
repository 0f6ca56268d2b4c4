//! The reasons for which the engine refuses an operation.

use vstd::prelude::*;

verus! {

/// Why an operation was refused. Every refusal leaves all records as they were.
#[derive(Clone, Copy, Debug, PartialEq, Eq, Structural, Hash)]
pub enum ErrorCode {
    /// A fee rate above the permitted maximum, or a fee that cannot be taken
    /// out of the amount it is charged on.
    FeeTooHigh,
    /// The session has already been paid.
    PaymentAlreadyProcessed,
    /// The session's expiry lies before the time of the attempt.
    PaymentExpired,
    /// The caller is not the merchant's authority.
    Unauthorized,
    /// The expiry of a new session does not lie after its creation.
    InvalidExpiry,
    /// A native settlement of a token session, or the reverse.
    InvalidPaymentType,
    /// The token offered is not the token the session asks for.
    TokenMintMismatch,
    /// The session has already been cancelled.
    PaymentAlreadyCancelled,
    /// A merchant's counters would pass the largest value they can hold.
    MathOverflow,
    /// A record already lives at the address derived for a new one.
    AddressOccupied,
}

impl ErrorCode {
    /// The text shown to a caller for each kind of refusal.
    pub open spec fn message_text(self) -> Seq<char> {
        match self {
            ErrorCode::FeeTooHigh => "Fee basis points cannot exceed 1000 (10%)"@,
            ErrorCode::PaymentAlreadyProcessed => "Payment has already been processed"@,
            ErrorCode::PaymentExpired => "Payment has expired"@,
            ErrorCode::Unauthorized => "Unauthorized action"@,
            ErrorCode::InvalidExpiry => "Invalid expiry timestamp"@,
            ErrorCode::InvalidPaymentType => "Invalid payment type"@,
            ErrorCode::TokenMintMismatch => "Token mint mismatch"@,
            ErrorCode::PaymentAlreadyCancelled => "Payment has already been cancelled"@,
            ErrorCode::MathOverflow => "Math overflow error"@,
            ErrorCode::AddressOccupied => "Address is already occupied"@,
        }
    }

    /// Renders the refusal as text.
    pub fn message(&self) -> (text: String)
        ensures
            text@ == self.message_text(),
    {
        match self {
            ErrorCode::FeeTooHigh => String::from_str("Fee basis points cannot exceed 1000 (10%)"),
            ErrorCode::PaymentAlreadyProcessed => String::from_str(
                "Payment has already been processed",
            ),
            ErrorCode::PaymentExpired => String::from_str("Payment has expired"),
            ErrorCode::Unauthorized => String::from_str("Unauthorized action"),
            ErrorCode::InvalidExpiry => String::from_str("Invalid expiry timestamp"),
            ErrorCode::InvalidPaymentType => String::from_str("Invalid payment type"),
            ErrorCode::TokenMintMismatch => String::from_str("Token mint mismatch"),
            ErrorCode::PaymentAlreadyCancelled => String::from_str(
                "Payment has already been cancelled",
            ),
            ErrorCode::MathOverflow => String::from_str("Math overflow error"),
            ErrorCode::AddressOccupied => String::from_str("Address is already occupied"),
        }
    }
}

} // verus!
