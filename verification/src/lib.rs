//! A payment-settlement ledger.
//!
//! Merchants register with a fee rate, open time-bounded payment sessions, and
//! settle each session at most once by moving value from a payer to the
//! merchant and, where a fee is due, to a fee collector. Every rule of that
//! life cycle is stated as a contract and proved.

pub mod error;
pub mod fees;
pub mod address;
pub mod merchant;
pub mod payment;
pub mod settlement;
pub mod accounts;
pub mod operations;
pub mod solpay;
pub mod ledger;
pub mod laws;

pub use crate::accounts::{
    Account, CancelPayment, CreatePaymentSession, InitializeMerchant, MerchantAccount,
    PaymentAccount, ProcessSolPayment, ProcessTokenPayment,
};
pub use crate::address::Address;
pub use crate::error::ErrorCode;
pub use crate::ledger::Ledger;
pub use crate::merchant::Merchant;
pub use crate::operations::{
    cancel_payment, create_payment_session, initialize_merchant, process_sol_payment,
    process_token_payment,
};
pub use crate::payment::{Payment, Route, SessionState};
pub use crate::settlement::{Settlement, Transfer};
pub use crate::solpay::{send_sol, send_spl_tokens, SendSol, SendSplTokens};
