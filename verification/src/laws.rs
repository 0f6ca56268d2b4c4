//! What holds of the engine across operations.
//!
//! Each statement here is about the outcomes that the operations' contracts
//! name, for every merchant, every session and every moment.

use crate::address::Address;
use crate::error::ErrorCode;
use crate::fees::lemma_fee_bounds;
use crate::ledger::LedgerView;
use crate::merchant::Merchant;
use crate::payment::{Payment, Route, SessionState};
use crate::settlement::{settle_outcome, Settlement};
use vstd::prelude::*;

verus! {

/// A session is settled at most once. Where a settlement succeeds, the
/// merchant's counters count it exactly once, the transfers move exactly the
/// session's amount, and every later attempt to settle the session, by any
/// route, at any time, by any payer, is refused with `PaymentAlreadyProcessed`.
pub proof fn law_settled_at_most_once(
    merchant: Merchant,
    payment: Payment,
    route: Route,
    now: i64,
    payer: Address,
    source: Address,
    merchant_destination: Address,
    fee_destination: Address,
    later_merchant: Merchant,
    later_route: Route,
    later: i64,
    later_payer: Address,
    later_source: Address,
    later_merchant_destination: Address,
    later_fee_destination: Address,
)
    requires
        settle_outcome(
            merchant,
            payment,
            route,
            now,
            payer,
            source,
            merchant_destination,
            fee_destination,
        ) is Ok,
    ensures
        ({
            let (merchant_after, payment_after, settlement) = settle_outcome(
                merchant,
                payment,
                route,
                now,
                payer,
                source,
                merchant_destination,
                fee_destination,
            )->Ok_0;
            &&& merchant_after.total_payments == merchant.total_payments + 1
            &&& merchant_after.total_volume == merchant.total_volume + payment.amount
            &&& settlement.total() == payment.amount
            &&& payment_after.state() == SessionState::Paid
            &&& settle_outcome(
                later_merchant,
                payment_after,
                later_route,
                later,
                later_payer,
                later_source,
                later_merchant_destination,
                later_fee_destination,
            ) == Err::<(Merchant, Payment, Settlement), ErrorCode>(
                ErrorCode::PaymentAlreadyProcessed,
            )
        }),
{
    lemma_fee_bounds(payment.amount, merchant.fee_basis_points);
}

/// An open session that has run out cannot be settled: every attempt after
/// its expiry is refused with `PaymentExpired`.
pub proof fn law_no_settlement_after_expiry(
    merchant: Merchant,
    payment: Payment,
    route: Route,
    now: i64,
    payer: Address,
    source: Address,
    merchant_destination: Address,
    fee_destination: Address,
)
    requires
        payment.state() == SessionState::Open,
        payment.expired_at(now),
    ensures
        settle_outcome(
            merchant,
            payment,
            route,
            now,
            payer,
            source,
            merchant_destination,
            fee_destination,
        ) == Err::<(Merchant, Payment, Settlement), ErrorCode>(
            ErrorCode::PaymentExpired,
        ),
{
}

/// An open token session that has not run out is never settled in another
/// token: the attempt is refused with `TokenMintMismatch`.
pub proof fn law_no_settlement_in_another_token(
    merchant: Merchant,
    payment: Payment,
    offered: Address,
    now: i64,
    payer: Address,
    source: Address,
    merchant_destination: Address,
    fee_destination: Address,
)
    requires
        payment.state() == SessionState::Open,
        !payment.expired_at(now),
        payment.token_mint matches Some(wanted) && wanted != offered,
    ensures
        settle_outcome(
            merchant,
            payment,
            Route::Token(offered),
            now,
            payer,
            source,
            merchant_destination,
            fee_destination,
        ) == Err::<(Merchant, Payment, Settlement), ErrorCode>(
            ErrorCode::TokenMintMismatch,
        ),
{
}

/// While an open session can still be paid, it is cancelled for the
/// merchant's authority and for nobody else: anyone else is refused with
/// `Unauthorized`.
pub proof fn law_cancel_before_expiry(
    payment: Payment,
    authority: Address,
    caller: Address,
    now: i64,
)
    requires
        payment.state() == SessionState::Open,
        !payment.expired_at(now),
    ensures
        caller == authority ==> payment.cancel_verdict(authority, caller, now) is Ok,
        caller != authority ==> payment.cancel_verdict(authority, caller, now) == Err::<
            (),
            ErrorCode,
        >(ErrorCode::Unauthorized),
{
}

/// Once an open session has run out, anyone may cancel it.
pub proof fn law_cancel_after_expiry(payment: Payment, authority: Address, caller: Address, now: i64)
    requires
        payment.state() == SessionState::Open,
        payment.expired_at(now),
    ensures
        payment.cancel_verdict(authority, caller, now) is Ok,
{
}

/// A paid session is never cancelled, whoever asks and whenever: the attempt
/// is refused with `PaymentAlreadyProcessed`.
pub proof fn law_paid_is_never_cancelled(
    payment: Payment,
    authority: Address,
    caller: Address,
    now: i64,
)
    requires
        payment.paid,
    ensures
        payment.cancel_verdict(authority, caller, now) == Err::<(), ErrorCode>(
            ErrorCode::PaymentAlreadyProcessed,
        ),
{
}

/// Paid and cancelled are final. Nothing settles or cancels a session that is
/// no longer open, and a cancelled session that was never paid is refused
/// settlement with `PaymentAlreadyCancelled`.
pub proof fn law_closed_sessions_stay_closed(
    merchant: Merchant,
    payment: Payment,
    route: Route,
    now: i64,
    payer: Address,
    source: Address,
    merchant_destination: Address,
    fee_destination: Address,
    caller: Address,
)
    requires
        payment.state() != SessionState::Open,
    ensures
        settle_outcome(
            merchant,
            payment,
            route,
            now,
            payer,
            source,
            merchant_destination,
            fee_destination,
        ) is Err,
        payment.cancel_verdict(merchant.authority, caller, now) is Err,
        payment.state() == SessionState::Cancelled ==> settle_outcome(
            merchant,
            payment,
            route,
            now,
            payer,
            source,
            merchant_destination,
            fee_destination,
        ) == Err::<(Merchant, Payment, Settlement), ErrorCode>(
            ErrorCode::PaymentAlreadyCancelled,
        ),
{
}

/// On a ledger, settling a session leaves it where a second settlement finds
/// it again, and refuses it: the ledger is changed once, not twice.
pub proof fn law_ledger_settles_once(
    ledger: LedgerView,
    authority: Address,
    reference: Address,
    route: Route,
    now: i64,
    payer: Address,
    source: Address,
    merchant_destination: Address,
    fee_destination: Address,
    later_route: Route,
    later: i64,
    later_payer: Address,
    later_source: Address,
    later_merchant_destination: Address,
    later_fee_destination: Address,
)
    requires
        ledger.session_of(authority, reference) is Some,
        ({
            let (merchant, payment) = ledger.session_of(authority, reference)->Some_0;
            settle_outcome(
                ledger.merchants[merchant],
                ledger.payments[payment],
                route,
                now,
                payer,
                source,
                merchant_destination,
                fee_destination,
            ) is Ok
        }),
    ensures
        ({
            let (merchant, payment) = ledger.session_of(authority, reference)->Some_0;
            let (merchant_after, payment_after, _) = settle_outcome(
                ledger.merchants[merchant],
                ledger.payments[payment],
                route,
                now,
                payer,
                source,
                merchant_destination,
                fee_destination,
            )->Ok_0;
            let after = ledger.with_merchant(merchant, merchant_after).with_payment(
                payment,
                payment_after,
            );
            &&& after.session_of(authority, reference) == Some((merchant, payment))
            &&& settle_outcome(
                after.merchants[merchant],
                after.payments[payment],
                later_route,
                later,
                later_payer,
                later_source,
                later_merchant_destination,
                later_fee_destination,
            ) == Err::<(Merchant, Payment, Settlement), ErrorCode>(
                ErrorCode::PaymentAlreadyProcessed,
            )
        }),
{
}

} // verus!
