//! The five operations of the engine.
//!
//! Each runs to its end on the records it is handed: it either changes them
//! and succeeds, or refuses and leaves every one of them as it was. The clock
//! is an argument, read once by the host when the operation starts.

use crate::accounts::{
    Account, CancelPayment, CreatePaymentSession, InitializeMerchant, MerchantAccount,
    PaymentAccount,
    ProcessSolPayment, ProcessTokenPayment,
};
use crate::address::Address;
use crate::error::ErrorCode;
use crate::fees::MAX_FEE_BASIS_POINTS;
use crate::merchant::Merchant;
use crate::payment::{Payment, Route, SessionState};
use crate::settlement::{settle_outcome, settle_session, Settlement};
use vstd::prelude::*;

verus! {

/// Registers a merchant: builds the record that is to live at `ctx.merchant`.
///
/// Refused with `FeeTooHigh` exactly when the fee rate exceeds
/// `MAX_FEE_BASIS_POINTS`; every rate up to it is accepted. The new record is
/// controlled by `ctx.authority` and has settled nothing.
pub fn initialize_merchant(ctx: &InitializeMerchant, name: String, fee_basis_points: u16) -> (result:
    Result<MerchantAccount, ErrorCode>)
    ensures
        fee_basis_points > MAX_FEE_BASIS_POINTS ==> result == Err::<MerchantAccount, ErrorCode>(
            ErrorCode::FeeTooHigh,
        ),
        fee_basis_points <= MAX_FEE_BASIS_POINTS ==> result == Ok::<MerchantAccount, ErrorCode>(
            Account {
                key: ctx.merchant,
                data: Merchant {
                    authority: ctx.authority,
                    name,
                    fee_basis_points,
                    total_payments: 0,
                    total_volume: 0,
                    bump: ctx.bump,
                },
            },
        ),
        result matches Ok(account) ==> {
            &&& account.data.valid()
            &&& (ctx.bound() ==> account.bound(ctx.program_id))
        },
{
    match Merchant::register(ctx.authority, name, fee_basis_points, ctx.bump) {
        Ok(data) => Ok(Account { key: ctx.merchant, data }),
        Err(code) => Err(code),
    }
}

/// Opens a session of `ctx.merchant` for `amount`: builds the record that is
/// to live at `ctx.payment`.
///
/// Refused with `InvalidExpiry` exactly when `expiry_timestamp` does not lie
/// after `now`. The new session is open, was created at `now`, and is to be
/// paid in `token_mint`, or in the native asset where that is `None`.
pub fn create_payment_session(
    ctx: &CreatePaymentSession,
    amount: u64,
    reference: Address,
    memo: String,
    expiry_timestamp: i64,
    token_mint: Option<Address>,
    now: i64,
) -> (result: Result<PaymentAccount, ErrorCode>)
    requires
        amount > 0,
        ctx.consistent(),
    ensures
        expiry_timestamp <= now ==> result == Err::<PaymentAccount, ErrorCode>(
            ErrorCode::InvalidExpiry,
        ),
        expiry_timestamp > now ==> result == Ok::<PaymentAccount, ErrorCode>(
            Account {
                key: ctx.payment,
                data: Payment {
                    merchant: ctx.merchant.key,
                    amount,
                    reference,
                    memo,
                    created_at: now,
                    expires_at: expiry_timestamp,
                    paid: false,
                    cancelled: false,
                    paid_at: None,
                    payer: None,
                    cancelled_at: None,
                    token_mint,
                    bump: ctx.bump,
                },
            },
        ),
        result matches Ok(account) ==> {
            &&& account.data.valid()
            &&& account.data.state() == SessionState::Open
            &&& (ctx.bound(reference) ==> account.bound(ctx.program_id))
        },
{
    match Payment::open(
        ctx.merchant.key,
        amount,
        reference,
        memo,
        token_mint,
        expiry_timestamp,
        now,
        ctx.bump,
    ) {
        Ok(data) => Ok(Account { key: ctx.payment, data }),
        Err(code) => Err(code),
    }
}

/// Settles a session in the native asset.
///
/// On success the session is marked paid by `ctx.payer` at `now`, the
/// merchant's counters count it once, and the transfers returned move the
/// session's amount out of the payer's wallet: the merchant's share to
/// `ctx.merchant_wallet`, the fee to `ctx.fee_collector`. On refusal nothing
/// in `ctx` changes and no transfer is named.
pub fn process_sol_payment(ctx: &mut ProcessSolPayment, now: i64) -> (result: Result<
    Settlement,
    ErrorCode,
>)
    requires
        old(ctx).consistent(),
    ensures
        match settle_outcome(
            old(ctx).merchant.data,
            old(ctx).payment.data,
            Route::Native,
            now,
            old(ctx).payer,
            old(ctx).payer,
            old(ctx).merchant_wallet,
            old(ctx).fee_collector,
        ) {
            Ok((merchant, payment, settlement)) => {
                &&& result == Ok::<Settlement, ErrorCode>(settlement)
                &&& *final(ctx) == old(ctx).with_records(merchant, payment)
            },
            Err(code) => {
                &&& result == Err::<Settlement, ErrorCode>(code)
                &&& *final(ctx) == *old(ctx)
            },
        },
        old(ctx).payment.data.paid ==> result == Err::<Settlement, ErrorCode>(
            ErrorCode::PaymentAlreadyProcessed,
        ),
        old(ctx).payment.data.state() == SessionState::Open && old(ctx).payment.data.expired_at(now)
            ==> result == Err::<Settlement, ErrorCode>(ErrorCode::PaymentExpired),
        result matches Ok(settlement) ==> {
            &&& settlement.total() == old(ctx).payment.data.amount
            &&& final(ctx).payment.data.state() == SessionState::Paid
            &&& final(ctx).merchant.data.total_payments == old(ctx).merchant.data.total_payments
                + 1
            &&& final(ctx).merchant.data.total_volume == old(ctx).merchant.data.total_volume + old(
                ctx,
            ).payment.data.amount
        },
        final(ctx).consistent(),
        old(ctx).bound() ==> final(ctx).bound(),
{
    let route = Route::Native;
    settle_session(
        &mut ctx.merchant.data,
        &mut ctx.payment.data,
        &route,
        now,
        ctx.payer,
        ctx.payer,
        ctx.merchant_wallet,
        ctx.fee_collector,
    )
}

/// Settles a session in the token `ctx.mint`.
///
/// As a native settlement, but the transfers move the token from the payer's
/// holding to the merchant's and the fee collector's, on the payer's
/// authority. A token other than the one the session asks for is refused with
/// `TokenMintMismatch`.
pub fn process_token_payment(ctx: &mut ProcessTokenPayment, now: i64) -> (result: Result<
    Settlement,
    ErrorCode,
>)
    requires
        old(ctx).consistent(),
    ensures
        match settle_outcome(
            old(ctx).merchant.data,
            old(ctx).payment.data,
            Route::Token(old(ctx).mint),
            now,
            old(ctx).payer,
            old(ctx).payer_token_account,
            old(ctx).merchant_token_account,
            old(ctx).fee_collector_token_account,
        ) {
            Ok((merchant, payment, settlement)) => {
                &&& result == Ok::<Settlement, ErrorCode>(settlement)
                &&& *final(ctx) == old(ctx).with_records(merchant, payment)
            },
            Err(code) => {
                &&& result == Err::<Settlement, ErrorCode>(code)
                &&& *final(ctx) == *old(ctx)
            },
        },
        old(ctx).payment.data.paid ==> result == Err::<Settlement, ErrorCode>(
            ErrorCode::PaymentAlreadyProcessed,
        ),
        old(ctx).payment.data.state() == SessionState::Open && old(ctx).payment.data.expired_at(now)
            ==> result == Err::<Settlement, ErrorCode>(ErrorCode::PaymentExpired),
        old(ctx).payment.data.state() == SessionState::Open && !old(ctx).payment.data.expired_at(
            now,
        ) && (old(ctx).payment.data.token_mint matches Some(wanted) && wanted != old(ctx).mint)
            ==> result == Err::<Settlement, ErrorCode>(ErrorCode::TokenMintMismatch),
        result matches Ok(settlement) ==> {
            &&& settlement.total() == old(ctx).payment.data.amount
            &&& final(ctx).payment.data.state() == SessionState::Paid
            &&& final(ctx).merchant.data.total_payments == old(ctx).merchant.data.total_payments
                + 1
            &&& final(ctx).merchant.data.total_volume == old(ctx).merchant.data.total_volume + old(
                ctx,
            ).payment.data.amount
        },
        final(ctx).consistent(),
        old(ctx).bound() ==> final(ctx).bound(),
{
    let route = Route::Token(ctx.mint);
    settle_session(
        &mut ctx.merchant.data,
        &mut ctx.payment.data,
        &route,
        now,
        ctx.payer,
        ctx.payer_token_account,
        ctx.merchant_token_account,
        ctx.fee_collector_token_account,
    )
}

/// Cancels a session on behalf of `ctx.authority`.
///
/// A paid session is refused with `PaymentAlreadyProcessed`, a cancelled one
/// with `PaymentAlreadyCancelled`, whoever asks and whenever. A session that
/// can still be paid is cancelled only for the merchant's authority, and
/// refused with `Unauthorized` for anyone else. A session that has run out is
/// cancelled for anyone. On success the session is marked cancelled at `now`;
/// on refusal nothing in `ctx` changes.
pub fn cancel_payment(ctx: &mut CancelPayment, now: i64) -> (result: Result<(), ErrorCode>)
    requires
        old(ctx).consistent(),
    ensures
        result == old(ctx).payment.data.cancel_verdict(
            old(ctx).merchant.data.authority,
            old(ctx).authority,
            now,
        ),
        result is Ok ==> *final(ctx) == (CancelPayment {
            payment: Account {
                key: old(ctx).payment.key,
                data: old(ctx).payment.data.called_off(now),
            },
            ..*old(ctx)
        }),
        result is Ok ==> final(ctx).payment.data.state() == SessionState::Cancelled,
        result is Err ==> *final(ctx) == *old(ctx),
        old(ctx).payment.data.paid ==> result == Err::<(), ErrorCode>(
            ErrorCode::PaymentAlreadyProcessed,
        ),
        old(ctx).payment.data.state() == SessionState::Open && old(ctx).payment.data.expired_at(now)
            ==> result is Ok,
        old(ctx).payment.data.state() == SessionState::Open && !old(ctx).payment.data.expired_at(
            now,
        ) ==> (result is Ok <==> old(ctx).authority == old(ctx).merchant.data.authority),
        old(ctx).payment.data.state() == SessionState::Open && !old(ctx).payment.data.expired_at(
            now,
        ) && old(ctx).authority != old(ctx).merchant.data.authority ==> result == Err::<
            (),
            ErrorCode,
        >(ErrorCode::Unauthorized),
        final(ctx).consistent(),
        old(ctx).bound() ==> final(ctx).bound(),
{
    match ctx.payment.data.guard_cancel(&ctx.merchant.data, &ctx.authority, now) {
        Ok(()) => {},
        Err(code) => { return Err(code); },
    }
    ctx.payment.data.apply_cancel(now);
    Ok(())
}

} // verus!
