//! The settlement engine: what has to move, from whom to whom, to settle a
//! session, and what the records say afterwards.
//!
//! The engine moves nothing itself. It names the transfers, and the host
//! carries them out in the same atomic step in which it keeps the records the
//! engine has changed: all of it happens, or none of it.

use crate::address::Address;
use crate::error::ErrorCode;
use crate::fees::{fee_of, split, split_of, MAX_FEE_BASIS_POINTS};
use crate::merchant::Merchant;
use crate::payment::{Payment, Route, SessionState};
use vstd::prelude::*;

verus! {

/// One movement of value that the host is to carry out.
#[derive(Clone, Copy, Debug, PartialEq, Eq)]
pub struct Transfer {
    /// The token that moves; `None` for the native asset.
    pub asset: Option<Address>,
    /// The holder that is debited.
    pub from: Address,
    /// The holder that is credited.
    pub to: Address,
    /// The principal that authorises the debit.
    pub authority: Address,
    /// How much moves.
    pub amount: u64,
}

/// The transfers that settle one session: the merchant's share, and the fee
/// where one is due.
#[derive(Clone, Copy, Debug, PartialEq, Eq)]
pub struct Settlement {
    /// The merchant's share. It is always carried out, first.
    pub merchant_leg: Transfer,
    /// The fee. There is no such leg where the fee is zero.
    pub fee_leg: Option<Transfer>,
}

impl Settlement {
    /// The fee that the settlement moves.
    pub open spec fn fee_amount(self) -> int {
        match self.fee_leg {
            Some(leg) => leg.amount as int,
            None => 0,
        }
    }

    /// Everything that the settlement moves.
    pub open spec fn total(self) -> int {
        self.merchant_leg.amount + self.fee_amount()
    }
}

/// The transfers that settle `amount` of `asset` at `fee_basis_points`.
///
/// Both legs debit `source` on the authority of `payer`. The merchant's share
/// goes to `merchant_destination`, the fee to `fee_destination`.
pub open spec fn settlement_of(
    asset: Option<Address>,
    amount: u64,
    fee_basis_points: u16,
    payer: Address,
    source: Address,
    merchant_destination: Address,
    fee_destination: Address,
) -> Result<Settlement, ErrorCode> {
    match split_of(amount, fee_basis_points) {
        Err(code) => Err(code),
        Ok((merchant_amount, fee_amount)) => Ok(
            Settlement {
                merchant_leg: Transfer {
                    asset,
                    from: source,
                    to: merchant_destination,
                    authority: payer,
                    amount: merchant_amount,
                },
                fee_leg: if fee_amount > 0 {
                    Some(
                        Transfer {
                            asset,
                            from: source,
                            to: fee_destination,
                            authority: payer,
                            amount: fee_amount,
                        },
                    )
                } else {
                    None
                },
            },
        ),
    }
}

/// Names the transfers that settle `amount` of `asset` at `fee_basis_points`.
///
/// The two legs together move exactly `amount`. A fee of zero has no leg.
/// Refused with `FeeTooHigh` exactly when the split is.
pub fn settle(
    asset: Option<Address>,
    amount: u64,
    fee_basis_points: u16,
    payer: Address,
    source: Address,
    merchant_destination: Address,
    fee_destination: Address,
) -> (result: Result<Settlement, ErrorCode>)
    ensures
        result == settlement_of(
            asset,
            amount,
            fee_basis_points,
            payer,
            source,
            merchant_destination,
            fee_destination,
        ),
        fee_basis_points <= MAX_FEE_BASIS_POINTS ==> result is Ok,
        result matches Ok(settlement) ==> {
            &&& settlement.total() == amount
            &&& settlement.fee_amount() == fee_of(amount, fee_basis_points)
            &&& (settlement.fee_leg matches Some(leg) ==> leg.amount > 0)
        },
{
    let (merchant_amount, fee_amount) = match split(amount, fee_basis_points) {
        Ok(parts) => parts,
        Err(code) => { return Err(code); },
    };
    let merchant_leg = Transfer {
        asset,
        from: source,
        to: merchant_destination,
        authority: payer,
        amount: merchant_amount,
    };
    let fee_leg = if fee_amount > 0 {
        Some(Transfer { asset, from: source, to: fee_destination, authority: payer, amount: fee_amount })
    } else {
        None
    };
    Ok(Settlement { merchant_leg, fee_leg })
}

/// What an attempt to settle `payment` of `merchant` comes to: the two records
/// as they are afterwards and the transfers to carry out, or the refusal.
///
/// The session's own guard decides first, then the split, then the room left in
/// the merchant's counters.
pub open spec fn settle_outcome(
    merchant: Merchant,
    payment: Payment,
    route: Route,
    now: i64,
    payer: Address,
    source: Address,
    merchant_destination: Address,
    fee_destination: Address,
) -> Result<(Merchant, Payment, Settlement), ErrorCode> {
    match payment.settle_verdict(route, now) {
        Err(code) => Err(code),
        Ok(()) => match settlement_of(
            payment.token_mint,
            payment.amount,
            merchant.fee_basis_points,
            payer,
            source,
            merchant_destination,
            fee_destination,
        ) {
            Err(code) => Err(code),
            Ok(settlement) => if merchant.can_credit(payment.amount) {
                Ok((merchant.credited(payment.amount), payment.settled(now, payer), settlement))
            } else {
                Err(ErrorCode::MathOverflow)
            },
        },
    }
}

/// Settles `payment` of `merchant` by `route` at `now`, paid by `payer`.
///
/// On success the session is marked paid, the merchant's counters count it,
/// and the transfers to carry out are returned. On refusal both records are
/// left exactly as they were and no transfer is named.
pub fn settle_session(
    merchant: &mut Merchant,
    payment: &mut Payment,
    route: &Route,
    now: i64,
    payer: Address,
    source: Address,
    merchant_destination: Address,
    fee_destination: Address,
) -> (result: Result<Settlement, ErrorCode>)
    ensures
        match settle_outcome(
            *old(merchant),
            *old(payment),
            *route,
            now,
            payer,
            source,
            merchant_destination,
            fee_destination,
        ) {
            Ok((merchant_after, payment_after, settlement)) => {
                &&& result == Ok::<Settlement, ErrorCode>(settlement)
                &&& *final(merchant) == merchant_after
                &&& *final(payment) == payment_after
            },
            Err(code) => {
                &&& result == Err::<Settlement, ErrorCode>(code)
                &&& *final(merchant) == *old(merchant)
                &&& *final(payment) == *old(payment)
            },
        },
        result matches Ok(settlement) ==> {
            &&& settlement.total() == old(payment).amount
            &&& final(payment).state() == SessionState::Paid
            &&& final(merchant).total_payments == old(merchant).total_payments + 1
            &&& final(merchant).total_volume == old(merchant).total_volume + old(payment).amount
        },
        old(merchant).valid() ==> final(merchant).valid(),
        old(payment).valid() ==> final(payment).valid(),
{
    match payment.guard_settle(route, now) {
        Ok(()) => {},
        Err(code) => { return Err(code); },
    }
    let settlement = match settle(
        payment.token_mint,
        payment.amount,
        merchant.fee_basis_points,
        payer,
        source,
        merchant_destination,
        fee_destination,
    ) {
        Ok(settlement) => settlement,
        Err(code) => { return Err(code); },
    };
    match merchant.record_settlement(payment.amount) {
        Ok(()) => {},
        Err(code) => { return Err(code); },
    }
    payment.apply_settle(now, payer);
    Ok(settlement)
}

} // verus!
