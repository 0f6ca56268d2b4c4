//! Payment sessions and the rules of their life cycle.
//!
//! A session is opened, and then either paid once or cancelled once. Neither
//! can be undone, and one excludes the other. Expiry is not a stored state: it
//! is judged against the clock at the moment of each attempt, so a session
//! that ran out unpaid stays open until someone cancels it.

use crate::address::Address;
use crate::error::ErrorCode;
use crate::merchant::Merchant;
use vstd::prelude::*;

verus! {

/// One expected payment.
#[derive(Debug, PartialEq, Eq)]
pub struct Payment {
    /// The address of the merchant record that owns the session.
    pub merchant: Address,
    /// The gross amount to be paid, in the smallest unit of the asset.
    pub amount: u64,
    /// The value that tells the merchant's sessions apart.
    pub reference: Address,
    /// A free-form note.
    pub memo: String,
    /// When the session was opened.
    pub created_at: i64,
    /// The last moment at which the session can be paid.
    pub expires_at: i64,
    /// Whether the session has been paid.
    pub paid: bool,
    /// Whether the session has been cancelled.
    pub cancelled: bool,
    /// When the session was paid.
    pub paid_at: Option<i64>,
    /// Who paid the session.
    pub payer: Option<Address>,
    /// When the session was cancelled.
    pub cancelled_at: Option<i64>,
    /// The token the session is to be paid in; `None` for the native asset.
    pub token_mint: Option<Address>,
    /// The bump seed that binds the record to its address.
    pub bump: u8,
}

/// Where a session stands in its life cycle.
#[derive(Clone, Copy, Debug, PartialEq, Eq, Structural)]
pub enum SessionState {
    /// Neither paid nor cancelled.
    Open,
    /// Paid; nothing can follow.
    Paid,
    /// Cancelled; nothing can follow.
    Cancelled,
}

/// The way in which a settlement is attempted.
#[derive(Clone, Copy, Debug, PartialEq, Eq)]
pub enum Route {
    /// In the native asset.
    Native,
    /// In the token named here.
    Token(Address),
}

impl Clone for Payment {
    fn clone(&self) -> (copy: Payment)
        ensures
            copy == *self,
    {
        Payment {
            merchant: self.merchant,
            amount: self.amount,
            reference: self.reference,
            memo: self.memo.clone(),
            created_at: self.created_at,
            expires_at: self.expires_at,
            paid: self.paid,
            cancelled: self.cancelled,
            paid_at: self.paid_at,
            payer: self.payer,
            cancelled_at: self.cancelled_at,
            token_mint: self.token_mint,
            bump: self.bump,
        }
    }
}

impl Payment {
    /// The invariant of a session record.
    pub open spec fn valid(self) -> bool {
        &&& self.amount > 0
        &&& self.expires_at > self.created_at
        &&& !(self.paid && self.cancelled)
        &&& self.paid == self.paid_at.is_some()
        &&& self.paid == self.payer.is_some()
        &&& self.cancelled == self.cancelled_at.is_some()
    }

    /// The state of the session.
    pub open spec fn state(self) -> SessionState {
        if self.paid {
            SessionState::Paid
        } else if self.cancelled {
            SessionState::Cancelled
        } else {
            SessionState::Open
        }
    }

    /// Whether the session has run out at `now`.
    pub open spec fn expired_at(self, now: i64) -> bool {
        now > self.expires_at
    }

    /// The session as it is once `payer` has paid it at `now`.
    pub open spec fn settled(self, now: i64, payer: Address) -> Payment {
        Payment { paid: true, paid_at: Some(now), payer: Some(payer), ..self }
    }

    /// The session as it is once it has been cancelled at `now`.
    pub open spec fn called_off(self, now: i64) -> Payment {
        Payment { cancelled: true, cancelled_at: Some(now), ..self }
    }

    /// The verdict on an attempt to settle the session by `route` at `now`.
    ///
    /// The checks come in this order, and the first that fails decides.
    pub open spec fn settle_verdict(self, route: Route, now: i64) -> Result<(), ErrorCode> {
        if self.paid {
            Err(ErrorCode::PaymentAlreadyProcessed)
        } else if self.cancelled {
            Err(ErrorCode::PaymentAlreadyCancelled)
        } else if now > self.expires_at {
            Err(ErrorCode::PaymentExpired)
        } else {
            match (route, self.token_mint) {
                (Route::Native, None) => Ok(()),
                (Route::Native, Some(_)) => Err(ErrorCode::InvalidPaymentType),
                (Route::Token(_), None) => Err(ErrorCode::InvalidPaymentType),
                (Route::Token(offered), Some(wanted)) => if offered == wanted {
                    Ok(())
                } else {
                    Err(ErrorCode::TokenMintMismatch)
                },
            }
        }
    }

    /// The verdict on an attempt by `caller` to cancel the session at `now`,
    /// where `authority` controls the session's merchant.
    ///
    /// While the session can still be paid only the authority may cancel it.
    /// Once it has run out, anyone may.
    pub open spec fn cancel_verdict(self, authority: Address, caller: Address, now: i64) -> Result<
        (),
        ErrorCode,
    > {
        if self.paid {
            Err(ErrorCode::PaymentAlreadyProcessed)
        } else if self.cancelled {
            Err(ErrorCode::PaymentAlreadyCancelled)
        } else if now <= self.expires_at && caller != authority {
            Err(ErrorCode::Unauthorized)
        } else {
            Ok(())
        }
    }

    /// Opens a session of `merchant` for `amount`, to be paid by `expiry` at
    /// the latest.
    ///
    /// Refused with `InvalidExpiry` exactly when `expiry` does not lie after
    /// `now`. A new session is neither paid nor cancelled.
    pub fn open(
        merchant: Address,
        amount: u64,
        reference: Address,
        memo: String,
        token_mint: Option<Address>,
        expiry: i64,
        now: i64,
        bump: u8,
    ) -> (result: Result<Payment, ErrorCode>)
        requires
            amount > 0,
        ensures
            expiry <= now ==> result == Err::<Payment, ErrorCode>(ErrorCode::InvalidExpiry),
            expiry > now ==> result == Ok::<Payment, ErrorCode>(
                Payment {
                    merchant,
                    amount,
                    reference,
                    memo,
                    created_at: now,
                    expires_at: expiry,
                    paid: false,
                    cancelled: false,
                    paid_at: None,
                    payer: None,
                    cancelled_at: None,
                    token_mint,
                    bump,
                },
            ),
            result matches Ok(payment) ==> payment.valid() && payment.state() == SessionState::Open,
    {
        if expiry <= now {
            return Err(ErrorCode::InvalidExpiry);
        }
        Ok(
            Payment {
                merchant,
                amount,
                reference,
                memo,
                created_at: now,
                expires_at: expiry,
                paid: false,
                cancelled: false,
                paid_at: None,
                payer: None,
                cancelled_at: None,
                token_mint,
                bump,
            },
        )
    }

    /// Checks the invariant of the record.
    pub fn is_valid(&self) -> (ok: bool)
        ensures
            ok == self.valid(),
    {
        self.amount > 0 && self.expires_at > self.created_at && !(self.paid && self.cancelled)
            && self.paid == self.paid_at.is_some() && self.paid == self.payer.is_some()
            && self.cancelled == self.cancelled_at.is_some()
    }

    /// Reports where the session stands.
    pub fn session_state(&self) -> (state: SessionState)
        ensures
            state == self.state(),
    {
        if self.paid {
            SessionState::Paid
        } else if self.cancelled {
            SessionState::Cancelled
        } else {
            SessionState::Open
        }
    }

    /// Decides whether the session may be settled by `route` at `now`.
    pub fn guard_settle(&self, route: &Route, now: i64) -> (result: Result<(), ErrorCode>)
        ensures
            result == self.settle_verdict(*route, now),
    {
        if self.paid {
            return Err(ErrorCode::PaymentAlreadyProcessed);
        }
        if self.cancelled {
            return Err(ErrorCode::PaymentAlreadyCancelled);
        }
        if now > self.expires_at {
            return Err(ErrorCode::PaymentExpired);
        }
        match route {
            Route::Native => match &self.token_mint {
                None => Ok(()),
                Some(_) => Err(ErrorCode::InvalidPaymentType),
            },
            Route::Token(offered) => match &self.token_mint {
                None => Err(ErrorCode::InvalidPaymentType),
                Some(wanted) => if *offered == *wanted {
                    Ok(())
                } else {
                    Err(ErrorCode::TokenMintMismatch)
                },
            },
        }
    }

    /// Decides whether `caller` may cancel the session of `merchant` at `now`.
    pub fn guard_cancel(&self, merchant: &Merchant, caller: &Address, now: i64) -> (result: Result<
        (),
        ErrorCode,
    >)
        ensures
            result == self.cancel_verdict(merchant.authority, *caller, now),
    {
        if self.paid {
            return Err(ErrorCode::PaymentAlreadyProcessed);
        }
        if self.cancelled {
            return Err(ErrorCode::PaymentAlreadyCancelled);
        }
        if now <= self.expires_at && *caller != merchant.authority {
            return Err(ErrorCode::Unauthorized);
        }
        Ok(())
    }

    /// Marks the open session as paid by `payer` at `now`.
    pub fn apply_settle(&mut self, now: i64, payer: Address)
        requires
            old(self).state() == SessionState::Open,
        ensures
            *final(self) == old(self).settled(now, payer),
            final(self).state() == SessionState::Paid,
            old(self).valid() ==> final(self).valid(),
    {
        self.paid = true;
        self.paid_at = Some(now);
        self.payer = Some(payer);
    }

    /// Marks the open session as cancelled at `now`.
    pub fn apply_cancel(&mut self, now: i64)
        requires
            old(self).state() == SessionState::Open,
        ensures
            *final(self) == old(self).called_off(now),
            final(self).state() == SessionState::Cancelled,
            old(self).valid() ==> final(self).valid(),
    {
        self.cancelled = true;
        self.cancelled_at = Some(now);
    }
}

} // verus!
