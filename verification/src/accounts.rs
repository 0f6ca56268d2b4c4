//! The records and identities that each operation works on.
//!
//! An operation is handed its records together with the addresses they live
//! at. Two things are asked of such a set. It is *consistent* when the records
//! belong together: the session is the merchant's, the wallet is the
//! authority's. It is *bound* when each record lives at the address derived
//! from its own seeds, so that no unrelated record of the same shape can stand
//! in for it.

use crate::address::{
    is_merchant_address, is_payment_address, merchant_address, payment_address, Address,
};
use crate::merchant::Merchant;
use crate::payment::Payment;
use vstd::prelude::*;

verus! {

/// A record and the address it lives at.
#[derive(Clone, Debug, PartialEq, Eq)]
pub struct Account<T> {
    pub key: Address,
    pub data: T,
}

/// A merchant record and the address it lives at.
pub type MerchantAccount = Account<Merchant>;

/// A session record and the address it lives at.
pub type PaymentAccount = Account<Payment>;

impl Account<Merchant> {
    /// Whether the record lives at the address derived from its authority.
    pub open spec fn bound(self, program_id: Address) -> bool {
        is_merchant_address(program_id, self.data.authority, self.key, self.data.bump)
    }

    /// Derives the record's address anew and compares.
    pub fn is_bound(&self, program_id: &Address) -> (ok: bool)
        ensures
            ok == self.bound(*program_id),
    {
        match merchant_address(program_id, &self.data.authority) {
            Some((address, bump)) => address == self.key && bump == self.data.bump,
            None => false,
        }
    }
}

impl Account<Payment> {
    /// Whether the record lives at the address derived from its merchant and
    /// its reference.
    pub open spec fn bound(self, program_id: Address) -> bool {
        is_payment_address(
            program_id,
            self.data.merchant,
            self.data.reference,
            self.key,
            self.data.bump,
        )
    }

    /// Derives the record's address anew and compares.
    pub fn is_bound(&self, program_id: &Address) -> (ok: bool)
        ensures
            ok == self.bound(*program_id),
    {
        match payment_address(program_id, &self.data.merchant, &self.data.reference) {
            Some((address, bump)) => address == self.key && bump == self.data.bump,
            None => false,
        }
    }
}

/// What the registration of a merchant works on.
#[derive(Clone, Copy, Debug)]
pub struct InitializeMerchant {
    /// The program under which addresses are derived.
    pub program_id: Address,
    /// The address at which the new record is to live.
    pub merchant: Address,
    /// The principal that registers, and will control the record.
    pub authority: Address,
    /// The bump seed derived with the address.
    pub bump: u8,
}

impl InitializeMerchant {
    /// Whether the address is the one derived from the authority.
    pub open spec fn bound(self) -> bool {
        is_merchant_address(self.program_id, self.authority, self.merchant, self.bump)
    }

    /// Derives the address anew and compares.
    pub fn validate(&self) -> (ok: bool)
        ensures
            ok == self.bound(),
    {
        match merchant_address(&self.program_id, &self.authority) {
            Some((address, bump)) => address == self.merchant && bump == self.bump,
            None => false,
        }
    }
}

/// What the opening of a session works on.
#[derive(Debug)]
pub struct CreatePaymentSession {
    /// The program under which addresses are derived.
    pub program_id: Address,
    /// The merchant that opens the session.
    pub merchant: MerchantAccount,
    /// The address at which the new session is to live.
    pub payment: Address,
    /// The principal that asks for the session.
    pub authority: Address,
    /// The bump seed derived with the session's address.
    pub bump: u8,
}

impl CreatePaymentSession {
    /// The merchant's record is sound, and the one asking controls it.
    pub open spec fn consistent(self) -> bool {
        &&& self.merchant.data.valid()
        &&& self.merchant.data.authority == self.authority
    }

    /// The merchant lives at its derived address, and the session's address is
    /// the one derived for `reference`.
    pub open spec fn bound(self, reference: Address) -> bool {
        &&& self.merchant.bound(self.program_id)
        &&& is_payment_address(
            self.program_id,
            self.merchant.key,
            reference,
            self.payment,
            self.bump,
        )
    }

    /// Checks consistency, derives both addresses anew and compares.
    pub fn validate(&self, reference: &Address) -> (ok: bool)
        ensures
            ok == (self.consistent() && self.bound(*reference)),
    {
        if !(self.merchant.data.is_valid() && self.merchant.data.authority == self.authority) {
            return false;
        }
        if !self.merchant.is_bound(&self.program_id) {
            return false;
        }
        match payment_address(&self.program_id, &self.merchant.key, reference) {
            Some((address, bump)) => address == self.payment && bump == self.bump,
            None => false,
        }
    }
}

/// What a settlement in the native asset works on.
#[derive(Debug)]
pub struct ProcessSolPayment {
    /// The program under which addresses are derived.
    pub program_id: Address,
    /// The merchant that is paid.
    pub merchant: MerchantAccount,
    /// The session that is settled.
    pub payment: PaymentAccount,
    /// The principal that pays.
    pub payer: Address,
    /// The wallet that receives the merchant's share.
    pub merchant_wallet: Address,
    /// The wallet that receives the fee.
    pub fee_collector: Address,
}

impl ProcessSolPayment {
    /// Both records are sound, the session is the merchant's, and the wallet
    /// that is paid is the merchant's authority.
    pub open spec fn consistent(self) -> bool {
        &&& self.merchant.data.valid()
        &&& self.payment.data.valid()
        &&& self.payment.data.merchant == self.merchant.key
        &&& self.merchant_wallet == self.merchant.data.authority
    }

    /// Both records live at their derived addresses.
    pub open spec fn bound(self) -> bool {
        &&& self.merchant.bound(self.program_id)
        &&& self.payment.bound(self.program_id)
    }

    /// The same set with the two records replaced.
    pub open spec fn with_records(self, merchant: Merchant, payment: Payment) -> ProcessSolPayment {
        ProcessSolPayment {
            merchant: Account { key: self.merchant.key, data: merchant },
            payment: Account { key: self.payment.key, data: payment },
            ..self
        }
    }

    /// Checks consistency, derives both addresses anew and compares.
    pub fn validate(&self) -> (ok: bool)
        ensures
            ok == (self.consistent() && self.bound()),
    {
        self.merchant.data.is_valid() && self.payment.data.is_valid() && self.payment.data.merchant
            == self.merchant.key && self.merchant_wallet == self.merchant.data.authority
            && self.merchant.is_bound(&self.program_id) && self.payment.is_bound(&self.program_id)
    }
}

/// What a settlement in a token works on.
#[derive(Debug)]
pub struct ProcessTokenPayment {
    /// The program under which addresses are derived.
    pub program_id: Address,
    /// The merchant that is paid.
    pub merchant: MerchantAccount,
    /// The session that is settled.
    pub payment: PaymentAccount,
    /// The token that is offered.
    pub mint: Address,
    /// The principal that pays.
    pub payer: Address,
    /// The payer's holding of the token.
    pub payer_token_account: Address,
    /// The merchant's holding of the token.
    pub merchant_token_account: Address,
    /// The fee collector's holding of the token.
    pub fee_collector_token_account: Address,
    /// The principal that collects the fee.
    pub fee_collector: Address,
    /// The merchant's authority.
    pub authority: Address,
}

impl ProcessTokenPayment {
    /// Both records are sound, the session is the merchant's, and the
    /// authority named is the merchant's.
    pub open spec fn consistent(self) -> bool {
        &&& self.merchant.data.valid()
        &&& self.payment.data.valid()
        &&& self.payment.data.merchant == self.merchant.key
        &&& self.merchant.data.authority == self.authority
    }

    /// Both records live at their derived addresses.
    pub open spec fn bound(self) -> bool {
        &&& self.merchant.bound(self.program_id)
        &&& self.payment.bound(self.program_id)
    }

    /// The same set with the two records replaced.
    pub open spec fn with_records(self, merchant: Merchant, payment: Payment)
        -> ProcessTokenPayment {
        ProcessTokenPayment {
            merchant: Account { key: self.merchant.key, data: merchant },
            payment: Account { key: self.payment.key, data: payment },
            ..self
        }
    }

    /// Checks consistency, derives both addresses anew and compares.
    pub fn validate(&self) -> (ok: bool)
        ensures
            ok == (self.consistent() && self.bound()),
    {
        self.merchant.data.is_valid() && self.payment.data.is_valid() && self.payment.data.merchant
            == self.merchant.key && self.merchant.data.authority == self.authority
            && self.merchant.is_bound(&self.program_id) && self.payment.is_bound(&self.program_id)
    }
}

/// What a cancellation works on.
#[derive(Debug)]
pub struct CancelPayment {
    /// The program under which addresses are derived.
    pub program_id: Address,
    /// The merchant whose session is cancelled.
    pub merchant: MerchantAccount,
    /// The session that is cancelled.
    pub payment: PaymentAccount,
    /// The principal that asks for the cancellation.
    pub authority: Address,
}

impl CancelPayment {
    /// Both records are sound and the session is the merchant's.
    pub open spec fn consistent(self) -> bool {
        &&& self.merchant.data.valid()
        &&& self.payment.data.valid()
        &&& self.payment.data.merchant == self.merchant.key
    }

    /// Both records live at their derived addresses.
    pub open spec fn bound(self) -> bool {
        &&& self.merchant.bound(self.program_id)
        &&& self.payment.bound(self.program_id)
    }

    /// Checks consistency, derives both addresses anew and compares.
    pub fn validate(&self) -> (ok: bool)
        ensures
            ok == (self.consistent() && self.bound()),
    {
        self.merchant.data.is_valid() && self.payment.data.is_valid() && self.payment.data.merchant
            == self.merchant.key && self.merchant.is_bound(&self.program_id)
            && self.payment.is_bound(&self.program_id)
    }
}

} // verus!
