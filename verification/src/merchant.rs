//! Merchant records: who controls them, what they charge, what they have
//! settled so far.

use crate::address::Address;
use crate::error::ErrorCode;
use crate::fees::MAX_FEE_BASIS_POINTS;
use vstd::prelude::*;

verus! {

/// A registered merchant.
///
/// The authority, the name and the fee rate are fixed at registration. The two
/// counters only grow, and only when a session of the merchant is settled.
#[derive(Debug, PartialEq, Eq)]
pub struct Merchant {
    /// The principal that controls the record.
    pub authority: Address,
    /// A display name.
    pub name: String,
    /// The fee rate in basis points, at most `MAX_FEE_BASIS_POINTS`.
    pub fee_basis_points: u16,
    /// How many sessions have been settled.
    pub total_payments: u64,
    /// The sum of the gross amounts of the settled sessions.
    pub total_volume: u64,
    /// The bump seed that binds the record to its address.
    pub bump: u8,
}

impl Clone for Merchant {
    fn clone(&self) -> (copy: Merchant)
        ensures
            copy == *self,
    {
        Merchant {
            authority: self.authority,
            name: self.name.clone(),
            fee_basis_points: self.fee_basis_points,
            total_payments: self.total_payments,
            total_volume: self.total_volume,
            bump: self.bump,
        }
    }
}

impl Merchant {
    /// The invariant of a merchant record: its fee rate is within the limit.
    pub open spec fn valid(self) -> bool {
        self.fee_basis_points <= MAX_FEE_BASIS_POINTS
    }

    /// The record after one more settlement of `gross_amount`.
    pub open spec fn credited(self, gross_amount: u64) -> Merchant {
        Merchant {
            total_payments: (self.total_payments + 1) as u64,
            total_volume: (self.total_volume + gross_amount) as u64,
            ..self
        }
    }

    /// Whether the counters have room for one more settlement of `gross_amount`.
    pub open spec fn can_credit(self, gross_amount: u64) -> bool {
        self.total_payments + 1 <= u64::MAX && self.total_volume + gross_amount <= u64::MAX
    }

    /// Checks the invariant of the record.
    pub fn is_valid(&self) -> (ok: bool)
        ensures
            ok == self.valid(),
    {
        self.fee_basis_points <= MAX_FEE_BASIS_POINTS
    }

    /// Builds the record of a new merchant, with both counters at zero.
    ///
    /// Refused with `FeeTooHigh` exactly when `fee_basis_points` exceeds
    /// `MAX_FEE_BASIS_POINTS`.
    pub fn register(authority: Address, name: String, fee_basis_points: u16, bump: u8) -> (result:
        Result<Merchant, ErrorCode>)
        ensures
            fee_basis_points > MAX_FEE_BASIS_POINTS ==> result == Err::<Merchant, ErrorCode>(
                ErrorCode::FeeTooHigh,
            ),
            fee_basis_points <= MAX_FEE_BASIS_POINTS ==> result == Ok::<Merchant, ErrorCode>(
                Merchant {
                    authority,
                    name,
                    fee_basis_points,
                    total_payments: 0,
                    total_volume: 0,
                    bump,
                },
            ),
            result matches Ok(merchant) ==> merchant.valid(),
    {
        if fee_basis_points > MAX_FEE_BASIS_POINTS {
            return Err(ErrorCode::FeeTooHigh);
        }
        Ok(Merchant { authority, name, fee_basis_points, total_payments: 0, total_volume: 0, bump })
    }

    /// Counts one settled session of `gross_amount`.
    ///
    /// Refused with `MathOverflow`, and the record left as it was, exactly when
    /// either counter would pass the largest value it can hold.
    pub fn record_settlement(&mut self, gross_amount: u64) -> (result: Result<(), ErrorCode>)
        ensures
            old(self).can_credit(gross_amount) ==> result is Ok && *final(self) == old(
                self,
            ).credited(gross_amount),
            !old(self).can_credit(gross_amount) ==> result == Err::<(), ErrorCode>(
                ErrorCode::MathOverflow,
            ) && *final(self) == *old(self),
            final(self).total_payments >= old(self).total_payments,
            final(self).total_volume >= old(self).total_volume,
            old(self).valid() ==> final(self).valid(),
    {
        let payments: u64 = match self.total_payments.checked_add(1) {
            Some(payments) => payments,
            None => { return Err(ErrorCode::MathOverflow); },
        };
        let volume: u64 = match self.total_volume.checked_add(gross_amount) {
            Some(volume) => volume,
            None => { return Err(ErrorCode::MathOverflow); },
        };
        self.total_payments = payments;
        self.total_volume = volume;
        Ok(())
    }
}

} // verus!
