//! Settlement: the seller's terminal operation, which hands the held funds to
//! one party and destroys the record.

use vstd::prelude::*;
use crate::account::Wallet;
use crate::error::ErrorCode;
use crate::record::{EscrowRecord, EscrowSlot, ESCROWED_PAYMENTS};

verus! {

/// The accounts of a settlement. `seller` is the party that asks for it.
#[derive(Clone, Debug, PartialEq, Eq)]
pub struct WithdrawFunds {
    pub escrow_account: EscrowSlot,
    pub buyer: Wallet,
    pub seller: Wallet,
}

impl EscrowRecord {
    /// Validation fails, and the held funds go back to the buyer, exactly when
    /// the number handed in is above the threshold.
    pub open spec fn refunds_buyer(self, validation_data: u64) -> bool {
        validation_data > self.validation_threshold
    }

    /// What a settlement hands to the seller out of the held funds.
    pub open spec fn seller_share(self, validation_data: u64) -> nat {
        if self.refunds_buyer(validation_data) {
            0
        } else {
            self.total_amount
        }
    }

    /// What a settlement hands to the buyer out of the held funds.
    pub open spec fn buyer_share(self, validation_data: u64) -> nat {
        if self.refunds_buyer(validation_data) {
            self.total_amount
        } else {
            0
        }
    }
}

impl WithdrawFunds {
    /// What the escrow account holds beyond the held funds: the reservation
    /// that goes back to the buyer when the record is destroyed.
    pub open spec fn reservation(&self) -> int
        recommends
            self.escrow_account.is_occupied(),
    {
        self.escrow_account.lamports - self.escrow_account.stored().total_amount
    }

    /// Why a settlement with these accounts is rejected, if it is. The tests
    /// come in this order: the subscription is cancelled, five payments were
    /// made, the caller is the seller on the record, the account holds the
    /// funds, and neither credit leaves the 64-bit range.
    pub open spec fn rejection(&self, validation_data: u64) -> Option<ErrorCode>
        recommends
            self.escrow_account.is_occupied(),
    {
        let record = self.escrow_account.stored();
        if record.is_active {
            Some(ErrorCode::SubscriptionStillActive)
        } else if !record.has_enough_payments() {
            Some(ErrorCode::InsufficientPayments)
        } else if self.seller.key@ != record.seller {
            Some(ErrorCode::InvalidSeller)
        } else if self.escrow_account.lamports < record.total_amount {
            Some(ErrorCode::InsufficientFunds)
        } else if self.seller.lamports + record.seller_share(validation_data) > u64::MAX {
            Some(ErrorCode::AmountOverflow)
        } else if self.buyer.lamports + record.buyer_share(validation_data) + self.reservation()
            > u64::MAX {
            Some(ErrorCode::AmountOverflow)
        } else {
            None
        }
    }

    /// The accounts `after` are those of `self` once it is settled: the record
    /// is gone, the escrow account is empty, the seller has its share, and the
    /// buyer has its share and the reservation.
    pub open spec fn settles_to(&self, after: &WithdrawFunds, validation_data: u64) -> bool
        recommends
            self.escrow_account.is_occupied(),
    {
        let record = self.escrow_account.stored();
        &&& after.escrow_account.key == self.escrow_account.key
        &&& after.escrow_account.lamports == 0
        &&& after.escrow_account.record is None
        &&& after.seller.key == self.seller.key
        &&& after.seller.lamports == self.seller.lamports + record.seller_share(validation_data)
        &&& after.buyer.key == self.buyer.key
        &&& after.buyer.lamports == self.buyer.lamports + record.buyer_share(validation_data)
            + self.reservation()
    }
}

/// Settles a cancelled subscription. The held funds, `total_amount`, go to the
/// seller where `validation_data` is at most the record's threshold, and back
/// to the buyer where it is above. The record is then destroyed, and what the
/// escrow account held beyond the funds goes to the buyer. A rejected
/// settlement changes nothing.
pub fn withdraw_funds(ctx: &mut WithdrawFunds, validation_data: u64) -> (r: Result<(), ErrorCode>)
    requires
        old(ctx).escrow_account.is_occupied(),
    ensures
        match r {
            Ok(()) => old(ctx).rejection(validation_data) is None,
            Err(e) => old(ctx).rejection(validation_data) == Some(e),
        },
        r is Ok ==> old(ctx).settles_to(final(ctx), validation_data),
        r is Err ==> *final(ctx) == *old(ctx),
{
    let record = ctx.escrow_account.record.as_ref().unwrap();
    if record.is_active {
        return Err(ErrorCode::SubscriptionStillActive);
    }
    if record.payment_count < ESCROWED_PAYMENTS {
        return Err(ErrorCode::InsufficientPayments);
    }
    if !(ctx.seller.key == record.seller) {
        return Err(ErrorCode::InvalidSeller);
    }
    let amount: u64 = record.total_amount;
    let refund: bool = validation_data > record.validation_threshold;
    let reservation: u64 = match ctx.escrow_account.lamports.checked_sub(amount) {
        Some(rest) => rest,
        None => {
            return Err(ErrorCode::InsufficientFunds);
        },
    };
    let seller_credit: u64 = if refund { 0 } else { amount };
    let buyer_credit: u64 = if refund { amount } else { 0 };
    let seller_lamports: u64 = match ctx.seller.lamports.checked_add(seller_credit) {
        Some(sum) => sum,
        None => {
            return Err(ErrorCode::AmountOverflow);
        },
    };
    let buyer_paid: u64 = match ctx.buyer.lamports.checked_add(buyer_credit) {
        Some(sum) => sum,
        None => {
            return Err(ErrorCode::AmountOverflow);
        },
    };
    let buyer_lamports: u64 = match buyer_paid.checked_add(reservation) {
        Some(sum) => sum,
        None => {
            return Err(ErrorCode::AmountOverflow);
        },
    };
    ctx.seller.lamports = seller_lamports;
    ctx.buyer.lamports = buyer_lamports;
    ctx.escrow_account.lamports = 0;
    ctx.escrow_account.record = None;
    Ok(())
}

} // verus!
