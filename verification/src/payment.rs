//! Payments: the first five are held in escrow, later ones pass to the seller.

use vstd::prelude::*;
use crate::account::Wallet;
use crate::error::ErrorCode;
use crate::record::{EscrowRecord, EscrowSlot, ESCROWED_PAYMENTS};
use crate::transfer::{system_transfer, Instruction};

verus! {

/// The accounts of a payment. `buyer` is the party that pays.
#[derive(Clone, Debug, PartialEq, Eq)]
pub struct MakePayment {
    pub escrow_account: EscrowSlot,
    pub buyer: Wallet,
    pub seller: Wallet,
}

impl EscrowRecord {
    /// Why a payment of `amount` is rejected, if it is.
    pub open spec fn payment_rejection(self, amount: u64) -> Option<ErrorCode> {
        if !self.is_active {
            Some(ErrorCode::SubscriptionInactive)
        } else if self.holds_next_payment() && self.total_amount + amount > u64::MAX {
            Some(ErrorCode::AmountOverflow)
        } else if self.payment_count + 1 > u8::MAX {
            Some(ErrorCode::PaymentCountOverflow)
        } else {
            None
        }
    }

    /// The record after a payment of `amount`: one more payment is counted,
    /// and the amount is added to the held funds if the payment is held.
    pub open spec fn after_payment(self, amount: u64) -> EscrowRecord {
        EscrowRecord {
            payment_count: self.payment_count + 1,
            total_amount: if self.holds_next_payment() {
                self.total_amount + amount as nat
            } else {
                self.total_amount
            },
            ..self
        }
    }
}

impl MakePayment {
    /// The account a payment goes to: the escrow account while payments are
    /// held, the seller afterwards.
    pub open spec fn destination(&self) -> crate::account::AccountId
        recommends
            self.escrow_account.is_occupied(),
    {
        if self.escrow_account.stored().holds_next_payment() {
            self.escrow_account.key
        } else {
            self.seller.key
        }
    }

    /// The accounts `after` are those of `self` once a payment of `amount` is
    /// recorded: only the stored record differs.
    pub open spec fn pays_to(&self, after: &MakePayment, amount: u64) -> bool
        recommends
            self.escrow_account.is_occupied(),
    {
        &&& after.escrow_account.key == self.escrow_account.key
        &&& after.escrow_account.lamports == self.escrow_account.lamports
        &&& after.escrow_account.is_occupied()
        &&& after.escrow_account.stored() == self.escrow_account.stored().after_payment(amount)
        &&& after.buyer == self.buyer
        &&& after.seller == self.seller
    }
}

/// Records a payment of `amount` by the buyer and returns the transfer that
/// carries it out: to the escrow account for each of the first five payments,
/// to the seller for each later one. The balances in `ctx` stay as they were
/// loaded; the funds move when the host ledger runs the transfer, and if that
/// fails the ledger drops the payment as a whole. A rejected payment changes
/// nothing.
pub fn make_payment(ctx: &mut MakePayment, amount: u64) -> (r: Result<Instruction, ErrorCode>)
    requires
        old(ctx).escrow_account.is_occupied(),
    ensures
        match r {
            Ok(transfer) => {
                &&& old(ctx).escrow_account.stored().payment_rejection(amount) is None
                &&& transfer.is_transfer(old(ctx).buyer.key, old(ctx).destination(), amount)
                &&& old(ctx).pays_to(final(ctx), amount)
                &&& old(ctx).escrow_account.stored().well_formed()
                    ==> final(ctx).escrow_account.stored().well_formed()
            },
            Err(e) => {
                &&& old(ctx).escrow_account.stored().payment_rejection(amount) == Some(e)
                &&& *final(ctx) == *old(ctx)
            },
        },
{
    let record = ctx.escrow_account.record.as_ref().unwrap();
    if !record.is_active {
        return Err(ErrorCode::SubscriptionInactive);
    }
    let payment_count: u8 = record.payment_count;
    let held: bool = payment_count < ESCROWED_PAYMENTS;
    let total_amount: u64 = if held {
        match record.total_amount.checked_add(amount) {
            Some(sum) => sum,
            None => {
                return Err(ErrorCode::AmountOverflow);
            },
        }
    } else {
        record.total_amount
    };
    let next_count: u8 = match payment_count.checked_add(1) {
        Some(next) => next,
        None => {
            return Err(ErrorCode::PaymentCountOverflow);
        },
    };
    let transfer = if held {
        system_transfer(&ctx.buyer.key, &ctx.escrow_account.key, amount)
    } else {
        system_transfer(&ctx.buyer.key, &ctx.seller.key, amount)
    };
    let record = ctx.escrow_account.record.as_mut().unwrap();
    record.total_amount = total_amount;
    record.payment_count = next_count;
    Ok(transfer)
}

} // verus!
