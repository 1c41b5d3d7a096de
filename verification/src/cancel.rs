//! Cancellation: the buyer ends the subscription; no funds move.

use vstd::prelude::*;
use crate::account::Wallet;
use crate::error::ErrorCode;
use crate::record::{EscrowRecord, EscrowSlot};

verus! {

/// The accounts of a cancellation. `buyer` is the party that asks for it.
#[derive(Clone, Debug, PartialEq, Eq)]
pub struct CancelSubscription {
    pub escrow_account: EscrowSlot,
    pub buyer: Wallet,
}

impl EscrowRecord {
    /// Why a cancellation asked for by `caller` is rejected, if it is.
    pub open spec fn cancel_rejection(self, caller: Seq<u8>) -> Option<ErrorCode> {
        if !self.is_active {
            Some(ErrorCode::SubscriptionInactive)
        } else if caller != self.buyer {
            Some(ErrorCode::UnauthorizedAccess)
        } else {
            None
        }
    }

    /// The record after its cancellation: it is no longer active, and nothing
    /// else has changed.
    pub open spec fn cancelled(self) -> EscrowRecord {
        EscrowRecord { is_active: false, ..self }
    }
}

impl CancelSubscription {
    /// The accounts `after` are those of `self` once the subscription is
    /// cancelled: only the stored record differs.
    pub open spec fn cancels_to(&self, after: &CancelSubscription) -> bool
        recommends
            self.escrow_account.is_occupied(),
    {
        &&& after.escrow_account.key == self.escrow_account.key
        &&& after.escrow_account.lamports == self.escrow_account.lamports
        &&& after.escrow_account.is_occupied()
        &&& after.escrow_account.stored() == self.escrow_account.stored().cancelled()
        &&& after.buyer == self.buyer
    }
}

/// Ends an active subscription at its buyer's request. The held funds stay
/// where they are until the settlement. A rejected cancellation changes
/// nothing.
pub fn cancel_subscription(ctx: &mut CancelSubscription) -> (r: Result<(), ErrorCode>)
    requires
        old(ctx).escrow_account.is_occupied(),
    ensures
        match r {
            Ok(()) => {
                &&& old(ctx).escrow_account.stored().cancel_rejection(old(ctx).buyer.key@) is None
                &&& old(ctx).cancels_to(final(ctx))
                &&& old(ctx).escrow_account.stored().well_formed()
                    ==> final(ctx).escrow_account.stored().well_formed()
            },
            Err(e) => {
                &&& old(ctx).escrow_account.stored().cancel_rejection(old(ctx).buyer.key@)
                    == Some(e)
                &&& *final(ctx) == *old(ctx)
            },
        },
{
    let record = ctx.escrow_account.record.as_ref().unwrap();
    if !record.is_active {
        return Err(ErrorCode::SubscriptionInactive);
    }
    if !(ctx.buyer.key == record.buyer) {
        return Err(ErrorCode::UnauthorizedAccess);
    }
    let record = ctx.escrow_account.record.as_mut().unwrap();
    record.is_active = false;
    Ok(())
}

} // verus!
