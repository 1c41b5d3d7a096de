//! The start of a subscription: a new record at an empty escrow account.

use vstd::prelude::*;
use crate::account::Wallet;
use crate::error::ErrorCode;
use crate::record::{label_fits, EscrowAccount, EscrowRecord, EscrowSlot};

verus! {

/// The accounts of a start. `buyer` is the party that asks for it and that
/// bears the cost of storing the record.
#[derive(Clone, Debug, PartialEq, Eq)]
pub struct StartSubscription {
    pub escrow_account: EscrowSlot,
    pub buyer: Wallet,
    pub seller: Wallet,
}

impl StartSubscription {
    /// The accounts `after` are those of `self` once a subscription with this
    /// label and threshold has started between its buyer and its seller: only
    /// the stored record differs, and it is a fresh one.
    pub open spec fn starts_to(
        &self,
        after: &StartSubscription,
        subscription_id: Seq<char>,
        validation_threshold: u64,
    ) -> bool {
        &&& after.escrow_account.key == self.escrow_account.key
        &&& after.escrow_account.lamports == self.escrow_account.lamports
        &&& after.escrow_account.is_occupied()
        &&& after.escrow_account.stored() == EscrowRecord::fresh(
            self.seller.key@,
            self.buyer.key@,
            subscription_id,
            validation_threshold as nat,
        )
        &&& after.buyer == self.buyer
        &&& after.seller == self.seller
    }
}

/// Starts a subscription between the buyer and the seller of `ctx`: stores a
/// fresh record at the escrow account, which must hold none. A label of more
/// than 32 bytes is rejected, and nothing changes.
pub fn start_subscription(
    ctx: &mut StartSubscription,
    subscription_id: String,
    validation_threshold: u64,
) -> (r: Result<(), ErrorCode>)
    requires
        !old(ctx).escrow_account.is_occupied(),
    ensures
        match r {
            Ok(()) => {
                &&& label_fits(subscription_id@)
                &&& old(ctx).starts_to(final(ctx), subscription_id@, validation_threshold)
                &&& final(ctx).escrow_account.stored().well_formed()
            },
            Err(e) => {
                &&& !label_fits(subscription_id@)
                &&& e == ErrorCode::SubscriptionIdTooLong
                &&& *final(ctx) == *old(ctx)
            },
        },
{
    match EscrowAccount::new(ctx.seller.key, ctx.buyer.key, subscription_id, validation_threshold) {
        Some(record) => {
            ctx.escrow_account.record = Some(record);
            Ok(())
        },
        None => Err(ErrorCode::SubscriptionIdTooLong),
    }
}

} // verus!
