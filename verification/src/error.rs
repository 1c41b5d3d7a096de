//! The typed rejections of the escrow operations.

use vstd::prelude::*;

verus! {

/// Why an operation was rejected. A rejected operation changes nothing.
#[derive(Clone, Copy, Debug, PartialEq, Eq, Structural)]
pub enum ErrorCode {
    /// An accumulated or credited amount would leave the 64-bit range.
    AmountOverflow,
    /// The payment counter would leave the 8-bit range.
    PaymentCountOverflow,
    /// The settling party is not the seller on the record.
    InvalidSeller,
    /// The escrow account holds less than the record says it does.
    InsufficientFunds,
    /// The subscription was cancelled already.
    SubscriptionInactive,
    /// The cancelling party is not the buyer on the record.
    UnauthorizedAccess,
    /// The subscription label takes more than 32 bytes.
    SubscriptionIdTooLong,
    /// Settlement was asked for before cancellation.
    SubscriptionStillActive,
    /// Settlement was asked for before the fifth payment.
    InsufficientPayments,
}

impl ErrorCode {
    /// The message that goes with the rejection.
    pub fn message(&self) -> (r: &'static str)
        ensures
            r@ == self.spec_message()@,
    {
        match self {
            ErrorCode::AmountOverflow => "Amount overflow",
            ErrorCode::PaymentCountOverflow => "Payment count overflow",
            ErrorCode::InvalidSeller => "Invalid seller",
            ErrorCode::InsufficientFunds => "Insufficient funds",
            ErrorCode::SubscriptionInactive => "Subscription is inactive",
            ErrorCode::UnauthorizedAccess => "Unauthorized access",
            ErrorCode::SubscriptionIdTooLong => "Subscription ID too long",
            ErrorCode::SubscriptionStillActive => "Subscription is still active",
            ErrorCode::InsufficientPayments => "Minimum 5 payments required before withdrawal",
        }
    }

    /// The message of each variant.
    pub open spec fn spec_message(self) -> &'static str {
        match self {
            ErrorCode::AmountOverflow => "Amount overflow",
            ErrorCode::PaymentCountOverflow => "Payment count overflow",
            ErrorCode::InvalidSeller => "Invalid seller",
            ErrorCode::InsufficientFunds => "Insufficient funds",
            ErrorCode::SubscriptionInactive => "Subscription is inactive",
            ErrorCode::UnauthorizedAccess => "Unauthorized access",
            ErrorCode::SubscriptionIdTooLong => "Subscription ID too long",
            ErrorCode::SubscriptionStillActive => "Subscription is still active",
            ErrorCode::InsufficientPayments => "Minimum 5 payments required before withdrawal",
        }
    }
}

} // verus!
