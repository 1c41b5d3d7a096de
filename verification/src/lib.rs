//! An escrow-mediated recurring-payment mechanism.
//!
//! A buyer and a seller agree on a subscription named by a short label. The
//! buyer pays; the first payments are held at an escrow account, later ones go
//! straight to the seller. Once the buyer has cancelled and enough payments
//! were made, the seller settles: a number handed in at settlement is compared
//! with a threshold fixed at the start, and the held funds go to the seller or
//! back to the buyer. Every operation is a verified function on plain values;
//! the host ledger loads the accounts, runs the transfers and stores the
//! outcome.

pub mod account;
pub mod address;
pub mod cancel;
pub mod error;
pub mod laws;
pub mod payment;
pub mod record;
pub mod settlement;
pub mod start;
pub mod transfer;

pub use account::{AccountId, Wallet};
pub use address::find_escrow_address;
pub use cancel::{cancel_subscription, CancelSubscription};
pub use error::ErrorCode;
pub use payment::{make_payment, MakePayment};
pub use record::{EscrowAccount, EscrowRecord, EscrowSlot};
pub use settlement::{withdraw_funds, WithdrawFunds};
pub use start::{start_subscription, StartSubscription};
pub use transfer::{AccountMeta, Instruction};
