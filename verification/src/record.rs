//! The escrow record, its mathematical model and the account that stores it.

use vstd::prelude::*;
use vstd::utf8::{encode_utf8, is_ascii_chars, is_ascii_chars_encode_utf8};
use crate::account::AccountId;

verus! {

/// The number of payments that are held in escrow before later ones pass
/// straight to the seller; also the number a settlement asks for.
pub const ESCROWED_PAYMENTS: u8 = 5;

/// The most bytes a subscription label may take.
pub const MAX_SUBSCRIPTION_ID_LEN: usize = 32;

/// Whether a label fits the bytes reserved for it in a record: its UTF-8
/// encoding takes at most 32 bytes.
pub open spec fn label_fits(subscription_id: Seq<char>) -> bool {
    encode_utf8(subscription_id).len() <= MAX_SUBSCRIPTION_ID_LEN
}

/// A label of ASCII characters fits exactly when it has at most 32 of them.
pub proof fn lemma_ascii_label_fits(subscription_id: Seq<char>)
    requires
        is_ascii_chars(subscription_id),
    ensures
        label_fits(subscription_id) <==> subscription_id.len() <= MAX_SUBSCRIPTION_ID_LEN,
{
    is_ascii_chars_encode_utf8(subscription_id);
}

/// The state of one subscription between a buyer and a seller.
#[derive(Clone, Debug, PartialEq, Eq)]
pub struct EscrowAccount {
    pub seller: AccountId,
    pub buyer: AccountId,
    pub subscription_id: String,
    pub payment_count: u8,
    pub total_amount: u64,
    pub is_active: bool,
    pub validation_threshold: u64,
}

/// What an escrow record is, as mathematics: the parties by their bytes, the
/// label by its characters, the counters as natural numbers.
pub struct EscrowRecord {
    pub seller: Seq<u8>,
    pub buyer: Seq<u8>,
    pub subscription_id: Seq<char>,
    pub payment_count: nat,
    pub total_amount: nat,
    pub is_active: bool,
    pub validation_threshold: nat,
}

impl View for EscrowAccount {
    type V = EscrowRecord;

    open spec fn view(&self) -> EscrowRecord {
        EscrowRecord {
            seller: self.seller@,
            buyer: self.buyer@,
            subscription_id: self.subscription_id@,
            payment_count: self.payment_count as nat,
            total_amount: self.total_amount as nat,
            is_active: self.is_active,
            validation_threshold: self.validation_threshold as nat,
        }
    }
}

impl EscrowRecord {
    /// The record of a subscription that has just started.
    pub open spec fn fresh(
        seller: Seq<u8>,
        buyer: Seq<u8>,
        subscription_id: Seq<char>,
        validation_threshold: nat,
    ) -> EscrowRecord {
        EscrowRecord {
            seller,
            buyer,
            subscription_id,
            payment_count: 0,
            total_amount: 0,
            is_active: true,
            validation_threshold,
        }
    }

    /// The label fits the bytes reserved for it, and the counters fit their
    /// widths.
    pub open spec fn well_formed(self) -> bool {
        &&& self.seller.len() == 32
        &&& self.buyer.len() == 32
        &&& label_fits(self.subscription_id)
        &&& self.payment_count <= u8::MAX
        &&& self.total_amount <= u64::MAX
        &&& self.validation_threshold <= u64::MAX
    }

    /// Whether the next payment is held in escrow (else it passes to the
    /// seller).
    pub open spec fn holds_next_payment(self) -> bool {
        self.payment_count < ESCROWED_PAYMENTS
    }

    /// Whether enough payments were made for a settlement.
    pub open spec fn has_enough_payments(self) -> bool {
        self.payment_count >= ESCROWED_PAYMENTS
    }
}

impl EscrowAccount {
    /// The bytes one stored record takes: two identifiers of 32 bytes, 32 bytes
    /// reserved for the label, the counter, the total, the flag and the
    /// threshold.
    pub const LEN: usize = 32 + 32 + 32 + 1 + 8 + 1 + 8;

    /// The record of a subscription that has just started, or `None` where the
    /// label takes more than 32 bytes.
    pub fn new(
        seller: AccountId,
        buyer: AccountId,
        subscription_id: String,
        validation_threshold: u64,
    ) -> (r: Option<EscrowAccount>)
        ensures
            r is Some <==> label_fits(subscription_id@),
            r is Some ==> r.unwrap()@ == EscrowRecord::fresh(
                seller@,
                buyer@,
                subscription_id@,
                validation_threshold as nat,
            ),
            r is Some ==> r.unwrap().well_formed(),
    {
        if subscription_id.as_str().as_bytes().len() > MAX_SUBSCRIPTION_ID_LEN {
            return None;
        }
        Some(
            EscrowAccount {
                seller,
                buyer,
                subscription_id,
                payment_count: 0,
                total_amount: 0,
                is_active: true,
                validation_threshold,
            },
        )
    }

    /// The label fits the bytes reserved for it. (The rest of what makes a
    /// record well formed holds of every value of this type.)
    pub open spec fn well_formed(&self) -> bool {
        self@.well_formed()
    }
}

/// The escrow account on the host ledger: where it is, what it holds in
/// lamports, and the record stored there, if there is one.
#[derive(Clone, Debug, PartialEq, Eq)]
pub struct EscrowSlot {
    pub key: AccountId,
    pub lamports: u64,
    pub record: Option<EscrowAccount>,
}

impl EscrowSlot {
    /// Whether a record is stored at the account.
    pub open spec fn is_occupied(&self) -> bool {
        self.record is Some
    }

    /// The model of the record stored at the account.
    pub open spec fn stored(&self) -> EscrowRecord
        recommends
            self.is_occupied(),
    {
        self.record.unwrap()@
    }
}

} // verus!
