//! What holds of the operations taken together, over every record and every
//! run of payments.

use vstd::prelude::*;
use crate::cancel::CancelSubscription;
use crate::error::ErrorCode;
use crate::payment::MakePayment;
use crate::record::{label_fits, EscrowRecord, ESCROWED_PAYMENTS};
use crate::settlement::WithdrawFunds;
use crate::start::StartSubscription;

verus! {

/// The sum of a run of amounts.
pub open spec fn sum(amounts: Seq<u64>) -> nat
    decreases amounts.len(),
{
    if amounts.len() == 0 {
        0
    } else {
        amounts[0] as nat + sum(amounts.drop_first())
    }
}

/// Of a run of payments made from the payment numbered `first` on, those that
/// are held in escrow: the ones numbered below five.
pub open spec fn held_payments(amounts: Seq<u64>, first: nat) -> Seq<u64> {
    if first >= ESCROWED_PAYMENTS {
        Seq::empty()
    } else if first + amounts.len() <= ESCROWED_PAYMENTS {
        amounts
    } else {
        amounts.take(ESCROWED_PAYMENTS - first)
    }
}

impl EscrowRecord {
    /// The record after the payments of `amounts`, made in turn, or `None`
    /// where one of them is rejected.
    pub open spec fn after_payments(self, amounts: Seq<u64>) -> Option<EscrowRecord>
        decreases amounts.len(),
    {
        if amounts.len() == 0 {
            Some(self)
        } else if self.payment_rejection(amounts[0]) is Some {
            None
        } else {
            self.after_payment(amounts[0]).after_payments(amounts.drop_first())
        }
    }
}

/// After a run of payments that were all accepted, the counter has grown by
/// the number of payments, so on a fresh record it is that number; it never
/// leaves the 8-bit range. The held funds have grown by the amounts of the
/// payments numbered below five, and by nothing else. The record is still
/// active, and parties, label and threshold are as they were.
pub proof fn lemma_payments_counted_and_split(record: EscrowRecord, amounts: Seq<u64>)
    requires
        record.after_payments(amounts) is Some,
    ensures
        record.after_payments(amounts).unwrap().payment_count == record.payment_count
            + amounts.len(),
        amounts.len() > 0 ==> record.payment_count + amounts.len() <= u8::MAX,
        record.after_payments(amounts).unwrap().total_amount == record.total_amount + sum(
            held_payments(amounts, record.payment_count),
        ),
        record.after_payments(amounts).unwrap() == (EscrowRecord {
            payment_count: record.payment_count + amounts.len(),
            total_amount: record.total_amount + sum(held_payments(amounts, record.payment_count)),
            ..record
        }),
    decreases amounts.len(),
{
    if amounts.len() > 0 {
        let next = record.after_payment(amounts[0]);
        let rest = amounts.drop_first();
        lemma_payments_counted_and_split(next, rest);
        let held = held_payments(amounts, record.payment_count);
        let held_rest = held_payments(rest, next.payment_count);
        if record.holds_next_payment() {
            assert(held.len() > 0);
            assert(held[0] == amounts[0]);
            assert(held.drop_first() =~= held_rest);
        } else {
            assert(held =~= held_rest);
        }
    }
}

/// In a run of payments that were all accepted, the payment at place `i` finds
/// a record that has counted the payments before it, and so it is held in
/// escrow exactly when its number, that count, is below five; else it passes
/// to the seller.
pub proof fn lemma_payment_routed_by_its_number(record: EscrowRecord, amounts: Seq<u64>, i: int)
    requires
        record.after_payments(amounts) is Some,
        0 <= i <= amounts.len(),
    ensures
        record.after_payments(amounts.take(i)) is Some,
        record.after_payments(amounts.take(i)).unwrap().payment_count == record.payment_count
            + i,
        record.after_payments(amounts.take(i)).unwrap().holds_next_payment()
            <==> record.payment_count + i < ESCROWED_PAYMENTS,
        i < amounts.len() ==> record.after_payments(amounts.take(i)).unwrap().payment_rejection(
            amounts[i],
        ) is None,
    decreases i,
{
    if i == 0 {
        assert(amounts.take(0) =~= Seq::<u64>::empty());
    } else {
        let next = record.after_payment(amounts[0]);
        let rest = amounts.drop_first();
        lemma_payment_routed_by_its_number(next, rest, i - 1);
        assert(amounts.take(i)[0] == amounts[0]);
        assert(amounts.take(i).drop_first() =~= rest.take(i - 1));
    }
}

/// A run of payments on an active record is accepted as a whole exactly when
/// the counter stays in the 8-bit range and the held funds stay in the 64-bit
/// range: nothing else stops a payment.
pub proof fn lemma_payments_accepted(record: EscrowRecord, amounts: Seq<u64>)
    requires
        record.well_formed(),
        record.is_active,
        amounts.len() > 0,
    ensures
        record.after_payments(amounts) is Some <==> {
            &&& record.payment_count + amounts.len() <= u8::MAX
            &&& record.total_amount + sum(held_payments(amounts, record.payment_count))
                <= u64::MAX
        },
    decreases amounts.len(),
{
    let next = record.after_payment(amounts[0]);
    let rest = amounts.drop_first();
    let held = held_payments(amounts, record.payment_count);
    let held_rest = held_payments(rest, next.payment_count);
    if record.holds_next_payment() {
        assert(held[0] == amounts[0]);
        assert(held.drop_first() =~= held_rest);
        assert(sum(held) == amounts[0] as nat + sum(held_rest));
    } else {
        assert(held =~= held_rest);
        assert(sum(held) == 0);
    }
    if record.payment_rejection(amounts[0]) is None {
        if rest.len() > 0 {
            lemma_payments_accepted(next, rest);
        } else {
            assert(held_rest =~= Seq::<u64>::empty());
            assert(next.after_payments(rest) == Some(next));
        }
    }
}

/// A cancellation changes the flag and nothing else: the held funds and the
/// counter are as they were, and so are the balances of every account.
pub proof fn lemma_cancel_is_fund_neutral(before: CancelSubscription, after: CancelSubscription)
    requires
        before.escrow_account.is_occupied(),
        before.cancels_to(&after),
    ensures
        after.escrow_account.stored().total_amount == before.escrow_account.stored().total_amount,
        after.escrow_account.stored().payment_count
            == before.escrow_account.stored().payment_count,
        !after.escrow_account.stored().is_active,
        after.escrow_account.lamports == before.escrow_account.lamports,
        after.buyer.lamports == before.buyer.lamports,
        after.escrow_account.stored() == (EscrowRecord {
            is_active: false,
            ..before.escrow_account.stored()
        }),
{
}

/// A settlement is rejected as still active while the subscription is not
/// cancelled, and for want of payments while it is cancelled with fewer than
/// five payments made: whatever the accounts hold, and whoever asks.
pub proof fn lemma_settlement_needs_cancel_and_payments(ctx: WithdrawFunds, validation_data: u64)
    requires
        ctx.escrow_account.is_occupied(),
    ensures
        ctx.escrow_account.stored().is_active ==> ctx.rejection(validation_data) == Some(
            ErrorCode::SubscriptionStillActive,
        ),
        !ctx.escrow_account.stored().is_active && ctx.escrow_account.stored().payment_count
            < ESCROWED_PAYMENTS ==> ctx.rejection(validation_data) == Some(
            ErrorCode::InsufficientPayments,
        ),
        ctx.rejection(validation_data) is None ==> !ctx.escrow_account.stored().is_active
            && ctx.escrow_account.stored().payment_count >= ESCROWED_PAYMENTS,
{
}

/// A settlement hands the whole of the held funds to one party and nothing
/// of them to the other: to the seller where the number handed in is at most
/// the threshold, to the buyer where it is above. The escrow account is left
/// empty, and what it held beyond the funds is with the buyer.
pub proof fn lemma_settlement_pays_one_party(
    before: WithdrawFunds,
    after: WithdrawFunds,
    validation_data: u64,
)
    requires
        before.escrow_account.is_occupied(),
        before.rejection(validation_data) is None,
        before.settles_to(&after, validation_data),
    ensures
        validation_data <= before.escrow_account.stored().validation_threshold ==> {
            &&& after.seller.lamports - before.seller.lamports
                == before.escrow_account.stored().total_amount
            &&& after.buyer.lamports - before.buyer.lamports == before.reservation()
        },
        validation_data > before.escrow_account.stored().validation_threshold ==> {
            &&& after.seller.lamports == before.seller.lamports
            &&& after.buyer.lamports - before.buyer.lamports
                == before.escrow_account.stored().total_amount + before.reservation()
        },
        before.reservation() >= 0,
        after.escrow_account.lamports == 0,
        after.seller.lamports + after.buyer.lamports + after.escrow_account.lamports
            == before.seller.lamports + before.buyer.lamports + before.escrow_account.lamports,
{
}

/// Once a settlement went through, the record is gone: no payment,
/// cancellation or settlement can be asked for at that escrow account, since
/// each needs a record there; and a subscription can start there again.
pub proof fn lemma_settled_record_is_gone(
    before: WithdrawFunds,
    after: WithdrawFunds,
    validation_data: u64,
    payment: MakePayment,
    cancel: CancelSubscription,
    settlement: WithdrawFunds,
    start: StartSubscription,
)
    requires
        before.escrow_account.is_occupied(),
        before.settles_to(&after, validation_data),
        payment.escrow_account == after.escrow_account,
        cancel.escrow_account == after.escrow_account,
        settlement.escrow_account == after.escrow_account,
        start.escrow_account == after.escrow_account,
    ensures
        !payment.escrow_account.is_occupied(),
        !cancel.escrow_account.is_occupied(),
        !settlement.escrow_account.is_occupied(),
        !start.escrow_account.is_occupied(),
{
}

/// Through every operation a record keeps its parties, its label and its
/// threshold, its counter and its held funds never go down, the held funds
/// grow only while fewer than five payments were made, and a record that is
/// no longer active never becomes active again.
pub proof fn lemma_record_invariants(record: EscrowRecord, amount: u64, caller: Seq<u8>)
    ensures
        ({
            let paid = record.after_payment(amount);
            &&& paid.payment_count == record.payment_count + 1
            &&& paid.total_amount >= record.total_amount
            &&& paid.total_amount > record.total_amount ==> record.payment_count
                < ESCROWED_PAYMENTS
            &&& paid.is_active == record.is_active
            &&& paid.seller == record.seller
            &&& paid.buyer == record.buyer
            &&& paid.subscription_id == record.subscription_id
            &&& paid.validation_threshold == record.validation_threshold
        }),
        !record.is_active ==> record.payment_rejection(amount) == Some(
            ErrorCode::SubscriptionInactive,
        ),
        !record.is_active ==> record.cancel_rejection(caller) == Some(
            ErrorCode::SubscriptionInactive,
        ),
        !record.cancelled().is_active,
        record.well_formed() && record.payment_rejection(amount) is None ==> record.after_payment(
            amount,
        ).well_formed(),
        record.well_formed() ==> record.cancelled().well_formed(),
{
}

/// A fresh record is well formed exactly when its label fits, whatever the
/// threshold.
pub proof fn lemma_fresh_record(
    seller: Seq<u8>,
    buyer: Seq<u8>,
    subscription_id: Seq<char>,
    validation_threshold: u64,
)
    requires
        seller.len() == 32,
        buyer.len() == 32,
    ensures
        EscrowRecord::fresh(
            seller,
            buyer,
            subscription_id,
            validation_threshold as nat,
        ).well_formed() <==> label_fits(subscription_id),
{
}

} // verus!
