use subscription_escrow::{
    cancel_subscription, make_payment, start_subscription, withdraw_funds, AccountId,
    CancelSubscription, ErrorCode, EscrowSlot, MakePayment, StartSubscription, Wallet,
    WithdrawFunds,
};

const RESERVATION: u64 = 1_740_960;

fn id(byte: u8) -> AccountId {
    AccountId::new([byte; 32])
}

fn buyer() -> Wallet {
    Wallet { key: id(1), lamports: 1_000_000 }
}

fn seller() -> Wallet {
    Wallet { key: id(2), lamports: 500 }
}

fn empty_slot() -> EscrowSlot {
    EscrowSlot { key: id(9), lamports: RESERVATION, record: None }
}

fn started(label: &str, threshold: u64) -> EscrowSlot {
    let mut ctx = StartSubscription { escrow_account: empty_slot(), buyer: buyer(), seller: seller() };
    assert_eq!(start_subscription(&mut ctx, label.to_string(), threshold), Ok(()));
    ctx.escrow_account
}

/// Pays `amount` and moves the funds as the ledger would on running the
/// transfer that comes back.
fn pay(slot: EscrowSlot, payer: &mut Wallet, payee: &mut Wallet, amount: u64) -> EscrowSlot {
    let mut ctx = MakePayment { escrow_account: slot, buyer: *payer, seller: *payee };
    let transfer = make_payment(&mut ctx, amount).unwrap();
    assert_eq!(transfer.accounts[0].pubkey, payer.key);
    payer.lamports -= amount;
    if transfer.accounts[1].pubkey == ctx.escrow_account.key {
        ctx.escrow_account.lamports += amount;
    } else {
        assert_eq!(transfer.accounts[1].pubkey, payee.key);
        payee.lamports += amount;
    }
    ctx.escrow_account
}

fn cancelled_after_six_payments_of_ten() -> (EscrowSlot, Wallet, Wallet) {
    let mut slot = started("svc-42", 100);
    let mut payer = buyer();
    let mut payee = seller();
    for n in 0..6u8 {
        slot = pay(slot, &mut payer, &mut payee, 10);
        let record = slot.record.as_ref().unwrap();
        assert_eq!(record.payment_count, n + 1);
        assert_eq!(record.total_amount, if n < 5 { 10 * (n as u64 + 1) } else { 50 });
    }
    assert_eq!(slot.lamports, RESERVATION + 50);
    assert_eq!(payee.lamports, 510);
    assert_eq!(payer.lamports, 1_000_000 - 60);
    let mut ctx = CancelSubscription { escrow_account: slot, buyer: payer };
    assert_eq!(cancel_subscription(&mut ctx), Ok(()));
    let record = ctx.escrow_account.record.as_ref().unwrap();
    assert!(!record.is_active);
    assert_eq!(record.payment_count, 6);
    assert_eq!(record.total_amount, 50);
    (ctx.escrow_account, payer, payee)
}

#[test]
fn subscription_settles_in_favour_of_the_seller() {
    let (slot, payer, payee) = cancelled_after_six_payments_of_ten();
    let mut ctx = WithdrawFunds { escrow_account: slot, buyer: payer, seller: payee };
    assert_eq!(withdraw_funds(&mut ctx, 50), Ok(()));
    assert_eq!(ctx.seller.lamports, 510 + 50);
    assert_eq!(ctx.buyer.lamports, 1_000_000 - 60 + RESERVATION);
    assert_eq!(ctx.escrow_account.lamports, 0);
    assert_eq!(ctx.escrow_account.record, None);
    assert_eq!(ctx.escrow_account.key, id(9));
}

#[test]
fn subscription_settles_with_a_refund_to_the_buyer() {
    let (slot, payer, payee) = cancelled_after_six_payments_of_ten();
    let mut ctx = WithdrawFunds { escrow_account: slot, buyer: payer, seller: payee };
    assert_eq!(withdraw_funds(&mut ctx, 150), Ok(()));
    assert_eq!(ctx.seller.lamports, 510);
    assert_eq!(ctx.buyer.lamports, 1_000_000 - 60 + 50 + RESERVATION);
    assert_eq!(ctx.escrow_account.lamports, 0);
    assert_eq!(ctx.escrow_account.record, None);
}

#[test]
fn validation_data_equal_to_the_threshold_pays_the_seller() {
    let (slot, payer, payee) = cancelled_after_six_payments_of_ten();
    let mut ctx = WithdrawFunds { escrow_account: slot, buyer: payer, seller: payee };
    assert_eq!(withdraw_funds(&mut ctx, 100), Ok(()));
    assert_eq!(ctx.seller.lamports, 560);
    assert_eq!(ctx.buyer.lamports, 1_000_000 - 60 + RESERVATION);
}

#[test]
fn validation_data_just_above_the_threshold_refunds_the_buyer() {
    let (slot, payer, payee) = cancelled_after_six_payments_of_ten();
    let mut ctx = WithdrawFunds { escrow_account: slot, buyer: payer, seller: payee };
    assert_eq!(withdraw_funds(&mut ctx, 101), Ok(()));
    assert_eq!(ctx.seller.lamports, 510);
    assert_eq!(ctx.buyer.lamports, 1_000_000 - 60 + 50 + RESERVATION);
}

#[test]
fn settlement_moves_every_lamport_and_loses_none() {
    for validation_data in [0u64, 100, 101, u64::MAX] {
        let (slot, payer, payee) = cancelled_after_six_payments_of_ten();
        let before = slot.lamports + payer.lamports + payee.lamports;
        let mut ctx = WithdrawFunds { escrow_account: slot, buyer: payer, seller: payee };
        assert_eq!(withdraw_funds(&mut ctx, validation_data), Ok(()));
        assert_eq!(ctx.escrow_account.lamports + ctx.buyer.lamports + ctx.seller.lamports, before);
    }
}

#[test]
fn a_settled_account_takes_a_new_subscription() {
    let (slot, payer, payee) = cancelled_after_six_payments_of_ten();
    let mut ctx = WithdrawFunds { escrow_account: slot, buyer: payer, seller: payee };
    assert_eq!(withdraw_funds(&mut ctx, 50), Ok(()));
    assert!(ctx.escrow_account.record.is_none());
    let mut again = StartSubscription {
        escrow_account: ctx.escrow_account,
        buyer: ctx.buyer,
        seller: ctx.seller,
    };
    assert_eq!(start_subscription(&mut again, "svc-42".to_string(), 7), Ok(()));
    let record = again.escrow_account.record.unwrap();
    assert_eq!(record.payment_count, 0);
    assert_eq!(record.total_amount, 0);
    assert!(record.is_active);
    assert_eq!(record.validation_threshold, 7);
}

#[test]
fn counter_equals_the_number_of_payments() {
    let mut slot = started("count", 0);
    let mut payer = Wallet { key: id(1), lamports: u64::MAX };
    let mut payee = seller();
    for n in 1..=255u64 {
        slot = pay(slot, &mut payer, &mut payee, n);
        assert_eq!(slot.record.as_ref().unwrap().payment_count as u64, n);
    }
    assert_eq!(slot.record.as_ref().unwrap().total_amount, 1 + 2 + 3 + 4 + 5);
    let sent_on: u64 = (6..=255u64).sum();
    assert_eq!(payee.lamports, 500 + sent_on);
    let mut ctx = MakePayment { escrow_account: slot, buyer: payer, seller: payee };
    let before = ctx.clone();
    assert_eq!(make_payment(&mut ctx, 1), Err(ErrorCode::PaymentCountOverflow));
    assert_eq!(ctx, before);
}

#[test]
fn settlement_is_blocked_until_cancellation() {
    let mut slot = started("svc-42", 100);
    let mut payer = buyer();
    let mut payee = seller();
    for _ in 0..6 {
        slot = pay(slot, &mut payer, &mut payee, 10);
    }
    let mut ctx = WithdrawFunds { escrow_account: slot, buyer: payer, seller: payee };
    let before = ctx.clone();
    assert_eq!(withdraw_funds(&mut ctx, 50), Err(ErrorCode::SubscriptionStillActive));
    assert_eq!(ctx, before);
}

#[test]
fn settlement_is_blocked_before_the_fifth_payment() {
    for payments in 0..5 {
        let mut slot = started("svc-42", 100);
        let mut payer = buyer();
        let mut payee = seller();
        for _ in 0..payments {
            slot = pay(slot, &mut payer, &mut payee, 10);
        }
        let mut cancel = CancelSubscription { escrow_account: slot, buyer: payer };
        assert_eq!(cancel_subscription(&mut cancel), Ok(()));
        let mut ctx =
            WithdrawFunds { escrow_account: cancel.escrow_account, buyer: payer, seller: payee };
        let before = ctx.clone();
        assert_eq!(withdraw_funds(&mut ctx, 50), Err(ErrorCode::InsufficientPayments));
        assert_eq!(ctx, before);
    }
}

#[test]
fn settlement_goes_through_at_exactly_five_payments() {
    let mut slot = started("svc-42", 100);
    let mut payer = buyer();
    let mut payee = seller();
    for _ in 0..5 {
        slot = pay(slot, &mut payer, &mut payee, 10);
    }
    assert_eq!(payee.lamports, 500);
    let mut cancel = CancelSubscription { escrow_account: slot, buyer: payer };
    assert_eq!(cancel_subscription(&mut cancel), Ok(()));
    let mut ctx =
        WithdrawFunds { escrow_account: cancel.escrow_account, buyer: payer, seller: payee };
    assert_eq!(withdraw_funds(&mut ctx, 0), Ok(()));
    assert_eq!(ctx.seller.lamports, 550);
}
