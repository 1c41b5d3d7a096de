use anchor_lang::prelude::Pubkey;
use anchor_lang::solana_program::{system_instruction, system_program};
use subscription_escrow::{
    find_escrow_address, make_payment, AccountId, AccountMeta, EscrowAccount, EscrowSlot,
    MakePayment, Wallet,
};

fn key(byte: u8) -> AccountId {
    AccountId::new([byte; 32])
}

fn payment(payment_count: u8) -> MakePayment {
    MakePayment {
        escrow_account: EscrowSlot {
            key: key(9),
            lamports: 0,
            record: Some(EscrowAccount {
                seller: key(2),
                buyer: key(1),
                subscription_id: "plan".to_string(),
                payment_count,
                total_amount: 0,
                is_active: true,
                validation_threshold: 100,
            }),
        },
        buyer: Wallet { key: key(1), lamports: 1000 },
        seller: Wallet { key: key(2), lamports: 2000 },
    }
}

#[test]
fn held_payment_is_a_system_transfer_to_the_escrow_account() {
    let mut ctx = payment(0);
    let transfer = make_payment(&mut ctx, 10).unwrap();
    assert_eq!(transfer.program_id, AccountId::new([0u8; 32]));
    assert_eq!(transfer.program_id.bytes, system_program::ID.to_bytes());
    assert_eq!(
        transfer.accounts,
        vec![
            AccountMeta { pubkey: key(1), is_signer: true, is_writable: true },
            AccountMeta { pubkey: key(9), is_signer: false, is_writable: true },
        ]
    );
    assert_eq!(transfer.data, vec![2, 0, 0, 0, 10, 0, 0, 0, 0, 0, 0, 0]);
}

#[test]
fn passed_on_payment_is_a_system_transfer_to_the_seller() {
    let mut ctx = payment(5);
    let transfer = make_payment(&mut ctx, 0x0102030405060708).unwrap();
    assert_eq!(
        transfer.accounts,
        vec![
            AccountMeta { pubkey: key(1), is_signer: true, is_writable: true },
            AccountMeta { pubkey: key(2), is_signer: false, is_writable: true },
        ]
    );
    assert_eq!(transfer.data, vec![2, 0, 0, 0, 8, 7, 6, 5, 4, 3, 2, 1]);
}

#[test]
fn transfer_is_the_one_the_ledger_builds() {
    let mut ctx = payment(3);
    let transfer = make_payment(&mut ctx, 123_456).unwrap();
    let built = system_instruction::transfer(
        &Pubkey::new_from_array([1; 32]),
        &Pubkey::new_from_array([9; 32]),
        123_456,
    );
    assert_eq!(transfer.program_id.bytes, built.program_id.to_bytes());
    assert_eq!(transfer.data, built.data);
    assert_eq!(transfer.accounts.len(), built.accounts.len());
    for (ours, theirs) in transfer.accounts.iter().zip(built.accounts.iter()) {
        assert_eq!(ours.pubkey.bytes, theirs.pubkey.to_bytes());
        assert_eq!(ours.is_signer, theirs.is_signer);
        assert_eq!(ours.is_writable, theirs.is_writable);
    }
}

#[test]
fn escrow_address_is_the_one_the_ledger_derives() {
    let program = Pubkey::new_from_array([42; 32]);
    let buyer = Pubkey::new_from_array([1; 32]);
    let seller = Pubkey::new_from_array([2; 32]);
    let (address, bump) = Pubkey::find_program_address(
        &[b"escrow", buyer.as_ref(), seller.as_ref(), "svc-42".as_bytes()],
        &program,
    );
    let derived = find_escrow_address(&key(42), &key(1), &key(2), "svc-42");
    assert_eq!(derived, Some((AccountId::new(address.to_bytes()), bump)));
}

#[test]
fn escrow_address_is_the_same_each_time() {
    let first = find_escrow_address(&key(42), &key(1), &key(2), "svc-42");
    let second = find_escrow_address(&key(42), &key(1), &key(2), "svc-42");
    assert!(first.is_some());
    assert_eq!(first, second);
}

#[test]
fn escrow_address_depends_on_each_part() {
    let base = find_escrow_address(&key(42), &key(1), &key(2), "svc-42").unwrap();
    assert_ne!(base.0, key(42));
    assert_ne!(find_escrow_address(&key(43), &key(1), &key(2), "svc-42").unwrap().0, base.0);
    assert_ne!(find_escrow_address(&key(42), &key(3), &key(2), "svc-42").unwrap().0, base.0);
    assert_ne!(find_escrow_address(&key(42), &key(1), &key(3), "svc-42").unwrap().0, base.0);
    assert_ne!(find_escrow_address(&key(42), &key(2), &key(1), "svc-42").unwrap().0, base.0);
    assert_ne!(find_escrow_address(&key(42), &key(1), &key(2), "svc-43").unwrap().0, base.0);
}

#[test]
fn escrow_address_of_a_long_label_is_none() {
    assert!(find_escrow_address(&key(42), &key(1), &key(2), &"a".repeat(32)).is_some());
    assert_eq!(find_escrow_address(&key(42), &key(1), &key(2), &"a".repeat(33)), None);
}

#[test]
fn escrow_account_is_recognised_at_its_address() {
    let derived = find_escrow_address(&key(42), &key(1), &key(2), "svc-42");
    let (address, _) = derived.unwrap();
    let at = EscrowSlot { key: address, lamports: 0, record: None };
    let elsewhere = EscrowSlot { key: key(9), lamports: 0, record: None };
    assert!(at.is_at(&derived));
    assert!(!elsewhere.is_at(&derived));
    assert!(!at.is_at(&None));
}
