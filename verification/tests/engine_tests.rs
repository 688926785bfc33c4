use deltaup::engine::{Bank, TransferError, TransferIntent, TxStatus, lock_order};

fn intent(recipient: &str, amount_cents: i64) -> TransferIntent {
    TransferIntent { recipient: recipient.to_string(), amount: amount_cents, description: None }
}

fn two_account_bank() -> Bank {
    let mut bank = Bank::new();
    assert!(bank.open_account(1, "1111".to_string(), 100_000));
    assert!(bank.open_account(2, "2222".to_string(), 50_000));
    bank
}

#[test]
fn successful_transfer_moves_exact_amounts() {
    // sender 1000.00, transfer 200.00 to recipient 500.00
    let mut bank = two_account_bank();
    let receipt = bank.execute(1, &intent("2222", 20_000), 1_700_000_000).unwrap();
    assert_eq!(receipt.amount, 20_000);
    assert_eq!(receipt.new_sender_balance, 80_000);
    assert_eq!(receipt.from_account, "1111");
    assert_eq!(receipt.to_account, "2222");
    assert_eq!(bank.balance_by_id(1).unwrap().1, 80_000);
    assert_eq!(bank.balance_by_id(2).unwrap().1, 70_000);
    // exactly one completed record was logged
    assert_eq!(bank.ledger.len(), 1);
    let rec = &bank.ledger[0];
    assert_eq!(rec.from_account, "1111");
    assert_eq!(rec.to_account, "2222");
    assert_eq!(rec.amount, 20_000);
    assert!(matches!(rec.status, TxStatus::Completed));
    assert_eq!(rec.created_at, 1_700_000_000);
    assert_eq!(rec.id, receipt.transaction_id);
}

#[test]
fn conservation_of_combined_balance() {
    let mut bank = two_account_bank();
    let before = bank.balance_by_id(1).unwrap().1 + bank.balance_by_id(2).unwrap().1;
    bank.execute(1, &intent("2222", 33_333), 0).unwrap();
    let after = bank.balance_by_id(1).unwrap().1 + bank.balance_by_id(2).unwrap().1;
    assert_eq!(before, after);
}

#[test]
fn negative_amount_is_rejected_without_changes() {
    // transfer amount -5 dollars
    let mut bank = two_account_bank();
    let r = bank.execute(1, &intent("2222", -500), 0);
    assert!(matches!(r, Err(TransferError::InvalidAmount)));
    assert_eq!(bank.balance_by_id(1).unwrap().1, 100_000);
    assert_eq!(bank.balance_by_id(2).unwrap().1, 50_000);
    assert_eq!(bank.ledger.len(), 0);
}

#[test]
fn zero_amount_is_rejected() {
    let mut bank = two_account_bank();
    let r = bank.execute(1, &intent("2222", 0), 0);
    assert!(matches!(r, Err(TransferError::InvalidAmount)));
}

#[test]
fn empty_recipient_is_rejected() {
    let mut bank = two_account_bank();
    let r = bank.execute(1, &intent("", 1_000), 0);
    assert!(matches!(r, Err(TransferError::InvalidRecipient)));
    assert_eq!(bank.ledger.len(), 0);
}

#[test]
fn nonexistent_recipient_is_rejected_without_changes() {
    // transfer 50.00 to account number "000000"
    let mut bank = two_account_bank();
    let r = bank.execute(1, &intent("000000", 5_000), 0);
    assert!(matches!(r, Err(TransferError::RecipientNotFound)));
    assert_eq!(bank.balance_by_id(1).unwrap().1, 100_000);
    assert_eq!(bank.ledger.len(), 0);
}

#[test]
fn insufficient_funds_leaves_both_balances() {
    // sender balance 100.00, transfer 150.00
    let mut bank = Bank::new();
    assert!(bank.open_account(1, "1111".to_string(), 10_000));
    assert!(bank.open_account(2, "2222".to_string(), 0));
    let r = bank.execute(1, &intent("2222", 15_000), 0);
    assert!(matches!(r, Err(TransferError::InsufficientFunds)));
    assert_eq!(bank.balance_by_id(1).unwrap().1, 10_000);
    assert_eq!(bank.balance_by_id(2).unwrap().1, 0);
    assert_eq!(bank.ledger.len(), 0);
}

#[test]
fn insufficient_funds_outranks_missing_recipient() {
    let mut bank = two_account_bank();
    let r = bank.execute(1, &intent("000000", 200_000), 0);
    assert!(matches!(r, Err(TransferError::InsufficientFunds)));
}

#[test]
fn unknown_sender_is_an_infrastructure_error() {
    let mut bank = two_account_bank();
    let r = bank.execute(99, &intent("2222", 1_000), 0);
    assert!(matches!(r, Err(TransferError::AccountNotFound)));
}

#[test]
fn exact_funds_can_be_sent() {
    let mut bank = two_account_bank();
    let receipt = bank.execute(1, &intent("2222", 100_000), 0).unwrap();
    assert_eq!(receipt.new_sender_balance, 0);
    assert_eq!(bank.balance_by_id(2).unwrap().1, 150_000);
}

#[test]
fn self_transfer_keeps_balance_and_logs() {
    let mut bank = two_account_bank();
    let receipt = bank.execute(1, &intent("1111", 5_000), 0).unwrap();
    assert_eq!(receipt.new_sender_balance, 100_000);
    assert_eq!(bank.balance_by_id(1).unwrap().1, 100_000);
    assert_eq!(bank.ledger.len(), 1);
}

#[test]
fn credit_overflow_is_a_storage_error() {
    let mut bank = Bank::new();
    assert!(bank.open_account(1, "1111".to_string(), 1_000));
    assert!(bank.open_account(2, "2222".to_string(), i64::MAX));
    let r = bank.execute(1, &intent("2222", 1), 0);
    assert!(matches!(r, Err(TransferError::StorageOverflow)));
    assert_eq!(bank.balance_by_id(2).unwrap().1, i64::MAX);
}

#[test]
fn subject_resolution_runs_the_transfer() {
    let mut bank = two_account_bank();
    let receipt = bank.execute_for_subject("1", &intent("2222", 20_000), 7).unwrap();
    assert_eq!(receipt.new_sender_balance, 80_000);
    let r = bank.execute_for_subject("not-a-subject", &intent("2222", 1_000), 7);
    assert!(matches!(r, Err(TransferError::AccountNotFound)));
}

#[test]
fn opposite_transfers_both_complete() {
    // concurrent A-to-B and B-to-A serialize on the same canonical
    // lock order and both finish
    let mut bank = two_account_bank();
    bank.execute(1, &intent("2222", 10_000), 0).unwrap();
    bank.execute(2, &intent("1111", 25_000), 1).unwrap();
    assert_eq!(bank.balance_by_id(1).unwrap().1, 115_000);
    assert_eq!(bank.balance_by_id(2).unwrap().1, 35_000);
    assert_eq!(bank.ledger.len(), 2);
}

#[test]
fn lock_order_is_role_independent() {
    assert_eq!(lock_order(1, 2), (1, 2));
    assert_eq!(lock_order(2, 1), (1, 2));
    assert_eq!(lock_order(7, 7), (7, 7));
    assert_eq!(lock_order(u64::MAX, 0), (0, u64::MAX));
}

#[test]
fn open_account_enforces_fresh_keys() {
    let mut bank = Bank::new();
    assert!(bank.open_account(1, "1111".to_string(), 0));
    assert!(!bank.open_account(1, "9999".to_string(), 0));
    assert!(!bank.open_account(2, "1111".to_string(), 0));
    assert!(!bank.open_account(3, "3333".to_string(), -1));
    assert!(bank.open_account(2, "2222".to_string(), 0));
    assert_eq!(bank.accounts.len(), 2);
}

#[test]
fn history_is_newest_first_and_limited() {
    let mut bank = Bank::new();
    assert!(bank.open_account(1, "1111".to_string(), 100_000));
    assert!(bank.open_account(2, "2222".to_string(), 0));
    assert!(bank.open_account(3, "3333".to_string(), 0));
    bank.execute(1, &intent("2222", 100), 10).unwrap();
    bank.execute(1, &intent("3333", 200), 11).unwrap();
    bank.execute(1, &intent("2222", 300), 12).unwrap();
    let n = "2222".to_string();
    let hist = bank.transactions_by_account(&n, 50);
    assert_eq!(hist.len(), 2);
    assert_eq!(hist[0].amount, 300);
    assert_eq!(hist[1].amount, 100);
    let limited = bank.transactions_by_account(&n, 1);
    assert_eq!(limited.len(), 1);
    assert_eq!(limited[0].amount, 300);
    let all = bank.transactions_by_account(&"1111".to_string(), 50);
    assert_eq!(all.len(), 3);
    assert_eq!(all[0].created_at, 12);
    assert_eq!(all[2].created_at, 10);
}

#[test]
fn record_ids_number_the_ledger() {
    let mut bank = two_account_bank();
    let r0 = bank.execute(1, &intent("2222", 100), 0).unwrap();
    let r1 = bank.execute(1, &intent("2222", 100), 1).unwrap();
    assert_eq!(r0.transaction_id, 0);
    assert_eq!(r1.transaction_id, 1);
    assert_eq!(bank.ledger[0].id, 0);
    assert_eq!(bank.ledger[1].id, 1);
}

#[test]
fn description_is_recorded() {
    let mut bank = two_account_bank();
    let mut i = intent("2222", 100);
    i.description = Some("rent".to_string());
    bank.execute(1, &i, 0).unwrap();
    assert_eq!(bank.ledger[0].description.as_deref(), Some("rent"));
}
