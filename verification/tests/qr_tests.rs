use deltaup::engine::Bank;
use deltaup::money::format_cents;
use deltaup::qr::{resolve, QrError};

#[test]
fn resolves_the_documented_payload() {
    let intent = resolve("{\"account\":\"999\",\"amount\":30,\"description\":\"coffee\"}").unwrap();
    assert_eq!(intent.recipient, "999");
    assert_eq!(intent.amount, 3_000);
    assert_eq!(intent.description.as_deref(), Some("coffee"));
}

#[test]
fn qr_payment_reports_new_balance() {
    // sender balance 100.00, QR payment of 30 to "999"
    let mut bank = Bank::new();
    assert!(bank.open_account(5, "5555".to_string(), 10_000));
    assert!(bank.open_account(9, "999".to_string(), 0));
    let intent = resolve("{\"account\":\"999\",\"amount\":30,\"description\":\"coffee\"}").unwrap();
    let receipt = bank.execute(5, &intent, 42).unwrap();
    assert_eq!(receipt.new_sender_balance, 7_000);
    assert_eq!(format_cents(receipt.new_sender_balance), "70.00");
    assert_eq!(receipt.to_account, "999");
    assert_eq!(receipt.amount, 3_000);
    assert_eq!(bank.ledger.len(), 1);
    assert_eq!(bank.ledger[0].from_account, "5555");
    assert_eq!(bank.ledger[0].to_account, "999");
    assert_eq!(bank.ledger[0].amount, 3_000);
}

#[test]
fn decimal_amounts_parse_exactly() {
    let intent = resolve("{\"account\":\"1\",\"amount\":19.99}").unwrap();
    assert_eq!(intent.amount, 1_999);
    assert!(intent.description.is_none());
}

#[test]
fn whitespace_is_tolerated() {
    let intent = resolve(" { \"account\" : \"42\" , \"amount\" : 5 } ").unwrap();
    assert_eq!(intent.recipient, "42");
    assert_eq!(intent.amount, 500);
}

#[test]
fn negative_amount_passes_through_for_the_engine() {
    let intent = resolve("{\"account\":\"1\",\"amount\":-5}").unwrap();
    assert_eq!(intent.amount, -500);
}

#[test]
fn malformed_payloads_fail_closed() {
    assert!(matches!(resolve(""), Err(QrError::MalformedPayload)));
    assert!(matches!(resolve("not json"), Err(QrError::MalformedPayload)));
    assert!(matches!(resolve("{"), Err(QrError::MalformedPayload)));
    assert!(matches!(resolve("{\"account\":\"1\",}"), Err(QrError::MalformedPayload)));
    assert!(matches!(resolve("[1,2]"), Err(QrError::MalformedPayload)));
    assert!(matches!(resolve("{\"a\":{\"b\":1}}"), Err(QrError::MalformedPayload)));
    assert!(matches!(resolve("{\"a\":1} trailing"), Err(QrError::MalformedPayload)));
    // escapes are rejected rather than interpreted
    assert!(matches!(
        resolve("{\"account\":\"9\\\"9\",\"amount\":1}"),
        Err(QrError::MalformedPayload)
    ));
}

#[test]
fn missing_or_wrongly_typed_account_fails() {
    assert!(matches!(resolve("{\"amount\":30}"), Err(QrError::MissingAccount)));
    assert!(matches!(
        resolve("{\"account\":7,\"amount\":30}"),
        Err(QrError::MissingAccount)
    ));
}

#[test]
fn missing_or_wrongly_typed_amount_fails() {
    assert!(matches!(resolve("{\"account\":\"9\"}"), Err(QrError::MissingOrInvalidAmount)));
    assert!(matches!(
        resolve("{\"account\":\"9\",\"amount\":\"30\"}"),
        Err(QrError::MissingOrInvalidAmount)
    ));
    // three fraction digits do not fit scale-2 money
    assert!(matches!(
        resolve("{\"account\":\"9\",\"amount\":1.234}"),
        Err(QrError::MalformedPayload)
    ));
}

#[test]
fn empty_object_misses_the_account() {
    assert!(matches!(resolve("{}"), Err(QrError::MissingAccount)));
}

#[test]
fn last_duplicate_key_wins() {
    let intent = resolve("{\"account\":\"1\",\"account\":\"2\",\"amount\":1}").unwrap();
    assert_eq!(intent.recipient, "2");
}
