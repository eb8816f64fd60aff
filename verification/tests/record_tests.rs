use tx_engine::transaction_record::{parse_record_kind, TransactionRecordType};

#[test]
fn test_parse_kinds() {
    assert_eq!(
        parse_record_kind(b"deposit", Some(15000)),
        Some(TransactionRecordType::Deposit { amount: 15000 })
    );
    assert_eq!(
        parse_record_kind(b"withdrawal", Some(15000)),
        Some(TransactionRecordType::Withdrawal { amount: 15000 })
    );
    assert_eq!(parse_record_kind(b"dispute", None), Some(TransactionRecordType::Dispute));
    assert_eq!(parse_record_kind(b"resolve", None), Some(TransactionRecordType::Resolve));
    assert_eq!(parse_record_kind(b"chargeback", None), Some(TransactionRecordType::Chargeback));
}

#[test]
fn test_parse_kind_case_insensitive() {
    assert_eq!(
        parse_record_kind(b"DePoSiT", Some(100)),
        Some(TransactionRecordType::Deposit { amount: 100 })
    );
    assert_eq!(
        parse_record_kind(b"WITHDRAWAL", Some(100)),
        Some(TransactionRecordType::Withdrawal { amount: 100 })
    );
    assert_eq!(parse_record_kind(b"Chargeback", None), Some(TransactionRecordType::Chargeback));
}

#[test]
fn test_parse_kind_unknown() {
    assert_eq!(parse_record_kind(b"transfer", Some(100)), None);
    assert_eq!(parse_record_kind(b"", None), None);
    assert_eq!(parse_record_kind(b"deposits", Some(100)), None);
}

#[test]
fn test_parse_kind_amount_rules() {
    // deposits and withdrawals demand an amount...
    assert_eq!(parse_record_kind(b"deposit", None), None);
    assert_eq!(parse_record_kind(b"withdrawal", None), None);
    // ...a non-negative one...
    assert_eq!(parse_record_kind(b"deposit", Some(-1)), None);
    // ...and the referential kinds ignore any amount given.
    assert_eq!(parse_record_kind(b"dispute", Some(100)), Some(TransactionRecordType::Dispute));
    assert_eq!(parse_record_kind(b"resolve", Some(100)), Some(TransactionRecordType::Resolve));
}
