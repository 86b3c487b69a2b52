use aleo_transfer::amount::{parse_credits, validate_amount};
use aleo_transfer::errors::TransferError;
use aleo_transfer::record::{EntryKind, EntryName, LiteralValue, Record, RecordEntry};

fn funded_record(microcredits: u64) -> Record {
    Record {
        entries: vec![
            RecordEntry {
                name: EntryName::OtherName,
                kind: EntryKind::Public,
                value: LiteralValue::OtherLiteral,
            },
            RecordEntry {
                name: EntryName::Microcredits,
                kind: EntryKind::Private,
                value: LiteralValue::U64(microcredits),
            },
        ],
    }
}

#[test]
fn one_and_a_half_credits() {
    assert_eq!(parse_credits(b"1.5"), Ok(1_500_000));
}

#[test]
fn sub_microcredit_truncates_to_zero() {
    assert_eq!(parse_credits(b"0.0000001"), Ok(0));
}

#[test]
fn two_credits_with_fraction() {
    assert_eq!(parse_credits(b"2.0"), Ok(2_000_000));
}

#[test]
fn whole_number_without_point() {
    assert_eq!(parse_credits(b"2"), Ok(2_000_000));
}

#[test]
fn seventh_fractional_digit_is_truncated() {
    assert_eq!(parse_credits(b"0.1234567"), Ok(123_456));
}

#[test]
fn leading_zeros_are_accepted() {
    assert_eq!(parse_credits(b"007.25"), Ok(7_250_000));
}

#[test]
fn largest_representable_amount() {
    assert_eq!(parse_credits(b"18446744073709.551615"), Ok(u64::MAX));
}

#[test]
fn one_microcredit_past_the_largest_amount() {
    assert_eq!(
        parse_credits(b"18446744073709.551616"),
        Err(TransferError::InvalidInputs)
    );
}

#[test]
fn enormous_whole_part_is_rejected() {
    assert_eq!(
        parse_credits(b"99999999999999999999999"),
        Err(TransferError::InvalidInputs)
    );
}

#[test]
fn malformed_numerals_are_rejected() {
    let cases: [&[u8]; 8] = [
        b"", b".", b"2.", b".5", b"1.2.3", b"1a", b"-1", b"1,5",
    ];
    for c in cases.iter() {
        assert_eq!(parse_credits(c), Err(TransferError::InvalidInputs));
    }
}

#[test]
fn validation_passes_when_record_covers_amount() {
    assert_eq!(validate_amount(500_000, &funded_record(500_000)), Ok(500_000));
}

#[test]
fn validation_fails_when_record_is_short() {
    assert_eq!(
        validate_amount(600_000, &funded_record(500_000)),
        Err(TransferError::InsufficientFunds)
    );
}

#[test]
fn record_without_microcredits_field_is_rejected() {
    let record = Record {
        entries: vec![RecordEntry {
            name: EntryName::OtherName,
            kind: EntryKind::Private,
            value: LiteralValue::U64(1_000_000),
        }],
    };
    assert_eq!(record.microcredits(), Err(TransferError::InvalidInputs));
    assert_eq!(
        validate_amount(1, &record),
        Err(TransferError::InvalidInputs)
    );
}

#[test]
fn public_microcredits_entry_is_rejected() {
    let record = Record {
        entries: vec![RecordEntry {
            name: EntryName::Microcredits,
            kind: EntryKind::Public,
            value: LiteralValue::U64(1_000_000),
        }],
    };
    assert_eq!(record.microcredits(), Err(TransferError::InvalidInputs));
}

#[test]
fn first_microcredits_entry_wins() {
    let record = Record {
        entries: vec![
            RecordEntry {
                name: EntryName::Microcredits,
                kind: EntryKind::Private,
                value: LiteralValue::U64(42),
            },
            RecordEntry {
                name: EntryName::Microcredits,
                kind: EntryKind::Private,
                value: LiteralValue::U64(7),
            },
        ],
    };
    assert_eq!(record.microcredits(), Ok(42));
}
