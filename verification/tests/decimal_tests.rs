use verification_officer::decimal;
use verification_officer::interaction::verify::VerifyError;
use verification_officer::mention;

fn chars(s: &str) -> Vec<char> {
    s.chars().collect()
}

#[test]
fn decimal_spellings() {
    assert_eq!(decimal::decimal_chars(0), chars("0"));
    assert_eq!(decimal::decimal_chars(7), chars("7"));
    assert_eq!(decimal::decimal_chars(1090), chars("1090"));
    assert_eq!(decimal::decimal_chars(u64::MAX), chars("18446744073709551615"));
}

#[test]
fn parse_u64_like_std() {
    for s in ["0", "7", "+7", "007", "18446744073709551615", "", "+", "-1", "1a", "18446744073709551616", " 1"] {
        assert_eq!(decimal::parse_u64(&chars(s)), s.parse::<u64>().ok(), "input {s:?}");
    }
}

#[test]
fn parse_id_rejects_zero() {
    assert_eq!(decimal::parse_id(&chars("0")), None);
    assert_eq!(decimal::parse_id(&chars("000")), None);
    assert_eq!(decimal::parse_id(&chars("123")), Some(123));
}

#[test]
fn decimal_roundtrip_examples() {
    for n in [0u64, 1, 9, 10, 99, 100, 123456789, u64::MAX] {
        assert_eq!(decimal::parse_u64(&decimal::decimal_chars(n)), Some(n));
    }
}

#[test]
fn mentions() {
    assert_eq!(mention::format_mention(42), "<@42>");
    assert_eq!(mention::parse_mention("<@42>"), Ok(42));
    assert_eq!(mention::parse_mention("<@+42>"), Ok(42));
    assert_eq!(mention::parse_mention("<@18446744073709551615>"), Ok(u64::MAX));
    assert_eq!(mention::parse_mention("<@18446744073709551616>"), Err(VerifyError::InvalidUserId));
    assert_eq!(mention::parse_mention("<@0>"), Err(VerifyError::InvalidUserId));
    assert_eq!(mention::parse_mention("<@>"), Err(VerifyError::InvalidUserId));
    assert_eq!(mention::parse_mention("<@!42>"), Err(VerifyError::InvalidUserId));
    assert_eq!(mention::parse_mention("<@42"), Err(VerifyError::MalformedMention));
    assert_eq!(mention::parse_mention("@42>"), Err(VerifyError::MalformedMention));
    assert_eq!(mention::parse_mention("<@"), Err(VerifyError::MalformedMention));
    assert_eq!(mention::parse_mention(""), Err(VerifyError::MalformedMention));
}

#[test]
fn mention_roundtrip_examples() {
    for id in [1u64, 42, 1234567890123456789, u64::MAX] {
        assert_eq!(mention::parse_mention(&mention::format_mention(id)), Ok(id));
    }
}

