use ndex::utilities::numbers::{i64_text, parse_i64, parse_u64, u64_text};
use ndex::utilities::text::{join_texts, remove_char, remove_pattern};
use ndex::models::integration::Platform;
use ndex::models::user::AccountType;

#[test]
fn i64_text_writes_signed_decimals() {
    assert_eq!(i64_text(0), "0");
    assert_eq!(i64_text(42), "42");
    assert_eq!(i64_text(-123), "-123");
    assert_eq!(i64_text(i64::MAX), i64::MAX.to_string());
    assert_eq!(i64_text(i64::MIN), i64::MIN.to_string());
    assert_eq!(u64_text(u64::MAX), u64::MAX.to_string());
}

#[test]
fn parse_i64_reads_what_std_reads() {
    for s in ["0", "+7", "-7", "007", "-0", "9223372036854775807", "-9223372036854775808"] {
        assert_eq!(parse_i64(s), s.parse::<i64>().ok(), "{s}");
    }
    for s in ["", "+", "-", "12a", " 1", "9223372036854775808", "-9223372036854775809", "+-1"] {
        assert_eq!(parse_i64(s), None, "{s}");
    }
}

#[test]
fn parse_u64_reads_what_std_reads() {
    assert_eq!(parse_u64("120"), Some(120));
    assert_eq!(parse_u64("+5"), Some(5));
    assert_eq!(parse_u64("18446744073709551615"), Some(u64::MAX));
    assert_eq!(parse_u64("18446744073709551616"), None);
    assert_eq!(parse_u64("-0"), None);
    assert_eq!(parse_u64(""), None);
    assert_eq!(parse_u64("1.5"), None);
}

#[test]
fn text_roundtrip_of_numbers() {
    for n in [0i64, 1, -1, 99, -100, 123456789, i64::MIN, i64::MAX] {
        assert_eq!(parse_i64(&i64_text(n)), Some(n));
    }
}

#[test]
fn remove_char_drops_every_quote() {
    assert_eq!(remove_char("\"a\"b\"", '"'), "ab");
    assert_eq!(remove_char("plain", '"'), "plain");
    assert_eq!(remove_char("", '"'), "");
}

#[test]
fn remove_pattern_matches_str_replace() {
    for s in ["Bearer abc", "xBearer Bearer y", "BearerBearer  z", "no token", "Bearer Bearer "] {
        assert_eq!(remove_pattern(s, "Bearer "), s.replace("Bearer ", ""), "{s}");
    }
}

#[test]
fn join_texts_separates_with_comma_space() {
    let parts = vec!["a@x.org".to_string(), "b@y.org".to_string()];
    assert_eq!(join_texts(&parts, ", "), "a@x.org, b@y.org");
    assert_eq!(join_texts(&vec![], ", "), "");
    assert_eq!(join_texts(&vec!["one".to_string()], ", "), "one");
}

#[test]
fn to_lowercase_lowers_letters() {
    assert_eq!(Platform::from_str("NoTiOn"), Ok(Platform::Notion));
    assert_eq!(AccountType::from_str("GOOGLE"), Ok(AccountType::Google));
    assert_eq!(Platform::from_str("Teams"), Err("Invalid integration platform: Teams".to_string()));
}
