use customer_auth::role::{parse_role, UserRole};
use customer_auth::text::{decimal_string, parse_u8, quote_json};

#[test]
fn decimal_of_small_and_large_numbers() {
    assert_eq!(decimal_string(0), "0");
    assert_eq!(decimal_string(7), "7");
    assert_eq!(decimal_string(10), "10");
    assert_eq!(decimal_string(255), "255");
    assert_eq!(decimal_string(10000000000), "10000000000");
    assert_eq!(decimal_string(u64::MAX), u64::MAX.to_string());
}

#[test]
fn parse_u8_accepts_what_std_accepts() {
    for text in ["0", "7", "42", "255", "+12", "007", "", "+", "-1", "256", "1000", " 1", "1 ", "1a", "++1"] {
        assert_eq!(parse_u8(text), text.parse::<u8>().ok(), "input {:?}", text);
    }
}

#[test]
fn parse_u8_reads_back_every_decimal() {
    for n in 0..=255u8 {
        assert_eq!(parse_u8(&decimal_string(n as u64)), Some(n));
    }
}

#[test]
fn json_string_escapes() {
    let cases = [
        ("plain", "\"plain\""),
        ("", "\"\""),
        ("quote\"here", "\"quote\\\"here\""),
        ("back\\slash", "\"back\\\\slash\""),
        ("tab\tnew\nline\r", "\"tab\\tnew\\nline\\r\""),
        ("\u{8}\u{c}\u{1}\u{1f}", "\"\\b\\f\\u0001\\u001f\""),
        ("héllo ✓", "\"héllo ✓\""),
        ("\u{7f}/", "\"\u{7f}/\""),
    ];
    for (text, expected) in cases {
        assert_eq!(quote_json(text), expected, "input {:?}", text);
    }
}

#[test]
fn role_names_and_parsing() {
    assert_eq!(UserRole::Admin.to_string(), "Admin");
    assert_eq!(UserRole::User.to_string(), "User");
    assert_eq!(parse_role("Admin"), Some(UserRole::Admin));
    assert_eq!(parse_role("User"), Some(UserRole::User));
    assert_eq!(parse_role("admin"), None);
    assert_eq!(parse_role(""), None);
}

#[test]
fn role_name_roundtrip() {
    for r in [UserRole::Admin, UserRole::User] {
        assert_eq!(parse_role(&r.to_string()), Some(r));
    }
}
