use edenapi::hex::to_hex_lower;
use edenapi::repo_name::encode_repo_name;
use edenapi::text::to_decimal;

#[test]
fn repo_names_are_percent_encoded() {
    assert_eq!(encode_repo_name("fbsource"), "fbsource");
    assert_eq!(encode_repo_name("a b/c"), "a%20b%2Fc");
    assert_eq!(encode_repo_name("Ab_-.9~"), "Ab_-.9%7E");
    assert_eq!(encode_repo_name("é"), "%C3%A9");
    assert_eq!(encode_repo_name(""), "");
}

#[test]
fn hex_is_lower_case() {
    assert_eq!(to_hex_lower(&[0x00, 0x9f, 0xab, 0xff]), "009fabff");
    assert_eq!(to_hex_lower(&[]), "");
}

#[test]
fn decimal_rendering() {
    assert_eq!(to_decimal(0), "0");
    assert_eq!(to_decimal(1234), "1234");
    assert_eq!(to_decimal(u64::MAX), u64::MAX.to_string());
}

#[test]
fn different_names_escape_differently() {
    assert_eq!(encode_repo_name("a b"), "a%20b");
    assert_eq!(encode_repo_name("a%20b"), "a%2520b");
    assert_ne!(encode_repo_name("a/b"), encode_repo_name("a%2Fb"));
    assert!(!encode_repo_name("../etc?x#y").contains(['/', '?', '#']));
}
