use whatrust::text::{decimal_string, push_decimal, str_eq, str_starts_with};

#[test]
fn decimal_strings() {
    assert_eq!(decimal_string(0), "0");
    assert_eq!(decimal_string(9), "9");
    assert_eq!(decimal_string(10), "10");
    assert_eq!(decimal_string(305), "305");
    assert_eq!(decimal_string(u32::MAX), u32::MAX.to_string());
}

#[test]
fn push_decimal_appends() {
    let mut s = "n=".to_string();
    push_decimal(&mut s, 120);
    assert_eq!(s, "n=120");
}

#[test]
fn string_comparisons() {
    assert!(str_eq("abc", "abc"));
    assert!(!str_eq("abc", "abd"));
    assert!(!str_eq("abc", "ab"));
    assert!(str_eq("", ""));
    assert!(str_starts_with("wa-x", "wa-"));
    assert!(str_starts_with("x", ""));
    assert!(!str_starts_with("w", "wa-"));
    assert!(str_eq("é—", "é—"));
}
