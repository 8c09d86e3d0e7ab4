use gitlab_adapter::text::{decimal_text, str_eq};

#[test]
fn str_eq_agrees_with_equality() {
    assert!(str_eq("", ""));
    assert!(str_eq("files", "files"));
    assert!(!str_eq("files", "file"));
    assert!(!str_eq("file", "files"));
    assert!(!str_eq("files", "filez"));
    assert!(!str_eq("Files", "files"));
    assert!(str_eq("日本語/ファイル", "日本語/ファイル"));
    assert!(!str_eq("é", "e"));
}

#[test]
fn decimal_text_of_small_numbers() {
    assert_eq!(decimal_text(0), "0");
    assert_eq!(decimal_text(7), "7");
    assert_eq!(decimal_text(9), "9");
    assert_eq!(decimal_text(10), "10");
    assert_eq!(decimal_text(42), "42");
    assert_eq!(decimal_text(100), "100");
    assert_eq!(decimal_text(1234567890), "1234567890");
}

#[test]
fn decimal_text_of_the_largest_number() {
    assert_eq!(decimal_text(u64::MAX), "18446744073709551615");
}

#[test]
fn decimal_text_agrees_with_to_string() {
    let mut n: u64 = 1;
    for _ in 0..64 {
        assert_eq!(decimal_text(n), n.to_string());
        assert_eq!(decimal_text(n - 1), (n - 1).to_string());
        n = n.wrapping_mul(3).wrapping_add(1);
    }
}

#[test]
fn decimal_text_is_never_empty() {
    for n in [0u64, 1, 9, 10, 99, 100, u64::MAX] {
        assert!(!decimal_text(n).is_empty());
    }
}
