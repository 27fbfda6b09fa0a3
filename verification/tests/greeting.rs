use glosaurus::greeting::greet;
use glosaurus::text::str_eq_ci;

#[test]
fn greet_builds_the_full_salutation() {
    assert_eq!(greet("World"), "Hello, World! You've been greeted from Rust!");
    assert_eq!(greet(""), "Hello, ! You've been greeted from Rust!");
}

#[test]
fn str_eq_ci_folds_ascii_case_only() {
    assert!(str_eq_ci("abc", "ABC"));
    assert!(str_eq_ci("Get", "gET"));
    assert!(!str_eq_ci("abc", "abd"));
    assert!(!str_eq_ci("abc", "abcd"));
    assert!(str_eq_ci("", ""));
    assert!(!str_eq_ci("\u{e9}", "\u{c9}"));
}
