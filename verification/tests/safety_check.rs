use completers::safety::is_safe;

#[test]
fn the_empty_string_is_rejected() {
    assert!(!is_safe(""));
}

#[test]
fn shell_metacharacters_are_rejected() {
    assert!(!is_safe("a;b"));
    assert!(!is_safe("a$b"));
    assert!(!is_safe("a`b"));
    assert!(!is_safe("a'b"));
    assert!(!is_safe("a\"b"));
    assert!(!is_safe("a b"));
    assert!(!is_safe("a(b)"));
    assert!(!is_safe("a|b"));
    assert!(!is_safe("a\nb"));
    assert!(!is_safe("&"));
}

#[test]
fn letters_digits_and_the_allow_list_are_accepted() {
    assert!(is_safe("my-tool"));
    assert!(is_safe("/usr/local/bin/my-tool"));
    assert!(is_safe("a_b-c.d/e\\f"));
    assert!(is_safe("ABCxyz0189"));
}

#[test]
fn unicode_letters_count_as_alphanumeric() {
    assert!(is_safe("caf\u{e9}"));
    assert!(!is_safe("caf\u{e9};"));
}
