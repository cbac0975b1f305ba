use charity_lot::is_valid_account_id;

#[test]
fn accepts_simple_names() {
    assert!(is_valid_account_id("ab"));
    assert!(is_valid_account_id("alice"));
    assert!(is_valid_account_id("charity7"));
    assert!(is_valid_account_id("a1"));
}

#[test]
fn accepts_separated_names() {
    assert!(is_valid_account_id("a-b"));
    assert!(is_valid_account_id("a_b"));
    assert!(is_valid_account_id("a.b"));
    assert!(is_valid_account_id("red-cross.near"));
    assert!(is_valid_account_id("a-b_c.d"));
}

#[test]
fn rejects_bad_lengths() {
    assert!(!is_valid_account_id(""));
    assert!(!is_valid_account_id("a"));
    let ok64: String = "a".repeat(64);
    assert!(is_valid_account_id(&ok64));
    let bad65: String = "a".repeat(65);
    assert!(!is_valid_account_id(&bad65));
}

#[test]
fn rejects_bad_characters() {
    assert!(!is_valid_account_id("Alice"));
    assert!(!is_valid_account_id("a b"));
    assert!(!is_valid_account_id("a!b"));
    assert!(!is_valid_account_id("añb"));
}

#[test]
fn rejects_misplaced_separators() {
    assert!(!is_valid_account_id("-ab"));
    assert!(!is_valid_account_id("ab-"));
    assert!(!is_valid_account_id("a--b"));
    assert!(!is_valid_account_id("a-.b"));
    assert!(!is_valid_account_id(".."));
}
