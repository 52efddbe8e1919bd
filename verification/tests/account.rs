use near_jsonrpc::account::is_valid_account_id;

#[test]
fn plain_names_are_valid() {
    assert!(is_valid_account_id("alice"));
    assert!(is_valid_account_id("alice.near"));
    assert!(is_valid_account_id("ok_123-x.y"));
    assert!(is_valid_account_id("a1"));
}

#[test]
fn length_bounds_are_enforced() {
    assert!(!is_valid_account_id(""));
    assert!(!is_valid_account_id("a"));
    assert!(is_valid_account_id(&"a".repeat(64)));
    assert!(!is_valid_account_id(&"a".repeat(65)));
}

#[test]
fn separators_cannot_lead_trail_or_double() {
    assert!(!is_valid_account_id(".alice"));
    assert!(!is_valid_account_id("alice."));
    assert!(!is_valid_account_id("al..ice"));
    assert!(!is_valid_account_id("al.-ice"));
    assert!(!is_valid_account_id("-alice"));
    assert!(!is_valid_account_id("alice_"));
}

#[test]
fn characters_outside_the_alphabet_are_rejected() {
    assert!(!is_valid_account_id("Alice"));
    assert!(!is_valid_account_id("al ice"));
    assert!(!is_valid_account_id("al@ice"));
    assert!(!is_valid_account_id("ალისა"));
}
