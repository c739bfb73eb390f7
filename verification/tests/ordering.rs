use cosmwasm_tunnel::order::{key_before, text_before};

#[test]
fn text_order_is_lexicographic_by_bytes() {
    assert!(text_before("a", "b"));
    assert!(!text_before("b", "a"));
    assert!(text_before("", "a"));
    assert!(!text_before("a", ""));
    assert!(text_before("ab", "abc"));
    assert!(!text_before("abc", "ab"));
    assert!(text_before("abc", "abd"));
    assert!(text_before("Z", "a"));
}

#[test]
fn text_is_not_before_itself() {
    assert!(!text_before("", ""));
    assert!(!text_before("conn-0", "conn-0"));
}

#[test]
fn shorter_text_is_not_first_when_its_bytes_are_larger() {
    assert!(text_before("aa", "b"));
    assert!(!text_before("b", "aa"));
    assert!(text_before("conn-10", "conn-9"));
}

#[test]
fn text_order_follows_code_points_beyond_ascii() {
    assert!(text_before("z", "é"));
    assert!(text_before("é", "日"));
    assert!(!text_before("日", "é"));
}

#[test]
fn key_order_goes_part_by_part() {
    assert!(key_before("a", "z", "z", "b", "a", "a"));
    assert!(!key_before("b", "a", "a", "a", "z", "z"));
    assert!(key_before("a", "a", "z", "a", "b", "a"));
    assert!(!key_before("a", "b", "a", "a", "a", "z"));
    assert!(key_before("a", "a", "a", "a", "a", "b"));
    assert!(!key_before("a", "a", "b", "a", "a", "a"));
    assert!(!key_before("a", "a", "a", "a", "a", "a"));
}
