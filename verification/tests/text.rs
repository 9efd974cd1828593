use sscp::text::{position, str_eq};

#[test]
fn str_eq_tells_equal_from_unequal() {
    assert!(str_eq("Pending", "Pending"));
    assert!(str_eq("", ""));
    assert!(!str_eq("Pending", "pending"));
    assert!(!str_eq("Pending", "Pendin"));
    assert!(!str_eq("", "a"));
    assert!(str_eq("ファイル", "ファイル"));
    assert!(!str_eq("ファイル", "ファイラ"));
}

#[test]
fn position_finds_the_first_occurrence() {
    assert_eq!(position("a:b:c", ':'), 1);
    assert_eq!(position(":", ':'), 0);
    assert_eq!(position("abc:", ':'), 3);
}

#[test]
fn position_is_the_length_where_there_is_none() {
    assert_eq!(position("abc", ':'), 3);
    assert_eq!(position("", ':'), 0);
}

#[test]
fn position_counts_characters_not_bytes() {
    assert_eq!(position("どこか:x", ':'), 3);
    assert_eq!(position("どこか", ':'), 3);
}
