use kube_cache::text::{
    chars_of, clone_texts, find_value, has_text, parse_decimal, same_text,
};

#[test]
fn chars_come_in_order() {
    assert_eq!(chars_of("h\u{e9}llo"), vec!['h', '\u{e9}', 'l', 'l', 'o']);
    assert_eq!(chars_of(""), Vec::<char>::new());
}

#[test]
fn same_text_compares_characters() {
    assert!(same_text("abc", "abc"));
    assert!(!same_text("abc", "abd"));
    assert!(!same_text("abc", "ab"));
    assert!(same_text("", ""));
}

#[test]
fn find_value_takes_the_first_pair() {
    let pairs = vec![
        ("a".to_string(), "1".to_string()),
        ("b".to_string(), "2".to_string()),
        ("a".to_string(), "3".to_string()),
    ];
    assert_eq!(find_value(&pairs, "a"), Some(&"1".to_string()));
    assert_eq!(find_value(&pairs, "b"), Some(&"2".to_string()));
    assert_eq!(find_value(&pairs, "c"), None);
    assert_eq!(find_value(&Vec::new(), "a"), None);
}

#[test]
fn has_text_finds_whole_items_only() {
    let items = vec!["alpha".to_string(), "beta".to_string()];
    assert!(has_text(&items, "beta"));
    assert!(!has_text(&items, "bet"));
    assert!(!has_text(&Vec::new(), ""));
}

#[test]
fn clone_texts_copies_every_item() {
    let items = vec!["x".to_string(), "".to_string(), "yz".to_string()];
    assert_eq!(clone_texts(&items), items);
}

#[test]
fn parse_decimal_reads_digits() {
    assert_eq!(parse_decimal("0"), Some(0));
    assert_eq!(parse_decimal("1800"), Some(1800));
    assert_eq!(parse_decimal("007"), Some(7));
    assert_eq!(parse_decimal("18446744073709551615"), Some(u64::MAX));
}

#[test]
fn parse_decimal_refuses_everything_else() {
    assert_eq!(parse_decimal(""), None);
    assert_eq!(parse_decimal("+5"), None);
    assert_eq!(parse_decimal("-5"), None);
    assert_eq!(parse_decimal("12a"), None);
    assert_eq!(parse_decimal(" 12"), None);
    assert_eq!(parse_decimal("1.5"), None);
    assert_eq!(parse_decimal("18446744073709551616"), None);
    assert_eq!(parse_decimal("99999999999999999999999"), None);
}
