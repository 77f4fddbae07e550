use axum_connect::text::{append_chars, text_is, text_joined, text_with};

#[test]
fn append_chars_appends_in_order() {
    let mut s = String::from("ab");
    append_chars(&mut s, &vec!['c', 'é', 'd']);
    assert_eq!(s, "abcéd");
    append_chars(&mut s, &vec![]);
    assert_eq!(s, "abcéd");
}

#[test]
fn text_with_joins_prefix_and_chars() {
    assert_eq!(text_with("key: ", &vec!['v', 'a', 'l']), "key: val");
    assert_eq!(text_with("", &vec![]), "");
    assert_eq!(text_with("only", &vec![]), "only");
}

#[test]
fn text_joined_joins_two_slices() {
    assert_eq!(text_joined("Failed. ", "why"), "Failed. why");
    assert_eq!(text_joined("", ""), "");
}

#[test]
fn text_is_compares_whole_text() {
    assert!(text_is(&vec!['1'], "1"));
    assert!(text_is(&vec![], ""));
    assert!(!text_is(&vec!['1'], ""));
    assert!(!text_is(&vec![], "1"));
    assert!(!text_is(&vec!['1', '1'], "1"));
    assert!(!text_is(&vec!['2'], "1"));
    assert!(text_is(&"application/json".chars().collect(), "application/json"));
    assert!(!text_is(&"application/jsoN".chars().collect(), "application/json"));
    assert!(text_is(&vec!['ß', 'x'], "ßx"));
}
