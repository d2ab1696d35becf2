use bombastic_indexer::text::{same_text, strip_prefix};

#[test]
fn same_text_compares_every_character() {
    assert!(same_text("", ""));
    assert!(same_text("abc", "abc"));
    assert!(!same_text("abc", "abd"));
    assert!(!same_text("abc", "ab"));
    assert!(!same_text("ab", "abc"));
    assert!(!same_text("abc", "Abc"));
}

#[test]
fn same_text_beyond_ascii() {
    assert!(same_text("grüße", "grüße"));
    assert!(!same_text("grüße", "grusse"));
    assert!(!same_text("é", "e\u{301}"));
}

#[test]
fn strip_prefix_hands_out_the_rest() {
    assert_eq!(strip_prefix("hello world", "hello "), Some("world"));
    assert_eq!(strip_prefix("hello", "hello"), Some(""));
    assert_eq!(strip_prefix("hello", ""), Some("hello"));
    assert_eq!(strip_prefix("", ""), Some(""));
}

#[test]
fn strip_prefix_refuses_what_does_not_start_with_it() {
    assert_eq!(strip_prefix("hello", "world"), None);
    assert_eq!(strip_prefix("hell", "hello"), None);
    assert_eq!(strip_prefix("", "a"), None);
    assert_eq!(strip_prefix("xhello", "hello"), None);
}

#[test]
fn strip_prefix_beyond_ascii() {
    assert_eq!(strip_prefix("日本語/doc", "日本語/"), Some("doc"));
    assert_eq!(strip_prefix("日本語", "日本"), Some("語"));
    assert_eq!(strip_prefix("日本語", "日語"), None);
}

#[test]
fn strip_prefix_agrees_with_the_standard_library() {
    let texts = ["", "a", "ab", "abc", "bombastic/data/sbom/x", "ünï", "ün"];
    for text in texts {
        for prefix in texts {
            assert_eq!(strip_prefix(text, prefix), text.strip_prefix(prefix));
            assert_eq!(same_text(text, prefix), text == prefix);
        }
    }
}
