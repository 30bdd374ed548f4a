use notify::table::Table;
use notify::text::{contains_char, is_whitespace, split, starts_with, str_eq, trim};

#[test]
fn whitespace_matches_std_for_every_char() {
    for u in 0u32..=0x10ffff {
        if let Some(c) = char::from_u32(u) {
            assert_eq!(is_whitespace(c), c.is_whitespace(), "U+{:04X}", u);
        }
    }
}

#[test]
fn trim_removes_surrounding_whitespace() {
    assert_eq!(trim("  hello world \t\n"), "hello world");
    assert_eq!(trim("\u{3000}icon\u{a0}"), "icon");
    assert_eq!(trim("   "), "");
    assert_eq!(trim(""), "");
    assert_eq!(trim("x"), "x");
}

#[test]
fn trim_agrees_with_std() {
    for s in ["", " a ", "\u{2028}b\u{2029}", "a b", "\t\r\n", " \u{85}z\u{1680} "] {
        assert_eq!(trim(s), s.trim());
    }
}

#[test]
fn trim_is_idempotent() {
    let once = trim("  \u{2003}firefox \n");
    let twice = trim(&once);
    assert_eq!(once, twice);
}

#[test]
fn str_eq_compares_characters() {
    assert!(str_eq("idle", "idle"));
    assert!(!str_eq("idle", "idl"));
    assert!(!str_eq("expand", "expanD"));
    assert!(str_eq("", ""));
}

#[test]
fn starts_with_and_contains() {
    assert!(starts_with("file:///tmp/a.png", "file://"));
    assert!(!starts_with("file:/", "file://"));
    assert!(starts_with("abc", ""));
    assert!(contains_char("a/b", '/'));
    assert!(!contains_char("ab", '/'));
}

#[test]
fn split_keeps_empty_pieces() {
    assert_eq!(split("a::b", ':'), vec!["a", "", "b"]);
    assert_eq!(split("", ':'), vec![""]);
    assert_eq!(split(":", ':'), vec!["", ""]);
    assert_eq!(split("/usr/share/icons", ':'), vec!["/usr/share/icons"]);
}

#[test]
fn split_agrees_with_std() {
    for s in ["", "a", ":a:", "x::y:z", "::"] {
        let ours = split(s, ':');
        let std_pieces: Vec<&str> = s.split(':').collect();
        assert_eq!(ours, std_pieces);
    }
}

#[test]
fn table_get_after_insert() {
    let mut t: Table<String> = Table::new();
    assert!(t.get("image-path").is_none());
    t.insert("image-path".to_string(), "/tmp/a.png".to_string());
    t.insert("desktop-entry".to_string(), "discord".to_string());
    assert_eq!(t.get("image-path").map(|s| s.as_str()), Some("/tmp/a.png"));
    assert!(t.contains("desktop-entry"));
    assert!(!t.contains("urgency"));
}

#[test]
fn table_insert_replaces() {
    let mut t: Table<String> = Table::new();
    t.insert("k".to_string(), "one".to_string());
    t.insert("k".to_string(), "two".to_string());
    assert_eq!(t.get("k").map(|s| s.as_str()), Some("two"));
}
