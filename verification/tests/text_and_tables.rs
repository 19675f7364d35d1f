use cram::aliases::AliasTable;
use cram::text::{
    after_last_colon_str, contains_text, eq_ignore_ascii_case, is_nonblank_str, parse_u16,
    strip_v, trim, u16_text,
};

#[test]
fn trim_matches_std() {
    for s in ["", "  ", " a ", "\u{3000}x\u{a0}", "a b", "\n\tv1\r\n", "\u{200b}x"] {
        assert_eq!(trim(s), s.trim(), "{s:?}");
        assert_eq!(is_nonblank_str(s), !s.trim().is_empty());
    }
}

#[test]
fn parse_u16_matches_std() {
    for s in ["", "+", "-", "0", "+80", "-1", "65535", "65536", "0008787", "12a", " 1", "99999999999", "٣"] {
        assert_eq!(parse_u16(s), s.parse::<u16>().ok(), "{s:?}");
    }
}

#[test]
fn u16_text_matches_display() {
    for n in [0u16, 7, 10, 99, 100, 8787, 65535] {
        assert_eq!(u16_text(n), n.to_string());
    }
}

#[test]
fn small_text_operations() {
    assert_eq!(strip_v("vv1.0"), "1.0");
    assert_eq!(strip_v("1.0v"), "1.0v");
    assert_eq!(after_last_colon_str("127.0.0.1:8888"), "8888");
    assert_eq!(after_last_colon_str("nohost"), "nohost");
    assert_eq!(after_last_colon_str("a:"), "");
    assert!(eq_ignore_ascii_case("TrUe", "true"));
    assert!(!eq_ignore_ascii_case("tru", "true"));
    assert!(!eq_ignore_ascii_case("trüe", "true"));
    assert!(contains_text("error: no available authentication method found!", "no available authentication method found"));
    assert!(!contains_text("no available", "no available authentication method found"));
    assert!(contains_text("abc", ""));
}

#[test]
fn alias_table_insert_and_get() {
    let mut t = AliasTable::new();
    assert_eq!(t.get("a"), None);
    t.insert("a".into(), "1".into());
    t.insert("b".into(), "2".into());
    t.insert("a".into(), "3".into());
    assert_eq!(t.get("a"), Some("3".to_string()));
    assert_eq!(t.get("b"), Some("2".to_string()));
    assert_eq!(t.entries().len(), 2);
    let u = AliasTable::from_pairs(vec![("x".into(), "1".into()), ("x".into(), "2".into())]);
    assert_eq!(u.get("x"), Some("2".to_string()));
    assert_eq!(u.entries().len(), 1);
}
