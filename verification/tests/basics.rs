use clone_vmm::strmap::StrMap;
use clone_vmm::text::{
    cat5, decimal_string, hex_string, padded_decimal, parse_u64, path_join, str_eq, trim,
};

#[test]
fn numbers_are_written_and_read() {
    for n in [0u64, 7, 10, 255, 4096, u64::MAX] {
        assert_eq!(decimal_string(n), n.to_string());
        assert_eq!(parse_u64(&decimal_string(n)), Some(n));
    }
    assert_eq!(padded_decimal(7, 4), "0007");
    assert_eq!(padded_decimal(12345, 4), "12345");
    assert_eq!(padded_decimal(0, 0), "0");
    assert_eq!(hex_string(&[0, 9, 0xab, 0xff]), "0009abff");
}

#[test]
fn paths_are_joined() {
    assert_eq!(path_join("/a", "b"), "/a/b");
    assert_eq!(path_join("/a/", "b"), "/a/b");
    assert_eq!(path_join("", "b"), "b");
    assert_eq!(path_join("/a", "/b"), "/b");
    assert_eq!(path_join("/a", ""), "/a/");
    for (base, child) in [("/a", "b"), ("/a/", "b"), ("", "b"), ("/a", "/b"), ("/a", "")] {
        let expected = std::path::Path::new(base).join(child);
        assert_eq!(path_join(base, child), expected.to_str().unwrap());
    }
}

#[test]
fn white_space_is_trimmed() {
    for s in ["", " ", "a", " a b\t\n", "\u{2003}x\u{3000}", "\u{200b}x"] {
        assert_eq!(trim(s), s.trim());
    }
    assert!(str_eq("ab", "ab"));
    assert!(!str_eq("ab", "abc"));
    assert_eq!(cat5("a", "b", "", "c", "d"), "abcd");
}

#[test]
fn all_white_space_of_unicode_is_trimmed() {
    for c in '\0'..='\u{10ffff}' {
        let s = format!("{c}x{c}");
        assert_eq!(trim(&s) == "x", c.is_whitespace(), "{:?}", c);
    }
}

#[test]
fn a_map_keeps_each_key_once_and_in_order() {
    let mut m: StrMap<u32> = StrMap::new();
    assert_eq!(m.insert("b".to_string(), 1), None);
    assert_eq!(m.insert("a".to_string(), 2), None);
    assert_eq!(m.insert("b".to_string(), 3), Some(1));
    assert_eq!(m.len(), 2);
    assert_eq!(m.get("b"), Some(&3));
    assert_eq!(m.get("c"), None);
    assert!(m.contains_key("a"));
    assert_eq!((m.key_at(0).as_str(), *m.value_at(0)), ("b", 3));
    *m.get_mut("a").unwrap() += 5;
    assert!(m.get_mut("c").is_none());
    assert_eq!(m.clone().get("a"), Some(&7));
    assert_eq!(m.remove("b"), Some(3));
    assert_eq!(m.remove("b"), None);
    assert_eq!(m.key_at(0).as_str(), "a");
}
