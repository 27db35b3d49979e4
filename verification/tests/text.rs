use ticketing::text::{
    is_blank, is_white_space_char, joined3, same_text, trim, with_doubled_quotes, without_trailing,
};

#[test]
fn trim_matches_std() {
    for s in ["", "   ", " a ", "\u{a0}x y\u{2009}", "\n\tword\r\n", "no-space", "\u{200b}zw\u{200b}"] {
        assert_eq!(trim(s), s.trim(), "input {:?}", s);
    }
}

#[test]
fn white_space_matches_std() {
    for u in 0u32..0x3100 {
        if let Some(c) = char::from_u32(u) {
            assert_eq!(is_white_space_char(c), c.is_whitespace(), "code point {:x}", u);
        }
    }
}

#[test]
fn blank_and_same_text() {
    assert!(is_blank(" \t "));
    assert!(!is_blank(" a "));
    assert!(same_text("abc", "abc"));
    assert!(!same_text("abc", "abd"));
    assert!(!same_text("abc", "ab"));
}

#[test]
fn rewrites() {
    assert_eq!(without_trailing("http://h:1///", '/'), "http://h:1");
    assert_eq!(without_trailing("///", '/'), "");
    assert_eq!(with_doubled_quotes("it's 'x'"), "it''s ''x''");
    assert_eq!(joined3("a", "b", "c"), "abc");
}

#[test]
fn trimming_twice_is_trimming_once() {
    for s in ["  a b  ", "\u{2028}x\u{2029}", "", " "] {
        let once = trim(s);
        assert_eq!(trim(&once), once);
    }
}
