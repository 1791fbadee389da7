use xero_toolkit::text::{
    contains_text, decimal_string, join_strings, replace_str, signed_decimal_string, str_is, string_of,
    trim_str, chars_of, lines_of, words_of, split_chars,
};

fn strs(v: Vec<Vec<char>>) -> Vec<String> {
    v.into_iter().map(|c| c.into_iter().collect()).collect()
}

#[test]
fn decimals() {
    assert_eq!(decimal_string(0), "0");
    assert_eq!(decimal_string(42), "42");
    assert_eq!(decimal_string(u64::MAX), u64::MAX.to_string());
    assert_eq!(signed_decimal_string(-17), "-17");
    assert_eq!(signed_decimal_string(i64::MIN), i64::MIN.to_string());
}

#[test]
fn trimming_and_comparing() {
    assert_eq!(trim_str("  \t hello world \n"), "hello world");
    assert_eq!(trim_str(""), "");
    assert!(str_is("abc", "abc"));
    assert!(!str_is("abc", "abd"));
    assert!(contains_text("not running", "running"));
    assert!(!contains_text("run", "running"));
    assert_eq!(string_of(&chars_of("héllo")), "héllo");
}

#[test]
fn lines_words_and_fields() {
    assert_eq!(strs(lines_of(&chars_of("a\r\nb\n\nc"))), vec!["a", "b", "", "c"]);
    assert_eq!(strs(lines_of(&chars_of("a\n"))), vec!["a"]);
    assert!(lines_of(&chars_of("")).is_empty());
    // Same lines as `str::lines`, including its edge cases.
    for text in ["\n", "a\r", "a\n\n", "\r\n", "x\r\ny\r"] {
        let expected: Vec<String> = text.lines().map(|l| l.to_string()).collect();
        assert_eq!(strs(lines_of(&chars_of(text))), expected);
    }
    for text in [" a  b\t", "", "   ", "\u{a0}x\u{2003}y"] {
        let expected: Vec<String> = text.split_whitespace().map(|w| w.to_string()).collect();
        assert_eq!(strs(words_of(&chars_of(text))), expected);
    }
    for text in ["  x ", "\t\n", "\u{3000}y\u{85}"] {
        assert_eq!(trim_str(text), text.trim());
    }
    assert_eq!(strs(words_of(&chars_of("  core/linux  6.9.1 \t[installed]"))), vec!["core/linux", "6.9.1", "[installed]"]);
    assert_eq!(strs(split_chars(&chars_of("a,,b"), ',')), vec!["a", "", "b"]);
}

#[test]
fn replacing_and_joining() {
    assert_eq!(replace_str("scx_lavd scx_", "scx_", ""), "lavd ");
    assert_eq!(replace_str("aaa", "aa", "b"), "ba");
    assert_eq!(join_strings(&vec!["a".to_string(), "b".to_string(), "c".to_string()], ", "), "a, b, c");
    assert_eq!(join_strings(&vec![], " "), "");
}
