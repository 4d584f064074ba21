use o365_cli::decimal::{decimal_string, padded2_string, signed_decimal_string};
use o365_cli::text::{
    char_is_space, chars_of, copy_prefix, copy_strings, double_char, join, nth_word,
    push_str_copy, split_words, str_contains, str_eq, str_has_char, str_is_blank, trim,
};

#[test]
fn trim_drops_outer_whitespace_only() {
    assert_eq!(trim("  a b \t\r\n"), "a b");
    assert_eq!(trim(""), "");
    assert_eq!(trim(" \u{3000}\u{85} "), "");
    assert_eq!(trim("x"), "x");
    assert_eq!(trim("\u{a0}tok en\u{2003}"), "   tok en ".trim());
}

#[test]
fn trim_agrees_with_std_on_samples() {
    for s in ["", " ", "a", " a", "a ", "  a  b  ", "\t\n\u{b}\u{c}\r x \u{1680}", "\u{200b}x"] {
        assert_eq!(trim(s), s.trim());
    }
}

#[test]
fn blank_strings() {
    assert!(str_is_blank(""));
    assert!(str_is_blank(" \t\n"));
    assert!(!str_is_blank(" . "));
}

#[test]
fn second_word_of_a_request_line() {
    assert_eq!(nth_word("GET /?code=abc HTTP/1.1\r\n", 1), Some("/?code=abc".to_string()));
    assert_eq!(nth_word("GET", 1), None);
    assert_eq!(nth_word("", 0), None);
    assert_eq!(nth_word("  a   b ", 0), Some("a".to_string()));
    assert_eq!(nth_word("  a   b ", 1), Some("b".to_string()));
    assert_eq!(nth_word("  a   b ", 2), None);
}

#[test]
fn words_agree_with_std_on_samples() {
    for s in ["", "  ", "a", " a b  c ", "User.Read Directory.ReadWrite.All\toffline_access"] {
        let expected: Vec<String> = s.split_whitespace().map(String::from).collect();
        assert_eq!(split_words(s), expected);
    }
}

#[test]
fn substring_search() {
    assert!(str_contains("/favicon.ico", "favicon.ico"));
    assert!(str_contains("abc", ""));
    assert!(str_contains("", ""));
    assert!(!str_contains("", "a"));
    assert!(!str_contains("favicon.ic", "favicon.ico"));
    assert!(str_contains("xxfavicon.icoyy", "favicon.ico"));
}

#[test]
fn joining() {
    let parts = vec!["a".to_string(), "b".to_string(), "c".to_string()];
    assert_eq!(join(&parts, ","), "a,b,c");
    assert_eq!(join(&Vec::new(), ","), "");
    assert_eq!(join(&vec!["only".to_string()], ", "), "only");
}

#[test]
fn numerals() {
    assert_eq!(decimal_string(0), "0");
    assert_eq!(decimal_string(7), "7");
    assert_eq!(decimal_string(1234567890), "1234567890");
    assert_eq!(decimal_string(u64::MAX), u64::MAX.to_string());
    assert_eq!(signed_decimal_string(-1), "-1");
    assert_eq!(signed_decimal_string(i64::MIN), i64::MIN.to_string());
    assert_eq!(signed_decimal_string(42), "42");
    assert_eq!(padded2_string(5), "05");
    assert_eq!(padded2_string(42), "42");
    assert_eq!(padded2_string(100), "100");
}

#[test]
fn doubling_a_character() {
    assert_eq!(double_char("say \"hi\"", '"'), "say \"\"hi\"\"");
    assert_eq!(double_char("", '"'), "");
    assert_eq!(double_char("aaa", 'a'), "aaaaaa");
    assert_eq!(double_char("\u{e9}x\u{e9}", '\u{e9}'), "\u{e9}\u{e9}x\u{e9}\u{e9}");
    for s in ["plain", "\"", "a\"b\"c", "\"\""] {
        assert_eq!(double_char(s, '"'), s.replace("\"", "\"\""));
    }
}

#[test]
fn character_search() {
    assert!(str_has_char("a,b", ','));
    assert!(!str_has_char("ab", ','));
    assert!(!str_has_char("", ','));
    assert!(str_has_char("\u{1f600}", '\u{1f600}'));
}

#[test]
fn string_equality_and_copies() {
    assert!(str_eq("cli", "cli"));
    assert!(!str_eq("cli", "cli "));
    assert!(str_eq("", ""));
    assert_eq!(chars_of("a\u{e9}\u{1f600}"), vec!['a', '\u{e9}', '\u{1f600}']);
    let v = vec!["a".to_string(), "b".to_string(), "c".to_string()];
    assert_eq!(copy_strings(&v), v);
    assert_eq!(copy_prefix(&v, 2), vec!["a".to_string(), "b".to_string()]);
    assert_eq!(copy_prefix(&v, 0), Vec::<String>::new());
    let mut w = Vec::new();
    push_str_copy(&mut w, "x");
    assert_eq!(w, vec!["x".to_string()]);
}

#[test]
fn whitespace_is_the_unicode_property() {
    for n in 0u32..0x3100 {
        if let Some(c) = char::from_u32(n) {
            assert_eq!(char_is_space(c), c.is_whitespace(), "U+{:04X}", n);
        }
    }
    assert!(!char_is_space('\u{feff}'));
    assert!(!char_is_space('\u{1f600}'));
}
