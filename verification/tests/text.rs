use cold_deploy::text::{
    chars_of, join_text, count_words, decimal, same_text, split_trimmed, strip_hex_prefix, trim,
};

#[test]
fn words_are_runs_between_whitespace() {
    assert_eq!(count_words(""), 0);
    assert_eq!(count_words("   "), 0);
    assert_eq!(count_words("one"), 1);
    assert_eq!(count_words("  one  two\tthree\nfour  "), 4);
    assert_eq!(count_words("one\u{2003}two\u{a0}three"), 3);
}

#[test]
fn trim_removes_whitespace_at_both_ends() {
    assert_eq!(trim("  abc \n"), "abc");
    assert_eq!(trim("a b"), "a b");
    assert_eq!(trim(" \t "), "");
    assert_eq!(trim(""), "");
    assert_eq!(trim("\u{3000}é \u{a0}"), "é");
}

#[test]
fn split_keeps_empty_pieces() {
    assert_eq!(split_trimmed("a, b ,c", ','), vec!["a", "b", "c"]);
    assert_eq!(split_trimmed("", ','), vec![""]);
    assert_eq!(split_trimmed(",", ','), vec!["", ""]);
    assert_eq!(split_trimmed("a,,b,", ','), vec!["a", "", "b", ""]);
    assert_eq!(split_trimmed("no comma", ','), vec!["no comma"]);
    assert_eq!(split_trimmed("é, ü", ','), vec!["é", "ü"]);
}

#[test]
fn hex_prefix_is_dropped_once() {
    assert_eq!(strip_hex_prefix("0xabc"), "abc");
    assert_eq!(strip_hex_prefix("abc"), "abc");
    assert_eq!(strip_hex_prefix("0x"), "");
    assert_eq!(strip_hex_prefix("0x0x1"), "0x1");
    assert_eq!(strip_hex_prefix("0X12"), "0X12");
    assert_eq!(strip_hex_prefix("0"), "0");
}

#[test]
fn numbers_are_written_in_decimal() {
    assert_eq!(decimal(0), "0");
    assert_eq!(decimal(7), "7");
    assert_eq!(decimal(10), "10");
    assert_eq!(decimal(1234567890), "1234567890");
    assert_eq!(decimal(u64::MAX), "18446744073709551615");
}

#[test]
fn texts_are_compared_and_joined() {
    assert!(same_text("abc", "abc"));
    assert!(!same_text("abc", "abd"));
    assert_eq!(join_text("ab", "cd"), "abcd");
    assert_eq!(chars_of("héllo"), vec!['h', 'é', 'l', 'l', 'o']);
}

#[test]
fn decimal_is_read_as_it_is_written() {
    assert_eq!(cold_deploy::text::parse_decimal("0"), Some(0));
    assert_eq!(cold_deploy::text::parse_decimal("256"), Some(256));
    assert_eq!(cold_deploy::text::parse_decimal("18446744073709551615"), Some(u64::MAX));
    assert_eq!(cold_deploy::text::parse_decimal("18446744073709551616"), None);
    assert_eq!(cold_deploy::text::parse_decimal("99999999999999999999999"), None);
    assert_eq!(cold_deploy::text::parse_decimal(""), None);
    assert_eq!(cold_deploy::text::parse_decimal("00"), None);
    assert_eq!(cold_deploy::text::parse_decimal("08"), None);
    assert_eq!(cold_deploy::text::parse_decimal("8a"), None);
    assert_eq!(cold_deploy::text::parse_decimal("-8"), None);
    assert_eq!(cold_deploy::text::parse_decimal("٣"), None);
    for n in [1u64, 9, 10, 99, 100, 12345, u64::MAX - 1] {
        assert_eq!(cold_deploy::text::parse_decimal(&decimal(n)), Some(n));
    }
}

#[test]
fn prefix_is_removed_where_it_is_there() {
    assert_eq!(cold_deploy::text::strip_prefix("uint256", "uint"), Some("256"));
    assert_eq!(cold_deploy::text::strip_prefix("int256", "uint"), None);
    assert_eq!(cold_deploy::text::strip_prefix("uint", "uint"), Some(""));
    assert_eq!(cold_deploy::text::strip_prefix("uin", "uint"), None);
    assert_eq!(cold_deploy::text::strip_prefix("anything", ""), Some("anything"));
    assert_eq!(cold_deploy::text::strip_prefix("éa", "é"), Some("a"));
}

#[test]
fn words_are_counted_as_they_are_split() {
    for text in ["", " ", "a", " a ", "a b", "a\tb\nc", "  several   words here  ", "x\u{2028}y\u{205f}z", "é è"] {
        assert_eq!(count_words(text), text.split_whitespace().count());
        assert_eq!(trim(text), text.trim());
    }
    for text in ["", ",", "a,b", " a , b ,", ",,", "one"] {
        let expected: Vec<&str> = text.split(',').map(|piece| piece.trim()).collect();
        assert_eq!(split_trimmed(text, ','), expected);
    }
}

#[test]
fn whitespace_is_the_twenty_five_code_points() {
    let listed = |n: u32| {
        (0x09..=0x0D).contains(&n)
            || n == 0x20
            || n == 0x85
            || n == 0xA0
            || n == 0x1680
            || (0x2000..=0x200A).contains(&n)
            || n == 0x2028
            || n == 0x2029
            || n == 0x202F
            || n == 0x205F
            || n == 0x3000
    };
    let mut spaces = 0;
    for n in 0..=0x10FFFFu32 {
        if let Some(c) = char::from_u32(n) {
            let mut text = String::new();
            text.push(c);
            let words = count_words(&text);
            assert_eq!(words, if listed(n) { 0 } else { 1 }, "U+{:04X}", n);
            if words == 0 {
                spaces += 1;
            }
        }
    }
    assert_eq!(spaces, 25);
    assert_eq!(trim("\u{1680}42\u{205f}"), "42");
    assert_eq!(trim("\u{180e}42\u{200b}"), "\u{180e}42\u{200b}");
}
