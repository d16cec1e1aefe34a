use multitask::text::{
    chars_of, count_in, format_index, is_whitespace_char, join, parse_index, split_on,
    trim,
};

#[test]
fn trim_removes_surrounding_whitespace() {
    assert_eq!(trim("  echo a \t\n"), "echo a");
    assert_eq!(trim("echo a"), "echo a");
    assert_eq!(trim("\u{a0}x\u{3000}"), "x");
}

#[test]
fn trim_keeps_inner_whitespace() {
    assert_eq!(trim(" a  b "), "a  b");
}

#[test]
fn trim_of_whitespace_is_empty() {
    assert_eq!(trim(""), "");
    assert_eq!(trim(" \n\t "), "");
}

#[test]
fn trim_agrees_with_std() {
    for s in ["", " ", "a", " a", "a ", "\ta b\n", "  é  ", "\u{2028}z\u{2029}", "x\u{200b}"] {
        assert_eq!(trim(s), s.trim());
    }
}

#[test]
fn split_on_double_ampersand() {
    assert_eq!(split_on("a && b&&c", "&&"), vec!["a ", " b", "c"]);
}

#[test]
fn split_on_without_separator_gives_the_whole() {
    assert_eq!(split_on("echo a", "&&"), vec!["echo a"]);
    assert_eq!(split_on("", "&&"), vec![""]);
}

#[test]
fn split_on_takes_matches_from_the_left_without_overlap() {
    assert_eq!(split_on("a&&&b", "&&"), vec!["a", "&b"]);
    assert_eq!(split_on("&&&&", "&&"), vec!["", "", ""]);
    assert_eq!(split_on("&", "&&"), vec!["&"]);
}

#[test]
fn split_on_newline_keeps_empty_pieces() {
    assert_eq!(split_on("a\n\nb\n", "\n"), vec!["a", "", "b", ""]);
}

#[test]
fn split_on_empty_separator_splits_nowhere() {
    assert_eq!(split_on("abc", ""), vec!["abc"]);
}

#[test]
fn split_on_agrees_with_std() {
    for s in ["", "a", "&&", "a&&", "&&a", "a&&b&&c", "&&&", "a & b && c", "é&&ü"] {
        let expected: Vec<String> = s.split("&&").map(|p| p.to_string()).collect();
        assert_eq!(split_on(s, "&&"), expected);
    }
}

#[test]
fn join_puts_the_separator_between_lines() {
    let lines = vec!["echo a".to_string(), "echo b".to_string(), "echo c".to_string()];
    assert_eq!(join(&lines, "\n"), "echo a\necho b\necho c");
}

#[test]
fn join_of_one_or_no_line() {
    assert_eq!(join(&vec!["only".to_string()], "\n"), "only");
    assert_eq!(join(&Vec::new(), "\n"), "");
}

#[test]
fn join_then_split_gives_the_lines_back() {
    let lines = vec!["a".to_string(), "b c".to_string(), "d".to_string()];
    assert_eq!(split_on(&join(&lines, "\n"), "\n"), lines);
}

#[test]
fn parse_index_reads_decimal_digits() {
    assert_eq!(parse_index("0"), Some(0));
    assert_eq!(parse_index("7"), Some(7));
    assert_eq!(parse_index("42"), Some(42));
    assert_eq!(parse_index("007"), Some(7));
    assert_eq!(parse_index("+15"), Some(15));
}

#[test]
fn parse_index_rejects_what_is_no_number() {
    assert_eq!(parse_index(""), None);
    assert_eq!(parse_index("+"), None);
    assert_eq!(parse_index("-"), None);
    assert_eq!(parse_index("-1"), None);
    assert_eq!(parse_index(" 1"), None);
    assert_eq!(parse_index("1 "), None);
    assert_eq!(parse_index("1a"), None);
    assert_eq!(parse_index("++1"), None);
    assert_eq!(parse_index("٣"), None);
}

#[test]
fn parse_index_rejects_what_does_not_fit() {
    let max = usize::MAX.to_string();
    assert_eq!(parse_index(&max), Some(usize::MAX));
    let too_big = format!("{}0", max);
    assert_eq!(parse_index(&too_big), None);
    let next = (usize::MAX as u128 + 1).to_string();
    assert_eq!(parse_index(&next), None);
}

#[test]
fn parse_index_agrees_with_std() {
    for s in ["", "0", "12", "+3", "-3", "+", "1_000", "0x10", "99999999999999999999999", "18446744073709551615"] {
        assert_eq!(parse_index(s), s.parse::<usize>().ok());
    }
}

#[test]
fn format_index_writes_decimal_digits() {
    assert_eq!(format_index(0), "0");
    assert_eq!(format_index(9), "9");
    assert_eq!(format_index(10), "10");
    assert_eq!(format_index(1234567890), "1234567890");
    assert_eq!(format_index(usize::MAX), usize::MAX.to_string());
}

#[test]
fn format_then_parse_gives_the_index_back() {
    for n in [0usize, 1, 9, 10, 99, 100, 65535, usize::MAX - 1, usize::MAX] {
        assert_eq!(parse_index(&format_index(n)), Some(n));
    }
}

#[test]
fn whitespace_is_what_std_counts_as_whitespace() {
    for code in 0u32..=0x10ffff {
        if let Some(c) = char::from_u32(code) {
            assert_eq!(is_whitespace_char(c), c.is_whitespace(), "U+{:04X}", code);
        }
    }
}

#[test]
fn whitespace_examples() {
    for c in [' ', '\t', '\n', '\r', '\u{b}', '\u{c}', '\u{85}', '\u{a0}', '\u{2003}', '\u{3000}'] {
        assert!(is_whitespace_char(c));
    }
    for c in ['a', '0', '_', '\u{8}', '\u{e}', '\u{180e}', '\u{200b}', '\u{feff}'] {
        assert!(!is_whitespace_char(c));
    }
}

#[test]
fn occurrences_are_counted_with_overlap() {
    assert_eq!(count_in(&chars_of("a{b{c}"), "{"), 2);
    assert_eq!(count_in(&chars_of("/-/-x"), "/-"), 2);
    assert_eq!(count_in(&chars_of("aaaa"), "aa"), 3);
    assert_eq!(count_in(&chars_of("abc"), "abcd"), 0);
    assert_eq!(count_in(&chars_of("abc"), ""), 0);
    assert_eq!(count_in(&chars_of(""), "a"), 0);
    assert_eq!(count_in(&chars_of("é(true)é"), "(true"), 1);
}

#[test]
fn chars_of_gives_the_characters() {
    assert_eq!(chars_of("aé\u{3000}"), vec!['a', 'é', '\u{3000}']);
    assert!(chars_of("").is_empty());
}
