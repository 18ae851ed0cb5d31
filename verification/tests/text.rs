use keycrate_demo::text::{
    decimal_string, digit, from_chars, hex_string, join, pattern_at, remove_all, same_text,
    starts_with, to_chars, trim, trim_chars,
};

fn chars(s: &str) -> Vec<char> {
    s.chars().collect()
}

#[test]
fn digits_are_lowercase() {
    let all: String = (0u8..16).map(digit).collect();
    assert_eq!(all, "0123456789abcdef");
}

#[test]
fn decimal_string_writes_numbers() {
    assert_eq!(decimal_string(0), "0");
    assert_eq!(decimal_string(7), "7");
    assert_eq!(decimal_string(10), "10");
    assert_eq!(decimal_string(50), "50");
    assert_eq!(decimal_string(1234567890), "1234567890");
    assert_eq!(decimal_string(u128::MAX), u128::MAX.to_string());
}

#[test]
fn hex_string_writes_two_digits_a_byte() {
    assert_eq!(hex_string(&[]), "");
    assert_eq!(hex_string(&[0x00, 0x0f, 0xf0, 0xab]), "000ff0ab");
}

#[test]
fn join_puts_the_separator_between_parts() {
    assert_eq!(join(&Vec::new(), "|"), "");
    assert_eq!(join(&vec!["a".to_string()], "|"), "a");
    assert_eq!(join(&vec!["a".to_string(), "".to_string(), "c".to_string()], "|"), "a||c");
    assert_eq!(join(&vec!["x".to_string(), "y".to_string()], ", "), "x, y");
}

#[test]
fn same_text_compares_whole_texts() {
    assert!(same_text("exit", "exit"));
    assert!(!same_text("exit", "exit "));
    assert!(!same_text("", "a"));
    assert!(same_text("", ""));
}

#[test]
fn starts_with_compares_the_beginning() {
    assert!(starts_with(&chars("SerialNumber=12"), &chars("SerialNumber=")));
    assert!(starts_with(&chars("abc"), &chars("")));
    assert!(starts_with(&chars("abc"), &chars("abc")));
    assert!(!starts_with(&chars("ab"), &chars("abc")));
    assert!(!starts_with(&chars("xSerialNumber="), &chars("SerialNumber=")));
    assert!(starts_with(&chars("\u{e9}t\u{e9}"), &chars("\u{e9}t")));
}

#[test]
fn pattern_at_looks_at_one_position() {
    let text = chars("abcabc");
    assert!(pattern_at(&text, 0, &chars("abc")));
    assert!(!pattern_at(&text, 1, &chars("abc")));
    assert!(pattern_at(&text, 3, &chars("abc")));
    assert!(!pattern_at(&text, 4, &chars("abc")));
    assert!(pattern_at(&text, 6, &chars("")));
    assert!(!pattern_at(&text, 6, &chars("a")));
}

#[test]
fn to_chars_and_back() {
    assert_eq!(to_chars("h\u{e9}llo"), vec!['h', '\u{e9}', 'l', 'l', 'o']);
    assert_eq!(to_chars(""), Vec::<char>::new());
    assert_eq!(from_chars(&vec!['o', 'k', '\u{2013}']), "ok\u{2013}");
    assert_eq!(from_chars(&Vec::new()), "");
}

#[test]
fn remove_all_takes_out_every_match() {
    assert_eq!(remove_all(&chars("a=b=c"), &chars("=")), chars("abc"));
    assert_eq!(remove_all(&chars("aaa"), &chars("aa")), chars("a"));
    assert_eq!(remove_all(&chars("ababa"), &chars("aba")), chars("ba"));
    assert_eq!(remove_all(&chars("abc"), &chars("")), chars("abc"));
    assert_eq!(remove_all(&chars("abc"), &chars("abc")), chars(""));
    assert_eq!(remove_all(&chars("abc"), &chars("abcd")), chars("abc"));
    assert_eq!(remove_all(&chars(""), &chars("x")), chars(""));
    for (text, pattern) in [("a=b=c", "="), ("aaa", "aa"), ("ababa", "aba"), ("xyz", "")] {
        assert_eq!(
            from_chars(&remove_all(&chars(text), &chars(pattern))),
            text.replace(pattern, "")
        );
    }
}

#[test]
fn trim_cuts_white_space_at_both_ends() {
    assert_eq!(trim("  a b \t\r\n"), "a b");
    assert_eq!(trim("ab"), "ab");
    assert_eq!(trim(""), "");
    assert_eq!(trim(" \n\t "), "");
    assert_eq!(trim("\u{a0}x\u{3000}"), "x");
    assert_eq!(trim_chars(&chars(" x ")), chars("x"));
    for text in ["  a b \t\r\n", "", " ", "x", "\u{2003}k\u{85}"] {
        assert_eq!(trim(text), text.trim());
    }
}

fn in_white_space_list(n: u32) -> bool {
    (0x09..=0x0d).contains(&n)
        || n == 0x20
        || n == 0x85
        || n == 0xa0
        || n == 0x1680
        || (0x2000..=0x200a).contains(&n)
        || n == 0x2028
        || n == 0x2029
        || n == 0x202f
        || n == 0x205f
        || n == 0x3000
}

#[test]
fn trim_cuts_exactly_the_white_space_characters() {
    let mut points: Vec<u32> = (0u32..=0xffff).collect();
    for plane in 1u32..=16 {
        points.push(plane * 0x10000);
        points.push(plane * 0x10000 + 0x2000);
        points.push(plane * 0x10000 + 0xffff);
    }
    for n in points {
        if let Some(c) = char::from_u32(n) {
            let alone = c.to_string();
            assert_eq!(trim(&alone).is_empty(), in_white_space_list(n), "U+{:04X}", n);
        }
    }
}

#[test]
fn trim_keeps_white_space_inside() {
    assert_eq!(trim("\u{2028}a\u{205f} \u{1680}b\u{202f}"), "a\u{205f} \u{1680}b");
    assert_eq!(trim("\u{200b}x\u{200b}"), "\u{200b}x\u{200b}");
}
