use flow3r_sip_host::text::{
    chars_of, cut, find_char, find_second_word, find_text, is_space_char, measure_word,
    parse_u16, push_decimal, same_text, strip_prefix, take_word, text_of, to_lower,
    to_lower_char, trim, trim_end, trim_start,
};

fn text_chars(text: &str) -> Vec<char> {
    text.chars().collect()
}

fn as_text(chars: &[char]) -> String {
    chars.iter().collect()
}

#[test]
fn chars_and_text_convert_both_ways() {
    assert_eq!(chars_of("a\u{e9}\u{1f600}z"), vec!['a', '\u{e9}', '\u{1f600}', 'z']);
    assert_eq!(chars_of(""), Vec::<char>::new());
    assert_eq!(text_of(&['a', '\u{e9}', '\u{1f600}', 'z']), "a\u{e9}\u{1f600}z");
    assert_eq!(text_of(&[]), "");
}

#[test]
fn white_space_characters() {
    for c in [
        '\t', '\n', '\u{b}', '\u{c}', '\r', ' ', '\u{85}', '\u{a0}', '\u{1680}', '\u{2000}',
        '\u{2003}', '\u{200a}', '\u{2028}', '\u{2029}', '\u{202f}', '\u{205f}', '\u{3000}',
    ] {
        assert!(is_space_char(c), "U+{:04X}", c as u32);
    }
    for c in [
        'a', '0', '\0', '\u{8}', '\u{e}', '\u{1f}', '\u{84}', '\u{86}', '\u{9f}', '\u{a1}',
        '\u{180e}', '\u{1fff}', '\u{200b}', '\u{2027}', '\u{202a}', '\u{2060}', '\u{3001}',
        '\u{feff}',
    ] {
        assert!(!is_space_char(c), "U+{:04X}", c as u32);
    }
}

#[test]
fn white_space_is_what_the_standard_library_calls_white_space() {
    for code in 0u32..=0x10ffff {
        if let Some(c) = char::from_u32(code) {
            assert_eq!(is_space_char(c), c.is_whitespace(), "U+{:04X}", code);
        }
    }
}

#[test]
fn trimming_drops_every_kind_of_white_space() {
    let s = text_chars("\u{a0}\u{2003} a\u{a0}b \u{3000}\u{85}");
    assert_eq!(as_text(trim(&s)), "a\u{a0}b");
    assert_eq!(as_text(trim_start(&s)), "a\u{a0}b \u{3000}\u{85}");
    assert_eq!(as_text(trim_end(&s)), "\u{a0}\u{2003} a\u{a0}b");
    let s = text_chars("m=audio\u{a0}\u{2003}6000\u{3000}RTP/AVP");
    assert_eq!(find_second_word(&s).map(as_text), Some(String::from("6000")));
}

#[test]
fn trimming() {
    assert_eq!(as_text(trim_start(&text_chars(" \t ab c \r\n"))), "ab c \r\n");
    assert_eq!(as_text(trim_end(&text_chars(" \t ab c \r\n"))), " \t ab c");
    assert_eq!(as_text(trim(&text_chars(" \t ab c \r\n"))), "ab c");
    assert_eq!(as_text(trim(&text_chars("abc"))), "abc");
    assert_eq!(as_text(trim(&text_chars("  \r\n "))), "");
    assert_eq!(as_text(trim(&text_chars(""))), "");
}

#[test]
fn lower_case_touches_ascii_capitals_only() {
    assert_eq!(to_lower_char('A'), 'a');
    assert_eq!(to_lower_char('Z'), 'z');
    assert_eq!(to_lower_char('m'), 'm');
    assert_eq!(to_lower_char('@'), '@');
    assert_eq!(to_lower_char('['), '[');
    assert_eq!(to_lower_char('\u{c9}'), '\u{c9}');
    assert_eq!(as_text(&to_lower(&text_chars("WWW-Authenticate: 9\u{c9}"))), "www-authenticate: 9\u{c9}");
    assert_eq!(as_text(&to_lower(&text_chars(""))), "");
}

#[test]
fn comparing_texts() {
    assert!(same_text(&text_chars("abc"), &text_chars("abc")));
    assert!(same_text(&[], &[]));
    assert!(!same_text(&text_chars("abc"), &text_chars("abd")));
    assert!(!same_text(&text_chars("abc"), &text_chars("ab")));
    assert!(!same_text(&text_chars("ab"), &text_chars("abc")));
}

#[test]
fn stripping_a_prefix() {
    let s = text_chars("c=IN IP4 1.2.3.4");
    assert_eq!(strip_prefix(&s, &text_chars("c=IN IP4 ")).map(as_text), Some(String::from("1.2.3.4")));
    assert_eq!(strip_prefix(&s, &text_chars("c=IN IP6 ")), None);
    assert_eq!(strip_prefix(&s, &[]).map(as_text), Some(String::from("c=IN IP4 1.2.3.4")));
    assert_eq!(strip_prefix(&s, &s).map(as_text), Some(String::new()));
    assert_eq!(strip_prefix(&text_chars("c="), &text_chars("c=IN")), None);
}

#[test]
fn finding_a_character() {
    assert_eq!(find_char(&text_chars("a=b=c"), '='), 1);
    assert_eq!(find_char(&text_chars("=a"), '='), 0);
    assert_eq!(find_char(&text_chars("abc"), '='), 3);
    assert_eq!(find_char(&[], '='), 0);
}

#[test]
fn cutting_at_a_character() {
    let s = text_chars("a=b=c");
    let (before, after) = cut(&s, '=');
    assert_eq!(as_text(before), "a");
    assert_eq!(after.map(as_text), Some(String::from("b=c")));
    let s = text_chars("abc");
    let (before, after) = cut(&s, '=');
    assert_eq!(as_text(before), "abc");
    assert_eq!(after, None);
    let s = text_chars("abc=");
    let (before, after) = cut(&s, '=');
    assert_eq!(as_text(before), "abc");
    assert_eq!(after.map(as_text), Some(String::new()));
    let (before, after) = cut(&[], '=');
    assert!(before.is_empty());
    assert_eq!(after, None);
}

#[test]
fn finding_a_text() {
    let sep = text_chars("\r\n\r\n");
    assert_eq!(find_text(&text_chars("ab\r\n\r\ncd"), &sep), 2);
    assert_eq!(find_text(&text_chars("\r\n\r\n"), &sep), 0);
    assert_eq!(find_text(&text_chars("ab\r\n\rcd"), &sep), 7);
    assert_eq!(find_text(&text_chars("\r\n\r"), &sep), 3);
    assert_eq!(find_text(&text_chars("a\r\n\r\nb\r\n\r\n"), &sep), 1);
    assert_eq!(find_text(&[], &sep), 0);
    assert_eq!(find_text(&text_chars("abc"), &[]), 0);
    assert_eq!(find_text(&text_chars("aab"), &text_chars("ab")), 1);
}

#[test]
fn words() {
    assert_eq!(measure_word(&text_chars("m=audio 6000")), 7);
    assert_eq!(measure_word(&text_chars(" x")), 0);
    assert_eq!(measure_word(&text_chars("abc")), 3);
    let s = text_chars("  m=audio \t 6000 RTP/AVP 0\r\n");
    let (word, rest) = take_word(&s);
    assert_eq!(word.map(as_text), Some(String::from("m=audio")));
    assert_eq!(as_text(rest), " \t 6000 RTP/AVP 0\r\n");
    assert_eq!(find_second_word(&s).map(as_text), Some(String::from("6000")));
    assert_eq!(find_second_word(&text_chars("m=audio ")), None);
    assert_eq!(find_second_word(&text_chars("m=audio")), None);
    assert_eq!(find_second_word(&text_chars("  ")), None);
    let s = text_chars("   ");
    let (word, rest) = take_word(&s);
    assert_eq!(word, None);
    assert!(rest.is_empty());
}

#[test]
fn reading_numbers() {
    assert_eq!(parse_u16(&text_chars("0")), Some(0));
    assert_eq!(parse_u16(&text_chars("6000")), Some(6000));
    assert_eq!(parse_u16(&text_chars("65535")), Some(65535));
    assert_eq!(parse_u16(&text_chars("65536")), None);
    assert_eq!(parse_u16(&text_chars("99999999999999999999")), None);
    assert_eq!(parse_u16(&text_chars("007")), Some(7));
    assert_eq!(parse_u16(&text_chars("+80")), Some(80));
    assert_eq!(parse_u16(&text_chars("+")), None);
    assert_eq!(parse_u16(&text_chars("++1")), None);
    assert_eq!(parse_u16(&text_chars("-1")), None);
    assert_eq!(parse_u16(&text_chars("")), None);
    assert_eq!(parse_u16(&text_chars("12a")), None);
    assert_eq!(parse_u16(&text_chars(" 12")), None);
    assert_eq!(parse_u16(&text_chars("1 2")), None);
    assert_eq!(parse_u16(&text_chars("\u{661}")), None);
}

#[test]
fn writing_numbers() {
    for (n, expected) in [(0u32, "0"), (7, "7"), (10, "10"), (65535, "65535"), (4294967295, "4294967295"), (1000000, "1000000")] {
        let mut out = String::from("n=");
        push_decimal(&mut out, n);
        assert_eq!(out, format!("n={}", expected));
    }
}
