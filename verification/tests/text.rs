use hephaestus::number::{parse_decimal, Ratio};
use hephaestus::text::{
    chars_of, contains, decimal_string, equals, find, is_space, parse_digits, parse_u64,
    rsplit_once, saturating_mul, split_lines, split_once, split_whitespace, starts_with,
    string_of, trim_matches, trim_start_matches, CharClass,
};

fn chars(s: &str) -> Vec<char> {
    s.chars().collect()
}

fn texts(v: Vec<Vec<char>>) -> Vec<String> {
    v.into_iter().map(|w| w.into_iter().collect()).collect()
}

#[test]
fn chars_and_strings_round_trip() {
    assert_eq!(chars_of("a\u{e9}z"), vec!['a', '\u{e9}', 'z']);
    assert_eq!(chars_of(""), Vec::<char>::new());
    assert_eq!(string_of(&['o', 'k']), "ok");
    assert_eq!(string_of(&chars_of("tank/home")), "tank/home");
}

#[test]
fn whitespace_is_what_the_standard_library_says() {
    for c in [' ', '\t', '\n', '\r', '\u{b}', '\u{c}', '\u{85}', '\u{a0}', '\u{1680}', '\u{2003}', '\u{2028}', '\u{3000}'] {
        assert!(is_space(c));
        assert!(c.is_whitespace());
    }
    for c in ['a', '0', ':', '\u{200b}', '\u{feff}', '\u{0}'] {
        assert!(!is_space(c));
        assert!(!c.is_whitespace());
    }
    for u in 0u32..0x3100 {
        if let Some(c) = char::from_u32(u) {
            assert_eq!(is_space(c), c.is_whitespace());
        }
    }
}

#[test]
fn split_whitespace_matches_the_standard_library() {
    for s in ["cpu  10 20 ", "", "   ", "a", " a\tb\u{a0}c \n", "x  y"] {
        let expected: Vec<String> = s.split_whitespace().map(|w| w.to_string()).collect();
        assert_eq!(texts(split_whitespace(&chars(s))), expected);
    }
}

#[test]
fn split_lines_matches_the_standard_library() {
    for s in ["", "a", "a\n", "a\nb", "a\r\nb\r\n", "\n", "a\n\nb", "a\r", "a\r\n\r", "\r\n", "x\ry\n"] {
        let expected: Vec<String> = s.lines().map(|w| w.to_string()).collect();
        assert_eq!(texts(split_lines(&chars(s))), expected, "for {:?}", s);
    }
}

#[test]
fn parse_u64_matches_the_standard_library() {
    for s in ["0", "7", "007", "+5", "18446744073709551615", "18446744073709551616", "", "+", "-1", "1a", " 1", "++1", "99999999999999999999999"] {
        assert_eq!(parse_u64(&chars(s)), s.parse::<u64>().ok(), "for {:?}", s);
    }
    assert_eq!(parse_u64(&chars("1100980")), Some(1100980));
    assert_eq!(parse_digits(&chars("+5")), None);
    assert_eq!(parse_digits(&chars("42")), Some(42));
}

#[test]
fn trimming_matches_the_standard_library() {
    for s in ["  a b  ", "", "   ", "a", "\t\nx\r\n"] {
        let got: String = trim_matches(&chars(s), CharClass::Whitespace).into_iter().collect();
        assert_eq!(got, s.trim());
        let got: String = trim_start_matches(&chars(s), CharClass::Whitespace).into_iter().collect();
        assert_eq!(got, s.trim_start());
    }
    for s in ["\"230.4\"", "\"\"", "\"", "a\"b", "\"\"x\"\""] {
        let got: String = trim_matches(&chars(s), CharClass::Exactly('"')).into_iter().collect();
        assert_eq!(got, s.trim_matches('"'));
    }
    let got: String = trim_start_matches(&chars("//web/"), CharClass::Exactly('/')).into_iter().collect();
    assert_eq!(got, "web/");
}

#[test]
fn searching_and_splitting_at_a_character() {
    assert_eq!(find(&chars("a:b:c"), ':', 0), 1);
    assert_eq!(find(&chars("a:b:c"), ':', 2), 3);
    assert_eq!(find(&chars("abc"), ':', 0), 3);
    assert!(contains(&chars("tank@snap"), '@'));
    assert!(!contains(&chars("tank"), '@'));
    let (head, tail) = split_once(&chars("lo: 1 2"), ':').unwrap();
    assert_eq!((string_of(&head), string_of(&tail)), ("lo".to_string(), " 1 2".to_string()));
    assert!(split_once(&chars("nothing"), ':').is_none());
    let (head, tail) = rsplit_once(&chars("61489320 kB"), ' ').unwrap();
    assert_eq!((string_of(&head), string_of(&tail)), ("61489320".to_string(), "kB".to_string()));
    let (head, tail) = rsplit_once(&chars("a b c"), ' ').unwrap();
    assert_eq!((string_of(&head), string_of(&tail)), ("a b".to_string(), "c".to_string()));
    assert!(rsplit_once(&chars("0"), ' ').is_none());
}

#[test]
fn prefixes_and_equality() {
    assert!(starts_with(&chars("cpu0 1 2"), "cpu"));
    assert!(starts_with(&chars("cpu"), "cpu"));
    assert!(!starts_with(&chars("cp"), "cpu"));
    assert!(!starts_with(&chars("intr 1"), "cpu"));
    assert!(starts_with(&chars("anything"), ""));
    assert!(equals(&chars("kB"), "kB"));
    assert!(!equals(&chars("kB "), "kB"));
    assert!(!equals(&chars("mB"), "kB"));
}

#[test]
fn decimal_strings_read_back() {
    for n in [0u64, 1, 9, 10, 11, 99, 100, 255, 1234567890, u64::MAX] {
        assert_eq!(decimal_string(n), n.to_string());
        assert_eq!(parse_u64(&chars(&decimal_string(n))), Some(n));
    }
}

#[test]
fn multiplication_saturates() {
    assert_eq!(saturating_mul(554989650, 512), 284154700800);
    assert_eq!(saturating_mul(u64::MAX, 2), u64::MAX);
    assert_eq!(saturating_mul(0, u64::MAX), 0);
}

#[test]
fn decimal_notation_is_read_exactly() {
    assert_eq!(parse_decimal(&chars("80")), Some(Ratio { num: 80, den: 1 }));
    assert_eq!(parse_decimal(&chars("230.4")), Some(Ratio { num: 2304, den: 10 }));
    assert_eq!(parse_decimal(&chars("+0.50")), Some(Ratio { num: 50, den: 100 }));
    assert_eq!(parse_decimal(&chars(".5")), Some(Ratio { num: 5, den: 10 }));
    assert_eq!(parse_decimal(&chars("5.")), Some(Ratio { num: 5, den: 1 }));
    assert_eq!(parse_decimal(&chars("0.000000000000000001")), Some(Ratio { num: 1, den: 1_000_000_000_000_000_000 }));
    for s in ["", ".", "+", "-1", "1e3", "inf", "NaN", "1.2.3", "12a", " 1", "0.0000000000000000001", "18446744073709551616"] {
        assert_eq!(parse_decimal(&chars(s)), None, "for {:?}", s);
    }
}
