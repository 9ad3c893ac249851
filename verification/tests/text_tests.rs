use youtube_lounge_rs::settings::{count_setting, number_setting};
use youtube_lounge_rs::text::{
    format_i64, format_u64, is_blank, is_whitespace, parse_i32, parse_u64, parse_usize, same_chars,
    trim_str,
};
use youtube_lounge_rs::youtube_parse::{parse_bool, parse_int, parse_list};

#[test]
fn whitespace_agrees_with_std_for_every_char() {
    for n in 0u32..=0x10FFFF {
        if let Some(c) = char::from_u32(n) {
            assert_eq!(is_whitespace(c), c.is_whitespace(), "code point {:#x}", n);
        }
    }
}

#[test]
fn trim_agrees_with_std() {
    for s in ["", "  ", " a ", "\u{3000}x\u{a0}", "\t\nab c\r\n", "abc", "\u{85}1\u{2029}"] {
        assert_eq!(trim_str(s), s.trim());
        assert_eq!(is_blank(s), s.trim().is_empty());
    }
}

#[test]
fn parse_i32_agrees_with_std() {
    for s in [
        "0", "42", "-1", "+7", "-", "+", "", " 1", "1 ", "2147483647", "2147483648", "-2147483648",
        "-2147483649", "007", "-0", "1.5", "abc", "12a", "99999999999999999999",
    ] {
        assert_eq!(parse_i32(s), s.parse::<i32>().ok(), "input {:?}", s);
    }
}

#[test]
fn parse_unsigned_agrees_with_std() {
    for s in [
        "0", "18446744073709551615", "18446744073709551616", "+5", "-5", "", "+", "12x", "0012",
    ] {
        assert_eq!(parse_u64(s), s.parse::<u64>().ok(), "input {:?}", s);
        assert_eq!(parse_usize(s), s.parse::<usize>().ok(), "input {:?}", s);
    }
}

#[test]
fn decimal_formatting_round_trips() {
    for n in [0i64, 7, 10, 99, 100, -1, -10, 123456789, i64::MAX, i64::MIN] {
        assert_eq!(format_i64(n), n.to_string());
    }
    for n in [0u64, 9, 10, 65535, u64::MAX] {
        assert_eq!(format_u64(n), n.to_string());
        assert_eq!(parse_u64(&format_u64(n)), Some(n));
    }
    for n in [0i32, 1, -1, 50, i32::MAX, i32::MIN] {
        assert_eq!(parse_i32(&format_i64(n as i64)), Some(n));
    }
}

#[test]
fn youtube_value_parsing() {
    assert_eq!(parse_int("42"), 42);
    assert_eq!(parse_int("not_a_number"), 0);
    assert_eq!(parse_int("-3"), -3);
    assert!(parse_bool("true"));
    assert!(!parse_bool("false"));
    assert!(!parse_bool("True"));
    assert!(!parse_bool("anything_else"));
    assert_eq!(parse_list("item1,item2,item3"), vec!["item1", "item2", "item3"]);
    assert_eq!(parse_list(" a , b ,"), vec!["a", "b", ""]);
    assert_eq!(parse_list(""), vec![""]);
    assert_eq!(parse_list("[0,1080,720]"), vec!["[0", "1080", "720]"]);
}

#[test]
fn same_chars_compares_contents() {
    assert!(same_chars("abc", "abc"));
    assert!(!same_chars("abc", "abd"));
    assert!(!same_chars("abc", "ab"));
    assert!(same_chars("", ""));
}

#[test]
fn settings_fall_back_to_defaults() {
    assert_eq!(count_setting(Some("2048"), 16), 2048);
    assert_eq!(count_setting(Some("lots"), 16), 16);
    assert_eq!(count_setting(None, 16), 16);
    assert_eq!(number_setting(Some("+30"), 10), 30);
    assert_eq!(number_setting(Some("-30"), 10), 10);
    assert_eq!(number_setting(None, 500), 500);
}
