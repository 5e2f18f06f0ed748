use siscom_consumer::text::{
    chars_of, format_decimal, format_signed, join, parse_bool, parse_i32, parse_i64,
    parse_integer, prefix, same_text, split_once, split_trimmed, trim,
};

#[test]
fn chars_of_keeps_every_character() {
    assert_eq!(chars_of("añ€"), vec!['a', 'ñ', '€']);
    assert_eq!(chars_of(""), Vec::<char>::new());
}

#[test]
fn parse_i64_reads_plain_and_signed_numbers() {
    assert_eq!(parse_i64("0"), Some(0));
    assert_eq!(parse_i64("1700000000"), Some(1_700_000_000));
    assert_eq!(parse_i64("+42"), Some(42));
    assert_eq!(parse_i64("-42"), Some(-42));
    assert_eq!(parse_i64("-0"), Some(0));
    assert_eq!(parse_i64("007"), Some(7));
}

#[test]
fn parse_i64_agrees_with_std_at_the_limits() {
    assert_eq!(parse_i64("9223372036854775807"), Some(i64::MAX));
    assert_eq!(parse_i64("-9223372036854775808"), Some(i64::MIN));
    assert_eq!(parse_i64("9223372036854775808"), None);
    assert_eq!(parse_i64("-9223372036854775809"), None);
    assert_eq!(parse_i64("99999999999999999999999999999999999999999"), None);
    assert_eq!(parse_i64("0000000000000000000000000000000000000000012"), Some(12));
}

#[test]
fn parse_i64_rejects_what_is_no_number() {
    for text in ["", "+", "-", " 5", "5 ", "1.5", "1e3", "0x10", "--1", "+-1", "12a", "١٢"] {
        assert_eq!(parse_i64(text), None, "{:?}", text);
        assert_eq!(parse_i64(text), text.parse::<i64>().ok(), "{:?}", text);
    }
}

#[test]
fn parse_i32_keeps_to_its_range() {
    assert_eq!(parse_i32("2147483647"), Some(i32::MAX));
    assert_eq!(parse_i32("-2147483648"), Some(i32::MIN));
    assert_eq!(parse_i32("2147483648"), None);
    assert_eq!(parse_i32("-2147483649"), None);
    assert_eq!(parse_i32("+15"), Some(15));
    assert_eq!(parse_i32(""), None);
}

#[test]
fn parse_integer_follows_std_on_many_texts() {
    let texts = [
        "0", "1", "-1", "+1", "65535", "65536", "-65536", "4294967295", "4294967296", "abc", "",
        "+", "-", "00", "-00", "+0", "18446744073709551615", "18446744073709551616", "3 ", "٣",
    ];
    for text in texts {
        assert_eq!(
            parse_integer(text, false, 0, 65535).map(|v| v as u16),
            text.parse::<u16>().ok(),
            "{:?}",
            text
        );
        assert_eq!(
            parse_integer(text, false, 0, u64::MAX as i128).map(|v| v as u64),
            text.parse::<u64>().ok(),
            "{:?}",
            text
        );
        assert_eq!(
            parse_integer(text, true, i32::MIN as i128, i32::MAX as i128).map(|v| v as i32),
            text.parse::<i32>().ok(),
            "{:?}",
            text
        );
    }
}

#[test]
fn unsigned_numbers_take_no_minus() {
    assert_eq!(parse_integer("5432", false, 0, 65535), Some(5432));
    assert_eq!(parse_integer("+5432", false, 0, 65535), Some(5432));
    assert_eq!(parse_integer("-0", false, 0, 65535), None);
    assert_eq!(parse_integer("65536", false, 0, 65535), None);
    assert_eq!(parse_integer("-0", true, -5, 65535), Some(0));
    assert_eq!(parse_integer("-6", true, -5, 65535), None);
}

#[test]
fn format_decimal_writes_digits() {
    assert_eq!(format_decimal(0), "0");
    assert_eq!(format_decimal(7), "7");
    assert_eq!(format_decimal(10), "10");
    assert_eq!(format_decimal(5432), "5432");
    assert_eq!(format_decimal(u64::MAX), "18446744073709551615");
}

#[test]
fn format_signed_writes_the_sign() {
    assert_eq!(format_signed(3), "3");
    assert_eq!(format_signed(0), "0");
    assert_eq!(format_signed(-3), "-3");
    assert_eq!(format_signed(i64::MIN), "-9223372036854775808");
    assert_eq!(format_signed(i64::MAX), "9223372036854775807");
}

#[test]
fn formatted_numbers_read_back() {
    for n in [0u64, 1, 9, 10, 99, 100, 12345, 4294967295] {
        assert_eq!(parse_integer(&format_decimal(n), false, 0, u64::MAX as i128), Some(n as i128));
    }
}

#[test]
fn prefix_counts_characters() {
    assert_eq!(prefix("abcdef", 3), "abc");
    assert_eq!(prefix("abc", 3), "abc");
    assert_eq!(prefix("ab", 3), "ab");
    assert_eq!(prefix("ñandú", 2), "ña");
    assert_eq!(prefix("abc", 0), "");
}

#[test]
fn same_text_compares_characters() {
    assert!(same_text("ALERT", "ALERT"));
    assert!(!same_text("ALERT", "alert"));
    assert!(!same_text("ALERT", "ALERT "));
    assert!(same_text("", ""));
}

#[test]
fn join_puts_the_separator_between() {
    assert_eq!(join(&vec![], ","), "");
    assert_eq!(join(&vec!["a".to_string()], ","), "a");
    assert_eq!(join(&vec!["a".to_string(), "b".to_string(), "c".to_string()], ", "), "a, b, c");
    assert_eq!(join(&vec!["".to_string(), "".to_string()], ","), ",");
}

#[test]
fn trim_takes_white_space_off_both_ends() {
    assert_eq!(trim("  a b \t\n"), "a b");
    assert_eq!(trim(""), "");
    assert_eq!(trim(" \u{a0}\u{2003}\u{3000} "), "");
    assert_eq!(trim("\u{85}x\u{205f}"), "x");
    assert_eq!(trim("\u{200b}x"), "\u{200b}x");
    for text in [" x ", "x", "\u{1680}x\u{2028}\u{2029}\u{202f}", "\u{b}\u{c}\r x", "\u{1c}x"] {
        assert_eq!(trim(text), text.trim(), "{:?}", text);
    }
}

#[test]
fn split_once_cuts_at_the_first_separator() {
    assert_eq!(split_once("host:1883", ':'), Some(("host", "1883")));
    assert_eq!(split_once("host:1883:x", ':'), Some(("host", "1883:x")));
    assert_eq!(split_once(":1883", ':'), Some(("", "1883")));
    assert_eq!(split_once("host:", ':'), Some(("host", "")));
    assert_eq!(split_once("host", ':'), None);
    assert_eq!(split_once("", ':'), None);
}

#[test]
fn split_trimmed_gives_every_piece() {
    assert_eq!(split_trimmed("a:9092, b:9092 ,c", ','), vec!["a:9092", "b:9092", "c"]);
    assert_eq!(split_trimmed("localhost:9092", ','), vec!["localhost:9092"]);
    assert_eq!(split_trimmed("", ','), vec![""]);
    assert_eq!(split_trimmed(",", ','), vec!["", ""]);
    assert_eq!(split_trimmed("a,,b,", ','), vec!["a", "", "b", ""]);
}

#[test]
fn parse_bool_takes_the_two_words_only() {
    assert_eq!(parse_bool("true"), Some(true));
    assert_eq!(parse_bool("false"), Some(false));
    assert_eq!(parse_bool("True"), None);
    assert_eq!(parse_bool("1"), None);
    assert_eq!(parse_bool(""), None);
    assert_eq!(parse_bool(" true"), None);
}
