use mktcb::text::{parse_usize, render_decimal, split_dots, trim_end};

#[test]
fn decimal_rendering() {
    assert_eq!(render_decimal(0), "0");
    assert_eq!(render_decimal(7), "7");
    assert_eq!(render_decimal(1234), "1234");
    assert_eq!(render_decimal(usize::MAX as u128), usize::MAX.to_string());
    assert_eq!(render_decimal(u128::MAX), u128::MAX.to_string());
}

#[test]
fn reading_unsigned_numbers() {
    assert_eq!(parse_usize("42"), Some(42));
    assert_eq!(parse_usize("+7"), Some(7));
    assert_eq!(parse_usize("007"), Some(7));
    assert_eq!(parse_usize(""), None);
    assert_eq!(parse_usize("+"), None);
    assert_eq!(parse_usize("-1"), None);
    assert_eq!(parse_usize("1a"), None);
    assert_eq!(parse_usize(&usize::MAX.to_string()), Some(usize::MAX));
    assert_eq!(parse_usize("99999999999999999999999"), None);
}

#[test]
fn reading_agrees_with_std() {
    for s in ["0", "12", "+3", "", "-0", " 1", "1 ", "18446744073709551615", "18446744073709551616"] {
        assert_eq!(parse_usize(s), s.parse::<usize>().ok(), "{:?}", s);
    }
}

#[test]
fn trimming_the_end() {
    assert_eq!(trim_end(" a b \n\t"), " a b");
    assert_eq!(trim_end("\u{3000}x\u{3000}"), "\u{3000}x");
    assert_eq!(trim_end("   "), "");
    assert_eq!(trim_end("abc"), "abc");
}

#[test]
fn splitting_on_dots() {
    assert_eq!(split_dots("a..b"), vec!["a", "", "b"]);
    assert_eq!(split_dots(""), vec![""]);
    assert_eq!(split_dots("5.4.2"), vec!["5", "4", "2"]);
    assert_eq!(split_dots(".x."), vec!["", "x", ""]);
}
