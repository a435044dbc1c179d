use basic_http_server::text::{chars_of, find_first, find_last, slice_of, to_decimal};

#[test]
fn decimal_of_small_and_large_numbers() {
    assert_eq!(to_decimal(0), "0");
    assert_eq!(to_decimal(7), "7");
    assert_eq!(to_decimal(10), "10");
    assert_eq!(to_decimal(405), "405");
    assert_eq!(to_decimal(8090), "8090");
    assert_eq!(to_decimal(65535), "65535");
    assert_eq!(to_decimal(18446744073709551615), "18446744073709551615");
    assert_eq!(to_decimal(u128::MAX), "340282366920938463463374607431768211455");
}

#[test]
fn decimal_agrees_with_the_standard_formatting() {
    let mut n: u128 = 1;
    for _ in 0..38 {
        assert_eq!(to_decimal(n), format!("{}", n));
        assert_eq!(to_decimal(n - 1), format!("{}", n - 1));
        n *= 10;
    }
}

#[test]
fn chars_of_keeps_every_character_in_order() {
    assert_eq!(chars_of(""), Vec::<char>::new());
    assert_eq!(chars_of("a/b"), vec!['a', '/', 'b']);
    assert_eq!(chars_of("h\u{e9}llo"), vec!['h', '\u{e9}', 'l', 'l', 'o']);
}

#[test]
fn find_first_gives_the_first_position_or_the_length() {
    assert_eq!(find_first(&chars_of("/a?b?c"), '?'), 2);
    assert_eq!(find_first(&chars_of("?"), '?'), 0);
    assert_eq!(find_first(&chars_of("/abc"), '?'), 4);
    assert_eq!(find_first(&chars_of(""), '?'), 0);
}

#[test]
fn find_last_gives_the_last_position_or_none() {
    assert_eq!(find_last(&chars_of("/a/b/c"), '/'), Some(4));
    assert_eq!(find_last(&chars_of("/"), '/'), Some(0));
    assert_eq!(find_last(&chars_of("abc"), '/'), None);
    assert_eq!(find_last(&chars_of(""), '/'), None);
}

#[test]
fn slice_of_counts_characters_not_bytes() {
    assert_eq!(slice_of("h\u{e9}llo", 1, 3), "\u{e9}l");
    assert_eq!(slice_of("abc", 0, 3), "abc");
    assert_eq!(slice_of("abc", 3, 3), "");
    assert_eq!(slice_of("abc", 1, 1), "");
}
