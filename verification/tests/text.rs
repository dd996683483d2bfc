use dlrs::decimal::{i64_to_decimal, parse_i64, parse_u64, u64_to_decimal};
use dlrs::path::{get_data_path, get_site_from_filepath, join_path};
use dlrs::error::Error;
use dlrs::text::{char_is_whitespace, chars_of, concat_str, str_equal, string_of};

#[test]
fn decimal_text_of_numbers() {
    assert_eq!(u64_to_decimal(0), "0");
    assert_eq!(u64_to_decimal(9), "9");
    assert_eq!(u64_to_decimal(10), "10");
    assert_eq!(u64_to_decimal(1000), "1000");
    assert_eq!(u64_to_decimal(u64::MAX), "18446744073709551615");
    assert_eq!(i64_to_decimal(0), "0");
    assert_eq!(i64_to_decimal(-1), "-1");
    assert_eq!(i64_to_decimal(42), "42");
    assert_eq!(i64_to_decimal(i64::MIN), "-9223372036854775808");
    assert_eq!(i64_to_decimal(i64::MAX), "9223372036854775807");
}

#[test]
fn parse_u64_reads_decimal() {
    assert_eq!(parse_u64("0"), Some(0));
    assert_eq!(parse_u64("1000"), Some(1000));
    assert_eq!(parse_u64("+7"), Some(7));
    assert_eq!(parse_u64("007"), Some(7));
    assert_eq!(parse_u64("18446744073709551615"), Some(u64::MAX));
}

#[test]
fn parse_u64_rejects_what_is_no_number() {
    assert_eq!(parse_u64(""), None);
    assert_eq!(parse_u64("+"), None);
    assert_eq!(parse_u64("-1"), None);
    assert_eq!(parse_u64("-0"), None);
    assert_eq!(parse_u64("12a"), None);
    assert_eq!(parse_u64(" 12"), None);
    assert_eq!(parse_u64("1_000"), None);
    assert_eq!(parse_u64("18446744073709551616"), None);
    assert_eq!(parse_u64("99999999999999999999999"), None);
    assert_eq!(parse_u64("٣"), None);
}

#[test]
fn parse_i64_reads_signed_decimal() {
    assert_eq!(parse_i64("0"), Some(0));
    assert_eq!(parse_i64("-0"), Some(0));
    assert_eq!(parse_i64("+15"), Some(15));
    assert_eq!(parse_i64("-15"), Some(-15));
    assert_eq!(parse_i64("9223372036854775807"), Some(i64::MAX));
    assert_eq!(parse_i64("-9223372036854775808"), Some(i64::MIN));
}

#[test]
fn parse_i64_rejects_what_is_no_number() {
    assert_eq!(parse_i64(""), None);
    assert_eq!(parse_i64("-"), None);
    assert_eq!(parse_i64("+"), None);
    assert_eq!(parse_i64("--1"), None);
    assert_eq!(parse_i64("+-1"), None);
    assert_eq!(parse_i64("1.0"), None);
    assert_eq!(parse_i64("9223372036854775808"), None);
    assert_eq!(parse_i64("-9223372036854775809"), None);
}

#[test]
fn decimal_round_trip() {
    for v in [0i64, 1, -1, 99, -100, 123456789, i64::MIN, i64::MAX] {
        assert_eq!(parse_i64(&i64_to_decimal(v)), Some(v));
    }
    for v in [0u64, 1, 10, 18, u64::MAX] {
        assert_eq!(parse_u64(&u64_to_decimal(v)), Some(v));
    }
}

#[test]
fn text_helpers() {
    assert_eq!(chars_of("aé"), vec!['a', 'é']);
    assert_eq!(string_of(&vec!['x', 'y']), "xy");
    assert_eq!(concat_str("ab", "cd"), "abcd");
    assert!(str_equal("id", "id"));
    assert!(!str_equal("id", "idx"));
    assert!(!str_equal("id", "iD"));
    assert!(str_equal("", ""));
    for c in [' ', '\t', '\n', '\r', '\u{b}', '\u{c}', '\u{85}', '\u{a0}', '\u{3000}', '\u{2003}'] {
        assert!(char_is_whitespace(c));
        assert!(c.is_whitespace());
    }
    for c in ['a', '#', '_', '\u{200b}', '0'] {
        assert!(!char_is_whitespace(c));
    }
}

#[test]
fn whitespace_agrees_with_the_standard_library() {
    let mut c = 0u32;
    while c < 0x3100 {
        if let Some(ch) = char::from_u32(c) {
            assert_eq!(char_is_whitespace(ch), ch.is_whitespace());
        }
        c += 1;
    }
}

#[test]
fn data_path_is_the_archive_without_extension() {
    assert_eq!(get_data_path("./data/acme.7z"), "./data/acme");
    assert_eq!(get_data_path("data/tor.stackexchange.com.7z"), "data/tor.stackexchange.com");
    assert_eq!(get_data_path("acme.7z"), "acme");
    assert_eq!(get_data_path("/abs/dir/acme.7z"), "/abs/dir/acme");
}

#[test]
fn data_path_edge_cases() {
    assert_eq!(get_data_path("data/acme"), "data/acme");
    assert_eq!(get_data_path("data/.hidden"), "data/.hidden");
    assert_eq!(get_data_path("da.ta/acme"), "da.ta/acme");
    assert_eq!(get_data_path("data/acme."), "data/acme");
    assert_eq!(get_data_path(""), "");
    assert_eq!(get_data_path("data/"), "data/");
}

#[test]
fn site_is_the_name_of_the_containing_directory() {
    assert_eq!(get_site_from_filepath("data/acme/Posts.xml"), Ok("acme".to_string()));
    assert_eq!(get_site_from_filepath("acme/Posts.xml"), Ok("acme".to_string()));
    assert_eq!(
        get_site_from_filepath("./data/tor.stackexchange.com/Posts.xml"),
        Ok("tor.stackexchange".to_string())
    );
    assert_eq!(get_site_from_filepath("data/acme//Posts.xml"), Ok("acme".to_string()));
    assert_eq!(get_site_from_filepath("data/.acme/Posts.xml"), Ok(".acme".to_string()));
}

#[test]
fn site_of_a_path_without_directory_fails() {
    let failure = Err(Error::Message("Could not retrieve site".to_string()));
    assert_eq!(get_site_from_filepath("Posts.xml"), failure);
    assert_eq!(get_site_from_filepath("/Posts.xml"), failure);
    assert_eq!(get_site_from_filepath(""), failure);
    assert_eq!(get_site_from_filepath("../Posts.xml"), failure);
    assert_eq!(get_site_from_filepath("a/../Posts.xml"), failure);
}

#[test]
fn join_path_puts_one_separator() {
    assert_eq!(join_path("./data", "acme.7z"), "./data/acme.7z");
    assert_eq!(join_path("./data/", "acme.7z"), "./data/acme.7z");
    assert_eq!(join_path("", "acme.7z"), "acme.7z");
    assert_eq!(join_path("./data", "/abs/acme.7z"), "/abs/acme.7z");
    assert_eq!(join_path("./data", ""), "./data/");
}
