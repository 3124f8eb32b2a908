use exercises::conjecture::goldbach_conjecture;
use exercises::converter::{convert_base, is_writable, parse_radix, parse_request, try_convert_base};
use exercises::distinct::new_count_distinct;
use exercises::text::{
    chars_of, comma_join_counts, decimal_digits, parse_number, signed_digits, split_chars,
    string_of,
};

#[test]
fn distinct_fields_are_counted() {
    assert_eq!(new_count_distinct("a,b,c,a,e,cd"), 5);
    assert_eq!(new_count_distinct("3,3,3,11,9,3.14,2.90"), 5);
    assert_eq!(new_count_distinct("a"), 1);
    assert_eq!(new_count_distinct("a,a,a"), 1);
    assert_eq!(new_count_distinct(""), 1);
    assert_eq!(new_count_distinct(","), 1);
    assert_eq!(new_count_distinct("a,"), 2);
    assert_eq!(new_count_distinct(",a,,a"), 2);
    assert_eq!(new_count_distinct("a, a"), 2);
    assert_eq!(new_count_distinct("é,e,é"), 2);
}

#[test]
fn numbers_are_written_in_another_base() {
    assert_eq!(convert_base("10(10)", 2), "1010");
    assert_eq!(convert_base("9(10)", 8), "11");
    assert_eq!(convert_base("11(3)", 5), "4");
    assert_eq!(convert_base("1011(2)", 16), "b");
    assert_eq!(convert_base("ff(16)", 2), "11111111");
    assert_eq!(convert_base("FF(16)", 16), "ff");
    assert_eq!(convert_base("abc(16)", 32), "2ls");
    assert_eq!(convert_base("zz(36)", 36), "zz");
    assert_eq!(convert_base("+17(8)", 10), "15");
    assert_eq!(convert_base("9223372036854775807(10)", 16), "7fffffffffffffff");
    assert_eq!(convert_base("100(10)tail", 10), "100");
    assert_eq!(convert_base("100)10(", 10), "100");
}

#[test]
fn zero_has_no_digits() {
    assert_eq!(convert_base("0(10)", 2), "");
    assert_eq!(convert_base("000(2)", 16), "");
    assert_eq!(convert_base("0(10)", 0), "");
    assert_eq!(convert_base("-0(10)", 1), "");
}

#[test]
fn the_digit_ten_is_written_after_nine() {
    // Ten is counted from the character 0, eleven and more from a.
    assert_eq!(convert_base("10(10)", 16), ":");
    assert_eq!(convert_base("a(16)", 11), ":");
    assert_eq!(convert_base("aa(16)", 16), "::");
    assert_eq!(convert_base("171(10)", 16), ":b");
}

#[test]
fn digits_of_wide_bases_and_of_negative_numbers_are_bytes() {
    // 168 is the largest digit that fits: a + 158 = 255.
    assert_eq!(convert_base("168(10)", 169), "\u{ff}");
    // -90 has the remainder -90 by 100; its lowest byte is 166.
    assert_eq!(convert_base("-90(10)", 100), "\u{fd}");
    // A digit of 266 has the lowest byte 10.
    assert_eq!(convert_base("266(10)", 300), ":");
}

#[test]
fn requests_are_read() {
    assert_eq!(parse_request("ff(16)"), Some(255));
    assert_eq!(parse_request("-ff(16)"), Some(-255));
    assert_eq!(parse_request("-8000000000000000(16)"), Some(i64::MIN));
    assert_eq!(parse_request("8000000000000000(16)"), None);
    assert_eq!(parse_request("7fffffffffffffff(16)"), Some(i64::MAX));
    assert_eq!(parse_request("12(2)"), None);
    assert_eq!(parse_request("12"), None);
    assert_eq!(parse_request("12(1)"), None);
    assert_eq!(parse_request("12(37)"), None);
    assert_eq!(parse_request("12()"), None);
    assert_eq!(parse_request("(10)"), None);
    assert_eq!(parse_request("+(10)"), None);
    assert_eq!(parse_request("1 2(10)"), None);
    assert_eq!(parse_request("12(+10)"), Some(12));
    assert_eq!(parse_request("12(x)"), None);
}

#[test]
fn numerals_are_read_in_a_base() {
    let digits: Vec<char> = "Zz".chars().collect();
    assert_eq!(parse_radix(&digits, 36), Some(35 * 36 + 35));
    assert_eq!(parse_radix(&digits, 35), None);
    let empty: Vec<char> = Vec::new();
    assert_eq!(parse_radix(&empty, 10), None);
    let long: Vec<char> = "11111111111111111111111111111111111111111111111111111111111111111111"
        .chars()
        .collect();
    assert_eq!(parse_radix(&long, 2), None);
    let zeros: Vec<char> = "00000000000000000000000000000000000000000000000000000000000000000001"
        .chars()
        .collect();
    assert_eq!(parse_radix(&zeros, 2), Some(1));
}

#[test]
fn the_conjecture_is_refuted_twice() {
    assert_eq!(goldbach_conjecture(), "5777,5993");
}

#[test]
fn texts_are_cut_at_a_separator() {
    let pieces = split_chars(&chars_of("a-bc--d"), '-');
    let pieces: Vec<String> = pieces.iter().map(string_of).collect();
    assert_eq!(pieces, vec!["a", "bc", "", "d"]);
    assert_eq!(split_chars(&chars_of(""), '-'), vec![Vec::<char>::new()]);
    assert_eq!(split_chars(&chars_of("-"), '-').len(), 2);
    assert_eq!(split_chars(&chars_of("abc"), '-'), vec![vec!['a', 'b', 'c']]);
}

#[test]
fn characters_go_to_strings_and_back() {
    assert_eq!(chars_of("héllo"), vec!['h', 'é', 'l', 'l', 'o']);
    assert_eq!(string_of(&vec!['h', 'é', 'l', 'l', 'o']), "héllo");
    assert_eq!(string_of(&Vec::new()), "");
}

#[test]
fn decimal_numerals_are_written() {
    assert_eq!(string_of(&decimal_digits(0)), "0");
    assert_eq!(string_of(&decimal_digits(7)), "7");
    assert_eq!(string_of(&decimal_digits(10)), "10");
    assert_eq!(string_of(&decimal_digits(u64::MAX)), "18446744073709551615");
    assert_eq!(string_of(&signed_digits(0)), "0");
    assert_eq!(string_of(&signed_digits(-1)), "-1");
    assert_eq!(string_of(&signed_digits(i64::MIN)), "-9223372036854775808");
    assert_eq!(string_of(&signed_digits(i64::MAX)), "9223372036854775807");
    assert_eq!(comma_join_counts(&vec![]), "");
    assert_eq!(comma_join_counts(&vec![3, 0, u64::MAX]), "3,0,18446744073709551615");
}

#[test]
fn decimal_numerals_are_read() {
    assert_eq!(parse_number(&chars_of("0"), 10), Some(0));
    assert_eq!(parse_number(&chars_of("10"), 10), Some(10));
    assert_eq!(parse_number(&chars_of("11"), 10), None);
    assert_eq!(parse_number(&chars_of("+7"), 10), Some(7));
    assert_eq!(parse_number(&chars_of("-7"), 10), None);
    assert_eq!(parse_number(&chars_of("007"), 10), Some(7));
    assert_eq!(parse_number(&chars_of(""), 10), None);
    assert_eq!(parse_number(&chars_of("+"), 10), None);
    assert_eq!(parse_number(&chars_of("7 "), 10), None);
    assert_eq!(parse_number(&chars_of("٧"), 10), None);
    assert_eq!(
        parse_number(&chars_of("99999999999999999999999999999999"), 4294967295),
        None
    );
}

#[test]
fn numbers_are_converted_where_they_can_be() {
    assert_eq!(try_convert_base("ff(16)", 2), Some("11111111".to_string()));
    assert_eq!(try_convert_base("0(10)", 0), Some("".to_string()));
    assert_eq!(try_convert_base("1(10)", 0), None);
    assert_eq!(try_convert_base("1(10)", 1), None);
    assert_eq!(try_convert_base("ff(10)", 2), None);
    assert_eq!(try_convert_base("168(10)", 169), Some("\u{ff}".to_string()));
    // The digit 169 would need the byte 256.
    assert_eq!(try_convert_base("169(10)", 170), None);
    assert_eq!(try_convert_base("-1(10)", 10), None);
    assert_eq!(try_convert_base("-90(10)", 100), Some("\u{fd}".to_string()));
    assert!(is_writable(i64::MAX, 36));
    assert!(is_writable(i64::MAX, 169));
    assert!(!is_writable(i64::MIN, 2));
    assert!(is_writable(0, 2));
}
