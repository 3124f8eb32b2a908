use exercises::substring::longest_substring_without_repeating_chars;

#[test]
fn test_longest_substring_1() {
    let s = "abcabcbb".to_string();
    let result = longest_substring_without_repeating_chars(s);
    println!("Length of longest substring: {}", result);
    assert_eq!(result, 3); // "abc"
}

#[test]
fn test_longest_substring_2() {
    let s = "bbbbb".to_string();
    let result = longest_substring_without_repeating_chars(s);
    println!("Length of longest substring: {}", result);
    assert_eq!(result, 1); // "b"
}

#[test]
fn test_longest_substring_3() {
    let s = "pwwkew".to_string();
    let result = longest_substring_without_repeating_chars(s);
    println!("Length of longest substring: {}", result);
    assert_eq!(result, 3); // "wke"
}

#[test]
fn test_longest_substring_4() {
    let s = "".to_string();
    let result = longest_substring_without_repeating_chars(s);
    println!("Length of longest substring: {}", result);
    assert_eq!(result, 0); // Empty string
}

#[test]
fn test_longest_substring_5() {
    let s = "abcde".to_string();
    let result = longest_substring_without_repeating_chars(s);
    println!("Length of longest substring: {}", result);
    assert_eq!(result, 5); // "abcde"
}

#[test]
fn longest_substring_in_the_middle_and_at_the_end() {
    assert_eq!(longest_substring_without_repeating_chars("a".to_string()), 1);
    assert_eq!(longest_substring_without_repeating_chars("abba".to_string()), 2);
    assert_eq!(longest_substring_without_repeating_chars("dvdf".to_string()), 3);
    assert_eq!(longest_substring_without_repeating_chars("tmmzuxt".to_string()), 5);
    assert_eq!(longest_substring_without_repeating_chars("aabcdefa".to_string()), 6);
}

#[test]
fn longest_substring_counts_bytes() {
    // Two bytes each, with the first byte in common.
    assert_eq!(longest_substring_without_repeating_chars("\u{e9}\u{e8}".to_string()), 3);
    // The same character twice: c3 a9 c3 a9.
    assert_eq!(longest_substring_without_repeating_chars("\u{e9}\u{e9}".to_string()), 2);
}

#[test]
fn longest_substring_is_at_most_256_bytes() {
    let mut text = String::new();
    for _ in 0..3 {
        for c in 0..128u8 {
            text.push(c as char);
        }
    }
    assert_eq!(longest_substring_without_repeating_chars(text), 128);
}
