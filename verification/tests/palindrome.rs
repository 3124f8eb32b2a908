use exercises::palindrome::is_palindrome;

#[test]
fn test_palindrome_1() {
    let s = "A man, a plan, a canal, Panama".to_string();
    let result = is_palindrome(s);
    println!("Is palindrome: {}", result);
    assert_eq!(result, true);
}

#[test]
fn test_palindrome_2() {
    let s = "Racecar".to_string();
    let result = is_palindrome(s);
    println!("Is palindrome: {}", result);
    assert_eq!(result, true);
}

#[test]
fn test_palindrome_3() {
    let s = "Hello, World!".to_string();
    let result = is_palindrome(s);
    println!("Is palindrome: {}", result);
    assert_eq!(result, false);
}

#[test]
fn test_palindrome_4() {
    let s = "No 'x' in Nixon".to_string();
    let result = is_palindrome(s);
    println!("Is palindrome: {}", result);
    assert_eq!(result, true);
}

#[test]
fn test_palindrome_5() {
    let s = "Was it a car or a cat I saw?".to_string();
    let result = is_palindrome(s);
    println!("Is palindrome: {}", result);
    assert_eq!(result, true);
}

#[test]
fn texts_without_letters_are_palindromes() {
    assert!(is_palindrome("".to_string()));
    assert!(is_palindrome("12321".to_string()));
    assert!(is_palindrome("1234".to_string()));
    assert!(is_palindrome("., !?".to_string()));
    assert!(is_palindrome("日本語".to_string()));
}

#[test]
fn short_texts() {
    assert!(is_palindrome("a".to_string()));
    assert!(is_palindrome("Aa".to_string()));
    assert!(!is_palindrome("ab".to_string()));
    assert!(is_palindrome("a1b2a".to_string()));
    assert!(!is_palindrome("abca".to_string()));
    assert!(is_palindrome("ab-BA".to_string()));
}

#[test]
fn characters_outside_ascii_count_by_their_lowest_byte() {
    // U+0161 ends in the byte 0x61, so it is kept; it takes two bytes, and
    // the second position holds no character to compare it with.
    assert!(!is_palindrome("\u{161}".to_string()));
    // U+00E9 ends in 0xE9 and is passed over.
    assert!(is_palindrome("a\u{e9}a".to_string()));
    // Kept, and compared over four bytes: the first position holds a
    // character, the fourth none.
    assert!(!is_palindrome("\u{161}\u{161}".to_string()));
}
