//! Whether a text reads the same in both directions, letters only and
//! without regard to case.

use vstd::prelude::*;
use vstd::string::*;
use vstd::utf8::encode_utf8;

use crate::text::{chars_of, string_of};

verus! {

/// Whether the lowest byte of the code point of `c` is that of a Latin
/// letter. Of the characters of ASCII these are the letters.
pub open spec fn counts_as_letter(c: char) -> bool {
    let low = (c as u32) % 256;
    (97 <= low <= 122) || (65 <= low <= 90)
}

/// The lower-case form of an upper-case Latin letter; any other character
/// itself.
pub open spec fn lower_case(c: char) -> char {
    if 'A' <= c <= 'Z' {
        ((c as u8) + 32) as char
    } else {
        c
    }
}

/// The characters of `s` that count as letters, in lower case.
pub open spec fn letters(s: Seq<char>) -> Seq<char>
    decreases s.len(),
{
    if s.len() == 0 {
        Seq::<char>::empty()
    } else {
        let front = letters(s.drop_last());
        if counts_as_letter(s.last()) {
            front.push(lower_case(s.last()))
        } else {
            front
        }
    }
}

/// The character at position `i`, if there is one.
pub open spec fn at(t: Seq<char>, i: int) -> Option<char> {
    if 0 <= i < t.len() {
        Some(t[i])
    } else {
        None
    }
}

/// Whether `t` reads the same from both ends, where the positions that are
/// compared are counted over the length of `t` in UTF-8 bytes: for every
/// position in the first half of that length, the character there and the
/// one as far from the end are the same, or both are missing.
///
/// For a text of ASCII this says that the text equals its reverse.
pub open spec fn mirrored(t: Seq<char>) -> bool {
    let n = encode_utf8(t).len() as int;
    forall|i: int| 0 <= i < n / 2 ==> at(t, i) == #[trigger] at(t, n - 1 - i)
}

/// The lower-case form of `c`.
fn to_lower(c: char) -> (r: char)
    ensures
        r == lower_case(c),
{
    if c >= 'A' && c <= 'Z' {
        ((c as u8) + 32) as char
    } else {
        c
    }
}

/// Whether `c` counts as a letter.
fn is_letter(c: char) -> (r: bool)
    ensures
        r == counts_as_letter(c),
{
    let low: u32 = (c as u32) % 256;
    (low >= 97 && low <= 122) || (low >= 65 && low <= 90)
}

/// The character of `t` at position `i`, if there is one.
fn nth(t: &Vec<char>, i: usize) -> (r: Option<char>)
    ensures
        r == at(t@, i as int),
{
    if i < t.len() {
        Some(t[i])
    } else {
        None
    }
}

/// Whether `s` is a palindrome: its letters, in lower case, read the same
/// forward and backward. Characters that are not letters are passed over.
pub fn is_palindrome(s: String) -> (r: bool)
    ensures
        r == mirrored(letters(s@)),
{
    let chars = chars_of(s.as_str());
    let mut kept: Vec<char> = Vec::new();
    let mut k: usize = 0;
    proof {
        assert(chars@.take(0) =~= Seq::<char>::empty());
    }
    while k < chars.len()
        invariant
            k <= chars.len(),
            kept@ == letters(chars@.take(k as int)),
        decreases chars.len() - k,
    {
        proof {
            assert(chars@.take(k + 1).drop_last() =~= chars@.take(k as int));
        }
        let c: char = chars[k];
        if is_letter(c) {
            kept.push(to_lower(c));
        }
        k = k + 1;
    }
    proof {
        assert(chars@.take(chars.len() as int) =~= chars@);
    }
    let text = string_of(&kept);
    let n: usize = text.as_str().as_bytes().len();
    let len: usize = n / 2;
    let len_rest: usize = n % 2;
    let mut i: usize = 0;
    while i < len
        invariant
            i <= len,
            len == n / 2,
            len_rest == n % 2,
            n == encode_utf8(kept@).len(),
            kept@ == letters(s@),
            forall|j: int| 0 <= j < i ==> at(kept@, j) == #[trigger] at(kept@, n - 1 - j),
        decreases len - i,
    {
        if nth(&kept, i) != nth(&kept, len * 2 - i + len_rest - 1) {
            assert(at(kept@, i as int) != at(kept@, n - 1 - i));
            return false;
        }
        i = i + 1;
    }
    true
}

} // verus!
