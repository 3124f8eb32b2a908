//! The longest stretch of a text in which no byte occurs twice.

use std::collections::HashSet;
use vstd::prelude::*;
use vstd::set_lib::{lemma_int_range, lemma_len_subset, set_int_range};
use vstd::string::*;
use vstd::utf8::encode_utf8;

verus! {

broadcast use vstd::std_specs::hash::group_hash_axioms;

/// Whether no byte occurs twice among `s[from..to]`.
pub open spec fn distinct(s: Seq<u8>, from: int, to: int) -> bool {
    forall|a: int, b: int| from <= a < b < to ==> s[a] != s[b]
}

/// Whether some byte occurs twice among `s[from..to]`.
pub open spec fn repeats(s: Seq<u8>, from: int, to: int) -> bool {
    exists|a: int, b: int| from <= a < b < to && s[a] == s[b]
}

/// Whether `b` occurs among `s[from..to]`.
pub open spec fn occurs(s: Seq<u8>, from: int, to: int, b: u8) -> bool {
    exists|k: int| from <= k < to && s[k] == b
}

/// Whether `n` is the length of the longest stretch of `s` in which no byte
/// occurs twice.
pub open spec fn is_longest_distinct(s: Seq<u8>, n: int) -> bool {
    &&& exists|i: int| 0 <= i && i + n <= s.len() && #[trigger] distinct(s, i, i + n)
    &&& forall|i: int, j: int| 0 <= i <= j <= s.len() && #[trigger] distinct(s, i, j) ==> j - i <= n
}

/// A stretch without a repeated byte is at most 256 bytes long.
pub proof fn lemma_distinct_is_short(s: Seq<u8>, from: int, to: int)
    requires
        0 <= from <= to <= s.len(),
        distinct(s, from, to),
    ensures
        to - from <= 256,
{
    let t = Seq::new((to - from) as nat, |k: int| s[from + k] as int);
    assert(t.no_duplicates());
    t.unique_seq_to_set();
    lemma_int_range(0, 256);
    assert(t.to_set().subset_of(set_int_range(0, 256))) by {
        assert forall|v: int| t.to_set().contains(v) implies set_int_range(0, 256).contains(v) by {
            let k = choose|k: int| 0 <= k < t.len() && t[k] == v;
            assert(t[k] == s[from + k] as int);
        }
    }
    lemma_len_subset(t.to_set(), set_int_range(0, 256));
}

/// A stretch with a repeated byte keeps it when it is widened.
pub proof fn lemma_repeats_widen(s: Seq<u8>, from: int, to: int, wider_from: int, wider_to: int)
    requires
        wider_from <= from,
        to <= wider_to,
        repeats(s, from, to),
    ensures
        repeats(s, wider_from, wider_to),
{
    let (a, b) = choose|a: int, b: int| from <= a < b < to && s[a] == s[b];
    assert(wider_from <= a < b < wider_to && s[a] == s[b]);
}

/// The length of the longest substring of `s` without a repeated byte.
///
/// A window is moved over the bytes of the text: its right end takes in the
/// next byte, after its left end has given up bytes until that byte is not
/// in the window any more. The longest window seen is the answer.
pub fn longest_substring_without_repeating_chars(s: String) -> (r: i32)
    ensures
        is_longest_distinct(encode_utf8(s@), r as int),
{
    let text = s.as_str();
    let bytes = text.as_bytes();
    let mut left: usize = 0;
    let mut max_len: usize = 0;
    let mut char_set: HashSet<u8> = HashSet::new();
    let mut right: usize = 0;
    assert(distinct(bytes@, 0int, 0int + 0));
    while right < bytes.len()
        invariant
            left <= right <= bytes.len(),
            bytes@ == encode_utf8(s@),
            distinct(bytes@, left as int, right as int),
            left > 0 ==> repeats(bytes@, left - 1, right as int),
            forall|b: u8| char_set@.contains(b) <==> occurs(bytes@, left as int, right as int, b),
            forall|i: int, j: int|
                0 <= i <= j <= right && #[trigger] distinct(bytes@, i, j) ==> j - i <= max_len,
            exists|i: int|
                0 <= i && i + max_len <= right && #[trigger] distinct(bytes@, i, i + max_len),
            max_len <= 256,
        decreases bytes.len() - right,
    {
        let next: u8 = bytes[right];
        proof {
            if left > 0 {
                lemma_repeats_widen(bytes@, left - 1, right as int, left - 1, right + 1);
            }
        }
        while char_set.contains(&next)
            invariant
                left <= right < bytes.len(),
                next == bytes[right as int],
                distinct(bytes@, left as int, right as int),
                left > 0 ==> repeats(bytes@, left - 1, right + 1),
                forall|b: u8|
                    char_set@.contains(b) <==> occurs(bytes@, left as int, right as int, b),
            decreases right - left,
        {
            proof {
                assert(occurs(bytes@, left as int, right as int, next));
                let k = choose|k: int| left <= k < right && bytes@[k] == next;
                assert(left <= k < right && bytes@[k] == bytes@[right as int]);
                assert(repeats(bytes@, left as int, right + 1));
            }
            let gone: u8 = bytes[left];
            let ghost before = char_set@;
            char_set.remove(&gone);
            left = left + 1;
            proof {
                assert forall|b: u8| char_set@.contains(b) <==> occurs(
                    bytes@,
                    left as int,
                    right as int,
                    b,
                ) by {
                    if occurs(bytes@, left as int, right as int, b) {
                        let k = choose|k: int| left <= k < right && bytes@[k] == b;
                        assert(left - 1 <= k < right && bytes@[k] == b);
                        assert(occurs(bytes@, left - 1, right as int, b));
                        assert(bytes@[left - 1] != bytes@[k]);
                    }
                    if char_set@.contains(b) {
                        assert(before.contains(b) && b != gone);
                        assert(occurs(bytes@, left - 1, right as int, b));
                        let k = choose|k: int| left - 1 <= k < right && bytes@[k] == b;
                        assert(left <= k < right && bytes@[k] == b);
                    }
                }
            }
        }
        proof {
            assert(!occurs(bytes@, left as int, right as int, next));
            assert(distinct(bytes@, left as int, right + 1)) by {
                assert forall|a: int, b: int| left <= a < b < right + 1 implies bytes@[a]
                    != bytes@[b] by {
                    if b == right {
                        if bytes@[a] == bytes@[b] {
                            assert(occurs(bytes@, left as int, right as int, next));
                        }
                    }
                }
            }
            lemma_distinct_is_short(bytes@, left as int, right + 1);
        }
        let ghost before = char_set@;
        char_set.insert(next);
        let width: usize = right - left + 1;
        proof {
            assert forall|b: u8| char_set@.contains(b) <==> occurs(
                bytes@,
                left as int,
                right + 1,
                b,
            ) by {
                if occurs(bytes@, left as int, right + 1, b) {
                    let k = choose|k: int| left <= k < right + 1 && bytes@[k] == b;
                    if k < right {
                        assert(occurs(bytes@, left as int, right as int, b));
                    }
                }
                if char_set@.contains(b) && b != next {
                    assert(before.contains(b));
                    let k = choose|k: int| left <= k < right && bytes@[k] == b;
                    assert(left <= k < right + 1 && bytes@[k] == b);
                }
                if b == next {
                    assert(left <= right < right + 1 && bytes@[right as int] == b);
                }
            }
            assert forall|i: int, j: int|
                0 <= i <= j <= right + 1 && #[trigger] distinct(bytes@, i, j) implies j - i <= (
            if max_len < width {
                width
            } else {
                max_len
            }) by {
                if j == right + 1 && i < left {
                    let (a, b) = choose|a: int, b: int|
                        left - 1 <= a < b < right + 1 && bytes@[a] == bytes@[b];
                    assert(i <= a < b < j);
                }
            }
            if max_len < width {
                assert(distinct(bytes@, left as int, left + width));
            } else {
                let i = choose|i: int|
                    0 <= i && i + max_len <= right && #[trigger] distinct(bytes@, i, i + max_len);
                assert(distinct(bytes@, i, i + max_len));
            }
        }
        if max_len < width {
            max_len = width;
        }
        right = right + 1;
    }
    max_len as i32
}

} // verus!
