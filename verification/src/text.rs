//! Text as sequences of characters: splitting, and decimal numbers read and
//! written.

use vstd::prelude::*;
use vstd::string::*;

verus! {

/// `String::push` appends one character to the end of the string.
pub assume_specification[ std::string::String::push ](s: &mut std::string::String, c: char)
    ensures
        final(s)@ == old(s)@.push(c),
;

/// The characters of `s`, in order.
pub fn chars_of(s: &str) -> (v: Vec<char>)
    ensures
        v@ == s@,
{
    let n: usize = s.unicode_len();
    let mut v: Vec<char> = Vec::new();
    let mut i: usize = 0;
    while i < n
        invariant
            n == s@.len(),
            i <= n,
            v@ == s@.take(i as int),
        decreases n - i,
    {
        v.push(s.get_char(i));
        i = i + 1;
        assert(v@ =~= s@.take(i as int));
    }
    assert(s@.take(n as int) =~= s@);
    v
}

/// The string made of the characters of `v`, in order.
pub fn string_of(v: &Vec<char>) -> (s: String)
    ensures
        s@ == v@,
{
    let mut s: String = String::new();
    let mut i: usize = 0;
    while i < v.len()
        invariant
            i <= v.len(),
            s@ == v@.take(i as int),
        decreases v.len() - i,
    {
        s.push(v[i]);
        i = i + 1;
        assert(s@ =~= v@.take(i as int));
    }
    assert(v@.take(v.len() as int) =~= v@);
    s
}

/// The character that stands for the digit `d`.
pub open spec fn digit_char(d: nat) -> char {
    ((48 + d) as u8) as char
}

/// The decimal numeral of `n`, without leading zeros.
pub open spec fn decimal(n: nat) -> Seq<char>
    decreases n,
{
    if n < 10 {
        seq![digit_char(n)]
    } else {
        decimal(n / 10).push(digit_char(n % 10))
    }
}

/// The decimal numeral of an integer: a minus sign before the digits of a
/// negative one.
pub open spec fn signed_decimal(n: int) -> Seq<char> {
    if n < 0 {
        seq!['-'] + decimal((-n) as nat)
    } else {
        decimal(n as nat)
    }
}

/// The decimal digits of `n`.
pub fn decimal_digits(n: u64) -> (v: Vec<char>)
    ensures
        v@ == decimal(n as nat),
    decreases n,
{
    if n < 10 {
        let mut v: Vec<char> = Vec::new();
        v.push((48u8 + n as u8) as char);
        assert(v@ =~= decimal(n as nat));
        v
    } else {
        let mut v = decimal_digits(n / 10);
        v.push((48u8 + (n % 10) as u8) as char);
        v
    }
}

/// The pieces into which `sep` cuts `s`: one more than there are
/// separators, each possibly empty.
pub open spec fn split(s: Seq<char>, sep: char) -> Seq<Seq<char>>
    decreases s.len(),
{
    if s.len() == 0 {
        seq![Seq::<char>::empty()]
    } else {
        let front = split(s.drop_last(), sep);
        if s.last() == sep {
            front.push(Seq::<char>::empty())
        } else {
            front.drop_last().push(front.last().push(s.last()))
        }
    }
}

/// The pieces of a list of vectors, as sequences.
pub open spec fn pieces_view(pieces: Seq<Vec<char>>) -> Seq<Seq<char>> {
    pieces.map_values(|p: Vec<char>| p@)
}

/// Cuts `v` at every occurrence of `sep`.
pub fn split_chars(v: &Vec<char>, sep: char) -> (pieces: Vec<Vec<char>>)
    ensures
        pieces_view(pieces@) == split(v@, sep),
        pieces.len() >= 1,
{
    let mut pieces: Vec<Vec<char>> = Vec::new();
    let mut current: Vec<char> = Vec::new();
    let mut i: usize = 0;
    proof {
        assert(v@.take(0) =~= Seq::<char>::empty());
        assert(pieces_view(pieces@).push(current@) =~= split(v@.take(0), sep));
    }
    while i < v.len()
        invariant
            i <= v.len(),
            pieces_view(pieces@).push(current@) == split(v@.take(i as int), sep),
        decreases v.len() - i,
    {
        let ghost front = split(v@.take(i as int), sep);
        let ghost done = pieces_view(pieces@);
        let ghost piece = current@;
        proof {
            assert(v@.take(i + 1).drop_last() =~= v@.take(i as int));
            assert(front.drop_last() =~= done);
            assert(front.last() == piece);
        }
        let c: char = v[i];
        if c == sep {
            pieces.push(current);
            current = Vec::new();
            proof {
                assert(pieces_view(pieces@) =~= done.push(piece));
                assert(pieces_view(pieces@).push(current@) =~= front.push(Seq::<char>::empty()));
            }
        } else {
            current.push(c);
            proof {
                assert(pieces_view(pieces@).push(current@) =~= front.drop_last().push(
                    front.last().push(c),
                ));
            }
        }
        i = i + 1;
    }
    proof {
        assert(v@.take(v.len() as int) =~= v@);
    }
    let ghost done = pieces_view(pieces@);
    let ghost piece = current@;
    pieces.push(current);
    proof {
        assert(pieces_view(pieces@) =~= done.push(piece));
    }
    pieces
}

/// Whether `c` is one of the ten decimal digits.
pub open spec fn is_digit(c: char) -> bool {
    '0' <= c <= '9'
}

/// The number that a decimal digit stands for.
pub open spec fn digit_value(c: char) -> nat {
    (c as nat - 48) as nat
}

/// Whether `s` holds decimal digits only.
pub open spec fn all_digits(s: Seq<char>) -> bool {
    forall|i: int| 0 <= i < s.len() ==> is_digit(#[trigger] s[i])
}

/// The number that a sequence of decimal digits stands for; 0 for none.
pub open spec fn digits_value(s: Seq<char>) -> nat
    decreases s.len(),
{
    if s.len() == 0 {
        0
    } else {
        digits_value(s.drop_last()) * 10 + digit_value(s.last())
    }
}

/// What a text reads as a number up to `max`: an optional plus sign, then
/// at least one decimal digit and nothing else, the value not above `max`.
pub open spec fn read_number(s: Seq<char>, max: nat) -> Option<nat> {
    let body = if s.len() > 0 && s[0] == '+' {
        s.skip(1)
    } else {
        s
    };
    if body.len() > 0 && all_digits(body) && digits_value(body) <= max {
        Some(digits_value(body))
    } else {
        None
    }
}

/// The value of a numeral is not below the value of any of its beginnings.
pub proof fn lemma_digits_value_grows(s: Seq<char>, k: int)
    requires
        0 <= k <= s.len(),
    ensures
        digits_value(s.take(k)) <= digits_value(s),
    decreases s.len(),
{
    if k == s.len() {
        assert(s.take(k) =~= s);
    } else {
        assert(s.drop_last().take(k) =~= s.take(k));
        lemma_digits_value_grows(s.drop_last(), k);
    }
}

/// Reads `v` as a number up to `max`.
pub fn parse_number(v: &Vec<char>, max: u64) -> (r: Option<u64>)
    requires
        max <= u64::MAX / 10 - 1,
    ensures
        match r {
            Some(n) => read_number(v@, max as nat) == Some(n as nat),
            None => read_number(v@, max as nat) is None,
        },
{
    let start: usize = if v.len() > 0 && v[0] == '+' {
        1
    } else {
        0
    };
    let ghost body = if v@.len() > 0 && v@[0] == '+' {
        v@.skip(1)
    } else {
        v@
    };
    assert(body =~= v@.skip(start as int));
    if start == v.len() {
        return None;
    }
    let mut value: u64 = 0;
    let mut i: usize = start;
    proof {
        assert(body.take(0) =~= Seq::<char>::empty());
    }
    while i < v.len()
        invariant
            start <= i <= v.len(),
            body == v@.skip(start as int),
            body == (if v@.len() > 0 && v@[0] == '+' {
                v@.skip(1)
            } else {
                v@
            }),
            max <= u64::MAX / 10 - 1,
            all_digits(body.take(i - start)),
            value == digits_value(body.take(i - start)),
            value <= max,
        decreases v.len() - i,
    {
        let c: char = v[i];
        let ghost next = body.take(i - start + 1);
        proof {
            assert(next.drop_last() =~= body.take(i - start));
            assert(next.last() == c);
            assert(body[i - start] == c);
        }
        if !(c >= '0' && c <= '9') {
            assert(!is_digit(body[i - start]));
            return None;
        }
        let digit: u64 = (c as u8 - 48u8) as u64;
        value = value * 10 + digit;
        proof {
            assert(all_digits(next)) by {
                assert forall|j: int| 0 <= j < next.len() implies is_digit(#[trigger] next[j]) by {
                    if j < next.len() - 1 {
                        assert(next[j] == body.take(i - start)[j]);
                    }
                }
            }
        }
        if value > max {
            proof {
                lemma_digits_value_grows(body, i - start + 1);
            }
            return None;
        }
        i = i + 1;
    }
    proof {
        assert(body.take(i - start) =~= body);
    }
    Some(value)
}

/// The decimal numeral of `n`, with a minus sign where it is negative.
pub fn signed_digits(n: i64) -> (v: Vec<char>)
    ensures
        v@ == signed_decimal(n as int),
{
    if n < 0 {
        let magnitude: u64 = if n == i64::MIN {
            9223372036854775808u64
        } else {
            (-n) as u64
        };
        let mut v: Vec<char> = Vec::new();
        v.push('-');
        let mut digits = decimal_digits(magnitude);
        let ghost tail = digits@;
        v.append(&mut digits);
        assert(v@ =~= seq!['-'] + tail);
        v
    } else {
        decimal_digits(n as u64)
    }
}

/// Decimal numerals with a comma between them.
pub open spec fn comma_separated(numbers: Seq<int>) -> Seq<char>
    decreases numbers.len(),
{
    if numbers.len() == 0 {
        Seq::<char>::empty()
    } else if numbers.len() == 1 {
        signed_decimal(numbers[0])
    } else {
        comma_separated(numbers.drop_last()) + seq![','] + signed_decimal(numbers.last())
    }
}

/// A list of machine integers as mathematical ones.
pub open spec fn as_ints(numbers: Seq<i32>) -> Seq<int> {
    numbers.map_values(|n: i32| n as int)
}

/// The decimal numerals of `numbers` with a comma between them.
pub fn comma_join(numbers: &Vec<i32>) -> (text: String)
    ensures
        text@ == comma_separated(as_ints(numbers@)),
{
    let mut out: Vec<char> = Vec::new();
    let mut i: usize = 0;
    proof {
        assert(as_ints(numbers@.take(0)) =~= Seq::<int>::empty());
    }
    while i < numbers.len()
        invariant
            i <= numbers.len(),
            out@ == comma_separated(as_ints(numbers@.take(i as int))),
        decreases numbers.len() - i,
    {
        let ghost before = as_ints(numbers@.take(i as int));
        let ghost after = as_ints(numbers@.take(i + 1));
        let mut digits = signed_digits(numbers[i] as i64);
        let ghost numeral = digits@;
        proof {
            assert(after.drop_last() =~= before);
            assert(after.last() == numbers[i as int] as int);
            lemma_comma_separated_nonempty(before);
        }
        if i > 0 {
            out.push(',');
        }
        let ghost head = out@;
        out.append(&mut digits);
        assert(out@ =~= head + numeral);
        i = i + 1;
    }
    proof {
        assert(numbers@.take(numbers.len() as int) =~= numbers@);
    }
    string_of(&out)
}

/// A list of numerals is empty only where there is no number.
pub proof fn lemma_comma_separated_nonempty(numbers: Seq<int>)
    ensures
        comma_separated(numbers).len() == 0 <==> numbers.len() == 0,
    decreases numbers.len(),
{
    if numbers.len() == 1 {
        lemma_numeral_nonempty(numbers[0]);
    } else if numbers.len() > 1 {
        lemma_numeral_nonempty(numbers.last());
    }
}

/// A numeral has at least one character.
pub proof fn lemma_numeral_nonempty(n: int)
    ensures
        signed_decimal(n).len() > 0,
{
    if n < 0 {
    } else {
        lemma_decimal_nonempty(n as nat);
    }
}

/// A numeral without sign has at least one digit.
pub proof fn lemma_decimal_nonempty(n: nat)
    ensures
        decimal(n).len() > 0,
    decreases n,
{
    if n >= 10 {
        lemma_decimal_nonempty(n / 10);
    }
}

/// A list of unsigned machine integers as mathematical ones.
pub open spec fn counts_as_ints(numbers: Seq<u64>) -> Seq<int> {
    numbers.map_values(|n: u64| n as int)
}

/// The decimal numerals of `numbers` with a comma between them.
pub fn comma_join_counts(numbers: &Vec<u64>) -> (text: String)
    ensures
        text@ == comma_separated(counts_as_ints(numbers@)),
{
    let mut out: Vec<char> = Vec::new();
    let mut i: usize = 0;
    proof {
        assert(counts_as_ints(numbers@.take(0)) =~= Seq::<int>::empty());
    }
    while i < numbers.len()
        invariant
            i <= numbers.len(),
            out@ == comma_separated(counts_as_ints(numbers@.take(i as int))),
        decreases numbers.len() - i,
    {
        let ghost before = counts_as_ints(numbers@.take(i as int));
        let ghost after = counts_as_ints(numbers@.take(i + 1));
        let mut digits = decimal_digits(numbers[i]);
        let ghost numeral = digits@;
        proof {
            assert(after.drop_last() =~= before);
            assert(after.last() == numbers[i as int] as int);
            lemma_comma_separated_nonempty(before);
        }
        if i > 0 {
            out.push(',');
        }
        let ghost head = out@;
        out.append(&mut digits);
        assert(out@ =~= head + numeral);
        i = i + 1;
    }
    proof {
        assert(numbers@.take(numbers.len() as int) =~= numbers@);
    }
    string_of(&out)
}

} // verus!
