//! Writing a number that is given in one base in another base.

use vstd::arithmetic::div_mod::{lemma_div_decreases, lemma_div_pos_is_pos};
use vstd::prelude::*;

use crate::calendar::{div_toward_zero, rem_toward_zero};
use crate::text::{
    chars_of, parse_number, pieces_view, read_number, split, split_chars, string_of,
};

verus! {

/// The value of `c` as a digit: 0 to 9 for the decimal digits and 10 to 35
/// for the Latin letters, in either case.
pub open spec fn radix_digit(c: char) -> Option<nat> {
    if '0' <= c <= '9' {
        Some((c as nat - 48) as nat)
    } else if 'a' <= c <= 'z' {
        Some((c as nat - 87) as nat)
    } else if 'A' <= c <= 'Z' {
        Some((c as nat - 55) as nat)
    } else {
        None
    }
}

/// Whether `s` holds digits of the base `radix` only.
pub open spec fn all_radix_digits(s: Seq<char>, radix: nat) -> bool {
    forall|i: int|
        0 <= i < s.len() ==> (#[trigger] radix_digit(s[i]) matches Some(d) && d < radix)
}

/// The number that digits of the base `radix` stand for; 0 for none.
pub open spec fn radix_value(s: Seq<char>, radix: nat) -> nat
    decreases s.len(),
{
    if s.len() == 0 {
        0
    } else {
        radix_value(s.drop_last(), radix) * radix + radix_digit(s.last()).unwrap_or(0)
    }
}

/// What a text reads as a signed 64-bit number in the base `radix`: an
/// optional sign, then at least one digit of that base and nothing else.
pub open spec fn read_radix(s: Seq<char>, radix: nat) -> Option<int> {
    let negative = s.len() > 0 && s[0] == '-';
    let body = if s.len() > 0 && (s[0] == '+' || s[0] == '-') {
        s.skip(1)
    } else {
        s
    };
    let value = if negative {
        -(radix_value(body, radix) as int)
    } else {
        radix_value(body, radix) as int
    };
    if body.len() > 0 && all_radix_digits(body, radix) && i64::MIN <= value <= i64::MAX {
        Some(value)
    } else {
        None
    }
}

/// The text with every `)` turned into `(`.
pub open spec fn brackets_alike(text: Seq<char>) -> Seq<char> {
    text.map_values(
        |c: char|
            if c == ')' {
                '('
            } else {
                c
            },
    )
}

/// What a text of the form `digits(base)` asks to convert: the number that
/// the digits stand for in the base, which is written in decimal and lies
/// between 2 and 36. The text is cut at every bracket of either kind; the
/// first piece holds the digits and the second the base.
pub open spec fn read_request(text: Seq<char>) -> Option<int> {
    let pieces = split(brackets_alike(text), '(');
    if pieces.len() < 2 {
        None
    } else {
        match read_number(pieces[1], 4294967295) {
            Some(base) => if 2 <= base <= 36 {
                read_radix(pieces[0], base)
            } else {
                None
            },
            None => None,
        }
    }
}

/// Dividing a number other than 0 by a base of at least 2 brings it nearer
/// to 0.
pub proof fn lemma_quotient_is_nearer_zero(n: int, base: int)
    requires
        n != 0,
        base >= 2,
    ensures
        n > 0 ==> 0 <= div_toward_zero(n, base) < n,
        n < 0 ==> n < div_toward_zero(n, base) <= 0,
{
    if n > 0 {
        lemma_div_decreases(n, base);
        lemma_div_pos_is_pos(n, base);
    } else {
        lemma_div_decreases(-n, base);
        lemma_div_pos_is_pos(-n, base);
    }
}

/// The byte that stands for a digit: the lowest byte of the digit is taken;
/// up to 10 it is counted from the character `0`, and beyond from `a` for 10.
pub open spec fn digit_byte(digit: int) -> int {
    let low = digit % 256;
    if low > 10 {
        97 + (low - 10)
    } else {
        low + 48
    }
}

/// Whether every digit of `n` in the base `base` can be written as a byte.
pub open spec fn writable(n: int, base: int) -> bool
    decreases
            (if n < 0 {
                -n
            } else {
                n
            }),
{
    if n == 0 || base < 2 {
        true
    } else {
        proof {
            lemma_quotient_is_nearer_zero(n, base);
        }
        digit_byte(rem_toward_zero(n, base)) <= 255 && writable(div_toward_zero(n, base), base)
    }
}

/// The numeral of `n` in the base `base`, most significant digit first;
/// empty for 0.
pub open spec fn numeral(n: int, base: int) -> Seq<char>
    decreases
            (if n < 0 {
                -n
            } else {
                n
            }),
{
    if n == 0 || base < 2 {
        Seq::<char>::empty()
    } else {
        proof {
            lemma_quotient_is_nearer_zero(n, base);
        }
        numeral(div_toward_zero(n, base), base).push(
            (digit_byte(rem_toward_zero(n, base)) as u8) as char,
        )
    }
}

/// Whether `num_str` can be converted to the base `to_base`: it names a
/// number, and unless that number is 0, the base is at least 2 and every
/// digit of the number in that base can be written.
pub open spec fn convertible(num_str: Seq<char>, to_base: nat) -> bool {
    read_request(num_str) matches Some(n) && (n == 0 || (to_base >= 2 && writable(
        n,
        to_base as int,
    )))
}

/// The value of `c` as a digit.
fn digit_of(c: char) -> (r: Option<u32>)
    ensures
        match r {
            Some(d) => radix_digit(c) == Some(d as nat),
            None => radix_digit(c) is None,
        },
{
    if c >= '0' && c <= '9' {
        Some((c as u32) - 48)
    } else if c >= 'a' && c <= 'z' {
        Some((c as u32) - 87)
    } else if c >= 'A' && c <= 'Z' {
        Some((c as u32) - 55)
    } else {
        None
    }
}

/// The value of a numeral is not below the value of any of its beginnings.
proof fn lemma_radix_value_grows(s: Seq<char>, k: int, radix: nat)
    requires
        0 <= k <= s.len(),
        radix >= 1,
    ensures
        radix_value(s.take(k), radix) <= radix_value(s, radix),
    decreases s.len(),
{
    if k == s.len() {
        assert(s.take(k) =~= s);
    } else {
        assert(s.drop_last().take(k) =~= s.take(k));
        lemma_radix_value_grows(s.drop_last(), k, radix);
        let front = radix_value(s.drop_last(), radix);
        assert(front <= front * radix) by (nonlinear_arith)
            requires
                radix >= 1,
        ;
    }
}

/// Reads `v` as a signed 64-bit number in the base `radix`.
pub fn parse_radix(v: &Vec<char>, radix: u32) -> (r: Option<i64>)
    requires
        2 <= radix <= 36,
    ensures
        match r {
            Some(n) => read_radix(v@, radix as nat) == Some(n as int),
            None => read_radix(v@, radix as nat) is None,
        },
{
    let negative: bool = v.len() > 0 && v[0] == '-';
    let start: usize = if v.len() > 0 && (v[0] == '+' || v[0] == '-') {
        1
    } else {
        0
    };
    let ghost body = v@.skip(start as int);
    if start == v.len() {
        return None;
    }
    let limit: u128 = 9223372036854775808;
    let mut value: u128 = 0;
    let mut i: usize = start;
    proof {
        assert(body.take(0) =~= Seq::<char>::empty());
    }
    while i < v.len()
        invariant
            start <= i <= v.len(),
            2 <= radix <= 36,
            body == v@.skip(start as int),
            start == (if v@.len() > 0 && (v@[0] == '+' || v@[0] == '-') {
                1int
            } else {
                0int
            }),
            all_radix_digits(body.take(i - start), radix as nat),
            value == radix_value(body.take(i - start), radix as nat),
            value <= limit,
            limit == 9223372036854775808,
        decreases v.len() - i,
    {
        let c: char = v[i];
        let ghost next = body.take(i - start + 1);
        proof {
            assert(next.drop_last() =~= body.take(i - start));
            assert(next.last() == c);
            assert(body[i - start] == c);
        }
        let digit: u32 = match digit_of(c) {
            Some(d) => d,
            None => {
                assert(radix_digit(body[i - start]) is None);
                return None;
            },
        };
        if digit >= radix {
            assert(radix_digit(body[i - start]) == Some(digit as nat));
            return None;
        }
        assert(value * radix <= 9223372036854775808 * 36) by (nonlinear_arith)
            requires
                value <= 9223372036854775808,
                radix <= 36,
        ;
        value = value * (radix as u128) + (digit as u128);
        proof {
            assert(all_radix_digits(next, radix as nat)) by {
                assert forall|j: int| 0 <= j < next.len() implies (#[trigger] radix_digit(
                    next[j],
                ) matches Some(d) && d < radix) by {
                    if j < next.len() - 1 {
                        assert(next[j] == body.take(i - start)[j]);
                    }
                }
            }
        }
        if value > limit {
            proof {
                lemma_radix_value_grows(body, i - start + 1, radix as nat);
                assert(v@.skip(0) =~= v@);
            }
            return None;
        }
        i = i + 1;
    }
    proof {
        assert(body.take(i - start) =~= body);
        assert(v@.skip(0) =~= v@);
    }
    if negative {
        if value == limit {
            Some(i64::MIN)
        } else {
            Some(-(value as i64))
        }
    } else {
        if value == limit {
            None
        } else {
            Some(value as i64)
        }
    }
}

/// The number that a text of the form `digits(base)` names.
pub fn parse_request(num_str: &str) -> (r: Option<i64>)
    ensures
        match r {
            Some(n) => read_request(num_str@) == Some(n as int),
            None => read_request(num_str@) is None,
        },
{
    let chars = chars_of(num_str);
    let mut alike: Vec<char> = Vec::new();
    let mut i: usize = 0;
    while i < chars.len()
        invariant
            i <= chars.len(),
            alike@ == brackets_alike(chars@).take(i as int),
        decreases chars.len() - i,
    {
        let c: char = chars[i];
        alike.push(if c == ')' {
            '('
        } else {
            c
        });
        i = i + 1;
        assert(alike@ =~= brackets_alike(chars@).take(i as int));
    }
    assert(alike@ =~= brackets_alike(chars@));
    let pieces = split_chars(&alike, '(');
    if pieces.len() < 2 {
        return None;
    }
    proof {
        let plain = pieces_view(pieces@);
        assert(plain[0] == pieces[0]@);
        assert(plain[1] == pieces[1]@);
    }
    match parse_number(&pieces[1], 4294967295) {
        Some(base) => {
            if 2 <= base && base <= 36 {
                parse_radix(&pieces[0], base as u32)
            } else {
                None
            }
        },
        None => None,
    }
}

/// The byte that stands for the last digit of `num` in the base `base`.
fn last_digit(num: i64, base: i64) -> (byte: u8)
    requires
        base >= 2,
        digit_byte(rem_toward_zero(num as int, base as int)) <= 255,
    ensures
        byte == digit_byte(rem_toward_zero(num as int, base as int)),
{
    let rest: i64 = num % base;
    let low: i64 = if rest >= 0 {
        rest % 256
    } else {
        (rest % 256 + 256) % 256
    };
    assert(rest == rem_toward_zero(num as int, base as int));
    assert(low == rest as int % 256);
    let cur_num: u8 = low as u8;
    if cur_num > 10 {
        97 + (cur_num - 10)
    } else {
        cur_num + 48
    }
}

/// Writes the number that `num_str` names, in the form `digits(base)`, in
/// the base `to_base`.
///
/// The digits of the answer are taken from the last to the first, each the
/// remainder of the number by `to_base`, and the number is divided by
/// `to_base` until nothing is left of it. The number 0 has no digits.
pub fn convert_base(num_str: &str, to_base: u32) -> (result: String)
    requires
        convertible(num_str@, to_base as nat),
    ensures
        result@ == numeral(read_request(num_str@).unwrap(), to_base as int),
{
    let mut num: i64 = parse_request(num_str).unwrap();
    let ghost whole = num as int;
    let base: i64 = to_base as i64;
    let mut out: Vec<char> = Vec::new();
    proof {
        assert(numeral(whole, base as int) =~= numeral(num as int, base as int) + out@);
    }
    while num != 0
        invariant
            base == to_base,
            num != 0 ==> base >= 2,
            writable(num as int, base as int),
            numeral(whole, base as int) == numeral(num as int, base as int) + out@,
        decreases
                (if num < 0 {
                    -(num as int)
                } else {
                    num as int
                }),
    {
        let ghost front = numeral(div_toward_zero(num as int, base as int), base as int);
        let ghost tail = out@;
        proof {
            lemma_quotient_is_nearer_zero(num as int, base as int);
        }
        let byte: u8 = last_digit(num, base);
        out.insert(0, byte as char);
        num = num / base;
        proof {
            assert(front.push(byte as char) + tail =~= front + out@);
        }
    }
    proof {
        assert(numeral(0, base as int) + out@ =~= out@);
    }
    string_of(&out)
}

/// Whether every digit of `n` in the base `base` can be written as a byte.
pub fn is_writable(n: i64, base: i64) -> (r: bool)
    requires
        base >= 2,
    ensures
        r == writable(n as int, base as int),
{
    let mut num: i64 = n;
    while num != 0
        invariant
            base >= 2,
            writable(n as int, base as int) == writable(num as int, base as int),
        decreases
                (if num < 0 {
                    -(num as int)
                } else {
                    num as int
                }),
    {
        proof {
            lemma_quotient_is_nearer_zero(num as int, base as int);
        }
        let rest: i64 = num % base;
        let low: i64 = if rest >= 0 {
            rest % 256
        } else {
            (rest % 256 + 256) % 256
        };
        assert(rest == rem_toward_zero(num as int, base as int));
        assert(low == rest as int % 256);
        if low > 168 {
            return false;
        }
        num = num / base;
    }
    true
}

/// Writes the number that `num_str` names in the base `to_base`, or
/// nothing where the text names no number, or the number is not 0 and the
/// base is below 2 or a digit cannot be written.
pub fn try_convert_base(num_str: &str, to_base: u32) -> (result: Option<String>)
    ensures
        convertible(num_str@, to_base as nat) ==> result is Some && result->Some_0@ == numeral(
            read_request(num_str@).unwrap(),
            to_base as int,
        ),
        !convertible(num_str@, to_base as nat) ==> result is None,
{
    let n = match parse_request(num_str) {
        Some(n) => n,
        None => {
            return None;
        },
    };
    if n == 0 || (to_base >= 2 && is_writable(n, to_base as i64)) {
        Some(convert_base(num_str, to_base))
    } else {
        None
    }
}

} // verus!
