//! A reader for texts in a notation of nested values: objects in braces,
//! lists in brackets, strings in quotes, numbers, `true`, `false` and `null`.

use vstd::prelude::*;
use vstd::string::*;

use crate::text::{chars_of, is_digit, string_of};

verus! {

/// A value that a text denotes.
#[derive(Debug, PartialEq)]
pub enum GraphValue {
    /// An object: its members in the order of the text, each a key and a
    /// value.
    Graph(Vec<(GraphValue, GraphValue)>),
    /// A list.
    Array(Vec<GraphValue>),
    /// A string.
    String(String),
    /// A number, as the text writes it.
    Number(String),
    /// `true` or `false`.
    Boolean(bool),
    /// `null`.
    Null,
}

/// Why a text was not read, and how many characters had been taken in.
#[derive(Debug)]
pub struct GraphParseError {
    pub message: String,
    pub position: usize,
}

/// A reader over a text.
pub struct GraphParser {
    chars: Vec<char>,
    cursor: usize,
    position: usize,
}

/// A value as a mathematical tree.
pub enum Tree {
    Graph(Seq<(Tree, Tree)>),
    Array(Seq<Tree>),
    Text(Seq<char>),
    Number(Seq<char>),
    Boolean(bool),
    Null,
}

/// A failure as mathematical data.
pub struct Failure {
    pub message: Seq<char>,
    pub position: int,
}

/// What a step of reading yields: a value or a failure, the index of the
/// next character, and the count of characters taken in so far.
pub struct Outcome<T> {
    pub value: Result<T, Failure>,
    pub at: int,
    pub position: int,
}

/// The tree that a value stands for.
pub open spec fn tree_of(v: GraphValue) -> Tree
    decreases v,
{
    match v {
        GraphValue::Graph(members) => Tree::Graph(
            Seq::new(
                members@.len(),
                |i: int|
                    if 0 <= i < members@.len() {
                        (tree_of(members@[i].0), tree_of(members@[i].1))
                    } else {
                        (Tree::Null, Tree::Null)
                    },
            ),
        ),
        GraphValue::Array(items) => Tree::Array(
            Seq::new(
                items@.len(),
                |i: int|
                    if 0 <= i < items@.len() {
                        tree_of(items@[i])
                    } else {
                        Tree::Null
                    },
            ),
        ),
        GraphValue::String(s) => Tree::Text(s@),
        GraphValue::Number(s) => Tree::Number(s@),
        GraphValue::Boolean(b) => Tree::Boolean(b),
        GraphValue::Null => Tree::Null,
    }
}

/// The trees that the members of an object stand for.
pub open spec fn members_of(members: Seq<(GraphValue, GraphValue)>) -> Seq<(Tree, Tree)> {
    Seq::new(members.len(), |i: int| (tree_of(members[i].0), tree_of(members[i].1)))
}

/// The trees that the elements of a list stand for.
pub open spec fn items_of(items: Seq<GraphValue>) -> Seq<Tree> {
    Seq::new(items.len(), |i: int| tree_of(items[i]))
}

/// The tree of an object holds the trees of its members, and the tree of a
/// list those of its elements.
pub proof fn lemma_tree_of_collections(v: GraphValue)
    ensures
        v matches GraphValue::Graph(members) ==> tree_of(v) == Tree::Graph(members_of(members@)),
        v matches GraphValue::Array(items) ==> tree_of(v) == Tree::Array(items_of(items@)),
{
    match v {
        GraphValue::Graph(members) => {
            assert(tree_of(v)->Graph_0 =~= members_of(members@));
        },
        GraphValue::Array(items) => {
            assert(tree_of(v)->Array_0 =~= items_of(items@));
        },
        _ => {},
    }
}

/// A failure with `message` after `position` characters, with the reader
/// left at `at`.
pub open spec fn failed<T>(message: Seq<char>, at: int, position: int) -> Outcome<T> {
    Outcome { value: Err(Failure { message, position }), at, position }
}

/// A success with `value`.
pub open spec fn done<T>(value: T, at: int, position: int) -> Outcome<T> {
    Outcome { value: Ok(value), at, position }
}

/// The failure of one step as the failure of the step that needed it.
pub open spec fn passed_on<T, U>(out: Outcome<T>) -> Outcome<U> {
    Outcome { value: Err(out.value->Err_0), at: out.at, position: out.position }
}

/// Whether `c` is white space: a blank, one of the controls from tab to
/// carriage return, or one of the spaces and line breaks beyond ASCII.
pub open spec fn is_whitespace(c: char) -> bool {
    ||| c == ' '
    ||| '\u{9}' <= c <= '\u{d}'
    ||| c == '\u{85}'
    ||| c == '\u{a0}'
    ||| c == '\u{1680}'
    ||| '\u{2000}' <= c <= '\u{200a}'
    ||| c == '\u{2028}'
    ||| c == '\u{2029}'
    ||| c == '\u{202f}'
    ||| c == '\u{205f}'
    ||| c == '\u{3000}'
}

/// The character at `at`, if the text reaches that far.
pub open spec fn peek(chars: Seq<char>, at: int) -> Option<char> {
    if 0 <= at < chars.len() {
        Some(chars[at])
    } else {
        None
    }
}

/// The index of the first character from `at` on that is not white space.
pub open spec fn skip_whitespace(chars: Seq<char>, at: int) -> int
    decreases chars.len() - at,
{
    if 0 <= at < chars.len() && is_whitespace(chars[at]) {
        skip_whitespace(chars, at + 1)
    } else {
        at
    }
}

/// What is said where another character than `expected` is found.
pub open spec fn found_message(expected: char, found: char) -> Seq<char> {
    "Expected '"@ + seq![expected] + "', found '"@ + seq![found] + "'"@
}

/// What is said where the text ends before `expected`.
pub open spec fn end_message(expected: char) -> Seq<char> {
    "Expected '"@ + seq![expected] + "' but reached end"@
}

/// Takes in the character `expected`. Another character is taken in too,
/// but not counted.
pub open spec fn expect(chars: Seq<char>, at: int, position: int, expected: char) -> Outcome<()> {
    if 0 <= at < chars.len() {
        if chars[at] == expected {
            done((), at + 1, position + 1)
        } else {
            failed(found_message(expected, chars[at]), at + 1, position)
        }
    } else {
        failed(end_message(expected), at, position)
    }
}

/// The index of the first quote from `at` on, or the end of the text.
pub open spec fn quote_from(chars: Seq<char>, at: int) -> int
    decreases chars.len() - at,
{
    if 0 <= at < chars.len() && chars[at] != '"' {
        quote_from(chars, at + 1)
    } else {
        at
    }
}

/// Reads a string: a quote, then the characters up to the next quote, which
/// is taken in, or up to the end of the text.
pub open spec fn string(chars: Seq<char>, at: int, position: int) -> Outcome<Tree> {
    let open = expect(chars, at, position, '"');
    if open.value is Err {
        passed_on(open)
    } else {
        let end = quote_from(chars, at + 1);
        let stop = if end < chars.len() {
            end + 1
        } else {
            end
        };
        done(Tree::Text(chars.subrange(at + 1, end)), stop, position + (stop - at))
    }
}

/// Whether `c` is one of the characters that a number may hold besides
/// digits.
pub open spec fn is_special(c: char) -> bool {
    c == '.' || c == '-' || c == 'e' || c == 'E'
}

/// Where the characters of a number end, from `at` on, after the special
/// characters `seen`: at the first character that is neither a digit nor
/// special, or at the first special character that has been seen before,
/// which the second component tells.
pub open spec fn scan_number(chars: Seq<char>, at: int, seen: Seq<char>) -> (int, bool)
    decreases chars.len() - at,
{
    if 0 <= at < chars.len() {
        let c = chars[at];
        if is_digit(c) {
            scan_number(chars, at + 1, seen)
        } else if is_special(c) {
            if seen.contains(c) {
                (at, true)
            } else {
                scan_number(chars, at + 1, seen.push(c))
            }
        } else {
            (at, false)
        }
    } else {
        (at, false)
    }
}

/// How many digits follow each other in `s` from `i` on.
pub open spec fn digits_run(s: Seq<char>, i: int) -> int
    decreases s.len() - i,
{
    if 0 <= i < s.len() && is_digit(s[i]) {
        1 + digits_run(s, i + 1)
    } else {
        0
    }
}

/// Whether `s` is a decimal numeral with an optional fraction and an
/// optional exponent: an optional sign; digits with at most one point among
/// them, at least one digit in all; and then optionally `e` or `E`, an
/// optional sign and at least one digit.
pub open spec fn float_text(s: Seq<char>) -> bool {
    let i0: int = if s.len() > 0 && (s[0] == '+' || s[0] == '-') {
        1
    } else {
        0
    };
    let whole = digits_run(s, i0);
    let i1 = i0 + whole;
    let point = i1 < s.len() && s[i1] == '.';
    let i2 = if point {
        i1 + 1
    } else {
        i1
    };
    let fraction = if point {
        digits_run(s, i2)
    } else {
        0
    };
    let i3 = i2 + fraction;
    if whole + fraction < 1 {
        false
    } else if i3 == s.len() {
        true
    } else if s[i3] == 'e' || s[i3] == 'E' {
        let i4 = i3 + 1;
        let i5 = if i4 < s.len() && (s[i4] == '+' || s[i4] == '-') {
            i4 + 1
        } else {
            i4
        };
        let exponent = digits_run(s, i5);
        exponent >= 1 && i5 + exponent == s.len()
    } else {
        false
    }
}

/// Reads a number: the digits and special characters that follow each
/// other, no special character twice, which must make a numeral.
pub open spec fn number(chars: Seq<char>, at: int, position: int) -> Outcome<Tree> {
    let (stop, repeated) = scan_number(chars, at, Seq::<char>::empty());
    let text = chars.subrange(at, stop);
    if repeated || !float_text(text) {
        failed("Invalid number format"@, stop, position + (stop - at))
    } else {
        done(Tree::Number(text), stop, position + (stop - at))
    }
}

/// The index up to which a word of four characters reaches from `at`.
pub open spec fn word_end(chars: Seq<char>, at: int) -> int {
    if at + 4 <= chars.len() {
        at + 4
    } else if at <= chars.len() {
        chars.len() as int
    } else {
        at
    }
}

/// Reads `null`: the next four characters are taken in and must be that
/// word.
pub open spec fn null(chars: Seq<char>, at: int, position: int) -> Outcome<Tree> {
    let end = word_end(chars, at);
    if chars.subrange(at, end) == "null"@ {
        done(Tree::Null, end, position + (end - at))
    } else {
        failed("Invalid null value"@, end, position + (end - at))
    }
}

/// Reads `true` or `false`: the next four characters are taken in; they
/// must be `true`, or `fals` with an `e` behind it. A character found in
/// place of that `e` is taken in too, but not counted.
pub open spec fn boolean(chars: Seq<char>, at: int, position: int) -> Outcome<Tree> {
    let end = word_end(chars, at);
    let word = chars.subrange(at, end);
    let counted = position + (end - at);
    if word == "true"@ {
        done(Tree::Boolean(true), end, counted)
    } else if word == "fals"@ {
        if end < chars.len() {
            if chars[end] == 'e' {
                done(Tree::Boolean(false), end + 1, counted + 1)
            } else {
                failed("Invalid boolean value"@, end + 1, counted)
            }
        } else {
            failed("Invalid boolean value"@, end, counted)
        }
    } else {
        failed("Invalid boolean value"@, end, counted)
    }
}

/// Skipping white space does not go back, and not beyond the end of the text.
pub proof fn lemma_skip_whitespace(chars: Seq<char>, at: int)
    ensures
        skip_whitespace(chars, at) >= at,
        at <= chars.len() ==> skip_whitespace(chars, at) <= chars.len(),
    decreases chars.len() - at,
{
    if 0 <= at < chars.len() && is_whitespace(chars[at]) {
        lemma_skip_whitespace(chars, at + 1);
    }
}

/// The next quote is not before the place from which it is looked for, and
/// not beyond the end of the text.
pub proof fn lemma_quote_from(chars: Seq<char>, at: int)
    ensures
        quote_from(chars, at) >= at,
        at <= chars.len() ==> quote_from(chars, at) <= chars.len(),
    decreases chars.len() - at,
{
    if 0 <= at < chars.len() && chars[at] != '"' {
        lemma_quote_from(chars, at + 1);
    }
}

/// A string that is read takes in at least its opening quote.
pub proof fn lemma_string_advances(chars: Seq<char>, at: int, position: int)
    ensures
        string(chars, at, position).value is Ok ==> at < string(chars, at, position).at
            <= chars.len(),
{
    lemma_quote_from(chars, at + 1);
}

/// Reads a value of any kind, told by its first character.
pub open spec fn value(chars: Seq<char>, at: int, position: int) -> Outcome<Tree>
    decreases chars.len() - at, 2int,
{
    match peek(chars, at) {
        Some(c) => if c == '{' {
            object(chars, at, position)
        } else if c == '[' {
            array(chars, at, position)
        } else if c == '"' {
            string(chars, at, position)
        } else if c == 't' || c == 'f' {
            boolean(chars, at, position)
        } else if c == 'n' {
            null(chars, at, position)
        } else if is_digit(c) || is_special(c) {
            number(chars, at, position)
        } else {
            failed("Unexpected character"@, at, position)
        },
        None => failed("Unexpected character"@, at, position),
    }
}

/// Reads an object: an opening brace, the members, and a closing brace.
pub open spec fn object(chars: Seq<char>, at: int, position: int) -> Outcome<Tree>
    decreases chars.len() - at, 1int,
{
    let open = expect(chars, at, position, '{');
    if open.value is Err {
        passed_on(open)
    } else {
        members(chars, at + 1, position + 1, Seq::<(Tree, Tree)>::empty())
    }
}

/// Takes in the closing character `closing` and yields `tree`.
pub open spec fn close(chars: Seq<char>, at: int, position: int, closing: char, tree: Tree) -> Outcome<
    Tree,
> {
    let shut = expect(chars, at, position, closing);
    if shut.value is Err {
        passed_on(shut)
    } else {
        done(tree, shut.at, shut.position)
    }
}

/// Reads a member of an object: a string, a colon and a value, with white
/// space wherever it pleases.
pub open spec fn member(chars: Seq<char>, at: int, position: int) -> Outcome<(Tree, Tree)>
    decreases chars.len() - at, 3int,
{
    let key = string(chars, at, position);
    if key.value is Err {
        passed_on(key)
    } else {
        let c2 = skip_whitespace(chars, key.at);
        let p2 = key.position + (c2 - key.at);
        let colon = expect(chars, c2, p2, ':');
        if colon.value is Err {
            passed_on(colon)
        } else {
            let c3 = skip_whitespace(chars, colon.at);
            let p3 = colon.position + (c3 - colon.at);
            proof {
                lemma_string_advances(chars, at, position);
                lemma_skip_whitespace(chars, key.at);
                lemma_skip_whitespace(chars, colon.at);
            }
            let read = value(chars, c3, p3);
            if read.value is Err {
                passed_on(read)
            } else {
                done((key.value->Ok_0, read.value->Ok_0), read.at, read.position)
            }
        }
    }
}

/// Reads the members of an object after those in `so_far`, up to the
/// closing brace, with a comma between one member and the next, and white
/// space wherever it pleases.
///
/// A member that took in nothing would end the reading; there is none, as
/// `lemma_member_advances` shows.
pub open spec fn members(
    chars: Seq<char>,
    at: int,
    position: int,
    so_far: Seq<(Tree, Tree)>,
) -> Outcome<Tree>
    decreases chars.len() - at, 4int,
{
    let c1 = skip_whitespace(chars, at);
    let p1 = position + (c1 - at);
    proof {
        lemma_skip_whitespace(chars, at);
    }
    if peek(chars, c1) == Some('}') {
        close(chars, c1, p1, '}', Tree::Graph(so_far))
    } else {
        let read = member(chars, c1, p1);
        if read.value is Err {
            passed_on(read)
        } else if read.at <= c1 || read.at > chars.len() {
            failed("Unexpected character"@, read.at, read.position)
        } else {
            let grown = so_far.push(read.value->Ok_0);
            let c4 = skip_whitespace(chars, read.at);
            let p4 = read.position + (c4 - read.at);
            proof {
                lemma_skip_whitespace(chars, read.at);
            }
            if peek(chars, c4) == Some(',') {
                members(chars, c4 + 1, p4 + 1, grown)
            } else if peek(chars, c4) == Some('}') {
                close(chars, c4, p4, '}', Tree::Graph(grown))
            } else {
                failed("Expected ',' or '}'"@, c4, p4)
            }
        }
    }
}

/// Reads a list: an opening bracket, the elements, and a closing bracket.
pub open spec fn array(chars: Seq<char>, at: int, position: int) -> Outcome<Tree>
    decreases chars.len() - at, 1int,
{
    let open = expect(chars, at, position, '[');
    if open.value is Err {
        passed_on(open)
    } else {
        elements(chars, at + 1, position + 1, Seq::<Tree>::empty())
    }
}

/// Reads the elements of a list after those in `so_far`, up to the closing
/// bracket: values with a comma between one and the next, and white space
/// wherever it pleases.
///
/// A value that took in nothing would end the reading; there is none, as
/// `lemma_value_advances` shows.
pub open spec fn elements(chars: Seq<char>, at: int, position: int, so_far: Seq<Tree>) -> Outcome<
    Tree,
>
    decreases chars.len() - at, 4int,
{
    let c1 = skip_whitespace(chars, at);
    let p1 = position + (c1 - at);
    proof {
        lemma_skip_whitespace(chars, at);
    }
    if peek(chars, c1) == Some(']') {
        close(chars, c1, p1, ']', Tree::Array(so_far))
    } else {
        let read = value(chars, c1, p1);
        if read.value is Err {
            read
        } else if read.at <= c1 || read.at > chars.len() {
            failed("Unexpected character"@, read.at, read.position)
        } else {
            let grown = so_far.push(read.value->Ok_0);
            let c2 = skip_whitespace(chars, read.at);
            let p2 = read.position + (c2 - read.at);
            proof {
                lemma_skip_whitespace(chars, read.at);
            }
            if peek(chars, c2) == Some(',') {
                elements(chars, c2 + 1, p2 + 1, grown)
            } else if peek(chars, c2) == Some(']') {
                close(chars, c2, p2, ']', Tree::Array(grown))
            } else {
                failed("Expected ',' or ']'"@, c2, p2)
            }
        }
    }
}

/// Reads a text: white space, then a value. What follows the value is not
/// looked at.
pub open spec fn document(chars: Seq<char>, at: int, position: int) -> Outcome<Tree> {
    let start = skip_whitespace(chars, at);
    value(chars, start, position + (start - at))
}

/// Whether a result of the reader says what an outcome says.
pub open spec fn agrees(r: Result<GraphValue, GraphParseError>, out: Outcome<Tree>) -> bool {
    match r {
        Ok(v) => out.value == Ok::<Tree, Failure>(tree_of(v)),
        Err(e) => out.value == Err::<Tree, Failure>(
            Failure { message: e.message@, position: e.position as int },
        ),
    }
}

/// Whether a result without value says what an outcome says.
pub open spec fn agrees_unit(r: Result<(), GraphParseError>, out: Outcome<()>) -> bool {
    match r {
        Ok(_) => out.value is Ok,
        Err(e) => out.value == Err::<(), Failure>(
            Failure { message: e.message@, position: e.position as int },
        ),
    }
}

/// Whether `c` is white space.
fn whitespace(c: char) -> (r: bool)
    ensures
        r == is_whitespace(c),
{
    c == ' ' || (c >= '\u{9}' && c <= '\u{d}') || c == '\u{85}' || c == '\u{a0}' || c
        == '\u{1680}' || (c >= '\u{2000}' && c <= '\u{200a}') || c == '\u{2028}' || c
        == '\u{2029}' || c == '\u{202f}' || c == '\u{205f}' || c == '\u{3000}'
}

/// Whether `c` is a decimal digit.
fn digit(c: char) -> (r: bool)
    ensures
        r == is_digit(c),
{
    c >= '0' && c <= '9'
}

/// Whether `c` may stand in a number besides digits.
fn special(c: char) -> (r: bool)
    ensures
        r == is_special(c),
{
    c == '.' || c == '-' || c == 'e' || c == 'E'
}

/// How many digits follow each other in `v` from `i` on.
fn count_digits(v: &Vec<char>, i: usize) -> (n: usize)
    requires
        i <= v.len(),
    ensures
        n == digits_run(v@, i as int),
        i + n <= v.len(),
{
    let mut k: usize = i;
    while k < v.len() && digit(v[k])
        invariant
            i <= k <= v.len(),
            digits_run(v@, i as int) == (k - i) + digits_run(v@, k as int),
        decreases v.len() - k,
    {
        k = k + 1;
    }
    k - i
}

/// Whether `v` is a decimal numeral with an optional fraction and an
/// optional exponent.
pub fn is_float_text(v: &Vec<char>) -> (r: bool)
    ensures
        r == float_text(v@),
{
    let n: usize = v.len();
    let i0: usize = if n > 0 && (v[0] == '+' || v[0] == '-') {
        1
    } else {
        0
    };
    let whole: usize = count_digits(v, i0);
    let i1: usize = i0 + whole;
    let point: bool = i1 < n && v[i1] == '.';
    let i2: usize = if point {
        i1 + 1
    } else {
        i1
    };
    let fraction: usize = if point {
        count_digits(v, i2)
    } else {
        0
    };
    let i3: usize = i2 + fraction;
    if whole + fraction < 1 {
        false
    } else if i3 == n {
        true
    } else if v[i3] == 'e' || v[i3] == 'E' {
        let i4: usize = i3 + 1;
        let i5: usize = if i4 < n && (v[i4] == '+' || v[i4] == '-') {
            i4 + 1
        } else {
            i4
        };
        let exponent: usize = count_digits(v, i5);
        exponent >= 1 && i5 + exponent == n
    } else {
        false
    }
}

impl GraphParser {
    /// The text that is read.
    pub closed spec fn text(&self) -> Seq<char> {
        self.chars@
    }

    /// The index of the next character.
    pub closed spec fn at(&self) -> int {
        self.cursor as int
    }

    /// How many characters have been taken in and counted.
    pub closed spec fn position(&self) -> int {
        self.position as int
    }

    /// The reader is in order: it stands within its text, and has counted
    /// no more characters than it has taken in.
    pub closed spec fn wf(&self) -> bool {
        self.position <= self.cursor <= self.chars.len()
    }

    /// Whether the reader stands where `out` leaves it, over the text of
    /// `before`.
    spec fn follows<T>(&self, before: &GraphParser, out: Outcome<T>) -> bool {
        &&& self.chars@ == before.chars@
        &&& self.cursor == out.at
        &&& self.position == out.position
        &&& self.wf()
    }

    /// A reader at the beginning of `input`.
    pub fn new(input: &str) -> (parser: Self)
        ensures
            parser.wf(),
            parser.text() == input@,
            parser.at() == 0,
            parser.position() == 0,
    {
        GraphParser { chars: chars_of(input), cursor: 0, position: 0 }
    }

    /// Reads the value that the text denotes from where the reader stands.
    /// White space before the value is passed over; what follows the value
    /// is not looked at.
    pub fn parse(&mut self) -> (r: Result<GraphValue, GraphParseError>)
        requires
            old(self).wf(),
        ensures
            agrees(r, document(old(self).text(), old(self).at(), old(self).position())),
            final(self).wf(),
            final(self).text() == old(self).text(),
            final(self).at() == document(old(self).text(), old(self).at(), old(self).position()).at,
            final(self).position() == document(
                old(self).text(),
                old(self).at(),
                old(self).position(),
            ).position,
    {
        self.skip_whitespace();
        self.parse_value()
    }

    fn parse_value(&mut self) -> (r: Result<GraphValue, GraphParseError>)
        requires
            old(self).wf(),
        ensures
            agrees(r, value(old(self).chars@, old(self).cursor as int, old(self).position as int)),
            final(self).follows(
                old(self),
                value(old(self).chars@, old(self).cursor as int, old(self).position as int),
            ),
        decreases old(self).chars.len() - old(self).cursor, 2int,
    {
        if self.cursor < self.chars.len() {
            let c: char = self.chars[self.cursor];
            if c == '{' {
                self.parse_object()
            } else if c == '[' {
                self.parse_array()
            } else if c == '"' {
                self.parse_string()
            } else if c == 't' || c == 'f' {
                self.parse_boolean()
            } else if c == 'n' {
                self.parse_null()
            } else if digit(c) || special(c) {
                self.parse_number()
            } else {
                Err(self.error("Unexpected character"))
            }
        } else {
            Err(self.error("Unexpected character"))
        }
    }

    fn parse_object(&mut self) -> (r: Result<GraphValue, GraphParseError>)
        requires
            old(self).wf(),
        ensures
            agrees(r, object(old(self).chars@, old(self).cursor as int, old(self).position as int)),
            final(self).follows(
                old(self),
                object(old(self).chars@, old(self).cursor as int, old(self).position as int),
            ),
        decreases old(self).chars.len() - old(self).cursor, 1int,
    {
        match self.expect_char('{') {
            Ok(_) => {},
            Err(e) => {
                return Err(e);
            },
        }
        let mut graph: Vec<(GraphValue, GraphValue)> = Vec::new();
        proof {
            assert(members_of(graph@) =~= Seq::<(Tree, Tree)>::empty());
        }
        let r = self.parse_members(graph);
        r
    }

    /// Reads the members that follow those in `graph`, and the closing
    /// brace.
    #[verifier::rlimit(50)]
    fn parse_members(&mut self, graph: Vec<(GraphValue, GraphValue)>) -> (r: Result<
        GraphValue,
        GraphParseError,
    >)
        requires
            old(self).wf(),
        ensures
            agrees(
                r,
                members(
                    old(self).chars@,
                    old(self).cursor as int,
                    old(self).position as int,
                    members_of(graph@),
                ),
            ),
            final(self).follows(
                old(self),
                members(
                    old(self).chars@,
                    old(self).cursor as int,
                    old(self).position as int,
                    members_of(graph@),
                ),
            ),
        decreases old(self).chars.len() - old(self).cursor, 4int,
    {
        let mut graph = graph;
        let ghost chars = self.chars@;
        proof {
            lemma_skip_whitespace(chars, self.cursor as int);
        }
        self.skip_whitespace();
        if self.next_char_is('}') {
            proof {
                lemma_tree_of_collections(GraphValue::Graph(graph));
            }
            return self.close_with('}', GraphValue::Graph(graph));
        }
        let ghost c1 = self.cursor as int;
        let ghost p1 = self.position as int;
        let (key, value) = match self.parse_member() {
            Ok(m) => m,
            Err(e) => {
                return Err(e);
            },
        };
        proof {
            lemma_member_advances(chars, c1, p1);
            lemma_skip_whitespace(chars, self.cursor as int);
        }
        let ghost grown = members_of(graph@).push((tree_of(key), tree_of(value)));
        graph.push((key, value));
        proof {
            assert(members_of(graph@) =~= grown);
        }
        self.skip_whitespace();
        if !self.next_char_is(',') {
            if self.next_char_is('}') {
                proof {
                    lemma_tree_of_collections(GraphValue::Graph(graph));
                }
                return self.close_with('}', GraphValue::Graph(graph));
            } else {
                return Err(self.error("Expected ',' or '}'"));
            }
        }
        self.cursor = self.cursor + 1;
        self.position = self.position + 1;
        self.parse_members(graph)
    }

    /// Reads a member of an object: a key, a colon and a value.
    fn parse_member(&mut self) -> (r: Result<(GraphValue, GraphValue), GraphParseError>)
        requires
            old(self).wf(),
        ensures
            match r {
                Ok(m) => member(
                    old(self).chars@,
                    old(self).cursor as int,
                    old(self).position as int,
                ).value == Ok::<(Tree, Tree), Failure>((tree_of(m.0), tree_of(m.1))),
                Err(e) => member(
                    old(self).chars@,
                    old(self).cursor as int,
                    old(self).position as int,
                ).value == Err::<(Tree, Tree), Failure>(
                    Failure { message: e.message@, position: e.position as int },
                ),
            },
            final(self).follows(
                old(self),
                member(old(self).chars@, old(self).cursor as int, old(self).position as int),
            ),
        decreases old(self).chars.len() - old(self).cursor, 3int,
    {
        let ghost chars = self.chars@;
        proof {
            lemma_string_advances(chars, self.cursor as int, self.position as int);
        }
        let key = match self.parse_string() {
            Ok(k) => k,
            Err(e) => {
                return Err(e);
            },
        };
        proof {
            lemma_skip_whitespace(chars, self.cursor as int);
        }
        self.skip_whitespace();
        match self.expect_char(':') {
            Ok(_) => {},
            Err(e) => {
                return Err(e);
            },
        }
        proof {
            lemma_skip_whitespace(chars, self.cursor as int);
        }
        self.skip_whitespace();
        let value = match self.parse_value() {
            Ok(v) => v,
            Err(e) => {
                return Err(e);
            },
        };
        Ok((key, value))
    }

    /// Takes in the closing character and yields `value`.
    fn close_with(&mut self, closing: char, value: GraphValue) -> (r: Result<
        GraphValue,
        GraphParseError,
    >)
        requires
            old(self).wf(),
        ensures
            agrees(
                r,
                close(
                    old(self).chars@,
                    old(self).cursor as int,
                    old(self).position as int,
                    closing,
                    tree_of(value),
                ),
            ),
            final(self).follows(
                old(self),
                close(
                    old(self).chars@,
                    old(self).cursor as int,
                    old(self).position as int,
                    closing,
                    tree_of(value),
                ),
            ),
    {
        match self.expect_char(closing) {
            Ok(_) => Ok(value),
            Err(e) => Err(e),
        }
    }

    fn parse_array(&mut self) -> (r: Result<GraphValue, GraphParseError>)
        requires
            old(self).wf(),
        ensures
            agrees(r, array(old(self).chars@, old(self).cursor as int, old(self).position as int)),
            final(self).follows(
                old(self),
                array(old(self).chars@, old(self).cursor as int, old(self).position as int),
            ),
        decreases old(self).chars.len() - old(self).cursor, 1int,
    {
        match self.expect_char('[') {
            Ok(_) => {},
            Err(e) => {
                return Err(e);
            },
        }
        let mut arr: Vec<GraphValue> = Vec::new();
        proof {
            assert(items_of(arr@) =~= Seq::<Tree>::empty());
        }
        let r = self.parse_elements(arr);
        r
    }

    /// Reads the elements that follow those in `arr`, and the closing
    /// bracket.
    fn parse_elements(&mut self, arr: Vec<GraphValue>) -> (r: Result<GraphValue, GraphParseError>)
        requires
            old(self).wf(),
        ensures
            agrees(
                r,
                elements(
                    old(self).chars@,
                    old(self).cursor as int,
                    old(self).position as int,
                    items_of(arr@),
                ),
            ),
            final(self).follows(
                old(self),
                elements(
                    old(self).chars@,
                    old(self).cursor as int,
                    old(self).position as int,
                    items_of(arr@),
                ),
            ),
        decreases old(self).chars.len() - old(self).cursor, 4int,
    {
        let mut arr = arr;
        let ghost chars = self.chars@;
        proof {
            lemma_skip_whitespace(chars, self.cursor as int);
        }
        self.skip_whitespace();
        if self.next_char_is(']') {
            proof {
                lemma_tree_of_collections(GraphValue::Array(arr));
            }
            return self.close_with(']', GraphValue::Array(arr));
        }
        let ghost c1 = self.cursor as int;
        let ghost p1 = self.position as int;
        let value = match self.parse_value() {
            Ok(v) => v,
            Err(e) => {
                return Err(e);
            },
        };
        proof {
            lemma_value_advances(chars, c1, p1);
            lemma_skip_whitespace(chars, self.cursor as int);
        }
        let ghost grown = items_of(arr@).push(tree_of(value));
        arr.push(value);
        proof {
            assert(items_of(arr@) =~= grown);
        }
        self.skip_whitespace();
        if !self.next_char_is(',') {
            if self.next_char_is(']') {
                proof {
                    lemma_tree_of_collections(GraphValue::Array(arr));
                }
                return self.close_with(']', GraphValue::Array(arr));
            } else {
                return Err(self.error("Expected ',' or ']'"));
            }
        }
        self.cursor = self.cursor + 1;
        self.position = self.position + 1;
        self.parse_elements(arr)
    }

    /// Whether the next character is `expected`.
    fn next_char_is(&mut self, expected: char) -> (r: bool)
        ensures
            *final(self) == *old(self),
            r == (peek(old(self).chars@, old(self).cursor as int) == Some(expected)),
    {
        self.cursor < self.chars.len() && self.chars[self.cursor] == expected
    }

    fn parse_string(&mut self) -> (r: Result<GraphValue, GraphParseError>)
        requires
            old(self).wf(),
        ensures
            agrees(r, string(old(self).chars@, old(self).cursor as int, old(self).position as int)),
            final(self).follows(
                old(self),
                string(old(self).chars@, old(self).cursor as int, old(self).position as int),
            ),
    {
        let mut s: Vec<char> = Vec::new();
        match self.expect_char('"') {
            Ok(_) => {},
            Err(e) => {
                return Err(e);
            },
        }
        let ghost start = self.cursor as int;
        let ghost counted = self.position as int;
        while self.cursor < self.chars.len()
            invariant_except_break
                quote_from(self.chars@, start) == quote_from(self.chars@, self.cursor as int),
                s@ == self.chars@.subrange(start, self.cursor as int),
            invariant
                self.chars@ == old(self).chars@,
                0 <= start <= self.cursor <= self.chars.len(),
                self.position == counted + (self.cursor - start),
                self.wf(),
            ensures
                self.chars@ == old(self).chars@,
                self.wf(),
                quote_from(self.chars@, start) <= self.chars.len(),
                s@ == self.chars@.subrange(start, quote_from(self.chars@, start)),
                self.cursor == (if quote_from(self.chars@, start) < self.chars.len() {
                    quote_from(self.chars@, start) + 1
                } else {
                    quote_from(self.chars@, start)
                }),
                self.position == counted + (self.cursor - start),
            decreases self.chars.len() - self.cursor,
        {
            let c: char = self.chars[self.cursor];
            self.cursor = self.cursor + 1;
            self.position = self.position + 1;
            if c == '"' {
                break;
            }
            s.push(c);
            assert(s@ =~= self.chars@.subrange(start, self.cursor as int));
        }
        Ok(GraphValue::String(string_of(&s)))
    }

    fn parse_number(&mut self) -> (r: Result<GraphValue, GraphParseError>)
        requires
            old(self).wf(),
        ensures
            agrees(r, number(old(self).chars@, old(self).cursor as int, old(self).position as int)),
            final(self).follows(
                old(self),
                number(old(self).chars@, old(self).cursor as int, old(self).position as int),
            ),
    {
        let mut num_str: Vec<char> = Vec::new();
        let mut special_char_vec: Vec<char> = Vec::new();
        let ghost start = self.cursor as int;
        let ghost counted = self.position as int;
        let ghost chars = self.chars@;
        let ghost whole = scan_number(chars, start, Seq::<char>::empty());
        while self.cursor < self.chars.len()
            invariant
                self.chars@ == chars,
                chars == old(self).chars@,
                start == old(self).cursor,
                counted == old(self).position,
                start <= self.cursor <= self.chars.len(),
                self.position == counted + (self.cursor - start),
                self.wf(),
                whole == scan_number(chars, start, Seq::<char>::empty()),
                whole == scan_number(chars, self.cursor as int, special_char_vec@),
                num_str@ == chars.subrange(start, self.cursor as int),
            ensures
                self.chars@ == chars,
                start <= self.cursor <= self.chars.len(),
                self.position == counted + (self.cursor - start),
                self.wf(),
                whole == (self.cursor as int, false),
                num_str@ == chars.subrange(start, self.cursor as int),
            decreases self.chars.len() - self.cursor,
        {
            let c: char = self.chars[self.cursor];
            if digit(c) || special(c) {
                if special(c) {
                    if contains_char(&special_char_vec, c) {
                        return Err(self.error("Invalid number format"));
                    }
                    special_char_vec.push(c);
                }
                num_str.push(c);
                self.cursor = self.cursor + 1;
                self.position = self.position + 1;
                assert(num_str@ =~= chars.subrange(start, self.cursor as int));
            } else {
                break;
            }
        }
        if is_float_text(&num_str) {
            Ok(GraphValue::Number(string_of(&num_str)))
        } else {
            Err(self.error("Invalid number format"))
        }
    }

    /// Takes in up to four characters and gives them back.
    fn take_word(&mut self) -> (word: Vec<char>)
        requires
            old(self).wf(),
        ensures
            final(self).wf(),
            final(self).chars@ == old(self).chars@,
            final(self).cursor == word_end(old(self).chars@, old(self).cursor as int),
            final(self).position == old(self).position + (final(self).cursor - old(self).cursor),
            word@ == old(self).chars@.subrange(old(self).cursor as int, final(self).cursor as int),
    {
        let mut word: Vec<char> = Vec::new();
        let ghost start = self.cursor as int;
        let mut taken: usize = 0;
        while taken < 4 && self.cursor < self.chars.len()
            invariant
                taken <= 4,
                self.chars@ == old(self).chars@,
                self.cursor == start + taken,
                self.cursor <= self.chars.len(),
                self.position == old(self).position + taken,
                self.wf(),
                word@ == self.chars@.subrange(start, self.cursor as int),
            decreases 4 - taken,
        {
            word.push(self.chars[self.cursor]);
            self.cursor = self.cursor + 1;
            self.position = self.position + 1;
            taken = taken + 1;
            assert(word@ =~= self.chars@.subrange(start, self.cursor as int));
        }
        word
    }

    fn parse_null(&mut self) -> (r: Result<GraphValue, GraphParseError>)
        requires
            old(self).wf(),
        ensures
            agrees(r, null(old(self).chars@, old(self).cursor as int, old(self).position as int)),
            final(self).follows(
                old(self),
                null(old(self).chars@, old(self).cursor as int, old(self).position as int),
            ),
    {
        let word = self.take_word();
        if is_word(&word, "null") {
            Ok(GraphValue::Null)
        } else {
            Err(self.error("Invalid null value"))
        }
    }

    fn parse_boolean(&mut self) -> (r: Result<GraphValue, GraphParseError>)
        requires
            old(self).wf(),
        ensures
            agrees(
                r,
                boolean(old(self).chars@, old(self).cursor as int, old(self).position as int),
            ),
            final(self).follows(
                old(self),
                boolean(old(self).chars@, old(self).cursor as int, old(self).position as int),
            ),
    {
        let word = self.take_word();
        if is_word(&word, "true") {
            Ok(GraphValue::Boolean(true))
        } else if is_word(&word, "fals") {
            if self.cursor < self.chars.len() {
                let c: char = self.chars[self.cursor];
                self.cursor = self.cursor + 1;
                if c == 'e' {
                    self.position = self.position + 1;
                    Ok(GraphValue::Boolean(false))
                } else {
                    Err(self.error("Invalid boolean value"))
                }
            } else {
                Err(self.error("Invalid boolean value"))
            }
        } else {
            Err(self.error("Invalid boolean value"))
        }
    }

    fn skip_whitespace(&mut self)
        requires
            old(self).wf(),
        ensures
            final(self).wf(),
            final(self).chars@ == old(self).chars@,
            final(self).cursor == skip_whitespace(old(self).chars@, old(self).cursor as int),
            final(self).position == old(self).position + (final(self).cursor - old(self).cursor),
    {
        while self.cursor < self.chars.len() && whitespace(self.chars[self.cursor])
            invariant
                self.wf(),
                self.chars@ == old(self).chars@,
                self.cursor >= old(self).cursor,
                self.position == old(self).position + (self.cursor - old(self).cursor),
                skip_whitespace(old(self).chars@, old(self).cursor as int) == skip_whitespace(
                    self.chars@,
                    self.cursor as int,
                ),
            decreases self.chars.len() - self.cursor,
        {
            self.cursor = self.cursor + 1;
            self.position = self.position + 1;
        }
    }

    fn expect_char(&mut self, expected: char) -> (r: Result<(), GraphParseError>)
        requires
            old(self).wf(),
        ensures
            agrees_unit(
                r,
                expect(
                    old(self).chars@,
                    old(self).cursor as int,
                    old(self).position as int,
                    expected,
                ),
            ),
            final(self).follows(
                old(self),
                expect(
                    old(self).chars@,
                    old(self).cursor as int,
                    old(self).position as int,
                    expected,
                ),
            ),
    {
        if self.cursor < self.chars.len() {
            let c: char = self.chars[self.cursor];
            self.cursor = self.cursor + 1;
            if c == expected {
                self.position = self.position + 1;
                Ok(())
            } else {
                let mut message: String = String::from_str("Expected '");
                message.push(expected);
                message.append("', found '");
                message.push(c);
                message.append("'");
                assert(message@ =~= found_message(expected, c));
                Err(GraphParseError { message, position: self.position })
            }
        } else {
            let mut message: String = String::from_str("Expected '");
            message.push(expected);
            message.append("' but reached end");
            assert(message@ =~= end_message(expected));
            Err(GraphParseError { message, position: self.position })
        }
    }

    /// A failure at the place where the reader stands.
    fn error(&self, message: &str) -> (e: GraphParseError)
        ensures
            e.message@ == message@,
            e.position == self.position,
    {
        GraphParseError { message: String::from_str(message), position: self.position }
    }
}

/// Whether `c` is among `v`.
fn contains_char(v: &Vec<char>, c: char) -> (r: bool)
    ensures
        r == v@.contains(c),
{
    let mut i: usize = 0;
    while i < v.len()
        invariant
            i <= v.len(),
            forall|k: int| 0 <= k < i ==> v[k] != c,
        decreases v.len() - i,
    {
        if v[i] == c {
            return true;
        }
        i = i + 1;
    }
    false
}

/// Whether the characters of `v` are those of `word`.
fn is_word(v: &Vec<char>, word: &str) -> (r: bool)
    ensures
        r == (v@ == word@),
{
    let given = string_of(v);
    given == String::from_str(word)
}

/// A value that is read takes in at least one character, and none beyond
/// the end of the text.
pub proof fn lemma_value_advances(chars: Seq<char>, at: int, position: int)
    ensures
        value(chars, at, position).value is Ok ==> at < value(chars, at, position).at
            <= chars.len(),
    decreases chars.len() - at, 2int,
{
    if 0 <= at < chars.len() {
        let c = chars[at];
        if c == '{' {
            lemma_members_advance(chars, at + 1, position + 1, Seq::<(Tree, Tree)>::empty());
        } else if c == '[' {
            lemma_elements_advance(chars, at + 1, position + 1, Seq::<Tree>::empty());
        } else if c == '"' {
            lemma_string_advances(chars, at, position);
        } else if c == 't' || c == 'f' {
        } else if c == 'n' {
        } else if is_digit(c) || is_special(c) {
            lemma_scan_number(chars, at, Seq::<char>::empty());
        }
    }
}

/// The characters of a number end within the text, and beyond its first
/// character where that is a digit or a special character not seen before.
pub proof fn lemma_scan_number(chars: Seq<char>, at: int, seen: Seq<char>)
    requires
        0 <= at <= chars.len(),
    ensures
        at <= scan_number(chars, at, seen).0 <= chars.len(),
        at < chars.len() && (is_digit(chars[at]) || (is_special(chars[at]) && !seen.contains(
            chars[at],
        ))) ==> at < scan_number(chars, at, seen).0,
    decreases chars.len() - at,
{
    if at < chars.len() {
        let c = chars[at];
        if is_digit(c) {
            lemma_scan_number(chars, at + 1, seen);
        } else if is_special(c) && !seen.contains(c) {
            lemma_scan_number(chars, at + 1, seen.push(c));
        }
    }
}

/// A member that is read takes in at least one character, and none beyond
/// the end of the text.
pub proof fn lemma_member_advances(chars: Seq<char>, at: int, position: int)
    ensures
        member(chars, at, position).value is Ok ==> at < member(chars, at, position).at
            <= chars.len(),
    decreases chars.len() - at, 3int,
{
    let key = string(chars, at, position);
    lemma_string_advances(chars, at, position);
    if key.value is Ok {
        lemma_skip_whitespace(chars, key.at);
        let c2 = skip_whitespace(chars, key.at);
        let p2 = key.position + (c2 - key.at);
        let colon = expect(chars, c2, p2, ':');
        if colon.value is Ok {
            lemma_skip_whitespace(chars, colon.at);
            let c3 = skip_whitespace(chars, colon.at);
            let p3 = colon.position + (c3 - colon.at);
            lemma_value_advances(chars, c3, p3);
        }
    }
}

/// The members of an object that are read end within the text, beyond
/// the place where they begin.
pub proof fn lemma_members_advance(
    chars: Seq<char>,
    at: int,
    position: int,
    so_far: Seq<(Tree, Tree)>,
)
    requires
        0 <= at <= chars.len(),
    ensures
        members(chars, at, position, so_far).value is Ok ==> at < members(
            chars,
            at,
            position,
            so_far,
        ).at <= chars.len(),
    decreases chars.len() - at, 4int,
{
    lemma_skip_whitespace(chars, at);
    let c1 = skip_whitespace(chars, at);
    let p1 = position + (c1 - at);
    if peek(chars, c1) != Some('}') {
        let read = member(chars, c1, p1);
        if read.value is Ok && c1 < read.at <= chars.len() {
            lemma_skip_whitespace(chars, read.at);
            let c4 = skip_whitespace(chars, read.at);
            let p4 = read.position + (c4 - read.at);
            if peek(chars, c4) == Some(',') {
                lemma_members_advance(chars, c4 + 1, p4 + 1, so_far.push(read.value->Ok_0));
            }
        }
    }
}

/// The elements of a list that are read end within the text, beyond the
/// place where they begin.
pub proof fn lemma_elements_advance(chars: Seq<char>, at: int, position: int, so_far: Seq<Tree>)
    requires
        0 <= at <= chars.len(),
    ensures
        elements(chars, at, position, so_far).value is Ok ==> at < elements(
            chars,
            at,
            position,
            so_far,
        ).at <= chars.len(),
    decreases chars.len() - at, 4int,
{
    lemma_skip_whitespace(chars, at);
    let c1 = skip_whitespace(chars, at);
    let p1 = position + (c1 - at);
    if peek(chars, c1) != Some(']') {
        let read = value(chars, c1, p1);
        if read.value is Ok && c1 < read.at <= chars.len() {
            lemma_skip_whitespace(chars, read.at);
            let c2 = skip_whitespace(chars, read.at);
            let p2 = read.position + (c2 - read.at);
            if peek(chars, c2) == Some(',') {
                lemma_elements_advance(chars, c2 + 1, p2 + 1, so_far.push(read.value->Ok_0));
            }
        }
    }
}

} // verus!
