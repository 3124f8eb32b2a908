//! A reader for the same notation as the graph reader's, in which the
//! members of an object are kept by their keys: of members with the same
//! key the last one counts.

use vstd::prelude::*;
use vstd::string::*;

use crate::graph_parser::{
    document, items_of, lemma_tree_of_collections, members_of, tree_of, Failure, GraphParser,
    GraphValue, Outcome, Tree,
};

verus! {

/// A value that a text denotes.
#[derive(Debug, PartialEq)]
pub enum JsonValue {
    /// An object: its members, no key twice, in the order in which the keys
    /// first occur in the text.
    Object(Vec<(String, JsonValue)>),
    /// A list.
    Array(Vec<JsonValue>),
    /// A string.
    String(String),
    /// A number, as the text writes it.
    Number(String),
    /// `true` or `false`.
    Boolean(bool),
    /// `null`.
    Null,
}

/// Why a text was not read, and how many characters had been taken in.
#[derive(Debug)]
pub struct JsonParseError {
    pub message: String,
    pub position: usize,
}

/// A reader over a text.
pub struct JsonParser {
    reader: GraphParser,
}

/// A value as a mathematical tree.
pub enum JsonTree {
    Object(Seq<(Seq<char>, JsonTree)>),
    Array(Seq<JsonTree>),
    Text(Seq<char>),
    Number(Seq<char>),
    Boolean(bool),
    Null,
}

/// The index of the member with the key `key`, or the number of members if
/// there is none.
pub open spec fn index_of_key(entries: Seq<(Seq<char>, JsonTree)>, key: Seq<char>) -> int
    decreases entries.len(),
{
    if entries.len() == 0 {
        0
    } else {
        let before = index_of_key(entries.drop_last(), key);
        if before < entries.len() - 1 {
            before
        } else if entries.last().0 == key {
            entries.len() - 1
        } else {
            entries.len() as int
        }
    }
}

/// Puts a member into an object: it takes the place of the member with the
/// same key, or comes last if there is none.
pub open spec fn put(entries: Seq<(Seq<char>, JsonTree)>, key: Seq<char>, value: JsonTree) -> Seq<
    (Seq<char>, JsonTree),
> {
    let i = index_of_key(entries, key);
    if i < entries.len() {
        entries.update(i, (key, value))
    } else {
        entries.push((key, value))
    }
}

/// The text of a key: that of a string, and none for any other value.
pub open spec fn key_text(key: Tree) -> Seq<char> {
    match key {
        Tree::Text(s) => s,
        _ => Seq::<char>::empty(),
    }
}

/// The members of an object by their keys: the first `n` members of
/// `members` are put one after another.
pub open spec fn keyed(members: Seq<(Tree, Tree)>, n: int) -> Seq<(Seq<char>, JsonTree)>
    decreases members, n,
{
    if n <= 0 || n > members.len() {
        Seq::<(Seq<char>, JsonTree)>::empty()
    } else {
        put(keyed(members, n - 1), key_text(members[n - 1].0), json_of(members[n - 1].1))
    }
}

/// The elements of a list: the first `n` elements of `items`.
pub open spec fn listed(items: Seq<Tree>, n: int) -> Seq<JsonTree>
    decreases items, n,
{
    if n <= 0 || n > items.len() {
        Seq::<JsonTree>::empty()
    } else {
        listed(items, n - 1).push(json_of(items[n - 1]))
    }
}

/// The tree with its objects kept by their keys.
pub open spec fn json_of(tree: Tree) -> JsonTree
    decreases tree, 0int,
{
    match tree {
        Tree::Graph(members) => JsonTree::Object(keyed(members, members.len() as int)),
        Tree::Array(items) => JsonTree::Array(listed(items, items.len() as int)),
        Tree::Text(s) => JsonTree::Text(s),
        Tree::Number(s) => JsonTree::Number(s),
        Tree::Boolean(b) => JsonTree::Boolean(b),
        Tree::Null => JsonTree::Null,
    }
}

/// The tree that a value stands for.
pub open spec fn json_tree_of(v: JsonValue) -> JsonTree
    decreases v,
{
    match v {
        JsonValue::Object(entries) => JsonTree::Object(
            Seq::new(
                entries@.len(),
                |i: int|
                    if 0 <= i < entries@.len() {
                        (entries@[i].0@, json_tree_of(entries@[i].1))
                    } else {
                        (Seq::<char>::empty(), JsonTree::Null)
                    },
            ),
        ),
        JsonValue::Array(items) => JsonTree::Array(
            Seq::new(
                items@.len(),
                |i: int|
                    if 0 <= i < items@.len() {
                        json_tree_of(items@[i])
                    } else {
                        JsonTree::Null
                    },
            ),
        ),
        JsonValue::String(s) => JsonTree::Text(s@),
        JsonValue::Number(s) => JsonTree::Number(s@),
        JsonValue::Boolean(b) => JsonTree::Boolean(b),
        JsonValue::Null => JsonTree::Null,
    }
}

/// The trees that the members of an object stand for.
pub open spec fn entries_of(entries: Seq<(String, JsonValue)>) -> Seq<(Seq<char>, JsonTree)> {
    Seq::new(entries.len(), |i: int| (entries[i].0@, json_tree_of(entries[i].1)))
}

/// The trees that the elements of a list stand for.
pub open spec fn elements_of(items: Seq<JsonValue>) -> Seq<JsonTree> {
    Seq::new(items.len(), |i: int| json_tree_of(items[i]))
}

/// The tree of an object holds the trees of its members, and the tree of a
/// list those of its elements.
pub proof fn lemma_json_tree_of_collections(v: JsonValue)
    ensures
        v matches JsonValue::Object(entries) ==> json_tree_of(v) == JsonTree::Object(
            entries_of(entries@),
        ),
        v matches JsonValue::Array(items) ==> json_tree_of(v) == JsonTree::Array(
            elements_of(items@),
        ),
{
    match v {
        JsonValue::Object(entries) => {
            assert(json_tree_of(v)->Object_0 =~= entries_of(entries@));
        },
        JsonValue::Array(items) => {
            assert(json_tree_of(v)->Array_0 =~= elements_of(items@));
        },
        _ => {},
    }
}

/// Whether a result of the reader says what an outcome of the graph reader
/// says, with the objects kept by their keys.
pub open spec fn json_agrees(r: Result<JsonValue, JsonParseError>, out: Outcome<Tree>) -> bool {
    match r {
        Ok(v) => out.value is Ok && json_tree_of(v) == json_of(out.value->Ok_0),
        Err(e) => out.value == Err::<Tree, Failure>(
            Failure { message: e.message@, position: e.position as int },
        ),
    }
}

/// The index of the member with the key `key`, or the number of members.
fn find_key(entries: &Vec<(String, JsonValue)>, key: &String) -> (i: usize)
    ensures
        i == index_of_key(entries_of(entries@), key@),
        i <= entries.len(),
{
    let mut k: usize = 0;
    proof {
        assert(entries_of(entries@).take(0) =~= Seq::<(Seq<char>, JsonTree)>::empty());
    }
    while k < entries.len()
        invariant
            k <= entries.len(),
            index_of_key(entries_of(entries@).take(k as int), key@) == k,
        decreases entries.len() - k,
    {
        let ghost all = entries_of(entries@);
        proof {
            assert(all.take(k + 1).drop_last() =~= all.take(k as int));
            assert(all.take(k + 1).last().0 == entries[k as int].0@);
        }
        if entries[k].0 == *key {
            proof {
                lemma_index_of_key_found(all, k as int, key@);
            }
            return k;
        }
        k = k + 1;
    }
    proof {
        assert(entries_of(entries@).take(entries.len() as int) =~= entries_of(entries@));
    }
    k
}

/// A key that is first found at `k` among the first `k + 1` members is
/// first found there among all of them.
proof fn lemma_index_of_key_found(entries: Seq<(Seq<char>, JsonTree)>, k: int, key: Seq<char>)
    requires
        0 <= k < entries.len(),
        index_of_key(entries.take(k + 1), key) == k,
    ensures
        index_of_key(entries, key) == k,
    decreases entries.len(),
{
    if k + 1 == entries.len() {
        assert(entries.take(k + 1) =~= entries);
    } else {
        assert(entries.drop_last().take(k + 1) =~= entries.take(k + 1));
        lemma_index_of_key_found(entries.drop_last(), k, key);
    }
}

/// Puts a member into an object.
fn put_entry(entries: &mut Vec<(String, JsonValue)>, key: String, value: JsonValue)
    ensures
        entries_of(final(entries)@) == put(entries_of(old(entries)@), key@, json_tree_of(value)),
{
    let i: usize = find_key(entries, &key);
    let ghost before = entries_of(entries@);
    if i < entries.len() {
        entries.set(i, (key, value));
        assert(entries_of(entries@) =~= before.update(i as int, (key@, json_tree_of(value))));
    } else {
        entries.push((key, value));
        assert(entries_of(entries@) =~= before.push((key@, json_tree_of(value))));
    }
}

/// The value with its objects kept by their keys.
pub fn to_json(v: &GraphValue) -> (r: JsonValue)
    ensures
        json_tree_of(r) == json_of(tree_of(*v)),
    decreases v,
{
    proof {
        lemma_tree_of_collections(*v);
    }
    match v {
        GraphValue::Graph(members) => {
            let ghost trees = members_of(members@);
            let mut entries: Vec<(String, JsonValue)> = Vec::new();
            let mut i: usize = 0;
            proof {
                assert(entries_of(entries@) =~= keyed(trees, 0));
            }
            while i < members.len()
                invariant
                    i <= members.len(),
                    trees == members_of(members@),
                    *v == GraphValue::Graph(*members),
                    entries_of(entries@) == keyed(trees, i as int),
                decreases members.len() - i,
            {
                let key: String = match &members[i].0 {
                    GraphValue::String(s) => s.clone(),
                    _ => String::new(),
                };
                assert(key@ == key_text(trees[i as int].0));
                proof {
                    vstd::std_specs::vec::axiom_vec_index_decreases(*members, i as int);
                    assert(decreases_to!(*v => (*v)->Graph_0));
                    assert(decreases_to!(members[i as int] => members[i as int].1));
                }
                let value = to_json(&members[i].1);
                put_entry(&mut entries, key, value);
                i = i + 1;
            }
            proof {
                lemma_json_tree_of_collections(JsonValue::Object(entries));
            }
            JsonValue::Object(entries)
        },
        GraphValue::Array(items) => {
            let ghost trees = items_of(items@);
            let mut list: Vec<JsonValue> = Vec::new();
            let mut i: usize = 0;
            proof {
                assert(elements_of(list@) =~= listed(trees, 0));
            }
            while i < items.len()
                invariant
                    i <= items.len(),
                    trees == items_of(items@),
                    *v == GraphValue::Array(*items),
                    elements_of(list@) == listed(trees, i as int),
                decreases items.len() - i,
            {
                proof {
                    vstd::std_specs::vec::axiom_vec_index_decreases(*items, i as int);
                    assert(decreases_to!(*v => (*v)->Array_0));
                }
                let value = to_json(&items[i]);
                let ghost before = elements_of(list@);
                list.push(value);
                assert(elements_of(list@) =~= before.push(json_tree_of(value)));
                i = i + 1;
            }
            proof {
                lemma_json_tree_of_collections(JsonValue::Array(list));
            }
            JsonValue::Array(list)
        },
        GraphValue::String(s) => JsonValue::String(s.clone()),
        GraphValue::Number(s) => JsonValue::Number(s.clone()),
        GraphValue::Boolean(b) => JsonValue::Boolean(*b),
        GraphValue::Null => JsonValue::Null,
    }
}

impl JsonParser {
    /// The text that is read.
    pub closed spec fn text(&self) -> Seq<char> {
        self.reader.text()
    }

    /// The index of the next character.
    pub closed spec fn at(&self) -> int {
        self.reader.at()
    }

    /// How many characters have been taken in and counted.
    pub closed spec fn position(&self) -> int {
        self.reader.position()
    }

    /// The reader is in order.
    pub closed spec fn wf(&self) -> bool {
        self.reader.wf()
    }

    /// A reader at the beginning of `input`.
    pub fn new(input: &str) -> (parser: Self)
        ensures
            parser.wf(),
            parser.text() == input@,
            parser.at() == 0,
            parser.position() == 0,
    {
        JsonParser { reader: GraphParser::new(input) }
    }

    /// Reads the value that the text denotes from where the reader stands.
    /// White space before the value is passed over; what follows the value
    /// is not looked at.
    pub fn parse(&mut self) -> (r: Result<JsonValue, JsonParseError>)
        requires
            old(self).wf(),
        ensures
            json_agrees(r, document(old(self).text(), old(self).at(), old(self).position())),
            final(self).wf(),
            final(self).text() == old(self).text(),
            final(self).at() == document(old(self).text(), old(self).at(), old(self).position()).at,
            final(self).position() == document(
                old(self).text(),
                old(self).at(),
                old(self).position(),
            ).position,
    {
        match self.reader.parse() {
            Ok(v) => Ok(to_json(&v)),
            Err(e) => Err(JsonParseError { message: e.message, position: e.position }),
        }
    }
}

} // verus!
