//! Counting the different fields of a list.

use vstd::prelude::*;

use crate::text::{chars_of, pieces_view, split, split_chars};

verus! {

/// Whether two lists of characters hold the same characters.
fn same_chars(a: &Vec<char>, b: &Vec<char>) -> (r: bool)
    ensures
        r == (a@ == b@),
{
    if a.len() != b.len() {
        return false;
    }
    let mut i: usize = 0;
    while i < a.len()
        invariant
            i <= a.len(),
            a.len() == b.len(),
            forall|k: int| 0 <= k < i ==> a[k] == b[k],
        decreases a.len() - i,
    {
        if a[i] != b[i] {
            return false;
        }
        i = i + 1;
    }
    assert(a@ =~= b@);
    true
}

/// Whether `piece` is among the first `n` of `pieces`.
fn seen_before(pieces: &Vec<Vec<char>>, n: usize, piece: &Vec<char>) -> (r: bool)
    requires
        n <= pieces.len(),
    ensures
        r == pieces_view(pieces@).take(n as int).contains(piece@),
{
    let ghost front = pieces_view(pieces@).take(n as int);
    let mut k: usize = 0;
    while k < n
        invariant
            k <= n <= pieces.len(),
            front == pieces_view(pieces@).take(n as int),
            forall|j: int| 0 <= j < k ==> front[j] != piece@,
        decreases n - k,
    {
        assert(front[k as int] == pieces[k as int]@);
        if same_chars(&pieces[k], piece) {
            return true;
        }
        k = k + 1;
    }
    false
}

/// The number of different fields among those that commas separate in
/// `input_str`. A text without comma is one field, and so is an empty one.
pub fn new_count_distinct(input_str: &str) -> (count: usize)
    ensures
        count == split(input_str@, ',').to_set().len(),
{
    let chars = chars_of(input_str);
    let pieces = split_chars(&chars, ',');
    let ghost all = pieces_view(pieces@);
    let mut count: usize = 0;
    let mut i: usize = 0;
    proof {
        assert(all.take(0).to_set() =~= Set::<Seq<char>>::empty());
    }
    while i < pieces.len()
        invariant
            i <= pieces.len(),
            all == pieces_view(pieces@),
            all.take(i as int).to_set().finite(),
            count == all.take(i as int).to_set().len(),
            count <= i,
        decreases pieces.len() - i,
    {
        let ghost before = all.take(i as int);
        let ghost after = all.take(i + 1);
        proof {
            assert(after =~= before.push(all[i as int]));
            assert(after.to_set() =~= before.to_set().insert(all[i as int])) by {
                assert forall|x: Seq<char>| after.to_set().contains(x) <==> before.to_set().insert(
                    all[i as int],
                ).contains(x) by {
                    if after.contains(x) {
                        let k = choose|k: int| 0 <= k < after.len() && after[k] == x;
                        if k < i {
                            assert(before[k] == x);
                        }
                    }
                    if before.contains(x) {
                        let k = choose|k: int| 0 <= k < before.len() && before[k] == x;
                        assert(after[k] == x);
                    }
                    if x == all[i as int] {
                        assert(after[i as int] == x);
                    }
                }
            }
            assert(all[i as int] == pieces[i as int]@);
        }
        if !seen_before(&pieces, i, &pieces[i]) {
            count = count + 1;
        }
        i = i + 1;
    }
    proof {
        assert(all.take(pieces.len() as int) =~= all);
    }
    count
}

} // verus!
