//! Merging intervals that overlap.

use vstd::prelude::*;

verus! {

/// An interval by its two ends.
pub type Pair = (int, int);

/// The intervals that the rows of `rows` name: the first two entries of
/// each row.
pub open spec fn pairs_of(rows: Seq<Vec<i32>>) -> Seq<Pair> {
    Seq::new(rows.len(), |i: int| (rows[i][0] as int, rows[i][1] as int))
}

/// Puts an interval into a table that is ordered by the start of its
/// intervals and holds one interval for every start: an interval with the
/// same start is replaced.
pub open spec fn upsert(table: Seq<Pair>, start: int, end: int) -> Seq<Pair>
    decreases table.len(),
{
    if table.len() == 0 {
        seq![(start, end)]
    } else if table.last().0 < start {
        table.push((start, end))
    } else if table.last().0 == start {
        table.drop_last().push((start, end))
    } else {
        upsert(table.drop_last(), start, end).push(table.last())
    }
}

/// The intervals in the order of their starts, where of those with the same
/// start the last one given counts.
pub open spec fn table_of(pairs: Seq<Pair>) -> Seq<Pair>
    decreases pairs.len(),
{
    if pairs.len() == 0 {
        Seq::<Pair>::empty()
    } else {
        upsert(table_of(pairs.drop_last()), pairs.last().0, pairs.last().1)
    }
}

/// What is left of a table once neighbours that overlap are joined: an
/// interval that starts no later than the one before it ends is taken into
/// that one, whose end moves out to the end of the new one where that lies
/// further; any other interval follows as it is.
pub open spec fn merged(table: Seq<Pair>) -> Seq<Pair>
    decreases table.len(),
{
    if table.len() == 0 {
        Seq::<Pair>::empty()
    } else {
        let front = merged(table.drop_last());
        let next = table.last();
        if front.len() > 0 && next.0 <= front.last().1 {
            if next.1 > front.last().1 {
                front.drop_last().push((front.last().0, next.1))
            } else {
                front
            }
        } else {
            front.push(next)
        }
    }
}

/// A table of machine integers as a table of mathematical ones.
pub open spec fn table_view(table: Seq<(i32, i32)>) -> Seq<Pair> {
    table.map_values(|p: (i32, i32)| (p.0 as int, p.1 as int))
}

/// Whether the rows of `rows` are the intervals `pairs`, each row the start
/// and the end of one.
pub open spec fn rows_are(rows: Seq<Vec<i32>>, pairs: Seq<Pair>) -> bool {
    &&& rows.len() == pairs.len()
    &&& forall|i: int|
        0 <= i < rows.len() ==> (#[trigger] rows[i])@ == seq![pairs[i].0 as i32, pairs[i].1 as i32]
}

/// Putting an interval into a table whose intervals from `k` on all start
/// later leaves those behind the place that the interval takes.
proof fn lemma_upsert_at(table: Seq<Pair>, k: int, start: int, end: int)
    requires
        0 <= k <= table.len(),
        forall|i: int| k <= i < table.len() ==> (#[trigger] table[i]).0 > start,
        k > 0 ==> table[k - 1].0 <= start,
    ensures
        k > 0 && table[k - 1].0 == start ==> upsert(table, start, end) == table.update(
            k - 1,
            (start, end),
        ),
        k == 0 || table[k - 1].0 < start ==> upsert(table, start, end) == table.insert(
            k,
            (start, end),
        ),
    decreases table.len() - k,
{
    if k == table.len() {
        if k == 0 {
            assert(table.insert(0, (start, end)) =~= seq![(start, end)]);
        } else if table.last().0 == start {
            assert(table.drop_last().push((start, end)) =~= table.update(k - 1, (start, end)));
        } else {
            assert(table.push((start, end)) =~= table.insert(k, (start, end)));
        }
    } else {
        let front = table.drop_last();
        lemma_upsert_at(front, k, start, end);
        if k > 0 && table[k - 1].0 == start {
            assert(front.update(k - 1, (start, end)).push(table.last()) =~= table.update(
                k - 1,
                (start, end),
            ));
        } else {
            assert(front.insert(k, (start, end)).push(table.last()) =~= table.insert(
                k,
                (start, end),
            ));
        }
    }
}

/// Puts the interval from `start` to `end` into `table`.
fn put(table: &mut Vec<(i32, i32)>, start: i32, end: i32)
    ensures
        table_view(final(table)@) == upsert(table_view(old(table)@), start as int, end as int),
{
    let ghost before = table_view(table@);
    let mut k: usize = table.len();
    while k > 0 && table[k - 1].0 > start
        invariant
            k <= table.len(),
            table@ == old(table)@,
            forall|i: int| k <= i < table.len() ==> (#[trigger] table[i]).0 > start,
        decreases k,
    {
        k = k - 1;
    }
    proof {
        assert forall|i: int| k <= i < before.len() implies (#[trigger] before[i]).0 > start by {
            assert(before[i].0 == table[i].0);
        }
        if k > 0 {
            assert(before[k - 1].0 == table[k - 1].0);
        }
        lemma_upsert_at(before, k as int, start as int, end as int);
    }
    if k > 0 && table[k - 1].0 == start {
        table.set(k - 1, (start, end));
        assert(table_view(table@) =~= before.update(k - 1, (start as int, end as int)));
    } else {
        table.insert(k, (start, end));
        assert(table_view(table@) =~= before.insert(k as int, (start as int, end as int)));
    }
}

/// A row that holds the two ends of an interval.
fn row_of(start: i32, end: i32) -> (row: Vec<i32>)
    ensures
        row@ == seq![start, end],
{
    let mut row: Vec<i32> = Vec::new();
    row.push(start);
    row.push(end);
    assert(row@ =~= seq![start, end]);
    row
}

/// Merges the intervals that overlap.
///
/// Every row names an interval by its first two entries, the start and the
/// end, both included; there is at least one row. The intervals are taken in
/// the order of their starts, where of several with the same start the last
/// row counts. An interval that starts no later than the one before it ends
/// is joined to that one. The rows of the answer are the intervals that are
/// left, each with its start and its end.
pub fn merge_intervals(intervals: Vec<Vec<i32>>) -> (result: Vec<Vec<i32>>)
    requires
        intervals.len() > 0,
        forall|i: int| 0 <= i < intervals.len() ==> (#[trigger] intervals[i]).len() >= 2,
    ensures
        rows_are(result@, merged(table_of(pairs_of(intervals@)))),
{
    let ghost pairs = pairs_of(intervals@);
    let mut table: Vec<(i32, i32)> = Vec::new();
    let mut i: usize = 0;
    proof {
        assert(pairs.take(0) =~= Seq::<Pair>::empty());
        assert(table_view(table@) =~= Seq::<Pair>::empty());
    }
    while i < intervals.len()
        invariant
            i <= intervals.len(),
            pairs == pairs_of(intervals@),
            forall|k: int| 0 <= k < intervals.len() ==> (#[trigger] intervals[k]).len() >= 2,
            table_view(table@) == table_of(pairs.take(i as int)),
        decreases intervals.len() - i,
    {
        proof {
            assert(pairs.take(i + 1).drop_last() =~= pairs.take(i as int));
        }
        let row = &intervals[i];
        put(&mut table, row[0], row[1]);
        i = i + 1;
    }
    proof {
        assert(pairs.take(intervals.len() as int) =~= pairs);
        lemma_table_nonempty(pairs);
    }
    let ghost sorted = table_view(table@);
    let mut result: Vec<Vec<i32>> = Vec::new();
    let mut current: (i32, i32) = table[0];
    let ghost mut closed: Seq<Pair> = Seq::<Pair>::empty();
    proof {
        assert(sorted.take(1).drop_last() =~= Seq::<Pair>::empty());
        assert(merged(sorted.take(1).drop_last()) =~= Seq::<Pair>::empty());
        assert(merged(sorted.take(1)) =~= closed.push((current.0 as int, current.1 as int)));
    }
    let mut i: usize = 1;
    while i < table.len()
        invariant
            1 <= i <= table.len(),
            sorted == table_view(table@),
            rows_are(result@, closed),
            merged(sorted.take(i as int)) == closed.push((current.0 as int, current.1 as int)),
        decreases table.len() - i,
    {
        proof {
            assert(sorted.take(i + 1).drop_last() =~= sorted.take(i as int));
            assert(sorted.take(i + 1).last() == (table[i as int].0 as int, table[i as int].1 as int));
            assert(closed.push((current.0 as int, current.1 as int)).drop_last() =~= closed);
        }
        let next: (i32, i32) = table[i];
        if next.0 <= current.1 {
            if next.1 > current.1 {
                current = (current.0, next.1);
            }
        } else {
            result.push(row_of(current.0, current.1));
            proof {
                closed = closed.push((current.0 as int, current.1 as int));
            }
            current = next;
        }
        i = i + 1;
    }
    proof {
        assert(sorted.take(table.len() as int) =~= sorted);
    }
    result.push(row_of(current.0, current.1));
    result
}

/// Putting an interval into a table leaves a table that is not empty.
proof fn lemma_upsert_nonempty(table: Seq<Pair>, start: int, end: int)
    ensures
        upsert(table, start, end).len() > 0,
    decreases table.len(),
{
    if table.len() > 0 && table.last().0 > start {
        lemma_upsert_nonempty(table.drop_last(), start, end);
    }
}

/// The table of at least one interval is not empty.
proof fn lemma_table_nonempty(pairs: Seq<Pair>)
    requires
        pairs.len() > 0,
    ensures
        table_of(pairs).len() > 0,
{
    lemma_upsert_nonempty(table_of(pairs.drop_last()), pairs.last().0, pairs.last().1);
}

} // verus!
