//! Turning a matrix by a quarter.

use vstd::prelude::*;

verus! {

/// Whether every row of `m` has `cols` entries.
pub open spec fn rectangular(m: Seq<Vec<i32>>, cols: int) -> bool {
    forall|i: int| 0 <= i < m.len() ==> (#[trigger] m[i]).len() == cols
}

/// Whether `turned` is `m`, a matrix of `rows` rows and `cols` columns,
/// turned clockwise by 90 degrees: it has a row for every column of `m`, and
/// each row holds that column from the bottom up.
pub open spec fn is_quarter_turn(
    turned: Seq<Vec<i32>>,
    m: Seq<Vec<i32>>,
    rows: int,
    cols: int,
) -> bool {
    &&& turned.len() == cols
    &&& rectangular(turned, rows)
    &&& forall|j: int, i: int|
        0 <= j < cols && 0 <= i < rows ==> #[trigger] turned[j][i] == m[rows - 1 - i][j]
}

/// Turns `matrix` clockwise by 90 degrees.
///
/// The matrix has at least one row, and all its rows have the same length.
/// A matrix whose rows are empty is left without rows.
pub fn rotate_matrix_90_degrees(matrix: &mut Vec<Vec<i32>>)
    requires
        old(matrix).len() > 0,
        rectangular(old(matrix)@, old(matrix)[0].len() as int),
    ensures
        is_quarter_turn(
            final(matrix)@,
            old(matrix)@,
            old(matrix).len() as int,
            old(matrix)[0].len() as int,
        ),
{
    let rows: usize = matrix.len();
    let cols: usize = matrix[0].len();
    let mut turned: Vec<Vec<i32>> = Vec::new();
    let mut j: usize = 0;
    while j < cols
        invariant
            j <= cols,
            rows == matrix.len(),
            rows > 0,
            rectangular(matrix@, cols as int),
            turned.len() == j,
            rectangular(turned@, rows as int),
            forall|c: int, i: int|
                0 <= c < j && 0 <= i < rows ==> #[trigger] turned[c][i] == matrix[rows - 1 - i][c],
        decreases cols - j,
    {
        let mut column: Vec<i32> = Vec::new();
        let mut i: usize = 0;
        while i < rows
            invariant
                i <= rows,
                j < cols,
                rows == matrix.len(),
                rectangular(matrix@, cols as int),
                column.len() == i,
                forall|k: int| 0 <= k < i ==> #[trigger] column[k] == matrix[rows - 1 - k][j as int],
            decreases rows - i,
        {
            let row = &matrix[rows - 1 - i];
            assert(row.len() == cols);
            column.push(row[j]);
            i = i + 1;
        }
        turned.push(column);
        j = j + 1;
    }
    *matrix = turned;
}

} // verus!
