//! The volatility grid of the cap/floor term-volatility surface: one row per
//! option tenor, one column per strike, given as a list of lists.
use vstd::prelude::*;

use crate::common::ErrorKind;

verus! {

/// Why a list of lists is not a grid.
#[derive(Debug, Clone, Copy, PartialEq, Eq)]
pub enum GridError {
    /// There is no row.
    NoRows,
    /// The first row is empty.
    NoColumns,
    /// Some row's length differs from the first row's.
    Ragged,
}

impl GridError {
    /// Every grid rejection is an `ItofinError`.
    pub fn kind(&self) -> (k: ErrorKind)
        ensures
            k == ErrorKind::Itofin,
    {
        ErrorKind::Itofin
    }
}

/// Whether every row has `columns` entries.
pub open spec fn rows_have_length<T>(rows: Seq<Vec<T>>, columns: nat) -> bool {
    forall|i: int| 0 <= i < rows.len() ==> (#[trigger] rows[i])@.len() == columns
}

/// The grid check: at least one row, a non-empty first row, and every row as
/// long as the first, whose length is the column count.
pub open spec fn check_grid_spec<T>(rows: Seq<Vec<T>>) -> Result<usize, GridError> {
    if rows.len() == 0 {
        Err(GridError::NoRows)
    } else if rows[0]@.len() == 0 {
        Err(GridError::NoColumns)
    } else if !rows_have_length(rows, rows[0]@.len()) {
        Err(GridError::Ragged)
    } else {
        Ok(rows[0]@.len() as usize)
    }
}

/// A list of lists is a grid of `c` columns exactly when it has a row and
/// every row has the same `c > 0` entries; an empty list has no rows, and a
/// list whose rows are not all as long as its non-empty first row is ragged.
pub proof fn lemma_grid_shape<T>(rows: Seq<Vec<T>>, c: usize)
    requires
        forall|i: int| 0 <= i < rows.len() ==> (#[trigger] rows[i])@.len() <= usize::MAX,
    ensures
        check_grid_spec(rows) == Ok::<usize, GridError>(c) <==> (rows.len() > 0 && c > 0
            && forall|i: int| 0 <= i < rows.len() ==> (#[trigger] rows[i])@.len() == c),
        check_grid_spec(rows) == Err::<usize, GridError>(GridError::NoRows) <==> rows.len() == 0,
        (rows.len() > 0 && rows[0]@.len() > 0 && exists|i: int|
            0 <= i < rows.len() && (#[trigger] rows[i])@.len() != rows[0]@.len())
            ==> check_grid_spec(rows) == Err::<usize, GridError>(GridError::Ragged),
{
    if rows.len() > 0 && c > 0 && forall|i: int| 0 <= i < rows.len() ==> (#[trigger] rows[i])@.len() == c {
        assert(rows[0]@.len() == c);
    }
    if rows.len() > 0 {
        assert(rows[0]@.len() <= usize::MAX);
    }
}

/// Rejects an empty or ragged grid; returns the common row length.
pub fn check_grid<T>(rows: &Vec<Vec<T>>) -> (r: Result<usize, GridError>)
    ensures
        r == check_grid_spec(rows@),
        r matches Ok(c) ==> c == rows@[0]@.len() && c > 0 && rows_have_length(rows@, c as nat),
{
    if rows.len() == 0 {
        return Err(GridError::NoRows);
    }
    let columns = rows[0].len();
    if columns == 0 {
        return Err(GridError::NoColumns);
    }
    let n = rows.len();
    for i in 0..n
        invariant
            n == rows@.len(),
            n > 0,
            columns == rows@[0]@.len(),
            columns > 0,
            forall|k: int| 0 <= k < i ==> (#[trigger] rows@[k])@.len() == columns,
    {
        if rows[i].len() != columns {
            assert(rows@[i as int]@.len() != columns);
            assert(!rows_have_length(rows@, rows@[0]@.len()));
            return Err(GridError::Ragged);
        }
    }
    Ok(columns)
}

/// A grid held row by row in one vector.
pub struct RowMajorMatrix<T> {
    rows: usize,
    columns: usize,
    data: Vec<T>,
}

impl<T> RowMajorMatrix<T> {
    #[verifier::type_invariant]
    spec fn shape_holds(self) -> bool {
        self.data@.len() == self.rows * self.columns
    }

    /// The number of rows.
    pub closed spec fn row_count(self) -> nat {
        self.rows as nat
    }

    /// The number of columns.
    pub closed spec fn column_count(self) -> nat {
        self.columns as nat
    }

    /// The entry in row `i`, column `j`.
    pub closed spec fn entry(self, i: int, j: int) -> T {
        self.data@[i * self.columns + j]
    }

    /// The number of rows.
    pub fn rows(&self) -> (n: usize)
        ensures
            n == self.row_count(),
    {
        self.rows
    }

    /// The number of columns.
    pub fn columns(&self) -> (n: usize)
        ensures
            n == self.column_count(),
    {
        self.columns
    }

    /// The entry in row `i`, column `j`.
    pub fn get(&self, i: usize, j: usize) -> (v: &T)
        requires
            i < self.row_count(),
            j < self.column_count(),
        ensures
            *v == self.entry(i as int, j as int),
    {
        proof {
            use_type_invariant(self);
            lemma_row_major_index(i as int, j as int, self.rows as int, self.columns as int);
        }
        let len = self.data.len();
        assert(i * self.columns + j < len);
        &self.data[i * self.columns + j]
    }
}

/// Row `i`, column `j` of a `rows` by `columns` grid lies inside it.
proof fn lemma_row_major_index(i: int, j: int, rows: int, columns: int)
    requires
        0 <= i < rows,
        0 <= j < columns,
    ensures
        0 <= i * columns + j < rows * columns,
        0 <= i * columns <= i * columns + j,
{
    assert(i * columns + j < rows * columns) by (nonlinear_arith)
        requires
            0 <= i < rows,
            0 <= j < columns,
    ;
    assert(0 <= i * columns) by (nonlinear_arith)
        requires
            0 <= i,
            0 <= columns,
    ;
}

/// A list of lists as a row-major matrix, one row per option tenor, after the
/// grid check.
pub fn matrix_from_rows<T: Copy>(rows: &Vec<Vec<T>>) -> (r: Result<RowMajorMatrix<T>, GridError>)
    ensures
        check_grid_spec(rows@) is Err ==> r == Err::<RowMajorMatrix<T>, GridError>(
            check_grid_spec(rows@)->Err_0,
        ),
        check_grid_spec(rows@) is Ok ==> (r matches Ok(m) && {
            &&& m.row_count() == rows@.len()
            &&& m.column_count() == check_grid_spec(rows@)->Ok_0
            &&& forall|i: int, j: int|
                0 <= i < m.row_count() && 0 <= j < m.column_count() ==> #[trigger] m.entry(i, j)
                    == rows@[i]@[j]
        }),
{
    let columns = match check_grid(rows) {
        Ok(c) => c,
        Err(e) => return Err(e),
    };
    let n = rows.len();
    let mut data: Vec<T> = Vec::new();
    assert(0 * columns == 0) by (nonlinear_arith);
    for i in 0..n
        invariant
            n == rows@.len(),
            columns > 0,
            rows_have_length(rows@, columns as nat),
            data@.len() == i * columns,
            forall|a: int, b: int|
                0 <= a < i && 0 <= b < columns ==> #[trigger] data@[a * columns + b] == rows@[a]@[b],
    {
        let row = &rows[i];
        assert(row@.len() == columns);
        let ghost before = data@;
        for j in 0..columns
            invariant
                n == rows@.len(),
                i < n,
                row@ == rows@[i as int]@,
                row@.len() == columns,
                data@.len() == i * columns + j,
                data@.subrange(0, i * columns) == before,
                before.len() == i * columns,
                forall|b: int| 0 <= b < j ==> #[trigger] data@[i * columns + b] == row@[b],
        {
            data.push(row[j]);
            assert(data@.subrange(0, i * columns) =~= before);
        }
        assert forall|a: int, b: int| 0 <= a < i + 1 && 0 <= b < columns implies #[trigger] data@[a
            * columns + b] == rows@[a]@[b] by {
            lemma_row_major_index(a, b, i + 1, columns as int);
            if a < i {
                lemma_row_major_index(a, b, i as int, columns as int);
                assert(data@[a * columns + b] == data@.subrange(0, i * columns)[a * columns + b]);
            }
        }
        assert(data@.len() == (i + 1) * columns) by (nonlinear_arith)
            requires
                data@.len() == i * columns + columns,
        ;
    }
    let m = RowMajorMatrix { rows: n, columns, data };
    Ok(m)
}

} // verus!
