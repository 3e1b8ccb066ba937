//! The typed data set: a dense rectangular matrix of numeric cells, one row
//! per inference sample and one column per feature.
//!
//! A cell is held as the 64 bits of its number, which is also the form in
//! which the guest reads it.

use vstd::prelude::*;
use vstd::arithmetic::div_mod::lemma_fundamental_div_mod_converse;
use crate::error::PipelineError;
use crate::words::{dword_words, high_word, low_word};

verus! {

/// A dense matrix. The cells lie in one vector, column after column or row
/// after row; the number of cells is the number of rows times the number of
/// columns, for every value of this type.
#[derive(Debug)]
pub struct TypedDataset {
    nrows: usize,
    ncols: usize,
    values: Vec<u64>,
    column_major: bool,
}

/// The mathematical value of a [`TypedDataset`].
pub struct DatasetView {
    pub nrows: nat,
    pub ncols: nat,
    pub values: Seq<u64>,
    pub column_major: bool,
}

impl DatasetView {
    /// The cells fill the shape exactly.
    pub open spec fn rectangular(self) -> bool {
        self.values.len() == self.nrows * self.ncols
    }

    /// The cell in a row and a column.
    pub open spec fn cell(self, row: int, col: int) -> u64
        recommends
            self.rectangular(),
            0 <= row < self.nrows,
            0 <= col < self.ncols,
    {
        if self.column_major {
            self.values[col * self.nrows + row]
        } else {
            self.values[row * self.ncols + col]
        }
    }

    /// The data set in the guest's schema: the number of columns and the
    /// number of rows as 64-bit values, the number of cells as one word,
    /// the cells in storage order as 64-bit values, and one word that is 1
    /// for column-major storage and 0 for row-major storage.
    pub open spec fn words(self) -> Seq<u32> {
        seq![
            low_word(self.ncols as int),
            high_word(self.ncols as int),
            low_word(self.nrows as int),
            high_word(self.nrows as int),
            self.values.len() as u32,
        ] + dword_words(self.values) + seq![
            if self.column_major {
                1u32
            } else {
                0u32
            },
        ]
    }
}

/// Rows of equal length, at least one of them.
pub open spec fn rows_rectangular(rows: Seq<Vec<u64>>) -> bool {
    rows.len() > 0 && forall|i: int| 0 <= i < rows.len() ==> (#[trigger] rows[i])@.len() == rows[0]@.len()
}

/// The cells of rows of equal length, column after column.
pub open spec fn column_major_cells(rows: Seq<Vec<u64>>) -> Seq<u64>
    recommends
        rows_rectangular(rows),
{
    Seq::new(
        rows.len() * rows[0]@.len(),
        |k: int| rows[k % (rows.len() as int)]@[k / (rows.len() as int)],
    )
}

/// The data set that rows of equal length make.
pub open spec fn dataset_of_rows(rows: Seq<Vec<u64>>) -> DatasetView
    recommends
        rows_rectangular(rows),
{
    DatasetView {
        nrows: rows.len(),
        ncols: rows[0]@.len(),
        values: column_major_cells(rows),
        column_major: true,
    }
}

/// The data set that rows make holds, in each row and column, the cell that
/// the rows hold there, and it is rectangular.
pub proof fn lemma_cells_of_rows(rows: Seq<Vec<u64>>, row: int, col: int)
    requires
        rows_rectangular(rows),
        0 <= row < rows.len(),
        0 <= col < rows[0]@.len(),
    ensures
        dataset_of_rows(rows).rectangular(),
        dataset_of_rows(rows).cell(row, col) == rows[row]@[col],
{
    let nrows = rows.len() as int;
    let ncols = rows[0]@.len() as int;
    assert(0 <= col * nrows + row < nrows * ncols) by (nonlinear_arith)
        requires
            0 <= row < nrows,
            0 <= col < ncols,
    ;
    lemma_fundamental_div_mod_converse(col * nrows + row, nrows, col, row);
}

impl View for TypedDataset {
    type V = DatasetView;

    closed spec fn view(&self) -> DatasetView {
        DatasetView {
            nrows: self.nrows as nat,
            ncols: self.ncols as nat,
            values: self.values@,
            column_major: self.column_major,
        }
    }
}

/// Calls `risc0_zkvm::serde::to_vec` on the four fields of a matrix, in the
/// order in which the guest reads them. The serializer writes a `usize` and
/// a `u64` as two words, low word first, a vector as one word for its
/// length and then its elements, and a `bool` as one word; on these types it
/// has no error to report. It panics on a vector whose length does not fit
/// one word, which the precondition leaves out.
#[verifier::external_body]
fn matrix_to_words(ncols: usize, nrows: usize, values: &Vec<u64>, column_major: bool) -> (r: Result<
    Vec<u32>,
    risc0_zkvm::serde::Error,
>)
    requires
        values@.len() <= u32::MAX,
    ensures
        r is Ok,
        r->Ok_0@ == (DatasetView {
            nrows: nrows as nat,
            ncols: ncols as nat,
            values: values@,
            column_major,
        }).words(),
{
    risc0_zkvm::serde::to_vec(&(ncols, nrows, values, column_major))
}

impl TypedDataset {
    #[verifier::type_invariant]
    spec fn well_formed(&self) -> bool {
        self.values@.len() == self.nrows * self.ncols
    }

    /// Makes a data set of a shape and its cells in storage order.
    ///
    /// The number of cells must be the number of rows times the number of
    /// columns; otherwise the parts are rejected with `DataDecodeFailure`.
    pub fn from_parts(nrows: usize, ncols: usize, values: Vec<u64>, column_major: bool) -> (r:
        Result<TypedDataset, PipelineError>)
        ensures
            values@.len() == nrows * ncols ==> r is Ok && r->Ok_0@ == (DatasetView {
                nrows: nrows as nat,
                ncols: ncols as nat,
                values: values@,
                column_major,
            }),
            values@.len() != nrows * ncols ==> r is Err && r->Err_0
                == PipelineError::DataDecodeFailure,
    {
        let cells: usize = values.len();
        match nrows.checked_mul(ncols) {
            Some(count) => {
                if count == cells {
                    Ok(TypedDataset { nrows, ncols, values, column_major })
                } else {
                    Err(PipelineError::DataDecodeFailure)
                }
            },
            None => Err(PipelineError::DataDecodeFailure),
        }
    }

    /// Makes a data set of what a decoder read: the shape, the cells and the
    /// storage order, or nothing where the payload could not be decoded.
    /// A payload that could not be decoded, and parts that do not fit
    /// together, are rejected with `DataDecodeFailure`.
    pub fn from_decoded(decoded: Option<(usize, usize, Vec<u64>, bool)>) -> (r: Result<
        TypedDataset,
        PipelineError,
    >)
        ensures
            match decoded {
                Some((nrows, ncols, values, column_major)) => {
                    &&& values@.len() == nrows * ncols ==> r is Ok && r->Ok_0@ == (DatasetView {
                        nrows: nrows as nat,
                        ncols: ncols as nat,
                        values: values@,
                        column_major,
                    })
                    &&& values@.len() != nrows * ncols ==> r is Err && r->Err_0
                        == PipelineError::DataDecodeFailure
                },
                None => r is Err && r->Err_0 == PipelineError::DataDecodeFailure,
            },
    {
        match decoded {
            Some((nrows, ncols, values, column_major)) => TypedDataset::from_parts(
                nrows,
                ncols,
                values,
                column_major,
            ),
            None => Err(PipelineError::DataDecodeFailure),
        }
    }

    /// Makes a data set of its rows, stored column after column.
    ///
    /// The rows must be of one length, and there must be at least one row;
    /// otherwise they are rejected with `DataDecodeFailure`.
    pub fn from_rows(rows: &Vec<Vec<u64>>) -> (r: Result<TypedDataset, PipelineError>)
        ensures
            rows_rectangular(rows@) ==> r is Ok && r->Ok_0@ == dataset_of_rows(rows@),
            rows_rectangular(rows@) ==> forall|row: int, col: int|
                0 <= row < rows@.len() && 0 <= col < rows@[0]@.len() ==> #[trigger] r->Ok_0@.cell(
                    row,
                    col,
                ) == rows@[row]@[col],
            !rows_rectangular(rows@) ==> r is Err && r->Err_0 == PipelineError::DataDecodeFailure,
    {
        let nrows: usize = rows.len();
        if nrows == 0 {
            return Err(PipelineError::DataDecodeFailure);
        }
        let ncols: usize = rows[0].len();
        let mut i: usize = 1;
        while i < nrows
            invariant
                nrows == rows@.len(),
                nrows > 0,
                ncols == rows@[0]@.len(),
                1 <= i <= nrows,
                forall|k: int| 0 <= k < i ==> (#[trigger] rows@[k])@.len() == ncols,
            decreases nrows - i,
        {
            if rows[i].len() != ncols {
                return Err(PipelineError::DataDecodeFailure);
            }
            i = i + 1;
        }
        assert(rows_rectangular(rows@));
        let mut values: Vec<u64> = Vec::new();
        let mut col: usize = 0;
        while col < ncols
            invariant
                nrows == rows@.len(),
                nrows > 0,
                ncols == rows@[0]@.len(),
                rows_rectangular(rows@),
                col <= ncols,
                values@.len() == col * nrows,
                forall|k: int|
                    0 <= k < values@.len() ==> #[trigger] values@[k] == rows@[k % (nrows as int)]@[k
                        / (nrows as int)],
            decreases ncols - col,
        {
            let mut row: usize = 0;
            while row < nrows
                invariant
                    nrows == rows@.len(),
                    nrows > 0,
                    ncols == rows@[0]@.len(),
                    rows_rectangular(rows@),
                    col < ncols,
                    row <= nrows,
                    values@.len() == col * nrows + row,
                    forall|k: int|
                        0 <= k < values@.len() ==> #[trigger] values@[k] == rows@[k % (
                        nrows as int)]@[k / (nrows as int)],
                decreases nrows - row,
            {
                proof {
                    lemma_fundamental_div_mod_converse(
                        col * nrows + row,
                        nrows as int,
                        col as int,
                        row as int,
                    );
                }
                assert(rows@[row as int]@.len() == ncols);
                values.push(rows[row][col]);
                row = row + 1;
            }
            assert(col * nrows + nrows == (col + 1) * nrows) by (nonlinear_arith);
            col = col + 1;
        }
        assert(ncols * nrows == nrows * ncols) by (nonlinear_arith);
        assert(values@ =~= column_major_cells(rows@));
        let dataset = TypedDataset { nrows, ncols, values, column_major: true };
        assert(dataset@ == dataset_of_rows(rows@));
        assert forall|row: int, col: int|
            0 <= row < rows@.len() && 0 <= col < rows@[0]@.len() implies #[trigger] dataset@.cell(
            row,
            col,
        ) == rows@[row]@[col] by {
            lemma_cells_of_rows(rows@, row, col);
        }
        Ok(dataset)
    }

    /// The number of rows and the number of columns. Their product is the
    /// number of cells.
    pub fn shape(&self) -> (r: (usize, usize))
        ensures
            r.0 == self@.nrows,
            r.1 == self@.ncols,
            self@.rectangular(),
    {
        proof {
            use_type_invariant(self);
        }
        (self.nrows, self.ncols)
    }

    /// Whether the cells are stored column after column.
    pub fn is_column_major(&self) -> (r: bool)
        ensures
            r == self@.column_major,
    {
        self.column_major
    }

    /// The cells in storage order.
    pub fn values(&self) -> (r: &Vec<u64>)
        ensures
            r@ == self@.values,
    {
        &self.values
    }

    /// The cell in a row and a column.
    pub fn get(&self, row: usize, col: usize) -> (r: u64)
        requires
            row < self@.nrows,
            col < self@.ncols,
        ensures
            r == self@.cell(row as int, col as int),
    {
        let cells: usize = self.values.len();
        proof {
            use_type_invariant(self);
            let nrows = self.nrows as int;
            let ncols = self.ncols as int;
            assert(col * nrows + row < nrows * ncols) by (nonlinear_arith)
                requires
                    0 <= row < nrows,
                    0 <= col < ncols,
            ;
            assert(row * ncols + col < nrows * ncols) by (nonlinear_arith)
                requires
                    0 <= row < nrows,
                    0 <= col < ncols,
            ;
            assert(0 <= col * nrows) by (nonlinear_arith)
                requires
                    0 <= col,
                    0 <= nrows,
            ;
            assert(0 <= row * ncols) by (nonlinear_arith)
                requires
                    0 <= row,
                    0 <= ncols,
            ;
        }
        if self.column_major {
            self.values[col * self.nrows + row]
        } else {
            self.values[row * self.ncols + col]
        }
    }

    /// Writes the data set in the guest's schema.
    ///
    /// The schema holds the number of cells in one word: a data set with
    /// more cells than that fails with `SerializationFailure`.
    pub fn encode(&self) -> (r: Result<Vec<u32>, PipelineError>)
        ensures
            self@.values.len() <= u32::MAX ==> r is Ok && r->Ok_0@ == self@.words(),
            self@.values.len() > u32::MAX ==> r is Err && r->Err_0
                == PipelineError::SerializationFailure,
    {
        if self.values.len() > 0xFFFF_FFFF {
            return Err(PipelineError::SerializationFailure);
        }
        match matrix_to_words(self.ncols, self.nrows, &self.values, self.column_major) {
            Ok(words) => Ok(words),
            Err(_) => Err(PipelineError::SerializationFailure),
        }
    }
}

} // verus!
