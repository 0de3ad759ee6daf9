use vstd::prelude::*;

use crate::error::{decimal, push_decimal, NyxError, NyxResult};

verus! {

/// Position of cell `(row, col)` in the row-major layout of a matrix with `cols` columns.
pub open spec fn flat_index(row: int, col: int, cols: int) -> int {
    row * cols + col
}

/// The row-major cells of the transpose of the `rows` x `cols` matrix whose row-major
/// cells are `s`: cell `(c, r)` of the result is cell `(r, c)` of `s`.
pub open spec fn transposed<T>(s: Seq<T>, rows: nat, cols: nat) -> Seq<T> {
    Seq::new(rows * cols, |j: int| s[flat_index(j % (rows as int), j / (rows as int), cols as int)])
}

/// Message of the error returned when the data does not fit the dimensions.
pub open spec fn dimensions_mismatch_message(expected: nat, got: nat) -> Seq<char> {
    "Matrix dimensions mismatch: expected "@ + decimal(expected) + ", got "@ + decimal(got)
}

/// Message of the error returned for a cell outside the matrix.
pub open spec fn out_of_bounds_message(row: nat, col: nat, rows: nat, cols: nat) -> Seq<char> {
    "Index out of bounds: ("@ + decimal(row) + ", "@ + decimal(col) + ") for matrix size "@
        + decimal(rows) + "x"@ + decimal(cols)
}

/// A cell inside a `rows` x `cols` grid has its flat index inside the grid.
pub proof fn lemma_flat_index_bounds(row: int, col: int, rows: int, cols: int)
    requires
        0 <= row < rows,
        0 <= col < cols,
    ensures
        0 <= flat_index(row, col, cols) < rows * cols,
{
    assert(0 <= row * cols + col < rows * cols) by (nonlinear_arith)
        requires
            0 <= row < rows,
            0 <= col < cols,
    ;
}

/// The flat index of a cell determines the cell: row and column are its quotient and
/// remainder by the number of columns.
pub proof fn lemma_flat_index_decompose(row: int, col: int, cols: int)
    requires
        0 <= row,
        0 <= col < cols,
    ensures
        flat_index(row, col, cols) / cols == row,
        flat_index(row, col, cols) % cols == col,
{
    vstd::arithmetic::div_mod::lemma_fundamental_div_mod_converse(row * cols + col, cols, row, col);
}

/// Two cells of a grid with the same flat index are the same cell.
pub proof fn lemma_flat_index_injective(r1: int, c1: int, r2: int, c2: int, cols: int)
    requires
        0 <= r1,
        0 <= r2,
        0 <= c1 < cols,
        0 <= c2 < cols,
        flat_index(r1, c1, cols) == flat_index(r2, c2, cols),
    ensures
        r1 == r2,
        c1 == c2,
{
    lemma_flat_index_decompose(r1, c1, cols);
    lemma_flat_index_decompose(r2, c2, cols);
}

/// Transposing moves cell `(r, c)` of a `rows` x `cols` matrix to cell `(c, r)` of a
/// `cols` x `rows` matrix.
pub proof fn law_transpose_moves_cells<T>(s: Seq<T>, rows: nat, cols: nat, r: int, c: int)
    requires
        s.len() == rows * cols,
        0 <= r < rows,
        0 <= c < cols,
    ensures
        transposed(s, rows, cols).len() == cols * rows,
        transposed(s, rows, cols)[flat_index(c, r, rows as int)] == s[flat_index(r, c, cols as int)],
        transposed(s, rows, cols)[c * rows + r] == s[r * cols + c],
{
    assert(rows * cols == cols * rows) by (nonlinear_arith);
    lemma_flat_index_bounds(c, r, cols as int, rows as int);
    lemma_flat_index_decompose(c, r, rows as int);
}

/// Transposing twice gives back the matrix one started from.
pub proof fn law_transpose_involution<T>(s: Seq<T>, rows: nat, cols: nat)
    requires
        s.len() == rows * cols,
    ensures
        transposed(transposed(s, rows, cols), cols, rows) == s,
{
    let t = transposed(s, rows, cols);
    let tt = transposed(t, cols, rows);
    assert(rows * cols == cols * rows) by (nonlinear_arith);
    assert forall|j: int| 0 <= j < s.len() implies #[trigger] tt[j] == s[j] by {
        let r = j / (cols as int);
        let c = j % (cols as int);
        assert(cols > 0) by (nonlinear_arith)
            requires
                0 <= j < rows * cols,
        ;
        vstd::arithmetic::div_mod::lemma_fundamental_div_mod(j, cols as int);
        assert(0 <= c < cols) by {
            vstd::arithmetic::div_mod::lemma_mod_pos_bound(j, cols as int);
        }
        assert(0 <= r < rows) by (nonlinear_arith)
            requires
                j == (cols as int) * r + c,
                0 <= c < cols,
                0 <= j < rows * cols,
        ;
        assert(j == flat_index(r, c, cols as int)) by (nonlinear_arith)
            requires
                j == (cols as int) * r + c,
        ;
        law_transpose_moves_cells(s, rows, cols, r, c);
    }
    assert(tt =~= s);
}

/// Writing a cell changes that cell and no other: reading it back gives the value written,
/// and every other cell keeps its value.
pub proof fn law_set_then_get<T: Clone>(m: Matrix<T>, m2: Matrix<T>, r: int, c: int, v: T, r2: int, c2: int)
    requires
        m.wf(),
        m.in_bounds(r, c),
        m.in_bounds(r2, c2),
        m2.num_rows() == m.num_rows(),
        m2.num_cols() == m.num_cols(),
        m2.cells() == m.cells().update(flat_index(r, c, m.num_cols() as int), v),
    ensures
        m2.at(r, c) == v,
        (r2, c2) != (r, c) ==> m2.at(r2, c2) == m.at(r2, c2),
{
    let cols = m.num_cols() as int;
    lemma_flat_index_bounds(r, c, m.num_rows() as int, cols);
    lemma_flat_index_bounds(r2, c2, m.num_rows() as int, cols);
    if (r2, c2) != (r, c) {
        if flat_index(r, c, cols) == flat_index(r2, c2, cols) {
            lemma_flat_index_injective(r, c, r2, c2, cols);
        }
    }
}

/// A cell is in bounds exactly when its row is below the number of rows and its column
/// below the number of columns: every cell of the grid, and nothing else.
pub proof fn law_in_bounds_is_grid<T: Clone>(m: Matrix<T>, row: int, col: int)
    ensures
        m.in_bounds(row, col) <==> (0 <= row < m.num_rows() && 0 <= col < m.num_cols()),
{
}

/// Cell `(row, col)` is the cell at position `row * cols + col` of the row-major cells.
pub proof fn law_at_is_row_major<T: Clone>(m: Matrix<T>, row: int, col: int)
    ensures
        m.at(row, col) == m.cells()[row * m.num_cols() + col],
        flat_index(row, col, m.num_cols() as int) == row * m.num_cols() + col,
{
}

/// Calls `Vec::as_mut_slice`. Trusted: the slice shows the vector's elements, what is
/// written through it is what the vector then holds, a slice keeps its length, and the
/// call does not panic.
#[verifier::external_body]
fn vec_as_mut_slice<T>(v: &mut Vec<T>) -> (s: &mut [T])
    ensures
        s@ == old(v)@,
        final(s)@.len() == old(v)@.len(),
        final(v)@ == final(s)@,
    no_unwind
{
    v.as_mut_slice()
}

/// Generic 2D container: `rows` x `cols` cells stored row by row.
#[derive(Debug)]
pub struct Matrix<T: Clone> {
    data: Vec<T>,
    rows: usize,
    cols: usize,
}

impl<T: Clone> Matrix<T> {
    /// The cells, row by row.
    pub closed spec fn cells(&self) -> Seq<T> {
        self.data@
    }

    /// The number of rows.
    pub closed spec fn num_rows(&self) -> nat {
        self.rows as nat
    }

    /// The number of columns.
    pub closed spec fn num_cols(&self) -> nat {
        self.cols as nat
    }

    /// A matrix holds exactly one cell per (row, column) pair.
    #[verifier::type_invariant]
    pub open spec fn wf(&self) -> bool {
        self.cells().len() == self.num_rows() * self.num_cols()
    }

    /// The cell at `(row, col)`.
    pub open spec fn at(&self, row: int, col: int) -> T {
        self.cells()[flat_index(row, col, self.num_cols() as int)]
    }

    /// Whether `(row, col)` names a cell of the matrix.
    pub open spec fn in_bounds(&self, row: int, col: int) -> bool {
        0 <= row < self.num_rows() && 0 <= col < self.num_cols()
    }

    fn out_of_bounds(&self, row: usize, col: usize) -> (e: NyxError)
        ensures
            e matches NyxError::InvalidInput(m) && m@ == out_of_bounds_message(
                row as nat,
                col as nat,
                self.num_rows(),
                self.num_cols(),
            ),
    {
        let mut m = "Index out of bounds: (".to_owned();
        push_decimal(&mut m, row);
        m.append(", ");
        push_decimal(&mut m, col);
        m.append(") for matrix size ");
        push_decimal(&mut m, self.rows);
        m.append("x");
        push_decimal(&mut m, self.cols);
        NyxError::InvalidInput(m)
    }

    /// Creates a matrix from its cells given row by row; fails when the number of cells
    /// is not `rows * cols`.
    pub fn new(data: Vec<T>, rows: usize, cols: usize) -> (r: NyxResult<Self>)
        requires
            rows * cols <= usize::MAX,
        ensures
            r is Ok <==> data@.len() == rows * cols,
            r matches Ok(m) ==> {
                &&& m.cells() == data@
                &&& m.num_rows() == rows
                &&& m.num_cols() == cols
            },
            r matches Err(e) ==> e matches NyxError::InvalidInput(msg) && msg@
                == dimensions_mismatch_message((rows * cols) as nat, data@.len()),
    {
        let expected = rows * cols;
        if data.len() != expected {
            let mut m = "Matrix dimensions mismatch: expected ".to_owned();
            push_decimal(&mut m, expected);
            m.append(", got ");
            push_decimal(&mut m, data.len());
            return Err(NyxError::InvalidInput(m));
        }
        Ok(Matrix { data, rows, cols })
    }

    /// Creates a `rows` x `cols` matrix whose cells are all clones of `value`.
    pub fn filled(value: T, rows: usize, cols: usize) -> (m: Self)
        requires
            rows * cols <= usize::MAX,
        ensures
            m.num_rows() == rows,
            m.num_cols() == cols,
            m.cells().len() == rows * cols,
            forall|i: int| 0 <= i < rows * cols ==> cloned(value, #[trigger] m.cells()[i]),
    {
        let data = vec![value; rows * cols];
        Matrix { data, rows, cols }
    }

    /// The cell at `(row, col)`; fails when it lies outside the matrix.
    pub fn get(&self, row: usize, col: usize) -> (r: NyxResult<&T>)
        ensures
            self.wf(),
            r is Ok <==> self.in_bounds(row as int, col as int),
            r is Ok <==> (row < self.num_rows() && col < self.num_cols()),
            r matches Ok(v) ==> *v == self.at(row as int, col as int),
            r matches Ok(v) ==> *v == self.cells()[row * self.num_cols() + col],
            r matches Err(e) ==> e matches NyxError::InvalidInput(msg) && msg@
                == out_of_bounds_message(row as nat, col as nat, self.num_rows(), self.num_cols()),
    {
        proof {
            use_type_invariant(self);
        }
        if row >= self.rows || col >= self.cols {
            return Err(self.out_of_bounds(row, col));
        }
        proof {
            lemma_flat_index_bounds(row as int, col as int, self.rows as int, self.cols as int);
            assert(row * self.cols <= row * self.cols + col < self.data.len());
        }
        let base = row * self.cols;
        let idx = base + col;
        Ok(&self.data[idx])
    }

    /// Mutable access to the cell at `(row, col)`; fails when it lies outside the matrix.
    pub fn get_mut(&mut self, row: usize, col: usize) -> (r: NyxResult<&mut T>)
        ensures
            old(self).wf(),
            r is Ok <==> old(self).in_bounds(row as int, col as int),
            r is Ok <==> (row < old(self).num_rows() && col < old(self).num_cols()),
            r matches Ok(v) ==> {
                &&& *v == old(self).at(row as int, col as int)
                &&& *v == old(self).cells()[row * old(self).num_cols() + col]
                &&& final(self).cells() == old(self).cells().update(
                    row * old(self).num_cols() + col,
                    *final(v),
                )
                &&& final(self).num_rows() == old(self).num_rows()
                &&& final(self).num_cols() == old(self).num_cols()
                &&& final(self).cells() == old(self).cells().update(
                    flat_index(row as int, col as int, old(self).num_cols() as int),
                    *final(v),
                )
            },
            r is Err ==> *final(self) == *old(self),
            r matches Err(e) ==> e matches NyxError::InvalidInput(msg) && msg@
                == out_of_bounds_message(row as nat, col as nat, old(self).num_rows(), old(self).num_cols()),
    {
        proof {
            use_type_invariant(&*self);
        }
        if row >= self.rows || col >= self.cols {
            return Err(self.out_of_bounds(row, col));
        }
        proof {
            lemma_flat_index_bounds(row as int, col as int, self.rows as int, self.cols as int);
            assert(row * self.cols <= row * self.cols + col < self.data.len());
        }
        let idx = row * self.cols + col;
        Ok(&mut self.data[idx])
    }

    /// Replaces the cell at `(row, col)` by `value`; fails, leaving the matrix unchanged,
    /// when the cell lies outside the matrix.
    pub fn set(&mut self, row: usize, col: usize, value: T) -> (r: NyxResult<()>)
        ensures
            old(self).wf(),
            r is Ok <==> old(self).in_bounds(row as int, col as int),
            r is Ok <==> (row < old(self).num_rows() && col < old(self).num_cols()),
            r is Ok ==> final(self).cells() == old(self).cells().update(row * old(self).num_cols() + col, value),
            r is Ok ==> {
                &&& final(self).num_rows() == old(self).num_rows()
                &&& final(self).num_cols() == old(self).num_cols()
                &&& final(self).cells() == old(self).cells().update(
                    flat_index(row as int, col as int, old(self).num_cols() as int),
                    value,
                )
            },
            r is Err ==> *final(self) == *old(self),
            r matches Err(e) ==> e matches NyxError::InvalidInput(msg) && msg@
                == out_of_bounds_message(row as nat, col as nat, old(self).num_rows(), old(self).num_cols()),
    {
        *self.get_mut(row, col)? = value;
        Ok(())
    }

    /// Number of rows and number of columns.
    pub fn dimensions(&self) -> (d: (usize, usize))
        ensures
            self.wf(),
            d.0 == self.num_rows(),
            d.1 == self.num_cols(),
    {
        proof {
            use_type_invariant(self);
        }
        (self.rows, self.cols)
    }

    /// Number of rows.
    pub fn rows(&self) -> (n: usize)
        ensures
            self.wf(),
            n == self.num_rows(),
    {
        proof {
            use_type_invariant(self);
        }
        self.rows
    }

    /// Number of columns.
    pub fn cols(&self) -> (n: usize)
        ensures
            self.wf(),
            n == self.num_cols(),
    {
        proof {
            use_type_invariant(self);
        }
        self.cols
    }

    /// The cells, row by row.
    pub fn data(&self) -> (s: &[T])
        ensures
            self.wf(),
            s@ == self.cells(),
    {
        proof {
            use_type_invariant(self);
        }
        self.data.as_slice()
    }

    /// Mutable access to the cells, row by row; the dimensions stay as they are.
    pub fn data_mut(&mut self) -> (s: &mut [T])
        ensures
            old(self).wf(),
            s@ == old(self).cells(),
            final(self).num_rows() == old(self).num_rows(),
            final(self).num_cols() == old(self).num_cols(),
            final(self).cells() == final(s)@,
    {
        proof {
            use_type_invariant(&*self);
        }
        vec_as_mut_slice(&mut self.data)
    }

    /// The transpose: a `cols` x `rows` matrix whose cell `(c, r)` is cell `(r, c)` of this one.
    /// The matrix must hold at least one cell.
    pub fn transpose(&self) -> (t: Self)
        where
            T: Copy,
        requires
            self.num_rows() > 0,
            self.num_cols() > 0,
        ensures
            t.num_rows() == self.num_cols(),
            t.num_cols() == self.num_rows(),
            t.cells() == transposed(self.cells(), self.num_rows(), self.num_cols()),
            t.cells().len() == self.cells().len(),
            forall|r: int, c: int|
                0 <= r < self.num_rows() && 0 <= c < self.num_cols() ==> #[trigger] t.cells()[c
                    * self.num_rows() + r] == self.cells()[r * self.num_cols() + c],
    {
        proof {
            use_type_invariant(self);
        }
        let len = self.data.len();
        let mut out: Vec<T> = Vec::with_capacity(len);
        let mut j: usize = 0;
        while j < len
            invariant
                self.wf(),
                len == self.data@.len(),
                self.rows > 0,
                self.cols > 0,
                j <= len,
                out@.len() == j,
                forall|k: int| 0 <= k < j ==> #[trigger] out@[k] == transposed(self.cells(), self.num_rows(), self.num_cols())[k],
            decreases len - j,
        {
            let row = j % self.rows;
            let col = j / self.rows;
            proof {
                let ghost jj = j as int;
                let ghost rr = self.rows as int;
                vstd::arithmetic::div_mod::lemma_fundamental_div_mod(jj, rr);
                assert(col < self.cols) by (nonlinear_arith)
                    requires
                        jj == rr * (jj / rr) + (jj % rr),
                        0 <= jj % rr,
                        jj < rr * (self.cols as int),
                        col == jj / rr,
                        rr > 0,
                ;
                lemma_flat_index_bounds(row as int, col as int, self.rows as int, self.cols as int);
                assert(row * self.cols <= row * self.cols + col < self.data.len());
            }
            let idx = row * self.cols + col;
            out.push(self.data[idx]);
            j = j + 1;
        }
        proof {
            let ghost r = self.rows as int;
            let ghost c = self.cols as int;
            assert(r * c == c * r) by (nonlinear_arith);
            assert(out@ =~= transposed(self.cells(), self.num_rows(), self.num_cols()));
            assert forall|rr: int, cc: int|
                0 <= rr < self.num_rows() && 0 <= cc < self.num_cols() implies #[trigger] out@[cc
                    * self.num_rows() + rr] == self.cells()[rr * self.num_cols() + cc] by {
                law_transpose_moves_cells(self.cells(), self.num_rows(), self.num_cols(), rr, cc);
            }
        }
        Matrix { data: out, rows: self.cols, cols: self.rows }
    }
}

impl<T: Clone> Clone for Matrix<T> {
    /// A matrix of the same dimensions whose cells are clones of these cells.
    fn clone(&self) -> (m: Self)
        ensures
            m.num_rows() == self.num_rows(),
            m.num_cols() == self.num_cols(),
            m.cells().len() == self.cells().len(),
            forall|i: int| 0 <= i < self.cells().len() ==> cloned(self.cells()[i], #[trigger] m.cells()[i]),
    {
        proof {
            use_type_invariant(self);
        }
        Matrix { data: self.data.clone(), rows: self.rows, cols: self.cols }
    }
}

} // verus!
