//! Two-dimensional blocks of real numbers.

use crate::scalar::Scalar;
use vstd::prelude::*;

verus! {

/// A block of `rows` by `cols` real numbers, stored row after row.
#[derive(Debug, PartialEq, Eq)]
pub struct Block {
    rows: usize,
    cols: usize,
    data: Vec<Scalar>,
}

/// The rows of `data` read as a block of the given width.
pub open spec fn rows_of(data: Seq<Scalar>, rows: nat, cols: nat) -> Seq<Seq<Scalar>> {
    Seq::new(rows, |r: int| data.subrange(r * cols, r * cols + cols))
}

/// The rows of `rows` laid end to end.
pub open spec fn flattened(rows: Seq<Seq<Scalar>>) -> Seq<Scalar>
    decreases rows.len(),
{
    if rows.len() == 0 {
        Seq::empty()
    } else {
        flattened(rows.drop_last()) + rows.last()
    }
}

/// Whether every row of `rows` has `cols` entries.
pub open spec fn uniform(rows: Seq<Seq<Scalar>>, cols: nat) -> bool {
    forall|r: int| 0 <= r < rows.len() ==> (#[trigger] rows[r]).len() == cols
}

/// Rows of one width, laid end to end, hold `rows * cols` entries, and row `r`
/// lies at offset `r * cols`.
pub proof fn lemma_flattened_rows(rows: Seq<Seq<Scalar>>, cols: nat)
    requires
        uniform(rows, cols),
    ensures
        flattened(rows).len() == rows.len() * cols,
        rows_of(flattened(rows), rows.len(), cols) == rows,
    decreases rows.len(),
{
    if rows.len() == 0 {
        assert(rows_of(flattened(rows), 0, cols) == rows);
    } else {
        let init = rows.drop_last();
        lemma_flattened_rows(init, cols);
        let flat = flattened(rows);
        assert(flat.len() == init.len() * cols + cols);
        assert(rows.len() * cols == init.len() * cols + cols) by (nonlinear_arith)
            requires
                rows.len() == init.len() + 1,
        ;
        let got = rows_of(flat, rows.len(), cols);
        assert forall|r: int| 0 <= r < rows.len() implies #[trigger] got[r] == rows[r] by {
            assert(0 <= r * cols && r * cols + cols <= rows.len() * cols) by (nonlinear_arith)
                requires
                    0 <= r < rows.len(),
            ;
            if r < init.len() {
                assert(r * cols + cols <= init.len() * cols) by (nonlinear_arith)
                    requires
                        0 <= r < init.len(),
                ;
                assert(flat.subrange(r * cols, r * cols + cols) == flattened(init).subrange(
                    r * cols,
                    r * cols + cols,
                ));
                assert(rows_of(flattened(init), init.len(), cols)[r] == init[r]);
            } else {
                assert(r * cols == init.len() * cols) by (nonlinear_arith)
                    requires
                        r == init.len(),
                ;
                assert(flat.subrange(r * cols, r * cols + cols) == rows.last());
            }
        }
        assert(got == rows);
    }
}

impl View for Block {
    type V = Seq<Seq<Scalar>>;

    /// The block as the sequence of its rows.
    closed spec fn view(&self) -> Seq<Seq<Scalar>> {
        rows_of(self.data@, self.rows as nat, self.cols as nat)
    }
}

impl Block {
    /// The number of rows.
    pub closed spec fn height(&self) -> nat {
        self.rows as nat
    }

    /// The number of columns.
    pub closed spec fn width(&self) -> nat {
        self.cols as nat
    }

    /// The block holds exactly its `height` rows of `width` entries each.
    pub closed spec fn well_formed(&self) -> bool {
        self.data@.len() == self.rows * self.cols
    }

    /// A well-formed block has `height` rows, each of `width` entries.
    pub proof fn lemma_shape(&self)
        requires
            self.well_formed(),
        ensures
            self@.len() == self.height(),
            uniform(self@, self.width()),
    {
        assert forall|r: int| 0 <= r < self@.len() implies (#[trigger] self@[r]).len()
            == self.width() by {
            assert(0 <= r * self.cols && r * self.cols + self.cols <= self.rows * self.cols)
                by (nonlinear_arith)
                requires
                    0 <= r < self.rows,
            ;
        }
    }

    /// The block whose rows are `rows`, each of which has `cols` entries.
    pub fn from_rows(rows: &Vec<Vec<Scalar>>, cols: usize) -> (block: Block)
        requires
            forall|r: int| 0 <= r < rows@.len() ==> (#[trigger] rows@[r])@.len() == cols,
        ensures
            block.well_formed(),
            block.height() == rows@.len(),
            block.width() == cols,
            block@ == Seq::new(rows@.len(), |r: int| rows@[r]@),
    {
        let ghost want = Seq::new(rows@.len(), |r: int| rows@[r]@);
        let mut data: Vec<Scalar> = Vec::new();
        let mut r: usize = 0;
        while r < rows.len()
            invariant
                r <= rows.len(),
                want == Seq::new(rows@.len(), |r: int| rows@[r]@),
                uniform(want, cols as nat),
                data@ == flattened(want.subrange(0, r as int)),
            decreases rows.len() - r,
        {
            let row = &rows[r];
            let ghost before = data@;
            let mut c: usize = 0;
            while c < row.len()
                invariant
                    c <= row.len(),
                    data@ == before + row@.subrange(0, c as int),
                decreases row.len() - c,
            {
                data.push(row[c]);
                proof {
                    assert(row@.subrange(0, c + 1) == row@.subrange(0, c as int).push(row@[c as int]));
                }
                c = c + 1;
            }
            proof {
                assert(row@.subrange(0, c as int) == row@);
                let next = want.subrange(0, r + 1);
                assert(next.drop_last() == want.subrange(0, r as int));
                assert(next.last() == row@);
            }
            r = r + 1;
        }
        proof {
            assert(want.subrange(0, r as int) == want);
            lemma_flattened_rows(want, cols as nat);
        }
        Block { rows: rows.len(), cols, data }
    }

    /// The number of rows.
    pub fn rows(&self) -> (n: usize)
        ensures
            n == self.height(),
    {
        self.rows
    }

    /// The number of columns.
    pub fn cols(&self) -> (n: usize)
        ensures
            n == self.width(),
    {
        self.cols
    }

    /// The entry in row `r` and column `c`.
    pub fn get(&self, r: usize, c: usize) -> (x: Scalar)
        requires
            self.well_formed(),
            r < self.height(),
            c < self.width(),
        ensures
            x == self@[r as int][c as int],
    {
        let len: usize = self.data.len();
        proof {
            assert(0 <= r * self.cols && r * self.cols + self.cols <= self.rows * self.cols)
                by (nonlinear_arith)
                requires
                    0 <= r < self.rows,
            ;
            assert(r * self.cols + self.cols <= len);
        }
        self.data[r * self.cols + c]
    }

    /// A copy of row `r`.
    pub fn row(&self, r: usize) -> (row: Vec<Scalar>)
        requires
            self.well_formed(),
            r < self.height(),
        ensures
            row@ == self@[r as int],
    {
        let len: usize = self.data.len();
        proof {
            assert(0 <= r * self.cols && r * self.cols + self.cols <= self.rows * self.cols)
                by (nonlinear_arith)
                requires
                    0 <= r < self.rows,
            ;
            assert(r * self.cols + self.cols <= len);
        }
        let start: usize = r * self.cols;
        let mut row: Vec<Scalar> = Vec::new();
        let mut c: usize = 0;
        while c < self.cols
            invariant
                c <= self.cols,
                start == r * self.cols,
                start + self.cols <= self.data@.len(),
                self.data@.len() == len,
                row@ == self.data@.subrange(start as int, start + c),
            decreases self.cols - c,
        {
            row.push(self.data[start + c]);
            proof {
                assert(self.data@.subrange(start as int, start + c + 1) == self.data@.subrange(
                    start as int,
                    start + c,
                ).push(self.data@[start + c]));
            }
            c = c + 1;
        }
        row
    }
}

} // verus!
