use vstd::prelude::*;

verus! {

/// A rectangular view of a flat backing store: `num_rows` rows of
/// `num_cols` elements each, row `r` occupying the elements from
/// `r * num_cols` up to the next row's start.
pub struct TwoDimensionalArray<T> {
    buffer: Vec<T>,
    num_rows: usize,
    num_cols: usize,
}

/// Why an index pair misses the array.
#[derive(Clone, Copy, Debug, PartialEq, Eq, Structural)]
pub enum TwoDimensionalArrayIndexError {
    RowIndexOutOfBounds,
    ColumnIndexOutOfBounds,
}

impl<T> TwoDimensionalArray<T> {
    /// The number of rows, as a spec-level value.
    pub closed spec fn rows(self) -> int {
        self.num_rows as int
    }

    /// The number of columns, as a spec-level value.
    pub closed spec fn cols(self) -> int {
        self.num_cols as int
    }

    /// The flat backing store, row after row.
    pub closed spec fn data(self) -> Seq<T> {
        self.buffer@
    }

    /// The structural invariant: the backing store holds exactly one
    /// element per cell.
    pub open spec fn wf(self) -> bool {
        self.data().len() == self.rows() * self.cols()
    }

    /// The element at one cell.
    pub open spec fn at(self, row: int, col: int) -> T {
        self.data()[row * self.cols() + col]
    }

    /// Whether an index pair names a cell.
    pub open spec fn in_bounds(self, row: int, col: int) -> bool {
        0 <= row < self.rows() && 0 <= col < self.cols()
    }

    /// The array as a sequence of rows, each row a sequence of
    /// elements.
    pub open spec fn grid(self) -> Seq<Seq<T>> {
        Seq::new(
            self.rows() as nat,
            |r: int| Seq::new(self.cols() as nat, |c: int| self.at(r, c)),
        )
    }

    /// Takes a flat buffer as the backing store of a rectangular view,
    /// provided it holds exactly one element per cell; otherwise the
    /// buffer does not fit and nothing is built.
    pub fn new(buffer: Vec<T>, num_rows: usize, num_cols: usize) -> (r: Option<Self>)
        ensures
            r is Some <==> buffer@.len() == num_rows * num_cols,
            r matches Some(a) ==> {
                &&& a.wf()
                &&& a.rows() == num_rows
                &&& a.cols() == num_cols
                &&& a.data() == buffer@
            },
    {
        let len = buffer.len();
        let fits = match num_cols.checked_mul(num_rows) {
            Some(product) => product == len,
            None => false,
        };
        proof {
            assert(num_cols * num_rows == num_rows * num_cols) by (nonlinear_arith);
        }
        if !fits {
            None
        } else {
            Some(TwoDimensionalArray { buffer, num_rows, num_cols })
        }
    }

    /// The number of rows.
    pub fn num_rows(&self) -> (r: usize)
        ensures
            r == self.rows(),
    {
        self.num_rows
    }

    /// The number of columns.
    pub fn num_cols(&self) -> (r: usize)
        ensures
            r == self.cols(),
    {
        self.num_cols
    }

    /// The element at a cell, or nothing when either index is out of
    /// bounds.
    pub fn get(&self, row_idx: usize, col_idx: usize) -> (r: Option<&T>)
        requires
            self.wf(),
        ensures
            r is Some <==> self.in_bounds(row_idx as int, col_idx as int),
            r matches Some(v) ==> *v == self.at(row_idx as int, col_idx as int),
    {
        if row_idx < self.num_rows && col_idx < self.num_cols {
            let total = self.buffer.len();
            proof {
                self.lemma_cell_index(row_idx as int, col_idx as int);
            }
            Some(&self.buffer[row_idx * self.num_cols + col_idx])
        } else {
            None
        }
    }

    /// A mutable borrow of the element at a cell, or nothing when
    /// either index is out of bounds.
    pub fn get_mut(&mut self, row_idx: usize, col_idx: usize) -> (r: Option<&mut T>)
        requires
            old(self).wf(),
        ensures
            r is Some <==> old(self).in_bounds(row_idx as int, col_idx as int),
            r matches Some(v) ==> {
                &&& *v == old(self).at(row_idx as int, col_idx as int)
                &&& final(self).data() == old(self).data().update(
                    row_idx as int * old(self).cols() + col_idx,
                    *final(v),
                )
            },
            r is None ==> *final(self) == *old(self),
            final(self).rows() == old(self).rows(),
            final(self).cols() == old(self).cols(),
            final(self).wf(),
    {
        if row_idx < self.num_rows && col_idx < self.num_cols {
            let total = self.buffer.len();
            proof {
                self.lemma_cell_index(row_idx as int, col_idx as int);
            }
            let idx = row_idx * self.num_cols + col_idx;
            Some(&mut self.buffer[idx])
        } else {
            None
        }
    }

    /// The element at a cell of the array; the caller vouches that the
    /// indexes are in bounds.
    pub fn get_panic(&self, row_idx: usize, col_idx: usize) -> (r: &T)
        requires
            self.wf(),
            self.in_bounds(row_idx as int, col_idx as int),
        ensures
            *r == self.at(row_idx as int, col_idx as int),
    {
        let total = self.buffer.len();
        proof {
            self.lemma_cell_index(row_idx as int, col_idx as int);
        }
        &self.buffer[row_idx * self.num_cols + col_idx]
    }

    /// A mutable borrow of the element at a cell of the array; the
    /// caller vouches that the indexes are in bounds.
    pub fn get_mut_panic(&mut self, row_idx: usize, col_idx: usize) -> (r: &mut T)
        requires
            old(self).wf(),
            old(self).in_bounds(row_idx as int, col_idx as int),
        ensures
            *r == old(self).at(row_idx as int, col_idx as int),
            final(self).data() == old(self).data().update(
                row_idx as int * old(self).cols() + col_idx,
                *final(r),
            ),
            final(self).rows() == old(self).rows(),
            final(self).cols() == old(self).cols(),
            final(self).wf(),
    {
        let total = self.buffer.len();
        proof {
            self.lemma_cell_index(row_idx as int, col_idx as int);
        }
        let idx = row_idx * self.num_cols + col_idx;
        &mut self.buffer[idx]
    }

    /// Overwrites the element at a cell; the caller vouches that the
    /// indexes are in bounds.
    pub fn set(&mut self, row_idx: usize, col_idx: usize, value: T)
        requires
            old(self).wf(),
            old(self).in_bounds(row_idx as int, col_idx as int),
        ensures
            final(self).data() == old(self).data().update(
                row_idx as int * old(self).cols() + col_idx,
                value,
            ),
            forall|r2: int, c2: int| old(self).in_bounds(r2, c2) ==> #[trigger] final(self).at(
                r2,
                c2,
            ) == (if r2 == row_idx && c2 == col_idx {
                value
            } else {
                old(self).at(r2, c2)
            }),
            final(self).rows() == old(self).rows(),
            final(self).cols() == old(self).cols(),
            final(self).wf(),
    {
        let total = self.buffer.len();
        proof {
            self.lemma_cell_index(row_idx as int, col_idx as int);
        }
        let idx = row_idx * self.num_cols + col_idx;
        self.buffer.set(idx, value);
        proof {
            let cols = old(self).cols();
            assert forall|r2: int, c2: int|
                old(self).in_bounds(r2, c2) implies #[trigger] self.at(r2, c2) == (if r2
                == row_idx && c2 == col_idx {
                value
            } else {
                old(self).at(r2, c2)
            }) by {
                old(self).lemma_cell_index(r2, c2);
                if !(r2 == row_idx && c2 == col_idx) {
                    assert(r2 * cols + c2 != row_idx * cols + col_idx) by (nonlinear_arith)
                        requires
                            0 <= c2 < cols,
                            0 <= col_idx < cols,
                            !(r2 == row_idx && c2 == col_idx),
                    ;
                }
            }
        }
    }

    /// Overwrites every element of the array with one value.
    pub fn fill(&mut self, value: T)
        where
            T: Copy,
        requires
            old(self).wf(),
        ensures
            final(self).data() == Seq::new(old(self).data().len(), |k: int| value),
            forall|r2: int, c2: int| old(self).in_bounds(r2, c2) ==> #[trigger] final(self).at(
                r2,
                c2,
            ) == value,
            final(self).rows() == old(self).rows(),
            final(self).cols() == old(self).cols(),
            final(self).wf(),
    {
        let len = self.buffer.len();
        let mut k: usize = 0;
        while k < len
            invariant
                len == self.buffer@.len(),
                k <= len,
                self.num_rows == old(self).num_rows,
                self.num_cols == old(self).num_cols,
                forall|j: int| 0 <= j < k ==> self.buffer@[j] == value,
            decreases len - k,
        {
            self.buffer.set(k, value);
            k = k + 1;
        }
        proof {
            assert(self.data() =~= Seq::new(old(self).data().len(), |k: int| value));
            assert forall|r2: int, c2: int|
                old(self).in_bounds(r2, c2) implies #[trigger] self.at(r2, c2) == value by {
                old(self).lemma_cell_index(r2, c2);
            }
        }
    }

    /// The flat backing store, row after row.
    pub fn as_slice(&self) -> (r: &[T])
        ensures
            r@ == self.data(),
    {
        self.buffer.as_slice()
    }

    /// A cell's flat index lies inside the backing store.
    proof fn lemma_cell_index(self, row: int, col: int)
        requires
            self.wf(),
            self.in_bounds(row, col),
        ensures
            0 <= row * self.cols() + col < self.data().len(),
    {
        assert(row * self.cols() + col < self.rows() * self.cols()) by (nonlinear_arith)
            requires
                0 <= row < self.rows(),
                0 <= col < self.cols(),
        ;
        assert(0 <= row * self.cols()) by (nonlinear_arith)
            requires
                0 <= row,
                0 <= self.cols(),
        ;
    }
}

} // verus!
