use vstd::prelude::*;
use vstd::slice::slice_subrange;

use crate::error::Error;

verus! {

/// The shape of a dense row-major matrix: a row count and a column count,
/// both positive, whose product fits in `usize` and is the exact length of
/// the backing buffer of any matrix built with this shape.
#[derive(Clone, Copy, Debug)]
pub struct Shape {
    pub rows: usize,
    pub cols: usize,
}

impl Shape {
    /// Both extents are positive and the element count fits in `usize`.
    pub open spec fn wf(self) -> bool {
        &&& 1 <= self.rows
        &&& 1 <= self.cols
        &&& self.rows * self.cols <= usize::MAX
    }

    pub fn new(rows: usize, cols: usize) -> (s: Shape)
        requires
            1 <= rows,
            1 <= cols,
            rows * cols <= usize::MAX,
        ensures
            s.rows == rows,
            s.cols == cols,
            s.wf(),
    {
        Shape { rows, cols }
    }

    /// The element count of the backing buffer.
    pub fn total(&self) -> (t: usize)
        requires
            self.wf(),
        ensures
            t == self.rows * self.cols,
    {
        self.rows * self.cols
    }

    /// The half-open index range `[i*cols, i*cols + cols)` covered by row `i`.
    pub fn row_view_range(&self, i: usize) -> (r: core::ops::Range<usize>)
        requires
            self.wf(),
            i < self.rows,
        ensures
            r.start == i * self.cols,
            r.end == i * self.cols + self.cols,
            r.end <= self.rows * self.cols,
    {
        proof {
            lemma_row_span(self.rows as int, self.cols as int, i as int);
        }
        let start = i * self.cols;
        start..start + self.cols
    }
}

/// Distinct rows cover disjoint ranges: row `i` ends no later than the
/// buffer position where row `i + 1` begins, and every row lies inside the
/// backing buffer.
proof fn lemma_row_span(rows: int, cols: int, i: int)
    requires
        0 <= i < rows,
        0 <= cols,
    ensures
        i * cols + cols <= rows * cols,
        i * cols + cols == (i + 1) * cols,
    {
    assert(i * cols + cols <= rows * cols && i * cols + cols == (i + 1) * cols)
        by (nonlinear_arith)
        requires
            0 <= i < rows,
            0 <= cols,
    ;
}

/// A dense row-major matrix: one contiguous buffer of `rows * cols`
/// elements, with row `i` occupying the sub-range `[i*cols, i*cols + cols)`.
#[derive(Clone, Debug)]
pub struct DenseMatrix<T> {
    data: Vec<T>,
    shape: Shape,
}

impl<T> View for DenseMatrix<T> {
    type V = Seq<T>;

    /// The backing buffer in row-major order.
    closed spec fn view(&self) -> Seq<T> {
        self.data@
    }
}

impl<T> DenseMatrix<T> {
    pub closed spec fn spec_rows(&self) -> int {
        self.shape.rows as int
    }

    pub closed spec fn spec_cols(&self) -> int {
        self.shape.cols as int
    }

    /// The shape is well formed and the buffer has exactly `rows * cols`
    /// elements.
    pub open spec fn wf(&self) -> bool {
        &&& 1 <= self.spec_rows()
        &&& 1 <= self.spec_cols()
        &&& self.spec_rows() * self.spec_cols() <= usize::MAX
        &&& self@.len() == self.spec_rows() * self.spec_cols()
    }

    /// The contents of row `i`, as the sub-sequence of the backing buffer
    /// it occupies.
    pub open spec fn row(&self, i: int) -> Seq<T> {
        self@.subrange(i * self.spec_cols(), i * self.spec_cols() + self.spec_cols())
    }

    /// Allocates `rows * cols` elements and fills them by invoking `f`
    /// exactly that many times, in row-major order.
    pub fn new_with<F: Fn() -> T>(rows: usize, cols: usize, f: F) -> (m: Self)
        requires
            1 <= rows,
            1 <= cols,
            rows * cols <= usize::MAX,
            call_requires(f, ()),
        ensures
            m.wf(),
            m.spec_rows() == rows,
            m.spec_cols() == cols,
            forall|i: int| 0 <= i < m@.len() ==> call_ensures(f, (), #[trigger] m@[i]),
    {
        let shape = Shape::new(rows, cols);
        let total = shape.total();
        let mut data: Vec<T> = Vec::new();
        let mut k: usize = 0;
        while k < total
            invariant
                total == rows * cols,
                call_requires(f, ()),
                k <= total,
                data@.len() == k,
                forall|i: int| 0 <= i < k ==> call_ensures(f, (), #[trigger] data@[i]),
            decreases total - k,
        {
            let v = f();
            data.push(v);
            k += 1;
        }
        DenseMatrix { data, shape }
    }

    /// A read-only view of row `i`, of length `cols`.
    pub fn row_view(&self, i: usize) -> (r: &[T])
        requires
            self.wf(),
            i < self.spec_rows(),
        ensures
            r@ == self.row(i as int),
            r@.len() == self.spec_cols(),
    {
        let range = self.shape.row_view_range(i);
        slice_subrange(self.data.as_slice(), range.start, range.end)
    }

    /// The checked form of `row_view`: an index at or past the row count is
    /// reported as `IndexOutOfRange` instead of being ruled out by contract.
    pub fn try_row_view(&self, i: usize) -> (r: Result<&[T], Error>)
        requires
            self.wf(),
        ensures
            i < self.spec_rows() <==> r is Ok,
            i < self.spec_rows() ==> r->Ok_0@ == self.row(i as int),
            i >= self.spec_rows() ==> r == Result::<&[T], Error>::Err(Error::IndexOutOfRange),
    {
        if i < self.shape.rows {
            Ok(self.row_view(i))
        } else {
            Err(Error::IndexOutOfRange)
        }
    }

    /// Overwrites the single element at row `i`, column `j`.
    pub fn set(&mut self, i: usize, j: usize, value: T)
        requires
            old(self).wf(),
            i < old(self).spec_rows(),
            j < old(self).spec_cols(),
        ensures
            final(self).wf(),
            final(self).spec_rows() == old(self).spec_rows(),
            final(self).spec_cols() == old(self).spec_cols(),
            final(self)@ == old(self)@.update(i * old(self).spec_cols() + j, value),
    {
        proof {
            lemma_row_span(self.shape.rows as int, self.shape.cols as int, i as int);
        }
        let index = i * self.shape.cols + j;
        self.data.set(index, value);
    }

    /// A read-only view of the whole backing buffer, in row-major order.
    pub fn data(&self) -> (r: &[T])
        ensures
            r@ == self@,
    {
        self.data.as_slice()
    }

    /// A forward-only iterator over the rows, from row `0` to the last.
    pub fn iter_rows(&self) -> (it: IterRows<'_, T>)
        requires
            self.wf(),
        ensures
            it.src() == *self,
            it.pos() == 0,
    {
        IterRows { data: self, cursor: 0 }
    }
}

impl<T: Default> DenseMatrix<T> {
    /// Allocates `rows * cols` default-valued elements.
    pub fn new(rows: usize, cols: usize) -> (m: Self)
        requires
            1 <= rows,
            1 <= cols,
            rows * cols <= usize::MAX,
        ensures
            m.wf(),
            m.spec_rows() == rows,
            m.spec_cols() == cols,
            forall|i: int|
                0 <= i < m@.len() ==> call_ensures(T::default, (), #[trigger] m@[i]),
    {
        Self::new_with(
            rows,
            cols,
            (|| -> (t: T)
                ensures
                    call_ensures(T::default, (), t),
                { T::default() }),
        )
    }
}

impl<T: Copy> DenseMatrix<T> {
    /// Reads the single element at row `i`, column `j`.
    pub fn get(&self, i: usize, j: usize) -> (r: T)
        requires
            self.wf(),
            i < self.spec_rows(),
            j < self.spec_cols(),
        ensures
            r == self@[i * self.spec_cols() + j],
    {
        proof {
            lemma_row_span(self.shape.rows as int, self.shape.cols as int, i as int);
        }
        let index = i * self.shape.cols + j;
        self.data[index]
    }

    /// An elementwise copy with the same shape.
    pub fn duplicate(&self) -> (r: Self)
        requires
            self.wf(),
        ensures
            r.wf(),
            r@ == self@,
            r.spec_rows() == self.spec_rows(),
            r.spec_cols() == self.spec_cols(),
    {
        let total = self.shape.total();
        let mut data: Vec<T> = Vec::new();
        let mut k: usize = 0;
        while k < total
            invariant
                self.wf(),
                total == self@.len(),
                k <= total,
                data@.len() == k,
                forall|i: int| 0 <= i < k ==> data@[i] == self@[i],
            decreases total - k,
        {
            data.push(self.data[k]);
            k += 1;
        }
        proof {
            assert(data@ =~= self@);
        }
        DenseMatrix { data, shape: self.shape }
    }

    /// Overwrites row `i` with the `cols` elements of `src`, leaving every
    /// other row unchanged.
    pub fn write_row(&mut self, i: usize, src: &[T])
        requires
            old(self).wf(),
            i < old(self).spec_rows(),
            src@.len() == old(self).spec_cols(),
        ensures
            final(self).wf(),
            final(self).spec_rows() == old(self).spec_rows(),
            final(self).spec_cols() == old(self).spec_cols(),
            final(self).row(i as int) == src@,
            forall|k: int|
                0 <= k < old(self)@.len() && !(i * old(self).spec_cols() <= k < i
                    * old(self).spec_cols() + old(self).spec_cols()) ==> final(self)@[k] == old(
                self,
            )@[k],
    {
        proof {
            lemma_row_span(self.shape.rows as int, self.shape.cols as int, i as int);
        }
        let start = i * self.shape.cols;
        let mut j: usize = 0;
        while j < self.shape.cols
            invariant
                self.wf(),
                self.spec_rows() == old(self).spec_rows(),
                self.spec_cols() == old(self).spec_cols(),
                self.shape == old(self).shape,
                i < self.spec_rows(),
                src@.len() == self.spec_cols(),
                start == i * self.spec_cols(),
                start + self.spec_cols() <= self@.len(),
                j <= self.spec_cols(),
                forall|k: int| start <= k < start + j ==> self@[k] == src@[k - start],
                forall|k: int|
                    0 <= k < self@.len() && !(start <= k < start + j) ==> self@[k] == old(
                    self,
                )@[k],
            decreases self.shape.cols - j,
        {
            let value = src[j];
            self.data.set(start + j, value);
            j += 1;
        }
        proof {
            assert(final(self).row(i as int) =~= src@);
        }
    }
}

/// Concatenation of the first `n` rows of `m`, in order.
pub open spec fn concat_rows<T>(m: DenseMatrix<T>, n: int) -> Seq<T>
    decreases n,
{
    if n <= 0 {
        Seq::empty()
    } else {
        concat_rows(m, n - 1) + m.row(n - 1)
    }
}

proof fn lemma_concat_rows_prefix<T>(m: DenseMatrix<T>, n: int)
    requires
        m.wf(),
        0 <= n <= m.spec_rows(),
    ensures
        concat_rows(m, n) == m@.subrange(0, n * m.spec_cols()),
    decreases n,
{
    let cols = m.spec_cols();
    assert(0 <= n * cols <= m.spec_rows() * cols) by (nonlinear_arith)
        requires
            0 <= n <= m.spec_rows(),
            1 <= cols,
    ;
    if n <= 0 {
        assert(n * cols == 0) by (nonlinear_arith)
            requires
                n == 0,
        ;
        assert(concat_rows(m, n) =~= m@.subrange(0, n * cols));
    } else {
        lemma_concat_rows_prefix(m, n - 1);
        assert((n - 1) * cols + cols == n * cols) by (nonlinear_arith);
        assert(0 <= (n - 1) * cols) by (nonlinear_arith)
            requires
                1 <= n,
                1 <= cols,
        ;
        assert(concat_rows(m, n) =~= m@.subrange(0, n * cols));
    }
}

/// Every row view has length `cols`, and concatenating all `rows` row views
/// in order reproduces the full backing buffer.
pub proof fn lemma_rows_concat<T>(m: DenseMatrix<T>)
    requires
        m.wf(),
    ensures
        forall|i: int| 0 <= i < m.spec_rows() ==> (#[trigger] m.row(i)).len() == m.spec_cols(),
        concat_rows(m, m.spec_rows()) == m@,
{
    assert forall|i: int| 0 <= i < m.spec_rows() implies (#[trigger] m.row(i)).len()
        == m.spec_cols() by {
        lemma_row_span(m.spec_rows(), m.spec_cols(), i);
        assert(0 <= i * m.spec_cols()) by (nonlinear_arith)
            requires
                0 <= i,
                1 <= m.spec_cols(),
        ;
    }
    lemma_concat_rows_prefix(m, m.spec_rows());
    assert(m@.subrange(0, m.spec_rows() * m.spec_cols()) =~= m@);
}

/// Distinct row views never overlap: for `i < j`, the range of row `i`
/// ends at or before the range of row `j` begins, and every row's range
/// lies inside the backing buffer.
pub proof fn lemma_row_ranges_disjoint(s: Shape, i: int, j: int)
    requires
        s.wf(),
        0 <= i < j < s.rows,
    ensures
        i * s.cols + s.cols <= j * s.cols,
        j * s.cols + s.cols <= s.rows * s.cols,
{
    assert(i * s.cols + s.cols <= j * s.cols) by (nonlinear_arith)
        requires
            0 <= i < j,
            1 <= s.cols,
    ;
    lemma_row_span(s.rows as int, s.cols as int, j);
}

/// A lazy, finite, forward-only sequence of read-only row views of a
/// matrix, from row `0` to row `rows - 1`.
pub struct IterRows<'a, T> {
    data: &'a DenseMatrix<T>,
    cursor: usize,
}

impl<'a, T> IterRows<'a, T> {
    /// The matrix being walked.
    pub closed spec fn src(&self) -> DenseMatrix<T> {
        *self.data
    }

    /// The index of the next row to hand out.
    pub closed spec fn pos(&self) -> int {
        self.cursor as int
    }

    /// Hands out the next row view, or `None` once every row has been seen.
    pub fn next(&mut self) -> (r: Option<&'a [T]>)
        requires
            old(self).src().wf(),
        ensures
            final(self).src() == old(self).src(),
            old(self).pos() < old(self).src().spec_rows() ==> {
                &&& r is Some
                &&& r->0@ == old(self).src().row(old(self).pos())
                &&& final(self).pos() == old(self).pos() + 1
            },
            old(self).pos() >= old(self).src().spec_rows() ==> {
                &&& r is None
                &&& final(self).pos() == old(self).pos()
            },
    {
        if self.cursor < self.data.shape.rows {
            let cursor = self.cursor;
            self.cursor = cursor + 1;
            Some(self.data.row_view(cursor))
        } else {
            None
        }
    }
}

} // verus!
