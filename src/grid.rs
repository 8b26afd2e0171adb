//! The density grid: a `rows × cols` array of hit counters.
//!
//! The counters live in an `ndarray::Array2<u32>`. Verus sees them through two
//! names: `grid_cells`, the counters in row-major order, and `grid_shape`.
use vstd::prelude::*;

verus! {

/// A two-dimensional array of hit counters, indexed `[row, col]`.
#[verifier::external_body]
pub struct Grid {
    pub counts: ndarray::Array2<u32>,
}

/// The counters of a grid, row after row.
pub uninterp spec fn grid_cells(g: Grid) -> Seq<u32>;

/// The number of rows and of columns of a grid.
pub uninterp spec fn grid_shape(g: Grid) -> (nat, nat);

/// The sum of a sequence of counters.
pub open spec fn seq_sum(s: Seq<u32>) -> int
    decreases s.len(),
{
    if s.len() == 0 {
        0
    } else {
        seq_sum(s.drop_last()) + s.last()
    }
}

/// A `rows × cols` grid of `u32` counters is small enough to allocate: the
/// product of its non-zero sides, in bytes, stays within `isize::MAX`.
pub open spec fn grid_fits(rows: nat, cols: nat) -> bool {
    (if rows == 0 { 1 } else { rows }) * (if cols == 0 { 1 } else { cols }) * 4 <= isize::MAX
}

/// The sum of the counters at position `k` over a sequence of grids.
pub open spec fn cell_sum(groups: Seq<Grid>, k: int) -> int
    decreases groups.len(),
{
    if groups.len() == 0 {
        0
    } else {
        cell_sum(groups.drop_last(), k) + groups.last().cells()[k]
    }
}

/// The sum of the totals of a sequence of grids.
pub open spec fn totals_sum(groups: Seq<Grid>) -> int
    decreases groups.len(),
{
    if groups.len() == 0 {
        0
    } else {
        totals_sum(groups.drop_last()) + groups.last().total()
    }
}

/// `v`, or `u32::MAX` where `v` is larger.
pub open spec fn saturated(v: int) -> int {
    if v <= u32::MAX {
        v
    } else {
        u32::MAX as int
    }
}

/// The position of `[row, col]` in the row-major order.
pub open spec fn flat_index(row: int, col: int, cols: int) -> int {
    row * cols + col
}

impl Grid {
    pub open spec fn cells(self) -> Seq<u32> {
        grid_cells(self)
    }

    pub open spec fn rows(self) -> nat {
        grid_shape(self).0
    }

    pub open spec fn cols(self) -> nat {
        grid_shape(self).1
    }

    /// The counters fill the shape exactly.
    pub open spec fn wf(self) -> bool {
        self.cells().len() == self.rows() * self.cols()
    }

    /// The counter at `[row, col]`.
    pub open spec fn at(self, row: int, col: int) -> u32 {
        self.cells()[flat_index(row, col, self.cols() as int)]
    }

    /// The sum of all counters.
    pub open spec fn total(self) -> int {
        seq_sum(self.cells())
    }

    /// A `rows × cols` grid with every counter at zero.
    pub fn empty(rows: usize, cols: usize) -> (r: Grid)
        requires
            grid_fits(rows as nat, cols as nat),
        ensures
            r.wf(),
            r.rows() == rows,
            r.cols() == cols,
            forall|k: int| 0 <= k < r.cells().len() ==> r.cells()[k] == 0,
            r.total() == 0,
    {
        let r = Grid::zeros(rows, cols);
        proof {
            lemma_sum_zeros((rows * cols) as nat);
        }
        r
    }

    /// Relies on `ndarray::ArrayBase::zeros`: a `rows × cols` array of zeros in
    /// standard (row-major) layout. It panics where the size overflows `isize`,
    /// which `grid_fits` leaves out.
    #[verifier::external_body]
    pub(crate) fn zeros(rows: usize, cols: usize) -> (r: Grid)
        requires
            grid_fits(rows as nat, cols as nat),
        ensures
            grid_shape(r) == (rows as nat, cols as nat),
            grid_cells(r) == Seq::new((rows * cols) as nat, |k: int| 0u32),
    {
        Grid { counts: ndarray::Array2::zeros((rows, cols)) }
    }

    /// Relies on `ndarray`'s `Index<[usize; 2]>`: the counter at `[row, col]`.
    /// It panics out of bounds, which `requires` leaves out.
    #[verifier::external_body]
    pub(crate) fn get(&self, row: usize, col: usize) -> (r: u32)
        requires
            self.wf(),
            row < self.rows(),
            col < self.cols(),
        ensures
            r == grid_cells(*self)[flat_index(row as int, col as int, self.cols() as int)],
    {
        self.counts[[row, col]]
    }

    /// Relies on `ndarray`'s `IndexMut<[usize; 2]>`: overwrites the counter at
    /// `[row, col]` and nothing else. It panics out of bounds, which
    /// `requires` leaves out.
    #[verifier::external_body]
    pub(crate) fn set(&mut self, row: usize, col: usize, v: u32)
        requires
            old(self).wf(),
            row < old(self).rows(),
            col < old(self).cols(),
        ensures
            grid_shape(*final(self)) == grid_shape(*old(self)),
            grid_cells(*final(self)) == grid_cells(*old(self)).update(
                flat_index(row as int, col as int, old(self).cols() as int),
                v,
            ),
    {
        self.counts[[row, col]] = v;
    }

    /// Relies on `ndarray::ArrayBase::dim`: `(rows, cols)`.
    #[verifier::external_body]
    pub(crate) fn shape(&self) -> (r: (usize, usize))
        ensures
            grid_shape(*self) == (r.0 as nat, r.1 as nat),
    {
        self.counts.dim()
    }
}

/// `[row, col]` inside a `rows × cols` shape lies inside the row-major order.
pub proof fn lemma_flat_index_bound(row: int, col: int, rows: int, cols: int)
    requires
        0 <= row < rows,
        0 <= col < cols,
    ensures
        0 <= flat_index(row, col, cols) < rows * cols,
{
    assert(0 <= row * cols + col < rows * cols) by (nonlinear_arith)
        requires
            0 <= row < rows,
            0 <= col < cols,
    ;
}

/// A sequence of zeros sums to zero.
pub proof fn lemma_sum_zeros(n: nat)
    ensures
        seq_sum(Seq::new(n, |k: int| 0u32)) == 0,
    decreases n,
{
    if n > 0 {
        assert(Seq::new(n, |k: int| 0u32).drop_last() =~= Seq::new((n - 1) as nat, |k: int| 0u32));
        lemma_sum_zeros((n - 1) as nat);
    }
}

/// Overwriting one counter changes the sum by the difference.
pub proof fn lemma_sum_update(s: Seq<u32>, i: int, v: u32)
    requires
        0 <= i < s.len(),
    ensures
        seq_sum(s.update(i, v)) == seq_sum(s) - s[i] + v,
    decreases s.len(),
{
    let t = s.update(i, v);
    if i == s.len() - 1 {
        assert(t.drop_last() =~= s.drop_last());
    } else {
        assert(t.drop_last() =~= s.drop_last().update(i, v));
        lemma_sum_update(s.drop_last(), i, v);
    }
}

/// Where each counter of `a` is at most the sum of those of `b` and `c` at the
/// same place, so is the sum of `a`.
pub proof fn lemma_sum_pointwise(a: Seq<u32>, b: Seq<u32>, c: Seq<u32>)
    requires
        a.len() == b.len(),
        a.len() == c.len(),
        forall|k: int| 0 <= k < a.len() ==> a[k] <= b[k] + c[k],
    ensures
        seq_sum(a) <= seq_sum(b) + seq_sum(c),
    decreases a.len(),
{
    if a.len() > 0 {
        let (a1, b1, c1) = (a.drop_last(), b.drop_last(), c.drop_last());
        assert forall|k: int| 0 <= k < a1.len() implies a1[k] <= b1[k] + c1[k] by {
            assert(a1[k] == a[k] && b1[k] == b[k] && c1[k] == c[k]);
        }
        lemma_sum_pointwise(a1, b1, c1);
    }
}

/// No counter exceeds the sum of all.
pub proof fn lemma_elem_le_sum(s: Seq<u32>, k: int)
    requires
        0 <= k < s.len(),
    ensures
        s[k] <= seq_sum(s),
    decreases s.len(),
{
    lemma_sum_nonneg(s.drop_last());
    if k < s.len() - 1 {
        lemma_elem_le_sum(s.drop_last(), k);
    }
}

/// A sum of counters is never negative.
pub proof fn lemma_sum_nonneg(s: Seq<u32>)
    ensures
        seq_sum(s) >= 0,
    decreases s.len(),
{
    if s.len() > 0 {
        lemma_sum_nonneg(s.drop_last());
    }
}

/// Where each counter of `a` is at least that of `b` at the same place, so is
/// the sum of `a`.
pub proof fn lemma_sum_monotone(a: Seq<u32>, b: Seq<u32>)
    requires
        a.len() == b.len(),
        forall|k: int| 0 <= k < a.len() ==> b[k] <= a[k],
    ensures
        seq_sum(b) <= seq_sum(a),
    decreases a.len(),
{
    if a.len() > 0 {
        let (a1, b1) = (a.drop_last(), b.drop_last());
        assert forall|k: int| 0 <= k < a1.len() implies b1[k] <= a1[k] by {
            assert(a1[k] == a[k] && b1[k] == b[k]);
        }
        lemma_sum_monotone(a1, b1);
    }
}

/// Adds one to the counter at `[row, col]`, unless it already holds `u32::MAX`.
pub fn increment(g: &mut Grid, row: usize, col: usize)
    requires
        old(g).wf(),
        row < old(g).rows(),
        col < old(g).cols(),
    ensures
        final(g).wf(),
        final(g).rows() == old(g).rows(),
        final(g).cols() == old(g).cols(),
        final(g).at(row as int, col as int) == if old(g).at(row as int, col as int) < u32::MAX {
            (old(g).at(row as int, col as int) + 1) as u32
        } else {
            u32::MAX
        },
        forall|k: int|
            0 <= k < final(g).cells().len() && k != flat_index(row as int, col as int, old(g).cols() as int)
                ==> final(g).cells()[k] == old(g).cells()[k],
        old(g).total() <= final(g).total() <= old(g).total() + 1,
{
    proof {
        lemma_flat_index_bound(row as int, col as int, g.rows() as int, g.cols() as int);
    }
    let c = g.get(row, col);
    let v: u32 = if c < u32::MAX { c + 1 } else { c };
    g.set(row, col, v);
    proof {
        lemma_sum_update(old(g).cells(), flat_index(row as int, col as int, old(g).cols() as int), v);
    }
}

/// Adds `part` into `acc` counter by counter, each sum saturating at
/// `u32::MAX`.
pub fn accumulate(acc: &mut Grid, part: &Grid)
    requires
        old(acc).wf(),
        part.wf(),
        part.rows() == old(acc).rows(),
        part.cols() == old(acc).cols(),
    ensures
        final(acc).wf(),
        final(acc).rows() == old(acc).rows(),
        final(acc).cols() == old(acc).cols(),
        forall|k: int|
            0 <= k < final(acc).cells().len() ==> #[trigger] final(acc).cells()[k] as int == if old(
                acc,
            ).cells()[k] + part.cells()[k] <= u32::MAX {
                old(acc).cells()[k] + part.cells()[k]
            } else {
                u32::MAX as int
            },
        old(acc).total() <= final(acc).total() <= old(acc).total() + part.total(),
{
    let (rows, cols) = part.shape();
    let ghost start = acc.cells();
    let ghost n = rows * cols;
    let mut row: usize = 0;
    while row < rows
        invariant
            acc.wf(),
            acc.rows() == rows,
            acc.cols() == cols,
            part.rows() == rows,
            part.cols() == cols,
            part.wf(),
            start.len() == rows * cols,
            row <= rows,
            forall|k: int|
                0 <= k < acc.cells().len() ==> #[trigger] acc.cells()[k] as int == if k < row * cols {
                    if start[k] + part.cells()[k] <= u32::MAX {
                        start[k] + part.cells()[k]
                    } else {
                        u32::MAX as int
                    }
                } else {
                    start[k] as int
                },
        decreases rows - row,
    {
        let mut col: usize = 0;
        while col < cols
            invariant
                acc.wf(),
                acc.rows() == rows,
                acc.cols() == cols,
                part.rows() == rows,
                part.cols() == cols,
                part.wf(),
                start.len() == rows * cols,
                row < rows,
                col <= cols,
                forall|k: int|
                    0 <= k < acc.cells().len() ==> #[trigger] acc.cells()[k] as int == if k < row * cols + col {
                        if start[k] + part.cells()[k] <= u32::MAX {
                            start[k] + part.cells()[k]
                        } else {
                            u32::MAX as int
                        }
                    } else {
                        start[k] as int
                    },
            decreases cols - col,
        {
            proof {
                lemma_flat_index_bound(row as int, col as int, rows as int, cols as int);
            }
            let a = acc.get(row, col);
            let b = part.get(row, col);
            let v: u32 = if a <= u32::MAX - b { a + b } else { u32::MAX };
            acc.set(row, col, v);
            col = col + 1;
        }
        proof {
            assert((row + 1) * cols == row * cols + cols) by (nonlinear_arith);
        }
        row = row + 1;
    }
    proof {
        lemma_sum_pointwise(acc.cells(), start, part.cells());
        assert forall|k: int| 0 <= k < acc.cells().len() implies start[k] <= #[trigger] acc.cells()[k] by {
            assert(k < row * cols);
        }
        lemma_sum_monotone(acc.cells(), start);
    }
}


/// Where every grid's total is at most `bound`, their totals add up to at most
/// `bound` for each grid.
pub proof fn lemma_totals_sum_bound(groups: Seq<Grid>, bound: int)
    requires
        forall|i: int| 0 <= i < groups.len() ==> (#[trigger] groups[i]).total() <= bound,
    ensures
        totals_sum(groups) <= groups.len() * bound,
    decreases groups.len(),
{
    if groups.len() > 0 {
        let init = groups.drop_last();
        assert forall|i: int| 0 <= i < init.len() implies (#[trigger] init[i]).total() <= bound by {
            assert(init[i] == groups[i]);
        }
        lemma_totals_sum_bound(init, bound);
        assert(groups.len() * bound == init.len() * bound + bound) by (nonlinear_arith)
            requires
                groups.len() == init.len() + 1,
        ;
    }
}

/// Sums `groups`, all of them `rows × cols`, counter by counter into a new
/// grid. Each counter is the sum of the groups' counters at that place, or
/// `u32::MAX` where that sum is larger.
pub fn sum_grids(groups: &Vec<Grid>, rows: usize, cols: usize) -> (r: Grid)
    requires
        grid_fits(rows as nat, cols as nat),
        forall|i: int|
            0 <= i < groups.len() ==> {
                &&& (#[trigger] groups[i]).wf()
                &&& groups[i].rows() == rows
                &&& groups[i].cols() == cols
            },
    ensures
        r.wf(),
        r.rows() == rows,
        r.cols() == cols,
        forall|k: int| 0 <= k < r.cells().len() ==> #[trigger] r.cells()[k] as int == saturated(cell_sum(groups@, k)),
        r.total() <= totals_sum(groups@),
{
    let mut acc = Grid::empty(rows, cols);
    let mut i: usize = 0;
    while i < groups.len()
        invariant
            i <= groups.len(),
            forall|j: int|
                0 <= j < groups.len() ==> {
                    &&& (#[trigger] groups[j]).wf()
                    &&& groups[j].rows() == rows
                    &&& groups[j].cols() == cols
                },
            acc.wf(),
            acc.rows() == rows,
            acc.cols() == cols,
            forall|k: int|
                0 <= k < acc.cells().len() ==> #[trigger] acc.cells()[k] as int == saturated(
                    cell_sum(groups@.take(i as int), k),
                ),
            acc.total() <= totals_sum(groups@.take(i as int)),
        decreases groups.len() - i,
    {
        let ghost before = acc;
        accumulate(&mut acc, &groups[i]);
        proof {
            let next = groups@.take(i + 1);
            assert(next.drop_last() =~= groups@.take(i as int));
            assert(next.last() == groups[i as int]);
            assert forall|k: int| 0 <= k < acc.cells().len() implies #[trigger] acc.cells()[k] as int
                == saturated(cell_sum(next, k)) by {
                assert(before.cells()[k] as int == saturated(cell_sum(groups@.take(i as int), k)));
                assert(cell_sum(groups@.take(i as int), k) >= 0) by {
                    lemma_cell_sum_nonneg(groups@.take(i as int), k);
                }
            }
        }
        i = i + 1;
    }
    proof {
        assert(groups@.take(groups.len() as int) =~= groups@);
    }
    acc
}

/// A sum of counters over grids is never negative.
pub proof fn lemma_cell_sum_nonneg(groups: Seq<Grid>, k: int)
    ensures
        cell_sum(groups, k) >= 0,
    decreases groups.len(),
{
    if groups.len() > 0 {
        lemma_cell_sum_nonneg(groups.drop_last(), k);
    }
}

} // verus!
