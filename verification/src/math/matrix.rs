//! Square matrices of fixed dimension over a generic scalar type, with the
//! textbook cofactor-expansion determinant and adjugate-based inversion.
//!
//! The specification model of a matrix is the sequence of its rows
//! (`Seq<Seq<T>>`).  `det_seq` is the recursive Laplace expansion along the
//! first row, with alternating signs, down to the one-element base case;
//! every executable determinant, cofactor and inverse is specified against
//! it.  The named types `Matrix1` ... `Matrix5` and the general `MatrixN`
//! all satisfy the same `BasicMatrixOps` contracts.

use vstd::prelude::*;

use super::traits::FloatNumber;
use super::traits::Numeric;
use super::vector::dot_prefix;
use super::vector::BasicVectorOps;
use super::vector::Vector2;
use super::vector::Vector3;
use super::vector::Vector4;
use super::vector::Vector5;
use super::vector::VectorN;

verus! {

broadcast use vstd::array::group_array_axioms;

/// The sequence of rows of a row-major array of arrays.
pub open spec fn rows_of_array<T, const N: usize, const M: usize>(a: [[T; N]; M]) -> Seq<Seq<T>> {
    Seq::new(M as nat, |i: int| a@[i]@)
}

/// The sequence of rows of a vector of row vectors.
pub open spec fn rows_of_vec<T>(m: Seq<Vec<T>>) -> Seq<Seq<T>> {
    Seq::new(m.len(), |i: int| m[i]@)
}

/// Every row has the same length as the number of rows.
pub open spec fn is_square<T>(m: Seq<Seq<T>>) -> bool {
    forall|i: int| 0 <= i < m.len() ==> (#[trigger] m[i]).len() == m.len()
}

/// The submatrix obtained by deleting one row and one column, keeping the
/// relative order of what remains.
pub open spec fn minor_seq<T>(m: Seq<Seq<T>>, row: int, col: int) -> Seq<Seq<T>> {
    Seq::new(
        (m.len() - 1) as nat,
        |i: int|
            Seq::new(
                (m.len() - 1) as nat,
                |j: int|
                    m[if i < row {
                        i
                    } else {
                        i + 1
                    }][if j < col {
                        j
                    } else {
                        j + 1
                    }],
            ),
    )
}

/// The determinant, by Laplace expansion along the first row, recursively
/// down to the one-element base case.  The empty matrix has determinant
/// `one`, so that the recursion needs no other base.
pub open spec fn det_seq<T: Numeric>(m: Seq<Seq<T>>) -> T
    decreases m.len(), m.len() + 1int,
{
    if m.len() <= 0 {
        T::one_spec()
    } else if m.len() == 1 {
        m[0][0]
    } else {
        det_expand(m, m.len() as int)
    }
}

/// The signed expansion of the determinant along row zero, over the first
/// `k` columns, folded from the left starting at the first term, exactly
/// as the executable loop computes it.
pub open spec fn det_expand<T: Numeric>(m: Seq<Seq<T>>, k: int) -> T
    decreases m.len(), k,
    when m.len() >= 2
{
    if k <= 0 {
        T::zero_spec()
    } else if k == 1 {
        m[0][0].mul_spec(det_seq(minor_seq(m, 0, 0)))
    } else {
        let term = m[0][k - 1].mul_spec(det_seq(minor_seq(m, 0, k - 1)));
        if (k - 1) % 2 == 0 {
            det_expand(m, k - 1).add_spec(term)
        } else {
            det_expand(m, k - 1).sub_spec(term)
        }
    }
}

/// The determinant of the submatrix that deletes `row` and `col`; for a
/// one-element matrix, where no submatrix exists, its sole element.
pub open spec fn minor_det<T: Numeric>(m: Seq<Seq<T>>, row: int, col: int) -> T {
    if m.len() == 1 {
        m[0][0]
    } else {
        det_seq(minor_seq(m, row, col))
    }
}

/// `one` for an even index, `-one` for an odd one: the checkerboard sign
/// of the cofactor matrix.
pub open spec fn sign_spec<T: Numeric>(k: int) -> T {
    if k % 2 == 0 {
        T::one_spec()
    } else {
        T::one_spec().neg_spec()
    }
}

/// The matrix of signed cofactors.
pub open spec fn cofactor_mat_seq<T: Numeric>(m: Seq<Seq<T>>) -> Seq<Seq<T>> {
    Seq::new(
        m.len(),
        |i: int| Seq::new(m.len(), |j: int| minor_det(m, i, j).mul_spec(sign_spec::<T>(i + j))),
    )
}

/// Rows and columns exchanged.
pub open spec fn transpose_seq<T>(m: Seq<Seq<T>>) -> Seq<Seq<T>> {
    Seq::new(m.len(), |i: int| Seq::new(m.len(), |j: int| m[j][i]))
}

/// The sum of the first `k` diagonal elements, folded from the left.
pub open spec fn trace_prefix<T: Numeric>(m: Seq<Seq<T>>, k: int) -> T
    decreases k,
{
    if k <= 0 {
        T::zero_spec()
    } else if k == 1 {
        m[0][0]
    } else {
        trace_prefix(m, k - 1).add_spec(m[k - 1][k - 1])
    }
}

/// The sum of the diagonal elements.
pub open spec fn trace_seq<T: Numeric>(m: Seq<Seq<T>>) -> T {
    trace_prefix(m, m.len() as int)
}

/// The square identity matrix of dimension `n`.
pub open spec fn identity_seq<T: Numeric>(n: nat) -> Seq<Seq<T>> {
    Seq::new(
        n,
        |i: int|
            Seq::new(
                n,
                |j: int|
                    if i == j {
                        T::one_spec()
                    } else {
                        T::zero_spec()
                    },
            ),
    )
}

/// `rows` by `cols` of the same value.
pub open spec fn msplat_seq<T>(rows: nat, cols: nat, v: T) -> Seq<Seq<T>> {
    Seq::new(rows, |i: int| Seq::new(cols, |j: int| v))
}

/// Every entry multiplied by one scalar.
pub open spec fn mscale_seq<T: Numeric>(m: Seq<Seq<T>>, c: T) -> Seq<Seq<T>> {
    Seq::new(m.len(), |i: int| Seq::new(m[i].len(), |j: int| m[i][j].mul_spec(c)))
}

/// Entrywise addition.
pub open spec fn madd_seq<T: Numeric>(a: Seq<Seq<T>>, b: Seq<Seq<T>>) -> Seq<Seq<T>> {
    Seq::new(a.len(), |i: int| Seq::new(a[i].len(), |j: int| a[i][j].add_spec(b[i][j])))
}

/// Entrywise subtraction.
pub open spec fn msub_seq<T: Numeric>(a: Seq<Seq<T>>, b: Seq<Seq<T>>) -> Seq<Seq<T>> {
    Seq::new(a.len(), |i: int| Seq::new(a[i].len(), |j: int| a[i][j].sub_spec(b[i][j])))
}

/// One entry of a matrix product: the multiply-accumulate of row `i` of
/// `a` against column `j` of `b` over the first `k` inner indices, folded
/// from the left.
pub open spec fn mm_entry<T: Numeric>(a: Seq<Seq<T>>, b: Seq<Seq<T>>, i: int, j: int, k: int) -> T
    decreases k,
{
    if k <= 0 {
        T::zero_spec()
    } else if k == 1 {
        a[i][0].mul_spec(b[0][j])
    } else {
        mm_entry(a, b, i, j, k - 1).add_spec(a[i][k - 1].mul_spec(b[k - 1][j]))
    }
}

/// The matrix product of a `rows` by `mid` matrix and a `mid` by `cols`
/// matrix.
pub open spec fn matmul_seq<T: Numeric>(
    a: Seq<Seq<T>>,
    b: Seq<Seq<T>>,
    rows: nat,
    mid: nat,
    cols: nat,
) -> Seq<Seq<T>> {
    Seq::new(rows, |i: int| Seq::new(cols, |j: int| mm_entry(a, b, i, j, mid as int)))
}

/// The product of a `rows` by `cols` matrix and a vector of `cols`
/// components.
pub open spec fn matvec_seq<T: Numeric>(m: Seq<Seq<T>>, v: Seq<T>, rows: nat, cols: nat) -> Seq<T> {
    Seq::new(rows, |i: int| dot_prefix(m[i], v, cols as int))
}

/// Matrix operations available over any `Numeric` scalar.  `rows` is the
/// specification-level view of a matrix as the sequence of its rows; every
/// contract is stated against it.
pub trait BasicMatrixOps<T: Numeric>: Sized {
    /// The rows of the matrix, in order.
    spec fn rows(&self) -> Seq<Seq<T>>;

    /// The determinant, by recursive cofactor expansion along row zero.
    fn determinant(&self) -> (r: T)
        ensures
            r == det_seq(self.rows()),
    ;

    /// Rows and columns exchanged.
    fn transpose(&self) -> (r: Self)
        ensures
            r.rows() == transpose_seq(self.rows()),
    ;

    /// The sum of the diagonal elements.
    fn trace(&self) -> (r: T)
        ensures
            r == trace_seq(self.rows()),
    ;

    /// The determinant of the submatrix that deletes `row` and `col`
    /// (unsigned; the sign convention is applied by `cofactor_matrix`).
    fn cofactor(&self, row: usize, col: usize) -> (r: T)
        requires
            row < self.rows().len(),
            col < self.rows().len(),
        ensures
            r == minor_det(self.rows(), row as int, col as int),
    ;

    /// The matrix of signed cofactors.
    fn cofactor_matrix(&self) -> (r: Self)
        ensures
            r.rows() == cofactor_mat_seq(self.rows()),
    ;
}

/// Matrix inversion, for scalar types that can divide meaningfully.
pub trait FloatMatrixOps<T: FloatNumber>: BasicMatrixOps<T> {
    /// The inverse by the adjugate-over-determinant formula.  Returns
    /// nothing exactly when the determinant equals `zero`; no epsilon
    /// tolerance is applied, so a near-singular matrix yields a usable but
    /// numerically poor inverse rather than being rejected.
    fn inverse(&self) -> (r: Option<Self>)
        ensures
            (r is None) <==> det_seq(self.rows()) == T::zero_spec(),
            r is Some ==> r->Some_0.rows() == mscale_seq(
                transpose_seq(cofactor_mat_seq(self.rows())),
                T::one_spec().div_spec(det_seq(self.rows())),
            ),
    ;
}

/// The determinant of a vector-of-rows matrix, by the recursive signed
/// expansion along row zero that `det_seq` describes.
fn det_vec<T: Numeric>(m: &Vec<Vec<T>>) -> (r: T)
    requires
        m@.len() >= 1,
        is_square(rows_of_vec(m@)),
    ensures
        r == det_seq(rows_of_vec(m@)),
    decreases m@.len(),
{
    let n = m.len();
    proof {
        assert(forall|i: int|
            0 <= i < m@.len() ==> (#[trigger] m@[i])@ == rows_of_vec(m@)[i]);
        assert(m@[0]@.len() == m@.len());
    }
    if n == 1 {
        return m[0][0];
    }
    let ghost rs = rows_of_vec(m@);
    let mut out = T::zero();
    let mut j: usize = 0;
    proof {
        assert(out == det_expand(rs, 0));
    }
    while j < n
        invariant
            n == m@.len(),
            1 < n,
            is_square(rows_of_vec(m@)),
            j <= n,
            out == det_expand(rows_of_vec(m@), j as int),
        decreases n - j,
    {
        let ghost rs = rows_of_vec(m@);
        // Build the submatrix that deletes row 0 and column j.
        let mut sub: Vec<Vec<T>> = Vec::new();
        let mut y: usize = 1;
        while y < n
            invariant
                n == m@.len(),
                1 < n,
                j < n,
                is_square(rows_of_vec(m@)),
                rs == rows_of_vec(m@),
                1 <= y <= n,
                sub@.len() == y - 1,
                forall|i: int|
                    0 <= i < y - 1 ==> (#[trigger] sub@[i])@ == minor_seq(rs, 0, j as int)[i],
            decreases n - y,
        {
            let mut rowv: Vec<T> = Vec::new();
            let mut x: usize = 0;
            while x < n
                invariant
                    n == m@.len(),
                    1 < n,
                    j < n,
                    1 <= y < n,
                    is_square(rows_of_vec(m@)),
                    rs == rows_of_vec(m@),
                    x <= n,
                    rowv@.len() == if x <= j {
                        x as int
                    } else {
                        x - 1
                    },
                    forall|k: int|
                        0 <= k < rowv@.len() ==> rowv@[k] == rs[y as int][
                            if k < j {
                                k
                            } else {
                                k + 1
                            }
                        ],
                decreases n - x,
            {
                if x != j {
                    proof {
                        assert(m@[y as int]@ == rows_of_vec(m@)[y as int]);
                        assert(m@[y as int]@.len() == m@.len());
                    }
                    rowv.push(m[y][x]);
                }
                x += 1;
            }
            proof {
                assert(rowv@ =~= minor_seq(rs, 0, j as int)[y - 1]);
            }
            sub.push(rowv);
            y += 1;
        }
        proof {
            assert(rows_of_vec(sub@) =~~= minor_seq(rs, 0, j as int));
            assert(is_square(rows_of_vec(sub@)));
        }
        let term = m[0][j].mul(det_vec(&sub));
        if j == 0 {
            out = term;
        } else if j % 2 == 0 {
            out = out.add(term);
        } else {
            out = out.sub(term);
        }
        j += 1;
    }
    out
}

// ------------------------------------------------------------------
// Matrix of general dimension
// ------------------------------------------------------------------

#[derive(Debug, Clone, Copy, PartialEq, Eq, PartialOrd, Ord)]
pub struct MatrixN<T, const N: usize> {
    pub inner: [[T; N]; N],
}

impl<T, const N: usize> MatrixN<T, N> {
    pub fn build(inner: [[T; N]; N]) -> (r: Self)
        ensures
            r == (MatrixN { inner }),
    {
        Self { inner }
    }
}

impl<T: Numeric, const N: usize> MatrixN<T, N> {
    /// The matrix with `zero` in every entry.
    pub fn zeros() -> (r: Self)
        ensures
            r.rows() == msplat_seq(N as nat, N as nat, T::zero_spec()),
    {
        let r = Self::build(
            vstd::array::array_fill_for_copy_types(
                vstd::array::array_fill_for_copy_types(T::zero()),
            ),
        );
        proof {
            assert(r.rows() =~~= msplat_seq(N as nat, N as nat, T::zero_spec()));
        }
        r
    }

    /// The matrix with `one` on the diagonal and `zero` elsewhere.
    pub fn identity() -> (r: Self)
        ensures
            r.rows() == identity_seq::<T>(N as nat),
    {
        let mut inner: [[T; N]; N] = vstd::array::array_fill_for_copy_types(
            vstd::array::array_fill_for_copy_types(T::zero()),
        );
        for i in 0..N
            invariant
                inner@.len() == N,
                forall|ii: int| 0 <= ii < N ==> (#[trigger] inner@[ii])@.len() == N,
                forall|ii: int, jj: int|
                    0 <= ii < i && 0 <= jj < N ==> (#[trigger] inner@[ii]@[jj]) == identity_seq::<
                        T,
                    >(N as nat)[ii][jj],
                forall|ii: int, jj: int|
                    i <= ii < N && 0 <= jj < N ==> (#[trigger] inner@[ii]@[jj]) == T::zero_spec(),
        {
            let mut row = inner[i];
            row[i] = T::one();
            inner[i] = row;
        }
        let r = Self::build(inner);
        proof {
            assert(r.rows() =~~= identity_seq::<T>(N as nat));
        }
        r
    }

    /// The matrix with the same value in every entry.
    pub fn splat(value: T) -> (r: Self)
        ensures
            r.rows() == msplat_seq(N as nat, N as nat, value),
    {
        let r = Self::build(
            vstd::array::array_fill_for_copy_types(vstd::array::array_fill_for_copy_types(value)),
        );
        proof {
            assert(r.rows() =~~= msplat_seq(N as nat, N as nat, value));
        }
        r
    }

    /// Every entry multiplied by one scalar.
    pub fn mul_scalar(self, scalar: T) -> (r: Self)
        ensures
            r.rows() == mscale_seq(self.rows(), scalar),
    {
        let mut inner = self.inner;
        for i in 0..N
            invariant
                inner@.len() == N,
                forall|ii: int, jj: int|
                    0 <= ii < i && 0 <= jj < N ==> (#[trigger] inner@[ii]@[jj])
                        == self.inner@[ii]@[jj].mul_spec(scalar),
                forall|ii: int| i <= ii < N ==> (#[trigger] inner@[ii]) == self.inner@[ii],
        {
            let mut row = inner[i];
            for j in 0..N
                invariant
                    i < N,
                    row@.len() == N,
                    forall|jj: int|
                        0 <= jj < j ==> (#[trigger] row@[jj]) == self.inner@[i as int]@[jj].mul_spec(
                            scalar,
                        ),
                    forall|jj: int| j <= jj < N ==> (#[trigger] row@[jj]) == self.inner@[i as int]@[jj],
            {
                row[j] = self.inner[i][j].mul(scalar);
            }
            inner[i] = row;
        }
        let r = Self::build(inner);
        proof {
            assert(r.rows() =~~= mscale_seq(self.rows(), scalar));
        }
        r
    }

    /// The product with a vector of matching dimension.
    pub fn mul_vector(self, vec: VectorN<T, N>) -> (r: VectorN<T, N>)
        ensures
            r.inner@ == matvec_seq(self.rows(), vec.inner@, N as nat, N as nat),
    {
        let mut out: [T; N] = vstd::array::array_fill_for_copy_types(T::zero());
        for i in 0..N
            invariant
                out@.len() == N,
                forall|ii: int|
                    0 <= ii < i ==> (#[trigger] out@[ii]) == dot_prefix(
                        self.rows()[ii],
                        vec.inner@,
                        N as int,
                    ),
        {
            let mut acc = T::zero();
            for k in 0..N
                invariant
                    i < N,
                    acc == dot_prefix(self.rows()[i as int], vec.inner@, k as int),
            {
                let term = self.inner[i][k].mul(vec.inner[k]);
                acc = if k == 0 {
                    term
                } else {
                    acc.add(term)
                };
            }
            out[i] = acc;
        }
        let r = VectorN::build(out);
        proof {
            assert(r.inner@ =~= matvec_seq(self.rows(), vec.inner@, N as nat, N as nat));
        }
        r
    }

    /// The product with another square matrix of the same dimension.
    pub fn mul_matrix(self, other: Self) -> (r: Self)
        ensures
            r.rows() == matmul_seq(self.rows(), other.rows(), N as nat, N as nat, N as nat),
    {
        let mut inner = self.inner;
        for i in 0..N
            invariant
                inner@.len() == N,
                forall|ii: int, jj: int|
                    0 <= ii < i && 0 <= jj < N ==> (#[trigger] inner@[ii]@[jj]) == mm_entry(
                        self.rows(),
                        other.rows(),
                        ii,
                        jj,
                        N as int,
                    ),
        {
            let mut row = inner[i];
            for j in 0..N
                invariant
                    i < N,
                    row@.len() == N,
                    forall|jj: int|
                        0 <= jj < j ==> (#[trigger] row@[jj]) == mm_entry(
                            self.rows(),
                            other.rows(),
                            i as int,
                            jj,
                            N as int,
                        ),
            {
                let mut acc = T::zero();
                for k in 0..N
                    invariant
                        i < N,
                        j < N,
                        acc == mm_entry(self.rows(), other.rows(), i as int, j as int, k as int),
                {
                    let term = self.inner[i][k].mul(other.inner[k][j]);
                    acc = if k == 0 {
                        term
                    } else {
                        acc.add(term)
                    };
                }
                row[j] = acc;
            }
            inner[i] = row;
        }
        let r = Self::build(inner);
        proof {
            assert(r.rows() =~~= matmul_seq(self.rows(), other.rows(), N as nat, N as nat, N as nat));
        }
        r
    }

    /// The rows of the matrix, copied into growable vectors.
    fn to_vec(&self) -> (r: Vec<Vec<T>>)
        ensures
            rows_of_vec(r@) == self.rows(),
    {
        let mut v: Vec<Vec<T>> = Vec::new();
        for i in 0..N
            invariant
                v@.len() == i,
                forall|ii: int| 0 <= ii < i ==> (#[trigger] v@[ii])@ == self.rows()[ii],
        {
            let mut row: Vec<T> = Vec::new();
            for j in 0..N
                invariant
                    i < N,
                    row@.len() == j,
                    forall|jj: int| 0 <= jj < j ==> (#[trigger] row@[jj]) == self.rows()[i as int][jj],
            {
                row.push(self.inner[i][j]);
            }
            proof {
                assert(row@ =~= self.rows()[i as int]);
            }
            v.push(row);
        }
        proof {
            assert(rows_of_vec(v@) =~~= self.rows());
        }
        v
    }
}

impl<T: Numeric, const N: usize> BasicMatrixOps<T> for MatrixN<T, N> {
    open spec fn rows(&self) -> Seq<Seq<T>> {
        rows_of_array(self.inner)
    }

    fn determinant(&self) -> (r: T) {
        if N == 0 {
            return T::one();
        }
        let v = self.to_vec();
        proof {
            assert(rows_of_vec(v@).len() == v@.len());
            assert(self.rows().len() == N as nat);
            assert(is_square(rows_of_vec(v@)));
        }
        det_vec(&v)
    }

    fn transpose(&self) -> (r: Self) {
        let mut inner = self.inner;
        for i in 0..N
            invariant
                inner@.len() == N,
                forall|ii: int, jj: int|
                    0 <= ii < i && 0 <= jj < N ==> (#[trigger] inner@[ii]@[jj])
                        == self.inner@[jj]@[ii],
                forall|ii: int| i <= ii < N ==> (#[trigger] inner@[ii]) == self.inner@[ii],
        {
            let mut row = inner[i];
            for j in 0..N
                invariant
                    i < N,
                    row@.len() == N,
                    forall|jj: int| 0 <= jj < j ==> (#[trigger] row@[jj]) == self.inner@[jj]@[i as int],
                    forall|jj: int| j <= jj < N ==> (#[trigger] row@[jj]) == self.inner@[i as int]@[jj],
            {
                row[j] = self.inner[j][i];
            }
            inner[i] = row;
        }
        let r = Self::build(inner);
        proof {
            assert(r.rows() =~~= transpose_seq(self.rows()));
        }
        r
    }

    fn trace(&self) -> (r: T) {
        let mut out = T::zero();
        for i in 0..N
            invariant
                out == trace_prefix(self.rows(), i as int),
        {
            let term = self.inner[i][i];
            out = if i == 0 {
                term
            } else {
                out.add(term)
            };
        }
        out
    }

    fn cofactor(&self, row: usize, col: usize) -> (r: T) {
        if N == 1 {
            return self.inner[0][0];
        }
        let ghost rs = self.rows();
        // Build the submatrix that deletes `row` and `col`.
        let mut sub: Vec<Vec<T>> = Vec::new();
        let mut y: usize = 0;
        while y < N
            invariant
                1 < N,
                row < N,
                col < N,
                rs == self.rows(),
                y <= N,
                sub@.len() == if y <= row {
                    y as int
                } else {
                    y - 1
                },
                forall|i: int|
                    0 <= i < sub@.len() ==> (#[trigger] sub@[i])@ == minor_seq(
                        rs,
                        row as int,
                        col as int,
                    )[i],
            decreases N - y,
        {
            if y != row {
                let mut rowv: Vec<T> = Vec::new();
                let mut x: usize = 0;
                while x < N
                    invariant
                        1 < N,
                        row < N,
                        col < N,
                        y < N,
                        y != row,
                        rs == self.rows(),
                        x <= N,
                        rowv@.len() == if x <= col {
                            x as int
                        } else {
                            x - 1
                        },
                        forall|k: int|
                            0 <= k < rowv@.len() ==> rowv@[k] == rs[y as int][
                                if k < col {
                                    k
                                } else {
                                    k + 1
                                }
                            ],
                    decreases N - x,
                {
                    if x != col {
                        rowv.push(self.inner[y][x]);
                    }
                    x += 1;
                }
                proof {
                    let i = if y <= row {
                        y as int
                    } else {
                        y - 1
                    };
                    assert(rowv@ =~= minor_seq(rs, row as int, col as int)[i]);
                }
                sub.push(rowv);
            }
            y += 1;
        }
        proof {
            assert(rows_of_vec(sub@) =~~= minor_seq(rs, row as int, col as int));
            assert(is_square(rows_of_vec(sub@)));
        }
        det_vec(&sub)
    }

    fn cofactor_matrix(&self) -> (r: Self) {
        let mut inner = self.inner;
        for i in 0..N
            invariant
                inner@.len() == N,
                forall|ii: int, jj: int|
                    0 <= ii < i && 0 <= jj < N ==> (#[trigger] inner@[ii]@[jj])
                        == cofactor_mat_seq(self.rows())[ii][jj],
                forall|ii: int| i <= ii < N ==> (#[trigger] inner@[ii]) == self.inner@[ii],
        {
            let mut row = inner[i];
            for j in 0..N
                invariant
                    i < N,
                    row@.len() == N,
                    forall|jj: int|
                        0 <= jj < j ==> (#[trigger] row@[jj]) == cofactor_mat_seq(self.rows())[i as int][jj],
            {
                let sign = if (i % 2) == (j % 2) {
                    T::one()
                } else {
                    T::one().neg()
                };
                proof {
                    assert(sign == sign_spec::<T>(i + j));
                }
                row[j] = self.cofactor(i, j).mul(sign);
            }
            inner[i] = row;
        }
        let r = Self::build(inner);
        proof {
            assert(r.rows() =~~= cofactor_mat_seq(self.rows()));
        }
        r
    }
}

impl<T: FloatNumber, const N: usize> FloatMatrixOps<T> for MatrixN<T, N> {
    fn inverse(&self) -> (r: Option<Self>) {
        let det = self.determinant();
        if det.eq_zero() {
            return None;
        }
        let inv_det = T::one().div(det);
        Some(self.cofactor_matrix().transpose().mul_scalar(inv_det))
    }
}


// ------------------------------------------------------------------
// Matrix of dimension 1
// ------------------------------------------------------------------

#[derive(Debug, Default, Clone, Copy, PartialEq, Eq, PartialOrd, Ord)]
pub struct Matrix1<T> {
    pub ele: T,
}

impl<T> Matrix1<T> {
    pub fn build(ele: T) -> (r: Self)
        ensures
            r == (Matrix1 { ele }),
    {
        Self { ele }
    }
}

impl<T: Numeric> Matrix1<T> {
    /// The same matrix in its general-dimension form.
    fn general(&self) -> (r: MatrixN<T, 1>)
        ensures
            r.rows() == self.rows(),
    {
        let r = MatrixN::build([[self.ele]]);
        proof {
            assert(r.rows() =~~= self.rows());
        }
        r
    }

    /// The matrix with `zero` in every entry.
    pub fn zeros() -> (r: Self)
        ensures
            r.rows() == msplat_seq(1, 1, T::zero_spec()),
    {
        let r = Self::build(T::zero());
        proof {
            assert(r.rows() =~~= msplat_seq(1, 1, T::zero_spec()));
        }
        r
    }

    /// The matrix with `one` on the diagonal and `zero` elsewhere.
    pub fn identity() -> (r: Self)
        ensures
            r.rows() == identity_seq::<T>(1),
    {
        let r = Self::build(T::one());
        proof {
            assert(r.rows() =~~= identity_seq::<T>(1));
        }
        r
    }

    /// The matrix with the same value in every entry.
    pub fn splat(value: T) -> (r: Self)
        ensures
            r.rows() == msplat_seq(1, 1, value),
    {
        let r = Self::build(value);
        proof {
            assert(r.rows() =~~= msplat_seq(1, 1, value));
        }
        r
    }
}

impl<T: Numeric> BasicMatrixOps<T> for Matrix1<T> {
    open spec fn rows(&self) -> Seq<Seq<T>> {
        seq![seq![self.ele]]
    }

    fn determinant(&self) -> (r: T) {
        self.general().determinant()
    }

    fn transpose(&self) -> (r: Self) {
        let r = *self;
        proof {
            assert(r.rows() =~~= transpose_seq(self.rows()));
        }
        r
    }

    fn trace(&self) -> (r: T) {
        self.general().trace()
    }

    fn cofactor(&self, row: usize, col: usize) -> (r: T) {
        self.ele
    }

    fn cofactor_matrix(&self) -> (r: Self) {
        let r = Self::build(self.general().cofactor_matrix().inner[0][0]);
        proof {
            assert(r.rows() =~~= cofactor_mat_seq(self.rows()));
        }
        r
    }
}

impl<T: FloatNumber> FloatMatrixOps<T> for Matrix1<T> {
    fn inverse(&self) -> (r: Option<Self>) {
        match self.general().inverse() {
            Some(inv) => {
                let r = Self::build(inv.inner[0][0]);
                proof {
                    assert(r.rows() =~~= inv.rows());
                }
                Some(r)
            },
            None => None,
        }
    }
}

// ------------------------------------------------------------------
// Matrix of dimension 2
// ------------------------------------------------------------------

#[derive(Debug, Default, Clone, Copy, PartialEq, Eq, PartialOrd, Ord)]
pub struct Matrix2<T> {
    pub inner: [[T; 2]; 2],
}

impl<T> Matrix2<T> {
    pub fn build(inner: [[T; 2]; 2]) -> (r: Self)
        ensures
            r == (Matrix2 { inner }),
    {
        Self { inner }
    }
}

impl<T: Numeric> Matrix2<T> {
    /// The same matrix in its general-dimension form.
    fn general(&self) -> (r: MatrixN<T, 2>)
        ensures
            r.rows() == self.rows(),
    {
        MatrixN::build(self.inner)
    }

    /// The matrix with `zero` in every entry.
    pub fn zeros() -> (r: Self)
        ensures
            r.rows() == msplat_seq(2, 2, T::zero_spec()),
    {
        Self::build(MatrixN::<T, 2>::zeros().inner)
    }

    /// The matrix with `one` on the diagonal and `zero` elsewhere.
    pub fn identity() -> (r: Self)
        ensures
            r.rows() == identity_seq::<T>(2),
    {
        Self::build(MatrixN::<T, 2>::identity().inner)
    }

    /// The matrix with the same value in every entry.
    pub fn splat(value: T) -> (r: Self)
        ensures
            r.rows() == msplat_seq(2, 2, value),
    {
        Self::build(MatrixN::<T, 2>::splat(value).inner)
    }

    /// Entrywise addition.
    pub fn add(self, other: Self) -> (r: Self)
        ensures
            r.rows() == madd_seq(self.rows(), other.rows()),
    {
        let (a, b) = (self.inner, other.inner);
        let r = Self::build([
            [a[0][0].add(b[0][0]), a[0][1].add(b[0][1])],
            [a[1][0].add(b[1][0]), a[1][1].add(b[1][1])],
        ]);
        proof {
            assert(r.rows() =~~= madd_seq(self.rows(), other.rows()));
        }
        r
    }

    /// Entrywise subtraction.
    pub fn sub(self, other: Self) -> (r: Self)
        ensures
            r.rows() == msub_seq(self.rows(), other.rows()),
    {
        let (a, b) = (self.inner, other.inner);
        let r = Self::build([
            [a[0][0].sub(b[0][0]), a[0][1].sub(b[0][1])],
            [a[1][0].sub(b[1][0]), a[1][1].sub(b[1][1])],
        ]);
        proof {
            assert(r.rows() =~~= msub_seq(self.rows(), other.rows()));
        }
        r
    }

    /// Every entry multiplied by one scalar.
    pub fn mul_scalar(self, scalar: T) -> (r: Self)
        ensures
            r.rows() == mscale_seq(self.rows(), scalar),
    {
        Self::build(self.general().mul_scalar(scalar).inner)
    }

    /// The product with a vector of matching dimension.
    pub fn mul_vector(self, vec: Vector2<T>) -> (r: Vector2<T>)
        ensures
            r.coords() == matvec_seq(self.rows(), vec.coords(), 2, 2),
    {
        let v = VectorN::build(vec.array());
        let out = self.general().mul_vector(v);
        let r = Vector2::build(out.inner[0], out.inner[1]);
        proof {
            assert(r.coords() =~= matvec_seq(self.rows(), vec.coords(), 2, 2));
        }
        r
    }

    /// The product with another square matrix of the same dimension.
    pub fn mul_matrix(self, other: Self) -> (r: Self)
        ensures
            r.rows() == matmul_seq(self.rows(), other.rows(), 2, 2, 2),
    {
        Self::build(self.general().mul_matrix(other.general()).inner)
    }
}

impl<T: Numeric> BasicMatrixOps<T> for Matrix2<T> {
    open spec fn rows(&self) -> Seq<Seq<T>> {
        rows_of_array(self.inner)
    }

    fn determinant(&self) -> (r: T) {
        self.general().determinant()
    }

    fn transpose(&self) -> (r: Self) {
        Self::build(self.general().transpose().inner)
    }

    fn trace(&self) -> (r: T) {
        self.general().trace()
    }

    fn cofactor(&self, row: usize, col: usize) -> (r: T) {
        self.general().cofactor(row, col)
    }

    fn cofactor_matrix(&self) -> (r: Self) {
        Self::build(self.general().cofactor_matrix().inner)
    }
}

impl<T: FloatNumber> FloatMatrixOps<T> for Matrix2<T> {
    fn inverse(&self) -> (r: Option<Self>) {
        match self.general().inverse() {
            Some(inv) => Some(Self::build(inv.inner)),
            None => None,
        }
    }
}

// ------------------------------------------------------------------
// Matrix of dimension 3
// ------------------------------------------------------------------

#[derive(Debug, Default, Clone, Copy, PartialEq, Eq, PartialOrd, Ord)]
pub struct Matrix3<T> {
    pub inner: [[T; 3]; 3],
}

impl<T> Matrix3<T> {
    pub fn build(inner: [[T; 3]; 3]) -> (r: Self)
        ensures
            r == (Matrix3 { inner }),
    {
        Self { inner }
    }
}

impl<T: Numeric> Matrix3<T> {
    /// The same matrix in its general-dimension form.
    fn general(&self) -> (r: MatrixN<T, 3>)
        ensures
            r.rows() == self.rows(),
    {
        MatrixN::build(self.inner)
    }

    /// The matrix with `zero` in every entry.
    pub fn zeros() -> (r: Self)
        ensures
            r.rows() == msplat_seq(3, 3, T::zero_spec()),
    {
        Self::build(MatrixN::<T, 3>::zeros().inner)
    }

    /// The matrix with `one` on the diagonal and `zero` elsewhere.
    pub fn identity() -> (r: Self)
        ensures
            r.rows() == identity_seq::<T>(3),
    {
        Self::build(MatrixN::<T, 3>::identity().inner)
    }

    /// The matrix with the same value in every entry.
    pub fn splat(value: T) -> (r: Self)
        ensures
            r.rows() == msplat_seq(3, 3, value),
    {
        Self::build(MatrixN::<T, 3>::splat(value).inner)
    }

    /// Entrywise addition.
    pub fn add(self, other: Self) -> (r: Self)
        ensures
            r.rows() == madd_seq(self.rows(), other.rows()),
    {
        let (a, b) = (self.inner, other.inner);
        let r = Self::build([
            [a[0][0].add(b[0][0]), a[0][1].add(b[0][1]), a[0][2].add(b[0][2])],
            [a[1][0].add(b[1][0]), a[1][1].add(b[1][1]), a[1][2].add(b[1][2])],
            [a[2][0].add(b[2][0]), a[2][1].add(b[2][1]), a[2][2].add(b[2][2])],
        ]);
        proof {
            assert(r.rows() =~~= madd_seq(self.rows(), other.rows()));
        }
        r
    }

    /// Entrywise subtraction.
    pub fn sub(self, other: Self) -> (r: Self)
        ensures
            r.rows() == msub_seq(self.rows(), other.rows()),
    {
        let (a, b) = (self.inner, other.inner);
        let r = Self::build([
            [a[0][0].sub(b[0][0]), a[0][1].sub(b[0][1]), a[0][2].sub(b[0][2])],
            [a[1][0].sub(b[1][0]), a[1][1].sub(b[1][1]), a[1][2].sub(b[1][2])],
            [a[2][0].sub(b[2][0]), a[2][1].sub(b[2][1]), a[2][2].sub(b[2][2])],
        ]);
        proof {
            assert(r.rows() =~~= msub_seq(self.rows(), other.rows()));
        }
        r
    }

    /// Every entry multiplied by one scalar.
    pub fn mul_scalar(self, scalar: T) -> (r: Self)
        ensures
            r.rows() == mscale_seq(self.rows(), scalar),
    {
        Self::build(self.general().mul_scalar(scalar).inner)
    }

    /// The product with a vector of matching dimension.
    pub fn mul_vector(self, vec: Vector3<T>) -> (r: Vector3<T>)
        ensures
            r.coords() == matvec_seq(self.rows(), vec.coords(), 3, 3),
    {
        let v = VectorN::build(vec.array());
        let out = self.general().mul_vector(v);
        let r = Vector3::build(out.inner[0], out.inner[1], out.inner[2]);
        proof {
            assert(r.coords() =~= matvec_seq(self.rows(), vec.coords(), 3, 3));
        }
        r
    }

    /// The product with another square matrix of the same dimension.
    pub fn mul_matrix(self, other: Self) -> (r: Self)
        ensures
            r.rows() == matmul_seq(self.rows(), other.rows(), 3, 3, 3),
    {
        Self::build(self.general().mul_matrix(other.general()).inner)
    }
}

impl<T: Numeric> BasicMatrixOps<T> for Matrix3<T> {
    open spec fn rows(&self) -> Seq<Seq<T>> {
        rows_of_array(self.inner)
    }

    fn determinant(&self) -> (r: T) {
        self.general().determinant()
    }

    fn transpose(&self) -> (r: Self) {
        Self::build(self.general().transpose().inner)
    }

    fn trace(&self) -> (r: T) {
        self.general().trace()
    }

    fn cofactor(&self, row: usize, col: usize) -> (r: T) {
        self.general().cofactor(row, col)
    }

    fn cofactor_matrix(&self) -> (r: Self) {
        Self::build(self.general().cofactor_matrix().inner)
    }
}

impl<T: FloatNumber> FloatMatrixOps<T> for Matrix3<T> {
    fn inverse(&self) -> (r: Option<Self>) {
        match self.general().inverse() {
            Some(inv) => Some(Self::build(inv.inner)),
            None => None,
        }
    }
}

// ------------------------------------------------------------------
// Matrix of dimension 4
// ------------------------------------------------------------------

#[derive(Debug, Default, Clone, Copy, PartialEq, Eq, PartialOrd, Ord)]
pub struct Matrix4<T> {
    pub inner: [[T; 4]; 4],
}

impl<T> Matrix4<T> {
    pub fn build(inner: [[T; 4]; 4]) -> (r: Self)
        ensures
            r == (Matrix4 { inner }),
    {
        Self { inner }
    }
}

impl<T: Numeric> Matrix4<T> {
    /// The same matrix in its general-dimension form.
    fn general(&self) -> (r: MatrixN<T, 4>)
        ensures
            r.rows() == self.rows(),
    {
        MatrixN::build(self.inner)
    }

    /// The matrix with `zero` in every entry.
    pub fn zeros() -> (r: Self)
        ensures
            r.rows() == msplat_seq(4, 4, T::zero_spec()),
    {
        Self::build(MatrixN::<T, 4>::zeros().inner)
    }

    /// The matrix with `one` on the diagonal and `zero` elsewhere.
    pub fn identity() -> (r: Self)
        ensures
            r.rows() == identity_seq::<T>(4),
    {
        Self::build(MatrixN::<T, 4>::identity().inner)
    }

    /// The matrix with the same value in every entry.
    pub fn splat(value: T) -> (r: Self)
        ensures
            r.rows() == msplat_seq(4, 4, value),
    {
        Self::build(MatrixN::<T, 4>::splat(value).inner)
    }

    /// Entrywise addition.
    pub fn add(self, other: Self) -> (r: Self)
        ensures
            r.rows() == madd_seq(self.rows(), other.rows()),
    {
        let (a, b) = (self.inner, other.inner);
        let r = Self::build([
            [a[0][0].add(b[0][0]), a[0][1].add(b[0][1]), a[0][2].add(b[0][2]), a[0][3].add(b[0][3])],
            [a[1][0].add(b[1][0]), a[1][1].add(b[1][1]), a[1][2].add(b[1][2]), a[1][3].add(b[1][3])],
            [a[2][0].add(b[2][0]), a[2][1].add(b[2][1]), a[2][2].add(b[2][2]), a[2][3].add(b[2][3])],
            [a[3][0].add(b[3][0]), a[3][1].add(b[3][1]), a[3][2].add(b[3][2]), a[3][3].add(b[3][3])],
        ]);
        proof {
            assert(r.rows() =~~= madd_seq(self.rows(), other.rows()));
        }
        r
    }

    /// Entrywise subtraction.
    pub fn sub(self, other: Self) -> (r: Self)
        ensures
            r.rows() == msub_seq(self.rows(), other.rows()),
    {
        let (a, b) = (self.inner, other.inner);
        let r = Self::build([
            [a[0][0].sub(b[0][0]), a[0][1].sub(b[0][1]), a[0][2].sub(b[0][2]), a[0][3].sub(b[0][3])],
            [a[1][0].sub(b[1][0]), a[1][1].sub(b[1][1]), a[1][2].sub(b[1][2]), a[1][3].sub(b[1][3])],
            [a[2][0].sub(b[2][0]), a[2][1].sub(b[2][1]), a[2][2].sub(b[2][2]), a[2][3].sub(b[2][3])],
            [a[3][0].sub(b[3][0]), a[3][1].sub(b[3][1]), a[3][2].sub(b[3][2]), a[3][3].sub(b[3][3])],
        ]);
        proof {
            assert(r.rows() =~~= msub_seq(self.rows(), other.rows()));
        }
        r
    }

    /// Every entry multiplied by one scalar.
    pub fn mul_scalar(self, scalar: T) -> (r: Self)
        ensures
            r.rows() == mscale_seq(self.rows(), scalar),
    {
        Self::build(self.general().mul_scalar(scalar).inner)
    }

    /// The product with a vector of matching dimension.
    pub fn mul_vector(self, vec: Vector4<T>) -> (r: Vector4<T>)
        ensures
            r.coords() == matvec_seq(self.rows(), vec.coords(), 4, 4),
    {
        let v = VectorN::build(vec.array());
        let out = self.general().mul_vector(v);
        let r = Vector4::build(out.inner[0], out.inner[1], out.inner[2], out.inner[3]);
        proof {
            assert(r.coords() =~= matvec_seq(self.rows(), vec.coords(), 4, 4));
        }
        r
    }

    /// The product with another square matrix of the same dimension.
    pub fn mul_matrix(self, other: Self) -> (r: Self)
        ensures
            r.rows() == matmul_seq(self.rows(), other.rows(), 4, 4, 4),
    {
        Self::build(self.general().mul_matrix(other.general()).inner)
    }
}

impl<T: Numeric> BasicMatrixOps<T> for Matrix4<T> {
    open spec fn rows(&self) -> Seq<Seq<T>> {
        rows_of_array(self.inner)
    }

    fn determinant(&self) -> (r: T) {
        self.general().determinant()
    }

    fn transpose(&self) -> (r: Self) {
        Self::build(self.general().transpose().inner)
    }

    fn trace(&self) -> (r: T) {
        self.general().trace()
    }

    fn cofactor(&self, row: usize, col: usize) -> (r: T) {
        self.general().cofactor(row, col)
    }

    fn cofactor_matrix(&self) -> (r: Self) {
        Self::build(self.general().cofactor_matrix().inner)
    }
}

impl<T: FloatNumber> FloatMatrixOps<T> for Matrix4<T> {
    fn inverse(&self) -> (r: Option<Self>) {
        match self.general().inverse() {
            Some(inv) => Some(Self::build(inv.inner)),
            None => None,
        }
    }
}

// ------------------------------------------------------------------
// Matrix of dimension 5
// ------------------------------------------------------------------

#[derive(Debug, Default, Clone, Copy, PartialEq, Eq, PartialOrd, Ord)]
pub struct Matrix5<T> {
    pub inner: [[T; 5]; 5],
}

impl<T> Matrix5<T> {
    pub fn build(inner: [[T; 5]; 5]) -> (r: Self)
        ensures
            r == (Matrix5 { inner }),
    {
        Self { inner }
    }
}

impl<T: Numeric> Matrix5<T> {
    /// The same matrix in its general-dimension form.
    fn general(&self) -> (r: MatrixN<T, 5>)
        ensures
            r.rows() == self.rows(),
    {
        MatrixN::build(self.inner)
    }

    /// The matrix with `zero` in every entry.
    pub fn zeros() -> (r: Self)
        ensures
            r.rows() == msplat_seq(5, 5, T::zero_spec()),
    {
        Self::build(MatrixN::<T, 5>::zeros().inner)
    }

    /// The matrix with `one` on the diagonal and `zero` elsewhere.
    pub fn identity() -> (r: Self)
        ensures
            r.rows() == identity_seq::<T>(5),
    {
        Self::build(MatrixN::<T, 5>::identity().inner)
    }

    /// The matrix with the same value in every entry.
    pub fn splat(value: T) -> (r: Self)
        ensures
            r.rows() == msplat_seq(5, 5, value),
    {
        Self::build(MatrixN::<T, 5>::splat(value).inner)
    }

    /// Entrywise addition.
    pub fn add(self, other: Self) -> (r: Self)
        ensures
            r.rows() == madd_seq(self.rows(), other.rows()),
    {
        let (a, b) = (self.inner, other.inner);
        let r = Self::build([
            [a[0][0].add(b[0][0]), a[0][1].add(b[0][1]), a[0][2].add(b[0][2]), a[0][3].add(b[0][3]), a[0][4].add(b[0][4])],
            [a[1][0].add(b[1][0]), a[1][1].add(b[1][1]), a[1][2].add(b[1][2]), a[1][3].add(b[1][3]), a[1][4].add(b[1][4])],
            [a[2][0].add(b[2][0]), a[2][1].add(b[2][1]), a[2][2].add(b[2][2]), a[2][3].add(b[2][3]), a[2][4].add(b[2][4])],
            [a[3][0].add(b[3][0]), a[3][1].add(b[3][1]), a[3][2].add(b[3][2]), a[3][3].add(b[3][3]), a[3][4].add(b[3][4])],
            [a[4][0].add(b[4][0]), a[4][1].add(b[4][1]), a[4][2].add(b[4][2]), a[4][3].add(b[4][3]), a[4][4].add(b[4][4])],
        ]);
        proof {
            assert(r.rows() =~~= madd_seq(self.rows(), other.rows()));
        }
        r
    }

    /// Entrywise subtraction.
    pub fn sub(self, other: Self) -> (r: Self)
        ensures
            r.rows() == msub_seq(self.rows(), other.rows()),
    {
        let (a, b) = (self.inner, other.inner);
        let r = Self::build([
            [a[0][0].sub(b[0][0]), a[0][1].sub(b[0][1]), a[0][2].sub(b[0][2]), a[0][3].sub(b[0][3]), a[0][4].sub(b[0][4])],
            [a[1][0].sub(b[1][0]), a[1][1].sub(b[1][1]), a[1][2].sub(b[1][2]), a[1][3].sub(b[1][3]), a[1][4].sub(b[1][4])],
            [a[2][0].sub(b[2][0]), a[2][1].sub(b[2][1]), a[2][2].sub(b[2][2]), a[2][3].sub(b[2][3]), a[2][4].sub(b[2][4])],
            [a[3][0].sub(b[3][0]), a[3][1].sub(b[3][1]), a[3][2].sub(b[3][2]), a[3][3].sub(b[3][3]), a[3][4].sub(b[3][4])],
            [a[4][0].sub(b[4][0]), a[4][1].sub(b[4][1]), a[4][2].sub(b[4][2]), a[4][3].sub(b[4][3]), a[4][4].sub(b[4][4])],
        ]);
        proof {
            assert(r.rows() =~~= msub_seq(self.rows(), other.rows()));
        }
        r
    }

    /// Every entry multiplied by one scalar.
    pub fn mul_scalar(self, scalar: T) -> (r: Self)
        ensures
            r.rows() == mscale_seq(self.rows(), scalar),
    {
        Self::build(self.general().mul_scalar(scalar).inner)
    }

    /// The product with a vector of matching dimension.
    pub fn mul_vector(self, vec: Vector5<T>) -> (r: Vector5<T>)
        ensures
            r.coords() == matvec_seq(self.rows(), vec.coords(), 5, 5),
    {
        let v = VectorN::build(vec.array());
        let out = self.general().mul_vector(v);
        let r = Vector5::build(out.inner[0], out.inner[1], out.inner[2], out.inner[3], out.inner[4]);
        proof {
            assert(r.coords() =~= matvec_seq(self.rows(), vec.coords(), 5, 5));
        }
        r
    }

    /// The product with another square matrix of the same dimension.
    pub fn mul_matrix(self, other: Self) -> (r: Self)
        ensures
            r.rows() == matmul_seq(self.rows(), other.rows(), 5, 5, 5),
    {
        Self::build(self.general().mul_matrix(other.general()).inner)
    }
}

impl<T: Numeric> BasicMatrixOps<T> for Matrix5<T> {
    open spec fn rows(&self) -> Seq<Seq<T>> {
        rows_of_array(self.inner)
    }

    fn determinant(&self) -> (r: T) {
        self.general().determinant()
    }

    fn transpose(&self) -> (r: Self) {
        Self::build(self.general().transpose().inner)
    }

    fn trace(&self) -> (r: T) {
        self.general().trace()
    }

    fn cofactor(&self, row: usize, col: usize) -> (r: T) {
        self.general().cofactor(row, col)
    }

    fn cofactor_matrix(&self) -> (r: Self) {
        Self::build(self.general().cofactor_matrix().inner)
    }
}

impl<T: FloatNumber> FloatMatrixOps<T> for Matrix5<T> {
    fn inverse(&self) -> (r: Option<Self>) {
        match self.general().inverse() {
            Some(inv) => Some(Self::build(inv.inner)),
            None => None,
        }
    }
}

// ------------------------------------------------------------------
// Rectangular matrix
// ------------------------------------------------------------------

/// A matrix of `M` rows and `N` columns, for the products that leave the
/// square specialization.  Shapes are compile-time constants, so a
/// mismatched product is a compile error, not a runtime one.
#[derive(Debug, Clone, Copy, PartialEq, Eq, PartialOrd, Ord)]
pub struct MatrixMxN<T, const M: usize, const N: usize> {
    pub inner: [[T; N]; M],
}

impl<T, const M: usize, const N: usize> MatrixMxN<T, M, N> {
    /// The rows of the matrix, in order.
    pub open spec fn rows(&self) -> Seq<Seq<T>> {
        rows_of_array(self.inner)
    }

    pub fn build(inner: [[T; N]; M]) -> (r: Self)
        ensures
            r == (MatrixMxN { inner }),
    {
        Self { inner }
    }
}

impl<T: Numeric, const M: usize, const N: usize> MatrixMxN<T, M, N> {
    /// The matrix with `zero` in every entry.
    pub fn zeros() -> (r: Self)
        ensures
            r.rows() == msplat_seq(M as nat, N as nat, T::zero_spec()),
    {
        let r = Self::build(
            vstd::array::array_fill_for_copy_types(
                vstd::array::array_fill_for_copy_types(T::zero()),
            ),
        );
        proof {
            assert(r.rows() =~~= msplat_seq(M as nat, N as nat, T::zero_spec()));
        }
        r
    }

    /// The matrix with the same value in every entry.
    pub fn splat(value: T) -> (r: Self)
        ensures
            r.rows() == msplat_seq(M as nat, N as nat, value),
    {
        let r = Self::build(
            vstd::array::array_fill_for_copy_types(vstd::array::array_fill_for_copy_types(value)),
        );
        proof {
            assert(r.rows() =~~= msplat_seq(M as nat, N as nat, value));
        }
        r
    }

    /// Every entry multiplied by one scalar.
    pub fn mul_scalar(self, scalar: T) -> (r: Self)
        ensures
            r.rows() == mscale_seq(self.rows(), scalar),
    {
        let mut inner = self.inner;
        for i in 0..M
            invariant
                inner@.len() == M,
                forall|ii: int, jj: int|
                    0 <= ii < i && 0 <= jj < N ==> (#[trigger] inner@[ii]@[jj])
                        == self.inner@[ii]@[jj].mul_spec(scalar),
                forall|ii: int| i <= ii < M ==> (#[trigger] inner@[ii]) == self.inner@[ii],
        {
            let mut row = inner[i];
            for j in 0..N
                invariant
                    i < M,
                    row@.len() == N,
                    forall|jj: int|
                        0 <= jj < j ==> (#[trigger] row@[jj]) == self.inner@[i as int]@[jj].mul_spec(
                            scalar,
                        ),
                    forall|jj: int| j <= jj < N ==> (#[trigger] row@[jj]) == self.inner@[i as int]@[jj],
            {
                row[j] = self.inner[i][j].mul(scalar);
            }
            inner[i] = row;
        }
        let r = Self::build(inner);
        proof {
            assert(r.rows() =~~= mscale_seq(self.rows(), scalar));
        }
        r
    }

    /// The product with a vector of as many components as the matrix has
    /// columns, giving one of as many components as it has rows.
    pub fn mul_vector(self, vec: VectorN<T, N>) -> (r: VectorN<T, M>)
        ensures
            r.inner@ == matvec_seq(self.rows(), vec.inner@, M as nat, N as nat),
    {
        let mut out: [T; M] = vstd::array::array_fill_for_copy_types(T::zero());
        for i in 0..M
            invariant
                out@.len() == M,
                forall|ii: int|
                    0 <= ii < i ==> (#[trigger] out@[ii]) == dot_prefix(
                        self.rows()[ii],
                        vec.inner@,
                        N as int,
                    ),
        {
            let mut acc = T::zero();
            for k in 0..N
                invariant
                    i < M,
                    acc == dot_prefix(self.rows()[i as int], vec.inner@, k as int),
            {
                let term = self.inner[i][k].mul(vec.inner[k]);
                acc = if k == 0 {
                    term
                } else {
                    acc.add(term)
                };
            }
            out[i] = acc;
        }
        let r = VectorN::build(out);
        proof {
            assert(r.inner@ =~= matvec_seq(self.rows(), vec.inner@, M as nat, N as nat));
        }
        r
    }

    /// The rectangular matrix product: `M` by `N` times `N` by `H` gives
    /// `M` by `H`.
    pub fn mul_matrix<const H: usize>(self, other: MatrixMxN<T, N, H>) -> (r: MatrixMxN<T, M, H>)
        ensures
            r.rows() == matmul_seq(self.rows(), other.rows(), M as nat, N as nat, H as nat),
    {
        let mut inner: [[T; H]; M] = vstd::array::array_fill_for_copy_types(
            vstd::array::array_fill_for_copy_types(T::zero()),
        );
        for i in 0..M
            invariant
                inner@.len() == M,
                forall|ii: int| 0 <= ii < M ==> (#[trigger] inner@[ii])@.len() == H,
                forall|ii: int, jj: int|
                    0 <= ii < i && 0 <= jj < H ==> (#[trigger] inner@[ii]@[jj]) == mm_entry(
                        self.rows(),
                        other.rows(),
                        ii,
                        jj,
                        N as int,
                    ),
        {
            let mut row = inner[i];
            for j in 0..H
                invariant
                    i < M,
                    row@.len() == H,
                    forall|jj: int|
                        0 <= jj < j ==> (#[trigger] row@[jj]) == mm_entry(
                            self.rows(),
                            other.rows(),
                            i as int,
                            jj,
                            N as int,
                        ),
            {
                let mut acc = T::zero();
                for k in 0..N
                    invariant
                        i < M,
                        j < H,
                        acc == mm_entry(self.rows(), other.rows(), i as int, j as int, k as int),
                {
                    let term = self.inner[i][k].mul(other.inner[k][j]);
                    acc = if k == 0 {
                        term
                    } else {
                        acc.add(term)
                    };
                }
                row[j] = acc;
            }
            inner[i] = row;
        }
        let r = MatrixMxN::build(inner);
        proof {
            assert(r.rows() =~~= matmul_seq(self.rows(), other.rows(), M as nat, N as nat, H as nat));
        }
        r
    }
}

} // verus!
