//! Mathematical model of square matrices over the integers: a matrix of order
//! `n` is a sequence of `n` rows of `n` entries each.
use vstd::prelude::*;

verus! {

/// Every row has as many entries as there are rows.
pub open spec fn is_square(a: Seq<Seq<int>>) -> bool {
    forall|r: int| 0 <= r < a.len() ==> #[trigger] a[r].len() == a.len()
}

/// A square matrix of one of the supported orders (2, 3 or 4).
pub open spec fn is_supported(a: Seq<Seq<int>>) -> bool {
    is_square(a) && 2 <= a.len() <= 4
}

/// The matrix of order `n` stored row-major in `e`: entry `(r, c)` sits at `c + r * n`.
pub open spec fn rows_of(n: nat, e: Seq<i64>) -> Seq<Seq<int>> {
    Seq::new(n, |r: int| Seq::new(n, |c: int| e[c + r * n] as int))
}

/// The entries of `v` as integers.
pub open spec fn ints(v: Seq<i64>) -> Seq<int> {
    Seq::new(v.len(), |i: int| v[i] as int)
}

/// Sum of `x[i] * y[i]` over `i < k`.
pub open spec fn inner(x: Seq<int>, y: Seq<int>, k: int) -> int
    decreases k,
{
    if k <= 0 {
        0
    } else {
        inner(x, y, k - 1) + x[k - 1] * y[k - 1]
    }
}

/// Column `c` of `a`, top to bottom.
pub open spec fn column(a: Seq<Seq<int>>, c: int) -> Seq<int> {
    Seq::new(a.len(), |i: int| a[i][c])
}

pub open spec fn product(a: Seq<Seq<int>>, b: Seq<Seq<int>>) -> Seq<Seq<int>> {
    Seq::new(a.len(), |r: int| Seq::new(a.len(), |c: int| inner(a[r], column(b, c), a.len() as int)))
}

/// The matrix applied to a column vector.
pub open spec fn apply(a: Seq<Seq<int>>, v: Seq<int>) -> Seq<int> {
    Seq::new(a.len(), |r: int| inner(a[r], v, a.len() as int))
}

pub open spec fn transposed(a: Seq<Seq<int>>) -> Seq<Seq<int>> {
    Seq::new(a.len(), |r: int| Seq::new(a.len(), |c: int| a[c][r]))
}

pub open spec fn identity_of(n: nat) -> Seq<Seq<int>> {
    Seq::new(n, |r: int| Seq::new(n, |c: int| if r == c { 1int } else { 0int }))
}

/// `k * identity_of(n)`.
pub open spec fn scalar_identity(n: nat, k: int) -> Seq<Seq<int>> {
    Seq::new(n, |r: int| Seq::new(n, |c: int| if r == c { k } else { 0int }))
}

/// Index `i` of the lower-order matrix, mapped back past the deleted index `k`.
pub open spec fn skip(i: int, k: int) -> int {
    if i < k {
        i
    } else {
        i + 1
    }
}

/// `a` with row `row` and column `col` deleted; the rest keeps its order.
pub open spec fn submatrix_of(a: Seq<Seq<int>>, row: int, col: int) -> Seq<Seq<int>> {
    Seq::new(
        (a.len() - 1) as nat,
        |i: int| Seq::new((a.len() - 1) as nat, |j: int| a[skip(i, row)][skip(j, col)]),
    )
}

/// `+1` on even `k`, `-1` on odd `k`.
pub open spec fn sign(k: int) -> int {
    if k % 2 == 0 {
        1
    } else {
        -1
    }
}

/// The determinant: the closed form at order 2, otherwise the cofactor expansion
/// along the first row. At order 1 it is the one entry, which makes the cofactors
/// of an order-2 matrix its signed opposite entries.
pub open spec fn det(a: Seq<Seq<int>>) -> int
    decreases a.len(), 1int, 0int,
{
    if a.len() <= 1 {
        a[0][0]
    } else if a.len() == 2 {
        a[0][0] * a[1][1] - a[0][1] * a[1][0]
    } else {
        first_row_expansion(a, a.len() as int)
    }
}

/// Sum over the columns `c < k` of `a[0][c]` times its cofactor.
pub open spec fn first_row_expansion(a: Seq<Seq<int>>, k: int) -> int
    decreases a.len(), 0int, k,
{
    if k <= 0 || a.len() <= 2 {
        0
    } else {
        first_row_expansion(a, k - 1) + a[0][k - 1] * (sign(k - 1) * det(
            submatrix_of(a, 0, k - 1),
        ))
    }
}

pub open spec fn minor_of(a: Seq<Seq<int>>, row: int, col: int) -> int {
    det(submatrix_of(a, row, col))
}

pub open spec fn cofactor_of(a: Seq<Seq<int>>, row: int, col: int) -> int {
    sign(row + col) * minor_of(a, row, col)
}

/// The transposed matrix of cofactors: `a` times it is `det(a)` times the identity.
pub open spec fn adjugate_of(a: Seq<Seq<int>>) -> Seq<Seq<int>> {
    Seq::new(a.len(), |r: int| Seq::new(a.len(), |c: int| cofactor_of(a, c, r)))
}

/// Every entry lies in `[-bound, bound]`.
pub open spec fn entries_within(a: Seq<Seq<int>>, bound: int) -> bool {
    forall|r: int, c: int|
        0 <= r < a.len() && 0 <= c < a.len() ==> -bound <= #[trigger] a[r][c] <= bound
}

} // verus!
