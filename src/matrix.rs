//! Square integer matrices of order 2, 3 or 4, stored row-major in a flat vector.
//!
//! Entries are integers, so every operation is exact: two matrices are equal when
//! their entries are, and an inverse is kept as the adjugate over the determinant,
//! a matrix of exact fractions with one common denominator.
use vstd::prelude::*;
use vstd::arithmetic::div_mod::lemma_fundamental_div_mod_converse;
use crate::algebra::{
    adjugate_of, apply, cofactor_of, column, det, entries_within, first_row_expansion, identity_of,
    inner, ints, is_square, is_supported, minor_of, product, rows_of, sign, skip, submatrix_of, transposed,
};

verus! {

/// Largest entry magnitude that `multiply` and `multiply_vector` accept: a sum of
/// four products of such entries fits in an `i64`.
pub const PRODUCT_LIMIT: i64 = 1073741824;

/// Largest entry magnitude that `determinant`, `minor`, `cofactor`, `is_invertible`
/// and `inverse` accept: every expansion of an order-4 determinant over such entries
/// fits in an `i64`.
pub const DETERMINANT_LIMIT: i64 = 16384;

/// Why an operation refused its arguments.
#[derive(Debug, Clone, Copy, PartialEq, Eq, Structural)]
pub enum MatrixError {
    /// The order is not 2, 3 or 4, or the entry count is not the order squared.
    Shape,
    /// A row or column index is not below the order.
    OutOfBounds,
    /// The determinant is zero, so there is no inverse.
    Singular,
    /// An order-2 matrix has no submatrix.
    Degenerate,
}

/// A square matrix of order 2, 3 or 4; entry `(r, c)` is `entries[c + r * order]`.
#[derive(Debug)]
pub struct Matrix {
    order: usize,
    entries: Vec<i64>,
}

/// Position of entry `(r, c)` in the row-major storage of a matrix of order `n`.
proof fn lemma_cell(n: int, r: int, c: int)
    requires
        1 <= n <= 4,
        0 <= r < n,
        0 <= c < n,
    ensures
        0 <= c + r * n < n * n,
        (c + r * n) / n == r,
        (c + r * n) % n == c,
{
    assert(0 <= r * n <= (n - 1) * n) by (nonlinear_arith)
        requires
            0 <= r < n,
            1 <= n,
    ;
    assert((n - 1) * n == n * n - n) by (nonlinear_arith);
    lemma_fundamental_div_mod_converse(c + r * n, n, r, c);
}

/// Row and column of position `i` in the row-major storage of a matrix of order `n`.
proof fn lemma_position(n: int, i: int)
    requires
        1 <= n <= 4,
        0 <= i < n * n,
    ensures
        0 <= i / n < n,
        0 <= i % n < n,
        i == i % n + (i / n) * n,
{
    assert(0 <= i / n < n) by (nonlinear_arith)
        requires
            1 <= n,
            0 <= i < n * n,
    ;
    vstd::arithmetic::div_mod::lemma_fundamental_div_mod(i, n);
    vstd::arithmetic::div_mod::lemma_mod_bound(i, n);
    assert(n * (i / n) == (i / n) * n) by (nonlinear_arith);
}

/// The number of entries of a matrix of order `n`.
fn entry_count(n: usize) -> (r: usize)
    requires
        n <= 4,
    ensures
        r == n * n,
        r <= 16,
{
    assert(n * n <= 16) by (nonlinear_arith)
        requires
            n <= 4,
    ;
    n * n
}

impl Matrix {
    #[verifier::type_invariant]
    spec fn well_formed(&self) -> bool {
        2 <= self.order <= 4 && self.entries.len() == self.order * self.order
    }

    /// A matrix of the given order from its entries in row-major order.
    pub fn new(order: usize, entries: Vec<i64>) -> (r: Result<Matrix, MatrixError>)
        ensures
            (2 <= order <= 4 && entries.len() == order * order) <==> r is Ok,
            r matches Ok(m) ==> m@ == rows_of(order as nat, entries@),
            r matches Err(e) ==> e == MatrixError::Shape,
    {
        if order < 2 || order > 4 || entries.len() != entry_count(order) {
            return Err(MatrixError::Shape);
        }
        Ok(Matrix { order, entries })
    }

    /// The order: the number of rows, and of columns.
    pub fn order(&self) -> (r: usize)
        ensures
            r == self@.len(),
            2 <= r <= 4,
            is_supported(self@),
    {
        proof {
            use_type_invariant(self);
        }
        self.order
    }

    /// The entry in row `row` and column `col`.
    pub fn get(&self, row: usize, col: usize) -> (r: Result<i64, MatrixError>)
        ensures
            (row < self@.len() && col < self@.len()) <==> r is Ok,
            r matches Ok(v) ==> v as int == self@[row as int][col as int],
            r matches Err(e) ==> e == MatrixError::OutOfBounds,
    {
        proof {
            use_type_invariant(self);
        }
        if row >= self.order || col >= self.order {
            return Err(MatrixError::OutOfBounds);
        }
        proof {
            lemma_cell(self.order as int, row as int, col as int);
        }
        Ok(self.entries[col + row * self.order])
    }
}

impl Clone for Matrix {
    fn clone(&self) -> (r: Self)
        ensures
            r@ == self@,
    {
        proof {
            use_type_invariant(self);
        }
        Matrix { order: self.order, entries: self.entries.clone() }
    }
}

impl View for Matrix {
    type V = Seq<Seq<int>>;

    closed spec fn view(&self) -> Seq<Seq<int>> {
        rows_of(self.order as nat, self.entries@)
    }
}

/// The identity matrix of the given order.
pub fn identity(order: usize) -> (r: Matrix)
    requires
        2 <= order <= 4,
    ensures
        r@ == identity_of(order as nat),
{
    let n = order;
    let mut e: Vec<i64> = Vec::new();
    let size = entry_count(n);
    let mut i: usize = 0;
    while i < size
        invariant
            2 <= n <= 4,
            size == n * n,
            i <= size,
            e.len() == i,
            forall|j: int| 0 <= j < i ==> #[trigger] e@[j] == (if j / n as int == j % n as int { 1i64 } else { 0i64 }),
        decreases size - i,
    {
        e.push(if i / n == i % n { 1 } else { 0 });
        i += 1;
    }
    proof {
        assert forall|r: int, c: int| 0 <= r < n && 0 <= c < n implies
            #[trigger] rows_of(n as nat, e@)[r][c] == identity_of(n as nat)[r][c] by {
            lemma_cell(n as int, r, c);
        }
        assert(rows_of(n as nat, e@) =~~= identity_of(n as nat));
    }
    Matrix { order: n, entries: e }
}

/// The matrix with rows and columns exchanged.
pub fn transpose(m: &Matrix) -> (r: Matrix)
    ensures
        r@ == transposed(m@),
{
    proof {
        use_type_invariant(m);
    }
    let n = m.order;
    let mut e: Vec<i64> = Vec::new();
    let size = entry_count(n);
    let mut i: usize = 0;
    while i < size
        invariant
            2 <= n <= 4,
            n == m.order,
            m.entries.len() == n * n,
            size == n * n,
            i <= size,
            e.len() == i,
            forall|j: int| 0 <= j < i ==> #[trigger] e@[j] as int == m@[j % n as int][j / n as int],
        decreases size - i,
    {
        proof {
            lemma_position(n as int, i as int);
            lemma_cell(n as int, (i % n) as int, (i / n) as int);
        }
        e.push(m.entries[i / n + (i % n) * n]);
        i += 1;
    }
    proof {
        assert forall|r: int, c: int| 0 <= r < n && 0 <= c < n implies
            #[trigger] rows_of(n as nat, e@)[r][c] == transposed(m@)[r][c] by {
            lemma_cell(n as int, r, c);
        }
        assert(rows_of(n as nat, e@) =~~= transposed(m@));
    }
    Matrix { order: n, entries: e }
}

/// `|x * y| <= bx * by` when `|x| <= bx` and `|y| <= by`.
proof fn lemma_mul_bound(x: int, y: int, bx: int, by: int)
    requires
        -bx <= x <= bx,
        -by <= y <= by,
    ensures
        -(bx * by) <= x * y <= bx * by,
{
    assert(-(bx * by) <= x * y <= bx * by) by (nonlinear_arith)
        requires
            -bx <= x <= bx,
            -by <= y <= by,
    ;
}

/// Entry `(r, c)` of a matrix of order `n`, read from its storage.
fn entry(m: &Matrix, r: usize, c: usize) -> (v: i64)
    requires
        r < m@.len(),
        c < m@.len(),
    ensures
        v as int == m@[r as int][c as int],
{
    proof {
        use_type_invariant(m);
        lemma_cell(m.order as int, r as int, c as int);
    }
    m.entries[c + r * m.order]
}

/// Row `r` of `a` times column `c` of `b`.
fn row_times_column(a: &Matrix, b: &Matrix, r: usize, c: usize) -> (v: i64)
    requires
        a@.len() == b@.len(),
        r < a@.len(),
        c < a@.len(),
        entries_within(a@, PRODUCT_LIMIT as int),
        entries_within(b@, PRODUCT_LIMIT as int),
    ensures
        v as int == inner(a@[r as int], column(b@, c as int), a@.len() as int),
{
    let n = a.order();
    let ghost lim = PRODUCT_LIMIT as int;
    let mut acc: i64 = 0;
    let mut k: usize = 0;
    while k < n
        invariant
            n == a@.len(),
            n == b@.len(),
            2 <= n <= 4,
            r < n,
            c < n,
            k <= n,
            entries_within(a@, lim),
            entries_within(b@, lim),
            lim == PRODUCT_LIMIT,
            acc as int == inner(a@[r as int], column(b@, c as int), k as int),
            -(k * (lim * lim)) <= acc <= k * (lim * lim),
        decreases n - k,
    {
        let x = entry(a, r, k);
        let y = entry(b, k, c);
        proof {
            lemma_mul_bound(x as int, y as int, lim, lim);
            assert((k + 1) * (lim * lim) == k * (lim * lim) + lim * lim) by (nonlinear_arith);
            assert(k * (lim * lim) <= 3 * (lim * lim)) by (nonlinear_arith)
                requires
                    k <= 3,
            ;
        }
        acc = acc + x * y;
        k += 1;
    }
    acc
}

/// The matrix product `a * b`.
pub fn multiply(a: &Matrix, b: &Matrix) -> (r: Matrix)
    requires
        a@.len() == b@.len(),
        entries_within(a@, PRODUCT_LIMIT as int),
        entries_within(b@, PRODUCT_LIMIT as int),
    ensures
        r@ == product(a@, b@),
{
    let n = a.order();
    let size = entry_count(n);
    let mut e: Vec<i64> = Vec::new();
    let mut i: usize = 0;
    while i < size
        invariant
            2 <= n <= 4,
            n == a@.len(),
            n == b@.len(),
            size == n * n,
            i <= size,
            e.len() == i,
            entries_within(a@, PRODUCT_LIMIT as int),
            entries_within(b@, PRODUCT_LIMIT as int),
            forall|j: int| 0 <= j < i ==> #[trigger] e@[j] as int == product(a@, b@)[j / n as int][j % n as int],
        decreases size - i,
    {
        proof {
            lemma_position(n as int, i as int);
        }
        let v = row_times_column(a, b, i / n, i % n);
        e.push(v);
        i += 1;
    }
    proof {
        assert forall|r: int, c: int| 0 <= r < n && 0 <= c < n implies
            #[trigger] rows_of(n as nat, e@)[r][c] == product(a@, b@)[r][c] by {
            lemma_cell(n as int, r, c);
        }
        assert(rows_of(n as nat, e@) =~~= product(a@, b@));
    }
    Matrix { order: n, entries: e }
}

/// The order-4 matrix `m` applied to the homogeneous coordinates `v`.
pub fn multiply_vector(m: &Matrix, v: &[i64; 4]) -> (r: [i64; 4])
    requires
        m@.len() == 4,
        entries_within(m@, PRODUCT_LIMIT as int),
        forall|i: int| 0 <= i < 4 ==> -PRODUCT_LIMIT <= #[trigger] v@[i] <= PRODUCT_LIMIT,
    ensures
        ints(r@) == apply(m@, ints(v@)),
{
    let ghost lim = PRODUCT_LIMIT as int;
    let mut out: [i64; 4] = [0, 0, 0, 0];
    let mut r: usize = 0;
    while r < 4
        invariant
            m@.len() == 4,
            entries_within(m@, lim),
            lim == PRODUCT_LIMIT,
            forall|i: int| 0 <= i < 4 ==> -lim <= #[trigger] v@[i] <= lim,
            r <= 4,
            out@.len() == 4,
            forall|j: int| 0 <= j < r ==> #[trigger] out@[j] as int == apply(m@, ints(v@))[j],
        decreases 4 - r,
    {
        let mut acc: i64 = 0;
        let mut k: usize = 0;
        while k < 4
            invariant
                m@.len() == 4,
                entries_within(m@, lim),
                lim == PRODUCT_LIMIT,
                forall|i: int| 0 <= i < 4 ==> -lim <= #[trigger] v@[i] <= lim,
                r < 4,
                k <= 4,
                acc as int == inner(m@[r as int], ints(v@), k as int),
                -(k * (lim * lim)) <= acc <= k * (lim * lim),
            decreases 4 - k,
        {
            let x = entry(m, r, k);
            let y = v[k];
            proof {
                lemma_mul_bound(x as int, y as int, lim, lim);
                assert((k + 1) * (lim * lim) == k * (lim * lim) + lim * lim) by (nonlinear_arith);
                assert(k * (lim * lim) <= 3 * (lim * lim)) by (nonlinear_arith)
                    requires
                        k <= 3,
                ;
            }
            acc = acc + x * y;
            k += 1;
        }
        out[r] = acc;
        r += 1;
    }
    proof {
        assert(ints(out@) =~= apply(m@, ints(v@)));
    }
    out
}

/// Row `row` and column `col` deleted from `m`, for indices in range on an order above 2.
fn strike(m: &Matrix, row: usize, col: usize) -> (r: Matrix)
    requires
        2 < m@.len(),
        row < m@.len(),
        col < m@.len(),
    ensures
        r@ == submatrix_of(m@, row as int, col as int),
{
    let n = m.order() - 1;
    let size = entry_count(n);
    let mut e: Vec<i64> = Vec::new();
    let mut i: usize = 0;
    while i < size
        invariant
            2 <= n <= 3,
            n + 1 == m@.len(),
            row <= n,
            col <= n,
            size == n * n,
            i <= size,
            e.len() == i,
            forall|j: int| 0 <= j < i ==> #[trigger] e@[j] as int == submatrix_of(m@, row as int, col as int)[j / n as int][j % n as int],
        decreases size - i,
    {
        proof {
            lemma_position(n as int, i as int);
        }
        let rr = i / n;
        let cc = i % n;
        let sr = if rr < row { rr } else { rr + 1 };
        let sc = if cc < col { cc } else { cc + 1 };
        let v = entry(m, sr, sc);
        e.push(v);
        i += 1;
    }
    proof {
        assert forall|r: int, c: int| 0 <= r < n && 0 <= c < n implies
            #[trigger] rows_of(n as nat, e@)[r][c] == submatrix_of(m@, row as int, col as int)[r][c] by {
            lemma_cell(n as int, r, c);
        }
        assert(rows_of(n as nat, e@) =~~= submatrix_of(m@, row as int, col as int));
    }
    Matrix { order: n, entries: e }
}

/// The matrix of order `n - 1` left when row `row` and column `col` are deleted
/// from `m` of order `n`.
pub fn submatrix(m: &Matrix, row: usize, col: usize) -> (r: Result<Matrix, MatrixError>)
    ensures
        (row < m@.len() && col < m@.len() && 2 < m@.len()) <==> r is Ok,
        r matches Ok(s) ==> s@ == submatrix_of(m@, row as int, col as int),
        r matches Err(e) ==> e == (if row >= m@.len() || col >= m@.len() {
            MatrixError::OutOfBounds
        } else {
            MatrixError::Degenerate
        }),
{
    let n = m.order();
    if row >= n || col >= n {
        Err(MatrixError::OutOfBounds)
    } else if n <= 2 {
        Err(MatrixError::Degenerate)
    } else {
        Ok(strike(m, row, col))
    }
}

/// A bound on the determinant of a matrix of order `n` whose entries lie within
/// `DETERMINANT_LIMIT`: `n! * DETERMINANT_LIMIT^n`.
pub open spec fn det_limit(n: nat) -> int
    decreases n,
{
    if n <= 2 {
        2 * (DETERMINANT_LIMIT * DETERMINANT_LIMIT)
    } else {
        n * DETERMINANT_LIMIT * det_limit((n - 1) as nat)
    }
}

proof fn lemma_det_limit_values()
    ensures
        det_limit(2) == 536870912,
        det_limit(3) == 26388279066624,
        det_limit(4) == 1729382256910270464,
{
    reveal_with_fuel(det_limit, 3);
}

/// Deleting a row and a column keeps a matrix square and its entries within a bound.
proof fn lemma_submatrix_within(a: Seq<Seq<int>>, row: int, col: int, bound: int)
    requires
        is_square(a),
        2 < a.len(),
        0 <= row < a.len(),
        0 <= col < a.len(),
        entries_within(a, bound),
    ensures
        is_square(submatrix_of(a, row, col)),
        entries_within(submatrix_of(a, row, col), bound),
{
    let s = submatrix_of(a, row, col);
    assert forall|r: int, c: int| 0 <= r < s.len() && 0 <= c < s.len() implies
        -bound <= #[trigger] s[r][c] <= bound by {
        assert(-bound <= a[skip(r, row)][skip(c, col)] <= bound);
    }
}

/// The determinant of a matrix whose entries lie within `DETERMINANT_LIMIT`
/// stays within `det_limit` of its order.
proof fn lemma_det_bound(a: Seq<Seq<int>>)
    requires
        is_square(a),
        2 <= a.len() <= 4,
        entries_within(a, DETERMINANT_LIMIT as int),
    ensures
        -det_limit(a.len()) <= det(a) <= det_limit(a.len()),
    decreases a.len(), 1int, 0int,
{
    let lim = DETERMINANT_LIMIT as int;
    if a.len() == 2 {
        assert(-lim <= a[0][0] <= lim && -lim <= a[1][1] <= lim);
        assert(-lim <= a[0][1] <= lim && -lim <= a[1][0] <= lim);
        lemma_mul_bound(a[0][0], a[1][1], lim, lim);
        lemma_mul_bound(a[0][1], a[1][0], lim, lim);
    } else {
        lemma_expansion_bound(a, a.len() as int);
        assert(a.len() * (lim * det_limit((a.len() - 1) as nat)) == det_limit(a.len())) by (nonlinear_arith)
            requires
                lim == DETERMINANT_LIMIT,
                a.len() > 2,
                det_limit(a.len()) == a.len() * DETERMINANT_LIMIT * det_limit((a.len() - 1) as nat),
        ;
    }
}

/// Each partial first-row expansion stays within `k` times the largest term.
proof fn lemma_expansion_bound(a: Seq<Seq<int>>, k: int)
    requires
        is_square(a),
        2 < a.len() <= 4,
        0 <= k <= a.len(),
        entries_within(a, DETERMINANT_LIMIT as int),
    ensures
        -(k * (DETERMINANT_LIMIT * det_limit((a.len() - 1) as nat))) <= first_row_expansion(a, k)
            <= k * (DETERMINANT_LIMIT * det_limit((a.len() - 1) as nat)),
    decreases a.len(), 0int, k,
{
    let lim = DETERMINANT_LIMIT as int;
    let t = lim * det_limit((a.len() - 1) as nat);
    if k > 0 {
        lemma_expansion_bound(a, k - 1);
        lemma_submatrix_within(a, 0, k - 1, lim);
        let s = submatrix_of(a, 0, k - 1);
        lemma_det_bound(s);
        assert(-lim <= a[0][k - 1] <= lim);
        lemma_mul_bound(a[0][k - 1], sign(k - 1) * det(s), lim, det_limit(s.len()));
        assert((k - 1) * t + t == k * t) by (nonlinear_arith);
    } else {
        assert(k * t == 0);
    }
}

/// The determinant: the closed form at order 2, the cofactor expansion along the
/// first row above it.
pub fn determinant(m: &Matrix) -> (r: i64)
    requires
        entries_within(m@, DETERMINANT_LIMIT as int),
    ensures
        r == det(m@),
    decreases m@.len(), 1int,
{
    proof {
        use_type_invariant(m);
    }
    let n = m.order();
    if n == 2 {
        let (a, b, c, d) = (entry(m, 0, 0), entry(m, 0, 1), entry(m, 1, 0), entry(m, 1, 1));
        proof {
            let lim = DETERMINANT_LIMIT as int;
            lemma_det_bound(m@);
            lemma_det_limit_values();
            lemma_mul_bound(a as int, d as int, lim, lim);
            lemma_mul_bound(b as int, c as int, lim, lim);
        }
        return a * d - b * c;
    }
    let ghost lim = DETERMINANT_LIMIT as int;
    let mut acc: i64 = 0;
    let mut c: usize = 0;
    while c < n
        invariant
            2 < n <= 4,
            n == m@.len(),
            is_square(m@),
            c <= n,
            entries_within(m@, DETERMINANT_LIMIT as int),
            lim == DETERMINANT_LIMIT,
            acc as int == first_row_expansion(m@, c as int),
        decreases n - c,
    {
        proof {
            lemma_expansion_bound(m@, c as int + 1);
            lemma_det_limit_values();
            lemma_submatrix_within(m@, 0, c as int, lim);
            lemma_det_bound(submatrix_of(m@, 0, c as int));
            assert((c + 1) * (lim * det_limit((n - 1) as nat)) <= n * (lim * det_limit((n - 1) as nat))) by (nonlinear_arith)
                requires
                    c < n,
                    0 <= lim * det_limit((n - 1) as nat),
            ;
        }
        let x = entry(m, 0, c);
        let y = signed_minor(m, 0, c);
        proof {
            lemma_mul_bound(x as int, y as int, lim, det_limit((n - 1) as nat));
            if n == 3 {
                assert(n * (lim * det_limit((n - 1) as nat)) == det_limit(3));
            } else {
                assert(n * (lim * det_limit((n - 1) as nat)) == det_limit(4));
            }
            assert(first_row_expansion(m@, c + 1) == acc + x * y);
        }
        acc = acc + x * y;
        c += 1;
    }
    acc
}

/// The cofactor of `(row, col)`, for indices in range on an order above 2.
fn signed_minor(m: &Matrix, row: usize, col: usize) -> (r: i64)
    requires
        2 < m@.len(),
        row < m@.len(),
        col < m@.len(),
        entries_within(m@, DETERMINANT_LIMIT as int),
    ensures
        r == cofactor_of(m@, row as int, col as int),
    decreases m@.len(), 0int,
{
    proof {
        use_type_invariant(m);
        lemma_submatrix_within(m@, row as int, col as int, DETERMINANT_LIMIT as int);
        lemma_det_bound(submatrix_of(m@, row as int, col as int));
        lemma_det_limit_values();
    }
    let s = strike(m, row, col);
    let d = determinant(&s);
    if (row + col) % 2 == 0 {
        d
    } else {
        -d
    }
}

/// The determinant of the submatrix without row `row` and column `col`.
pub fn minor(m: &Matrix, row: usize, col: usize) -> (r: Result<i64, MatrixError>)
    requires
        entries_within(m@, DETERMINANT_LIMIT as int),
    ensures
        (row < m@.len() && col < m@.len() && 2 < m@.len()) <==> r is Ok,
        r matches Ok(v) ==> v == minor_of(m@, row as int, col as int),
        r matches Err(e) ==> e == (if row >= m@.len() || col >= m@.len() {
            MatrixError::OutOfBounds
        } else {
            MatrixError::Degenerate
        }),
{
    proof {
        use_type_invariant(m);
    }
    match submatrix(m, row, col) {
        Ok(s) => {
            proof {
                lemma_submatrix_within(m@, row as int, col as int, DETERMINANT_LIMIT as int);
            }
            Ok(determinant(&s))
        },
        Err(e) => Err(e),
    }
}

/// The minor of `(row, col)`, negated where `row + col` is odd.
pub fn cofactor(m: &Matrix, row: usize, col: usize) -> (r: Result<i64, MatrixError>)
    requires
        entries_within(m@, DETERMINANT_LIMIT as int),
    ensures
        (row < m@.len() && col < m@.len() && 2 < m@.len()) <==> r is Ok,
        r matches Ok(v) ==> v == cofactor_of(m@, row as int, col as int),
        r matches Err(e) ==> e == (if row >= m@.len() || col >= m@.len() {
            MatrixError::OutOfBounds
        } else {
            MatrixError::Degenerate
        }),
{
    let n = m.order();
    if row >= n || col >= n {
        Err(MatrixError::OutOfBounds)
    } else if n <= 2 {
        Err(MatrixError::Degenerate)
    } else {
        Ok(signed_minor(m, row, col))
    }
}

/// Whether `m` has an inverse: whether its determinant is nonzero.
pub fn is_invertible(m: &Matrix) -> (r: bool)
    requires
        entries_within(m@, DETERMINANT_LIMIT as int),
    ensures
        r == (det(m@) != 0),
{
    determinant(m) != 0
}

/// An exact inverse: entry `(r, c)` of the inverse is `numerators(r, c) / denominator`.
#[derive(Debug)]
pub struct Inverse {
    /// The adjugate: the transposed matrix of cofactors.
    pub numerators: Matrix,
    /// The determinant of the inverted matrix.
    pub denominator: i64,
}

/// The transposed matrix of cofactors of `m`.
fn adjugate(m: &Matrix) -> (r: Matrix)
    requires
        entries_within(m@, DETERMINANT_LIMIT as int),
    ensures
        r@ == adjugate_of(m@),
{
    proof {
        use_type_invariant(m);
    }
    let n = m.order();
    if n == 2 {
        let (a, b, c, d) = (entry(m, 0, 0), entry(m, 0, 1), entry(m, 1, 0), entry(m, 1, 1));
        let (nb, nc) = (-b, -c);
        let e: Vec<i64> = vec![d, nb, nc, a];
        proof {
            let a = m@;
            assert(submatrix_of(a, 0, 0)[0][0] == a[1][1]);
            assert(submatrix_of(a, 0, 1)[0][0] == a[1][0]);
            assert(submatrix_of(a, 1, 0)[0][0] == a[0][1]);
            assert(submatrix_of(a, 1, 1)[0][0] == a[0][0]);
            assert(e@.len() == 4);
            assert(rows_of(2, e@) =~~= adjugate_of(a));
            assert(n * n == 4) by (nonlinear_arith)
                requires
                    n == 2,
            ;
        }
        return Matrix { order: n, entries: e };
    }
    let size = entry_count(n);
    let mut e: Vec<i64> = Vec::new();
    let mut i: usize = 0;
    while i < size
        invariant
            2 < n <= 4,
            n == m@.len(),
            size == n * n,
            i <= size,
            e.len() == i,
            entries_within(m@, DETERMINANT_LIMIT as int),
            forall|j: int| 0 <= j < i ==> #[trigger] e@[j] as int == adjugate_of(m@)[j / n as int][j % n as int],
        decreases size - i,
    {
        proof {
            lemma_position(n as int, i as int);
        }
        let v = signed_minor(m, i % n, i / n);
        e.push(v);
        i += 1;
    }
    proof {
        assert forall|r: int, c: int| 0 <= r < n && 0 <= c < n implies
            #[trigger] rows_of(n as nat, e@)[r][c] == adjugate_of(m@)[r][c] by {
            lemma_cell(n as int, r, c);
        }
        assert(rows_of(n as nat, e@) =~~= adjugate_of(m@));
    }
    Matrix { order: n, entries: e }
}

/// The inverse of `m`: its adjugate over its determinant, or `Singular` where the
/// determinant is zero.
pub fn inverse(m: &Matrix) -> (r: Result<Inverse, MatrixError>)
    requires
        entries_within(m@, DETERMINANT_LIMIT as int),
    ensures
        (det(m@) != 0) <==> r is Ok,
        r matches Ok(q) ==> q.numerators@ == adjugate_of(m@) && q.denominator == det(m@),
        r matches Err(e) ==> e == MatrixError::Singular,
{
    let d = determinant(m);
    if d == 0 {
        return Err(MatrixError::Singular);
    }
    Ok(Inverse { numerators: adjugate(m), denominator: d })
}

impl PartialEq for Matrix {
    fn eq(&self, other: &Matrix) -> (r: bool) {
        proof {
            use_type_invariant(self);
            use_type_invariant(other);
        }
        if self.order != other.order {
            proof {
                assert(self@.len() != other@.len());
            }
            return false;
        }
        let n = self.order;
        let size = entry_count(n);
        let mut i: usize = 0;
        while i < size
            invariant
                2 <= n <= 4,
                n == self.order,
                n == other.order,
                size == n * n,
                self.entries.len() == size,
                other.entries.len() == size,
                i <= size,
                forall|j: int| 0 <= j < i ==> #[trigger] self.entries@[j] == other.entries@[j],
            decreases size - i,
        {
            if self.entries[i] != other.entries[i] {
                proof {
                    lemma_position(n as int, i as int);
                    let (r, c) = (i as int / n as int, i as int % n as int);
                    assert(self@[r][c] != other@[r][c]);
                }
                return false;
            }
            i += 1;
        }
        proof {
            assert(self.entries@ =~= other.entries@);
        }
        true
    }
}

impl vstd::std_specs::cmp::PartialEqSpecImpl for Matrix {
    open spec fn obeys_eq_spec() -> bool {
        true
    }

    open spec fn eq_spec(&self, other: &Matrix) -> bool {
        self@ == other@
    }
}

} // verus!
