//! Order-by-order proofs that a matrix times its adjugate is its determinant times
//! the identity: every cofactor is written out as a sum of products of entries, and
//! each product is put in one order of factors, so that the sums cancel term by term.
use vstd::prelude::*;
use vstd::arithmetic::mul::{
    lemma_mul_is_associative, lemma_mul_is_commutative, lemma_mul_is_distributive_add,
    lemma_mul_is_distributive_sub,
};
use crate::algebra::{
    adjugate_of, cofactor_of, column, det, first_row_expansion, inner, is_square, minor_of,
    product, scalar_identity, sign, submatrix_of,
};

verus! {

/// `s * m` for a sign `s`.
proof fn lemma_unit_times(s: int, m: int)
    requires
        s == 1 || s == -1,
    ensures
        s * m == (if s == 1 { m } else { -m }),
{
    assert(s * m == (if s == 1 { m } else { -m })) by (nonlinear_arith)
        requires
            s == 1 || s == -1,
    ;
}

/// One step of the first-row expansion: the term of column `k - 1` is its entry
/// times its cofactor.
proof fn lemma_expansion_step(a: Seq<Seq<int>>, k: int)
    requires
        2 < a.len(),
        1 <= k,
    ensures
        first_row_expansion(a, k) == first_row_expansion(a, k - 1) + a[0][k - 1] * cofactor_of(a, 0, k - 1),
{
    assert(cofactor_of(a, 0, k - 1) == sign(k - 1) * det(submatrix_of(a, 0, k - 1)));
}

/// Row `r` against the cofactors of row `c`, written out at order 2: the
/// determinant where `r == c`, zero elsewhere.
proof fn lemma_cofactor_rows_2(x00: int, x01: int, x10: int, x11: int)
    ensures
        x00 * (x11) + x01 * (0 - x10) == x00 * (x11) + x01 * (0 - x10),
        x00 * (0 - x01) + x01 * (x00) == 0,
        x10 * (x11) + x11 * (0 - x10) == 0,
        x10 * (0 - x01) + x11 * (x00) == x00 * (x11) + x01 * (0 - x10),
{
    lemma_mul_is_distributive_sub(x01, 0, x10);
    lemma_mul_is_distributive_sub(x00, 0, x01);
    lemma_mul_is_distributive_sub(x11, 0, x10);
    lemma_mul_is_distributive_sub(x10, 0, x01);
    assert(x01 * x00 == x00 * x01) by (nonlinear_arith);
    assert(x11 * x10 == x10 * x11) by (nonlinear_arith);
    assert(x10 * x01 == x01 * x10) by (nonlinear_arith);
    assert(x11 * x00 == x00 * x11) by (nonlinear_arith);
}

/// At order 2: `a` times its adjugate is `det(a)` times the identity.
pub(crate) proof fn lemma_adjugate_product_2(a: Seq<Seq<int>>)
    requires
        is_square(a),
        a.len() == 2,
    ensures
        product(a, adjugate_of(a)) == scalar_identity(a.len(), det(a)),
{
    let (x00, x01) = (a[0][0], a[0][1]);
    let (x10, x11) = (a[1][0], a[1][1]);
    assert(submatrix_of(a, 0, 0)[0] == seq![x11]);
    assert(sign(0int + 0int) == 1);
    assert(cofactor_of(a, 0, 0) == x11);
    assert(submatrix_of(a, 0, 1)[0] == seq![x10]);
    assert(sign(0int + 1int) == -1);
    assert(cofactor_of(a, 0, 1) == 0 - x10);
    assert(submatrix_of(a, 1, 0)[0] == seq![x01]);
    assert(sign(1int + 0int) == -1);
    assert(cofactor_of(a, 1, 0) == 0 - x01);
    assert(submatrix_of(a, 1, 1)[0] == seq![x00]);
    assert(sign(1int + 1int) == 1);
    assert(cofactor_of(a, 1, 1) == x00);
    lemma_mul_is_distributive_sub(x01, 0, x10);
    assert(det(a) == x00 * cofactor_of(a, 0, 0) + x01 * cofactor_of(a, 0, 1));
    lemma_cofactor_rows_2(x00, x01, x10, x11);
    let adj = adjugate_of(a);
    reveal_with_fuel(inner, 3);
    assert forall|r: int, c: int| 0 <= r < a.len() && 0 <= c < a.len() implies
        #[trigger] product(a, adj)[r][c] == scalar_identity(a.len(), det(a))[r][c] by {
        assert(product(a, adj)[r][c] == a[r][0] * cofactor_of(a, c, 0) + a[r][1] * cofactor_of(a, c, 1));
        assert(r == 0 || r == 1);
        assert(c == 0 || c == 1);
    }
    assert(product(a, adj) =~~= scalar_identity(a.len(), det(a)));
}

/// Row `r` against the cofactors of row `c`, written out at order 3: the
/// determinant where `r == c`, zero elsewhere.
proof fn lemma_cofactor_rows_3(x00: int, x01: int, x02: int, x10: int, x11: int, x12: int, x20: int, x21: int, x22: int)
    ensures
        x00 * (x11 * x22 - (x12 * x21)) + x01 * (0 - (x10 * x22) + (x12 * x20)) + x02 * (x10 * x21 - (x11 * x20)) == x00 * (x11 * x22 - (x12 * x21)) + x01 * (0 - (x10 * x22) + (x12 * x20)) + x02 * (x10 * x21 - (x11 * x20)),
        x00 * (0 - (x01 * x22) + (x02 * x21)) + x01 * (x00 * x22 - (x02 * x20)) + x02 * (0 - (x00 * x21) + (x01 * x20)) == 0,
        x00 * (x01 * x12 - (x02 * x11)) + x01 * (0 - (x00 * x12) + (x02 * x10)) + x02 * (x00 * x11 - (x01 * x10)) == 0,
        x10 * (x11 * x22 - (x12 * x21)) + x11 * (0 - (x10 * x22) + (x12 * x20)) + x12 * (x10 * x21 - (x11 * x20)) == 0,
        x10 * (0 - (x01 * x22) + (x02 * x21)) + x11 * (x00 * x22 - (x02 * x20)) + x12 * (0 - (x00 * x21) + (x01 * x20)) == x00 * (x11 * x22 - (x12 * x21)) + x01 * (0 - (x10 * x22) + (x12 * x20)) + x02 * (x10 * x21 - (x11 * x20)),
        x10 * (x01 * x12 - (x02 * x11)) + x11 * (0 - (x00 * x12) + (x02 * x10)) + x12 * (x00 * x11 - (x01 * x10)) == 0,
        x20 * (x11 * x22 - (x12 * x21)) + x21 * (0 - (x10 * x22) + (x12 * x20)) + x22 * (x10 * x21 - (x11 * x20)) == 0,
        x20 * (0 - (x01 * x22) + (x02 * x21)) + x21 * (x00 * x22 - (x02 * x20)) + x22 * (0 - (x00 * x21) + (x01 * x20)) == 0,
        x20 * (x01 * x12 - (x02 * x11)) + x21 * (0 - (x00 * x12) + (x02 * x10)) + x22 * (x00 * x11 - (x01 * x10)) == x00 * (x11 * x22 - (x12 * x21)) + x01 * (0 - (x10 * x22) + (x12 * x20)) + x02 * (x10 * x21 - (x11 * x20)),
{
    lemma_mul_is_distributive_sub(x00, x11 * x22, (x12 * x21));
    lemma_mul_is_distributive_add(x01, 0 - (x10 * x22), (x12 * x20));
    lemma_mul_is_distributive_sub(x01, 0, (x10 * x22));
    lemma_mul_is_distributive_sub(x02, x10 * x21, (x11 * x20));
    lemma_mul_is_distributive_add(x00, 0 - (x01 * x22), (x02 * x21));
    lemma_mul_is_distributive_sub(x00, 0, (x01 * x22));
    lemma_mul_is_distributive_sub(x01, x00 * x22, (x02 * x20));
    lemma_mul_is_distributive_add(x02, 0 - (x00 * x21), (x01 * x20));
    lemma_mul_is_distributive_sub(x02, 0, (x00 * x21));
    lemma_mul_is_distributive_sub(x00, x01 * x12, (x02 * x11));
    lemma_mul_is_distributive_add(x01, 0 - (x00 * x12), (x02 * x10));
    lemma_mul_is_distributive_sub(x01, 0, (x00 * x12));
    lemma_mul_is_distributive_sub(x02, x00 * x11, (x01 * x10));
    lemma_mul_is_distributive_sub(x10, x11 * x22, (x12 * x21));
    lemma_mul_is_distributive_add(x11, 0 - (x10 * x22), (x12 * x20));
    lemma_mul_is_distributive_sub(x11, 0, (x10 * x22));
    lemma_mul_is_distributive_sub(x12, x10 * x21, (x11 * x20));
    lemma_mul_is_distributive_add(x10, 0 - (x01 * x22), (x02 * x21));
    lemma_mul_is_distributive_sub(x10, 0, (x01 * x22));
    lemma_mul_is_distributive_sub(x11, x00 * x22, (x02 * x20));
    lemma_mul_is_distributive_add(x12, 0 - (x00 * x21), (x01 * x20));
    lemma_mul_is_distributive_sub(x12, 0, (x00 * x21));
    lemma_mul_is_distributive_sub(x10, x01 * x12, (x02 * x11));
    lemma_mul_is_distributive_add(x11, 0 - (x00 * x12), (x02 * x10));
    lemma_mul_is_distributive_sub(x11, 0, (x00 * x12));
    lemma_mul_is_distributive_sub(x12, x00 * x11, (x01 * x10));
    lemma_mul_is_distributive_sub(x20, x11 * x22, (x12 * x21));
    lemma_mul_is_distributive_add(x21, 0 - (x10 * x22), (x12 * x20));
    lemma_mul_is_distributive_sub(x21, 0, (x10 * x22));
    lemma_mul_is_distributive_sub(x22, x10 * x21, (x11 * x20));
    lemma_mul_is_distributive_add(x20, 0 - (x01 * x22), (x02 * x21));
    lemma_mul_is_distributive_sub(x20, 0, (x01 * x22));
    lemma_mul_is_distributive_sub(x21, x00 * x22, (x02 * x20));
    lemma_mul_is_distributive_add(x22, 0 - (x00 * x21), (x01 * x20));
    lemma_mul_is_distributive_sub(x22, 0, (x00 * x21));
    lemma_mul_is_distributive_sub(x20, x01 * x12, (x02 * x11));
    lemma_mul_is_distributive_add(x21, 0 - (x00 * x12), (x02 * x10));
    lemma_mul_is_distributive_sub(x21, 0, (x00 * x12));
    lemma_mul_is_distributive_sub(x22, x00 * x11, (x01 * x10));
    assert(x00 * (x11 * x22) == (x00 * x11) * x22) by (nonlinear_arith);
    assert(x00 * (x12 * x21) == (x00 * x12) * x21) by (nonlinear_arith);
    assert(x01 * (x10 * x22) == (x01 * x10) * x22) by (nonlinear_arith);
    assert(x01 * (x12 * x20) == (x01 * x12) * x20) by (nonlinear_arith);
    assert(x02 * (x10 * x21) == (x02 * x10) * x21) by (nonlinear_arith);
    assert(x02 * (x11 * x20) == (x02 * x11) * x20) by (nonlinear_arith);
    assert(x00 * (x01 * x22) == (x00 * x01) * x22) by (nonlinear_arith);
    assert(x00 * (x02 * x21) == (x00 * x02) * x21) by (nonlinear_arith);
    assert(x01 * (x00 * x22) == (x00 * x01) * x22) by (nonlinear_arith);
    assert(x01 * (x02 * x20) == (x01 * x02) * x20) by (nonlinear_arith);
    assert(x02 * (x00 * x21) == (x00 * x02) * x21) by (nonlinear_arith);
    assert(x02 * (x01 * x20) == (x01 * x02) * x20) by (nonlinear_arith);
    assert(x00 * (x01 * x12) == (x00 * x01) * x12) by (nonlinear_arith);
    assert(x00 * (x02 * x11) == (x00 * x02) * x11) by (nonlinear_arith);
    assert(x01 * (x00 * x12) == (x00 * x01) * x12) by (nonlinear_arith);
    assert(x01 * (x02 * x10) == (x01 * x02) * x10) by (nonlinear_arith);
    assert(x02 * (x00 * x11) == (x00 * x02) * x11) by (nonlinear_arith);
    assert(x02 * (x01 * x10) == (x01 * x02) * x10) by (nonlinear_arith);
    assert(x10 * (x11 * x22) == (x10 * x11) * x22) by (nonlinear_arith);
    assert(x10 * (x12 * x21) == (x10 * x12) * x21) by (nonlinear_arith);
    assert(x11 * (x10 * x22) == (x10 * x11) * x22) by (nonlinear_arith);
    assert(x11 * (x12 * x20) == (x11 * x12) * x20) by (nonlinear_arith);
    assert(x12 * (x10 * x21) == (x10 * x12) * x21) by (nonlinear_arith);
    assert(x12 * (x11 * x20) == (x11 * x12) * x20) by (nonlinear_arith);
    assert(x10 * (x01 * x22) == (x01 * x10) * x22) by (nonlinear_arith);
    assert(x10 * (x02 * x21) == (x02 * x10) * x21) by (nonlinear_arith);
    assert(x11 * (x00 * x22) == (x00 * x11) * x22) by (nonlinear_arith);
    assert(x11 * (x02 * x20) == (x02 * x11) * x20) by (nonlinear_arith);
    assert(x12 * (x00 * x21) == (x00 * x12) * x21) by (nonlinear_arith);
    assert(x12 * (x01 * x20) == (x01 * x12) * x20) by (nonlinear_arith);
    assert(x10 * (x01 * x12) == (x01 * x10) * x12) by (nonlinear_arith);
    assert(x10 * (x02 * x11) == (x02 * x10) * x11) by (nonlinear_arith);
    assert(x11 * (x00 * x12) == (x00 * x11) * x12) by (nonlinear_arith);
    assert(x11 * (x02 * x10) == (x02 * x10) * x11) by (nonlinear_arith);
    assert(x12 * (x00 * x11) == (x00 * x11) * x12) by (nonlinear_arith);
    assert(x12 * (x01 * x10) == (x01 * x10) * x12) by (nonlinear_arith);
    assert(x20 * (x11 * x22) == (x11 * x20) * x22) by (nonlinear_arith);
    assert(x20 * (x12 * x21) == (x12 * x20) * x21) by (nonlinear_arith);
    assert(x21 * (x10 * x22) == (x10 * x21) * x22) by (nonlinear_arith);
    assert(x21 * (x12 * x20) == (x12 * x20) * x21) by (nonlinear_arith);
    assert(x22 * (x10 * x21) == (x10 * x21) * x22) by (nonlinear_arith);
    assert(x22 * (x11 * x20) == (x11 * x20) * x22) by (nonlinear_arith);
    assert(x20 * (x01 * x22) == (x01 * x20) * x22) by (nonlinear_arith);
    assert(x20 * (x02 * x21) == (x02 * x20) * x21) by (nonlinear_arith);
    assert(x21 * (x00 * x22) == (x00 * x21) * x22) by (nonlinear_arith);
    assert(x21 * (x02 * x20) == (x02 * x20) * x21) by (nonlinear_arith);
    assert(x22 * (x00 * x21) == (x00 * x21) * x22) by (nonlinear_arith);
    assert(x22 * (x01 * x20) == (x01 * x20) * x22) by (nonlinear_arith);
    assert(x20 * (x01 * x12) == (x01 * x12) * x20) by (nonlinear_arith);
    assert(x20 * (x02 * x11) == (x02 * x11) * x20) by (nonlinear_arith);
    assert(x21 * (x00 * x12) == (x00 * x12) * x21) by (nonlinear_arith);
    assert(x21 * (x02 * x10) == (x02 * x10) * x21) by (nonlinear_arith);
    assert(x22 * (x00 * x11) == (x00 * x11) * x22) by (nonlinear_arith);
    assert(x22 * (x01 * x10) == (x01 * x10) * x22) by (nonlinear_arith);
}

/// At order 3: `a` times its adjugate is `det(a)` times the identity.
pub(crate) proof fn lemma_adjugate_product_3(a: Seq<Seq<int>>)
    requires
        is_square(a),
        a.len() == 3,
    ensures
        product(a, adjugate_of(a)) == scalar_identity(a.len(), det(a)),
{
    let (x00, x01, x02) = (a[0][0], a[0][1], a[0][2]);
    let (x10, x11, x12) = (a[1][0], a[1][1], a[1][2]);
    let (x20, x21, x22) = (a[2][0], a[2][1], a[2][2]);
    assert(submatrix_of(a, 0, 0)[0] == seq![x11, x12]);
    assert(submatrix_of(a, 0, 0)[1] == seq![x21, x22]);
    assert(sign(0int + 0int) == 1);
    assert(cofactor_of(a, 0, 0) == x11 * x22 - (x12 * x21));
    assert(submatrix_of(a, 0, 1)[0] == seq![x10, x12]);
    assert(submatrix_of(a, 0, 1)[1] == seq![x20, x22]);
    assert(sign(0int + 1int) == -1);
    assert(cofactor_of(a, 0, 1) == 0 - (x10 * x22) + (x12 * x20));
    assert(submatrix_of(a, 0, 2)[0] == seq![x10, x11]);
    assert(submatrix_of(a, 0, 2)[1] == seq![x20, x21]);
    assert(sign(0int + 2int) == 1);
    assert(cofactor_of(a, 0, 2) == x10 * x21 - (x11 * x20));
    assert(submatrix_of(a, 1, 0)[0] == seq![x01, x02]);
    assert(submatrix_of(a, 1, 0)[1] == seq![x21, x22]);
    assert(sign(1int + 0int) == -1);
    assert(cofactor_of(a, 1, 0) == 0 - (x01 * x22) + (x02 * x21));
    assert(submatrix_of(a, 1, 1)[0] == seq![x00, x02]);
    assert(submatrix_of(a, 1, 1)[1] == seq![x20, x22]);
    assert(sign(1int + 1int) == 1);
    assert(cofactor_of(a, 1, 1) == x00 * x22 - (x02 * x20));
    assert(submatrix_of(a, 1, 2)[0] == seq![x00, x01]);
    assert(submatrix_of(a, 1, 2)[1] == seq![x20, x21]);
    assert(sign(1int + 2int) == -1);
    assert(cofactor_of(a, 1, 2) == 0 - (x00 * x21) + (x01 * x20));
    assert(submatrix_of(a, 2, 0)[0] == seq![x01, x02]);
    assert(submatrix_of(a, 2, 0)[1] == seq![x11, x12]);
    assert(sign(2int + 0int) == 1);
    assert(cofactor_of(a, 2, 0) == x01 * x12 - (x02 * x11));
    assert(submatrix_of(a, 2, 1)[0] == seq![x00, x02]);
    assert(submatrix_of(a, 2, 1)[1] == seq![x10, x12]);
    assert(sign(2int + 1int) == -1);
    assert(cofactor_of(a, 2, 1) == 0 - (x00 * x12) + (x02 * x10));
    assert(submatrix_of(a, 2, 2)[0] == seq![x00, x01]);
    assert(submatrix_of(a, 2, 2)[1] == seq![x10, x11]);
    assert(sign(2int + 2int) == 1);
    assert(cofactor_of(a, 2, 2) == x00 * x11 - (x01 * x10));
    lemma_expansion_step(a, 1);
    lemma_expansion_step(a, 2);
    lemma_expansion_step(a, 3);
    assert(det(a) == first_row_expansion(a, 3));
    assert(det(a) == x00 * cofactor_of(a, 0, 0) + x01 * cofactor_of(a, 0, 1) + x02 * cofactor_of(a, 0, 2));
    lemma_cofactor_rows_3(x00, x01, x02, x10, x11, x12, x20, x21, x22);
    let adj = adjugate_of(a);
    reveal_with_fuel(inner, 4);
    assert forall|r: int, c: int| 0 <= r < a.len() && 0 <= c < a.len() implies
        #[trigger] product(a, adj)[r][c] == scalar_identity(a.len(), det(a))[r][c] by {
        assert(product(a, adj)[r][c] == a[r][0] * cofactor_of(a, c, 0) + a[r][1] * cofactor_of(a, c, 1) + a[r][2] * cofactor_of(a, c, 2));
        assert(r == 0 || r == 1 || r == 2);
        assert(c == 0 || c == 1 || c == 2);
    }
    assert(product(a, adj) =~~= scalar_identity(a.len(), det(a)));
}

/// The determinant of an order-3 matrix written out as six products.
proof fn lemma_det_3(m: Seq<Seq<int>>)
    requires
        m.len() == 3,
    ensures
        det(m) == (m[0][0] * m[1][1]) * m[2][2] - ((m[0][0] * m[1][2]) * m[2][1]) - ((m[0][1] * m[1][0]) * m[2][2]) + ((m[0][1] * m[1][2]) * m[2][0]) + ((m[0][2] * m[1][0]) * m[2][1]) - ((m[0][2] * m[1][1]) * m[2][0]),
{
    let (b00, b01, b02) = (m[0][0], m[0][1], m[0][2]);
    let (b10, b11, b12) = (m[1][0], m[1][1], m[1][2]);
    let (b20, b21, b22) = (m[2][0], m[2][1], m[2][2]);
    lemma_expansion_step(m, 1);
    lemma_expansion_step(m, 2);
    lemma_expansion_step(m, 3);
    assert(det(m) == first_row_expansion(m, 3));
    assert(submatrix_of(m, 0, 0)[0] == seq![b11, b12]);
    assert(submatrix_of(m, 0, 0)[1] == seq![b21, b22]);
    let d0 = b11 * b22 - b12 * b21;
    assert(det(submatrix_of(m, 0, 0)) == d0);
    assert(sign(0int + 0int) == 1);
    assert(submatrix_of(m, 0, 1)[0] == seq![b10, b12]);
    assert(submatrix_of(m, 0, 1)[1] == seq![b20, b22]);
    let d1 = b10 * b22 - b12 * b20;
    assert(det(submatrix_of(m, 0, 1)) == d1);
    assert(sign(0int + 1int) == -1);
    assert(submatrix_of(m, 0, 2)[0] == seq![b10, b11]);
    assert(submatrix_of(m, 0, 2)[1] == seq![b20, b21]);
    let d2 = b10 * b21 - b11 * b20;
    assert(det(submatrix_of(m, 0, 2)) == d2);
    assert(sign(0int + 2int) == 1);
    assert(cofactor_of(m, 0, 0) == d0);
    let (c1, s1, m1) = (cofactor_of(m, 0, 1), sign(0int + 1int), minor_of(m, 0, 1));
    assert(m1 == d1);
    assert(c1 == s1 * m1);
    assert(c1 == 0 - d1) by (nonlinear_arith)
        requires
            c1 == s1 * m1,
            s1 == -1,
            m1 == d1,
    ;
    assert(cofactor_of(m, 0, 2) == d2);
    lemma_mul_is_distributive_sub(b01, 0, d1);
    lemma_mul_is_distributive_sub(b00, b11 * b22, b12 * b21);
    lemma_mul_is_associative(b00, b11, b22);
    lemma_mul_is_associative(b00, b12, b21);
    lemma_mul_is_distributive_sub(b01, b10 * b22, b12 * b20);
    lemma_mul_is_associative(b01, b10, b22);
    lemma_mul_is_associative(b01, b12, b20);
    lemma_mul_is_distributive_sub(b02, b10 * b21, b11 * b20);
    lemma_mul_is_associative(b02, b10, b21);
    lemma_mul_is_associative(b02, b11, b20);
}

/// Row `r` against the cofactors of row `c`, written out at order 4: the
/// determinant where `r == c`, zero elsewhere.
proof fn lemma_cofactor_rows_4(x00: int, x01: int, x02: int, x03: int, x10: int, x11: int, x12: int, x13: int, x20: int, x21: int, x22: int, x23: int, x30: int, x31: int, x32: int, x33: int)
    ensures
        x00 * ((x11 * x22) * x33 - ((x11 * x23) * x32) - ((x12 * x21) * x33) + ((x12 * x23) * x31) + ((x13 * x21) * x32) - ((x13 * x22) * x31)) + x01 * (0 - ((x10 * x22) * x33) + ((x10 * x23) * x32) + ((x12 * x20) * x33) - ((x12 * x23) * x30) - ((x13 * x20) * x32) + ((x13 * x22) * x30)) + x02 * ((x10 * x21) * x33 - ((x10 * x23) * x31) - ((x11 * x20) * x33) + ((x11 * x23) * x30) + ((x13 * x20) * x31) - ((x13 * x21) * x30)) + x03 * (0 - ((x10 * x21) * x32) + ((x10 * x22) * x31) + ((x11 * x20) * x32) - ((x11 * x22) * x30) - ((x12 * x20) * x31) + ((x12 * x21) * x30)) == x00 * ((x11 * x22) * x33 - ((x11 * x23) * x32) - ((x12 * x21) * x33) + ((x12 * x23) * x31) + ((x13 * x21) * x32) - ((x13 * x22) * x31)) + x01 * (0 - ((x10 * x22) * x33) + ((x10 * x23) * x32) + ((x12 * x20) * x33) - ((x12 * x23) * x30) - ((x13 * x20) * x32) + ((x13 * x22) * x30)) + x02 * ((x10 * x21) * x33 - ((x10 * x23) * x31) - ((x11 * x20) * x33) + ((x11 * x23) * x30) + ((x13 * x20) * x31) - ((x13 * x21) * x30)) + x03 * (0 - ((x10 * x21) * x32) + ((x10 * x22) * x31) + ((x11 * x20) * x32) - ((x11 * x22) * x30) - ((x12 * x20) * x31) + ((x12 * x21) * x30)),
        x00 * (0 - ((x01 * x22) * x33) + ((x01 * x23) * x32) + ((x02 * x21) * x33) - ((x02 * x23) * x31) - ((x03 * x21) * x32) + ((x03 * x22) * x31)) + x01 * ((x00 * x22) * x33 - ((x00 * x23) * x32) - ((x02 * x20) * x33) + ((x02 * x23) * x30) + ((x03 * x20) * x32) - ((x03 * x22) * x30)) + x02 * (0 - ((x00 * x21) * x33) + ((x00 * x23) * x31) + ((x01 * x20) * x33) - ((x01 * x23) * x30) - ((x03 * x20) * x31) + ((x03 * x21) * x30)) + x03 * ((x00 * x21) * x32 - ((x00 * x22) * x31) - ((x01 * x20) * x32) + ((x01 * x22) * x30) + ((x02 * x20) * x31) - ((x02 * x21) * x30)) == 0,
        x00 * ((x01 * x12) * x33 - ((x01 * x13) * x32) - ((x02 * x11) * x33) + ((x02 * x13) * x31) + ((x03 * x11) * x32) - ((x03 * x12) * x31)) + x01 * (0 - ((x00 * x12) * x33) + ((x00 * x13) * x32) + ((x02 * x10) * x33) - ((x02 * x13) * x30) - ((x03 * x10) * x32) + ((x03 * x12) * x30)) + x02 * ((x00 * x11) * x33 - ((x00 * x13) * x31) - ((x01 * x10) * x33) + ((x01 * x13) * x30) + ((x03 * x10) * x31) - ((x03 * x11) * x30)) + x03 * (0 - ((x00 * x11) * x32) + ((x00 * x12) * x31) + ((x01 * x10) * x32) - ((x01 * x12) * x30) - ((x02 * x10) * x31) + ((x02 * x11) * x30)) == 0,
        x00 * (0 - ((x01 * x12) * x23) + ((x01 * x13) * x22) + ((x02 * x11) * x23) - ((x02 * x13) * x21) - ((x03 * x11) * x22) + ((x03 * x12) * x21)) + x01 * ((x00 * x12) * x23 - ((x00 * x13) * x22) - ((x02 * x10) * x23) + ((x02 * x13) * x20) + ((x03 * x10) * x22) - ((x03 * x12) * x20)) + x02 * (0 - ((x00 * x11) * x23) + ((x00 * x13) * x21) + ((x01 * x10) * x23) - ((x01 * x13) * x20) - ((x03 * x10) * x21) + ((x03 * x11) * x20)) + x03 * ((x00 * x11) * x22 - ((x00 * x12) * x21) - ((x01 * x10) * x22) + ((x01 * x12) * x20) + ((x02 * x10) * x21) - ((x02 * x11) * x20)) == 0,
        x10 * ((x11 * x22) * x33 - ((x11 * x23) * x32) - ((x12 * x21) * x33) + ((x12 * x23) * x31) + ((x13 * x21) * x32) - ((x13 * x22) * x31)) + x11 * (0 - ((x10 * x22) * x33) + ((x10 * x23) * x32) + ((x12 * x20) * x33) - ((x12 * x23) * x30) - ((x13 * x20) * x32) + ((x13 * x22) * x30)) + x12 * ((x10 * x21) * x33 - ((x10 * x23) * x31) - ((x11 * x20) * x33) + ((x11 * x23) * x30) + ((x13 * x20) * x31) - ((x13 * x21) * x30)) + x13 * (0 - ((x10 * x21) * x32) + ((x10 * x22) * x31) + ((x11 * x20) * x32) - ((x11 * x22) * x30) - ((x12 * x20) * x31) + ((x12 * x21) * x30)) == 0,
        x10 * (0 - ((x01 * x22) * x33) + ((x01 * x23) * x32) + ((x02 * x21) * x33) - ((x02 * x23) * x31) - ((x03 * x21) * x32) + ((x03 * x22) * x31)) + x11 * ((x00 * x22) * x33 - ((x00 * x23) * x32) - ((x02 * x20) * x33) + ((x02 * x23) * x30) + ((x03 * x20) * x32) - ((x03 * x22) * x30)) + x12 * (0 - ((x00 * x21) * x33) + ((x00 * x23) * x31) + ((x01 * x20) * x33) - ((x01 * x23) * x30) - ((x03 * x20) * x31) + ((x03 * x21) * x30)) + x13 * ((x00 * x21) * x32 - ((x00 * x22) * x31) - ((x01 * x20) * x32) + ((x01 * x22) * x30) + ((x02 * x20) * x31) - ((x02 * x21) * x30)) == x00 * ((x11 * x22) * x33 - ((x11 * x23) * x32) - ((x12 * x21) * x33) + ((x12 * x23) * x31) + ((x13 * x21) * x32) - ((x13 * x22) * x31)) + x01 * (0 - ((x10 * x22) * x33) + ((x10 * x23) * x32) + ((x12 * x20) * x33) - ((x12 * x23) * x30) - ((x13 * x20) * x32) + ((x13 * x22) * x30)) + x02 * ((x10 * x21) * x33 - ((x10 * x23) * x31) - ((x11 * x20) * x33) + ((x11 * x23) * x30) + ((x13 * x20) * x31) - ((x13 * x21) * x30)) + x03 * (0 - ((x10 * x21) * x32) + ((x10 * x22) * x31) + ((x11 * x20) * x32) - ((x11 * x22) * x30) - ((x12 * x20) * x31) + ((x12 * x21) * x30)),
        x10 * ((x01 * x12) * x33 - ((x01 * x13) * x32) - ((x02 * x11) * x33) + ((x02 * x13) * x31) + ((x03 * x11) * x32) - ((x03 * x12) * x31)) + x11 * (0 - ((x00 * x12) * x33) + ((x00 * x13) * x32) + ((x02 * x10) * x33) - ((x02 * x13) * x30) - ((x03 * x10) * x32) + ((x03 * x12) * x30)) + x12 * ((x00 * x11) * x33 - ((x00 * x13) * x31) - ((x01 * x10) * x33) + ((x01 * x13) * x30) + ((x03 * x10) * x31) - ((x03 * x11) * x30)) + x13 * (0 - ((x00 * x11) * x32) + ((x00 * x12) * x31) + ((x01 * x10) * x32) - ((x01 * x12) * x30) - ((x02 * x10) * x31) + ((x02 * x11) * x30)) == 0,
        x10 * (0 - ((x01 * x12) * x23) + ((x01 * x13) * x22) + ((x02 * x11) * x23) - ((x02 * x13) * x21) - ((x03 * x11) * x22) + ((x03 * x12) * x21)) + x11 * ((x00 * x12) * x23 - ((x00 * x13) * x22) - ((x02 * x10) * x23) + ((x02 * x13) * x20) + ((x03 * x10) * x22) - ((x03 * x12) * x20)) + x12 * (0 - ((x00 * x11) * x23) + ((x00 * x13) * x21) + ((x01 * x10) * x23) - ((x01 * x13) * x20) - ((x03 * x10) * x21) + ((x03 * x11) * x20)) + x13 * ((x00 * x11) * x22 - ((x00 * x12) * x21) - ((x01 * x10) * x22) + ((x01 * x12) * x20) + ((x02 * x10) * x21) - ((x02 * x11) * x20)) == 0,
        x20 * ((x11 * x22) * x33 - ((x11 * x23) * x32) - ((x12 * x21) * x33) + ((x12 * x23) * x31) + ((x13 * x21) * x32) - ((x13 * x22) * x31)) + x21 * (0 - ((x10 * x22) * x33) + ((x10 * x23) * x32) + ((x12 * x20) * x33) - ((x12 * x23) * x30) - ((x13 * x20) * x32) + ((x13 * x22) * x30)) + x22 * ((x10 * x21) * x33 - ((x10 * x23) * x31) - ((x11 * x20) * x33) + ((x11 * x23) * x30) + ((x13 * x20) * x31) - ((x13 * x21) * x30)) + x23 * (0 - ((x10 * x21) * x32) + ((x10 * x22) * x31) + ((x11 * x20) * x32) - ((x11 * x22) * x30) - ((x12 * x20) * x31) + ((x12 * x21) * x30)) == 0,
        x20 * (0 - ((x01 * x22) * x33) + ((x01 * x23) * x32) + ((x02 * x21) * x33) - ((x02 * x23) * x31) - ((x03 * x21) * x32) + ((x03 * x22) * x31)) + x21 * ((x00 * x22) * x33 - ((x00 * x23) * x32) - ((x02 * x20) * x33) + ((x02 * x23) * x30) + ((x03 * x20) * x32) - ((x03 * x22) * x30)) + x22 * (0 - ((x00 * x21) * x33) + ((x00 * x23) * x31) + ((x01 * x20) * x33) - ((x01 * x23) * x30) - ((x03 * x20) * x31) + ((x03 * x21) * x30)) + x23 * ((x00 * x21) * x32 - ((x00 * x22) * x31) - ((x01 * x20) * x32) + ((x01 * x22) * x30) + ((x02 * x20) * x31) - ((x02 * x21) * x30)) == 0,
        x20 * ((x01 * x12) * x33 - ((x01 * x13) * x32) - ((x02 * x11) * x33) + ((x02 * x13) * x31) + ((x03 * x11) * x32) - ((x03 * x12) * x31)) + x21 * (0 - ((x00 * x12) * x33) + ((x00 * x13) * x32) + ((x02 * x10) * x33) - ((x02 * x13) * x30) - ((x03 * x10) * x32) + ((x03 * x12) * x30)) + x22 * ((x00 * x11) * x33 - ((x00 * x13) * x31) - ((x01 * x10) * x33) + ((x01 * x13) * x30) + ((x03 * x10) * x31) - ((x03 * x11) * x30)) + x23 * (0 - ((x00 * x11) * x32) + ((x00 * x12) * x31) + ((x01 * x10) * x32) - ((x01 * x12) * x30) - ((x02 * x10) * x31) + ((x02 * x11) * x30)) == x00 * ((x11 * x22) * x33 - ((x11 * x23) * x32) - ((x12 * x21) * x33) + ((x12 * x23) * x31) + ((x13 * x21) * x32) - ((x13 * x22) * x31)) + x01 * (0 - ((x10 * x22) * x33) + ((x10 * x23) * x32) + ((x12 * x20) * x33) - ((x12 * x23) * x30) - ((x13 * x20) * x32) + ((x13 * x22) * x30)) + x02 * ((x10 * x21) * x33 - ((x10 * x23) * x31) - ((x11 * x20) * x33) + ((x11 * x23) * x30) + ((x13 * x20) * x31) - ((x13 * x21) * x30)) + x03 * (0 - ((x10 * x21) * x32) + ((x10 * x22) * x31) + ((x11 * x20) * x32) - ((x11 * x22) * x30) - ((x12 * x20) * x31) + ((x12 * x21) * x30)),
        x20 * (0 - ((x01 * x12) * x23) + ((x01 * x13) * x22) + ((x02 * x11) * x23) - ((x02 * x13) * x21) - ((x03 * x11) * x22) + ((x03 * x12) * x21)) + x21 * ((x00 * x12) * x23 - ((x00 * x13) * x22) - ((x02 * x10) * x23) + ((x02 * x13) * x20) + ((x03 * x10) * x22) - ((x03 * x12) * x20)) + x22 * (0 - ((x00 * x11) * x23) + ((x00 * x13) * x21) + ((x01 * x10) * x23) - ((x01 * x13) * x20) - ((x03 * x10) * x21) + ((x03 * x11) * x20)) + x23 * ((x00 * x11) * x22 - ((x00 * x12) * x21) - ((x01 * x10) * x22) + ((x01 * x12) * x20) + ((x02 * x10) * x21) - ((x02 * x11) * x20)) == 0,
        x30 * ((x11 * x22) * x33 - ((x11 * x23) * x32) - ((x12 * x21) * x33) + ((x12 * x23) * x31) + ((x13 * x21) * x32) - ((x13 * x22) * x31)) + x31 * (0 - ((x10 * x22) * x33) + ((x10 * x23) * x32) + ((x12 * x20) * x33) - ((x12 * x23) * x30) - ((x13 * x20) * x32) + ((x13 * x22) * x30)) + x32 * ((x10 * x21) * x33 - ((x10 * x23) * x31) - ((x11 * x20) * x33) + ((x11 * x23) * x30) + ((x13 * x20) * x31) - ((x13 * x21) * x30)) + x33 * (0 - ((x10 * x21) * x32) + ((x10 * x22) * x31) + ((x11 * x20) * x32) - ((x11 * x22) * x30) - ((x12 * x20) * x31) + ((x12 * x21) * x30)) == 0,
        x30 * (0 - ((x01 * x22) * x33) + ((x01 * x23) * x32) + ((x02 * x21) * x33) - ((x02 * x23) * x31) - ((x03 * x21) * x32) + ((x03 * x22) * x31)) + x31 * ((x00 * x22) * x33 - ((x00 * x23) * x32) - ((x02 * x20) * x33) + ((x02 * x23) * x30) + ((x03 * x20) * x32) - ((x03 * x22) * x30)) + x32 * (0 - ((x00 * x21) * x33) + ((x00 * x23) * x31) + ((x01 * x20) * x33) - ((x01 * x23) * x30) - ((x03 * x20) * x31) + ((x03 * x21) * x30)) + x33 * ((x00 * x21) * x32 - ((x00 * x22) * x31) - ((x01 * x20) * x32) + ((x01 * x22) * x30) + ((x02 * x20) * x31) - ((x02 * x21) * x30)) == 0,
        x30 * ((x01 * x12) * x33 - ((x01 * x13) * x32) - ((x02 * x11) * x33) + ((x02 * x13) * x31) + ((x03 * x11) * x32) - ((x03 * x12) * x31)) + x31 * (0 - ((x00 * x12) * x33) + ((x00 * x13) * x32) + ((x02 * x10) * x33) - ((x02 * x13) * x30) - ((x03 * x10) * x32) + ((x03 * x12) * x30)) + x32 * ((x00 * x11) * x33 - ((x00 * x13) * x31) - ((x01 * x10) * x33) + ((x01 * x13) * x30) + ((x03 * x10) * x31) - ((x03 * x11) * x30)) + x33 * (0 - ((x00 * x11) * x32) + ((x00 * x12) * x31) + ((x01 * x10) * x32) - ((x01 * x12) * x30) - ((x02 * x10) * x31) + ((x02 * x11) * x30)) == 0,
        x30 * (0 - ((x01 * x12) * x23) + ((x01 * x13) * x22) + ((x02 * x11) * x23) - ((x02 * x13) * x21) - ((x03 * x11) * x22) + ((x03 * x12) * x21)) + x31 * ((x00 * x12) * x23 - ((x00 * x13) * x22) - ((x02 * x10) * x23) + ((x02 * x13) * x20) + ((x03 * x10) * x22) - ((x03 * x12) * x20)) + x32 * (0 - ((x00 * x11) * x23) + ((x00 * x13) * x21) + ((x01 * x10) * x23) - ((x01 * x13) * x20) - ((x03 * x10) * x21) + ((x03 * x11) * x20)) + x33 * ((x00 * x11) * x22 - ((x00 * x12) * x21) - ((x01 * x10) * x22) + ((x01 * x12) * x20) + ((x02 * x10) * x21) - ((x02 * x11) * x20)) == x00 * ((x11 * x22) * x33 - ((x11 * x23) * x32) - ((x12 * x21) * x33) + ((x12 * x23) * x31) + ((x13 * x21) * x32) - ((x13 * x22) * x31)) + x01 * (0 - ((x10 * x22) * x33) + ((x10 * x23) * x32) + ((x12 * x20) * x33) - ((x12 * x23) * x30) - ((x13 * x20) * x32) + ((x13 * x22) * x30)) + x02 * ((x10 * x21) * x33 - ((x10 * x23) * x31) - ((x11 * x20) * x33) + ((x11 * x23) * x30) + ((x13 * x20) * x31) - ((x13 * x21) * x30)) + x03 * (0 - ((x10 * x21) * x32) + ((x10 * x22) * x31) + ((x11 * x20) * x32) - ((x11 * x22) * x30) - ((x12 * x20) * x31) + ((x12 * x21) * x30)),
{
    lemma_mul_is_distributive_sub(x00, (x11 * x22) * x33 - ((x11 * x23) * x32) - ((x12 * x21) * x33) + ((x12 * x23) * x31) + ((x13 * x21) * x32), ((x13 * x22) * x31));
    lemma_mul_is_distributive_add(x00, (x11 * x22) * x33 - ((x11 * x23) * x32) - ((x12 * x21) * x33) + ((x12 * x23) * x31), ((x13 * x21) * x32));
    lemma_mul_is_distributive_add(x00, (x11 * x22) * x33 - ((x11 * x23) * x32) - ((x12 * x21) * x33), ((x12 * x23) * x31));
    lemma_mul_is_distributive_sub(x00, (x11 * x22) * x33 - ((x11 * x23) * x32), ((x12 * x21) * x33));
    lemma_mul_is_distributive_sub(x00, (x11 * x22) * x33, ((x11 * x23) * x32));
    lemma_mul_is_distributive_add(x01, 0 - ((x10 * x22) * x33) + ((x10 * x23) * x32) + ((x12 * x20) * x33) - ((x12 * x23) * x30) - ((x13 * x20) * x32), ((x13 * x22) * x30));
    lemma_mul_is_distributive_sub(x01, 0 - ((x10 * x22) * x33) + ((x10 * x23) * x32) + ((x12 * x20) * x33) - ((x12 * x23) * x30), ((x13 * x20) * x32));
    lemma_mul_is_distributive_sub(x01, 0 - ((x10 * x22) * x33) + ((x10 * x23) * x32) + ((x12 * x20) * x33), ((x12 * x23) * x30));
    lemma_mul_is_distributive_add(x01, 0 - ((x10 * x22) * x33) + ((x10 * x23) * x32), ((x12 * x20) * x33));
    lemma_mul_is_distributive_add(x01, 0 - ((x10 * x22) * x33), ((x10 * x23) * x32));
    lemma_mul_is_distributive_sub(x01, 0, ((x10 * x22) * x33));
    lemma_mul_is_distributive_sub(x02, (x10 * x21) * x33 - ((x10 * x23) * x31) - ((x11 * x20) * x33) + ((x11 * x23) * x30) + ((x13 * x20) * x31), ((x13 * x21) * x30));
    lemma_mul_is_distributive_add(x02, (x10 * x21) * x33 - ((x10 * x23) * x31) - ((x11 * x20) * x33) + ((x11 * x23) * x30), ((x13 * x20) * x31));
    lemma_mul_is_distributive_add(x02, (x10 * x21) * x33 - ((x10 * x23) * x31) - ((x11 * x20) * x33), ((x11 * x23) * x30));
    lemma_mul_is_distributive_sub(x02, (x10 * x21) * x33 - ((x10 * x23) * x31), ((x11 * x20) * x33));
    lemma_mul_is_distributive_sub(x02, (x10 * x21) * x33, ((x10 * x23) * x31));
    lemma_mul_is_distributive_add(x03, 0 - ((x10 * x21) * x32) + ((x10 * x22) * x31) + ((x11 * x20) * x32) - ((x11 * x22) * x30) - ((x12 * x20) * x31), ((x12 * x21) * x30));
    lemma_mul_is_distributive_sub(x03, 0 - ((x10 * x21) * x32) + ((x10 * x22) * x31) + ((x11 * x20) * x32) - ((x11 * x22) * x30), ((x12 * x20) * x31));
    lemma_mul_is_distributive_sub(x03, 0 - ((x10 * x21) * x32) + ((x10 * x22) * x31) + ((x11 * x20) * x32), ((x11 * x22) * x30));
    lemma_mul_is_distributive_add(x03, 0 - ((x10 * x21) * x32) + ((x10 * x22) * x31), ((x11 * x20) * x32));
    lemma_mul_is_distributive_add(x03, 0 - ((x10 * x21) * x32), ((x10 * x22) * x31));
    lemma_mul_is_distributive_sub(x03, 0, ((x10 * x21) * x32));
    lemma_mul_is_distributive_add(x00, 0 - ((x01 * x22) * x33) + ((x01 * x23) * x32) + ((x02 * x21) * x33) - ((x02 * x23) * x31) - ((x03 * x21) * x32), ((x03 * x22) * x31));
    lemma_mul_is_distributive_sub(x00, 0 - ((x01 * x22) * x33) + ((x01 * x23) * x32) + ((x02 * x21) * x33) - ((x02 * x23) * x31), ((x03 * x21) * x32));
    lemma_mul_is_distributive_sub(x00, 0 - ((x01 * x22) * x33) + ((x01 * x23) * x32) + ((x02 * x21) * x33), ((x02 * x23) * x31));
    lemma_mul_is_distributive_add(x00, 0 - ((x01 * x22) * x33) + ((x01 * x23) * x32), ((x02 * x21) * x33));
    lemma_mul_is_distributive_add(x00, 0 - ((x01 * x22) * x33), ((x01 * x23) * x32));
    lemma_mul_is_distributive_sub(x00, 0, ((x01 * x22) * x33));
    lemma_mul_is_distributive_sub(x01, (x00 * x22) * x33 - ((x00 * x23) * x32) - ((x02 * x20) * x33) + ((x02 * x23) * x30) + ((x03 * x20) * x32), ((x03 * x22) * x30));
    lemma_mul_is_distributive_add(x01, (x00 * x22) * x33 - ((x00 * x23) * x32) - ((x02 * x20) * x33) + ((x02 * x23) * x30), ((x03 * x20) * x32));
    lemma_mul_is_distributive_add(x01, (x00 * x22) * x33 - ((x00 * x23) * x32) - ((x02 * x20) * x33), ((x02 * x23) * x30));
    lemma_mul_is_distributive_sub(x01, (x00 * x22) * x33 - ((x00 * x23) * x32), ((x02 * x20) * x33));
    lemma_mul_is_distributive_sub(x01, (x00 * x22) * x33, ((x00 * x23) * x32));
    lemma_mul_is_distributive_add(x02, 0 - ((x00 * x21) * x33) + ((x00 * x23) * x31) + ((x01 * x20) * x33) - ((x01 * x23) * x30) - ((x03 * x20) * x31), ((x03 * x21) * x30));
    lemma_mul_is_distributive_sub(x02, 0 - ((x00 * x21) * x33) + ((x00 * x23) * x31) + ((x01 * x20) * x33) - ((x01 * x23) * x30), ((x03 * x20) * x31));
    lemma_mul_is_distributive_sub(x02, 0 - ((x00 * x21) * x33) + ((x00 * x23) * x31) + ((x01 * x20) * x33), ((x01 * x23) * x30));
    lemma_mul_is_distributive_add(x02, 0 - ((x00 * x21) * x33) + ((x00 * x23) * x31), ((x01 * x20) * x33));
    lemma_mul_is_distributive_add(x02, 0 - ((x00 * x21) * x33), ((x00 * x23) * x31));
    lemma_mul_is_distributive_sub(x02, 0, ((x00 * x21) * x33));
    lemma_mul_is_distributive_sub(x03, (x00 * x21) * x32 - ((x00 * x22) * x31) - ((x01 * x20) * x32) + ((x01 * x22) * x30) + ((x02 * x20) * x31), ((x02 * x21) * x30));
    lemma_mul_is_distributive_add(x03, (x00 * x21) * x32 - ((x00 * x22) * x31) - ((x01 * x20) * x32) + ((x01 * x22) * x30), ((x02 * x20) * x31));
    lemma_mul_is_distributive_add(x03, (x00 * x21) * x32 - ((x00 * x22) * x31) - ((x01 * x20) * x32), ((x01 * x22) * x30));
    lemma_mul_is_distributive_sub(x03, (x00 * x21) * x32 - ((x00 * x22) * x31), ((x01 * x20) * x32));
    lemma_mul_is_distributive_sub(x03, (x00 * x21) * x32, ((x00 * x22) * x31));
    lemma_mul_is_distributive_sub(x00, (x01 * x12) * x33 - ((x01 * x13) * x32) - ((x02 * x11) * x33) + ((x02 * x13) * x31) + ((x03 * x11) * x32), ((x03 * x12) * x31));
    lemma_mul_is_distributive_add(x00, (x01 * x12) * x33 - ((x01 * x13) * x32) - ((x02 * x11) * x33) + ((x02 * x13) * x31), ((x03 * x11) * x32));
    lemma_mul_is_distributive_add(x00, (x01 * x12) * x33 - ((x01 * x13) * x32) - ((x02 * x11) * x33), ((x02 * x13) * x31));
    lemma_mul_is_distributive_sub(x00, (x01 * x12) * x33 - ((x01 * x13) * x32), ((x02 * x11) * x33));
    lemma_mul_is_distributive_sub(x00, (x01 * x12) * x33, ((x01 * x13) * x32));
    lemma_mul_is_distributive_add(x01, 0 - ((x00 * x12) * x33) + ((x00 * x13) * x32) + ((x02 * x10) * x33) - ((x02 * x13) * x30) - ((x03 * x10) * x32), ((x03 * x12) * x30));
    lemma_mul_is_distributive_sub(x01, 0 - ((x00 * x12) * x33) + ((x00 * x13) * x32) + ((x02 * x10) * x33) - ((x02 * x13) * x30), ((x03 * x10) * x32));
    lemma_mul_is_distributive_sub(x01, 0 - ((x00 * x12) * x33) + ((x00 * x13) * x32) + ((x02 * x10) * x33), ((x02 * x13) * x30));
    lemma_mul_is_distributive_add(x01, 0 - ((x00 * x12) * x33) + ((x00 * x13) * x32), ((x02 * x10) * x33));
    lemma_mul_is_distributive_add(x01, 0 - ((x00 * x12) * x33), ((x00 * x13) * x32));
    lemma_mul_is_distributive_sub(x01, 0, ((x00 * x12) * x33));
    lemma_mul_is_distributive_sub(x02, (x00 * x11) * x33 - ((x00 * x13) * x31) - ((x01 * x10) * x33) + ((x01 * x13) * x30) + ((x03 * x10) * x31), ((x03 * x11) * x30));
    lemma_mul_is_distributive_add(x02, (x00 * x11) * x33 - ((x00 * x13) * x31) - ((x01 * x10) * x33) + ((x01 * x13) * x30), ((x03 * x10) * x31));
    lemma_mul_is_distributive_add(x02, (x00 * x11) * x33 - ((x00 * x13) * x31) - ((x01 * x10) * x33), ((x01 * x13) * x30));
    lemma_mul_is_distributive_sub(x02, (x00 * x11) * x33 - ((x00 * x13) * x31), ((x01 * x10) * x33));
    lemma_mul_is_distributive_sub(x02, (x00 * x11) * x33, ((x00 * x13) * x31));
    lemma_mul_is_distributive_add(x03, 0 - ((x00 * x11) * x32) + ((x00 * x12) * x31) + ((x01 * x10) * x32) - ((x01 * x12) * x30) - ((x02 * x10) * x31), ((x02 * x11) * x30));
    lemma_mul_is_distributive_sub(x03, 0 - ((x00 * x11) * x32) + ((x00 * x12) * x31) + ((x01 * x10) * x32) - ((x01 * x12) * x30), ((x02 * x10) * x31));
    lemma_mul_is_distributive_sub(x03, 0 - ((x00 * x11) * x32) + ((x00 * x12) * x31) + ((x01 * x10) * x32), ((x01 * x12) * x30));
    lemma_mul_is_distributive_add(x03, 0 - ((x00 * x11) * x32) + ((x00 * x12) * x31), ((x01 * x10) * x32));
    lemma_mul_is_distributive_add(x03, 0 - ((x00 * x11) * x32), ((x00 * x12) * x31));
    lemma_mul_is_distributive_sub(x03, 0, ((x00 * x11) * x32));
    lemma_mul_is_distributive_add(x00, 0 - ((x01 * x12) * x23) + ((x01 * x13) * x22) + ((x02 * x11) * x23) - ((x02 * x13) * x21) - ((x03 * x11) * x22), ((x03 * x12) * x21));
    lemma_mul_is_distributive_sub(x00, 0 - ((x01 * x12) * x23) + ((x01 * x13) * x22) + ((x02 * x11) * x23) - ((x02 * x13) * x21), ((x03 * x11) * x22));
    lemma_mul_is_distributive_sub(x00, 0 - ((x01 * x12) * x23) + ((x01 * x13) * x22) + ((x02 * x11) * x23), ((x02 * x13) * x21));
    lemma_mul_is_distributive_add(x00, 0 - ((x01 * x12) * x23) + ((x01 * x13) * x22), ((x02 * x11) * x23));
    lemma_mul_is_distributive_add(x00, 0 - ((x01 * x12) * x23), ((x01 * x13) * x22));
    lemma_mul_is_distributive_sub(x00, 0, ((x01 * x12) * x23));
    lemma_mul_is_distributive_sub(x01, (x00 * x12) * x23 - ((x00 * x13) * x22) - ((x02 * x10) * x23) + ((x02 * x13) * x20) + ((x03 * x10) * x22), ((x03 * x12) * x20));
    lemma_mul_is_distributive_add(x01, (x00 * x12) * x23 - ((x00 * x13) * x22) - ((x02 * x10) * x23) + ((x02 * x13) * x20), ((x03 * x10) * x22));
    lemma_mul_is_distributive_add(x01, (x00 * x12) * x23 - ((x00 * x13) * x22) - ((x02 * x10) * x23), ((x02 * x13) * x20));
    lemma_mul_is_distributive_sub(x01, (x00 * x12) * x23 - ((x00 * x13) * x22), ((x02 * x10) * x23));
    lemma_mul_is_distributive_sub(x01, (x00 * x12) * x23, ((x00 * x13) * x22));
    lemma_mul_is_distributive_add(x02, 0 - ((x00 * x11) * x23) + ((x00 * x13) * x21) + ((x01 * x10) * x23) - ((x01 * x13) * x20) - ((x03 * x10) * x21), ((x03 * x11) * x20));
    lemma_mul_is_distributive_sub(x02, 0 - ((x00 * x11) * x23) + ((x00 * x13) * x21) + ((x01 * x10) * x23) - ((x01 * x13) * x20), ((x03 * x10) * x21));
    lemma_mul_is_distributive_sub(x02, 0 - ((x00 * x11) * x23) + ((x00 * x13) * x21) + ((x01 * x10) * x23), ((x01 * x13) * x20));
    lemma_mul_is_distributive_add(x02, 0 - ((x00 * x11) * x23) + ((x00 * x13) * x21), ((x01 * x10) * x23));
    lemma_mul_is_distributive_add(x02, 0 - ((x00 * x11) * x23), ((x00 * x13) * x21));
    lemma_mul_is_distributive_sub(x02, 0, ((x00 * x11) * x23));
    lemma_mul_is_distributive_sub(x03, (x00 * x11) * x22 - ((x00 * x12) * x21) - ((x01 * x10) * x22) + ((x01 * x12) * x20) + ((x02 * x10) * x21), ((x02 * x11) * x20));
    lemma_mul_is_distributive_add(x03, (x00 * x11) * x22 - ((x00 * x12) * x21) - ((x01 * x10) * x22) + ((x01 * x12) * x20), ((x02 * x10) * x21));
    lemma_mul_is_distributive_add(x03, (x00 * x11) * x22 - ((x00 * x12) * x21) - ((x01 * x10) * x22), ((x01 * x12) * x20));
    lemma_mul_is_distributive_sub(x03, (x00 * x11) * x22 - ((x00 * x12) * x21), ((x01 * x10) * x22));
    lemma_mul_is_distributive_sub(x03, (x00 * x11) * x22, ((x00 * x12) * x21));
    lemma_mul_is_distributive_sub(x10, (x11 * x22) * x33 - ((x11 * x23) * x32) - ((x12 * x21) * x33) + ((x12 * x23) * x31) + ((x13 * x21) * x32), ((x13 * x22) * x31));
    lemma_mul_is_distributive_add(x10, (x11 * x22) * x33 - ((x11 * x23) * x32) - ((x12 * x21) * x33) + ((x12 * x23) * x31), ((x13 * x21) * x32));
    lemma_mul_is_distributive_add(x10, (x11 * x22) * x33 - ((x11 * x23) * x32) - ((x12 * x21) * x33), ((x12 * x23) * x31));
    lemma_mul_is_distributive_sub(x10, (x11 * x22) * x33 - ((x11 * x23) * x32), ((x12 * x21) * x33));
    lemma_mul_is_distributive_sub(x10, (x11 * x22) * x33, ((x11 * x23) * x32));
    lemma_mul_is_distributive_add(x11, 0 - ((x10 * x22) * x33) + ((x10 * x23) * x32) + ((x12 * x20) * x33) - ((x12 * x23) * x30) - ((x13 * x20) * x32), ((x13 * x22) * x30));
    lemma_mul_is_distributive_sub(x11, 0 - ((x10 * x22) * x33) + ((x10 * x23) * x32) + ((x12 * x20) * x33) - ((x12 * x23) * x30), ((x13 * x20) * x32));
    lemma_mul_is_distributive_sub(x11, 0 - ((x10 * x22) * x33) + ((x10 * x23) * x32) + ((x12 * x20) * x33), ((x12 * x23) * x30));
    lemma_mul_is_distributive_add(x11, 0 - ((x10 * x22) * x33) + ((x10 * x23) * x32), ((x12 * x20) * x33));
    lemma_mul_is_distributive_add(x11, 0 - ((x10 * x22) * x33), ((x10 * x23) * x32));
    lemma_mul_is_distributive_sub(x11, 0, ((x10 * x22) * x33));
    lemma_mul_is_distributive_sub(x12, (x10 * x21) * x33 - ((x10 * x23) * x31) - ((x11 * x20) * x33) + ((x11 * x23) * x30) + ((x13 * x20) * x31), ((x13 * x21) * x30));
    lemma_mul_is_distributive_add(x12, (x10 * x21) * x33 - ((x10 * x23) * x31) - ((x11 * x20) * x33) + ((x11 * x23) * x30), ((x13 * x20) * x31));
    lemma_mul_is_distributive_add(x12, (x10 * x21) * x33 - ((x10 * x23) * x31) - ((x11 * x20) * x33), ((x11 * x23) * x30));
    lemma_mul_is_distributive_sub(x12, (x10 * x21) * x33 - ((x10 * x23) * x31), ((x11 * x20) * x33));
    lemma_mul_is_distributive_sub(x12, (x10 * x21) * x33, ((x10 * x23) * x31));
    lemma_mul_is_distributive_add(x13, 0 - ((x10 * x21) * x32) + ((x10 * x22) * x31) + ((x11 * x20) * x32) - ((x11 * x22) * x30) - ((x12 * x20) * x31), ((x12 * x21) * x30));
    lemma_mul_is_distributive_sub(x13, 0 - ((x10 * x21) * x32) + ((x10 * x22) * x31) + ((x11 * x20) * x32) - ((x11 * x22) * x30), ((x12 * x20) * x31));
    lemma_mul_is_distributive_sub(x13, 0 - ((x10 * x21) * x32) + ((x10 * x22) * x31) + ((x11 * x20) * x32), ((x11 * x22) * x30));
    lemma_mul_is_distributive_add(x13, 0 - ((x10 * x21) * x32) + ((x10 * x22) * x31), ((x11 * x20) * x32));
    lemma_mul_is_distributive_add(x13, 0 - ((x10 * x21) * x32), ((x10 * x22) * x31));
    lemma_mul_is_distributive_sub(x13, 0, ((x10 * x21) * x32));
    lemma_mul_is_distributive_add(x10, 0 - ((x01 * x22) * x33) + ((x01 * x23) * x32) + ((x02 * x21) * x33) - ((x02 * x23) * x31) - ((x03 * x21) * x32), ((x03 * x22) * x31));
    lemma_mul_is_distributive_sub(x10, 0 - ((x01 * x22) * x33) + ((x01 * x23) * x32) + ((x02 * x21) * x33) - ((x02 * x23) * x31), ((x03 * x21) * x32));
    lemma_mul_is_distributive_sub(x10, 0 - ((x01 * x22) * x33) + ((x01 * x23) * x32) + ((x02 * x21) * x33), ((x02 * x23) * x31));
    lemma_mul_is_distributive_add(x10, 0 - ((x01 * x22) * x33) + ((x01 * x23) * x32), ((x02 * x21) * x33));
    lemma_mul_is_distributive_add(x10, 0 - ((x01 * x22) * x33), ((x01 * x23) * x32));
    lemma_mul_is_distributive_sub(x10, 0, ((x01 * x22) * x33));
    lemma_mul_is_distributive_sub(x11, (x00 * x22) * x33 - ((x00 * x23) * x32) - ((x02 * x20) * x33) + ((x02 * x23) * x30) + ((x03 * x20) * x32), ((x03 * x22) * x30));
    lemma_mul_is_distributive_add(x11, (x00 * x22) * x33 - ((x00 * x23) * x32) - ((x02 * x20) * x33) + ((x02 * x23) * x30), ((x03 * x20) * x32));
    lemma_mul_is_distributive_add(x11, (x00 * x22) * x33 - ((x00 * x23) * x32) - ((x02 * x20) * x33), ((x02 * x23) * x30));
    lemma_mul_is_distributive_sub(x11, (x00 * x22) * x33 - ((x00 * x23) * x32), ((x02 * x20) * x33));
    lemma_mul_is_distributive_sub(x11, (x00 * x22) * x33, ((x00 * x23) * x32));
    lemma_mul_is_distributive_add(x12, 0 - ((x00 * x21) * x33) + ((x00 * x23) * x31) + ((x01 * x20) * x33) - ((x01 * x23) * x30) - ((x03 * x20) * x31), ((x03 * x21) * x30));
    lemma_mul_is_distributive_sub(x12, 0 - ((x00 * x21) * x33) + ((x00 * x23) * x31) + ((x01 * x20) * x33) - ((x01 * x23) * x30), ((x03 * x20) * x31));
    lemma_mul_is_distributive_sub(x12, 0 - ((x00 * x21) * x33) + ((x00 * x23) * x31) + ((x01 * x20) * x33), ((x01 * x23) * x30));
    lemma_mul_is_distributive_add(x12, 0 - ((x00 * x21) * x33) + ((x00 * x23) * x31), ((x01 * x20) * x33));
    lemma_mul_is_distributive_add(x12, 0 - ((x00 * x21) * x33), ((x00 * x23) * x31));
    lemma_mul_is_distributive_sub(x12, 0, ((x00 * x21) * x33));
    lemma_mul_is_distributive_sub(x13, (x00 * x21) * x32 - ((x00 * x22) * x31) - ((x01 * x20) * x32) + ((x01 * x22) * x30) + ((x02 * x20) * x31), ((x02 * x21) * x30));
    lemma_mul_is_distributive_add(x13, (x00 * x21) * x32 - ((x00 * x22) * x31) - ((x01 * x20) * x32) + ((x01 * x22) * x30), ((x02 * x20) * x31));
    lemma_mul_is_distributive_add(x13, (x00 * x21) * x32 - ((x00 * x22) * x31) - ((x01 * x20) * x32), ((x01 * x22) * x30));
    lemma_mul_is_distributive_sub(x13, (x00 * x21) * x32 - ((x00 * x22) * x31), ((x01 * x20) * x32));
    lemma_mul_is_distributive_sub(x13, (x00 * x21) * x32, ((x00 * x22) * x31));
    lemma_mul_is_distributive_sub(x10, (x01 * x12) * x33 - ((x01 * x13) * x32) - ((x02 * x11) * x33) + ((x02 * x13) * x31) + ((x03 * x11) * x32), ((x03 * x12) * x31));
    lemma_mul_is_distributive_add(x10, (x01 * x12) * x33 - ((x01 * x13) * x32) - ((x02 * x11) * x33) + ((x02 * x13) * x31), ((x03 * x11) * x32));
    lemma_mul_is_distributive_add(x10, (x01 * x12) * x33 - ((x01 * x13) * x32) - ((x02 * x11) * x33), ((x02 * x13) * x31));
    lemma_mul_is_distributive_sub(x10, (x01 * x12) * x33 - ((x01 * x13) * x32), ((x02 * x11) * x33));
    lemma_mul_is_distributive_sub(x10, (x01 * x12) * x33, ((x01 * x13) * x32));
    lemma_mul_is_distributive_add(x11, 0 - ((x00 * x12) * x33) + ((x00 * x13) * x32) + ((x02 * x10) * x33) - ((x02 * x13) * x30) - ((x03 * x10) * x32), ((x03 * x12) * x30));
    lemma_mul_is_distributive_sub(x11, 0 - ((x00 * x12) * x33) + ((x00 * x13) * x32) + ((x02 * x10) * x33) - ((x02 * x13) * x30), ((x03 * x10) * x32));
    lemma_mul_is_distributive_sub(x11, 0 - ((x00 * x12) * x33) + ((x00 * x13) * x32) + ((x02 * x10) * x33), ((x02 * x13) * x30));
    lemma_mul_is_distributive_add(x11, 0 - ((x00 * x12) * x33) + ((x00 * x13) * x32), ((x02 * x10) * x33));
    lemma_mul_is_distributive_add(x11, 0 - ((x00 * x12) * x33), ((x00 * x13) * x32));
    lemma_mul_is_distributive_sub(x11, 0, ((x00 * x12) * x33));
    lemma_mul_is_distributive_sub(x12, (x00 * x11) * x33 - ((x00 * x13) * x31) - ((x01 * x10) * x33) + ((x01 * x13) * x30) + ((x03 * x10) * x31), ((x03 * x11) * x30));
    lemma_mul_is_distributive_add(x12, (x00 * x11) * x33 - ((x00 * x13) * x31) - ((x01 * x10) * x33) + ((x01 * x13) * x30), ((x03 * x10) * x31));
    lemma_mul_is_distributive_add(x12, (x00 * x11) * x33 - ((x00 * x13) * x31) - ((x01 * x10) * x33), ((x01 * x13) * x30));
    lemma_mul_is_distributive_sub(x12, (x00 * x11) * x33 - ((x00 * x13) * x31), ((x01 * x10) * x33));
    lemma_mul_is_distributive_sub(x12, (x00 * x11) * x33, ((x00 * x13) * x31));
    lemma_mul_is_distributive_add(x13, 0 - ((x00 * x11) * x32) + ((x00 * x12) * x31) + ((x01 * x10) * x32) - ((x01 * x12) * x30) - ((x02 * x10) * x31), ((x02 * x11) * x30));
    lemma_mul_is_distributive_sub(x13, 0 - ((x00 * x11) * x32) + ((x00 * x12) * x31) + ((x01 * x10) * x32) - ((x01 * x12) * x30), ((x02 * x10) * x31));
    lemma_mul_is_distributive_sub(x13, 0 - ((x00 * x11) * x32) + ((x00 * x12) * x31) + ((x01 * x10) * x32), ((x01 * x12) * x30));
    lemma_mul_is_distributive_add(x13, 0 - ((x00 * x11) * x32) + ((x00 * x12) * x31), ((x01 * x10) * x32));
    lemma_mul_is_distributive_add(x13, 0 - ((x00 * x11) * x32), ((x00 * x12) * x31));
    lemma_mul_is_distributive_sub(x13, 0, ((x00 * x11) * x32));
    lemma_mul_is_distributive_add(x10, 0 - ((x01 * x12) * x23) + ((x01 * x13) * x22) + ((x02 * x11) * x23) - ((x02 * x13) * x21) - ((x03 * x11) * x22), ((x03 * x12) * x21));
    lemma_mul_is_distributive_sub(x10, 0 - ((x01 * x12) * x23) + ((x01 * x13) * x22) + ((x02 * x11) * x23) - ((x02 * x13) * x21), ((x03 * x11) * x22));
    lemma_mul_is_distributive_sub(x10, 0 - ((x01 * x12) * x23) + ((x01 * x13) * x22) + ((x02 * x11) * x23), ((x02 * x13) * x21));
    lemma_mul_is_distributive_add(x10, 0 - ((x01 * x12) * x23) + ((x01 * x13) * x22), ((x02 * x11) * x23));
    lemma_mul_is_distributive_add(x10, 0 - ((x01 * x12) * x23), ((x01 * x13) * x22));
    lemma_mul_is_distributive_sub(x10, 0, ((x01 * x12) * x23));
    lemma_mul_is_distributive_sub(x11, (x00 * x12) * x23 - ((x00 * x13) * x22) - ((x02 * x10) * x23) + ((x02 * x13) * x20) + ((x03 * x10) * x22), ((x03 * x12) * x20));
    lemma_mul_is_distributive_add(x11, (x00 * x12) * x23 - ((x00 * x13) * x22) - ((x02 * x10) * x23) + ((x02 * x13) * x20), ((x03 * x10) * x22));
    lemma_mul_is_distributive_add(x11, (x00 * x12) * x23 - ((x00 * x13) * x22) - ((x02 * x10) * x23), ((x02 * x13) * x20));
    lemma_mul_is_distributive_sub(x11, (x00 * x12) * x23 - ((x00 * x13) * x22), ((x02 * x10) * x23));
    lemma_mul_is_distributive_sub(x11, (x00 * x12) * x23, ((x00 * x13) * x22));
    lemma_mul_is_distributive_add(x12, 0 - ((x00 * x11) * x23) + ((x00 * x13) * x21) + ((x01 * x10) * x23) - ((x01 * x13) * x20) - ((x03 * x10) * x21), ((x03 * x11) * x20));
    lemma_mul_is_distributive_sub(x12, 0 - ((x00 * x11) * x23) + ((x00 * x13) * x21) + ((x01 * x10) * x23) - ((x01 * x13) * x20), ((x03 * x10) * x21));
    lemma_mul_is_distributive_sub(x12, 0 - ((x00 * x11) * x23) + ((x00 * x13) * x21) + ((x01 * x10) * x23), ((x01 * x13) * x20));
    lemma_mul_is_distributive_add(x12, 0 - ((x00 * x11) * x23) + ((x00 * x13) * x21), ((x01 * x10) * x23));
    lemma_mul_is_distributive_add(x12, 0 - ((x00 * x11) * x23), ((x00 * x13) * x21));
    lemma_mul_is_distributive_sub(x12, 0, ((x00 * x11) * x23));
    lemma_mul_is_distributive_sub(x13, (x00 * x11) * x22 - ((x00 * x12) * x21) - ((x01 * x10) * x22) + ((x01 * x12) * x20) + ((x02 * x10) * x21), ((x02 * x11) * x20));
    lemma_mul_is_distributive_add(x13, (x00 * x11) * x22 - ((x00 * x12) * x21) - ((x01 * x10) * x22) + ((x01 * x12) * x20), ((x02 * x10) * x21));
    lemma_mul_is_distributive_add(x13, (x00 * x11) * x22 - ((x00 * x12) * x21) - ((x01 * x10) * x22), ((x01 * x12) * x20));
    lemma_mul_is_distributive_sub(x13, (x00 * x11) * x22 - ((x00 * x12) * x21), ((x01 * x10) * x22));
    lemma_mul_is_distributive_sub(x13, (x00 * x11) * x22, ((x00 * x12) * x21));
    lemma_mul_is_distributive_sub(x20, (x11 * x22) * x33 - ((x11 * x23) * x32) - ((x12 * x21) * x33) + ((x12 * x23) * x31) + ((x13 * x21) * x32), ((x13 * x22) * x31));
    lemma_mul_is_distributive_add(x20, (x11 * x22) * x33 - ((x11 * x23) * x32) - ((x12 * x21) * x33) + ((x12 * x23) * x31), ((x13 * x21) * x32));
    lemma_mul_is_distributive_add(x20, (x11 * x22) * x33 - ((x11 * x23) * x32) - ((x12 * x21) * x33), ((x12 * x23) * x31));
    lemma_mul_is_distributive_sub(x20, (x11 * x22) * x33 - ((x11 * x23) * x32), ((x12 * x21) * x33));
    lemma_mul_is_distributive_sub(x20, (x11 * x22) * x33, ((x11 * x23) * x32));
    lemma_mul_is_distributive_add(x21, 0 - ((x10 * x22) * x33) + ((x10 * x23) * x32) + ((x12 * x20) * x33) - ((x12 * x23) * x30) - ((x13 * x20) * x32), ((x13 * x22) * x30));
    lemma_mul_is_distributive_sub(x21, 0 - ((x10 * x22) * x33) + ((x10 * x23) * x32) + ((x12 * x20) * x33) - ((x12 * x23) * x30), ((x13 * x20) * x32));
    lemma_mul_is_distributive_sub(x21, 0 - ((x10 * x22) * x33) + ((x10 * x23) * x32) + ((x12 * x20) * x33), ((x12 * x23) * x30));
    lemma_mul_is_distributive_add(x21, 0 - ((x10 * x22) * x33) + ((x10 * x23) * x32), ((x12 * x20) * x33));
    lemma_mul_is_distributive_add(x21, 0 - ((x10 * x22) * x33), ((x10 * x23) * x32));
    lemma_mul_is_distributive_sub(x21, 0, ((x10 * x22) * x33));
    lemma_mul_is_distributive_sub(x22, (x10 * x21) * x33 - ((x10 * x23) * x31) - ((x11 * x20) * x33) + ((x11 * x23) * x30) + ((x13 * x20) * x31), ((x13 * x21) * x30));
    lemma_mul_is_distributive_add(x22, (x10 * x21) * x33 - ((x10 * x23) * x31) - ((x11 * x20) * x33) + ((x11 * x23) * x30), ((x13 * x20) * x31));
    lemma_mul_is_distributive_add(x22, (x10 * x21) * x33 - ((x10 * x23) * x31) - ((x11 * x20) * x33), ((x11 * x23) * x30));
    lemma_mul_is_distributive_sub(x22, (x10 * x21) * x33 - ((x10 * x23) * x31), ((x11 * x20) * x33));
    lemma_mul_is_distributive_sub(x22, (x10 * x21) * x33, ((x10 * x23) * x31));
    lemma_mul_is_distributive_add(x23, 0 - ((x10 * x21) * x32) + ((x10 * x22) * x31) + ((x11 * x20) * x32) - ((x11 * x22) * x30) - ((x12 * x20) * x31), ((x12 * x21) * x30));
    lemma_mul_is_distributive_sub(x23, 0 - ((x10 * x21) * x32) + ((x10 * x22) * x31) + ((x11 * x20) * x32) - ((x11 * x22) * x30), ((x12 * x20) * x31));
    lemma_mul_is_distributive_sub(x23, 0 - ((x10 * x21) * x32) + ((x10 * x22) * x31) + ((x11 * x20) * x32), ((x11 * x22) * x30));
    lemma_mul_is_distributive_add(x23, 0 - ((x10 * x21) * x32) + ((x10 * x22) * x31), ((x11 * x20) * x32));
    lemma_mul_is_distributive_add(x23, 0 - ((x10 * x21) * x32), ((x10 * x22) * x31));
    lemma_mul_is_distributive_sub(x23, 0, ((x10 * x21) * x32));
    lemma_mul_is_distributive_add(x20, 0 - ((x01 * x22) * x33) + ((x01 * x23) * x32) + ((x02 * x21) * x33) - ((x02 * x23) * x31) - ((x03 * x21) * x32), ((x03 * x22) * x31));
    lemma_mul_is_distributive_sub(x20, 0 - ((x01 * x22) * x33) + ((x01 * x23) * x32) + ((x02 * x21) * x33) - ((x02 * x23) * x31), ((x03 * x21) * x32));
    lemma_mul_is_distributive_sub(x20, 0 - ((x01 * x22) * x33) + ((x01 * x23) * x32) + ((x02 * x21) * x33), ((x02 * x23) * x31));
    lemma_mul_is_distributive_add(x20, 0 - ((x01 * x22) * x33) + ((x01 * x23) * x32), ((x02 * x21) * x33));
    lemma_mul_is_distributive_add(x20, 0 - ((x01 * x22) * x33), ((x01 * x23) * x32));
    lemma_mul_is_distributive_sub(x20, 0, ((x01 * x22) * x33));
    lemma_mul_is_distributive_sub(x21, (x00 * x22) * x33 - ((x00 * x23) * x32) - ((x02 * x20) * x33) + ((x02 * x23) * x30) + ((x03 * x20) * x32), ((x03 * x22) * x30));
    lemma_mul_is_distributive_add(x21, (x00 * x22) * x33 - ((x00 * x23) * x32) - ((x02 * x20) * x33) + ((x02 * x23) * x30), ((x03 * x20) * x32));
    lemma_mul_is_distributive_add(x21, (x00 * x22) * x33 - ((x00 * x23) * x32) - ((x02 * x20) * x33), ((x02 * x23) * x30));
    lemma_mul_is_distributive_sub(x21, (x00 * x22) * x33 - ((x00 * x23) * x32), ((x02 * x20) * x33));
    lemma_mul_is_distributive_sub(x21, (x00 * x22) * x33, ((x00 * x23) * x32));
    lemma_mul_is_distributive_add(x22, 0 - ((x00 * x21) * x33) + ((x00 * x23) * x31) + ((x01 * x20) * x33) - ((x01 * x23) * x30) - ((x03 * x20) * x31), ((x03 * x21) * x30));
    lemma_mul_is_distributive_sub(x22, 0 - ((x00 * x21) * x33) + ((x00 * x23) * x31) + ((x01 * x20) * x33) - ((x01 * x23) * x30), ((x03 * x20) * x31));
    lemma_mul_is_distributive_sub(x22, 0 - ((x00 * x21) * x33) + ((x00 * x23) * x31) + ((x01 * x20) * x33), ((x01 * x23) * x30));
    lemma_mul_is_distributive_add(x22, 0 - ((x00 * x21) * x33) + ((x00 * x23) * x31), ((x01 * x20) * x33));
    lemma_mul_is_distributive_add(x22, 0 - ((x00 * x21) * x33), ((x00 * x23) * x31));
    lemma_mul_is_distributive_sub(x22, 0, ((x00 * x21) * x33));
    lemma_mul_is_distributive_sub(x23, (x00 * x21) * x32 - ((x00 * x22) * x31) - ((x01 * x20) * x32) + ((x01 * x22) * x30) + ((x02 * x20) * x31), ((x02 * x21) * x30));
    lemma_mul_is_distributive_add(x23, (x00 * x21) * x32 - ((x00 * x22) * x31) - ((x01 * x20) * x32) + ((x01 * x22) * x30), ((x02 * x20) * x31));
    lemma_mul_is_distributive_add(x23, (x00 * x21) * x32 - ((x00 * x22) * x31) - ((x01 * x20) * x32), ((x01 * x22) * x30));
    lemma_mul_is_distributive_sub(x23, (x00 * x21) * x32 - ((x00 * x22) * x31), ((x01 * x20) * x32));
    lemma_mul_is_distributive_sub(x23, (x00 * x21) * x32, ((x00 * x22) * x31));
    lemma_mul_is_distributive_sub(x20, (x01 * x12) * x33 - ((x01 * x13) * x32) - ((x02 * x11) * x33) + ((x02 * x13) * x31) + ((x03 * x11) * x32), ((x03 * x12) * x31));
    lemma_mul_is_distributive_add(x20, (x01 * x12) * x33 - ((x01 * x13) * x32) - ((x02 * x11) * x33) + ((x02 * x13) * x31), ((x03 * x11) * x32));
    lemma_mul_is_distributive_add(x20, (x01 * x12) * x33 - ((x01 * x13) * x32) - ((x02 * x11) * x33), ((x02 * x13) * x31));
    lemma_mul_is_distributive_sub(x20, (x01 * x12) * x33 - ((x01 * x13) * x32), ((x02 * x11) * x33));
    lemma_mul_is_distributive_sub(x20, (x01 * x12) * x33, ((x01 * x13) * x32));
    lemma_mul_is_distributive_add(x21, 0 - ((x00 * x12) * x33) + ((x00 * x13) * x32) + ((x02 * x10) * x33) - ((x02 * x13) * x30) - ((x03 * x10) * x32), ((x03 * x12) * x30));
    lemma_mul_is_distributive_sub(x21, 0 - ((x00 * x12) * x33) + ((x00 * x13) * x32) + ((x02 * x10) * x33) - ((x02 * x13) * x30), ((x03 * x10) * x32));
    lemma_mul_is_distributive_sub(x21, 0 - ((x00 * x12) * x33) + ((x00 * x13) * x32) + ((x02 * x10) * x33), ((x02 * x13) * x30));
    lemma_mul_is_distributive_add(x21, 0 - ((x00 * x12) * x33) + ((x00 * x13) * x32), ((x02 * x10) * x33));
    lemma_mul_is_distributive_add(x21, 0 - ((x00 * x12) * x33), ((x00 * x13) * x32));
    lemma_mul_is_distributive_sub(x21, 0, ((x00 * x12) * x33));
    lemma_mul_is_distributive_sub(x22, (x00 * x11) * x33 - ((x00 * x13) * x31) - ((x01 * x10) * x33) + ((x01 * x13) * x30) + ((x03 * x10) * x31), ((x03 * x11) * x30));
    lemma_mul_is_distributive_add(x22, (x00 * x11) * x33 - ((x00 * x13) * x31) - ((x01 * x10) * x33) + ((x01 * x13) * x30), ((x03 * x10) * x31));
    lemma_mul_is_distributive_add(x22, (x00 * x11) * x33 - ((x00 * x13) * x31) - ((x01 * x10) * x33), ((x01 * x13) * x30));
    lemma_mul_is_distributive_sub(x22, (x00 * x11) * x33 - ((x00 * x13) * x31), ((x01 * x10) * x33));
    lemma_mul_is_distributive_sub(x22, (x00 * x11) * x33, ((x00 * x13) * x31));
    lemma_mul_is_distributive_add(x23, 0 - ((x00 * x11) * x32) + ((x00 * x12) * x31) + ((x01 * x10) * x32) - ((x01 * x12) * x30) - ((x02 * x10) * x31), ((x02 * x11) * x30));
    lemma_mul_is_distributive_sub(x23, 0 - ((x00 * x11) * x32) + ((x00 * x12) * x31) + ((x01 * x10) * x32) - ((x01 * x12) * x30), ((x02 * x10) * x31));
    lemma_mul_is_distributive_sub(x23, 0 - ((x00 * x11) * x32) + ((x00 * x12) * x31) + ((x01 * x10) * x32), ((x01 * x12) * x30));
    lemma_mul_is_distributive_add(x23, 0 - ((x00 * x11) * x32) + ((x00 * x12) * x31), ((x01 * x10) * x32));
    lemma_mul_is_distributive_add(x23, 0 - ((x00 * x11) * x32), ((x00 * x12) * x31));
    lemma_mul_is_distributive_sub(x23, 0, ((x00 * x11) * x32));
    lemma_mul_is_distributive_add(x20, 0 - ((x01 * x12) * x23) + ((x01 * x13) * x22) + ((x02 * x11) * x23) - ((x02 * x13) * x21) - ((x03 * x11) * x22), ((x03 * x12) * x21));
    lemma_mul_is_distributive_sub(x20, 0 - ((x01 * x12) * x23) + ((x01 * x13) * x22) + ((x02 * x11) * x23) - ((x02 * x13) * x21), ((x03 * x11) * x22));
    lemma_mul_is_distributive_sub(x20, 0 - ((x01 * x12) * x23) + ((x01 * x13) * x22) + ((x02 * x11) * x23), ((x02 * x13) * x21));
    lemma_mul_is_distributive_add(x20, 0 - ((x01 * x12) * x23) + ((x01 * x13) * x22), ((x02 * x11) * x23));
    lemma_mul_is_distributive_add(x20, 0 - ((x01 * x12) * x23), ((x01 * x13) * x22));
    lemma_mul_is_distributive_sub(x20, 0, ((x01 * x12) * x23));
    lemma_mul_is_distributive_sub(x21, (x00 * x12) * x23 - ((x00 * x13) * x22) - ((x02 * x10) * x23) + ((x02 * x13) * x20) + ((x03 * x10) * x22), ((x03 * x12) * x20));
    lemma_mul_is_distributive_add(x21, (x00 * x12) * x23 - ((x00 * x13) * x22) - ((x02 * x10) * x23) + ((x02 * x13) * x20), ((x03 * x10) * x22));
    lemma_mul_is_distributive_add(x21, (x00 * x12) * x23 - ((x00 * x13) * x22) - ((x02 * x10) * x23), ((x02 * x13) * x20));
    lemma_mul_is_distributive_sub(x21, (x00 * x12) * x23 - ((x00 * x13) * x22), ((x02 * x10) * x23));
    lemma_mul_is_distributive_sub(x21, (x00 * x12) * x23, ((x00 * x13) * x22));
    lemma_mul_is_distributive_add(x22, 0 - ((x00 * x11) * x23) + ((x00 * x13) * x21) + ((x01 * x10) * x23) - ((x01 * x13) * x20) - ((x03 * x10) * x21), ((x03 * x11) * x20));
    lemma_mul_is_distributive_sub(x22, 0 - ((x00 * x11) * x23) + ((x00 * x13) * x21) + ((x01 * x10) * x23) - ((x01 * x13) * x20), ((x03 * x10) * x21));
    lemma_mul_is_distributive_sub(x22, 0 - ((x00 * x11) * x23) + ((x00 * x13) * x21) + ((x01 * x10) * x23), ((x01 * x13) * x20));
    lemma_mul_is_distributive_add(x22, 0 - ((x00 * x11) * x23) + ((x00 * x13) * x21), ((x01 * x10) * x23));
    lemma_mul_is_distributive_add(x22, 0 - ((x00 * x11) * x23), ((x00 * x13) * x21));
    lemma_mul_is_distributive_sub(x22, 0, ((x00 * x11) * x23));
    lemma_mul_is_distributive_sub(x23, (x00 * x11) * x22 - ((x00 * x12) * x21) - ((x01 * x10) * x22) + ((x01 * x12) * x20) + ((x02 * x10) * x21), ((x02 * x11) * x20));
    lemma_mul_is_distributive_add(x23, (x00 * x11) * x22 - ((x00 * x12) * x21) - ((x01 * x10) * x22) + ((x01 * x12) * x20), ((x02 * x10) * x21));
    lemma_mul_is_distributive_add(x23, (x00 * x11) * x22 - ((x00 * x12) * x21) - ((x01 * x10) * x22), ((x01 * x12) * x20));
    lemma_mul_is_distributive_sub(x23, (x00 * x11) * x22 - ((x00 * x12) * x21), ((x01 * x10) * x22));
    lemma_mul_is_distributive_sub(x23, (x00 * x11) * x22, ((x00 * x12) * x21));
    lemma_mul_is_distributive_sub(x30, (x11 * x22) * x33 - ((x11 * x23) * x32) - ((x12 * x21) * x33) + ((x12 * x23) * x31) + ((x13 * x21) * x32), ((x13 * x22) * x31));
    lemma_mul_is_distributive_add(x30, (x11 * x22) * x33 - ((x11 * x23) * x32) - ((x12 * x21) * x33) + ((x12 * x23) * x31), ((x13 * x21) * x32));
    lemma_mul_is_distributive_add(x30, (x11 * x22) * x33 - ((x11 * x23) * x32) - ((x12 * x21) * x33), ((x12 * x23) * x31));
    lemma_mul_is_distributive_sub(x30, (x11 * x22) * x33 - ((x11 * x23) * x32), ((x12 * x21) * x33));
    lemma_mul_is_distributive_sub(x30, (x11 * x22) * x33, ((x11 * x23) * x32));
    lemma_mul_is_distributive_add(x31, 0 - ((x10 * x22) * x33) + ((x10 * x23) * x32) + ((x12 * x20) * x33) - ((x12 * x23) * x30) - ((x13 * x20) * x32), ((x13 * x22) * x30));
    lemma_mul_is_distributive_sub(x31, 0 - ((x10 * x22) * x33) + ((x10 * x23) * x32) + ((x12 * x20) * x33) - ((x12 * x23) * x30), ((x13 * x20) * x32));
    lemma_mul_is_distributive_sub(x31, 0 - ((x10 * x22) * x33) + ((x10 * x23) * x32) + ((x12 * x20) * x33), ((x12 * x23) * x30));
    lemma_mul_is_distributive_add(x31, 0 - ((x10 * x22) * x33) + ((x10 * x23) * x32), ((x12 * x20) * x33));
    lemma_mul_is_distributive_add(x31, 0 - ((x10 * x22) * x33), ((x10 * x23) * x32));
    lemma_mul_is_distributive_sub(x31, 0, ((x10 * x22) * x33));
    lemma_mul_is_distributive_sub(x32, (x10 * x21) * x33 - ((x10 * x23) * x31) - ((x11 * x20) * x33) + ((x11 * x23) * x30) + ((x13 * x20) * x31), ((x13 * x21) * x30));
    lemma_mul_is_distributive_add(x32, (x10 * x21) * x33 - ((x10 * x23) * x31) - ((x11 * x20) * x33) + ((x11 * x23) * x30), ((x13 * x20) * x31));
    lemma_mul_is_distributive_add(x32, (x10 * x21) * x33 - ((x10 * x23) * x31) - ((x11 * x20) * x33), ((x11 * x23) * x30));
    lemma_mul_is_distributive_sub(x32, (x10 * x21) * x33 - ((x10 * x23) * x31), ((x11 * x20) * x33));
    lemma_mul_is_distributive_sub(x32, (x10 * x21) * x33, ((x10 * x23) * x31));
    lemma_mul_is_distributive_add(x33, 0 - ((x10 * x21) * x32) + ((x10 * x22) * x31) + ((x11 * x20) * x32) - ((x11 * x22) * x30) - ((x12 * x20) * x31), ((x12 * x21) * x30));
    lemma_mul_is_distributive_sub(x33, 0 - ((x10 * x21) * x32) + ((x10 * x22) * x31) + ((x11 * x20) * x32) - ((x11 * x22) * x30), ((x12 * x20) * x31));
    lemma_mul_is_distributive_sub(x33, 0 - ((x10 * x21) * x32) + ((x10 * x22) * x31) + ((x11 * x20) * x32), ((x11 * x22) * x30));
    lemma_mul_is_distributive_add(x33, 0 - ((x10 * x21) * x32) + ((x10 * x22) * x31), ((x11 * x20) * x32));
    lemma_mul_is_distributive_add(x33, 0 - ((x10 * x21) * x32), ((x10 * x22) * x31));
    lemma_mul_is_distributive_sub(x33, 0, ((x10 * x21) * x32));
    lemma_mul_is_distributive_add(x30, 0 - ((x01 * x22) * x33) + ((x01 * x23) * x32) + ((x02 * x21) * x33) - ((x02 * x23) * x31) - ((x03 * x21) * x32), ((x03 * x22) * x31));
    lemma_mul_is_distributive_sub(x30, 0 - ((x01 * x22) * x33) + ((x01 * x23) * x32) + ((x02 * x21) * x33) - ((x02 * x23) * x31), ((x03 * x21) * x32));
    lemma_mul_is_distributive_sub(x30, 0 - ((x01 * x22) * x33) + ((x01 * x23) * x32) + ((x02 * x21) * x33), ((x02 * x23) * x31));
    lemma_mul_is_distributive_add(x30, 0 - ((x01 * x22) * x33) + ((x01 * x23) * x32), ((x02 * x21) * x33));
    lemma_mul_is_distributive_add(x30, 0 - ((x01 * x22) * x33), ((x01 * x23) * x32));
    lemma_mul_is_distributive_sub(x30, 0, ((x01 * x22) * x33));
    lemma_mul_is_distributive_sub(x31, (x00 * x22) * x33 - ((x00 * x23) * x32) - ((x02 * x20) * x33) + ((x02 * x23) * x30) + ((x03 * x20) * x32), ((x03 * x22) * x30));
    lemma_mul_is_distributive_add(x31, (x00 * x22) * x33 - ((x00 * x23) * x32) - ((x02 * x20) * x33) + ((x02 * x23) * x30), ((x03 * x20) * x32));
    lemma_mul_is_distributive_add(x31, (x00 * x22) * x33 - ((x00 * x23) * x32) - ((x02 * x20) * x33), ((x02 * x23) * x30));
    lemma_mul_is_distributive_sub(x31, (x00 * x22) * x33 - ((x00 * x23) * x32), ((x02 * x20) * x33));
    lemma_mul_is_distributive_sub(x31, (x00 * x22) * x33, ((x00 * x23) * x32));
    lemma_mul_is_distributive_add(x32, 0 - ((x00 * x21) * x33) + ((x00 * x23) * x31) + ((x01 * x20) * x33) - ((x01 * x23) * x30) - ((x03 * x20) * x31), ((x03 * x21) * x30));
    lemma_mul_is_distributive_sub(x32, 0 - ((x00 * x21) * x33) + ((x00 * x23) * x31) + ((x01 * x20) * x33) - ((x01 * x23) * x30), ((x03 * x20) * x31));
    lemma_mul_is_distributive_sub(x32, 0 - ((x00 * x21) * x33) + ((x00 * x23) * x31) + ((x01 * x20) * x33), ((x01 * x23) * x30));
    lemma_mul_is_distributive_add(x32, 0 - ((x00 * x21) * x33) + ((x00 * x23) * x31), ((x01 * x20) * x33));
    lemma_mul_is_distributive_add(x32, 0 - ((x00 * x21) * x33), ((x00 * x23) * x31));
    lemma_mul_is_distributive_sub(x32, 0, ((x00 * x21) * x33));
    lemma_mul_is_distributive_sub(x33, (x00 * x21) * x32 - ((x00 * x22) * x31) - ((x01 * x20) * x32) + ((x01 * x22) * x30) + ((x02 * x20) * x31), ((x02 * x21) * x30));
    lemma_mul_is_distributive_add(x33, (x00 * x21) * x32 - ((x00 * x22) * x31) - ((x01 * x20) * x32) + ((x01 * x22) * x30), ((x02 * x20) * x31));
    lemma_mul_is_distributive_add(x33, (x00 * x21) * x32 - ((x00 * x22) * x31) - ((x01 * x20) * x32), ((x01 * x22) * x30));
    lemma_mul_is_distributive_sub(x33, (x00 * x21) * x32 - ((x00 * x22) * x31), ((x01 * x20) * x32));
    lemma_mul_is_distributive_sub(x33, (x00 * x21) * x32, ((x00 * x22) * x31));
    lemma_mul_is_distributive_sub(x30, (x01 * x12) * x33 - ((x01 * x13) * x32) - ((x02 * x11) * x33) + ((x02 * x13) * x31) + ((x03 * x11) * x32), ((x03 * x12) * x31));
    lemma_mul_is_distributive_add(x30, (x01 * x12) * x33 - ((x01 * x13) * x32) - ((x02 * x11) * x33) + ((x02 * x13) * x31), ((x03 * x11) * x32));
    lemma_mul_is_distributive_add(x30, (x01 * x12) * x33 - ((x01 * x13) * x32) - ((x02 * x11) * x33), ((x02 * x13) * x31));
    lemma_mul_is_distributive_sub(x30, (x01 * x12) * x33 - ((x01 * x13) * x32), ((x02 * x11) * x33));
    lemma_mul_is_distributive_sub(x30, (x01 * x12) * x33, ((x01 * x13) * x32));
    lemma_mul_is_distributive_add(x31, 0 - ((x00 * x12) * x33) + ((x00 * x13) * x32) + ((x02 * x10) * x33) - ((x02 * x13) * x30) - ((x03 * x10) * x32), ((x03 * x12) * x30));
    lemma_mul_is_distributive_sub(x31, 0 - ((x00 * x12) * x33) + ((x00 * x13) * x32) + ((x02 * x10) * x33) - ((x02 * x13) * x30), ((x03 * x10) * x32));
    lemma_mul_is_distributive_sub(x31, 0 - ((x00 * x12) * x33) + ((x00 * x13) * x32) + ((x02 * x10) * x33), ((x02 * x13) * x30));
    lemma_mul_is_distributive_add(x31, 0 - ((x00 * x12) * x33) + ((x00 * x13) * x32), ((x02 * x10) * x33));
    lemma_mul_is_distributive_add(x31, 0 - ((x00 * x12) * x33), ((x00 * x13) * x32));
    lemma_mul_is_distributive_sub(x31, 0, ((x00 * x12) * x33));
    lemma_mul_is_distributive_sub(x32, (x00 * x11) * x33 - ((x00 * x13) * x31) - ((x01 * x10) * x33) + ((x01 * x13) * x30) + ((x03 * x10) * x31), ((x03 * x11) * x30));
    lemma_mul_is_distributive_add(x32, (x00 * x11) * x33 - ((x00 * x13) * x31) - ((x01 * x10) * x33) + ((x01 * x13) * x30), ((x03 * x10) * x31));
    lemma_mul_is_distributive_add(x32, (x00 * x11) * x33 - ((x00 * x13) * x31) - ((x01 * x10) * x33), ((x01 * x13) * x30));
    lemma_mul_is_distributive_sub(x32, (x00 * x11) * x33 - ((x00 * x13) * x31), ((x01 * x10) * x33));
    lemma_mul_is_distributive_sub(x32, (x00 * x11) * x33, ((x00 * x13) * x31));
    lemma_mul_is_distributive_add(x33, 0 - ((x00 * x11) * x32) + ((x00 * x12) * x31) + ((x01 * x10) * x32) - ((x01 * x12) * x30) - ((x02 * x10) * x31), ((x02 * x11) * x30));
    lemma_mul_is_distributive_sub(x33, 0 - ((x00 * x11) * x32) + ((x00 * x12) * x31) + ((x01 * x10) * x32) - ((x01 * x12) * x30), ((x02 * x10) * x31));
    lemma_mul_is_distributive_sub(x33, 0 - ((x00 * x11) * x32) + ((x00 * x12) * x31) + ((x01 * x10) * x32), ((x01 * x12) * x30));
    lemma_mul_is_distributive_add(x33, 0 - ((x00 * x11) * x32) + ((x00 * x12) * x31), ((x01 * x10) * x32));
    lemma_mul_is_distributive_add(x33, 0 - ((x00 * x11) * x32), ((x00 * x12) * x31));
    lemma_mul_is_distributive_sub(x33, 0, ((x00 * x11) * x32));
    lemma_mul_is_distributive_add(x30, 0 - ((x01 * x12) * x23) + ((x01 * x13) * x22) + ((x02 * x11) * x23) - ((x02 * x13) * x21) - ((x03 * x11) * x22), ((x03 * x12) * x21));
    lemma_mul_is_distributive_sub(x30, 0 - ((x01 * x12) * x23) + ((x01 * x13) * x22) + ((x02 * x11) * x23) - ((x02 * x13) * x21), ((x03 * x11) * x22));
    lemma_mul_is_distributive_sub(x30, 0 - ((x01 * x12) * x23) + ((x01 * x13) * x22) + ((x02 * x11) * x23), ((x02 * x13) * x21));
    lemma_mul_is_distributive_add(x30, 0 - ((x01 * x12) * x23) + ((x01 * x13) * x22), ((x02 * x11) * x23));
    lemma_mul_is_distributive_add(x30, 0 - ((x01 * x12) * x23), ((x01 * x13) * x22));
    lemma_mul_is_distributive_sub(x30, 0, ((x01 * x12) * x23));
    lemma_mul_is_distributive_sub(x31, (x00 * x12) * x23 - ((x00 * x13) * x22) - ((x02 * x10) * x23) + ((x02 * x13) * x20) + ((x03 * x10) * x22), ((x03 * x12) * x20));
    lemma_mul_is_distributive_add(x31, (x00 * x12) * x23 - ((x00 * x13) * x22) - ((x02 * x10) * x23) + ((x02 * x13) * x20), ((x03 * x10) * x22));
    lemma_mul_is_distributive_add(x31, (x00 * x12) * x23 - ((x00 * x13) * x22) - ((x02 * x10) * x23), ((x02 * x13) * x20));
    lemma_mul_is_distributive_sub(x31, (x00 * x12) * x23 - ((x00 * x13) * x22), ((x02 * x10) * x23));
    lemma_mul_is_distributive_sub(x31, (x00 * x12) * x23, ((x00 * x13) * x22));
    lemma_mul_is_distributive_add(x32, 0 - ((x00 * x11) * x23) + ((x00 * x13) * x21) + ((x01 * x10) * x23) - ((x01 * x13) * x20) - ((x03 * x10) * x21), ((x03 * x11) * x20));
    lemma_mul_is_distributive_sub(x32, 0 - ((x00 * x11) * x23) + ((x00 * x13) * x21) + ((x01 * x10) * x23) - ((x01 * x13) * x20), ((x03 * x10) * x21));
    lemma_mul_is_distributive_sub(x32, 0 - ((x00 * x11) * x23) + ((x00 * x13) * x21) + ((x01 * x10) * x23), ((x01 * x13) * x20));
    lemma_mul_is_distributive_add(x32, 0 - ((x00 * x11) * x23) + ((x00 * x13) * x21), ((x01 * x10) * x23));
    lemma_mul_is_distributive_add(x32, 0 - ((x00 * x11) * x23), ((x00 * x13) * x21));
    lemma_mul_is_distributive_sub(x32, 0, ((x00 * x11) * x23));
    lemma_mul_is_distributive_sub(x33, (x00 * x11) * x22 - ((x00 * x12) * x21) - ((x01 * x10) * x22) + ((x01 * x12) * x20) + ((x02 * x10) * x21), ((x02 * x11) * x20));
    lemma_mul_is_distributive_add(x33, (x00 * x11) * x22 - ((x00 * x12) * x21) - ((x01 * x10) * x22) + ((x01 * x12) * x20), ((x02 * x10) * x21));
    lemma_mul_is_distributive_add(x33, (x00 * x11) * x22 - ((x00 * x12) * x21) - ((x01 * x10) * x22), ((x01 * x12) * x20));
    lemma_mul_is_distributive_sub(x33, (x00 * x11) * x22 - ((x00 * x12) * x21), ((x01 * x10) * x22));
    lemma_mul_is_distributive_sub(x33, (x00 * x11) * x22, ((x00 * x12) * x21));
    assert(x00 * ((x11 * x22) * x33) == ((x00 * x11) * x22) * x33) by (nonlinear_arith);
    assert(x00 * ((x11 * x23) * x32) == ((x00 * x11) * x23) * x32) by (nonlinear_arith);
    assert(x00 * ((x12 * x21) * x33) == ((x00 * x12) * x21) * x33) by (nonlinear_arith);
    assert(x00 * ((x12 * x23) * x31) == ((x00 * x12) * x23) * x31) by (nonlinear_arith);
    assert(x00 * ((x13 * x21) * x32) == ((x00 * x13) * x21) * x32) by (nonlinear_arith);
    assert(x00 * ((x13 * x22) * x31) == ((x00 * x13) * x22) * x31) by (nonlinear_arith);
    assert(x01 * ((x10 * x22) * x33) == ((x01 * x10) * x22) * x33) by (nonlinear_arith);
    assert(x01 * ((x10 * x23) * x32) == ((x01 * x10) * x23) * x32) by (nonlinear_arith);
    assert(x01 * ((x12 * x20) * x33) == ((x01 * x12) * x20) * x33) by (nonlinear_arith);
    assert(x01 * ((x12 * x23) * x30) == ((x01 * x12) * x23) * x30) by (nonlinear_arith);
    assert(x01 * ((x13 * x20) * x32) == ((x01 * x13) * x20) * x32) by (nonlinear_arith);
    assert(x01 * ((x13 * x22) * x30) == ((x01 * x13) * x22) * x30) by (nonlinear_arith);
    assert(x02 * ((x10 * x21) * x33) == ((x02 * x10) * x21) * x33) by (nonlinear_arith);
    assert(x02 * ((x10 * x23) * x31) == ((x02 * x10) * x23) * x31) by (nonlinear_arith);
    assert(x02 * ((x11 * x20) * x33) == ((x02 * x11) * x20) * x33) by (nonlinear_arith);
    assert(x02 * ((x11 * x23) * x30) == ((x02 * x11) * x23) * x30) by (nonlinear_arith);
    assert(x02 * ((x13 * x20) * x31) == ((x02 * x13) * x20) * x31) by (nonlinear_arith);
    assert(x02 * ((x13 * x21) * x30) == ((x02 * x13) * x21) * x30) by (nonlinear_arith);
    assert(x03 * ((x10 * x21) * x32) == ((x03 * x10) * x21) * x32) by (nonlinear_arith);
    assert(x03 * ((x10 * x22) * x31) == ((x03 * x10) * x22) * x31) by (nonlinear_arith);
    assert(x03 * ((x11 * x20) * x32) == ((x03 * x11) * x20) * x32) by (nonlinear_arith);
    assert(x03 * ((x11 * x22) * x30) == ((x03 * x11) * x22) * x30) by (nonlinear_arith);
    assert(x03 * ((x12 * x20) * x31) == ((x03 * x12) * x20) * x31) by (nonlinear_arith);
    assert(x03 * ((x12 * x21) * x30) == ((x03 * x12) * x21) * x30) by (nonlinear_arith);
    assert(x00 * ((x01 * x22) * x33) == ((x00 * x01) * x22) * x33) by (nonlinear_arith);
    assert(x00 * ((x01 * x23) * x32) == ((x00 * x01) * x23) * x32) by (nonlinear_arith);
    assert(x00 * ((x02 * x21) * x33) == ((x00 * x02) * x21) * x33) by (nonlinear_arith);
    assert(x00 * ((x02 * x23) * x31) == ((x00 * x02) * x23) * x31) by (nonlinear_arith);
    assert(x00 * ((x03 * x21) * x32) == ((x00 * x03) * x21) * x32) by (nonlinear_arith);
    assert(x00 * ((x03 * x22) * x31) == ((x00 * x03) * x22) * x31) by (nonlinear_arith);
    assert(x01 * ((x00 * x22) * x33) == ((x00 * x01) * x22) * x33) by (nonlinear_arith);
    assert(x01 * ((x00 * x23) * x32) == ((x00 * x01) * x23) * x32) by (nonlinear_arith);
    assert(x01 * ((x02 * x20) * x33) == ((x01 * x02) * x20) * x33) by (nonlinear_arith);
    assert(x01 * ((x02 * x23) * x30) == ((x01 * x02) * x23) * x30) by (nonlinear_arith);
    assert(x01 * ((x03 * x20) * x32) == ((x01 * x03) * x20) * x32) by (nonlinear_arith);
    assert(x01 * ((x03 * x22) * x30) == ((x01 * x03) * x22) * x30) by (nonlinear_arith);
    assert(x02 * ((x00 * x21) * x33) == ((x00 * x02) * x21) * x33) by (nonlinear_arith);
    assert(x02 * ((x00 * x23) * x31) == ((x00 * x02) * x23) * x31) by (nonlinear_arith);
    assert(x02 * ((x01 * x20) * x33) == ((x01 * x02) * x20) * x33) by (nonlinear_arith);
    assert(x02 * ((x01 * x23) * x30) == ((x01 * x02) * x23) * x30) by (nonlinear_arith);
    assert(x02 * ((x03 * x20) * x31) == ((x02 * x03) * x20) * x31) by (nonlinear_arith);
    assert(x02 * ((x03 * x21) * x30) == ((x02 * x03) * x21) * x30) by (nonlinear_arith);
    assert(x03 * ((x00 * x21) * x32) == ((x00 * x03) * x21) * x32) by (nonlinear_arith);
    assert(x03 * ((x00 * x22) * x31) == ((x00 * x03) * x22) * x31) by (nonlinear_arith);
    assert(x03 * ((x01 * x20) * x32) == ((x01 * x03) * x20) * x32) by (nonlinear_arith);
    assert(x03 * ((x01 * x22) * x30) == ((x01 * x03) * x22) * x30) by (nonlinear_arith);
    assert(x03 * ((x02 * x20) * x31) == ((x02 * x03) * x20) * x31) by (nonlinear_arith);
    assert(x03 * ((x02 * x21) * x30) == ((x02 * x03) * x21) * x30) by (nonlinear_arith);
    assert(x00 * ((x01 * x12) * x33) == ((x00 * x01) * x12) * x33) by (nonlinear_arith);
    assert(x00 * ((x01 * x13) * x32) == ((x00 * x01) * x13) * x32) by (nonlinear_arith);
    assert(x00 * ((x02 * x11) * x33) == ((x00 * x02) * x11) * x33) by (nonlinear_arith);
    assert(x00 * ((x02 * x13) * x31) == ((x00 * x02) * x13) * x31) by (nonlinear_arith);
    assert(x00 * ((x03 * x11) * x32) == ((x00 * x03) * x11) * x32) by (nonlinear_arith);
    assert(x00 * ((x03 * x12) * x31) == ((x00 * x03) * x12) * x31) by (nonlinear_arith);
    assert(x01 * ((x00 * x12) * x33) == ((x00 * x01) * x12) * x33) by (nonlinear_arith);
    assert(x01 * ((x00 * x13) * x32) == ((x00 * x01) * x13) * x32) by (nonlinear_arith);
    assert(x01 * ((x02 * x10) * x33) == ((x01 * x02) * x10) * x33) by (nonlinear_arith);
    assert(x01 * ((x02 * x13) * x30) == ((x01 * x02) * x13) * x30) by (nonlinear_arith);
    assert(x01 * ((x03 * x10) * x32) == ((x01 * x03) * x10) * x32) by (nonlinear_arith);
    assert(x01 * ((x03 * x12) * x30) == ((x01 * x03) * x12) * x30) by (nonlinear_arith);
    assert(x02 * ((x00 * x11) * x33) == ((x00 * x02) * x11) * x33) by (nonlinear_arith);
    assert(x02 * ((x00 * x13) * x31) == ((x00 * x02) * x13) * x31) by (nonlinear_arith);
    assert(x02 * ((x01 * x10) * x33) == ((x01 * x02) * x10) * x33) by (nonlinear_arith);
    assert(x02 * ((x01 * x13) * x30) == ((x01 * x02) * x13) * x30) by (nonlinear_arith);
    assert(x02 * ((x03 * x10) * x31) == ((x02 * x03) * x10) * x31) by (nonlinear_arith);
    assert(x02 * ((x03 * x11) * x30) == ((x02 * x03) * x11) * x30) by (nonlinear_arith);
    assert(x03 * ((x00 * x11) * x32) == ((x00 * x03) * x11) * x32) by (nonlinear_arith);
    assert(x03 * ((x00 * x12) * x31) == ((x00 * x03) * x12) * x31) by (nonlinear_arith);
    assert(x03 * ((x01 * x10) * x32) == ((x01 * x03) * x10) * x32) by (nonlinear_arith);
    assert(x03 * ((x01 * x12) * x30) == ((x01 * x03) * x12) * x30) by (nonlinear_arith);
    assert(x03 * ((x02 * x10) * x31) == ((x02 * x03) * x10) * x31) by (nonlinear_arith);
    assert(x03 * ((x02 * x11) * x30) == ((x02 * x03) * x11) * x30) by (nonlinear_arith);
    assert(x00 * ((x01 * x12) * x23) == ((x00 * x01) * x12) * x23) by (nonlinear_arith);
    assert(x00 * ((x01 * x13) * x22) == ((x00 * x01) * x13) * x22) by (nonlinear_arith);
    assert(x00 * ((x02 * x11) * x23) == ((x00 * x02) * x11) * x23) by (nonlinear_arith);
    assert(x00 * ((x02 * x13) * x21) == ((x00 * x02) * x13) * x21) by (nonlinear_arith);
    assert(x00 * ((x03 * x11) * x22) == ((x00 * x03) * x11) * x22) by (nonlinear_arith);
    assert(x00 * ((x03 * x12) * x21) == ((x00 * x03) * x12) * x21) by (nonlinear_arith);
    assert(x01 * ((x00 * x12) * x23) == ((x00 * x01) * x12) * x23) by (nonlinear_arith);
    assert(x01 * ((x00 * x13) * x22) == ((x00 * x01) * x13) * x22) by (nonlinear_arith);
    assert(x01 * ((x02 * x10) * x23) == ((x01 * x02) * x10) * x23) by (nonlinear_arith);
    assert(x01 * ((x02 * x13) * x20) == ((x01 * x02) * x13) * x20) by (nonlinear_arith);
    assert(x01 * ((x03 * x10) * x22) == ((x01 * x03) * x10) * x22) by (nonlinear_arith);
    assert(x01 * ((x03 * x12) * x20) == ((x01 * x03) * x12) * x20) by (nonlinear_arith);
    assert(x02 * ((x00 * x11) * x23) == ((x00 * x02) * x11) * x23) by (nonlinear_arith);
    assert(x02 * ((x00 * x13) * x21) == ((x00 * x02) * x13) * x21) by (nonlinear_arith);
    assert(x02 * ((x01 * x10) * x23) == ((x01 * x02) * x10) * x23) by (nonlinear_arith);
    assert(x02 * ((x01 * x13) * x20) == ((x01 * x02) * x13) * x20) by (nonlinear_arith);
    assert(x02 * ((x03 * x10) * x21) == ((x02 * x03) * x10) * x21) by (nonlinear_arith);
    assert(x02 * ((x03 * x11) * x20) == ((x02 * x03) * x11) * x20) by (nonlinear_arith);
    assert(x03 * ((x00 * x11) * x22) == ((x00 * x03) * x11) * x22) by (nonlinear_arith);
    assert(x03 * ((x00 * x12) * x21) == ((x00 * x03) * x12) * x21) by (nonlinear_arith);
    assert(x03 * ((x01 * x10) * x22) == ((x01 * x03) * x10) * x22) by (nonlinear_arith);
    assert(x03 * ((x01 * x12) * x20) == ((x01 * x03) * x12) * x20) by (nonlinear_arith);
    assert(x03 * ((x02 * x10) * x21) == ((x02 * x03) * x10) * x21) by (nonlinear_arith);
    assert(x03 * ((x02 * x11) * x20) == ((x02 * x03) * x11) * x20) by (nonlinear_arith);
    assert(x10 * ((x11 * x22) * x33) == ((x10 * x11) * x22) * x33) by (nonlinear_arith);
    assert(x10 * ((x11 * x23) * x32) == ((x10 * x11) * x23) * x32) by (nonlinear_arith);
    assert(x10 * ((x12 * x21) * x33) == ((x10 * x12) * x21) * x33) by (nonlinear_arith);
    assert(x10 * ((x12 * x23) * x31) == ((x10 * x12) * x23) * x31) by (nonlinear_arith);
    assert(x10 * ((x13 * x21) * x32) == ((x10 * x13) * x21) * x32) by (nonlinear_arith);
    assert(x10 * ((x13 * x22) * x31) == ((x10 * x13) * x22) * x31) by (nonlinear_arith);
    assert(x11 * ((x10 * x22) * x33) == ((x10 * x11) * x22) * x33) by (nonlinear_arith);
    assert(x11 * ((x10 * x23) * x32) == ((x10 * x11) * x23) * x32) by (nonlinear_arith);
    assert(x11 * ((x12 * x20) * x33) == ((x11 * x12) * x20) * x33) by (nonlinear_arith);
    assert(x11 * ((x12 * x23) * x30) == ((x11 * x12) * x23) * x30) by (nonlinear_arith);
    assert(x11 * ((x13 * x20) * x32) == ((x11 * x13) * x20) * x32) by (nonlinear_arith);
    assert(x11 * ((x13 * x22) * x30) == ((x11 * x13) * x22) * x30) by (nonlinear_arith);
    assert(x12 * ((x10 * x21) * x33) == ((x10 * x12) * x21) * x33) by (nonlinear_arith);
    assert(x12 * ((x10 * x23) * x31) == ((x10 * x12) * x23) * x31) by (nonlinear_arith);
    assert(x12 * ((x11 * x20) * x33) == ((x11 * x12) * x20) * x33) by (nonlinear_arith);
    assert(x12 * ((x11 * x23) * x30) == ((x11 * x12) * x23) * x30) by (nonlinear_arith);
    assert(x12 * ((x13 * x20) * x31) == ((x12 * x13) * x20) * x31) by (nonlinear_arith);
    assert(x12 * ((x13 * x21) * x30) == ((x12 * x13) * x21) * x30) by (nonlinear_arith);
    assert(x13 * ((x10 * x21) * x32) == ((x10 * x13) * x21) * x32) by (nonlinear_arith);
    assert(x13 * ((x10 * x22) * x31) == ((x10 * x13) * x22) * x31) by (nonlinear_arith);
    assert(x13 * ((x11 * x20) * x32) == ((x11 * x13) * x20) * x32) by (nonlinear_arith);
    assert(x13 * ((x11 * x22) * x30) == ((x11 * x13) * x22) * x30) by (nonlinear_arith);
    assert(x13 * ((x12 * x20) * x31) == ((x12 * x13) * x20) * x31) by (nonlinear_arith);
    assert(x13 * ((x12 * x21) * x30) == ((x12 * x13) * x21) * x30) by (nonlinear_arith);
    assert(x10 * ((x01 * x22) * x33) == ((x01 * x10) * x22) * x33) by (nonlinear_arith);
    assert(x10 * ((x01 * x23) * x32) == ((x01 * x10) * x23) * x32) by (nonlinear_arith);
    assert(x10 * ((x02 * x21) * x33) == ((x02 * x10) * x21) * x33) by (nonlinear_arith);
    assert(x10 * ((x02 * x23) * x31) == ((x02 * x10) * x23) * x31) by (nonlinear_arith);
    assert(x10 * ((x03 * x21) * x32) == ((x03 * x10) * x21) * x32) by (nonlinear_arith);
    assert(x10 * ((x03 * x22) * x31) == ((x03 * x10) * x22) * x31) by (nonlinear_arith);
    assert(x11 * ((x00 * x22) * x33) == ((x00 * x11) * x22) * x33) by (nonlinear_arith);
    assert(x11 * ((x00 * x23) * x32) == ((x00 * x11) * x23) * x32) by (nonlinear_arith);
    assert(x11 * ((x02 * x20) * x33) == ((x02 * x11) * x20) * x33) by (nonlinear_arith);
    assert(x11 * ((x02 * x23) * x30) == ((x02 * x11) * x23) * x30) by (nonlinear_arith);
    assert(x11 * ((x03 * x20) * x32) == ((x03 * x11) * x20) * x32) by (nonlinear_arith);
    assert(x11 * ((x03 * x22) * x30) == ((x03 * x11) * x22) * x30) by (nonlinear_arith);
    assert(x12 * ((x00 * x21) * x33) == ((x00 * x12) * x21) * x33) by (nonlinear_arith);
    assert(x12 * ((x00 * x23) * x31) == ((x00 * x12) * x23) * x31) by (nonlinear_arith);
    assert(x12 * ((x01 * x20) * x33) == ((x01 * x12) * x20) * x33) by (nonlinear_arith);
    assert(x12 * ((x01 * x23) * x30) == ((x01 * x12) * x23) * x30) by (nonlinear_arith);
    assert(x12 * ((x03 * x20) * x31) == ((x03 * x12) * x20) * x31) by (nonlinear_arith);
    assert(x12 * ((x03 * x21) * x30) == ((x03 * x12) * x21) * x30) by (nonlinear_arith);
    assert(x13 * ((x00 * x21) * x32) == ((x00 * x13) * x21) * x32) by (nonlinear_arith);
    assert(x13 * ((x00 * x22) * x31) == ((x00 * x13) * x22) * x31) by (nonlinear_arith);
    assert(x13 * ((x01 * x20) * x32) == ((x01 * x13) * x20) * x32) by (nonlinear_arith);
    assert(x13 * ((x01 * x22) * x30) == ((x01 * x13) * x22) * x30) by (nonlinear_arith);
    assert(x13 * ((x02 * x20) * x31) == ((x02 * x13) * x20) * x31) by (nonlinear_arith);
    assert(x13 * ((x02 * x21) * x30) == ((x02 * x13) * x21) * x30) by (nonlinear_arith);
    assert(x10 * ((x01 * x12) * x33) == ((x01 * x10) * x12) * x33) by (nonlinear_arith);
    assert(x10 * ((x01 * x13) * x32) == ((x01 * x10) * x13) * x32) by (nonlinear_arith);
    assert(x10 * ((x02 * x11) * x33) == ((x02 * x10) * x11) * x33) by (nonlinear_arith);
    assert(x10 * ((x02 * x13) * x31) == ((x02 * x10) * x13) * x31) by (nonlinear_arith);
    assert(x10 * ((x03 * x11) * x32) == ((x03 * x10) * x11) * x32) by (nonlinear_arith);
    assert(x10 * ((x03 * x12) * x31) == ((x03 * x10) * x12) * x31) by (nonlinear_arith);
    assert(x11 * ((x00 * x12) * x33) == ((x00 * x11) * x12) * x33) by (nonlinear_arith);
    assert(x11 * ((x00 * x13) * x32) == ((x00 * x11) * x13) * x32) by (nonlinear_arith);
    assert(x11 * ((x02 * x10) * x33) == ((x02 * x10) * x11) * x33) by (nonlinear_arith);
    assert(x11 * ((x02 * x13) * x30) == ((x02 * x11) * x13) * x30) by (nonlinear_arith);
    assert(x11 * ((x03 * x10) * x32) == ((x03 * x10) * x11) * x32) by (nonlinear_arith);
    assert(x11 * ((x03 * x12) * x30) == ((x03 * x11) * x12) * x30) by (nonlinear_arith);
    assert(x12 * ((x00 * x11) * x33) == ((x00 * x11) * x12) * x33) by (nonlinear_arith);
    assert(x12 * ((x00 * x13) * x31) == ((x00 * x12) * x13) * x31) by (nonlinear_arith);
    assert(x12 * ((x01 * x10) * x33) == ((x01 * x10) * x12) * x33) by (nonlinear_arith);
    assert(x12 * ((x01 * x13) * x30) == ((x01 * x12) * x13) * x30) by (nonlinear_arith);
    assert(x12 * ((x03 * x10) * x31) == ((x03 * x10) * x12) * x31) by (nonlinear_arith);
    assert(x12 * ((x03 * x11) * x30) == ((x03 * x11) * x12) * x30) by (nonlinear_arith);
    assert(x13 * ((x00 * x11) * x32) == ((x00 * x11) * x13) * x32) by (nonlinear_arith);
    assert(x13 * ((x00 * x12) * x31) == ((x00 * x12) * x13) * x31) by (nonlinear_arith);
    assert(x13 * ((x01 * x10) * x32) == ((x01 * x10) * x13) * x32) by (nonlinear_arith);
    assert(x13 * ((x01 * x12) * x30) == ((x01 * x12) * x13) * x30) by (nonlinear_arith);
    assert(x13 * ((x02 * x10) * x31) == ((x02 * x10) * x13) * x31) by (nonlinear_arith);
    assert(x13 * ((x02 * x11) * x30) == ((x02 * x11) * x13) * x30) by (nonlinear_arith);
    assert(x10 * ((x01 * x12) * x23) == ((x01 * x10) * x12) * x23) by (nonlinear_arith);
    assert(x10 * ((x01 * x13) * x22) == ((x01 * x10) * x13) * x22) by (nonlinear_arith);
    assert(x10 * ((x02 * x11) * x23) == ((x02 * x10) * x11) * x23) by (nonlinear_arith);
    assert(x10 * ((x02 * x13) * x21) == ((x02 * x10) * x13) * x21) by (nonlinear_arith);
    assert(x10 * ((x03 * x11) * x22) == ((x03 * x10) * x11) * x22) by (nonlinear_arith);
    assert(x10 * ((x03 * x12) * x21) == ((x03 * x10) * x12) * x21) by (nonlinear_arith);
    assert(x11 * ((x00 * x12) * x23) == ((x00 * x11) * x12) * x23) by (nonlinear_arith);
    assert(x11 * ((x00 * x13) * x22) == ((x00 * x11) * x13) * x22) by (nonlinear_arith);
    assert(x11 * ((x02 * x10) * x23) == ((x02 * x10) * x11) * x23) by (nonlinear_arith);
    assert(x11 * ((x02 * x13) * x20) == ((x02 * x11) * x13) * x20) by (nonlinear_arith);
    assert(x11 * ((x03 * x10) * x22) == ((x03 * x10) * x11) * x22) by (nonlinear_arith);
    assert(x11 * ((x03 * x12) * x20) == ((x03 * x11) * x12) * x20) by (nonlinear_arith);
    assert(x12 * ((x00 * x11) * x23) == ((x00 * x11) * x12) * x23) by (nonlinear_arith);
    assert(x12 * ((x00 * x13) * x21) == ((x00 * x12) * x13) * x21) by (nonlinear_arith);
    assert(x12 * ((x01 * x10) * x23) == ((x01 * x10) * x12) * x23) by (nonlinear_arith);
    assert(x12 * ((x01 * x13) * x20) == ((x01 * x12) * x13) * x20) by (nonlinear_arith);
    assert(x12 * ((x03 * x10) * x21) == ((x03 * x10) * x12) * x21) by (nonlinear_arith);
    assert(x12 * ((x03 * x11) * x20) == ((x03 * x11) * x12) * x20) by (nonlinear_arith);
    assert(x13 * ((x00 * x11) * x22) == ((x00 * x11) * x13) * x22) by (nonlinear_arith);
    assert(x13 * ((x00 * x12) * x21) == ((x00 * x12) * x13) * x21) by (nonlinear_arith);
    assert(x13 * ((x01 * x10) * x22) == ((x01 * x10) * x13) * x22) by (nonlinear_arith);
    assert(x13 * ((x01 * x12) * x20) == ((x01 * x12) * x13) * x20) by (nonlinear_arith);
    assert(x13 * ((x02 * x10) * x21) == ((x02 * x10) * x13) * x21) by (nonlinear_arith);
    assert(x13 * ((x02 * x11) * x20) == ((x02 * x11) * x13) * x20) by (nonlinear_arith);
    assert(x20 * ((x11 * x22) * x33) == ((x11 * x20) * x22) * x33) by (nonlinear_arith);
    assert(x20 * ((x11 * x23) * x32) == ((x11 * x20) * x23) * x32) by (nonlinear_arith);
    assert(x20 * ((x12 * x21) * x33) == ((x12 * x20) * x21) * x33) by (nonlinear_arith);
    assert(x20 * ((x12 * x23) * x31) == ((x12 * x20) * x23) * x31) by (nonlinear_arith);
    assert(x20 * ((x13 * x21) * x32) == ((x13 * x20) * x21) * x32) by (nonlinear_arith);
    assert(x20 * ((x13 * x22) * x31) == ((x13 * x20) * x22) * x31) by (nonlinear_arith);
    assert(x21 * ((x10 * x22) * x33) == ((x10 * x21) * x22) * x33) by (nonlinear_arith);
    assert(x21 * ((x10 * x23) * x32) == ((x10 * x21) * x23) * x32) by (nonlinear_arith);
    assert(x21 * ((x12 * x20) * x33) == ((x12 * x20) * x21) * x33) by (nonlinear_arith);
    assert(x21 * ((x12 * x23) * x30) == ((x12 * x21) * x23) * x30) by (nonlinear_arith);
    assert(x21 * ((x13 * x20) * x32) == ((x13 * x20) * x21) * x32) by (nonlinear_arith);
    assert(x21 * ((x13 * x22) * x30) == ((x13 * x21) * x22) * x30) by (nonlinear_arith);
    assert(x22 * ((x10 * x21) * x33) == ((x10 * x21) * x22) * x33) by (nonlinear_arith);
    assert(x22 * ((x10 * x23) * x31) == ((x10 * x22) * x23) * x31) by (nonlinear_arith);
    assert(x22 * ((x11 * x20) * x33) == ((x11 * x20) * x22) * x33) by (nonlinear_arith);
    assert(x22 * ((x11 * x23) * x30) == ((x11 * x22) * x23) * x30) by (nonlinear_arith);
    assert(x22 * ((x13 * x20) * x31) == ((x13 * x20) * x22) * x31) by (nonlinear_arith);
    assert(x22 * ((x13 * x21) * x30) == ((x13 * x21) * x22) * x30) by (nonlinear_arith);
    assert(x23 * ((x10 * x21) * x32) == ((x10 * x21) * x23) * x32) by (nonlinear_arith);
    assert(x23 * ((x10 * x22) * x31) == ((x10 * x22) * x23) * x31) by (nonlinear_arith);
    assert(x23 * ((x11 * x20) * x32) == ((x11 * x20) * x23) * x32) by (nonlinear_arith);
    assert(x23 * ((x11 * x22) * x30) == ((x11 * x22) * x23) * x30) by (nonlinear_arith);
    assert(x23 * ((x12 * x20) * x31) == ((x12 * x20) * x23) * x31) by (nonlinear_arith);
    assert(x23 * ((x12 * x21) * x30) == ((x12 * x21) * x23) * x30) by (nonlinear_arith);
    assert(x20 * ((x01 * x22) * x33) == ((x01 * x20) * x22) * x33) by (nonlinear_arith);
    assert(x20 * ((x01 * x23) * x32) == ((x01 * x20) * x23) * x32) by (nonlinear_arith);
    assert(x20 * ((x02 * x21) * x33) == ((x02 * x20) * x21) * x33) by (nonlinear_arith);
    assert(x20 * ((x02 * x23) * x31) == ((x02 * x20) * x23) * x31) by (nonlinear_arith);
    assert(x20 * ((x03 * x21) * x32) == ((x03 * x20) * x21) * x32) by (nonlinear_arith);
    assert(x20 * ((x03 * x22) * x31) == ((x03 * x20) * x22) * x31) by (nonlinear_arith);
    assert(x21 * ((x00 * x22) * x33) == ((x00 * x21) * x22) * x33) by (nonlinear_arith);
    assert(x21 * ((x00 * x23) * x32) == ((x00 * x21) * x23) * x32) by (nonlinear_arith);
    assert(x21 * ((x02 * x20) * x33) == ((x02 * x20) * x21) * x33) by (nonlinear_arith);
    assert(x21 * ((x02 * x23) * x30) == ((x02 * x21) * x23) * x30) by (nonlinear_arith);
    assert(x21 * ((x03 * x20) * x32) == ((x03 * x20) * x21) * x32) by (nonlinear_arith);
    assert(x21 * ((x03 * x22) * x30) == ((x03 * x21) * x22) * x30) by (nonlinear_arith);
    assert(x22 * ((x00 * x21) * x33) == ((x00 * x21) * x22) * x33) by (nonlinear_arith);
    assert(x22 * ((x00 * x23) * x31) == ((x00 * x22) * x23) * x31) by (nonlinear_arith);
    assert(x22 * ((x01 * x20) * x33) == ((x01 * x20) * x22) * x33) by (nonlinear_arith);
    assert(x22 * ((x01 * x23) * x30) == ((x01 * x22) * x23) * x30) by (nonlinear_arith);
    assert(x22 * ((x03 * x20) * x31) == ((x03 * x20) * x22) * x31) by (nonlinear_arith);
    assert(x22 * ((x03 * x21) * x30) == ((x03 * x21) * x22) * x30) by (nonlinear_arith);
    assert(x23 * ((x00 * x21) * x32) == ((x00 * x21) * x23) * x32) by (nonlinear_arith);
    assert(x23 * ((x00 * x22) * x31) == ((x00 * x22) * x23) * x31) by (nonlinear_arith);
    assert(x23 * ((x01 * x20) * x32) == ((x01 * x20) * x23) * x32) by (nonlinear_arith);
    assert(x23 * ((x01 * x22) * x30) == ((x01 * x22) * x23) * x30) by (nonlinear_arith);
    assert(x23 * ((x02 * x20) * x31) == ((x02 * x20) * x23) * x31) by (nonlinear_arith);
    assert(x23 * ((x02 * x21) * x30) == ((x02 * x21) * x23) * x30) by (nonlinear_arith);
    assert(x20 * ((x01 * x12) * x33) == ((x01 * x12) * x20) * x33) by (nonlinear_arith);
    assert(x20 * ((x01 * x13) * x32) == ((x01 * x13) * x20) * x32) by (nonlinear_arith);
    assert(x20 * ((x02 * x11) * x33) == ((x02 * x11) * x20) * x33) by (nonlinear_arith);
    assert(x20 * ((x02 * x13) * x31) == ((x02 * x13) * x20) * x31) by (nonlinear_arith);
    assert(x20 * ((x03 * x11) * x32) == ((x03 * x11) * x20) * x32) by (nonlinear_arith);
    assert(x20 * ((x03 * x12) * x31) == ((x03 * x12) * x20) * x31) by (nonlinear_arith);
    assert(x21 * ((x00 * x12) * x33) == ((x00 * x12) * x21) * x33) by (nonlinear_arith);
    assert(x21 * ((x00 * x13) * x32) == ((x00 * x13) * x21) * x32) by (nonlinear_arith);
    assert(x21 * ((x02 * x10) * x33) == ((x02 * x10) * x21) * x33) by (nonlinear_arith);
    assert(x21 * ((x02 * x13) * x30) == ((x02 * x13) * x21) * x30) by (nonlinear_arith);
    assert(x21 * ((x03 * x10) * x32) == ((x03 * x10) * x21) * x32) by (nonlinear_arith);
    assert(x21 * ((x03 * x12) * x30) == ((x03 * x12) * x21) * x30) by (nonlinear_arith);
    assert(x22 * ((x00 * x11) * x33) == ((x00 * x11) * x22) * x33) by (nonlinear_arith);
    assert(x22 * ((x00 * x13) * x31) == ((x00 * x13) * x22) * x31) by (nonlinear_arith);
    assert(x22 * ((x01 * x10) * x33) == ((x01 * x10) * x22) * x33) by (nonlinear_arith);
    assert(x22 * ((x01 * x13) * x30) == ((x01 * x13) * x22) * x30) by (nonlinear_arith);
    assert(x22 * ((x03 * x10) * x31) == ((x03 * x10) * x22) * x31) by (nonlinear_arith);
    assert(x22 * ((x03 * x11) * x30) == ((x03 * x11) * x22) * x30) by (nonlinear_arith);
    assert(x23 * ((x00 * x11) * x32) == ((x00 * x11) * x23) * x32) by (nonlinear_arith);
    assert(x23 * ((x00 * x12) * x31) == ((x00 * x12) * x23) * x31) by (nonlinear_arith);
    assert(x23 * ((x01 * x10) * x32) == ((x01 * x10) * x23) * x32) by (nonlinear_arith);
    assert(x23 * ((x01 * x12) * x30) == ((x01 * x12) * x23) * x30) by (nonlinear_arith);
    assert(x23 * ((x02 * x10) * x31) == ((x02 * x10) * x23) * x31) by (nonlinear_arith);
    assert(x23 * ((x02 * x11) * x30) == ((x02 * x11) * x23) * x30) by (nonlinear_arith);
    assert(x20 * ((x01 * x12) * x23) == ((x01 * x12) * x20) * x23) by (nonlinear_arith);
    assert(x20 * ((x01 * x13) * x22) == ((x01 * x13) * x20) * x22) by (nonlinear_arith);
    assert(x20 * ((x02 * x11) * x23) == ((x02 * x11) * x20) * x23) by (nonlinear_arith);
    assert(x20 * ((x02 * x13) * x21) == ((x02 * x13) * x20) * x21) by (nonlinear_arith);
    assert(x20 * ((x03 * x11) * x22) == ((x03 * x11) * x20) * x22) by (nonlinear_arith);
    assert(x20 * ((x03 * x12) * x21) == ((x03 * x12) * x20) * x21) by (nonlinear_arith);
    assert(x21 * ((x00 * x12) * x23) == ((x00 * x12) * x21) * x23) by (nonlinear_arith);
    assert(x21 * ((x00 * x13) * x22) == ((x00 * x13) * x21) * x22) by (nonlinear_arith);
    assert(x21 * ((x02 * x10) * x23) == ((x02 * x10) * x21) * x23) by (nonlinear_arith);
    assert(x21 * ((x02 * x13) * x20) == ((x02 * x13) * x20) * x21) by (nonlinear_arith);
    assert(x21 * ((x03 * x10) * x22) == ((x03 * x10) * x21) * x22) by (nonlinear_arith);
    assert(x21 * ((x03 * x12) * x20) == ((x03 * x12) * x20) * x21) by (nonlinear_arith);
    assert(x22 * ((x00 * x11) * x23) == ((x00 * x11) * x22) * x23) by (nonlinear_arith);
    assert(x22 * ((x00 * x13) * x21) == ((x00 * x13) * x21) * x22) by (nonlinear_arith);
    assert(x22 * ((x01 * x10) * x23) == ((x01 * x10) * x22) * x23) by (nonlinear_arith);
    assert(x22 * ((x01 * x13) * x20) == ((x01 * x13) * x20) * x22) by (nonlinear_arith);
    assert(x22 * ((x03 * x10) * x21) == ((x03 * x10) * x21) * x22) by (nonlinear_arith);
    assert(x22 * ((x03 * x11) * x20) == ((x03 * x11) * x20) * x22) by (nonlinear_arith);
    assert(x23 * ((x00 * x11) * x22) == ((x00 * x11) * x22) * x23) by (nonlinear_arith);
    assert(x23 * ((x00 * x12) * x21) == ((x00 * x12) * x21) * x23) by (nonlinear_arith);
    assert(x23 * ((x01 * x10) * x22) == ((x01 * x10) * x22) * x23) by (nonlinear_arith);
    assert(x23 * ((x01 * x12) * x20) == ((x01 * x12) * x20) * x23) by (nonlinear_arith);
    assert(x23 * ((x02 * x10) * x21) == ((x02 * x10) * x21) * x23) by (nonlinear_arith);
    assert(x23 * ((x02 * x11) * x20) == ((x02 * x11) * x20) * x23) by (nonlinear_arith);
    assert(x30 * ((x11 * x22) * x33) == ((x11 * x22) * x30) * x33) by (nonlinear_arith);
    assert(x30 * ((x11 * x23) * x32) == ((x11 * x23) * x30) * x32) by (nonlinear_arith);
    assert(x30 * ((x12 * x21) * x33) == ((x12 * x21) * x30) * x33) by (nonlinear_arith);
    assert(x30 * ((x12 * x23) * x31) == ((x12 * x23) * x30) * x31) by (nonlinear_arith);
    assert(x30 * ((x13 * x21) * x32) == ((x13 * x21) * x30) * x32) by (nonlinear_arith);
    assert(x30 * ((x13 * x22) * x31) == ((x13 * x22) * x30) * x31) by (nonlinear_arith);
    assert(x31 * ((x10 * x22) * x33) == ((x10 * x22) * x31) * x33) by (nonlinear_arith);
    assert(x31 * ((x10 * x23) * x32) == ((x10 * x23) * x31) * x32) by (nonlinear_arith);
    assert(x31 * ((x12 * x20) * x33) == ((x12 * x20) * x31) * x33) by (nonlinear_arith);
    assert(x31 * ((x12 * x23) * x30) == ((x12 * x23) * x30) * x31) by (nonlinear_arith);
    assert(x31 * ((x13 * x20) * x32) == ((x13 * x20) * x31) * x32) by (nonlinear_arith);
    assert(x31 * ((x13 * x22) * x30) == ((x13 * x22) * x30) * x31) by (nonlinear_arith);
    assert(x32 * ((x10 * x21) * x33) == ((x10 * x21) * x32) * x33) by (nonlinear_arith);
    assert(x32 * ((x10 * x23) * x31) == ((x10 * x23) * x31) * x32) by (nonlinear_arith);
    assert(x32 * ((x11 * x20) * x33) == ((x11 * x20) * x32) * x33) by (nonlinear_arith);
    assert(x32 * ((x11 * x23) * x30) == ((x11 * x23) * x30) * x32) by (nonlinear_arith);
    assert(x32 * ((x13 * x20) * x31) == ((x13 * x20) * x31) * x32) by (nonlinear_arith);
    assert(x32 * ((x13 * x21) * x30) == ((x13 * x21) * x30) * x32) by (nonlinear_arith);
    assert(x33 * ((x10 * x21) * x32) == ((x10 * x21) * x32) * x33) by (nonlinear_arith);
    assert(x33 * ((x10 * x22) * x31) == ((x10 * x22) * x31) * x33) by (nonlinear_arith);
    assert(x33 * ((x11 * x20) * x32) == ((x11 * x20) * x32) * x33) by (nonlinear_arith);
    assert(x33 * ((x11 * x22) * x30) == ((x11 * x22) * x30) * x33) by (nonlinear_arith);
    assert(x33 * ((x12 * x20) * x31) == ((x12 * x20) * x31) * x33) by (nonlinear_arith);
    assert(x33 * ((x12 * x21) * x30) == ((x12 * x21) * x30) * x33) by (nonlinear_arith);
    assert(x30 * ((x01 * x22) * x33) == ((x01 * x22) * x30) * x33) by (nonlinear_arith);
    assert(x30 * ((x01 * x23) * x32) == ((x01 * x23) * x30) * x32) by (nonlinear_arith);
    assert(x30 * ((x02 * x21) * x33) == ((x02 * x21) * x30) * x33) by (nonlinear_arith);
    assert(x30 * ((x02 * x23) * x31) == ((x02 * x23) * x30) * x31) by (nonlinear_arith);
    assert(x30 * ((x03 * x21) * x32) == ((x03 * x21) * x30) * x32) by (nonlinear_arith);
    assert(x30 * ((x03 * x22) * x31) == ((x03 * x22) * x30) * x31) by (nonlinear_arith);
    assert(x31 * ((x00 * x22) * x33) == ((x00 * x22) * x31) * x33) by (nonlinear_arith);
    assert(x31 * ((x00 * x23) * x32) == ((x00 * x23) * x31) * x32) by (nonlinear_arith);
    assert(x31 * ((x02 * x20) * x33) == ((x02 * x20) * x31) * x33) by (nonlinear_arith);
    assert(x31 * ((x02 * x23) * x30) == ((x02 * x23) * x30) * x31) by (nonlinear_arith);
    assert(x31 * ((x03 * x20) * x32) == ((x03 * x20) * x31) * x32) by (nonlinear_arith);
    assert(x31 * ((x03 * x22) * x30) == ((x03 * x22) * x30) * x31) by (nonlinear_arith);
    assert(x32 * ((x00 * x21) * x33) == ((x00 * x21) * x32) * x33) by (nonlinear_arith);
    assert(x32 * ((x00 * x23) * x31) == ((x00 * x23) * x31) * x32) by (nonlinear_arith);
    assert(x32 * ((x01 * x20) * x33) == ((x01 * x20) * x32) * x33) by (nonlinear_arith);
    assert(x32 * ((x01 * x23) * x30) == ((x01 * x23) * x30) * x32) by (nonlinear_arith);
    assert(x32 * ((x03 * x20) * x31) == ((x03 * x20) * x31) * x32) by (nonlinear_arith);
    assert(x32 * ((x03 * x21) * x30) == ((x03 * x21) * x30) * x32) by (nonlinear_arith);
    assert(x33 * ((x00 * x21) * x32) == ((x00 * x21) * x32) * x33) by (nonlinear_arith);
    assert(x33 * ((x00 * x22) * x31) == ((x00 * x22) * x31) * x33) by (nonlinear_arith);
    assert(x33 * ((x01 * x20) * x32) == ((x01 * x20) * x32) * x33) by (nonlinear_arith);
    assert(x33 * ((x01 * x22) * x30) == ((x01 * x22) * x30) * x33) by (nonlinear_arith);
    assert(x33 * ((x02 * x20) * x31) == ((x02 * x20) * x31) * x33) by (nonlinear_arith);
    assert(x33 * ((x02 * x21) * x30) == ((x02 * x21) * x30) * x33) by (nonlinear_arith);
    assert(x30 * ((x01 * x12) * x33) == ((x01 * x12) * x30) * x33) by (nonlinear_arith);
    assert(x30 * ((x01 * x13) * x32) == ((x01 * x13) * x30) * x32) by (nonlinear_arith);
    assert(x30 * ((x02 * x11) * x33) == ((x02 * x11) * x30) * x33) by (nonlinear_arith);
    assert(x30 * ((x02 * x13) * x31) == ((x02 * x13) * x30) * x31) by (nonlinear_arith);
    assert(x30 * ((x03 * x11) * x32) == ((x03 * x11) * x30) * x32) by (nonlinear_arith);
    assert(x30 * ((x03 * x12) * x31) == ((x03 * x12) * x30) * x31) by (nonlinear_arith);
    assert(x31 * ((x00 * x12) * x33) == ((x00 * x12) * x31) * x33) by (nonlinear_arith);
    assert(x31 * ((x00 * x13) * x32) == ((x00 * x13) * x31) * x32) by (nonlinear_arith);
    assert(x31 * ((x02 * x10) * x33) == ((x02 * x10) * x31) * x33) by (nonlinear_arith);
    assert(x31 * ((x02 * x13) * x30) == ((x02 * x13) * x30) * x31) by (nonlinear_arith);
    assert(x31 * ((x03 * x10) * x32) == ((x03 * x10) * x31) * x32) by (nonlinear_arith);
    assert(x31 * ((x03 * x12) * x30) == ((x03 * x12) * x30) * x31) by (nonlinear_arith);
    assert(x32 * ((x00 * x11) * x33) == ((x00 * x11) * x32) * x33) by (nonlinear_arith);
    assert(x32 * ((x00 * x13) * x31) == ((x00 * x13) * x31) * x32) by (nonlinear_arith);
    assert(x32 * ((x01 * x10) * x33) == ((x01 * x10) * x32) * x33) by (nonlinear_arith);
    assert(x32 * ((x01 * x13) * x30) == ((x01 * x13) * x30) * x32) by (nonlinear_arith);
    assert(x32 * ((x03 * x10) * x31) == ((x03 * x10) * x31) * x32) by (nonlinear_arith);
    assert(x32 * ((x03 * x11) * x30) == ((x03 * x11) * x30) * x32) by (nonlinear_arith);
    assert(x33 * ((x00 * x11) * x32) == ((x00 * x11) * x32) * x33) by (nonlinear_arith);
    assert(x33 * ((x00 * x12) * x31) == ((x00 * x12) * x31) * x33) by (nonlinear_arith);
    assert(x33 * ((x01 * x10) * x32) == ((x01 * x10) * x32) * x33) by (nonlinear_arith);
    assert(x33 * ((x01 * x12) * x30) == ((x01 * x12) * x30) * x33) by (nonlinear_arith);
    assert(x33 * ((x02 * x10) * x31) == ((x02 * x10) * x31) * x33) by (nonlinear_arith);
    assert(x33 * ((x02 * x11) * x30) == ((x02 * x11) * x30) * x33) by (nonlinear_arith);
    assert(x30 * ((x01 * x12) * x23) == ((x01 * x12) * x23) * x30) by (nonlinear_arith);
    assert(x30 * ((x01 * x13) * x22) == ((x01 * x13) * x22) * x30) by (nonlinear_arith);
    assert(x30 * ((x02 * x11) * x23) == ((x02 * x11) * x23) * x30) by (nonlinear_arith);
    assert(x30 * ((x02 * x13) * x21) == ((x02 * x13) * x21) * x30) by (nonlinear_arith);
    assert(x30 * ((x03 * x11) * x22) == ((x03 * x11) * x22) * x30) by (nonlinear_arith);
    assert(x30 * ((x03 * x12) * x21) == ((x03 * x12) * x21) * x30) by (nonlinear_arith);
    assert(x31 * ((x00 * x12) * x23) == ((x00 * x12) * x23) * x31) by (nonlinear_arith);
    assert(x31 * ((x00 * x13) * x22) == ((x00 * x13) * x22) * x31) by (nonlinear_arith);
    assert(x31 * ((x02 * x10) * x23) == ((x02 * x10) * x23) * x31) by (nonlinear_arith);
    assert(x31 * ((x02 * x13) * x20) == ((x02 * x13) * x20) * x31) by (nonlinear_arith);
    assert(x31 * ((x03 * x10) * x22) == ((x03 * x10) * x22) * x31) by (nonlinear_arith);
    assert(x31 * ((x03 * x12) * x20) == ((x03 * x12) * x20) * x31) by (nonlinear_arith);
    assert(x32 * ((x00 * x11) * x23) == ((x00 * x11) * x23) * x32) by (nonlinear_arith);
    assert(x32 * ((x00 * x13) * x21) == ((x00 * x13) * x21) * x32) by (nonlinear_arith);
    assert(x32 * ((x01 * x10) * x23) == ((x01 * x10) * x23) * x32) by (nonlinear_arith);
    assert(x32 * ((x01 * x13) * x20) == ((x01 * x13) * x20) * x32) by (nonlinear_arith);
    assert(x32 * ((x03 * x10) * x21) == ((x03 * x10) * x21) * x32) by (nonlinear_arith);
    assert(x32 * ((x03 * x11) * x20) == ((x03 * x11) * x20) * x32) by (nonlinear_arith);
    assert(x33 * ((x00 * x11) * x22) == ((x00 * x11) * x22) * x33) by (nonlinear_arith);
    assert(x33 * ((x00 * x12) * x21) == ((x00 * x12) * x21) * x33) by (nonlinear_arith);
    assert(x33 * ((x01 * x10) * x22) == ((x01 * x10) * x22) * x33) by (nonlinear_arith);
    assert(x33 * ((x01 * x12) * x20) == ((x01 * x12) * x20) * x33) by (nonlinear_arith);
    assert(x33 * ((x02 * x10) * x21) == ((x02 * x10) * x21) * x33) by (nonlinear_arith);
    assert(x33 * ((x02 * x11) * x20) == ((x02 * x11) * x20) * x33) by (nonlinear_arith);
}

/// At order 4: `a` times its adjugate is `det(a)` times the identity.
pub(crate) proof fn lemma_adjugate_product_4(a: Seq<Seq<int>>)
    requires
        is_square(a),
        a.len() == 4,
    ensures
        product(a, adjugate_of(a)) == scalar_identity(a.len(), det(a)),
{
    let (x00, x01, x02, x03) = (a[0][0], a[0][1], a[0][2], a[0][3]);
    let (x10, x11, x12, x13) = (a[1][0], a[1][1], a[1][2], a[1][3]);
    let (x20, x21, x22, x23) = (a[2][0], a[2][1], a[2][2], a[2][3]);
    let (x30, x31, x32, x33) = (a[3][0], a[3][1], a[3][2], a[3][3]);
    assert(submatrix_of(a, 0, 0)[0] == seq![x11, x12, x13]);
    assert(submatrix_of(a, 0, 0)[1] == seq![x21, x22, x23]);
    assert(submatrix_of(a, 0, 0)[2] == seq![x31, x32, x33]);
    lemma_det_3(submatrix_of(a, 0, 0));
    assert(sign(0int + 0int) == 1);
    lemma_unit_times(sign(0int + 0int), minor_of(a, 0, 0));
    assert(cofactor_of(a, 0, 0) == (x11 * x22) * x33 - ((x11 * x23) * x32) - ((x12 * x21) * x33) + ((x12 * x23) * x31) + ((x13 * x21) * x32) - ((x13 * x22) * x31));
    assert(submatrix_of(a, 0, 1)[0] == seq![x10, x12, x13]);
    assert(submatrix_of(a, 0, 1)[1] == seq![x20, x22, x23]);
    assert(submatrix_of(a, 0, 1)[2] == seq![x30, x32, x33]);
    lemma_det_3(submatrix_of(a, 0, 1));
    assert(sign(0int + 1int) == -1);
    lemma_unit_times(sign(0int + 1int), minor_of(a, 0, 1));
    assert(cofactor_of(a, 0, 1) == 0 - ((x10 * x22) * x33) + ((x10 * x23) * x32) + ((x12 * x20) * x33) - ((x12 * x23) * x30) - ((x13 * x20) * x32) + ((x13 * x22) * x30));
    assert(submatrix_of(a, 0, 2)[0] == seq![x10, x11, x13]);
    assert(submatrix_of(a, 0, 2)[1] == seq![x20, x21, x23]);
    assert(submatrix_of(a, 0, 2)[2] == seq![x30, x31, x33]);
    lemma_det_3(submatrix_of(a, 0, 2));
    assert(sign(0int + 2int) == 1);
    lemma_unit_times(sign(0int + 2int), minor_of(a, 0, 2));
    assert(cofactor_of(a, 0, 2) == (x10 * x21) * x33 - ((x10 * x23) * x31) - ((x11 * x20) * x33) + ((x11 * x23) * x30) + ((x13 * x20) * x31) - ((x13 * x21) * x30));
    assert(submatrix_of(a, 0, 3)[0] == seq![x10, x11, x12]);
    assert(submatrix_of(a, 0, 3)[1] == seq![x20, x21, x22]);
    assert(submatrix_of(a, 0, 3)[2] == seq![x30, x31, x32]);
    lemma_det_3(submatrix_of(a, 0, 3));
    assert(sign(0int + 3int) == -1);
    lemma_unit_times(sign(0int + 3int), minor_of(a, 0, 3));
    assert(cofactor_of(a, 0, 3) == 0 - ((x10 * x21) * x32) + ((x10 * x22) * x31) + ((x11 * x20) * x32) - ((x11 * x22) * x30) - ((x12 * x20) * x31) + ((x12 * x21) * x30));
    assert(submatrix_of(a, 1, 0)[0] == seq![x01, x02, x03]);
    assert(submatrix_of(a, 1, 0)[1] == seq![x21, x22, x23]);
    assert(submatrix_of(a, 1, 0)[2] == seq![x31, x32, x33]);
    lemma_det_3(submatrix_of(a, 1, 0));
    assert(sign(1int + 0int) == -1);
    lemma_unit_times(sign(1int + 0int), minor_of(a, 1, 0));
    assert(cofactor_of(a, 1, 0) == 0 - ((x01 * x22) * x33) + ((x01 * x23) * x32) + ((x02 * x21) * x33) - ((x02 * x23) * x31) - ((x03 * x21) * x32) + ((x03 * x22) * x31));
    assert(submatrix_of(a, 1, 1)[0] == seq![x00, x02, x03]);
    assert(submatrix_of(a, 1, 1)[1] == seq![x20, x22, x23]);
    assert(submatrix_of(a, 1, 1)[2] == seq![x30, x32, x33]);
    lemma_det_3(submatrix_of(a, 1, 1));
    assert(sign(1int + 1int) == 1);
    lemma_unit_times(sign(1int + 1int), minor_of(a, 1, 1));
    assert(cofactor_of(a, 1, 1) == (x00 * x22) * x33 - ((x00 * x23) * x32) - ((x02 * x20) * x33) + ((x02 * x23) * x30) + ((x03 * x20) * x32) - ((x03 * x22) * x30));
    assert(submatrix_of(a, 1, 2)[0] == seq![x00, x01, x03]);
    assert(submatrix_of(a, 1, 2)[1] == seq![x20, x21, x23]);
    assert(submatrix_of(a, 1, 2)[2] == seq![x30, x31, x33]);
    lemma_det_3(submatrix_of(a, 1, 2));
    assert(sign(1int + 2int) == -1);
    lemma_unit_times(sign(1int + 2int), minor_of(a, 1, 2));
    assert(cofactor_of(a, 1, 2) == 0 - ((x00 * x21) * x33) + ((x00 * x23) * x31) + ((x01 * x20) * x33) - ((x01 * x23) * x30) - ((x03 * x20) * x31) + ((x03 * x21) * x30));
    assert(submatrix_of(a, 1, 3)[0] == seq![x00, x01, x02]);
    assert(submatrix_of(a, 1, 3)[1] == seq![x20, x21, x22]);
    assert(submatrix_of(a, 1, 3)[2] == seq![x30, x31, x32]);
    lemma_det_3(submatrix_of(a, 1, 3));
    assert(sign(1int + 3int) == 1);
    lemma_unit_times(sign(1int + 3int), minor_of(a, 1, 3));
    assert(cofactor_of(a, 1, 3) == (x00 * x21) * x32 - ((x00 * x22) * x31) - ((x01 * x20) * x32) + ((x01 * x22) * x30) + ((x02 * x20) * x31) - ((x02 * x21) * x30));
    assert(submatrix_of(a, 2, 0)[0] == seq![x01, x02, x03]);
    assert(submatrix_of(a, 2, 0)[1] == seq![x11, x12, x13]);
    assert(submatrix_of(a, 2, 0)[2] == seq![x31, x32, x33]);
    lemma_det_3(submatrix_of(a, 2, 0));
    assert(sign(2int + 0int) == 1);
    lemma_unit_times(sign(2int + 0int), minor_of(a, 2, 0));
    assert(cofactor_of(a, 2, 0) == (x01 * x12) * x33 - ((x01 * x13) * x32) - ((x02 * x11) * x33) + ((x02 * x13) * x31) + ((x03 * x11) * x32) - ((x03 * x12) * x31));
    assert(submatrix_of(a, 2, 1)[0] == seq![x00, x02, x03]);
    assert(submatrix_of(a, 2, 1)[1] == seq![x10, x12, x13]);
    assert(submatrix_of(a, 2, 1)[2] == seq![x30, x32, x33]);
    lemma_det_3(submatrix_of(a, 2, 1));
    assert(sign(2int + 1int) == -1);
    lemma_unit_times(sign(2int + 1int), minor_of(a, 2, 1));
    assert(cofactor_of(a, 2, 1) == 0 - ((x00 * x12) * x33) + ((x00 * x13) * x32) + ((x02 * x10) * x33) - ((x02 * x13) * x30) - ((x03 * x10) * x32) + ((x03 * x12) * x30));
    assert(submatrix_of(a, 2, 2)[0] == seq![x00, x01, x03]);
    assert(submatrix_of(a, 2, 2)[1] == seq![x10, x11, x13]);
    assert(submatrix_of(a, 2, 2)[2] == seq![x30, x31, x33]);
    lemma_det_3(submatrix_of(a, 2, 2));
    assert(sign(2int + 2int) == 1);
    lemma_unit_times(sign(2int + 2int), minor_of(a, 2, 2));
    assert(cofactor_of(a, 2, 2) == (x00 * x11) * x33 - ((x00 * x13) * x31) - ((x01 * x10) * x33) + ((x01 * x13) * x30) + ((x03 * x10) * x31) - ((x03 * x11) * x30));
    assert(submatrix_of(a, 2, 3)[0] == seq![x00, x01, x02]);
    assert(submatrix_of(a, 2, 3)[1] == seq![x10, x11, x12]);
    assert(submatrix_of(a, 2, 3)[2] == seq![x30, x31, x32]);
    lemma_det_3(submatrix_of(a, 2, 3));
    assert(sign(2int + 3int) == -1);
    lemma_unit_times(sign(2int + 3int), minor_of(a, 2, 3));
    assert(cofactor_of(a, 2, 3) == 0 - ((x00 * x11) * x32) + ((x00 * x12) * x31) + ((x01 * x10) * x32) - ((x01 * x12) * x30) - ((x02 * x10) * x31) + ((x02 * x11) * x30));
    assert(submatrix_of(a, 3, 0)[0] == seq![x01, x02, x03]);
    assert(submatrix_of(a, 3, 0)[1] == seq![x11, x12, x13]);
    assert(submatrix_of(a, 3, 0)[2] == seq![x21, x22, x23]);
    lemma_det_3(submatrix_of(a, 3, 0));
    assert(sign(3int + 0int) == -1);
    lemma_unit_times(sign(3int + 0int), minor_of(a, 3, 0));
    assert(cofactor_of(a, 3, 0) == 0 - ((x01 * x12) * x23) + ((x01 * x13) * x22) + ((x02 * x11) * x23) - ((x02 * x13) * x21) - ((x03 * x11) * x22) + ((x03 * x12) * x21));
    assert(submatrix_of(a, 3, 1)[0] == seq![x00, x02, x03]);
    assert(submatrix_of(a, 3, 1)[1] == seq![x10, x12, x13]);
    assert(submatrix_of(a, 3, 1)[2] == seq![x20, x22, x23]);
    lemma_det_3(submatrix_of(a, 3, 1));
    assert(sign(3int + 1int) == 1);
    lemma_unit_times(sign(3int + 1int), minor_of(a, 3, 1));
    assert(cofactor_of(a, 3, 1) == (x00 * x12) * x23 - ((x00 * x13) * x22) - ((x02 * x10) * x23) + ((x02 * x13) * x20) + ((x03 * x10) * x22) - ((x03 * x12) * x20));
    assert(submatrix_of(a, 3, 2)[0] == seq![x00, x01, x03]);
    assert(submatrix_of(a, 3, 2)[1] == seq![x10, x11, x13]);
    assert(submatrix_of(a, 3, 2)[2] == seq![x20, x21, x23]);
    lemma_det_3(submatrix_of(a, 3, 2));
    assert(sign(3int + 2int) == -1);
    lemma_unit_times(sign(3int + 2int), minor_of(a, 3, 2));
    assert(cofactor_of(a, 3, 2) == 0 - ((x00 * x11) * x23) + ((x00 * x13) * x21) + ((x01 * x10) * x23) - ((x01 * x13) * x20) - ((x03 * x10) * x21) + ((x03 * x11) * x20));
    assert(submatrix_of(a, 3, 3)[0] == seq![x00, x01, x02]);
    assert(submatrix_of(a, 3, 3)[1] == seq![x10, x11, x12]);
    assert(submatrix_of(a, 3, 3)[2] == seq![x20, x21, x22]);
    lemma_det_3(submatrix_of(a, 3, 3));
    assert(sign(3int + 3int) == 1);
    lemma_unit_times(sign(3int + 3int), minor_of(a, 3, 3));
    assert(cofactor_of(a, 3, 3) == (x00 * x11) * x22 - ((x00 * x12) * x21) - ((x01 * x10) * x22) + ((x01 * x12) * x20) + ((x02 * x10) * x21) - ((x02 * x11) * x20));
    lemma_expansion_step(a, 1);
    lemma_expansion_step(a, 2);
    lemma_expansion_step(a, 3);
    lemma_expansion_step(a, 4);
    assert(det(a) == first_row_expansion(a, 4));
    assert(det(a) == x00 * cofactor_of(a, 0, 0) + x01 * cofactor_of(a, 0, 1) + x02 * cofactor_of(a, 0, 2) + x03 * cofactor_of(a, 0, 3));
    lemma_cofactor_rows_4(x00, x01, x02, x03, x10, x11, x12, x13, x20, x21, x22, x23, x30, x31, x32, x33);
    let adj = adjugate_of(a);
    reveal_with_fuel(inner, 5);
    assert forall|r: int, c: int| 0 <= r < a.len() && 0 <= c < a.len() implies
        #[trigger] product(a, adj)[r][c] == scalar_identity(a.len(), det(a))[r][c] by {
        assert(product(a, adj)[r][c] == a[r][0] * cofactor_of(a, c, 0) + a[r][1] * cofactor_of(a, c, 1) + a[r][2] * cofactor_of(a, c, 2) + a[r][3] * cofactor_of(a, c, 3));
        assert(r == 0 || r == 1 || r == 2 || r == 3);
        assert(c == 0 || c == 1 || c == 2 || c == 3);
    }
    assert(product(a, adj) =~~= scalar_identity(a.len(), det(a)));
}

/// Column `c` against the cofactors of column `r`, written out at order 2: the
/// determinant where `r == c`, zero elsewhere.
proof fn lemma_cofactor_columns_2(x00: int, x01: int, x10: int, x11: int)
    ensures
        x00 * (x11) + x10 * (0 - x01) == x00 * (x11) + x01 * (0 - x10),
        x01 * (x11) + x11 * (0 - x01) == 0,
        x00 * (0 - x10) + x10 * (x00) == 0,
        x01 * (0 - x10) + x11 * (x00) == x00 * (x11) + x01 * (0 - x10),
{
    lemma_mul_is_distributive_sub(x00, 0, x10);
    lemma_mul_is_distributive_sub(x01, 0, x10);
    lemma_mul_is_distributive_sub(x10, 0, x01);
    assert(x10 * x01 == x01 * x10) by (nonlinear_arith);
    assert(x10 * x00 == x00 * x10) by (nonlinear_arith);
    lemma_mul_is_distributive_sub(x11, 0, x01);
    assert(x11 * x01 == x01 * x11) by (nonlinear_arith);
    assert(x11 * x00 == x00 * x11) by (nonlinear_arith);
}

/// At order 2: the adjugate of `a` times `a` is `det(a)` times the identity.
pub(crate) proof fn lemma_product_adjugate_2(a: Seq<Seq<int>>)
    requires
        is_square(a),
        a.len() == 2,
    ensures
        product(adjugate_of(a), a) == scalar_identity(a.len(), det(a)),
{
    let (x00, x01) = (a[0][0], a[0][1]);
    let (x10, x11) = (a[1][0], a[1][1]);
    assert(submatrix_of(a, 0, 0)[0] == seq![x11]);
    assert(sign(0int + 0int) == 1);
    assert(cofactor_of(a, 0, 0) == x11);
    assert(submatrix_of(a, 0, 1)[0] == seq![x10]);
    assert(sign(0int + 1int) == -1);
    assert(cofactor_of(a, 0, 1) == 0 - x10);
    assert(submatrix_of(a, 1, 0)[0] == seq![x01]);
    assert(sign(1int + 0int) == -1);
    assert(cofactor_of(a, 1, 0) == 0 - x01);
    assert(submatrix_of(a, 1, 1)[0] == seq![x00]);
    assert(sign(1int + 1int) == 1);
    assert(cofactor_of(a, 1, 1) == x00);
    lemma_mul_is_distributive_sub(x01, 0, x10);
    assert(det(a) == x00 * cofactor_of(a, 0, 0) + x01 * cofactor_of(a, 0, 1));
    lemma_cofactor_columns_2(x00, x01, x10, x11);
    let adj = adjugate_of(a);
    reveal_with_fuel(inner, 3);
    assert forall|r: int, c: int| 0 <= r < a.len() && 0 <= c < a.len() implies
        #[trigger] product(adj, a)[r][c] == scalar_identity(a.len(), det(a))[r][c] by {
        lemma_mul_is_commutative(cofactor_of(a, 0, r), a[0][c]);
        lemma_mul_is_commutative(cofactor_of(a, 1, r), a[1][c]);
        assert(product(adj, a)[r][c] == a[0][c] * cofactor_of(a, 0, r) + a[1][c] * cofactor_of(a, 1, r));
        assert(r == 0 || r == 1);
        assert(c == 0 || c == 1);
    }
    assert(product(adj, a) =~~= scalar_identity(a.len(), det(a)));
}

/// Column `c` against the cofactors of column `r`, written out at order 3: the
/// determinant where `r == c`, zero elsewhere.
proof fn lemma_cofactor_columns_3(x00: int, x01: int, x02: int, x10: int, x11: int, x12: int, x20: int, x21: int, x22: int)
    ensures
        x00 * (x11 * x22 - (x12 * x21)) + x10 * (0 - (x01 * x22) + (x02 * x21)) + x20 * (x01 * x12 - (x02 * x11)) == x00 * (x11 * x22 - (x12 * x21)) + x01 * (0 - (x10 * x22) + (x12 * x20)) + x02 * (x10 * x21 - (x11 * x20)),
        x01 * (x11 * x22 - (x12 * x21)) + x11 * (0 - (x01 * x22) + (x02 * x21)) + x21 * (x01 * x12 - (x02 * x11)) == 0,
        x02 * (x11 * x22 - (x12 * x21)) + x12 * (0 - (x01 * x22) + (x02 * x21)) + x22 * (x01 * x12 - (x02 * x11)) == 0,
        x00 * (0 - (x10 * x22) + (x12 * x20)) + x10 * (x00 * x22 - (x02 * x20)) + x20 * (0 - (x00 * x12) + (x02 * x10)) == 0,
        x01 * (0 - (x10 * x22) + (x12 * x20)) + x11 * (x00 * x22 - (x02 * x20)) + x21 * (0 - (x00 * x12) + (x02 * x10)) == x00 * (x11 * x22 - (x12 * x21)) + x01 * (0 - (x10 * x22) + (x12 * x20)) + x02 * (x10 * x21 - (x11 * x20)),
        x02 * (0 - (x10 * x22) + (x12 * x20)) + x12 * (x00 * x22 - (x02 * x20)) + x22 * (0 - (x00 * x12) + (x02 * x10)) == 0,
        x00 * (x10 * x21 - (x11 * x20)) + x10 * (0 - (x00 * x21) + (x01 * x20)) + x20 * (x00 * x11 - (x01 * x10)) == 0,
        x01 * (x10 * x21 - (x11 * x20)) + x11 * (0 - (x00 * x21) + (x01 * x20)) + x21 * (x00 * x11 - (x01 * x10)) == 0,
        x02 * (x10 * x21 - (x11 * x20)) + x12 * (0 - (x00 * x21) + (x01 * x20)) + x22 * (x00 * x11 - (x01 * x10)) == x00 * (x11 * x22 - (x12 * x21)) + x01 * (0 - (x10 * x22) + (x12 * x20)) + x02 * (x10 * x21 - (x11 * x20)),
{
    lemma_mul_is_distributive_sub(x00, x11 * x22, (x12 * x21));
    assert(x00 * (x11 * x22) == (x00 * x11) * x22) by (nonlinear_arith);
    assert(x00 * (x12 * x21) == (x00 * x12) * x21) by (nonlinear_arith);
    lemma_mul_is_distributive_add(x00, 0 - (x10 * x22), (x12 * x20));
    lemma_mul_is_distributive_sub(x00, 0, (x10 * x22));
    assert(x00 * (x10 * x22) == (x00 * x10) * x22) by (nonlinear_arith);
    assert(x00 * (x12 * x20) == (x00 * x12) * x20) by (nonlinear_arith);
    lemma_mul_is_distributive_sub(x00, x10 * x21, (x11 * x20));
    assert(x00 * (x10 * x21) == (x00 * x10) * x21) by (nonlinear_arith);
    assert(x00 * (x11 * x20) == (x00 * x11) * x20) by (nonlinear_arith);
    lemma_mul_is_distributive_sub(x01, x11 * x22, (x12 * x21));
    assert(x01 * (x11 * x22) == (x01 * x11) * x22) by (nonlinear_arith);
    assert(x01 * (x12 * x21) == (x01 * x12) * x21) by (nonlinear_arith);
    lemma_mul_is_distributive_add(x01, 0 - (x10 * x22), (x12 * x20));
    lemma_mul_is_distributive_sub(x01, 0, (x10 * x22));
    assert(x01 * (x10 * x22) == (x01 * x10) * x22) by (nonlinear_arith);
    assert(x01 * (x12 * x20) == (x01 * x12) * x20) by (nonlinear_arith);
    lemma_mul_is_distributive_sub(x01, x10 * x21, (x11 * x20));
    assert(x01 * (x10 * x21) == (x01 * x10) * x21) by (nonlinear_arith);
    assert(x01 * (x11 * x20) == (x01 * x11) * x20) by (nonlinear_arith);
    lemma_mul_is_distributive_sub(x02, x11 * x22, (x12 * x21));
    assert(x02 * (x11 * x22) == (x02 * x11) * x22) by (nonlinear_arith);
    assert(x02 * (x12 * x21) == (x02 * x12) * x21) by (nonlinear_arith);
    lemma_mul_is_distributive_add(x02, 0 - (x10 * x22), (x12 * x20));
    lemma_mul_is_distributive_sub(x02, 0, (x10 * x22));
    assert(x02 * (x10 * x22) == (x02 * x10) * x22) by (nonlinear_arith);
    assert(x02 * (x12 * x20) == (x02 * x12) * x20) by (nonlinear_arith);
    lemma_mul_is_distributive_sub(x02, x10 * x21, (x11 * x20));
    assert(x02 * (x10 * x21) == (x02 * x10) * x21) by (nonlinear_arith);
    assert(x02 * (x11 * x20) == (x02 * x11) * x20) by (nonlinear_arith);
    lemma_mul_is_distributive_add(x10, 0 - (x01 * x22), (x02 * x21));
    lemma_mul_is_distributive_sub(x10, 0, (x01 * x22));
    assert(x10 * (x01 * x22) == (x01 * x10) * x22) by (nonlinear_arith);
    assert(x10 * (x02 * x21) == (x02 * x10) * x21) by (nonlinear_arith);
    lemma_mul_is_distributive_sub(x10, x00 * x22, (x02 * x20));
    assert(x10 * (x00 * x22) == (x00 * x10) * x22) by (nonlinear_arith);
    assert(x10 * (x02 * x20) == (x02 * x10) * x20) by (nonlinear_arith);
    lemma_mul_is_distributive_add(x10, 0 - (x00 * x21), (x01 * x20));
    lemma_mul_is_distributive_sub(x10, 0, (x00 * x21));
    assert(x10 * (x00 * x21) == (x00 * x10) * x21) by (nonlinear_arith);
    assert(x10 * (x01 * x20) == (x01 * x10) * x20) by (nonlinear_arith);
    lemma_mul_is_distributive_add(x11, 0 - (x01 * x22), (x02 * x21));
    lemma_mul_is_distributive_sub(x11, 0, (x01 * x22));
    assert(x11 * (x01 * x22) == (x01 * x11) * x22) by (nonlinear_arith);
    assert(x11 * (x02 * x21) == (x02 * x11) * x21) by (nonlinear_arith);
    lemma_mul_is_distributive_sub(x11, x00 * x22, (x02 * x20));
    assert(x11 * (x00 * x22) == (x00 * x11) * x22) by (nonlinear_arith);
    assert(x11 * (x02 * x20) == (x02 * x11) * x20) by (nonlinear_arith);
    lemma_mul_is_distributive_add(x11, 0 - (x00 * x21), (x01 * x20));
    lemma_mul_is_distributive_sub(x11, 0, (x00 * x21));
    assert(x11 * (x00 * x21) == (x00 * x11) * x21) by (nonlinear_arith);
    assert(x11 * (x01 * x20) == (x01 * x11) * x20) by (nonlinear_arith);
    lemma_mul_is_distributive_add(x12, 0 - (x01 * x22), (x02 * x21));
    lemma_mul_is_distributive_sub(x12, 0, (x01 * x22));
    assert(x12 * (x01 * x22) == (x01 * x12) * x22) by (nonlinear_arith);
    assert(x12 * (x02 * x21) == (x02 * x12) * x21) by (nonlinear_arith);
    lemma_mul_is_distributive_sub(x12, x00 * x22, (x02 * x20));
    assert(x12 * (x00 * x22) == (x00 * x12) * x22) by (nonlinear_arith);
    assert(x12 * (x02 * x20) == (x02 * x12) * x20) by (nonlinear_arith);
    lemma_mul_is_distributive_add(x12, 0 - (x00 * x21), (x01 * x20));
    lemma_mul_is_distributive_sub(x12, 0, (x00 * x21));
    assert(x12 * (x00 * x21) == (x00 * x12) * x21) by (nonlinear_arith);
    assert(x12 * (x01 * x20) == (x01 * x12) * x20) by (nonlinear_arith);
    lemma_mul_is_distributive_sub(x20, x01 * x12, (x02 * x11));
    assert(x20 * (x01 * x12) == (x01 * x12) * x20) by (nonlinear_arith);
    assert(x20 * (x02 * x11) == (x02 * x11) * x20) by (nonlinear_arith);
    lemma_mul_is_distributive_add(x20, 0 - (x00 * x12), (x02 * x10));
    lemma_mul_is_distributive_sub(x20, 0, (x00 * x12));
    assert(x20 * (x00 * x12) == (x00 * x12) * x20) by (nonlinear_arith);
    assert(x20 * (x02 * x10) == (x02 * x10) * x20) by (nonlinear_arith);
    lemma_mul_is_distributive_sub(x20, x00 * x11, (x01 * x10));
    assert(x20 * (x00 * x11) == (x00 * x11) * x20) by (nonlinear_arith);
    assert(x20 * (x01 * x10) == (x01 * x10) * x20) by (nonlinear_arith);
    lemma_mul_is_distributive_sub(x21, x01 * x12, (x02 * x11));
    assert(x21 * (x01 * x12) == (x01 * x12) * x21) by (nonlinear_arith);
    assert(x21 * (x02 * x11) == (x02 * x11) * x21) by (nonlinear_arith);
    lemma_mul_is_distributive_add(x21, 0 - (x00 * x12), (x02 * x10));
    lemma_mul_is_distributive_sub(x21, 0, (x00 * x12));
    assert(x21 * (x00 * x12) == (x00 * x12) * x21) by (nonlinear_arith);
    assert(x21 * (x02 * x10) == (x02 * x10) * x21) by (nonlinear_arith);
    lemma_mul_is_distributive_sub(x21, x00 * x11, (x01 * x10));
    assert(x21 * (x00 * x11) == (x00 * x11) * x21) by (nonlinear_arith);
    assert(x21 * (x01 * x10) == (x01 * x10) * x21) by (nonlinear_arith);
    lemma_mul_is_distributive_sub(x22, x01 * x12, (x02 * x11));
    assert(x22 * (x01 * x12) == (x01 * x12) * x22) by (nonlinear_arith);
    assert(x22 * (x02 * x11) == (x02 * x11) * x22) by (nonlinear_arith);
    lemma_mul_is_distributive_add(x22, 0 - (x00 * x12), (x02 * x10));
    lemma_mul_is_distributive_sub(x22, 0, (x00 * x12));
    assert(x22 * (x00 * x12) == (x00 * x12) * x22) by (nonlinear_arith);
    assert(x22 * (x02 * x10) == (x02 * x10) * x22) by (nonlinear_arith);
    lemma_mul_is_distributive_sub(x22, x00 * x11, (x01 * x10));
    assert(x22 * (x00 * x11) == (x00 * x11) * x22) by (nonlinear_arith);
    assert(x22 * (x01 * x10) == (x01 * x10) * x22) by (nonlinear_arith);
}

/// At order 3: the adjugate of `a` times `a` is `det(a)` times the identity.
pub(crate) proof fn lemma_product_adjugate_3(a: Seq<Seq<int>>)
    requires
        is_square(a),
        a.len() == 3,
    ensures
        product(adjugate_of(a), a) == scalar_identity(a.len(), det(a)),
{
    let (x00, x01, x02) = (a[0][0], a[0][1], a[0][2]);
    let (x10, x11, x12) = (a[1][0], a[1][1], a[1][2]);
    let (x20, x21, x22) = (a[2][0], a[2][1], a[2][2]);
    assert(submatrix_of(a, 0, 0)[0] == seq![x11, x12]);
    assert(submatrix_of(a, 0, 0)[1] == seq![x21, x22]);
    assert(sign(0int + 0int) == 1);
    assert(cofactor_of(a, 0, 0) == x11 * x22 - (x12 * x21));
    assert(submatrix_of(a, 0, 1)[0] == seq![x10, x12]);
    assert(submatrix_of(a, 0, 1)[1] == seq![x20, x22]);
    assert(sign(0int + 1int) == -1);
    assert(cofactor_of(a, 0, 1) == 0 - (x10 * x22) + (x12 * x20));
    assert(submatrix_of(a, 0, 2)[0] == seq![x10, x11]);
    assert(submatrix_of(a, 0, 2)[1] == seq![x20, x21]);
    assert(sign(0int + 2int) == 1);
    assert(cofactor_of(a, 0, 2) == x10 * x21 - (x11 * x20));
    assert(submatrix_of(a, 1, 0)[0] == seq![x01, x02]);
    assert(submatrix_of(a, 1, 0)[1] == seq![x21, x22]);
    assert(sign(1int + 0int) == -1);
    assert(cofactor_of(a, 1, 0) == 0 - (x01 * x22) + (x02 * x21));
    assert(submatrix_of(a, 1, 1)[0] == seq![x00, x02]);
    assert(submatrix_of(a, 1, 1)[1] == seq![x20, x22]);
    assert(sign(1int + 1int) == 1);
    assert(cofactor_of(a, 1, 1) == x00 * x22 - (x02 * x20));
    assert(submatrix_of(a, 1, 2)[0] == seq![x00, x01]);
    assert(submatrix_of(a, 1, 2)[1] == seq![x20, x21]);
    assert(sign(1int + 2int) == -1);
    assert(cofactor_of(a, 1, 2) == 0 - (x00 * x21) + (x01 * x20));
    assert(submatrix_of(a, 2, 0)[0] == seq![x01, x02]);
    assert(submatrix_of(a, 2, 0)[1] == seq![x11, x12]);
    assert(sign(2int + 0int) == 1);
    assert(cofactor_of(a, 2, 0) == x01 * x12 - (x02 * x11));
    assert(submatrix_of(a, 2, 1)[0] == seq![x00, x02]);
    assert(submatrix_of(a, 2, 1)[1] == seq![x10, x12]);
    assert(sign(2int + 1int) == -1);
    assert(cofactor_of(a, 2, 1) == 0 - (x00 * x12) + (x02 * x10));
    assert(submatrix_of(a, 2, 2)[0] == seq![x00, x01]);
    assert(submatrix_of(a, 2, 2)[1] == seq![x10, x11]);
    assert(sign(2int + 2int) == 1);
    assert(cofactor_of(a, 2, 2) == x00 * x11 - (x01 * x10));
    lemma_expansion_step(a, 1);
    lemma_expansion_step(a, 2);
    lemma_expansion_step(a, 3);
    assert(det(a) == first_row_expansion(a, 3));
    assert(det(a) == x00 * cofactor_of(a, 0, 0) + x01 * cofactor_of(a, 0, 1) + x02 * cofactor_of(a, 0, 2));
    lemma_cofactor_columns_3(x00, x01, x02, x10, x11, x12, x20, x21, x22);
    let adj = adjugate_of(a);
    reveal_with_fuel(inner, 4);
    assert forall|r: int, c: int| 0 <= r < a.len() && 0 <= c < a.len() implies
        #[trigger] product(adj, a)[r][c] == scalar_identity(a.len(), det(a))[r][c] by {
        lemma_mul_is_commutative(cofactor_of(a, 0, r), a[0][c]);
        lemma_mul_is_commutative(cofactor_of(a, 1, r), a[1][c]);
        lemma_mul_is_commutative(cofactor_of(a, 2, r), a[2][c]);
        assert(product(adj, a)[r][c] == a[0][c] * cofactor_of(a, 0, r) + a[1][c] * cofactor_of(a, 1, r) + a[2][c] * cofactor_of(a, 2, r));
        assert(r == 0 || r == 1 || r == 2);
        assert(c == 0 || c == 1 || c == 2);
    }
    assert(product(adj, a) =~~= scalar_identity(a.len(), det(a)));
}

/// Column `c` against the cofactors of column `r`, written out at order 4: the
/// determinant where `r == c`, zero elsewhere.
proof fn lemma_cofactor_columns_4(x00: int, x01: int, x02: int, x03: int, x10: int, x11: int, x12: int, x13: int, x20: int, x21: int, x22: int, x23: int, x30: int, x31: int, x32: int, x33: int)
    ensures
        x00 * ((x11 * x22) * x33 - ((x11 * x23) * x32) - ((x12 * x21) * x33) + ((x12 * x23) * x31) + ((x13 * x21) * x32) - ((x13 * x22) * x31)) + x10 * (0 - ((x01 * x22) * x33) + ((x01 * x23) * x32) + ((x02 * x21) * x33) - ((x02 * x23) * x31) - ((x03 * x21) * x32) + ((x03 * x22) * x31)) + x20 * ((x01 * x12) * x33 - ((x01 * x13) * x32) - ((x02 * x11) * x33) + ((x02 * x13) * x31) + ((x03 * x11) * x32) - ((x03 * x12) * x31)) + x30 * (0 - ((x01 * x12) * x23) + ((x01 * x13) * x22) + ((x02 * x11) * x23) - ((x02 * x13) * x21) - ((x03 * x11) * x22) + ((x03 * x12) * x21)) == x00 * ((x11 * x22) * x33 - ((x11 * x23) * x32) - ((x12 * x21) * x33) + ((x12 * x23) * x31) + ((x13 * x21) * x32) - ((x13 * x22) * x31)) + x01 * (0 - ((x10 * x22) * x33) + ((x10 * x23) * x32) + ((x12 * x20) * x33) - ((x12 * x23) * x30) - ((x13 * x20) * x32) + ((x13 * x22) * x30)) + x02 * ((x10 * x21) * x33 - ((x10 * x23) * x31) - ((x11 * x20) * x33) + ((x11 * x23) * x30) + ((x13 * x20) * x31) - ((x13 * x21) * x30)) + x03 * (0 - ((x10 * x21) * x32) + ((x10 * x22) * x31) + ((x11 * x20) * x32) - ((x11 * x22) * x30) - ((x12 * x20) * x31) + ((x12 * x21) * x30)),
        x01 * ((x11 * x22) * x33 - ((x11 * x23) * x32) - ((x12 * x21) * x33) + ((x12 * x23) * x31) + ((x13 * x21) * x32) - ((x13 * x22) * x31)) + x11 * (0 - ((x01 * x22) * x33) + ((x01 * x23) * x32) + ((x02 * x21) * x33) - ((x02 * x23) * x31) - ((x03 * x21) * x32) + ((x03 * x22) * x31)) + x21 * ((x01 * x12) * x33 - ((x01 * x13) * x32) - ((x02 * x11) * x33) + ((x02 * x13) * x31) + ((x03 * x11) * x32) - ((x03 * x12) * x31)) + x31 * (0 - ((x01 * x12) * x23) + ((x01 * x13) * x22) + ((x02 * x11) * x23) - ((x02 * x13) * x21) - ((x03 * x11) * x22) + ((x03 * x12) * x21)) == 0,
        x02 * ((x11 * x22) * x33 - ((x11 * x23) * x32) - ((x12 * x21) * x33) + ((x12 * x23) * x31) + ((x13 * x21) * x32) - ((x13 * x22) * x31)) + x12 * (0 - ((x01 * x22) * x33) + ((x01 * x23) * x32) + ((x02 * x21) * x33) - ((x02 * x23) * x31) - ((x03 * x21) * x32) + ((x03 * x22) * x31)) + x22 * ((x01 * x12) * x33 - ((x01 * x13) * x32) - ((x02 * x11) * x33) + ((x02 * x13) * x31) + ((x03 * x11) * x32) - ((x03 * x12) * x31)) + x32 * (0 - ((x01 * x12) * x23) + ((x01 * x13) * x22) + ((x02 * x11) * x23) - ((x02 * x13) * x21) - ((x03 * x11) * x22) + ((x03 * x12) * x21)) == 0,
        x03 * ((x11 * x22) * x33 - ((x11 * x23) * x32) - ((x12 * x21) * x33) + ((x12 * x23) * x31) + ((x13 * x21) * x32) - ((x13 * x22) * x31)) + x13 * (0 - ((x01 * x22) * x33) + ((x01 * x23) * x32) + ((x02 * x21) * x33) - ((x02 * x23) * x31) - ((x03 * x21) * x32) + ((x03 * x22) * x31)) + x23 * ((x01 * x12) * x33 - ((x01 * x13) * x32) - ((x02 * x11) * x33) + ((x02 * x13) * x31) + ((x03 * x11) * x32) - ((x03 * x12) * x31)) + x33 * (0 - ((x01 * x12) * x23) + ((x01 * x13) * x22) + ((x02 * x11) * x23) - ((x02 * x13) * x21) - ((x03 * x11) * x22) + ((x03 * x12) * x21)) == 0,
        x00 * (0 - ((x10 * x22) * x33) + ((x10 * x23) * x32) + ((x12 * x20) * x33) - ((x12 * x23) * x30) - ((x13 * x20) * x32) + ((x13 * x22) * x30)) + x10 * ((x00 * x22) * x33 - ((x00 * x23) * x32) - ((x02 * x20) * x33) + ((x02 * x23) * x30) + ((x03 * x20) * x32) - ((x03 * x22) * x30)) + x20 * (0 - ((x00 * x12) * x33) + ((x00 * x13) * x32) + ((x02 * x10) * x33) - ((x02 * x13) * x30) - ((x03 * x10) * x32) + ((x03 * x12) * x30)) + x30 * ((x00 * x12) * x23 - ((x00 * x13) * x22) - ((x02 * x10) * x23) + ((x02 * x13) * x20) + ((x03 * x10) * x22) - ((x03 * x12) * x20)) == 0,
        x01 * (0 - ((x10 * x22) * x33) + ((x10 * x23) * x32) + ((x12 * x20) * x33) - ((x12 * x23) * x30) - ((x13 * x20) * x32) + ((x13 * x22) * x30)) + x11 * ((x00 * x22) * x33 - ((x00 * x23) * x32) - ((x02 * x20) * x33) + ((x02 * x23) * x30) + ((x03 * x20) * x32) - ((x03 * x22) * x30)) + x21 * (0 - ((x00 * x12) * x33) + ((x00 * x13) * x32) + ((x02 * x10) * x33) - ((x02 * x13) * x30) - ((x03 * x10) * x32) + ((x03 * x12) * x30)) + x31 * ((x00 * x12) * x23 - ((x00 * x13) * x22) - ((x02 * x10) * x23) + ((x02 * x13) * x20) + ((x03 * x10) * x22) - ((x03 * x12) * x20)) == x00 * ((x11 * x22) * x33 - ((x11 * x23) * x32) - ((x12 * x21) * x33) + ((x12 * x23) * x31) + ((x13 * x21) * x32) - ((x13 * x22) * x31)) + x01 * (0 - ((x10 * x22) * x33) + ((x10 * x23) * x32) + ((x12 * x20) * x33) - ((x12 * x23) * x30) - ((x13 * x20) * x32) + ((x13 * x22) * x30)) + x02 * ((x10 * x21) * x33 - ((x10 * x23) * x31) - ((x11 * x20) * x33) + ((x11 * x23) * x30) + ((x13 * x20) * x31) - ((x13 * x21) * x30)) + x03 * (0 - ((x10 * x21) * x32) + ((x10 * x22) * x31) + ((x11 * x20) * x32) - ((x11 * x22) * x30) - ((x12 * x20) * x31) + ((x12 * x21) * x30)),
        x02 * (0 - ((x10 * x22) * x33) + ((x10 * x23) * x32) + ((x12 * x20) * x33) - ((x12 * x23) * x30) - ((x13 * x20) * x32) + ((x13 * x22) * x30)) + x12 * ((x00 * x22) * x33 - ((x00 * x23) * x32) - ((x02 * x20) * x33) + ((x02 * x23) * x30) + ((x03 * x20) * x32) - ((x03 * x22) * x30)) + x22 * (0 - ((x00 * x12) * x33) + ((x00 * x13) * x32) + ((x02 * x10) * x33) - ((x02 * x13) * x30) - ((x03 * x10) * x32) + ((x03 * x12) * x30)) + x32 * ((x00 * x12) * x23 - ((x00 * x13) * x22) - ((x02 * x10) * x23) + ((x02 * x13) * x20) + ((x03 * x10) * x22) - ((x03 * x12) * x20)) == 0,
        x03 * (0 - ((x10 * x22) * x33) + ((x10 * x23) * x32) + ((x12 * x20) * x33) - ((x12 * x23) * x30) - ((x13 * x20) * x32) + ((x13 * x22) * x30)) + x13 * ((x00 * x22) * x33 - ((x00 * x23) * x32) - ((x02 * x20) * x33) + ((x02 * x23) * x30) + ((x03 * x20) * x32) - ((x03 * x22) * x30)) + x23 * (0 - ((x00 * x12) * x33) + ((x00 * x13) * x32) + ((x02 * x10) * x33) - ((x02 * x13) * x30) - ((x03 * x10) * x32) + ((x03 * x12) * x30)) + x33 * ((x00 * x12) * x23 - ((x00 * x13) * x22) - ((x02 * x10) * x23) + ((x02 * x13) * x20) + ((x03 * x10) * x22) - ((x03 * x12) * x20)) == 0,
        x00 * ((x10 * x21) * x33 - ((x10 * x23) * x31) - ((x11 * x20) * x33) + ((x11 * x23) * x30) + ((x13 * x20) * x31) - ((x13 * x21) * x30)) + x10 * (0 - ((x00 * x21) * x33) + ((x00 * x23) * x31) + ((x01 * x20) * x33) - ((x01 * x23) * x30) - ((x03 * x20) * x31) + ((x03 * x21) * x30)) + x20 * ((x00 * x11) * x33 - ((x00 * x13) * x31) - ((x01 * x10) * x33) + ((x01 * x13) * x30) + ((x03 * x10) * x31) - ((x03 * x11) * x30)) + x30 * (0 - ((x00 * x11) * x23) + ((x00 * x13) * x21) + ((x01 * x10) * x23) - ((x01 * x13) * x20) - ((x03 * x10) * x21) + ((x03 * x11) * x20)) == 0,
        x01 * ((x10 * x21) * x33 - ((x10 * x23) * x31) - ((x11 * x20) * x33) + ((x11 * x23) * x30) + ((x13 * x20) * x31) - ((x13 * x21) * x30)) + x11 * (0 - ((x00 * x21) * x33) + ((x00 * x23) * x31) + ((x01 * x20) * x33) - ((x01 * x23) * x30) - ((x03 * x20) * x31) + ((x03 * x21) * x30)) + x21 * ((x00 * x11) * x33 - ((x00 * x13) * x31) - ((x01 * x10) * x33) + ((x01 * x13) * x30) + ((x03 * x10) * x31) - ((x03 * x11) * x30)) + x31 * (0 - ((x00 * x11) * x23) + ((x00 * x13) * x21) + ((x01 * x10) * x23) - ((x01 * x13) * x20) - ((x03 * x10) * x21) + ((x03 * x11) * x20)) == 0,
        x02 * ((x10 * x21) * x33 - ((x10 * x23) * x31) - ((x11 * x20) * x33) + ((x11 * x23) * x30) + ((x13 * x20) * x31) - ((x13 * x21) * x30)) + x12 * (0 - ((x00 * x21) * x33) + ((x00 * x23) * x31) + ((x01 * x20) * x33) - ((x01 * x23) * x30) - ((x03 * x20) * x31) + ((x03 * x21) * x30)) + x22 * ((x00 * x11) * x33 - ((x00 * x13) * x31) - ((x01 * x10) * x33) + ((x01 * x13) * x30) + ((x03 * x10) * x31) - ((x03 * x11) * x30)) + x32 * (0 - ((x00 * x11) * x23) + ((x00 * x13) * x21) + ((x01 * x10) * x23) - ((x01 * x13) * x20) - ((x03 * x10) * x21) + ((x03 * x11) * x20)) == x00 * ((x11 * x22) * x33 - ((x11 * x23) * x32) - ((x12 * x21) * x33) + ((x12 * x23) * x31) + ((x13 * x21) * x32) - ((x13 * x22) * x31)) + x01 * (0 - ((x10 * x22) * x33) + ((x10 * x23) * x32) + ((x12 * x20) * x33) - ((x12 * x23) * x30) - ((x13 * x20) * x32) + ((x13 * x22) * x30)) + x02 * ((x10 * x21) * x33 - ((x10 * x23) * x31) - ((x11 * x20) * x33) + ((x11 * x23) * x30) + ((x13 * x20) * x31) - ((x13 * x21) * x30)) + x03 * (0 - ((x10 * x21) * x32) + ((x10 * x22) * x31) + ((x11 * x20) * x32) - ((x11 * x22) * x30) - ((x12 * x20) * x31) + ((x12 * x21) * x30)),
        x03 * ((x10 * x21) * x33 - ((x10 * x23) * x31) - ((x11 * x20) * x33) + ((x11 * x23) * x30) + ((x13 * x20) * x31) - ((x13 * x21) * x30)) + x13 * (0 - ((x00 * x21) * x33) + ((x00 * x23) * x31) + ((x01 * x20) * x33) - ((x01 * x23) * x30) - ((x03 * x20) * x31) + ((x03 * x21) * x30)) + x23 * ((x00 * x11) * x33 - ((x00 * x13) * x31) - ((x01 * x10) * x33) + ((x01 * x13) * x30) + ((x03 * x10) * x31) - ((x03 * x11) * x30)) + x33 * (0 - ((x00 * x11) * x23) + ((x00 * x13) * x21) + ((x01 * x10) * x23) - ((x01 * x13) * x20) - ((x03 * x10) * x21) + ((x03 * x11) * x20)) == 0,
        x00 * (0 - ((x10 * x21) * x32) + ((x10 * x22) * x31) + ((x11 * x20) * x32) - ((x11 * x22) * x30) - ((x12 * x20) * x31) + ((x12 * x21) * x30)) + x10 * ((x00 * x21) * x32 - ((x00 * x22) * x31) - ((x01 * x20) * x32) + ((x01 * x22) * x30) + ((x02 * x20) * x31) - ((x02 * x21) * x30)) + x20 * (0 - ((x00 * x11) * x32) + ((x00 * x12) * x31) + ((x01 * x10) * x32) - ((x01 * x12) * x30) - ((x02 * x10) * x31) + ((x02 * x11) * x30)) + x30 * ((x00 * x11) * x22 - ((x00 * x12) * x21) - ((x01 * x10) * x22) + ((x01 * x12) * x20) + ((x02 * x10) * x21) - ((x02 * x11) * x20)) == 0,
        x01 * (0 - ((x10 * x21) * x32) + ((x10 * x22) * x31) + ((x11 * x20) * x32) - ((x11 * x22) * x30) - ((x12 * x20) * x31) + ((x12 * x21) * x30)) + x11 * ((x00 * x21) * x32 - ((x00 * x22) * x31) - ((x01 * x20) * x32) + ((x01 * x22) * x30) + ((x02 * x20) * x31) - ((x02 * x21) * x30)) + x21 * (0 - ((x00 * x11) * x32) + ((x00 * x12) * x31) + ((x01 * x10) * x32) - ((x01 * x12) * x30) - ((x02 * x10) * x31) + ((x02 * x11) * x30)) + x31 * ((x00 * x11) * x22 - ((x00 * x12) * x21) - ((x01 * x10) * x22) + ((x01 * x12) * x20) + ((x02 * x10) * x21) - ((x02 * x11) * x20)) == 0,
        x02 * (0 - ((x10 * x21) * x32) + ((x10 * x22) * x31) + ((x11 * x20) * x32) - ((x11 * x22) * x30) - ((x12 * x20) * x31) + ((x12 * x21) * x30)) + x12 * ((x00 * x21) * x32 - ((x00 * x22) * x31) - ((x01 * x20) * x32) + ((x01 * x22) * x30) + ((x02 * x20) * x31) - ((x02 * x21) * x30)) + x22 * (0 - ((x00 * x11) * x32) + ((x00 * x12) * x31) + ((x01 * x10) * x32) - ((x01 * x12) * x30) - ((x02 * x10) * x31) + ((x02 * x11) * x30)) + x32 * ((x00 * x11) * x22 - ((x00 * x12) * x21) - ((x01 * x10) * x22) + ((x01 * x12) * x20) + ((x02 * x10) * x21) - ((x02 * x11) * x20)) == 0,
        x03 * (0 - ((x10 * x21) * x32) + ((x10 * x22) * x31) + ((x11 * x20) * x32) - ((x11 * x22) * x30) - ((x12 * x20) * x31) + ((x12 * x21) * x30)) + x13 * ((x00 * x21) * x32 - ((x00 * x22) * x31) - ((x01 * x20) * x32) + ((x01 * x22) * x30) + ((x02 * x20) * x31) - ((x02 * x21) * x30)) + x23 * (0 - ((x00 * x11) * x32) + ((x00 * x12) * x31) + ((x01 * x10) * x32) - ((x01 * x12) * x30) - ((x02 * x10) * x31) + ((x02 * x11) * x30)) + x33 * ((x00 * x11) * x22 - ((x00 * x12) * x21) - ((x01 * x10) * x22) + ((x01 * x12) * x20) + ((x02 * x10) * x21) - ((x02 * x11) * x20)) == x00 * ((x11 * x22) * x33 - ((x11 * x23) * x32) - ((x12 * x21) * x33) + ((x12 * x23) * x31) + ((x13 * x21) * x32) - ((x13 * x22) * x31)) + x01 * (0 - ((x10 * x22) * x33) + ((x10 * x23) * x32) + ((x12 * x20) * x33) - ((x12 * x23) * x30) - ((x13 * x20) * x32) + ((x13 * x22) * x30)) + x02 * ((x10 * x21) * x33 - ((x10 * x23) * x31) - ((x11 * x20) * x33) + ((x11 * x23) * x30) + ((x13 * x20) * x31) - ((x13 * x21) * x30)) + x03 * (0 - ((x10 * x21) * x32) + ((x10 * x22) * x31) + ((x11 * x20) * x32) - ((x11 * x22) * x30) - ((x12 * x20) * x31) + ((x12 * x21) * x30)),
{
    lemma_mul_is_distributive_sub(x00, (x11 * x22) * x33 - ((x11 * x23) * x32) - ((x12 * x21) * x33) + ((x12 * x23) * x31) + ((x13 * x21) * x32), ((x13 * x22) * x31));
    lemma_mul_is_distributive_add(x00, (x11 * x22) * x33 - ((x11 * x23) * x32) - ((x12 * x21) * x33) + ((x12 * x23) * x31), ((x13 * x21) * x32));
    lemma_mul_is_distributive_add(x00, (x11 * x22) * x33 - ((x11 * x23) * x32) - ((x12 * x21) * x33), ((x12 * x23) * x31));
    lemma_mul_is_distributive_sub(x00, (x11 * x22) * x33 - ((x11 * x23) * x32), ((x12 * x21) * x33));
    lemma_mul_is_distributive_sub(x00, (x11 * x22) * x33, ((x11 * x23) * x32));
    assert(x00 * ((x11 * x22) * x33) == ((x00 * x11) * x22) * x33) by (nonlinear_arith);
    assert(x00 * ((x11 * x23) * x32) == ((x00 * x11) * x23) * x32) by (nonlinear_arith);
    assert(x00 * ((x12 * x21) * x33) == ((x00 * x12) * x21) * x33) by (nonlinear_arith);
    assert(x00 * ((x12 * x23) * x31) == ((x00 * x12) * x23) * x31) by (nonlinear_arith);
    assert(x00 * ((x13 * x21) * x32) == ((x00 * x13) * x21) * x32) by (nonlinear_arith);
    assert(x00 * ((x13 * x22) * x31) == ((x00 * x13) * x22) * x31) by (nonlinear_arith);
    lemma_mul_is_distributive_add(x00, 0 - ((x10 * x22) * x33) + ((x10 * x23) * x32) + ((x12 * x20) * x33) - ((x12 * x23) * x30) - ((x13 * x20) * x32), ((x13 * x22) * x30));
    lemma_mul_is_distributive_sub(x00, 0 - ((x10 * x22) * x33) + ((x10 * x23) * x32) + ((x12 * x20) * x33) - ((x12 * x23) * x30), ((x13 * x20) * x32));
    lemma_mul_is_distributive_sub(x00, 0 - ((x10 * x22) * x33) + ((x10 * x23) * x32) + ((x12 * x20) * x33), ((x12 * x23) * x30));
    lemma_mul_is_distributive_add(x00, 0 - ((x10 * x22) * x33) + ((x10 * x23) * x32), ((x12 * x20) * x33));
    lemma_mul_is_distributive_add(x00, 0 - ((x10 * x22) * x33), ((x10 * x23) * x32));
    lemma_mul_is_distributive_sub(x00, 0, ((x10 * x22) * x33));
    assert(x00 * ((x10 * x22) * x33) == ((x00 * x10) * x22) * x33) by (nonlinear_arith);
    assert(x00 * ((x10 * x23) * x32) == ((x00 * x10) * x23) * x32) by (nonlinear_arith);
    assert(x00 * ((x12 * x20) * x33) == ((x00 * x12) * x20) * x33) by (nonlinear_arith);
    assert(x00 * ((x12 * x23) * x30) == ((x00 * x12) * x23) * x30) by (nonlinear_arith);
    assert(x00 * ((x13 * x20) * x32) == ((x00 * x13) * x20) * x32) by (nonlinear_arith);
    assert(x00 * ((x13 * x22) * x30) == ((x00 * x13) * x22) * x30) by (nonlinear_arith);
    lemma_mul_is_distributive_sub(x00, (x10 * x21) * x33 - ((x10 * x23) * x31) - ((x11 * x20) * x33) + ((x11 * x23) * x30) + ((x13 * x20) * x31), ((x13 * x21) * x30));
    lemma_mul_is_distributive_add(x00, (x10 * x21) * x33 - ((x10 * x23) * x31) - ((x11 * x20) * x33) + ((x11 * x23) * x30), ((x13 * x20) * x31));
    lemma_mul_is_distributive_add(x00, (x10 * x21) * x33 - ((x10 * x23) * x31) - ((x11 * x20) * x33), ((x11 * x23) * x30));
    lemma_mul_is_distributive_sub(x00, (x10 * x21) * x33 - ((x10 * x23) * x31), ((x11 * x20) * x33));
    lemma_mul_is_distributive_sub(x00, (x10 * x21) * x33, ((x10 * x23) * x31));
    assert(x00 * ((x10 * x21) * x33) == ((x00 * x10) * x21) * x33) by (nonlinear_arith);
    assert(x00 * ((x10 * x23) * x31) == ((x00 * x10) * x23) * x31) by (nonlinear_arith);
    assert(x00 * ((x11 * x20) * x33) == ((x00 * x11) * x20) * x33) by (nonlinear_arith);
    assert(x00 * ((x11 * x23) * x30) == ((x00 * x11) * x23) * x30) by (nonlinear_arith);
    assert(x00 * ((x13 * x20) * x31) == ((x00 * x13) * x20) * x31) by (nonlinear_arith);
    assert(x00 * ((x13 * x21) * x30) == ((x00 * x13) * x21) * x30) by (nonlinear_arith);
    lemma_mul_is_distributive_add(x00, 0 - ((x10 * x21) * x32) + ((x10 * x22) * x31) + ((x11 * x20) * x32) - ((x11 * x22) * x30) - ((x12 * x20) * x31), ((x12 * x21) * x30));
    lemma_mul_is_distributive_sub(x00, 0 - ((x10 * x21) * x32) + ((x10 * x22) * x31) + ((x11 * x20) * x32) - ((x11 * x22) * x30), ((x12 * x20) * x31));
    lemma_mul_is_distributive_sub(x00, 0 - ((x10 * x21) * x32) + ((x10 * x22) * x31) + ((x11 * x20) * x32), ((x11 * x22) * x30));
    lemma_mul_is_distributive_add(x00, 0 - ((x10 * x21) * x32) + ((x10 * x22) * x31), ((x11 * x20) * x32));
    lemma_mul_is_distributive_add(x00, 0 - ((x10 * x21) * x32), ((x10 * x22) * x31));
    lemma_mul_is_distributive_sub(x00, 0, ((x10 * x21) * x32));
    assert(x00 * ((x10 * x21) * x32) == ((x00 * x10) * x21) * x32) by (nonlinear_arith);
    assert(x00 * ((x10 * x22) * x31) == ((x00 * x10) * x22) * x31) by (nonlinear_arith);
    assert(x00 * ((x11 * x20) * x32) == ((x00 * x11) * x20) * x32) by (nonlinear_arith);
    assert(x00 * ((x11 * x22) * x30) == ((x00 * x11) * x22) * x30) by (nonlinear_arith);
    assert(x00 * ((x12 * x20) * x31) == ((x00 * x12) * x20) * x31) by (nonlinear_arith);
    assert(x00 * ((x12 * x21) * x30) == ((x00 * x12) * x21) * x30) by (nonlinear_arith);
    lemma_mul_is_distributive_sub(x01, (x11 * x22) * x33 - ((x11 * x23) * x32) - ((x12 * x21) * x33) + ((x12 * x23) * x31) + ((x13 * x21) * x32), ((x13 * x22) * x31));
    lemma_mul_is_distributive_add(x01, (x11 * x22) * x33 - ((x11 * x23) * x32) - ((x12 * x21) * x33) + ((x12 * x23) * x31), ((x13 * x21) * x32));
    lemma_mul_is_distributive_add(x01, (x11 * x22) * x33 - ((x11 * x23) * x32) - ((x12 * x21) * x33), ((x12 * x23) * x31));
    lemma_mul_is_distributive_sub(x01, (x11 * x22) * x33 - ((x11 * x23) * x32), ((x12 * x21) * x33));
    lemma_mul_is_distributive_sub(x01, (x11 * x22) * x33, ((x11 * x23) * x32));
    assert(x01 * ((x11 * x22) * x33) == ((x01 * x11) * x22) * x33) by (nonlinear_arith);
    assert(x01 * ((x11 * x23) * x32) == ((x01 * x11) * x23) * x32) by (nonlinear_arith);
    assert(x01 * ((x12 * x21) * x33) == ((x01 * x12) * x21) * x33) by (nonlinear_arith);
    assert(x01 * ((x12 * x23) * x31) == ((x01 * x12) * x23) * x31) by (nonlinear_arith);
    assert(x01 * ((x13 * x21) * x32) == ((x01 * x13) * x21) * x32) by (nonlinear_arith);
    assert(x01 * ((x13 * x22) * x31) == ((x01 * x13) * x22) * x31) by (nonlinear_arith);
    lemma_mul_is_distributive_add(x01, 0 - ((x10 * x22) * x33) + ((x10 * x23) * x32) + ((x12 * x20) * x33) - ((x12 * x23) * x30) - ((x13 * x20) * x32), ((x13 * x22) * x30));
    lemma_mul_is_distributive_sub(x01, 0 - ((x10 * x22) * x33) + ((x10 * x23) * x32) + ((x12 * x20) * x33) - ((x12 * x23) * x30), ((x13 * x20) * x32));
    lemma_mul_is_distributive_sub(x01, 0 - ((x10 * x22) * x33) + ((x10 * x23) * x32) + ((x12 * x20) * x33), ((x12 * x23) * x30));
    lemma_mul_is_distributive_add(x01, 0 - ((x10 * x22) * x33) + ((x10 * x23) * x32), ((x12 * x20) * x33));
    lemma_mul_is_distributive_add(x01, 0 - ((x10 * x22) * x33), ((x10 * x23) * x32));
    lemma_mul_is_distributive_sub(x01, 0, ((x10 * x22) * x33));
    assert(x01 * ((x10 * x22) * x33) == ((x01 * x10) * x22) * x33) by (nonlinear_arith);
    assert(x01 * ((x10 * x23) * x32) == ((x01 * x10) * x23) * x32) by (nonlinear_arith);
    assert(x01 * ((x12 * x20) * x33) == ((x01 * x12) * x20) * x33) by (nonlinear_arith);
    assert(x01 * ((x12 * x23) * x30) == ((x01 * x12) * x23) * x30) by (nonlinear_arith);
    assert(x01 * ((x13 * x20) * x32) == ((x01 * x13) * x20) * x32) by (nonlinear_arith);
    assert(x01 * ((x13 * x22) * x30) == ((x01 * x13) * x22) * x30) by (nonlinear_arith);
    lemma_mul_is_distributive_sub(x01, (x10 * x21) * x33 - ((x10 * x23) * x31) - ((x11 * x20) * x33) + ((x11 * x23) * x30) + ((x13 * x20) * x31), ((x13 * x21) * x30));
    lemma_mul_is_distributive_add(x01, (x10 * x21) * x33 - ((x10 * x23) * x31) - ((x11 * x20) * x33) + ((x11 * x23) * x30), ((x13 * x20) * x31));
    lemma_mul_is_distributive_add(x01, (x10 * x21) * x33 - ((x10 * x23) * x31) - ((x11 * x20) * x33), ((x11 * x23) * x30));
    lemma_mul_is_distributive_sub(x01, (x10 * x21) * x33 - ((x10 * x23) * x31), ((x11 * x20) * x33));
    lemma_mul_is_distributive_sub(x01, (x10 * x21) * x33, ((x10 * x23) * x31));
    assert(x01 * ((x10 * x21) * x33) == ((x01 * x10) * x21) * x33) by (nonlinear_arith);
    assert(x01 * ((x10 * x23) * x31) == ((x01 * x10) * x23) * x31) by (nonlinear_arith);
    assert(x01 * ((x11 * x20) * x33) == ((x01 * x11) * x20) * x33) by (nonlinear_arith);
    assert(x01 * ((x11 * x23) * x30) == ((x01 * x11) * x23) * x30) by (nonlinear_arith);
    assert(x01 * ((x13 * x20) * x31) == ((x01 * x13) * x20) * x31) by (nonlinear_arith);
    assert(x01 * ((x13 * x21) * x30) == ((x01 * x13) * x21) * x30) by (nonlinear_arith);
    lemma_mul_is_distributive_add(x01, 0 - ((x10 * x21) * x32) + ((x10 * x22) * x31) + ((x11 * x20) * x32) - ((x11 * x22) * x30) - ((x12 * x20) * x31), ((x12 * x21) * x30));
    lemma_mul_is_distributive_sub(x01, 0 - ((x10 * x21) * x32) + ((x10 * x22) * x31) + ((x11 * x20) * x32) - ((x11 * x22) * x30), ((x12 * x20) * x31));
    lemma_mul_is_distributive_sub(x01, 0 - ((x10 * x21) * x32) + ((x10 * x22) * x31) + ((x11 * x20) * x32), ((x11 * x22) * x30));
    lemma_mul_is_distributive_add(x01, 0 - ((x10 * x21) * x32) + ((x10 * x22) * x31), ((x11 * x20) * x32));
    lemma_mul_is_distributive_add(x01, 0 - ((x10 * x21) * x32), ((x10 * x22) * x31));
    lemma_mul_is_distributive_sub(x01, 0, ((x10 * x21) * x32));
    assert(x01 * ((x10 * x21) * x32) == ((x01 * x10) * x21) * x32) by (nonlinear_arith);
    assert(x01 * ((x10 * x22) * x31) == ((x01 * x10) * x22) * x31) by (nonlinear_arith);
    assert(x01 * ((x11 * x20) * x32) == ((x01 * x11) * x20) * x32) by (nonlinear_arith);
    assert(x01 * ((x11 * x22) * x30) == ((x01 * x11) * x22) * x30) by (nonlinear_arith);
    assert(x01 * ((x12 * x20) * x31) == ((x01 * x12) * x20) * x31) by (nonlinear_arith);
    assert(x01 * ((x12 * x21) * x30) == ((x01 * x12) * x21) * x30) by (nonlinear_arith);
    lemma_mul_is_distributive_sub(x02, (x11 * x22) * x33 - ((x11 * x23) * x32) - ((x12 * x21) * x33) + ((x12 * x23) * x31) + ((x13 * x21) * x32), ((x13 * x22) * x31));
    lemma_mul_is_distributive_add(x02, (x11 * x22) * x33 - ((x11 * x23) * x32) - ((x12 * x21) * x33) + ((x12 * x23) * x31), ((x13 * x21) * x32));
    lemma_mul_is_distributive_add(x02, (x11 * x22) * x33 - ((x11 * x23) * x32) - ((x12 * x21) * x33), ((x12 * x23) * x31));
    lemma_mul_is_distributive_sub(x02, (x11 * x22) * x33 - ((x11 * x23) * x32), ((x12 * x21) * x33));
    lemma_mul_is_distributive_sub(x02, (x11 * x22) * x33, ((x11 * x23) * x32));
    assert(x02 * ((x11 * x22) * x33) == ((x02 * x11) * x22) * x33) by (nonlinear_arith);
    assert(x02 * ((x11 * x23) * x32) == ((x02 * x11) * x23) * x32) by (nonlinear_arith);
    assert(x02 * ((x12 * x21) * x33) == ((x02 * x12) * x21) * x33) by (nonlinear_arith);
    assert(x02 * ((x12 * x23) * x31) == ((x02 * x12) * x23) * x31) by (nonlinear_arith);
    assert(x02 * ((x13 * x21) * x32) == ((x02 * x13) * x21) * x32) by (nonlinear_arith);
    assert(x02 * ((x13 * x22) * x31) == ((x02 * x13) * x22) * x31) by (nonlinear_arith);
    lemma_mul_is_distributive_add(x02, 0 - ((x10 * x22) * x33) + ((x10 * x23) * x32) + ((x12 * x20) * x33) - ((x12 * x23) * x30) - ((x13 * x20) * x32), ((x13 * x22) * x30));
    lemma_mul_is_distributive_sub(x02, 0 - ((x10 * x22) * x33) + ((x10 * x23) * x32) + ((x12 * x20) * x33) - ((x12 * x23) * x30), ((x13 * x20) * x32));
    lemma_mul_is_distributive_sub(x02, 0 - ((x10 * x22) * x33) + ((x10 * x23) * x32) + ((x12 * x20) * x33), ((x12 * x23) * x30));
    lemma_mul_is_distributive_add(x02, 0 - ((x10 * x22) * x33) + ((x10 * x23) * x32), ((x12 * x20) * x33));
    lemma_mul_is_distributive_add(x02, 0 - ((x10 * x22) * x33), ((x10 * x23) * x32));
    lemma_mul_is_distributive_sub(x02, 0, ((x10 * x22) * x33));
    assert(x02 * ((x10 * x22) * x33) == ((x02 * x10) * x22) * x33) by (nonlinear_arith);
    assert(x02 * ((x10 * x23) * x32) == ((x02 * x10) * x23) * x32) by (nonlinear_arith);
    assert(x02 * ((x12 * x20) * x33) == ((x02 * x12) * x20) * x33) by (nonlinear_arith);
    assert(x02 * ((x12 * x23) * x30) == ((x02 * x12) * x23) * x30) by (nonlinear_arith);
    assert(x02 * ((x13 * x20) * x32) == ((x02 * x13) * x20) * x32) by (nonlinear_arith);
    assert(x02 * ((x13 * x22) * x30) == ((x02 * x13) * x22) * x30) by (nonlinear_arith);
    lemma_mul_is_distributive_sub(x02, (x10 * x21) * x33 - ((x10 * x23) * x31) - ((x11 * x20) * x33) + ((x11 * x23) * x30) + ((x13 * x20) * x31), ((x13 * x21) * x30));
    lemma_mul_is_distributive_add(x02, (x10 * x21) * x33 - ((x10 * x23) * x31) - ((x11 * x20) * x33) + ((x11 * x23) * x30), ((x13 * x20) * x31));
    lemma_mul_is_distributive_add(x02, (x10 * x21) * x33 - ((x10 * x23) * x31) - ((x11 * x20) * x33), ((x11 * x23) * x30));
    lemma_mul_is_distributive_sub(x02, (x10 * x21) * x33 - ((x10 * x23) * x31), ((x11 * x20) * x33));
    lemma_mul_is_distributive_sub(x02, (x10 * x21) * x33, ((x10 * x23) * x31));
    assert(x02 * ((x10 * x21) * x33) == ((x02 * x10) * x21) * x33) by (nonlinear_arith);
    assert(x02 * ((x10 * x23) * x31) == ((x02 * x10) * x23) * x31) by (nonlinear_arith);
    assert(x02 * ((x11 * x20) * x33) == ((x02 * x11) * x20) * x33) by (nonlinear_arith);
    assert(x02 * ((x11 * x23) * x30) == ((x02 * x11) * x23) * x30) by (nonlinear_arith);
    assert(x02 * ((x13 * x20) * x31) == ((x02 * x13) * x20) * x31) by (nonlinear_arith);
    assert(x02 * ((x13 * x21) * x30) == ((x02 * x13) * x21) * x30) by (nonlinear_arith);
    lemma_mul_is_distributive_add(x02, 0 - ((x10 * x21) * x32) + ((x10 * x22) * x31) + ((x11 * x20) * x32) - ((x11 * x22) * x30) - ((x12 * x20) * x31), ((x12 * x21) * x30));
    lemma_mul_is_distributive_sub(x02, 0 - ((x10 * x21) * x32) + ((x10 * x22) * x31) + ((x11 * x20) * x32) - ((x11 * x22) * x30), ((x12 * x20) * x31));
    lemma_mul_is_distributive_sub(x02, 0 - ((x10 * x21) * x32) + ((x10 * x22) * x31) + ((x11 * x20) * x32), ((x11 * x22) * x30));
    lemma_mul_is_distributive_add(x02, 0 - ((x10 * x21) * x32) + ((x10 * x22) * x31), ((x11 * x20) * x32));
    lemma_mul_is_distributive_add(x02, 0 - ((x10 * x21) * x32), ((x10 * x22) * x31));
    lemma_mul_is_distributive_sub(x02, 0, ((x10 * x21) * x32));
    assert(x02 * ((x10 * x21) * x32) == ((x02 * x10) * x21) * x32) by (nonlinear_arith);
    assert(x02 * ((x10 * x22) * x31) == ((x02 * x10) * x22) * x31) by (nonlinear_arith);
    assert(x02 * ((x11 * x20) * x32) == ((x02 * x11) * x20) * x32) by (nonlinear_arith);
    assert(x02 * ((x11 * x22) * x30) == ((x02 * x11) * x22) * x30) by (nonlinear_arith);
    assert(x02 * ((x12 * x20) * x31) == ((x02 * x12) * x20) * x31) by (nonlinear_arith);
    assert(x02 * ((x12 * x21) * x30) == ((x02 * x12) * x21) * x30) by (nonlinear_arith);
    lemma_mul_is_distributive_sub(x03, (x11 * x22) * x33 - ((x11 * x23) * x32) - ((x12 * x21) * x33) + ((x12 * x23) * x31) + ((x13 * x21) * x32), ((x13 * x22) * x31));
    lemma_mul_is_distributive_add(x03, (x11 * x22) * x33 - ((x11 * x23) * x32) - ((x12 * x21) * x33) + ((x12 * x23) * x31), ((x13 * x21) * x32));
    lemma_mul_is_distributive_add(x03, (x11 * x22) * x33 - ((x11 * x23) * x32) - ((x12 * x21) * x33), ((x12 * x23) * x31));
    lemma_mul_is_distributive_sub(x03, (x11 * x22) * x33 - ((x11 * x23) * x32), ((x12 * x21) * x33));
    lemma_mul_is_distributive_sub(x03, (x11 * x22) * x33, ((x11 * x23) * x32));
    assert(x03 * ((x11 * x22) * x33) == ((x03 * x11) * x22) * x33) by (nonlinear_arith);
    assert(x03 * ((x11 * x23) * x32) == ((x03 * x11) * x23) * x32) by (nonlinear_arith);
    assert(x03 * ((x12 * x21) * x33) == ((x03 * x12) * x21) * x33) by (nonlinear_arith);
    assert(x03 * ((x12 * x23) * x31) == ((x03 * x12) * x23) * x31) by (nonlinear_arith);
    assert(x03 * ((x13 * x21) * x32) == ((x03 * x13) * x21) * x32) by (nonlinear_arith);
    assert(x03 * ((x13 * x22) * x31) == ((x03 * x13) * x22) * x31) by (nonlinear_arith);
    lemma_mul_is_distributive_add(x03, 0 - ((x10 * x22) * x33) + ((x10 * x23) * x32) + ((x12 * x20) * x33) - ((x12 * x23) * x30) - ((x13 * x20) * x32), ((x13 * x22) * x30));
    lemma_mul_is_distributive_sub(x03, 0 - ((x10 * x22) * x33) + ((x10 * x23) * x32) + ((x12 * x20) * x33) - ((x12 * x23) * x30), ((x13 * x20) * x32));
    lemma_mul_is_distributive_sub(x03, 0 - ((x10 * x22) * x33) + ((x10 * x23) * x32) + ((x12 * x20) * x33), ((x12 * x23) * x30));
    lemma_mul_is_distributive_add(x03, 0 - ((x10 * x22) * x33) + ((x10 * x23) * x32), ((x12 * x20) * x33));
    lemma_mul_is_distributive_add(x03, 0 - ((x10 * x22) * x33), ((x10 * x23) * x32));
    lemma_mul_is_distributive_sub(x03, 0, ((x10 * x22) * x33));
    assert(x03 * ((x10 * x22) * x33) == ((x03 * x10) * x22) * x33) by (nonlinear_arith);
    assert(x03 * ((x10 * x23) * x32) == ((x03 * x10) * x23) * x32) by (nonlinear_arith);
    assert(x03 * ((x12 * x20) * x33) == ((x03 * x12) * x20) * x33) by (nonlinear_arith);
    assert(x03 * ((x12 * x23) * x30) == ((x03 * x12) * x23) * x30) by (nonlinear_arith);
    assert(x03 * ((x13 * x20) * x32) == ((x03 * x13) * x20) * x32) by (nonlinear_arith);
    assert(x03 * ((x13 * x22) * x30) == ((x03 * x13) * x22) * x30) by (nonlinear_arith);
    lemma_mul_is_distributive_sub(x03, (x10 * x21) * x33 - ((x10 * x23) * x31) - ((x11 * x20) * x33) + ((x11 * x23) * x30) + ((x13 * x20) * x31), ((x13 * x21) * x30));
    lemma_mul_is_distributive_add(x03, (x10 * x21) * x33 - ((x10 * x23) * x31) - ((x11 * x20) * x33) + ((x11 * x23) * x30), ((x13 * x20) * x31));
    lemma_mul_is_distributive_add(x03, (x10 * x21) * x33 - ((x10 * x23) * x31) - ((x11 * x20) * x33), ((x11 * x23) * x30));
    lemma_mul_is_distributive_sub(x03, (x10 * x21) * x33 - ((x10 * x23) * x31), ((x11 * x20) * x33));
    lemma_mul_is_distributive_sub(x03, (x10 * x21) * x33, ((x10 * x23) * x31));
    assert(x03 * ((x10 * x21) * x33) == ((x03 * x10) * x21) * x33) by (nonlinear_arith);
    assert(x03 * ((x10 * x23) * x31) == ((x03 * x10) * x23) * x31) by (nonlinear_arith);
    assert(x03 * ((x11 * x20) * x33) == ((x03 * x11) * x20) * x33) by (nonlinear_arith);
    assert(x03 * ((x11 * x23) * x30) == ((x03 * x11) * x23) * x30) by (nonlinear_arith);
    assert(x03 * ((x13 * x20) * x31) == ((x03 * x13) * x20) * x31) by (nonlinear_arith);
    assert(x03 * ((x13 * x21) * x30) == ((x03 * x13) * x21) * x30) by (nonlinear_arith);
    lemma_mul_is_distributive_add(x03, 0 - ((x10 * x21) * x32) + ((x10 * x22) * x31) + ((x11 * x20) * x32) - ((x11 * x22) * x30) - ((x12 * x20) * x31), ((x12 * x21) * x30));
    lemma_mul_is_distributive_sub(x03, 0 - ((x10 * x21) * x32) + ((x10 * x22) * x31) + ((x11 * x20) * x32) - ((x11 * x22) * x30), ((x12 * x20) * x31));
    lemma_mul_is_distributive_sub(x03, 0 - ((x10 * x21) * x32) + ((x10 * x22) * x31) + ((x11 * x20) * x32), ((x11 * x22) * x30));
    lemma_mul_is_distributive_add(x03, 0 - ((x10 * x21) * x32) + ((x10 * x22) * x31), ((x11 * x20) * x32));
    lemma_mul_is_distributive_add(x03, 0 - ((x10 * x21) * x32), ((x10 * x22) * x31));
    lemma_mul_is_distributive_sub(x03, 0, ((x10 * x21) * x32));
    assert(x03 * ((x10 * x21) * x32) == ((x03 * x10) * x21) * x32) by (nonlinear_arith);
    assert(x03 * ((x10 * x22) * x31) == ((x03 * x10) * x22) * x31) by (nonlinear_arith);
    assert(x03 * ((x11 * x20) * x32) == ((x03 * x11) * x20) * x32) by (nonlinear_arith);
    assert(x03 * ((x11 * x22) * x30) == ((x03 * x11) * x22) * x30) by (nonlinear_arith);
    assert(x03 * ((x12 * x20) * x31) == ((x03 * x12) * x20) * x31) by (nonlinear_arith);
    assert(x03 * ((x12 * x21) * x30) == ((x03 * x12) * x21) * x30) by (nonlinear_arith);
    lemma_mul_is_distributive_add(x10, 0 - ((x01 * x22) * x33) + ((x01 * x23) * x32) + ((x02 * x21) * x33) - ((x02 * x23) * x31) - ((x03 * x21) * x32), ((x03 * x22) * x31));
    lemma_mul_is_distributive_sub(x10, 0 - ((x01 * x22) * x33) + ((x01 * x23) * x32) + ((x02 * x21) * x33) - ((x02 * x23) * x31), ((x03 * x21) * x32));
    lemma_mul_is_distributive_sub(x10, 0 - ((x01 * x22) * x33) + ((x01 * x23) * x32) + ((x02 * x21) * x33), ((x02 * x23) * x31));
    lemma_mul_is_distributive_add(x10, 0 - ((x01 * x22) * x33) + ((x01 * x23) * x32), ((x02 * x21) * x33));
    lemma_mul_is_distributive_add(x10, 0 - ((x01 * x22) * x33), ((x01 * x23) * x32));
    lemma_mul_is_distributive_sub(x10, 0, ((x01 * x22) * x33));
    assert(x10 * ((x01 * x22) * x33) == ((x01 * x10) * x22) * x33) by (nonlinear_arith);
    assert(x10 * ((x01 * x23) * x32) == ((x01 * x10) * x23) * x32) by (nonlinear_arith);
    assert(x10 * ((x02 * x21) * x33) == ((x02 * x10) * x21) * x33) by (nonlinear_arith);
    assert(x10 * ((x02 * x23) * x31) == ((x02 * x10) * x23) * x31) by (nonlinear_arith);
    assert(x10 * ((x03 * x21) * x32) == ((x03 * x10) * x21) * x32) by (nonlinear_arith);
    assert(x10 * ((x03 * x22) * x31) == ((x03 * x10) * x22) * x31) by (nonlinear_arith);
    lemma_mul_is_distributive_sub(x10, (x00 * x22) * x33 - ((x00 * x23) * x32) - ((x02 * x20) * x33) + ((x02 * x23) * x30) + ((x03 * x20) * x32), ((x03 * x22) * x30));
    lemma_mul_is_distributive_add(x10, (x00 * x22) * x33 - ((x00 * x23) * x32) - ((x02 * x20) * x33) + ((x02 * x23) * x30), ((x03 * x20) * x32));
    lemma_mul_is_distributive_add(x10, (x00 * x22) * x33 - ((x00 * x23) * x32) - ((x02 * x20) * x33), ((x02 * x23) * x30));
    lemma_mul_is_distributive_sub(x10, (x00 * x22) * x33 - ((x00 * x23) * x32), ((x02 * x20) * x33));
    lemma_mul_is_distributive_sub(x10, (x00 * x22) * x33, ((x00 * x23) * x32));
    assert(x10 * ((x00 * x22) * x33) == ((x00 * x10) * x22) * x33) by (nonlinear_arith);
    assert(x10 * ((x00 * x23) * x32) == ((x00 * x10) * x23) * x32) by (nonlinear_arith);
    assert(x10 * ((x02 * x20) * x33) == ((x02 * x10) * x20) * x33) by (nonlinear_arith);
    assert(x10 * ((x02 * x23) * x30) == ((x02 * x10) * x23) * x30) by (nonlinear_arith);
    assert(x10 * ((x03 * x20) * x32) == ((x03 * x10) * x20) * x32) by (nonlinear_arith);
    assert(x10 * ((x03 * x22) * x30) == ((x03 * x10) * x22) * x30) by (nonlinear_arith);
    lemma_mul_is_distributive_add(x10, 0 - ((x00 * x21) * x33) + ((x00 * x23) * x31) + ((x01 * x20) * x33) - ((x01 * x23) * x30) - ((x03 * x20) * x31), ((x03 * x21) * x30));
    lemma_mul_is_distributive_sub(x10, 0 - ((x00 * x21) * x33) + ((x00 * x23) * x31) + ((x01 * x20) * x33) - ((x01 * x23) * x30), ((x03 * x20) * x31));
    lemma_mul_is_distributive_sub(x10, 0 - ((x00 * x21) * x33) + ((x00 * x23) * x31) + ((x01 * x20) * x33), ((x01 * x23) * x30));
    lemma_mul_is_distributive_add(x10, 0 - ((x00 * x21) * x33) + ((x00 * x23) * x31), ((x01 * x20) * x33));
    lemma_mul_is_distributive_add(x10, 0 - ((x00 * x21) * x33), ((x00 * x23) * x31));
    lemma_mul_is_distributive_sub(x10, 0, ((x00 * x21) * x33));
    assert(x10 * ((x00 * x21) * x33) == ((x00 * x10) * x21) * x33) by (nonlinear_arith);
    assert(x10 * ((x00 * x23) * x31) == ((x00 * x10) * x23) * x31) by (nonlinear_arith);
    assert(x10 * ((x01 * x20) * x33) == ((x01 * x10) * x20) * x33) by (nonlinear_arith);
    assert(x10 * ((x01 * x23) * x30) == ((x01 * x10) * x23) * x30) by (nonlinear_arith);
    assert(x10 * ((x03 * x20) * x31) == ((x03 * x10) * x20) * x31) by (nonlinear_arith);
    assert(x10 * ((x03 * x21) * x30) == ((x03 * x10) * x21) * x30) by (nonlinear_arith);
    lemma_mul_is_distributive_sub(x10, (x00 * x21) * x32 - ((x00 * x22) * x31) - ((x01 * x20) * x32) + ((x01 * x22) * x30) + ((x02 * x20) * x31), ((x02 * x21) * x30));
    lemma_mul_is_distributive_add(x10, (x00 * x21) * x32 - ((x00 * x22) * x31) - ((x01 * x20) * x32) + ((x01 * x22) * x30), ((x02 * x20) * x31));
    lemma_mul_is_distributive_add(x10, (x00 * x21) * x32 - ((x00 * x22) * x31) - ((x01 * x20) * x32), ((x01 * x22) * x30));
    lemma_mul_is_distributive_sub(x10, (x00 * x21) * x32 - ((x00 * x22) * x31), ((x01 * x20) * x32));
    lemma_mul_is_distributive_sub(x10, (x00 * x21) * x32, ((x00 * x22) * x31));
    assert(x10 * ((x00 * x21) * x32) == ((x00 * x10) * x21) * x32) by (nonlinear_arith);
    assert(x10 * ((x00 * x22) * x31) == ((x00 * x10) * x22) * x31) by (nonlinear_arith);
    assert(x10 * ((x01 * x20) * x32) == ((x01 * x10) * x20) * x32) by (nonlinear_arith);
    assert(x10 * ((x01 * x22) * x30) == ((x01 * x10) * x22) * x30) by (nonlinear_arith);
    assert(x10 * ((x02 * x20) * x31) == ((x02 * x10) * x20) * x31) by (nonlinear_arith);
    assert(x10 * ((x02 * x21) * x30) == ((x02 * x10) * x21) * x30) by (nonlinear_arith);
    lemma_mul_is_distributive_add(x11, 0 - ((x01 * x22) * x33) + ((x01 * x23) * x32) + ((x02 * x21) * x33) - ((x02 * x23) * x31) - ((x03 * x21) * x32), ((x03 * x22) * x31));
    lemma_mul_is_distributive_sub(x11, 0 - ((x01 * x22) * x33) + ((x01 * x23) * x32) + ((x02 * x21) * x33) - ((x02 * x23) * x31), ((x03 * x21) * x32));
    lemma_mul_is_distributive_sub(x11, 0 - ((x01 * x22) * x33) + ((x01 * x23) * x32) + ((x02 * x21) * x33), ((x02 * x23) * x31));
    lemma_mul_is_distributive_add(x11, 0 - ((x01 * x22) * x33) + ((x01 * x23) * x32), ((x02 * x21) * x33));
    lemma_mul_is_distributive_add(x11, 0 - ((x01 * x22) * x33), ((x01 * x23) * x32));
    lemma_mul_is_distributive_sub(x11, 0, ((x01 * x22) * x33));
    assert(x11 * ((x01 * x22) * x33) == ((x01 * x11) * x22) * x33) by (nonlinear_arith);
    assert(x11 * ((x01 * x23) * x32) == ((x01 * x11) * x23) * x32) by (nonlinear_arith);
    assert(x11 * ((x02 * x21) * x33) == ((x02 * x11) * x21) * x33) by (nonlinear_arith);
    assert(x11 * ((x02 * x23) * x31) == ((x02 * x11) * x23) * x31) by (nonlinear_arith);
    assert(x11 * ((x03 * x21) * x32) == ((x03 * x11) * x21) * x32) by (nonlinear_arith);
    assert(x11 * ((x03 * x22) * x31) == ((x03 * x11) * x22) * x31) by (nonlinear_arith);
    lemma_mul_is_distributive_sub(x11, (x00 * x22) * x33 - ((x00 * x23) * x32) - ((x02 * x20) * x33) + ((x02 * x23) * x30) + ((x03 * x20) * x32), ((x03 * x22) * x30));
    lemma_mul_is_distributive_add(x11, (x00 * x22) * x33 - ((x00 * x23) * x32) - ((x02 * x20) * x33) + ((x02 * x23) * x30), ((x03 * x20) * x32));
    lemma_mul_is_distributive_add(x11, (x00 * x22) * x33 - ((x00 * x23) * x32) - ((x02 * x20) * x33), ((x02 * x23) * x30));
    lemma_mul_is_distributive_sub(x11, (x00 * x22) * x33 - ((x00 * x23) * x32), ((x02 * x20) * x33));
    lemma_mul_is_distributive_sub(x11, (x00 * x22) * x33, ((x00 * x23) * x32));
    assert(x11 * ((x00 * x22) * x33) == ((x00 * x11) * x22) * x33) by (nonlinear_arith);
    assert(x11 * ((x00 * x23) * x32) == ((x00 * x11) * x23) * x32) by (nonlinear_arith);
    assert(x11 * ((x02 * x20) * x33) == ((x02 * x11) * x20) * x33) by (nonlinear_arith);
    assert(x11 * ((x02 * x23) * x30) == ((x02 * x11) * x23) * x30) by (nonlinear_arith);
    assert(x11 * ((x03 * x20) * x32) == ((x03 * x11) * x20) * x32) by (nonlinear_arith);
    assert(x11 * ((x03 * x22) * x30) == ((x03 * x11) * x22) * x30) by (nonlinear_arith);
    lemma_mul_is_distributive_add(x11, 0 - ((x00 * x21) * x33) + ((x00 * x23) * x31) + ((x01 * x20) * x33) - ((x01 * x23) * x30) - ((x03 * x20) * x31), ((x03 * x21) * x30));
    lemma_mul_is_distributive_sub(x11, 0 - ((x00 * x21) * x33) + ((x00 * x23) * x31) + ((x01 * x20) * x33) - ((x01 * x23) * x30), ((x03 * x20) * x31));
    lemma_mul_is_distributive_sub(x11, 0 - ((x00 * x21) * x33) + ((x00 * x23) * x31) + ((x01 * x20) * x33), ((x01 * x23) * x30));
    lemma_mul_is_distributive_add(x11, 0 - ((x00 * x21) * x33) + ((x00 * x23) * x31), ((x01 * x20) * x33));
    lemma_mul_is_distributive_add(x11, 0 - ((x00 * x21) * x33), ((x00 * x23) * x31));
    lemma_mul_is_distributive_sub(x11, 0, ((x00 * x21) * x33));
    assert(x11 * ((x00 * x21) * x33) == ((x00 * x11) * x21) * x33) by (nonlinear_arith);
    assert(x11 * ((x00 * x23) * x31) == ((x00 * x11) * x23) * x31) by (nonlinear_arith);
    assert(x11 * ((x01 * x20) * x33) == ((x01 * x11) * x20) * x33) by (nonlinear_arith);
    assert(x11 * ((x01 * x23) * x30) == ((x01 * x11) * x23) * x30) by (nonlinear_arith);
    assert(x11 * ((x03 * x20) * x31) == ((x03 * x11) * x20) * x31) by (nonlinear_arith);
    assert(x11 * ((x03 * x21) * x30) == ((x03 * x11) * x21) * x30) by (nonlinear_arith);
    lemma_mul_is_distributive_sub(x11, (x00 * x21) * x32 - ((x00 * x22) * x31) - ((x01 * x20) * x32) + ((x01 * x22) * x30) + ((x02 * x20) * x31), ((x02 * x21) * x30));
    lemma_mul_is_distributive_add(x11, (x00 * x21) * x32 - ((x00 * x22) * x31) - ((x01 * x20) * x32) + ((x01 * x22) * x30), ((x02 * x20) * x31));
    lemma_mul_is_distributive_add(x11, (x00 * x21) * x32 - ((x00 * x22) * x31) - ((x01 * x20) * x32), ((x01 * x22) * x30));
    lemma_mul_is_distributive_sub(x11, (x00 * x21) * x32 - ((x00 * x22) * x31), ((x01 * x20) * x32));
    lemma_mul_is_distributive_sub(x11, (x00 * x21) * x32, ((x00 * x22) * x31));
    assert(x11 * ((x00 * x21) * x32) == ((x00 * x11) * x21) * x32) by (nonlinear_arith);
    assert(x11 * ((x00 * x22) * x31) == ((x00 * x11) * x22) * x31) by (nonlinear_arith);
    assert(x11 * ((x01 * x20) * x32) == ((x01 * x11) * x20) * x32) by (nonlinear_arith);
    assert(x11 * ((x01 * x22) * x30) == ((x01 * x11) * x22) * x30) by (nonlinear_arith);
    assert(x11 * ((x02 * x20) * x31) == ((x02 * x11) * x20) * x31) by (nonlinear_arith);
    assert(x11 * ((x02 * x21) * x30) == ((x02 * x11) * x21) * x30) by (nonlinear_arith);
    lemma_mul_is_distributive_add(x12, 0 - ((x01 * x22) * x33) + ((x01 * x23) * x32) + ((x02 * x21) * x33) - ((x02 * x23) * x31) - ((x03 * x21) * x32), ((x03 * x22) * x31));
    lemma_mul_is_distributive_sub(x12, 0 - ((x01 * x22) * x33) + ((x01 * x23) * x32) + ((x02 * x21) * x33) - ((x02 * x23) * x31), ((x03 * x21) * x32));
    lemma_mul_is_distributive_sub(x12, 0 - ((x01 * x22) * x33) + ((x01 * x23) * x32) + ((x02 * x21) * x33), ((x02 * x23) * x31));
    lemma_mul_is_distributive_add(x12, 0 - ((x01 * x22) * x33) + ((x01 * x23) * x32), ((x02 * x21) * x33));
    lemma_mul_is_distributive_add(x12, 0 - ((x01 * x22) * x33), ((x01 * x23) * x32));
    lemma_mul_is_distributive_sub(x12, 0, ((x01 * x22) * x33));
    assert(x12 * ((x01 * x22) * x33) == ((x01 * x12) * x22) * x33) by (nonlinear_arith);
    assert(x12 * ((x01 * x23) * x32) == ((x01 * x12) * x23) * x32) by (nonlinear_arith);
    assert(x12 * ((x02 * x21) * x33) == ((x02 * x12) * x21) * x33) by (nonlinear_arith);
    assert(x12 * ((x02 * x23) * x31) == ((x02 * x12) * x23) * x31) by (nonlinear_arith);
    assert(x12 * ((x03 * x21) * x32) == ((x03 * x12) * x21) * x32) by (nonlinear_arith);
    assert(x12 * ((x03 * x22) * x31) == ((x03 * x12) * x22) * x31) by (nonlinear_arith);
    lemma_mul_is_distributive_sub(x12, (x00 * x22) * x33 - ((x00 * x23) * x32) - ((x02 * x20) * x33) + ((x02 * x23) * x30) + ((x03 * x20) * x32), ((x03 * x22) * x30));
    lemma_mul_is_distributive_add(x12, (x00 * x22) * x33 - ((x00 * x23) * x32) - ((x02 * x20) * x33) + ((x02 * x23) * x30), ((x03 * x20) * x32));
    lemma_mul_is_distributive_add(x12, (x00 * x22) * x33 - ((x00 * x23) * x32) - ((x02 * x20) * x33), ((x02 * x23) * x30));
    lemma_mul_is_distributive_sub(x12, (x00 * x22) * x33 - ((x00 * x23) * x32), ((x02 * x20) * x33));
    lemma_mul_is_distributive_sub(x12, (x00 * x22) * x33, ((x00 * x23) * x32));
    assert(x12 * ((x00 * x22) * x33) == ((x00 * x12) * x22) * x33) by (nonlinear_arith);
    assert(x12 * ((x00 * x23) * x32) == ((x00 * x12) * x23) * x32) by (nonlinear_arith);
    assert(x12 * ((x02 * x20) * x33) == ((x02 * x12) * x20) * x33) by (nonlinear_arith);
    assert(x12 * ((x02 * x23) * x30) == ((x02 * x12) * x23) * x30) by (nonlinear_arith);
    assert(x12 * ((x03 * x20) * x32) == ((x03 * x12) * x20) * x32) by (nonlinear_arith);
    assert(x12 * ((x03 * x22) * x30) == ((x03 * x12) * x22) * x30) by (nonlinear_arith);
    lemma_mul_is_distributive_add(x12, 0 - ((x00 * x21) * x33) + ((x00 * x23) * x31) + ((x01 * x20) * x33) - ((x01 * x23) * x30) - ((x03 * x20) * x31), ((x03 * x21) * x30));
    lemma_mul_is_distributive_sub(x12, 0 - ((x00 * x21) * x33) + ((x00 * x23) * x31) + ((x01 * x20) * x33) - ((x01 * x23) * x30), ((x03 * x20) * x31));
    lemma_mul_is_distributive_sub(x12, 0 - ((x00 * x21) * x33) + ((x00 * x23) * x31) + ((x01 * x20) * x33), ((x01 * x23) * x30));
    lemma_mul_is_distributive_add(x12, 0 - ((x00 * x21) * x33) + ((x00 * x23) * x31), ((x01 * x20) * x33));
    lemma_mul_is_distributive_add(x12, 0 - ((x00 * x21) * x33), ((x00 * x23) * x31));
    lemma_mul_is_distributive_sub(x12, 0, ((x00 * x21) * x33));
    assert(x12 * ((x00 * x21) * x33) == ((x00 * x12) * x21) * x33) by (nonlinear_arith);
    assert(x12 * ((x00 * x23) * x31) == ((x00 * x12) * x23) * x31) by (nonlinear_arith);
    assert(x12 * ((x01 * x20) * x33) == ((x01 * x12) * x20) * x33) by (nonlinear_arith);
    assert(x12 * ((x01 * x23) * x30) == ((x01 * x12) * x23) * x30) by (nonlinear_arith);
    assert(x12 * ((x03 * x20) * x31) == ((x03 * x12) * x20) * x31) by (nonlinear_arith);
    assert(x12 * ((x03 * x21) * x30) == ((x03 * x12) * x21) * x30) by (nonlinear_arith);
    lemma_mul_is_distributive_sub(x12, (x00 * x21) * x32 - ((x00 * x22) * x31) - ((x01 * x20) * x32) + ((x01 * x22) * x30) + ((x02 * x20) * x31), ((x02 * x21) * x30));
    lemma_mul_is_distributive_add(x12, (x00 * x21) * x32 - ((x00 * x22) * x31) - ((x01 * x20) * x32) + ((x01 * x22) * x30), ((x02 * x20) * x31));
    lemma_mul_is_distributive_add(x12, (x00 * x21) * x32 - ((x00 * x22) * x31) - ((x01 * x20) * x32), ((x01 * x22) * x30));
    lemma_mul_is_distributive_sub(x12, (x00 * x21) * x32 - ((x00 * x22) * x31), ((x01 * x20) * x32));
    lemma_mul_is_distributive_sub(x12, (x00 * x21) * x32, ((x00 * x22) * x31));
    assert(x12 * ((x00 * x21) * x32) == ((x00 * x12) * x21) * x32) by (nonlinear_arith);
    assert(x12 * ((x00 * x22) * x31) == ((x00 * x12) * x22) * x31) by (nonlinear_arith);
    assert(x12 * ((x01 * x20) * x32) == ((x01 * x12) * x20) * x32) by (nonlinear_arith);
    assert(x12 * ((x01 * x22) * x30) == ((x01 * x12) * x22) * x30) by (nonlinear_arith);
    assert(x12 * ((x02 * x20) * x31) == ((x02 * x12) * x20) * x31) by (nonlinear_arith);
    assert(x12 * ((x02 * x21) * x30) == ((x02 * x12) * x21) * x30) by (nonlinear_arith);
    lemma_mul_is_distributive_add(x13, 0 - ((x01 * x22) * x33) + ((x01 * x23) * x32) + ((x02 * x21) * x33) - ((x02 * x23) * x31) - ((x03 * x21) * x32), ((x03 * x22) * x31));
    lemma_mul_is_distributive_sub(x13, 0 - ((x01 * x22) * x33) + ((x01 * x23) * x32) + ((x02 * x21) * x33) - ((x02 * x23) * x31), ((x03 * x21) * x32));
    lemma_mul_is_distributive_sub(x13, 0 - ((x01 * x22) * x33) + ((x01 * x23) * x32) + ((x02 * x21) * x33), ((x02 * x23) * x31));
    lemma_mul_is_distributive_add(x13, 0 - ((x01 * x22) * x33) + ((x01 * x23) * x32), ((x02 * x21) * x33));
    lemma_mul_is_distributive_add(x13, 0 - ((x01 * x22) * x33), ((x01 * x23) * x32));
    lemma_mul_is_distributive_sub(x13, 0, ((x01 * x22) * x33));
    assert(x13 * ((x01 * x22) * x33) == ((x01 * x13) * x22) * x33) by (nonlinear_arith);
    assert(x13 * ((x01 * x23) * x32) == ((x01 * x13) * x23) * x32) by (nonlinear_arith);
    assert(x13 * ((x02 * x21) * x33) == ((x02 * x13) * x21) * x33) by (nonlinear_arith);
    assert(x13 * ((x02 * x23) * x31) == ((x02 * x13) * x23) * x31) by (nonlinear_arith);
    assert(x13 * ((x03 * x21) * x32) == ((x03 * x13) * x21) * x32) by (nonlinear_arith);
    assert(x13 * ((x03 * x22) * x31) == ((x03 * x13) * x22) * x31) by (nonlinear_arith);
    lemma_mul_is_distributive_sub(x13, (x00 * x22) * x33 - ((x00 * x23) * x32) - ((x02 * x20) * x33) + ((x02 * x23) * x30) + ((x03 * x20) * x32), ((x03 * x22) * x30));
    lemma_mul_is_distributive_add(x13, (x00 * x22) * x33 - ((x00 * x23) * x32) - ((x02 * x20) * x33) + ((x02 * x23) * x30), ((x03 * x20) * x32));
    lemma_mul_is_distributive_add(x13, (x00 * x22) * x33 - ((x00 * x23) * x32) - ((x02 * x20) * x33), ((x02 * x23) * x30));
    lemma_mul_is_distributive_sub(x13, (x00 * x22) * x33 - ((x00 * x23) * x32), ((x02 * x20) * x33));
    lemma_mul_is_distributive_sub(x13, (x00 * x22) * x33, ((x00 * x23) * x32));
    assert(x13 * ((x00 * x22) * x33) == ((x00 * x13) * x22) * x33) by (nonlinear_arith);
    assert(x13 * ((x00 * x23) * x32) == ((x00 * x13) * x23) * x32) by (nonlinear_arith);
    assert(x13 * ((x02 * x20) * x33) == ((x02 * x13) * x20) * x33) by (nonlinear_arith);
    assert(x13 * ((x02 * x23) * x30) == ((x02 * x13) * x23) * x30) by (nonlinear_arith);
    assert(x13 * ((x03 * x20) * x32) == ((x03 * x13) * x20) * x32) by (nonlinear_arith);
    assert(x13 * ((x03 * x22) * x30) == ((x03 * x13) * x22) * x30) by (nonlinear_arith);
    lemma_mul_is_distributive_add(x13, 0 - ((x00 * x21) * x33) + ((x00 * x23) * x31) + ((x01 * x20) * x33) - ((x01 * x23) * x30) - ((x03 * x20) * x31), ((x03 * x21) * x30));
    lemma_mul_is_distributive_sub(x13, 0 - ((x00 * x21) * x33) + ((x00 * x23) * x31) + ((x01 * x20) * x33) - ((x01 * x23) * x30), ((x03 * x20) * x31));
    lemma_mul_is_distributive_sub(x13, 0 - ((x00 * x21) * x33) + ((x00 * x23) * x31) + ((x01 * x20) * x33), ((x01 * x23) * x30));
    lemma_mul_is_distributive_add(x13, 0 - ((x00 * x21) * x33) + ((x00 * x23) * x31), ((x01 * x20) * x33));
    lemma_mul_is_distributive_add(x13, 0 - ((x00 * x21) * x33), ((x00 * x23) * x31));
    lemma_mul_is_distributive_sub(x13, 0, ((x00 * x21) * x33));
    assert(x13 * ((x00 * x21) * x33) == ((x00 * x13) * x21) * x33) by (nonlinear_arith);
    assert(x13 * ((x00 * x23) * x31) == ((x00 * x13) * x23) * x31) by (nonlinear_arith);
    assert(x13 * ((x01 * x20) * x33) == ((x01 * x13) * x20) * x33) by (nonlinear_arith);
    assert(x13 * ((x01 * x23) * x30) == ((x01 * x13) * x23) * x30) by (nonlinear_arith);
    assert(x13 * ((x03 * x20) * x31) == ((x03 * x13) * x20) * x31) by (nonlinear_arith);
    assert(x13 * ((x03 * x21) * x30) == ((x03 * x13) * x21) * x30) by (nonlinear_arith);
    lemma_mul_is_distributive_sub(x13, (x00 * x21) * x32 - ((x00 * x22) * x31) - ((x01 * x20) * x32) + ((x01 * x22) * x30) + ((x02 * x20) * x31), ((x02 * x21) * x30));
    lemma_mul_is_distributive_add(x13, (x00 * x21) * x32 - ((x00 * x22) * x31) - ((x01 * x20) * x32) + ((x01 * x22) * x30), ((x02 * x20) * x31));
    lemma_mul_is_distributive_add(x13, (x00 * x21) * x32 - ((x00 * x22) * x31) - ((x01 * x20) * x32), ((x01 * x22) * x30));
    lemma_mul_is_distributive_sub(x13, (x00 * x21) * x32 - ((x00 * x22) * x31), ((x01 * x20) * x32));
    lemma_mul_is_distributive_sub(x13, (x00 * x21) * x32, ((x00 * x22) * x31));
    assert(x13 * ((x00 * x21) * x32) == ((x00 * x13) * x21) * x32) by (nonlinear_arith);
    assert(x13 * ((x00 * x22) * x31) == ((x00 * x13) * x22) * x31) by (nonlinear_arith);
    assert(x13 * ((x01 * x20) * x32) == ((x01 * x13) * x20) * x32) by (nonlinear_arith);
    assert(x13 * ((x01 * x22) * x30) == ((x01 * x13) * x22) * x30) by (nonlinear_arith);
    assert(x13 * ((x02 * x20) * x31) == ((x02 * x13) * x20) * x31) by (nonlinear_arith);
    assert(x13 * ((x02 * x21) * x30) == ((x02 * x13) * x21) * x30) by (nonlinear_arith);
    lemma_mul_is_distributive_sub(x20, (x01 * x12) * x33 - ((x01 * x13) * x32) - ((x02 * x11) * x33) + ((x02 * x13) * x31) + ((x03 * x11) * x32), ((x03 * x12) * x31));
    lemma_mul_is_distributive_add(x20, (x01 * x12) * x33 - ((x01 * x13) * x32) - ((x02 * x11) * x33) + ((x02 * x13) * x31), ((x03 * x11) * x32));
    lemma_mul_is_distributive_add(x20, (x01 * x12) * x33 - ((x01 * x13) * x32) - ((x02 * x11) * x33), ((x02 * x13) * x31));
    lemma_mul_is_distributive_sub(x20, (x01 * x12) * x33 - ((x01 * x13) * x32), ((x02 * x11) * x33));
    lemma_mul_is_distributive_sub(x20, (x01 * x12) * x33, ((x01 * x13) * x32));
    assert(x20 * ((x01 * x12) * x33) == ((x01 * x12) * x20) * x33) by (nonlinear_arith);
    assert(x20 * ((x01 * x13) * x32) == ((x01 * x13) * x20) * x32) by (nonlinear_arith);
    assert(x20 * ((x02 * x11) * x33) == ((x02 * x11) * x20) * x33) by (nonlinear_arith);
    assert(x20 * ((x02 * x13) * x31) == ((x02 * x13) * x20) * x31) by (nonlinear_arith);
    assert(x20 * ((x03 * x11) * x32) == ((x03 * x11) * x20) * x32) by (nonlinear_arith);
    assert(x20 * ((x03 * x12) * x31) == ((x03 * x12) * x20) * x31) by (nonlinear_arith);
    lemma_mul_is_distributive_add(x20, 0 - ((x00 * x12) * x33) + ((x00 * x13) * x32) + ((x02 * x10) * x33) - ((x02 * x13) * x30) - ((x03 * x10) * x32), ((x03 * x12) * x30));
    lemma_mul_is_distributive_sub(x20, 0 - ((x00 * x12) * x33) + ((x00 * x13) * x32) + ((x02 * x10) * x33) - ((x02 * x13) * x30), ((x03 * x10) * x32));
    lemma_mul_is_distributive_sub(x20, 0 - ((x00 * x12) * x33) + ((x00 * x13) * x32) + ((x02 * x10) * x33), ((x02 * x13) * x30));
    lemma_mul_is_distributive_add(x20, 0 - ((x00 * x12) * x33) + ((x00 * x13) * x32), ((x02 * x10) * x33));
    lemma_mul_is_distributive_add(x20, 0 - ((x00 * x12) * x33), ((x00 * x13) * x32));
    lemma_mul_is_distributive_sub(x20, 0, ((x00 * x12) * x33));
    assert(x20 * ((x00 * x12) * x33) == ((x00 * x12) * x20) * x33) by (nonlinear_arith);
    assert(x20 * ((x00 * x13) * x32) == ((x00 * x13) * x20) * x32) by (nonlinear_arith);
    assert(x20 * ((x02 * x10) * x33) == ((x02 * x10) * x20) * x33) by (nonlinear_arith);
    assert(x20 * ((x02 * x13) * x30) == ((x02 * x13) * x20) * x30) by (nonlinear_arith);
    assert(x20 * ((x03 * x10) * x32) == ((x03 * x10) * x20) * x32) by (nonlinear_arith);
    assert(x20 * ((x03 * x12) * x30) == ((x03 * x12) * x20) * x30) by (nonlinear_arith);
    lemma_mul_is_distributive_sub(x20, (x00 * x11) * x33 - ((x00 * x13) * x31) - ((x01 * x10) * x33) + ((x01 * x13) * x30) + ((x03 * x10) * x31), ((x03 * x11) * x30));
    lemma_mul_is_distributive_add(x20, (x00 * x11) * x33 - ((x00 * x13) * x31) - ((x01 * x10) * x33) + ((x01 * x13) * x30), ((x03 * x10) * x31));
    lemma_mul_is_distributive_add(x20, (x00 * x11) * x33 - ((x00 * x13) * x31) - ((x01 * x10) * x33), ((x01 * x13) * x30));
    lemma_mul_is_distributive_sub(x20, (x00 * x11) * x33 - ((x00 * x13) * x31), ((x01 * x10) * x33));
    lemma_mul_is_distributive_sub(x20, (x00 * x11) * x33, ((x00 * x13) * x31));
    assert(x20 * ((x00 * x11) * x33) == ((x00 * x11) * x20) * x33) by (nonlinear_arith);
    assert(x20 * ((x00 * x13) * x31) == ((x00 * x13) * x20) * x31) by (nonlinear_arith);
    assert(x20 * ((x01 * x10) * x33) == ((x01 * x10) * x20) * x33) by (nonlinear_arith);
    assert(x20 * ((x01 * x13) * x30) == ((x01 * x13) * x20) * x30) by (nonlinear_arith);
    assert(x20 * ((x03 * x10) * x31) == ((x03 * x10) * x20) * x31) by (nonlinear_arith);
    assert(x20 * ((x03 * x11) * x30) == ((x03 * x11) * x20) * x30) by (nonlinear_arith);
    lemma_mul_is_distributive_add(x20, 0 - ((x00 * x11) * x32) + ((x00 * x12) * x31) + ((x01 * x10) * x32) - ((x01 * x12) * x30) - ((x02 * x10) * x31), ((x02 * x11) * x30));
    lemma_mul_is_distributive_sub(x20, 0 - ((x00 * x11) * x32) + ((x00 * x12) * x31) + ((x01 * x10) * x32) - ((x01 * x12) * x30), ((x02 * x10) * x31));
    lemma_mul_is_distributive_sub(x20, 0 - ((x00 * x11) * x32) + ((x00 * x12) * x31) + ((x01 * x10) * x32), ((x01 * x12) * x30));
    lemma_mul_is_distributive_add(x20, 0 - ((x00 * x11) * x32) + ((x00 * x12) * x31), ((x01 * x10) * x32));
    lemma_mul_is_distributive_add(x20, 0 - ((x00 * x11) * x32), ((x00 * x12) * x31));
    lemma_mul_is_distributive_sub(x20, 0, ((x00 * x11) * x32));
    assert(x20 * ((x00 * x11) * x32) == ((x00 * x11) * x20) * x32) by (nonlinear_arith);
    assert(x20 * ((x00 * x12) * x31) == ((x00 * x12) * x20) * x31) by (nonlinear_arith);
    assert(x20 * ((x01 * x10) * x32) == ((x01 * x10) * x20) * x32) by (nonlinear_arith);
    assert(x20 * ((x01 * x12) * x30) == ((x01 * x12) * x20) * x30) by (nonlinear_arith);
    assert(x20 * ((x02 * x10) * x31) == ((x02 * x10) * x20) * x31) by (nonlinear_arith);
    assert(x20 * ((x02 * x11) * x30) == ((x02 * x11) * x20) * x30) by (nonlinear_arith);
    lemma_mul_is_distributive_sub(x21, (x01 * x12) * x33 - ((x01 * x13) * x32) - ((x02 * x11) * x33) + ((x02 * x13) * x31) + ((x03 * x11) * x32), ((x03 * x12) * x31));
    lemma_mul_is_distributive_add(x21, (x01 * x12) * x33 - ((x01 * x13) * x32) - ((x02 * x11) * x33) + ((x02 * x13) * x31), ((x03 * x11) * x32));
    lemma_mul_is_distributive_add(x21, (x01 * x12) * x33 - ((x01 * x13) * x32) - ((x02 * x11) * x33), ((x02 * x13) * x31));
    lemma_mul_is_distributive_sub(x21, (x01 * x12) * x33 - ((x01 * x13) * x32), ((x02 * x11) * x33));
    lemma_mul_is_distributive_sub(x21, (x01 * x12) * x33, ((x01 * x13) * x32));
    assert(x21 * ((x01 * x12) * x33) == ((x01 * x12) * x21) * x33) by (nonlinear_arith);
    assert(x21 * ((x01 * x13) * x32) == ((x01 * x13) * x21) * x32) by (nonlinear_arith);
    assert(x21 * ((x02 * x11) * x33) == ((x02 * x11) * x21) * x33) by (nonlinear_arith);
    assert(x21 * ((x02 * x13) * x31) == ((x02 * x13) * x21) * x31) by (nonlinear_arith);
    assert(x21 * ((x03 * x11) * x32) == ((x03 * x11) * x21) * x32) by (nonlinear_arith);
    assert(x21 * ((x03 * x12) * x31) == ((x03 * x12) * x21) * x31) by (nonlinear_arith);
    lemma_mul_is_distributive_add(x21, 0 - ((x00 * x12) * x33) + ((x00 * x13) * x32) + ((x02 * x10) * x33) - ((x02 * x13) * x30) - ((x03 * x10) * x32), ((x03 * x12) * x30));
    lemma_mul_is_distributive_sub(x21, 0 - ((x00 * x12) * x33) + ((x00 * x13) * x32) + ((x02 * x10) * x33) - ((x02 * x13) * x30), ((x03 * x10) * x32));
    lemma_mul_is_distributive_sub(x21, 0 - ((x00 * x12) * x33) + ((x00 * x13) * x32) + ((x02 * x10) * x33), ((x02 * x13) * x30));
    lemma_mul_is_distributive_add(x21, 0 - ((x00 * x12) * x33) + ((x00 * x13) * x32), ((x02 * x10) * x33));
    lemma_mul_is_distributive_add(x21, 0 - ((x00 * x12) * x33), ((x00 * x13) * x32));
    lemma_mul_is_distributive_sub(x21, 0, ((x00 * x12) * x33));
    assert(x21 * ((x00 * x12) * x33) == ((x00 * x12) * x21) * x33) by (nonlinear_arith);
    assert(x21 * ((x00 * x13) * x32) == ((x00 * x13) * x21) * x32) by (nonlinear_arith);
    assert(x21 * ((x02 * x10) * x33) == ((x02 * x10) * x21) * x33) by (nonlinear_arith);
    assert(x21 * ((x02 * x13) * x30) == ((x02 * x13) * x21) * x30) by (nonlinear_arith);
    assert(x21 * ((x03 * x10) * x32) == ((x03 * x10) * x21) * x32) by (nonlinear_arith);
    assert(x21 * ((x03 * x12) * x30) == ((x03 * x12) * x21) * x30) by (nonlinear_arith);
    lemma_mul_is_distributive_sub(x21, (x00 * x11) * x33 - ((x00 * x13) * x31) - ((x01 * x10) * x33) + ((x01 * x13) * x30) + ((x03 * x10) * x31), ((x03 * x11) * x30));
    lemma_mul_is_distributive_add(x21, (x00 * x11) * x33 - ((x00 * x13) * x31) - ((x01 * x10) * x33) + ((x01 * x13) * x30), ((x03 * x10) * x31));
    lemma_mul_is_distributive_add(x21, (x00 * x11) * x33 - ((x00 * x13) * x31) - ((x01 * x10) * x33), ((x01 * x13) * x30));
    lemma_mul_is_distributive_sub(x21, (x00 * x11) * x33 - ((x00 * x13) * x31), ((x01 * x10) * x33));
    lemma_mul_is_distributive_sub(x21, (x00 * x11) * x33, ((x00 * x13) * x31));
    assert(x21 * ((x00 * x11) * x33) == ((x00 * x11) * x21) * x33) by (nonlinear_arith);
    assert(x21 * ((x00 * x13) * x31) == ((x00 * x13) * x21) * x31) by (nonlinear_arith);
    assert(x21 * ((x01 * x10) * x33) == ((x01 * x10) * x21) * x33) by (nonlinear_arith);
    assert(x21 * ((x01 * x13) * x30) == ((x01 * x13) * x21) * x30) by (nonlinear_arith);
    assert(x21 * ((x03 * x10) * x31) == ((x03 * x10) * x21) * x31) by (nonlinear_arith);
    assert(x21 * ((x03 * x11) * x30) == ((x03 * x11) * x21) * x30) by (nonlinear_arith);
    lemma_mul_is_distributive_add(x21, 0 - ((x00 * x11) * x32) + ((x00 * x12) * x31) + ((x01 * x10) * x32) - ((x01 * x12) * x30) - ((x02 * x10) * x31), ((x02 * x11) * x30));
    lemma_mul_is_distributive_sub(x21, 0 - ((x00 * x11) * x32) + ((x00 * x12) * x31) + ((x01 * x10) * x32) - ((x01 * x12) * x30), ((x02 * x10) * x31));
    lemma_mul_is_distributive_sub(x21, 0 - ((x00 * x11) * x32) + ((x00 * x12) * x31) + ((x01 * x10) * x32), ((x01 * x12) * x30));
    lemma_mul_is_distributive_add(x21, 0 - ((x00 * x11) * x32) + ((x00 * x12) * x31), ((x01 * x10) * x32));
    lemma_mul_is_distributive_add(x21, 0 - ((x00 * x11) * x32), ((x00 * x12) * x31));
    lemma_mul_is_distributive_sub(x21, 0, ((x00 * x11) * x32));
    assert(x21 * ((x00 * x11) * x32) == ((x00 * x11) * x21) * x32) by (nonlinear_arith);
    assert(x21 * ((x00 * x12) * x31) == ((x00 * x12) * x21) * x31) by (nonlinear_arith);
    assert(x21 * ((x01 * x10) * x32) == ((x01 * x10) * x21) * x32) by (nonlinear_arith);
    assert(x21 * ((x01 * x12) * x30) == ((x01 * x12) * x21) * x30) by (nonlinear_arith);
    assert(x21 * ((x02 * x10) * x31) == ((x02 * x10) * x21) * x31) by (nonlinear_arith);
    assert(x21 * ((x02 * x11) * x30) == ((x02 * x11) * x21) * x30) by (nonlinear_arith);
    lemma_mul_is_distributive_sub(x22, (x01 * x12) * x33 - ((x01 * x13) * x32) - ((x02 * x11) * x33) + ((x02 * x13) * x31) + ((x03 * x11) * x32), ((x03 * x12) * x31));
    lemma_mul_is_distributive_add(x22, (x01 * x12) * x33 - ((x01 * x13) * x32) - ((x02 * x11) * x33) + ((x02 * x13) * x31), ((x03 * x11) * x32));
    lemma_mul_is_distributive_add(x22, (x01 * x12) * x33 - ((x01 * x13) * x32) - ((x02 * x11) * x33), ((x02 * x13) * x31));
    lemma_mul_is_distributive_sub(x22, (x01 * x12) * x33 - ((x01 * x13) * x32), ((x02 * x11) * x33));
    lemma_mul_is_distributive_sub(x22, (x01 * x12) * x33, ((x01 * x13) * x32));
    assert(x22 * ((x01 * x12) * x33) == ((x01 * x12) * x22) * x33) by (nonlinear_arith);
    assert(x22 * ((x01 * x13) * x32) == ((x01 * x13) * x22) * x32) by (nonlinear_arith);
    assert(x22 * ((x02 * x11) * x33) == ((x02 * x11) * x22) * x33) by (nonlinear_arith);
    assert(x22 * ((x02 * x13) * x31) == ((x02 * x13) * x22) * x31) by (nonlinear_arith);
    assert(x22 * ((x03 * x11) * x32) == ((x03 * x11) * x22) * x32) by (nonlinear_arith);
    assert(x22 * ((x03 * x12) * x31) == ((x03 * x12) * x22) * x31) by (nonlinear_arith);
    lemma_mul_is_distributive_add(x22, 0 - ((x00 * x12) * x33) + ((x00 * x13) * x32) + ((x02 * x10) * x33) - ((x02 * x13) * x30) - ((x03 * x10) * x32), ((x03 * x12) * x30));
    lemma_mul_is_distributive_sub(x22, 0 - ((x00 * x12) * x33) + ((x00 * x13) * x32) + ((x02 * x10) * x33) - ((x02 * x13) * x30), ((x03 * x10) * x32));
    lemma_mul_is_distributive_sub(x22, 0 - ((x00 * x12) * x33) + ((x00 * x13) * x32) + ((x02 * x10) * x33), ((x02 * x13) * x30));
    lemma_mul_is_distributive_add(x22, 0 - ((x00 * x12) * x33) + ((x00 * x13) * x32), ((x02 * x10) * x33));
    lemma_mul_is_distributive_add(x22, 0 - ((x00 * x12) * x33), ((x00 * x13) * x32));
    lemma_mul_is_distributive_sub(x22, 0, ((x00 * x12) * x33));
    assert(x22 * ((x00 * x12) * x33) == ((x00 * x12) * x22) * x33) by (nonlinear_arith);
    assert(x22 * ((x00 * x13) * x32) == ((x00 * x13) * x22) * x32) by (nonlinear_arith);
    assert(x22 * ((x02 * x10) * x33) == ((x02 * x10) * x22) * x33) by (nonlinear_arith);
    assert(x22 * ((x02 * x13) * x30) == ((x02 * x13) * x22) * x30) by (nonlinear_arith);
    assert(x22 * ((x03 * x10) * x32) == ((x03 * x10) * x22) * x32) by (nonlinear_arith);
    assert(x22 * ((x03 * x12) * x30) == ((x03 * x12) * x22) * x30) by (nonlinear_arith);
    lemma_mul_is_distributive_sub(x22, (x00 * x11) * x33 - ((x00 * x13) * x31) - ((x01 * x10) * x33) + ((x01 * x13) * x30) + ((x03 * x10) * x31), ((x03 * x11) * x30));
    lemma_mul_is_distributive_add(x22, (x00 * x11) * x33 - ((x00 * x13) * x31) - ((x01 * x10) * x33) + ((x01 * x13) * x30), ((x03 * x10) * x31));
    lemma_mul_is_distributive_add(x22, (x00 * x11) * x33 - ((x00 * x13) * x31) - ((x01 * x10) * x33), ((x01 * x13) * x30));
    lemma_mul_is_distributive_sub(x22, (x00 * x11) * x33 - ((x00 * x13) * x31), ((x01 * x10) * x33));
    lemma_mul_is_distributive_sub(x22, (x00 * x11) * x33, ((x00 * x13) * x31));
    assert(x22 * ((x00 * x11) * x33) == ((x00 * x11) * x22) * x33) by (nonlinear_arith);
    assert(x22 * ((x00 * x13) * x31) == ((x00 * x13) * x22) * x31) by (nonlinear_arith);
    assert(x22 * ((x01 * x10) * x33) == ((x01 * x10) * x22) * x33) by (nonlinear_arith);
    assert(x22 * ((x01 * x13) * x30) == ((x01 * x13) * x22) * x30) by (nonlinear_arith);
    assert(x22 * ((x03 * x10) * x31) == ((x03 * x10) * x22) * x31) by (nonlinear_arith);
    assert(x22 * ((x03 * x11) * x30) == ((x03 * x11) * x22) * x30) by (nonlinear_arith);
    lemma_mul_is_distributive_add(x22, 0 - ((x00 * x11) * x32) + ((x00 * x12) * x31) + ((x01 * x10) * x32) - ((x01 * x12) * x30) - ((x02 * x10) * x31), ((x02 * x11) * x30));
    lemma_mul_is_distributive_sub(x22, 0 - ((x00 * x11) * x32) + ((x00 * x12) * x31) + ((x01 * x10) * x32) - ((x01 * x12) * x30), ((x02 * x10) * x31));
    lemma_mul_is_distributive_sub(x22, 0 - ((x00 * x11) * x32) + ((x00 * x12) * x31) + ((x01 * x10) * x32), ((x01 * x12) * x30));
    lemma_mul_is_distributive_add(x22, 0 - ((x00 * x11) * x32) + ((x00 * x12) * x31), ((x01 * x10) * x32));
    lemma_mul_is_distributive_add(x22, 0 - ((x00 * x11) * x32), ((x00 * x12) * x31));
    lemma_mul_is_distributive_sub(x22, 0, ((x00 * x11) * x32));
    assert(x22 * ((x00 * x11) * x32) == ((x00 * x11) * x22) * x32) by (nonlinear_arith);
    assert(x22 * ((x00 * x12) * x31) == ((x00 * x12) * x22) * x31) by (nonlinear_arith);
    assert(x22 * ((x01 * x10) * x32) == ((x01 * x10) * x22) * x32) by (nonlinear_arith);
    assert(x22 * ((x01 * x12) * x30) == ((x01 * x12) * x22) * x30) by (nonlinear_arith);
    assert(x22 * ((x02 * x10) * x31) == ((x02 * x10) * x22) * x31) by (nonlinear_arith);
    assert(x22 * ((x02 * x11) * x30) == ((x02 * x11) * x22) * x30) by (nonlinear_arith);
    lemma_mul_is_distributive_sub(x23, (x01 * x12) * x33 - ((x01 * x13) * x32) - ((x02 * x11) * x33) + ((x02 * x13) * x31) + ((x03 * x11) * x32), ((x03 * x12) * x31));
    lemma_mul_is_distributive_add(x23, (x01 * x12) * x33 - ((x01 * x13) * x32) - ((x02 * x11) * x33) + ((x02 * x13) * x31), ((x03 * x11) * x32));
    lemma_mul_is_distributive_add(x23, (x01 * x12) * x33 - ((x01 * x13) * x32) - ((x02 * x11) * x33), ((x02 * x13) * x31));
    lemma_mul_is_distributive_sub(x23, (x01 * x12) * x33 - ((x01 * x13) * x32), ((x02 * x11) * x33));
    lemma_mul_is_distributive_sub(x23, (x01 * x12) * x33, ((x01 * x13) * x32));
    assert(x23 * ((x01 * x12) * x33) == ((x01 * x12) * x23) * x33) by (nonlinear_arith);
    assert(x23 * ((x01 * x13) * x32) == ((x01 * x13) * x23) * x32) by (nonlinear_arith);
    assert(x23 * ((x02 * x11) * x33) == ((x02 * x11) * x23) * x33) by (nonlinear_arith);
    assert(x23 * ((x02 * x13) * x31) == ((x02 * x13) * x23) * x31) by (nonlinear_arith);
    assert(x23 * ((x03 * x11) * x32) == ((x03 * x11) * x23) * x32) by (nonlinear_arith);
    assert(x23 * ((x03 * x12) * x31) == ((x03 * x12) * x23) * x31) by (nonlinear_arith);
    lemma_mul_is_distributive_add(x23, 0 - ((x00 * x12) * x33) + ((x00 * x13) * x32) + ((x02 * x10) * x33) - ((x02 * x13) * x30) - ((x03 * x10) * x32), ((x03 * x12) * x30));
    lemma_mul_is_distributive_sub(x23, 0 - ((x00 * x12) * x33) + ((x00 * x13) * x32) + ((x02 * x10) * x33) - ((x02 * x13) * x30), ((x03 * x10) * x32));
    lemma_mul_is_distributive_sub(x23, 0 - ((x00 * x12) * x33) + ((x00 * x13) * x32) + ((x02 * x10) * x33), ((x02 * x13) * x30));
    lemma_mul_is_distributive_add(x23, 0 - ((x00 * x12) * x33) + ((x00 * x13) * x32), ((x02 * x10) * x33));
    lemma_mul_is_distributive_add(x23, 0 - ((x00 * x12) * x33), ((x00 * x13) * x32));
    lemma_mul_is_distributive_sub(x23, 0, ((x00 * x12) * x33));
    assert(x23 * ((x00 * x12) * x33) == ((x00 * x12) * x23) * x33) by (nonlinear_arith);
    assert(x23 * ((x00 * x13) * x32) == ((x00 * x13) * x23) * x32) by (nonlinear_arith);
    assert(x23 * ((x02 * x10) * x33) == ((x02 * x10) * x23) * x33) by (nonlinear_arith);
    assert(x23 * ((x02 * x13) * x30) == ((x02 * x13) * x23) * x30) by (nonlinear_arith);
    assert(x23 * ((x03 * x10) * x32) == ((x03 * x10) * x23) * x32) by (nonlinear_arith);
    assert(x23 * ((x03 * x12) * x30) == ((x03 * x12) * x23) * x30) by (nonlinear_arith);
    lemma_mul_is_distributive_sub(x23, (x00 * x11) * x33 - ((x00 * x13) * x31) - ((x01 * x10) * x33) + ((x01 * x13) * x30) + ((x03 * x10) * x31), ((x03 * x11) * x30));
    lemma_mul_is_distributive_add(x23, (x00 * x11) * x33 - ((x00 * x13) * x31) - ((x01 * x10) * x33) + ((x01 * x13) * x30), ((x03 * x10) * x31));
    lemma_mul_is_distributive_add(x23, (x00 * x11) * x33 - ((x00 * x13) * x31) - ((x01 * x10) * x33), ((x01 * x13) * x30));
    lemma_mul_is_distributive_sub(x23, (x00 * x11) * x33 - ((x00 * x13) * x31), ((x01 * x10) * x33));
    lemma_mul_is_distributive_sub(x23, (x00 * x11) * x33, ((x00 * x13) * x31));
    assert(x23 * ((x00 * x11) * x33) == ((x00 * x11) * x23) * x33) by (nonlinear_arith);
    assert(x23 * ((x00 * x13) * x31) == ((x00 * x13) * x23) * x31) by (nonlinear_arith);
    assert(x23 * ((x01 * x10) * x33) == ((x01 * x10) * x23) * x33) by (nonlinear_arith);
    assert(x23 * ((x01 * x13) * x30) == ((x01 * x13) * x23) * x30) by (nonlinear_arith);
    assert(x23 * ((x03 * x10) * x31) == ((x03 * x10) * x23) * x31) by (nonlinear_arith);
    assert(x23 * ((x03 * x11) * x30) == ((x03 * x11) * x23) * x30) by (nonlinear_arith);
    lemma_mul_is_distributive_add(x23, 0 - ((x00 * x11) * x32) + ((x00 * x12) * x31) + ((x01 * x10) * x32) - ((x01 * x12) * x30) - ((x02 * x10) * x31), ((x02 * x11) * x30));
    lemma_mul_is_distributive_sub(x23, 0 - ((x00 * x11) * x32) + ((x00 * x12) * x31) + ((x01 * x10) * x32) - ((x01 * x12) * x30), ((x02 * x10) * x31));
    lemma_mul_is_distributive_sub(x23, 0 - ((x00 * x11) * x32) + ((x00 * x12) * x31) + ((x01 * x10) * x32), ((x01 * x12) * x30));
    lemma_mul_is_distributive_add(x23, 0 - ((x00 * x11) * x32) + ((x00 * x12) * x31), ((x01 * x10) * x32));
    lemma_mul_is_distributive_add(x23, 0 - ((x00 * x11) * x32), ((x00 * x12) * x31));
    lemma_mul_is_distributive_sub(x23, 0, ((x00 * x11) * x32));
    assert(x23 * ((x00 * x11) * x32) == ((x00 * x11) * x23) * x32) by (nonlinear_arith);
    assert(x23 * ((x00 * x12) * x31) == ((x00 * x12) * x23) * x31) by (nonlinear_arith);
    assert(x23 * ((x01 * x10) * x32) == ((x01 * x10) * x23) * x32) by (nonlinear_arith);
    assert(x23 * ((x01 * x12) * x30) == ((x01 * x12) * x23) * x30) by (nonlinear_arith);
    assert(x23 * ((x02 * x10) * x31) == ((x02 * x10) * x23) * x31) by (nonlinear_arith);
    assert(x23 * ((x02 * x11) * x30) == ((x02 * x11) * x23) * x30) by (nonlinear_arith);
    lemma_mul_is_distributive_add(x30, 0 - ((x01 * x12) * x23) + ((x01 * x13) * x22) + ((x02 * x11) * x23) - ((x02 * x13) * x21) - ((x03 * x11) * x22), ((x03 * x12) * x21));
    lemma_mul_is_distributive_sub(x30, 0 - ((x01 * x12) * x23) + ((x01 * x13) * x22) + ((x02 * x11) * x23) - ((x02 * x13) * x21), ((x03 * x11) * x22));
    lemma_mul_is_distributive_sub(x30, 0 - ((x01 * x12) * x23) + ((x01 * x13) * x22) + ((x02 * x11) * x23), ((x02 * x13) * x21));
    lemma_mul_is_distributive_add(x30, 0 - ((x01 * x12) * x23) + ((x01 * x13) * x22), ((x02 * x11) * x23));
    lemma_mul_is_distributive_add(x30, 0 - ((x01 * x12) * x23), ((x01 * x13) * x22));
    lemma_mul_is_distributive_sub(x30, 0, ((x01 * x12) * x23));
    assert(x30 * ((x01 * x12) * x23) == ((x01 * x12) * x23) * x30) by (nonlinear_arith);
    assert(x30 * ((x01 * x13) * x22) == ((x01 * x13) * x22) * x30) by (nonlinear_arith);
    assert(x30 * ((x02 * x11) * x23) == ((x02 * x11) * x23) * x30) by (nonlinear_arith);
    assert(x30 * ((x02 * x13) * x21) == ((x02 * x13) * x21) * x30) by (nonlinear_arith);
    assert(x30 * ((x03 * x11) * x22) == ((x03 * x11) * x22) * x30) by (nonlinear_arith);
    assert(x30 * ((x03 * x12) * x21) == ((x03 * x12) * x21) * x30) by (nonlinear_arith);
    lemma_mul_is_distributive_sub(x30, (x00 * x12) * x23 - ((x00 * x13) * x22) - ((x02 * x10) * x23) + ((x02 * x13) * x20) + ((x03 * x10) * x22), ((x03 * x12) * x20));
    lemma_mul_is_distributive_add(x30, (x00 * x12) * x23 - ((x00 * x13) * x22) - ((x02 * x10) * x23) + ((x02 * x13) * x20), ((x03 * x10) * x22));
    lemma_mul_is_distributive_add(x30, (x00 * x12) * x23 - ((x00 * x13) * x22) - ((x02 * x10) * x23), ((x02 * x13) * x20));
    lemma_mul_is_distributive_sub(x30, (x00 * x12) * x23 - ((x00 * x13) * x22), ((x02 * x10) * x23));
    lemma_mul_is_distributive_sub(x30, (x00 * x12) * x23, ((x00 * x13) * x22));
    assert(x30 * ((x00 * x12) * x23) == ((x00 * x12) * x23) * x30) by (nonlinear_arith);
    assert(x30 * ((x00 * x13) * x22) == ((x00 * x13) * x22) * x30) by (nonlinear_arith);
    assert(x30 * ((x02 * x10) * x23) == ((x02 * x10) * x23) * x30) by (nonlinear_arith);
    assert(x30 * ((x02 * x13) * x20) == ((x02 * x13) * x20) * x30) by (nonlinear_arith);
    assert(x30 * ((x03 * x10) * x22) == ((x03 * x10) * x22) * x30) by (nonlinear_arith);
    assert(x30 * ((x03 * x12) * x20) == ((x03 * x12) * x20) * x30) by (nonlinear_arith);
    lemma_mul_is_distributive_add(x30, 0 - ((x00 * x11) * x23) + ((x00 * x13) * x21) + ((x01 * x10) * x23) - ((x01 * x13) * x20) - ((x03 * x10) * x21), ((x03 * x11) * x20));
    lemma_mul_is_distributive_sub(x30, 0 - ((x00 * x11) * x23) + ((x00 * x13) * x21) + ((x01 * x10) * x23) - ((x01 * x13) * x20), ((x03 * x10) * x21));
    lemma_mul_is_distributive_sub(x30, 0 - ((x00 * x11) * x23) + ((x00 * x13) * x21) + ((x01 * x10) * x23), ((x01 * x13) * x20));
    lemma_mul_is_distributive_add(x30, 0 - ((x00 * x11) * x23) + ((x00 * x13) * x21), ((x01 * x10) * x23));
    lemma_mul_is_distributive_add(x30, 0 - ((x00 * x11) * x23), ((x00 * x13) * x21));
    lemma_mul_is_distributive_sub(x30, 0, ((x00 * x11) * x23));
    assert(x30 * ((x00 * x11) * x23) == ((x00 * x11) * x23) * x30) by (nonlinear_arith);
    assert(x30 * ((x00 * x13) * x21) == ((x00 * x13) * x21) * x30) by (nonlinear_arith);
    assert(x30 * ((x01 * x10) * x23) == ((x01 * x10) * x23) * x30) by (nonlinear_arith);
    assert(x30 * ((x01 * x13) * x20) == ((x01 * x13) * x20) * x30) by (nonlinear_arith);
    assert(x30 * ((x03 * x10) * x21) == ((x03 * x10) * x21) * x30) by (nonlinear_arith);
    assert(x30 * ((x03 * x11) * x20) == ((x03 * x11) * x20) * x30) by (nonlinear_arith);
    lemma_mul_is_distributive_sub(x30, (x00 * x11) * x22 - ((x00 * x12) * x21) - ((x01 * x10) * x22) + ((x01 * x12) * x20) + ((x02 * x10) * x21), ((x02 * x11) * x20));
    lemma_mul_is_distributive_add(x30, (x00 * x11) * x22 - ((x00 * x12) * x21) - ((x01 * x10) * x22) + ((x01 * x12) * x20), ((x02 * x10) * x21));
    lemma_mul_is_distributive_add(x30, (x00 * x11) * x22 - ((x00 * x12) * x21) - ((x01 * x10) * x22), ((x01 * x12) * x20));
    lemma_mul_is_distributive_sub(x30, (x00 * x11) * x22 - ((x00 * x12) * x21), ((x01 * x10) * x22));
    lemma_mul_is_distributive_sub(x30, (x00 * x11) * x22, ((x00 * x12) * x21));
    assert(x30 * ((x00 * x11) * x22) == ((x00 * x11) * x22) * x30) by (nonlinear_arith);
    assert(x30 * ((x00 * x12) * x21) == ((x00 * x12) * x21) * x30) by (nonlinear_arith);
    assert(x30 * ((x01 * x10) * x22) == ((x01 * x10) * x22) * x30) by (nonlinear_arith);
    assert(x30 * ((x01 * x12) * x20) == ((x01 * x12) * x20) * x30) by (nonlinear_arith);
    assert(x30 * ((x02 * x10) * x21) == ((x02 * x10) * x21) * x30) by (nonlinear_arith);
    assert(x30 * ((x02 * x11) * x20) == ((x02 * x11) * x20) * x30) by (nonlinear_arith);
    lemma_mul_is_distributive_add(x31, 0 - ((x01 * x12) * x23) + ((x01 * x13) * x22) + ((x02 * x11) * x23) - ((x02 * x13) * x21) - ((x03 * x11) * x22), ((x03 * x12) * x21));
    lemma_mul_is_distributive_sub(x31, 0 - ((x01 * x12) * x23) + ((x01 * x13) * x22) + ((x02 * x11) * x23) - ((x02 * x13) * x21), ((x03 * x11) * x22));
    lemma_mul_is_distributive_sub(x31, 0 - ((x01 * x12) * x23) + ((x01 * x13) * x22) + ((x02 * x11) * x23), ((x02 * x13) * x21));
    lemma_mul_is_distributive_add(x31, 0 - ((x01 * x12) * x23) + ((x01 * x13) * x22), ((x02 * x11) * x23));
    lemma_mul_is_distributive_add(x31, 0 - ((x01 * x12) * x23), ((x01 * x13) * x22));
    lemma_mul_is_distributive_sub(x31, 0, ((x01 * x12) * x23));
    assert(x31 * ((x01 * x12) * x23) == ((x01 * x12) * x23) * x31) by (nonlinear_arith);
    assert(x31 * ((x01 * x13) * x22) == ((x01 * x13) * x22) * x31) by (nonlinear_arith);
    assert(x31 * ((x02 * x11) * x23) == ((x02 * x11) * x23) * x31) by (nonlinear_arith);
    assert(x31 * ((x02 * x13) * x21) == ((x02 * x13) * x21) * x31) by (nonlinear_arith);
    assert(x31 * ((x03 * x11) * x22) == ((x03 * x11) * x22) * x31) by (nonlinear_arith);
    assert(x31 * ((x03 * x12) * x21) == ((x03 * x12) * x21) * x31) by (nonlinear_arith);
    lemma_mul_is_distributive_sub(x31, (x00 * x12) * x23 - ((x00 * x13) * x22) - ((x02 * x10) * x23) + ((x02 * x13) * x20) + ((x03 * x10) * x22), ((x03 * x12) * x20));
    lemma_mul_is_distributive_add(x31, (x00 * x12) * x23 - ((x00 * x13) * x22) - ((x02 * x10) * x23) + ((x02 * x13) * x20), ((x03 * x10) * x22));
    lemma_mul_is_distributive_add(x31, (x00 * x12) * x23 - ((x00 * x13) * x22) - ((x02 * x10) * x23), ((x02 * x13) * x20));
    lemma_mul_is_distributive_sub(x31, (x00 * x12) * x23 - ((x00 * x13) * x22), ((x02 * x10) * x23));
    lemma_mul_is_distributive_sub(x31, (x00 * x12) * x23, ((x00 * x13) * x22));
    assert(x31 * ((x00 * x12) * x23) == ((x00 * x12) * x23) * x31) by (nonlinear_arith);
    assert(x31 * ((x00 * x13) * x22) == ((x00 * x13) * x22) * x31) by (nonlinear_arith);
    assert(x31 * ((x02 * x10) * x23) == ((x02 * x10) * x23) * x31) by (nonlinear_arith);
    assert(x31 * ((x02 * x13) * x20) == ((x02 * x13) * x20) * x31) by (nonlinear_arith);
    assert(x31 * ((x03 * x10) * x22) == ((x03 * x10) * x22) * x31) by (nonlinear_arith);
    assert(x31 * ((x03 * x12) * x20) == ((x03 * x12) * x20) * x31) by (nonlinear_arith);
    lemma_mul_is_distributive_add(x31, 0 - ((x00 * x11) * x23) + ((x00 * x13) * x21) + ((x01 * x10) * x23) - ((x01 * x13) * x20) - ((x03 * x10) * x21), ((x03 * x11) * x20));
    lemma_mul_is_distributive_sub(x31, 0 - ((x00 * x11) * x23) + ((x00 * x13) * x21) + ((x01 * x10) * x23) - ((x01 * x13) * x20), ((x03 * x10) * x21));
    lemma_mul_is_distributive_sub(x31, 0 - ((x00 * x11) * x23) + ((x00 * x13) * x21) + ((x01 * x10) * x23), ((x01 * x13) * x20));
    lemma_mul_is_distributive_add(x31, 0 - ((x00 * x11) * x23) + ((x00 * x13) * x21), ((x01 * x10) * x23));
    lemma_mul_is_distributive_add(x31, 0 - ((x00 * x11) * x23), ((x00 * x13) * x21));
    lemma_mul_is_distributive_sub(x31, 0, ((x00 * x11) * x23));
    assert(x31 * ((x00 * x11) * x23) == ((x00 * x11) * x23) * x31) by (nonlinear_arith);
    assert(x31 * ((x00 * x13) * x21) == ((x00 * x13) * x21) * x31) by (nonlinear_arith);
    assert(x31 * ((x01 * x10) * x23) == ((x01 * x10) * x23) * x31) by (nonlinear_arith);
    assert(x31 * ((x01 * x13) * x20) == ((x01 * x13) * x20) * x31) by (nonlinear_arith);
    assert(x31 * ((x03 * x10) * x21) == ((x03 * x10) * x21) * x31) by (nonlinear_arith);
    assert(x31 * ((x03 * x11) * x20) == ((x03 * x11) * x20) * x31) by (nonlinear_arith);
    lemma_mul_is_distributive_sub(x31, (x00 * x11) * x22 - ((x00 * x12) * x21) - ((x01 * x10) * x22) + ((x01 * x12) * x20) + ((x02 * x10) * x21), ((x02 * x11) * x20));
    lemma_mul_is_distributive_add(x31, (x00 * x11) * x22 - ((x00 * x12) * x21) - ((x01 * x10) * x22) + ((x01 * x12) * x20), ((x02 * x10) * x21));
    lemma_mul_is_distributive_add(x31, (x00 * x11) * x22 - ((x00 * x12) * x21) - ((x01 * x10) * x22), ((x01 * x12) * x20));
    lemma_mul_is_distributive_sub(x31, (x00 * x11) * x22 - ((x00 * x12) * x21), ((x01 * x10) * x22));
    lemma_mul_is_distributive_sub(x31, (x00 * x11) * x22, ((x00 * x12) * x21));
    assert(x31 * ((x00 * x11) * x22) == ((x00 * x11) * x22) * x31) by (nonlinear_arith);
    assert(x31 * ((x00 * x12) * x21) == ((x00 * x12) * x21) * x31) by (nonlinear_arith);
    assert(x31 * ((x01 * x10) * x22) == ((x01 * x10) * x22) * x31) by (nonlinear_arith);
    assert(x31 * ((x01 * x12) * x20) == ((x01 * x12) * x20) * x31) by (nonlinear_arith);
    assert(x31 * ((x02 * x10) * x21) == ((x02 * x10) * x21) * x31) by (nonlinear_arith);
    assert(x31 * ((x02 * x11) * x20) == ((x02 * x11) * x20) * x31) by (nonlinear_arith);
    lemma_mul_is_distributive_add(x32, 0 - ((x01 * x12) * x23) + ((x01 * x13) * x22) + ((x02 * x11) * x23) - ((x02 * x13) * x21) - ((x03 * x11) * x22), ((x03 * x12) * x21));
    lemma_mul_is_distributive_sub(x32, 0 - ((x01 * x12) * x23) + ((x01 * x13) * x22) + ((x02 * x11) * x23) - ((x02 * x13) * x21), ((x03 * x11) * x22));
    lemma_mul_is_distributive_sub(x32, 0 - ((x01 * x12) * x23) + ((x01 * x13) * x22) + ((x02 * x11) * x23), ((x02 * x13) * x21));
    lemma_mul_is_distributive_add(x32, 0 - ((x01 * x12) * x23) + ((x01 * x13) * x22), ((x02 * x11) * x23));
    lemma_mul_is_distributive_add(x32, 0 - ((x01 * x12) * x23), ((x01 * x13) * x22));
    lemma_mul_is_distributive_sub(x32, 0, ((x01 * x12) * x23));
    assert(x32 * ((x01 * x12) * x23) == ((x01 * x12) * x23) * x32) by (nonlinear_arith);
    assert(x32 * ((x01 * x13) * x22) == ((x01 * x13) * x22) * x32) by (nonlinear_arith);
    assert(x32 * ((x02 * x11) * x23) == ((x02 * x11) * x23) * x32) by (nonlinear_arith);
    assert(x32 * ((x02 * x13) * x21) == ((x02 * x13) * x21) * x32) by (nonlinear_arith);
    assert(x32 * ((x03 * x11) * x22) == ((x03 * x11) * x22) * x32) by (nonlinear_arith);
    assert(x32 * ((x03 * x12) * x21) == ((x03 * x12) * x21) * x32) by (nonlinear_arith);
    lemma_mul_is_distributive_sub(x32, (x00 * x12) * x23 - ((x00 * x13) * x22) - ((x02 * x10) * x23) + ((x02 * x13) * x20) + ((x03 * x10) * x22), ((x03 * x12) * x20));
    lemma_mul_is_distributive_add(x32, (x00 * x12) * x23 - ((x00 * x13) * x22) - ((x02 * x10) * x23) + ((x02 * x13) * x20), ((x03 * x10) * x22));
    lemma_mul_is_distributive_add(x32, (x00 * x12) * x23 - ((x00 * x13) * x22) - ((x02 * x10) * x23), ((x02 * x13) * x20));
    lemma_mul_is_distributive_sub(x32, (x00 * x12) * x23 - ((x00 * x13) * x22), ((x02 * x10) * x23));
    lemma_mul_is_distributive_sub(x32, (x00 * x12) * x23, ((x00 * x13) * x22));
    assert(x32 * ((x00 * x12) * x23) == ((x00 * x12) * x23) * x32) by (nonlinear_arith);
    assert(x32 * ((x00 * x13) * x22) == ((x00 * x13) * x22) * x32) by (nonlinear_arith);
    assert(x32 * ((x02 * x10) * x23) == ((x02 * x10) * x23) * x32) by (nonlinear_arith);
    assert(x32 * ((x02 * x13) * x20) == ((x02 * x13) * x20) * x32) by (nonlinear_arith);
    assert(x32 * ((x03 * x10) * x22) == ((x03 * x10) * x22) * x32) by (nonlinear_arith);
    assert(x32 * ((x03 * x12) * x20) == ((x03 * x12) * x20) * x32) by (nonlinear_arith);
    lemma_mul_is_distributive_add(x32, 0 - ((x00 * x11) * x23) + ((x00 * x13) * x21) + ((x01 * x10) * x23) - ((x01 * x13) * x20) - ((x03 * x10) * x21), ((x03 * x11) * x20));
    lemma_mul_is_distributive_sub(x32, 0 - ((x00 * x11) * x23) + ((x00 * x13) * x21) + ((x01 * x10) * x23) - ((x01 * x13) * x20), ((x03 * x10) * x21));
    lemma_mul_is_distributive_sub(x32, 0 - ((x00 * x11) * x23) + ((x00 * x13) * x21) + ((x01 * x10) * x23), ((x01 * x13) * x20));
    lemma_mul_is_distributive_add(x32, 0 - ((x00 * x11) * x23) + ((x00 * x13) * x21), ((x01 * x10) * x23));
    lemma_mul_is_distributive_add(x32, 0 - ((x00 * x11) * x23), ((x00 * x13) * x21));
    lemma_mul_is_distributive_sub(x32, 0, ((x00 * x11) * x23));
    assert(x32 * ((x00 * x11) * x23) == ((x00 * x11) * x23) * x32) by (nonlinear_arith);
    assert(x32 * ((x00 * x13) * x21) == ((x00 * x13) * x21) * x32) by (nonlinear_arith);
    assert(x32 * ((x01 * x10) * x23) == ((x01 * x10) * x23) * x32) by (nonlinear_arith);
    assert(x32 * ((x01 * x13) * x20) == ((x01 * x13) * x20) * x32) by (nonlinear_arith);
    assert(x32 * ((x03 * x10) * x21) == ((x03 * x10) * x21) * x32) by (nonlinear_arith);
    assert(x32 * ((x03 * x11) * x20) == ((x03 * x11) * x20) * x32) by (nonlinear_arith);
    lemma_mul_is_distributive_sub(x32, (x00 * x11) * x22 - ((x00 * x12) * x21) - ((x01 * x10) * x22) + ((x01 * x12) * x20) + ((x02 * x10) * x21), ((x02 * x11) * x20));
    lemma_mul_is_distributive_add(x32, (x00 * x11) * x22 - ((x00 * x12) * x21) - ((x01 * x10) * x22) + ((x01 * x12) * x20), ((x02 * x10) * x21));
    lemma_mul_is_distributive_add(x32, (x00 * x11) * x22 - ((x00 * x12) * x21) - ((x01 * x10) * x22), ((x01 * x12) * x20));
    lemma_mul_is_distributive_sub(x32, (x00 * x11) * x22 - ((x00 * x12) * x21), ((x01 * x10) * x22));
    lemma_mul_is_distributive_sub(x32, (x00 * x11) * x22, ((x00 * x12) * x21));
    assert(x32 * ((x00 * x11) * x22) == ((x00 * x11) * x22) * x32) by (nonlinear_arith);
    assert(x32 * ((x00 * x12) * x21) == ((x00 * x12) * x21) * x32) by (nonlinear_arith);
    assert(x32 * ((x01 * x10) * x22) == ((x01 * x10) * x22) * x32) by (nonlinear_arith);
    assert(x32 * ((x01 * x12) * x20) == ((x01 * x12) * x20) * x32) by (nonlinear_arith);
    assert(x32 * ((x02 * x10) * x21) == ((x02 * x10) * x21) * x32) by (nonlinear_arith);
    assert(x32 * ((x02 * x11) * x20) == ((x02 * x11) * x20) * x32) by (nonlinear_arith);
    lemma_mul_is_distributive_add(x33, 0 - ((x01 * x12) * x23) + ((x01 * x13) * x22) + ((x02 * x11) * x23) - ((x02 * x13) * x21) - ((x03 * x11) * x22), ((x03 * x12) * x21));
    lemma_mul_is_distributive_sub(x33, 0 - ((x01 * x12) * x23) + ((x01 * x13) * x22) + ((x02 * x11) * x23) - ((x02 * x13) * x21), ((x03 * x11) * x22));
    lemma_mul_is_distributive_sub(x33, 0 - ((x01 * x12) * x23) + ((x01 * x13) * x22) + ((x02 * x11) * x23), ((x02 * x13) * x21));
    lemma_mul_is_distributive_add(x33, 0 - ((x01 * x12) * x23) + ((x01 * x13) * x22), ((x02 * x11) * x23));
    lemma_mul_is_distributive_add(x33, 0 - ((x01 * x12) * x23), ((x01 * x13) * x22));
    lemma_mul_is_distributive_sub(x33, 0, ((x01 * x12) * x23));
    assert(x33 * ((x01 * x12) * x23) == ((x01 * x12) * x23) * x33) by (nonlinear_arith);
    assert(x33 * ((x01 * x13) * x22) == ((x01 * x13) * x22) * x33) by (nonlinear_arith);
    assert(x33 * ((x02 * x11) * x23) == ((x02 * x11) * x23) * x33) by (nonlinear_arith);
    assert(x33 * ((x02 * x13) * x21) == ((x02 * x13) * x21) * x33) by (nonlinear_arith);
    assert(x33 * ((x03 * x11) * x22) == ((x03 * x11) * x22) * x33) by (nonlinear_arith);
    assert(x33 * ((x03 * x12) * x21) == ((x03 * x12) * x21) * x33) by (nonlinear_arith);
    lemma_mul_is_distributive_sub(x33, (x00 * x12) * x23 - ((x00 * x13) * x22) - ((x02 * x10) * x23) + ((x02 * x13) * x20) + ((x03 * x10) * x22), ((x03 * x12) * x20));
    lemma_mul_is_distributive_add(x33, (x00 * x12) * x23 - ((x00 * x13) * x22) - ((x02 * x10) * x23) + ((x02 * x13) * x20), ((x03 * x10) * x22));
    lemma_mul_is_distributive_add(x33, (x00 * x12) * x23 - ((x00 * x13) * x22) - ((x02 * x10) * x23), ((x02 * x13) * x20));
    lemma_mul_is_distributive_sub(x33, (x00 * x12) * x23 - ((x00 * x13) * x22), ((x02 * x10) * x23));
    lemma_mul_is_distributive_sub(x33, (x00 * x12) * x23, ((x00 * x13) * x22));
    assert(x33 * ((x00 * x12) * x23) == ((x00 * x12) * x23) * x33) by (nonlinear_arith);
    assert(x33 * ((x00 * x13) * x22) == ((x00 * x13) * x22) * x33) by (nonlinear_arith);
    assert(x33 * ((x02 * x10) * x23) == ((x02 * x10) * x23) * x33) by (nonlinear_arith);
    assert(x33 * ((x02 * x13) * x20) == ((x02 * x13) * x20) * x33) by (nonlinear_arith);
    assert(x33 * ((x03 * x10) * x22) == ((x03 * x10) * x22) * x33) by (nonlinear_arith);
    assert(x33 * ((x03 * x12) * x20) == ((x03 * x12) * x20) * x33) by (nonlinear_arith);
    lemma_mul_is_distributive_add(x33, 0 - ((x00 * x11) * x23) + ((x00 * x13) * x21) + ((x01 * x10) * x23) - ((x01 * x13) * x20) - ((x03 * x10) * x21), ((x03 * x11) * x20));
    lemma_mul_is_distributive_sub(x33, 0 - ((x00 * x11) * x23) + ((x00 * x13) * x21) + ((x01 * x10) * x23) - ((x01 * x13) * x20), ((x03 * x10) * x21));
    lemma_mul_is_distributive_sub(x33, 0 - ((x00 * x11) * x23) + ((x00 * x13) * x21) + ((x01 * x10) * x23), ((x01 * x13) * x20));
    lemma_mul_is_distributive_add(x33, 0 - ((x00 * x11) * x23) + ((x00 * x13) * x21), ((x01 * x10) * x23));
    lemma_mul_is_distributive_add(x33, 0 - ((x00 * x11) * x23), ((x00 * x13) * x21));
    lemma_mul_is_distributive_sub(x33, 0, ((x00 * x11) * x23));
    assert(x33 * ((x00 * x11) * x23) == ((x00 * x11) * x23) * x33) by (nonlinear_arith);
    assert(x33 * ((x00 * x13) * x21) == ((x00 * x13) * x21) * x33) by (nonlinear_arith);
    assert(x33 * ((x01 * x10) * x23) == ((x01 * x10) * x23) * x33) by (nonlinear_arith);
    assert(x33 * ((x01 * x13) * x20) == ((x01 * x13) * x20) * x33) by (nonlinear_arith);
    assert(x33 * ((x03 * x10) * x21) == ((x03 * x10) * x21) * x33) by (nonlinear_arith);
    assert(x33 * ((x03 * x11) * x20) == ((x03 * x11) * x20) * x33) by (nonlinear_arith);
    lemma_mul_is_distributive_sub(x33, (x00 * x11) * x22 - ((x00 * x12) * x21) - ((x01 * x10) * x22) + ((x01 * x12) * x20) + ((x02 * x10) * x21), ((x02 * x11) * x20));
    lemma_mul_is_distributive_add(x33, (x00 * x11) * x22 - ((x00 * x12) * x21) - ((x01 * x10) * x22) + ((x01 * x12) * x20), ((x02 * x10) * x21));
    lemma_mul_is_distributive_add(x33, (x00 * x11) * x22 - ((x00 * x12) * x21) - ((x01 * x10) * x22), ((x01 * x12) * x20));
    lemma_mul_is_distributive_sub(x33, (x00 * x11) * x22 - ((x00 * x12) * x21), ((x01 * x10) * x22));
    lemma_mul_is_distributive_sub(x33, (x00 * x11) * x22, ((x00 * x12) * x21));
    assert(x33 * ((x00 * x11) * x22) == ((x00 * x11) * x22) * x33) by (nonlinear_arith);
    assert(x33 * ((x00 * x12) * x21) == ((x00 * x12) * x21) * x33) by (nonlinear_arith);
    assert(x33 * ((x01 * x10) * x22) == ((x01 * x10) * x22) * x33) by (nonlinear_arith);
    assert(x33 * ((x01 * x12) * x20) == ((x01 * x12) * x20) * x33) by (nonlinear_arith);
    assert(x33 * ((x02 * x10) * x21) == ((x02 * x10) * x21) * x33) by (nonlinear_arith);
    assert(x33 * ((x02 * x11) * x20) == ((x02 * x11) * x20) * x33) by (nonlinear_arith);
}

/// At order 4: the adjugate of `a` times `a` is `det(a)` times the identity.
pub(crate) proof fn lemma_product_adjugate_4(a: Seq<Seq<int>>)
    requires
        is_square(a),
        a.len() == 4,
    ensures
        product(adjugate_of(a), a) == scalar_identity(a.len(), det(a)),
{
    let (x00, x01, x02, x03) = (a[0][0], a[0][1], a[0][2], a[0][3]);
    let (x10, x11, x12, x13) = (a[1][0], a[1][1], a[1][2], a[1][3]);
    let (x20, x21, x22, x23) = (a[2][0], a[2][1], a[2][2], a[2][3]);
    let (x30, x31, x32, x33) = (a[3][0], a[3][1], a[3][2], a[3][3]);
    assert(submatrix_of(a, 0, 0)[0] == seq![x11, x12, x13]);
    assert(submatrix_of(a, 0, 0)[1] == seq![x21, x22, x23]);
    assert(submatrix_of(a, 0, 0)[2] == seq![x31, x32, x33]);
    lemma_det_3(submatrix_of(a, 0, 0));
    assert(sign(0int + 0int) == 1);
    lemma_unit_times(sign(0int + 0int), minor_of(a, 0, 0));
    assert(cofactor_of(a, 0, 0) == (x11 * x22) * x33 - ((x11 * x23) * x32) - ((x12 * x21) * x33) + ((x12 * x23) * x31) + ((x13 * x21) * x32) - ((x13 * x22) * x31));
    assert(submatrix_of(a, 0, 1)[0] == seq![x10, x12, x13]);
    assert(submatrix_of(a, 0, 1)[1] == seq![x20, x22, x23]);
    assert(submatrix_of(a, 0, 1)[2] == seq![x30, x32, x33]);
    lemma_det_3(submatrix_of(a, 0, 1));
    assert(sign(0int + 1int) == -1);
    lemma_unit_times(sign(0int + 1int), minor_of(a, 0, 1));
    assert(cofactor_of(a, 0, 1) == 0 - ((x10 * x22) * x33) + ((x10 * x23) * x32) + ((x12 * x20) * x33) - ((x12 * x23) * x30) - ((x13 * x20) * x32) + ((x13 * x22) * x30));
    assert(submatrix_of(a, 0, 2)[0] == seq![x10, x11, x13]);
    assert(submatrix_of(a, 0, 2)[1] == seq![x20, x21, x23]);
    assert(submatrix_of(a, 0, 2)[2] == seq![x30, x31, x33]);
    lemma_det_3(submatrix_of(a, 0, 2));
    assert(sign(0int + 2int) == 1);
    lemma_unit_times(sign(0int + 2int), minor_of(a, 0, 2));
    assert(cofactor_of(a, 0, 2) == (x10 * x21) * x33 - ((x10 * x23) * x31) - ((x11 * x20) * x33) + ((x11 * x23) * x30) + ((x13 * x20) * x31) - ((x13 * x21) * x30));
    assert(submatrix_of(a, 0, 3)[0] == seq![x10, x11, x12]);
    assert(submatrix_of(a, 0, 3)[1] == seq![x20, x21, x22]);
    assert(submatrix_of(a, 0, 3)[2] == seq![x30, x31, x32]);
    lemma_det_3(submatrix_of(a, 0, 3));
    assert(sign(0int + 3int) == -1);
    lemma_unit_times(sign(0int + 3int), minor_of(a, 0, 3));
    assert(cofactor_of(a, 0, 3) == 0 - ((x10 * x21) * x32) + ((x10 * x22) * x31) + ((x11 * x20) * x32) - ((x11 * x22) * x30) - ((x12 * x20) * x31) + ((x12 * x21) * x30));
    assert(submatrix_of(a, 1, 0)[0] == seq![x01, x02, x03]);
    assert(submatrix_of(a, 1, 0)[1] == seq![x21, x22, x23]);
    assert(submatrix_of(a, 1, 0)[2] == seq![x31, x32, x33]);
    lemma_det_3(submatrix_of(a, 1, 0));
    assert(sign(1int + 0int) == -1);
    lemma_unit_times(sign(1int + 0int), minor_of(a, 1, 0));
    assert(cofactor_of(a, 1, 0) == 0 - ((x01 * x22) * x33) + ((x01 * x23) * x32) + ((x02 * x21) * x33) - ((x02 * x23) * x31) - ((x03 * x21) * x32) + ((x03 * x22) * x31));
    assert(submatrix_of(a, 1, 1)[0] == seq![x00, x02, x03]);
    assert(submatrix_of(a, 1, 1)[1] == seq![x20, x22, x23]);
    assert(submatrix_of(a, 1, 1)[2] == seq![x30, x32, x33]);
    lemma_det_3(submatrix_of(a, 1, 1));
    assert(sign(1int + 1int) == 1);
    lemma_unit_times(sign(1int + 1int), minor_of(a, 1, 1));
    assert(cofactor_of(a, 1, 1) == (x00 * x22) * x33 - ((x00 * x23) * x32) - ((x02 * x20) * x33) + ((x02 * x23) * x30) + ((x03 * x20) * x32) - ((x03 * x22) * x30));
    assert(submatrix_of(a, 1, 2)[0] == seq![x00, x01, x03]);
    assert(submatrix_of(a, 1, 2)[1] == seq![x20, x21, x23]);
    assert(submatrix_of(a, 1, 2)[2] == seq![x30, x31, x33]);
    lemma_det_3(submatrix_of(a, 1, 2));
    assert(sign(1int + 2int) == -1);
    lemma_unit_times(sign(1int + 2int), minor_of(a, 1, 2));
    assert(cofactor_of(a, 1, 2) == 0 - ((x00 * x21) * x33) + ((x00 * x23) * x31) + ((x01 * x20) * x33) - ((x01 * x23) * x30) - ((x03 * x20) * x31) + ((x03 * x21) * x30));
    assert(submatrix_of(a, 1, 3)[0] == seq![x00, x01, x02]);
    assert(submatrix_of(a, 1, 3)[1] == seq![x20, x21, x22]);
    assert(submatrix_of(a, 1, 3)[2] == seq![x30, x31, x32]);
    lemma_det_3(submatrix_of(a, 1, 3));
    assert(sign(1int + 3int) == 1);
    lemma_unit_times(sign(1int + 3int), minor_of(a, 1, 3));
    assert(cofactor_of(a, 1, 3) == (x00 * x21) * x32 - ((x00 * x22) * x31) - ((x01 * x20) * x32) + ((x01 * x22) * x30) + ((x02 * x20) * x31) - ((x02 * x21) * x30));
    assert(submatrix_of(a, 2, 0)[0] == seq![x01, x02, x03]);
    assert(submatrix_of(a, 2, 0)[1] == seq![x11, x12, x13]);
    assert(submatrix_of(a, 2, 0)[2] == seq![x31, x32, x33]);
    lemma_det_3(submatrix_of(a, 2, 0));
    assert(sign(2int + 0int) == 1);
    lemma_unit_times(sign(2int + 0int), minor_of(a, 2, 0));
    assert(cofactor_of(a, 2, 0) == (x01 * x12) * x33 - ((x01 * x13) * x32) - ((x02 * x11) * x33) + ((x02 * x13) * x31) + ((x03 * x11) * x32) - ((x03 * x12) * x31));
    assert(submatrix_of(a, 2, 1)[0] == seq![x00, x02, x03]);
    assert(submatrix_of(a, 2, 1)[1] == seq![x10, x12, x13]);
    assert(submatrix_of(a, 2, 1)[2] == seq![x30, x32, x33]);
    lemma_det_3(submatrix_of(a, 2, 1));
    assert(sign(2int + 1int) == -1);
    lemma_unit_times(sign(2int + 1int), minor_of(a, 2, 1));
    assert(cofactor_of(a, 2, 1) == 0 - ((x00 * x12) * x33) + ((x00 * x13) * x32) + ((x02 * x10) * x33) - ((x02 * x13) * x30) - ((x03 * x10) * x32) + ((x03 * x12) * x30));
    assert(submatrix_of(a, 2, 2)[0] == seq![x00, x01, x03]);
    assert(submatrix_of(a, 2, 2)[1] == seq![x10, x11, x13]);
    assert(submatrix_of(a, 2, 2)[2] == seq![x30, x31, x33]);
    lemma_det_3(submatrix_of(a, 2, 2));
    assert(sign(2int + 2int) == 1);
    lemma_unit_times(sign(2int + 2int), minor_of(a, 2, 2));
    assert(cofactor_of(a, 2, 2) == (x00 * x11) * x33 - ((x00 * x13) * x31) - ((x01 * x10) * x33) + ((x01 * x13) * x30) + ((x03 * x10) * x31) - ((x03 * x11) * x30));
    assert(submatrix_of(a, 2, 3)[0] == seq![x00, x01, x02]);
    assert(submatrix_of(a, 2, 3)[1] == seq![x10, x11, x12]);
    assert(submatrix_of(a, 2, 3)[2] == seq![x30, x31, x32]);
    lemma_det_3(submatrix_of(a, 2, 3));
    assert(sign(2int + 3int) == -1);
    lemma_unit_times(sign(2int + 3int), minor_of(a, 2, 3));
    assert(cofactor_of(a, 2, 3) == 0 - ((x00 * x11) * x32) + ((x00 * x12) * x31) + ((x01 * x10) * x32) - ((x01 * x12) * x30) - ((x02 * x10) * x31) + ((x02 * x11) * x30));
    assert(submatrix_of(a, 3, 0)[0] == seq![x01, x02, x03]);
    assert(submatrix_of(a, 3, 0)[1] == seq![x11, x12, x13]);
    assert(submatrix_of(a, 3, 0)[2] == seq![x21, x22, x23]);
    lemma_det_3(submatrix_of(a, 3, 0));
    assert(sign(3int + 0int) == -1);
    lemma_unit_times(sign(3int + 0int), minor_of(a, 3, 0));
    assert(cofactor_of(a, 3, 0) == 0 - ((x01 * x12) * x23) + ((x01 * x13) * x22) + ((x02 * x11) * x23) - ((x02 * x13) * x21) - ((x03 * x11) * x22) + ((x03 * x12) * x21));
    assert(submatrix_of(a, 3, 1)[0] == seq![x00, x02, x03]);
    assert(submatrix_of(a, 3, 1)[1] == seq![x10, x12, x13]);
    assert(submatrix_of(a, 3, 1)[2] == seq![x20, x22, x23]);
    lemma_det_3(submatrix_of(a, 3, 1));
    assert(sign(3int + 1int) == 1);
    lemma_unit_times(sign(3int + 1int), minor_of(a, 3, 1));
    assert(cofactor_of(a, 3, 1) == (x00 * x12) * x23 - ((x00 * x13) * x22) - ((x02 * x10) * x23) + ((x02 * x13) * x20) + ((x03 * x10) * x22) - ((x03 * x12) * x20));
    assert(submatrix_of(a, 3, 2)[0] == seq![x00, x01, x03]);
    assert(submatrix_of(a, 3, 2)[1] == seq![x10, x11, x13]);
    assert(submatrix_of(a, 3, 2)[2] == seq![x20, x21, x23]);
    lemma_det_3(submatrix_of(a, 3, 2));
    assert(sign(3int + 2int) == -1);
    lemma_unit_times(sign(3int + 2int), minor_of(a, 3, 2));
    assert(cofactor_of(a, 3, 2) == 0 - ((x00 * x11) * x23) + ((x00 * x13) * x21) + ((x01 * x10) * x23) - ((x01 * x13) * x20) - ((x03 * x10) * x21) + ((x03 * x11) * x20));
    assert(submatrix_of(a, 3, 3)[0] == seq![x00, x01, x02]);
    assert(submatrix_of(a, 3, 3)[1] == seq![x10, x11, x12]);
    assert(submatrix_of(a, 3, 3)[2] == seq![x20, x21, x22]);
    lemma_det_3(submatrix_of(a, 3, 3));
    assert(sign(3int + 3int) == 1);
    lemma_unit_times(sign(3int + 3int), minor_of(a, 3, 3));
    assert(cofactor_of(a, 3, 3) == (x00 * x11) * x22 - ((x00 * x12) * x21) - ((x01 * x10) * x22) + ((x01 * x12) * x20) + ((x02 * x10) * x21) - ((x02 * x11) * x20));
    lemma_expansion_step(a, 1);
    lemma_expansion_step(a, 2);
    lemma_expansion_step(a, 3);
    lemma_expansion_step(a, 4);
    assert(det(a) == first_row_expansion(a, 4));
    assert(det(a) == x00 * cofactor_of(a, 0, 0) + x01 * cofactor_of(a, 0, 1) + x02 * cofactor_of(a, 0, 2) + x03 * cofactor_of(a, 0, 3));
    lemma_cofactor_columns_4(x00, x01, x02, x03, x10, x11, x12, x13, x20, x21, x22, x23, x30, x31, x32, x33);
    let adj = adjugate_of(a);
    reveal_with_fuel(inner, 5);
    assert forall|r: int, c: int| 0 <= r < a.len() && 0 <= c < a.len() implies
        #[trigger] product(adj, a)[r][c] == scalar_identity(a.len(), det(a))[r][c] by {
        lemma_mul_is_commutative(cofactor_of(a, 0, r), a[0][c]);
        lemma_mul_is_commutative(cofactor_of(a, 1, r), a[1][c]);
        lemma_mul_is_commutative(cofactor_of(a, 2, r), a[2][c]);
        lemma_mul_is_commutative(cofactor_of(a, 3, r), a[3][c]);
        assert(product(adj, a)[r][c] == a[0][c] * cofactor_of(a, 0, r) + a[1][c] * cofactor_of(a, 1, r) + a[2][c] * cofactor_of(a, 2, r) + a[3][c] * cofactor_of(a, 3, r));
        assert(r == 0 || r == 1 || r == 2 || r == 3);
        assert(c == 0 || c == 1 || c == 2 || c == 3);
    }
    assert(product(adj, a) =~~= scalar_identity(a.len(), det(a)));
}

} // verus!
