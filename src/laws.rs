//! Algebraic laws of the matrix model, proved.
use vstd::prelude::*;
use crate::adjugate::{
    lemma_adjugate_product_2, lemma_adjugate_product_3, lemma_adjugate_product_4,
    lemma_product_adjugate_2, lemma_product_adjugate_3, lemma_product_adjugate_4,
};
use crate::algebra::{
    adjugate_of, column, det, identity_of, inner, is_square, is_supported, product, scalar_identity,
    transposed,
};

verus! {

/// A sum against a unit vector picks out one entry, on either side.
proof fn lemma_inner_unit(x: Seq<int>, y: Seq<int>, j: int, k: int, unit_on_right: bool)
    requires
        unit_on_right ==> forall|i: int| 0 <= i < k ==> #[trigger] y[i] == (if i == j { 1int } else { 0int }),
        !unit_on_right ==> forall|i: int| 0 <= i < k ==> #[trigger] x[i] == (if i == j { 1int } else { 0int }),
    ensures
        inner(x, y, k) == (if 0 <= j < k {
            if unit_on_right { x[j] } else { y[j] }
        } else {
            0
        }),
    decreases k,
{
    if k > 0 {
        lemma_inner_unit(x, y, j, k - 1, unit_on_right);
    }
}

/// Multiplying by the identity, on either side, leaves a square matrix unchanged.
pub proof fn lemma_identity_law(a: Seq<Seq<int>>)
    requires
        is_square(a),
    ensures
        product(a, identity_of(a.len())) == a,
        product(identity_of(a.len()), a) == a,
{
    let n = a.len();
    let id = identity_of(n);
    assert forall|r: int, c: int| 0 <= r < n && 0 <= c < n implies #[trigger] product(a, id)[r][c]
        == a[r][c] by {
        lemma_inner_unit(a[r], column(id, c), c, n as int, true);
    }
    assert(product(a, id) =~~= a);
    assert forall|r: int, c: int| 0 <= r < n && 0 <= c < n implies #[trigger] product(id, a)[r][c]
        == a[r][c] by {
        lemma_inner_unit(id[r], column(a, c), r, n as int, false);
    }
    assert(product(id, a) =~~= a);
}

/// Transposing twice gives the matrix back.
pub proof fn lemma_transpose_involution(a: Seq<Seq<int>>)
    requires
        is_square(a),
    ensures
        transposed(transposed(a)) == a,
{
    assert(transposed(transposed(a)) =~~= a);
}

/// A square matrix of order 2, 3 or 4 times its adjugate, on either side, is its
/// determinant times the identity. `inverse` returns the adjugate over the
/// determinant, so where the determinant is nonzero, the matrix times its inverse,
/// and its inverse times the matrix, are the identity.
pub proof fn lemma_inverse_round_trip(a: Seq<Seq<int>>)
    requires
        is_supported(a),
    ensures
        product(a, adjugate_of(a)) == scalar_identity(a.len(), det(a)),
        product(adjugate_of(a), a) == scalar_identity(a.len(), det(a)),
{
    if a.len() == 2 {
        lemma_adjugate_product_2(a);
        lemma_product_adjugate_2(a);
    } else if a.len() == 3 {
        lemma_adjugate_product_3(a);
        lemma_product_adjugate_3(a);
    } else {
        lemma_adjugate_product_4(a);
        lemma_product_adjugate_4(a);
    }
}

} // verus!
