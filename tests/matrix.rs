use rusttracer::matrix::{
    cofactor, determinant, identity, inverse, is_invertible, minor, multiply, multiply_vector,
    submatrix, transpose, Matrix, MatrixError,
};

#[test]
fn basic_get_2() {
    let matrix = Matrix::new(2, vec![-3, 5, 1, -2]).unwrap();
    assert_eq!(matrix.get(0, 0), Ok(-3));
    assert_eq!(matrix.get(0, 1), Ok(5));
    assert_eq!(matrix.get(1, 0), Ok(1));
    assert_eq!(matrix.get(1, 1), Ok(-2));
}

#[test]
fn basic_get_3() {
    let matrix = Matrix::new(3, vec![-3, 5, 0, 1, -2, -7, 0, 1, 1]).unwrap();
    assert_eq!(matrix.get(0, 0), Ok(-3));
    assert_eq!(matrix.get(1, 1), Ok(-2));
    assert_eq!(matrix.get(2, 2), Ok(1));
}

#[test]
fn test_equality_4() {
    let matrix_a = Matrix::new(4, vec![1, 2, 3, 4, 5, 6, 7, 8, 9, 8, 7, 6, 5, 4, 3, 2]).unwrap();
    let matrix_b = Matrix::new(4, vec![1, 2, 3, 4, 5, 6, 7, 8, 9, 8, 7, 6, 5, 4, 3, 2]).unwrap();
    assert_eq!(matrix_a, matrix_b);
}

#[test]
fn test_inequality_4() {
    let matrix_a = Matrix::new(4, vec![1, 2, 1, 4, 5, 6, 7, 8, 2, 8, 7, 6, 5, 4, 3, 2]).unwrap();
    let matrix_b = Matrix::new(4, vec![1, 2, 3, 4, 0, 6, 7, 8, 9, 8, 7, 6, 5, 4, 3, 2]).unwrap();
    assert_ne!(matrix_a, matrix_b);
}

#[test]
fn test_mupliply_4() {
    let matrix_a = Matrix::new(4, vec![1, 2, 3, 4, 5, 6, 7, 8, 9, 8, 7, 6, 5, 4, 3, 2]).unwrap();
    let matrix_b = Matrix::new(4, vec![-2, 1, 2, 3, 3, 2, 1, -1, 4, 3, 6, 5, 1, 2, 7, 8]).unwrap();
    let result = multiply(&matrix_a, &matrix_b);
    let expected = Matrix::new(
        4,
        vec![20, 22, 50, 48, 44, 54, 114, 108, 40, 58, 110, 102, 16, 26, 46, 42],
    )
    .unwrap();
    assert_eq!(result, expected);
}

#[test]
fn test_mupliply_tuple_4() {
    let matrix_a = Matrix::new(4, vec![1, 2, 3, 4, 2, 4, 4, 2, 8, 6, 4, 1, 0, 0, 0, 1]).unwrap();
    let tuple = [1, 2, 3, 1];
    let result = multiply_vector(&matrix_a, &tuple);
    assert_eq!(result, [18, 24, 33, 1]);
}

#[test]
fn test_mupltiply_identity_matrix_4() {
    let matrix_a =
        Matrix::new(4, vec![0, 1, 2, 4, 1, 2, 4, 8, 2, 4, 8, 16, 4, 8, 16, 32]).unwrap();
    let identity_matrix = identity(4);
    let result = multiply(&matrix_a, &identity_matrix);
    assert_eq!(
        result,
        Matrix::new(4, vec![0, 1, 2, 4, 1, 2, 4, 8, 2, 4, 8, 16, 4, 8, 16, 32]).unwrap()
    );
}

#[test]
fn test_mupltiply_identity_matrix_4_with_tuple() {
    let tuple = [1, 2, 3, 4];
    let identity_matrix = identity(4);
    let result = multiply_vector(&identity_matrix, &tuple);
    assert_eq!(result, [1, 2, 3, 4]);
}

#[test]
fn test_transpose() {
    let matrix = Matrix::new(4, vec![0, 9, 3, 0, 9, 8, 0, 8, 1, 8, 5, 3, 0, 0, 5, 8]).unwrap();
    let result = transpose(&matrix);
    assert_eq!(
        result,
        Matrix::new(4, vec![0, 9, 1, 0, 9, 8, 8, 0, 3, 0, 5, 5, 0, 8, 3, 8]).unwrap()
    );
}

#[test]
fn test_transpose_identity() {
    let identity_matrix = identity(4);
    let expected = identity(4);
    let result = transpose(&identity_matrix);
    assert_eq!(result, expected);
}

#[test]
fn test_determinant_2() {
    let matrix = Matrix::new(2, vec![1, 5, -3, 2]).unwrap();
    let result = determinant(&matrix);
    assert_eq!(result, 17);
}

#[test]
fn test_submatrix_3() {
    let matrix = Matrix::new(3, vec![1, 5, 0, -3, 2, 7, 0, 6, -3]).unwrap();
    let result = submatrix(&matrix, 0, 2).unwrap();
    let expected = Matrix::new(2, vec![-3, 2, 0, 6]).unwrap();
    assert_eq!(result, expected);
}

#[test]
fn test_submatrix_3_2() {
    let matrix = Matrix::new(3, vec![1, 5, 0, -3, 2, 7, 0, 6, -3]).unwrap();
    let result = submatrix(&matrix, 1, 1).unwrap();
    let expected = Matrix::new(2, vec![1, 0, 0, -3]).unwrap();
    assert_eq!(result, expected);
}

#[test]
fn test_submatrix_3_3() {
    let matrix = Matrix::new(3, vec![1, 5, 0, -3, 2, 7, 0, 6, -3]).unwrap();
    let result = submatrix(&matrix, 0, 0).unwrap();
    let expected = Matrix::new(2, vec![2, 7, 6, -3]).unwrap();
    assert_eq!(result, expected);
}

#[test]
fn test_submatrix_4() {
    let matrix =
        Matrix::new(4, vec![-6, 1, 1, 6, -8, 5, 8, 6, -1, 0, 8, 2, -7, 1, -1, 1]).unwrap();
    let result = submatrix(&matrix, 2, 1).unwrap();
    let expected = Matrix::new(3, vec![-6, 1, 6, -8, 8, 6, -7, -1, 1]).unwrap();
    assert_eq!(result, expected);
}

#[test]
fn test_minor_3() {
    let matrix = Matrix::new(3, vec![3, 5, 0, 2, -1, -7, 6, -1, 5]).unwrap();
    let minor = minor(&matrix, 1, 0).unwrap();
    assert_eq!(minor, 25);
}

#[test]
fn test_cofactor_3() {
    let matrix = Matrix::new(3, vec![3, 5, 0, 2, -1, -7, 6, -1, 5]).unwrap();
    let cofactor_a = cofactor(&matrix, 0, 0).unwrap();
    let cofactor_b = cofactor(&matrix, 1, 0).unwrap();
    assert_eq!(cofactor_a, -12);
    assert_eq!(cofactor_b, -25);
}

#[test]
fn test_determinant_3() {
    let matrix = Matrix::new(3, vec![1, 2, 6, -5, 8, -4, 2, 6, 4]).unwrap();
    let cofactor_a = cofactor(&matrix, 0, 0).unwrap();
    let cofactor_b = cofactor(&matrix, 0, 1).unwrap();
    let cofactor_c = cofactor(&matrix, 0, 2).unwrap();
    let determinant = determinant(&matrix);
    assert_eq!(cofactor_a, 56);
    assert_eq!(cofactor_b, 12);
    assert_eq!(cofactor_c, -46);
    assert_eq!(determinant, -196);
}

#[test]
fn test_determinant_4() {
    let matrix =
        Matrix::new(4, vec![-2, -8, 3, 5, -3, 1, 7, 3, 1, 2, -9, 6, -6, 7, 7, -9]).unwrap();
    let cofactor_a = cofactor(&matrix, 0, 0).unwrap();
    let cofactor_b = cofactor(&matrix, 0, 1).unwrap();
    let cofactor_c = cofactor(&matrix, 0, 2).unwrap();
    let cofactor_d = cofactor(&matrix, 0, 3).unwrap();
    let determinant = determinant(&matrix);
    assert_eq!(cofactor_a, 690);
    assert_eq!(cofactor_b, 447);
    assert_eq!(cofactor_c, 210);
    assert_eq!(cofactor_d, 51);
    assert_eq!(determinant, -4071);
}

#[test]
fn new_rejects_wrong_entry_count() {
    assert_eq!(Matrix::new(3, vec![1, 2, 3, 4]).unwrap_err(), MatrixError::Shape);
    assert_eq!(Matrix::new(5, vec![0; 25]).unwrap_err(), MatrixError::Shape);
    assert_eq!(Matrix::new(1, vec![7]).unwrap_err(), MatrixError::Shape);
}

#[test]
fn get_rejects_index_past_order() {
    let matrix = Matrix::new(2, vec![1, 2, 3, 4]).unwrap();
    assert_eq!(matrix.get(2, 0), Err(MatrixError::OutOfBounds));
    assert_eq!(matrix.get(0, 2), Err(MatrixError::OutOfBounds));
    assert_eq!(matrix.order(), 2);
}

#[test]
fn submatrix_errors() {
    let m2 = Matrix::new(2, vec![1, 2, 3, 4]).unwrap();
    assert_eq!(submatrix(&m2, 0, 0).unwrap_err(), MatrixError::Degenerate);
    assert_eq!(submatrix(&m2, 2, 0).unwrap_err(), MatrixError::OutOfBounds);
    let m3 = Matrix::new(3, vec![1, 5, 0, -3, 2, 7, 0, 6, -3]).unwrap();
    assert_eq!(submatrix(&m3, 0, 3).unwrap_err(), MatrixError::OutOfBounds);
    assert_eq!(minor(&m2, 0, 0), Err(MatrixError::Degenerate));
    assert_eq!(cofactor(&m3, 3, 0), Err(MatrixError::OutOfBounds));
}

#[test]
fn identity_law_both_sides() {
    let m = Matrix::new(3, vec![1, 5, 0, -3, 2, 7, 0, 6, -3]).unwrap();
    assert_eq!(multiply(&m, &identity(3)), m);
    assert_eq!(multiply(&identity(3), &m), m);
    let id2 = identity(2);
    assert_eq!(id2, Matrix::new(2, vec![1, 0, 0, 1]).unwrap());
}

#[test]
fn transpose_twice_gives_back() {
    let m = Matrix::new(4, vec![0, 9, 3, 0, 9, 8, 0, 8, 1, 8, 5, 3, 0, 0, 5, 8]).unwrap();
    assert_eq!(transpose(&transpose(&m)), m);
}

#[test]
fn non_invertible_matrix_is_reported() {
    let m = Matrix::new(4, vec![-4, 2, -2, -3, 9, 6, 2, 6, 0, -5, 1, -5, 0, 0, 0, 0]).unwrap();
    assert_eq!(determinant(&m), 0);
    assert!(!is_invertible(&m));
    assert_eq!(inverse(&m).unwrap_err(), MatrixError::Singular);
}

#[test]
fn invertible_matrix_is_reported() {
    let m = Matrix::new(4, vec![6, 4, 4, 4, 5, 5, 7, 6, 4, -9, 3, -7, 9, 1, 7, -6]).unwrap();
    assert_eq!(determinant(&m), -2120);
    assert!(is_invertible(&m));
}

#[test]
fn inverse_is_adjugate_over_determinant() {
    let m = Matrix::new(4, vec![-5, 2, 6, -8, 1, -5, 1, 8, 7, 7, -6, -7, 1, -3, 7, 4]).unwrap();
    let inv = inverse(&m).unwrap();
    assert_eq!(inv.denominator, 532);
    assert_eq!(cofactor(&m, 2, 3), Ok(-160));
    assert_eq!(inv.numerators.get(3, 2), Ok(-160));
    assert_eq!(cofactor(&m, 3, 2), Ok(105));
    assert_eq!(inv.numerators.get(2, 3), Ok(105));
    // m times the numerators is the determinant times the identity.
    let scaled = multiply(&m, &inv.numerators);
    let d = 532;
    let expected = Matrix::new(4, vec![d, 0, 0, 0, 0, d, 0, 0, 0, 0, d, 0, 0, 0, 0, d]).unwrap();
    assert_eq!(scaled, expected);
    assert_eq!(multiply(&inv.numerators, &m), expected);
}

#[test]
fn inverse_of_order_two() {
    let m = Matrix::new(2, vec![4, 7, 2, 6]).unwrap();
    let inv = inverse(&m).unwrap();
    assert_eq!(inv.denominator, 10);
    assert_eq!(inv.numerators, Matrix::new(2, vec![6, -7, -2, 4]).unwrap());
    assert_eq!(multiply(&m, &inv.numerators), Matrix::new(2, vec![10, 0, 0, 10]).unwrap());
    assert_eq!(multiply(&inv.numerators, &m), Matrix::new(2, vec![10, 0, 0, 10]).unwrap());
}

#[test]
fn inverse_of_order_three() {
    let m = Matrix::new(3, vec![1, 2, 6, -5, 8, -4, 2, 6, 4]).unwrap();
    let inv = inverse(&m).unwrap();
    assert_eq!(inv.denominator, -196);
    let d = -196;
    assert_eq!(
        multiply(&m, &inv.numerators),
        Matrix::new(3, vec![d, 0, 0, 0, d, 0, 0, 0, d]).unwrap()
    );
}
