use vector::{adjugate, cofactor, det, diagonal, inverse, minor, mul1, mulv, submatrix, transpose};

fn identity3() -> Vec<Vec<i32>> {
    vec![vec![1, 0, 0], vec![0, 1, 0], vec![0, 0, 1]]
}

#[test]
fn identity_has_determinant_one_and_is_its_own_inverse() {
    let m = identity3();
    assert_eq!(det(&m), 1);
    assert_eq!(inverse(&m), m);
}

#[test]
fn determinants_by_expansion() {
    assert_eq!(det(&vec![vec![7i64]]), 7);
    assert_eq!(det(&vec![vec![1i32, 2], vec![3, 4]]), -2);
    let m = vec![vec![2i32, -3, 1], vec![2, 0, -1], vec![1, 4, 5]];
    assert_eq!(det(&m), 49);
    let n = vec![vec![1i64, 0, 2, -1], vec![3, 0, 0, 5], vec![2, 1, 4, -3], vec![1, 0, 5, 0]];
    assert_eq!(det(&n), 30);
}

#[test]
fn submatrix_minor_and_cofactor() {
    let m = vec![vec![1i32, 2, 3], vec![4, 5, 6], vec![7, 8, 10]];
    assert_eq!(submatrix(&m, 0, 1), vec![vec![4, 6], vec![7, 10]]);
    assert_eq!(submatrix(&m, 2, 0), vec![vec![2, 3], vec![5, 6]]);
    assert_eq!(minor(&m, 0, 1), 4 * 10 - 6 * 7);
    assert_eq!(minor(&m, 2, 0), 2 * 6 - 3 * 5);
    assert_eq!(minor(&vec![vec![1i32, 2], vec![3, 4]], 1, 0), 2);
    assert_eq!(cofactor(&m, 0, 1), -(4 * 10 - 6 * 7));
    assert_eq!(cofactor(&m, 1, 1), 1 * 10 - 3 * 7);
}

#[test]
fn adjugate_of_a_two_by_two() {
    let m = vec![vec![1i32, 2], vec![3, 4]];
    assert_eq!(adjugate(&m), vec![vec![4, -2], vec![-3, 1]]);
}

#[test]
fn inverse_of_a_unimodular_matrix() {
    let m = vec![vec![2i32, 1], vec![1, 1]];
    let inv = inverse(&m);
    assert_eq!(inv, vec![vec![1, -1], vec![-1, 2]]);
    assert_eq!(vector::mul(&m, &inv), vec![vec![1, 0], vec![0, 1]]);
    let n = vec![vec![0i32, 1], vec![1, 0]];
    assert_eq!(det(&n), -1);
    assert_eq!(inverse(&n), n);
}

#[test]
fn transpose_swaps_rows_and_columns() {
    let m = vec![vec![1u8, 2, 3], vec![4, 5, 6]];
    assert_eq!(transpose(&m), vec![vec![1, 4], vec![2, 5], vec![3, 6]]);
    let empty: Vec<Vec<u8>> = vec![];
    assert_eq!(transpose(&empty), empty);
}

#[test]
fn products_of_matrices() {
    let a = vec![vec![1i32, 2, 3], vec![4, 5, 6]];
    let b = vec![vec![7i32, 8], vec![9, 10], vec![11, 12]];
    assert_eq!(vector::mul(&a, &b), vec![vec![58, 64], vec![139, 154]]);
    assert_eq!(mulv(&a, &vec![1, 0, -1]), vec![-2, -2]);
    assert_eq!(mul1(3, &a), vec![vec![3, 6, 9], vec![12, 15, 18]]);
}

#[test]
fn diagonal_matrix() {
    assert_eq!(diagonal(&vec![2i32, 3, 4]), vec![vec![2, 0, 0], vec![0, 3, 0], vec![0, 0, 4]]);
    assert_eq!(vector::mul(&diagonal(&vec![1i32, 1, 1]), &identity3()), identity3());
}
