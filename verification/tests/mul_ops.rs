use mat::Mat;
use mat::Violation;

#[test]
fn mul_mat() {
    let a = Mat::checked_from_rows(vec![vec![0, 1, 2], vec![3, 4, 5]]).unwrap();
    let b = Mat::checked_from_rows(vec![
        vec![0, 1, 2, 3],
        vec![4, 5, 6, 7],
        vec![8, 9, 10, 11],
    ])
    .unwrap();

    let c = a.mul(&b);
    assert_eq!(c.rows, 2, "Invalid number of rows. Expected {} but got {}", 2, c.rows);
    assert_eq!(c.cols, 4, "Invalid number of cols. Expected {} but got {}", 4, c.cols);

    let output = Mat::checked_from_rows(vec![vec![20, 23, 26, 29], vec![56, 68, 80, 92]]).unwrap();

    let mut it = c.iter();
    while let Some((i, j)) = it.next() {
        assert_eq!(*c.index(i, j), *output.index(i, j), "Invalid mul at {} {}", i, j);
    }
}

#[test]
#[should_panic]
fn mul_invalid_mat() {
    let a = Mat::fill(0, 1, 2);
    let b = Mat::fill(0, 1, 1);
    let _ = a.checked_mul(&b).unwrap();
}

#[test]
fn mul_scalar_mat() {
    let a = Mat::checked_from_rows(vec![vec![0, 1, 2], vec![3, 4, 5]]).unwrap();

    let b = a.mul_scalar(2);

    let mut it = b.iter();
    let mut idx = 0;
    while let Some((i, j)) = it.next() {
        let output = idx * 2;
        assert_eq!(b.data[idx], output, "Invalid mul at {} {}", i, j);
        idx += 1;
    }
}

#[test]
fn mul_assign_scalar_mat() {
    let mut a = Mat::checked_from_rows(vec![vec![0, 1, 2], vec![3, 4, 5]]).unwrap();

    a.mul_assign_scalar(2);

    let mut it = a.iter();
    let mut idx = 0;
    while let Some((i, j)) = it.next() {
        let output = idx * 2;
        assert_eq!(a.data[idx], output, "Invalid mul at {} {}", i, j);
        idx += 1;
    }
}

#[test]
fn mul_inner_mismatch_violation() {
    let a = Mat::fill(0, 1, 2);
    let b = Mat::fill(0, 1, 1);
    let e = a.checked_mul(&b).unwrap_err();
    assert_eq!(e, Violation::InnerMismatch { left_cols: 2, right_rows: 1 });
}

#[test]
fn mul_does_not_mutate_operands() {
    let a = Mat::checked_from_rows(vec![vec![0, 1, 2], vec![3, 4, 5]]).unwrap();
    let b = Mat::checked_from_rows(vec![
        vec![0, 1, 2, 3],
        vec![4, 5, 6, 7],
        vec![8, 9, 10, 11],
    ])
    .unwrap();
    let _ = a.mul(&b);
    assert_eq!(a.data, vec![0, 1, 2, 3, 4, 5]);
    assert_eq!(b.data, vec![0, 1, 2, 3, 4, 5, 6, 7, 8, 9, 10, 11]);
}

#[test]
fn mul_exact_product() {
    let a = Mat::row(vec![1, 2]);
    let b = Mat::col(vec![3, 4]);
    let c = a.mul(&b);
    assert_eq!((c.rows, c.cols), (1, 1));
    assert_eq!(c.data, vec![11]);
}

#[test]
fn mul_zero_inner_dimension() {
    let a: Mat<i32> = Mat::fill(0, 2, 0);
    let b: Mat<i32> = Mat::fill(0, 0, 3);
    let c = a.mul(&b);
    assert_eq!((c.rows, c.cols), (2, 3));
    assert_eq!(c.data, vec![0, 0, 0, 0, 0, 0]);
}
