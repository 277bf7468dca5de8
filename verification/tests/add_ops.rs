use mat::Mat;
use mat::Violation;

#[test]
fn add_mat() {
    let a = Mat::checked_from_rows(vec![vec![0, 1, 2], vec![3, 4, 5]]).unwrap();
    let b = Mat::checked_from_rows(vec![vec![5, 4, 3], vec![2, 1, 0]]).unwrap();

    let c = a.add(&b);
    let mut it = c.iter();
    let mut idx = 0;
    while let Some((i, j)) = it.next() {
        assert_eq!(c.data[idx], 5, "Invalid add at {} {}", i, j);
        idx += 1;
    }
}

#[test]
#[should_panic]
fn add_invalid_mat() {
    let a = Mat::fill(0, 1, 2);
    let b = Mat::fill(0, 2, 1);
    let _ = a.checked_add(&b).unwrap();
}

#[test]
fn add_assign_mat() {
    let mut a = Mat::checked_from_rows(vec![vec![0, 1, 2], vec![3, 4, 5]]).unwrap();

    a.add_assign(&Mat::checked_from_rows(vec![vec![5, 4, 3], vec![2, 1, 0]]).unwrap());

    let mut it = a.iter();
    let mut idx = 0;
    while let Some((i, j)) = it.next() {
        assert_eq!(a.data[idx], 5, "Invalid add at {} {}", i, j);
        idx += 1;
    }
}

#[test]
#[should_panic]
fn add_assign_invalid_mat() {
    let mut a = Mat::fill(0, 1, 2);
    let b = Mat::fill(0, 1, 1);
    a.checked_add_assign(&b).unwrap();
}

#[test]
fn add_scalar_mat() {
    let a = Mat::checked_from_rows(vec![vec![-1, 0, 1], vec![2, 3, 4]]).unwrap();

    let b = a.add_scalar(1);

    let mut it = b.iter();
    let mut idx = 0;
    while let Some((i, j)) = it.next() {
        assert_eq!(b.data[idx], idx as i32, "Invalid add at {} {}", i, j);
        idx += 1;
    }
}

#[test]
fn add_assign_scalar_mat() {
    let mut a = Mat::checked_from_rows(vec![vec![-1, 0, 1], vec![2, 3, 4]]).unwrap();

    a.add_assign_scalar(1);

    let mut it = a.iter();
    let mut idx = 0;
    while let Some((i, j)) = it.next() {
        assert_eq!(a.data[idx], idx as i32, "Invalid add at {} {}", i, j);
        idx += 1;
    }
}

#[test]
fn add_rows_mismatch_violation() {
    let a = Mat::fill(0, 1, 2);
    let b = Mat::fill(0, 2, 1);
    let e = a.checked_add(&b).unwrap_err();
    assert_eq!(e, Violation::RowsMismatch { left: 1, right: 2 });
}

#[test]
fn add_cols_mismatch_violation() {
    let mut a = Mat::fill(0, 1, 2);
    let b = Mat::fill(0, 1, 1);
    let e = a.checked_add_assign(&b).unwrap_err();
    assert_eq!(e, Violation::ColsMismatch { left: 2, right: 1 });
    assert_eq!(a.data, vec![0, 0]);
}

#[test]
fn add_does_not_mutate_operands() {
    let a = Mat::checked_from_rows(vec![vec![0, 1, 2], vec![3, 4, 5]]).unwrap();
    let b = Mat::checked_from_rows(vec![vec![5, 4, 3], vec![2, 1, 0]]).unwrap();
    let _ = a.add(&b);
    assert_eq!(a.data, vec![0, 1, 2, 3, 4, 5]);
    assert_eq!(b.data, vec![5, 4, 3, 2, 1, 0]);
    assert_eq!((a.rows, a.cols, b.rows, b.cols), (2, 3, 2, 3));
}

#[test]
fn add_checked_matches_plain() {
    let a = Mat::checked_from_rows(vec![vec![1, 2], vec![3, 4]]).unwrap();
    let b = Mat::checked_from_rows(vec![vec![10, 20], vec![30, 40]]).unwrap();
    let c = a.checked_add(&b).unwrap();
    assert_eq!(c.data, vec![11, 22, 33, 44]);
    assert_eq!((c.rows, c.cols), (2, 2));
}
