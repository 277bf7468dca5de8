use mat::Mat;
use mat::Violation;

#[test]
fn sub_mat() {
    let a = Mat::checked_from_rows(vec![vec![1, 2, 3], vec![4, 5, 6]]).unwrap();
    let b = Mat::checked_from_rows(vec![vec![0, 1, 2], vec![3, 4, 5]]).unwrap();

    let c = a.sub(&b);
    let mut it = c.iter();
    let mut idx = 0;
    while let Some((i, j)) = it.next() {
        assert_eq!(c.data[idx], 1, "Invalid sub at {} {}", i, j);
        idx += 1;
    }
}

#[test]
#[should_panic]
fn sub_invalid_mat() {
    let a = Mat::fill(0, 1, 2);
    let b = Mat::fill(0, 2, 1);
    let _ = a.checked_sub(&b).unwrap();
}

#[test]
fn sub_assign_mat() {
    let mut a = Mat::checked_from_rows(vec![vec![1, 2, 3], vec![4, 5, 6]]).unwrap();

    a.sub_assign(&Mat::checked_from_rows(vec![vec![0, 1, 2], vec![3, 4, 5]]).unwrap());

    let mut it = a.iter();
    let mut idx = 0;
    while let Some((i, j)) = it.next() {
        assert_eq!(a.data[idx], 1, "Invalid sub at {} {}", i, j);
        idx += 1;
    }
}

#[test]
#[should_panic]
fn sub_assign_invalid_mat() {
    let mut a = Mat::fill(0, 1, 2);
    let b = Mat::fill(0, 1, 1);
    a.checked_sub_assign(&b).unwrap();
}

#[test]
fn sub_mismatch_violations() {
    let a = Mat::fill(0, 1, 2);
    let b = Mat::fill(0, 2, 1);
    assert_eq!(a.checked_sub(&b).unwrap_err(), Violation::RowsMismatch { left: 1, right: 2 });

    let mut c = Mat::fill(0, 1, 2);
    let d = Mat::fill(0, 1, 1);
    assert_eq!(
        c.checked_sub_assign(&d).unwrap_err(),
        Violation::ColsMismatch { left: 2, right: 1 }
    );
    assert_eq!(c.data, vec![0, 0]);
}

#[test]
fn sub_does_not_mutate_operands() {
    let a = Mat::checked_from_rows(vec![vec![1, 2, 3], vec![4, 5, 6]]).unwrap();
    let b = Mat::checked_from_rows(vec![vec![0, 1, 2], vec![3, 4, 5]]).unwrap();
    let _ = a.sub(&b);
    assert_eq!(a.data, vec![1, 2, 3, 4, 5, 6]);
    assert_eq!(b.data, vec![0, 1, 2, 3, 4, 5]);
}
