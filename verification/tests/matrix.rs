use nyx::error::NyxError;
use nyx::matrix::Matrix;

#[test]
fn test_matrix_creation() {
    let data = vec![1, 2, 3, 4];
    let m = Matrix::new(data, 2, 2).unwrap();
    assert_eq!(m.rows(), 2);
    assert_eq!(m.cols(), 2);
}

#[test]
fn test_matrix_get() {
    let data = vec![1, 2, 3, 4];
    let m = Matrix::new(data, 2, 2).unwrap();
    assert_eq!(*m.get(0, 0).unwrap(), 1);
    assert_eq!(*m.get(1, 1).unwrap(), 4);
}

#[test]
fn test_matrix_filled() {
    let m = Matrix::filled(0.0, 3, 3);
    assert_eq!(m.rows(), 3);
    assert_eq!(m.cols(), 3);
}

#[test]
fn test_matrix_transpose() {
    let data = vec![1, 2, 3, 4, 5, 6];
    let m = Matrix::new(data, 2, 3).unwrap();
    let t = m.transpose();
    assert_eq!(t.rows(), 3);
    assert_eq!(t.cols(), 2);
    assert_eq!(*t.get(0, 0).unwrap(), 1);
    assert_eq!(*t.get(1, 0).unwrap(), 2);
}

#[test]
fn matrix_new_rejects_wrong_length() {
    let r = Matrix::new(vec![1, 2, 3], 2, 2);
    match r {
        Err(NyxError::InvalidInput(msg)) => {
            assert_eq!(msg, "Matrix dimensions mismatch: expected 4, got 3")
        }
        _ => panic!("expected InvalidInput"),
    }
}

#[test]
fn matrix_new_accepts_empty() {
    let m: Matrix<u8> = Matrix::new(vec![], 0, 5).unwrap();
    assert_eq!(m.dimensions(), (0, 5));
    assert!(m.data().is_empty());
}

#[test]
fn matrix_get_out_of_bounds_message() {
    let m = Matrix::new(vec![1, 2, 3, 4, 5, 6], 2, 3).unwrap();
    match m.get(2, 0) {
        Err(NyxError::InvalidInput(msg)) => {
            assert_eq!(msg, "Index out of bounds: (2, 0) for matrix size 2x3")
        }
        _ => panic!("expected InvalidInput"),
    }
    match m.get(1, 13) {
        Err(NyxError::InvalidInput(msg)) => {
            assert_eq!(msg, "Index out of bounds: (1, 13) for matrix size 2x3")
        }
        _ => panic!("expected InvalidInput"),
    }
}

#[test]
fn matrix_row_major_layout() {
    let m = Matrix::new(vec![1, 2, 3, 4, 5, 6], 2, 3).unwrap();
    assert_eq!(*m.get(0, 2).unwrap(), 3);
    assert_eq!(*m.get(1, 0).unwrap(), 4);
    assert_eq!(m.data(), &[1, 2, 3, 4, 5, 6]);
}

#[test]
fn matrix_set_then_get() {
    let mut m = Matrix::new(vec![1, 2, 3, 4, 5, 6], 2, 3).unwrap();
    m.set(1, 2, 60).unwrap();
    assert_eq!(*m.get(1, 2).unwrap(), 60);
    assert_eq!(m.data(), &[1, 2, 3, 4, 5, 60]);
    assert!(m.set(2, 0, 7).is_err());
    assert_eq!(m.data(), &[1, 2, 3, 4, 5, 60]);
}

#[test]
fn matrix_get_mut_writes_through() {
    let mut m = Matrix::new(vec![1, 2, 3, 4], 2, 2).unwrap();
    *m.get_mut(0, 1).unwrap() = 20;
    assert_eq!(m.data(), &[1, 20, 3, 4]);
    assert!(m.get_mut(0, 2).is_err());
}

#[test]
fn matrix_data_mut_writes_through() {
    let mut m = Matrix::new(vec![1, 2, 3, 4], 2, 2).unwrap();
    m.data_mut()[3] = 40;
    assert_eq!(*m.get(1, 1).unwrap(), 40);
    assert_eq!(m.dimensions(), (2, 2));
}

#[test]
fn matrix_filled_values() {
    let m = Matrix::filled(7u8, 2, 3);
    assert_eq!(m.data(), &[7, 7, 7, 7, 7, 7]);
}

#[test]
fn matrix_transpose_moves_every_cell() {
    let m = Matrix::new(vec![1, 2, 3, 4, 5, 6], 2, 3).unwrap();
    let t = m.transpose();
    assert_eq!(t.data(), &[1, 4, 2, 5, 3, 6]);
    for r in 0..2 {
        for c in 0..3 {
            assert_eq!(t.get(c, r).unwrap(), m.get(r, c).unwrap());
        }
    }
}

#[test]
fn matrix_transpose_twice_is_identity() {
    let m = Matrix::new(vec![1, 2, 3, 4, 5, 6, 7, 8], 4, 2).unwrap();
    let tt = m.transpose().transpose();
    assert_eq!(tt.dimensions(), (4, 2));
    assert_eq!(tt.data(), m.data());
}

#[test]
fn matrix_clone_is_equal() {
    let m = Matrix::new(vec![1, 2, 3], 1, 3).unwrap();
    let c = m.clone();
    assert_eq!(c.data(), m.data());
    assert_eq!(c.dimensions(), m.dimensions());
}
