use extendr_api::matrix::{RColumn, RMatrix, RMatrix3D};

#[test]
fn matrix_ops() {
    let vector = RColumn::new([1., 2., 3.], 3);
    assert_eq!(vector.nrows(), 3);
    assert_eq!(vector.data().len(), 3);

    let matrix = RMatrix::new([1., 2., 3., 4., 5., 6.], 3, 2);
    assert_eq!(matrix.nrows(), 3);
    assert_eq!(matrix.ncols(), 2);
    assert_eq!(matrix.data().len(), 6);
    assert_eq!(matrix.dim(), &[3, 2]);

    let array = RMatrix3D::new([1., 2., 3., 4., 5., 6., 7., 8.], 2, 2, 2);
    assert_eq!(array.data().len(), 8);
    assert_eq!(array.nrows(), 2);
    assert_eq!(array.ncols(), 2);
    assert_eq!(array.nsub(), 2);
}

#[test]
fn matrix_indexing_is_column_major() {
    let matrix = RMatrix::new(vec![1., 2., 3., 4., 5., 6.], 3, 2);
    assert_eq!(*matrix.index([0, 0]), 1.);
    assert_eq!(*matrix.index([1, 0]), 2.);
    assert_eq!(*matrix.index([2, 1]), 6.);
    assert_eq!(matrix.offset([2, 1]), 5);
}

#[test]
fn matrix_index_mut() {
    let mut matrix = RMatrix::new(vec![0.; 6], 3, 2);
    *matrix.index_mut([0, 0]) = 1.;
    *matrix.index_mut([1, 0]) = 2.;
    *matrix.index_mut([2, 0]) = 3.;
    assert_eq!(matrix, RMatrix::new(vec![1., 2., 3., 0., 0., 0.], 3, 2));
}

#[test]
fn array_offsets() {
    let array = RMatrix3D::new(vec![0; 24], 2, 3, 4);
    assert_eq!(array.offset([1, 2, 3]), 1 + 2 * (2 + 3 * 3));
    assert_eq!(array.offset([0, 0, 0]), 0);
    let column = RColumn::new(vec![0; 4], 4);
    assert_eq!(column.offset([3]), 3);
}
