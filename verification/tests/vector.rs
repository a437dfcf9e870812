use st_func_core::vector::Vector;
use st_func_core::vector::VectorError;

#[test]
fn test_vector_creation() {
    let v: Vector<f64> = Vector::new(3);
    assert_eq!(v.get(0).unwrap(), 0.0);
    assert_eq!(v.get(2).unwrap(), 0.0);
}

#[test]
fn test_vector_addition() {
    let v1 = Vector::from_vec(vec![1.0, 2.0, 3.0]);
    let v2 = Vector::from_vec(vec![4.0, 5.0, 6.0]);
    let v3 = v1.add(&v2).unwrap();
    assert_eq!(v3.get(0).unwrap(), 5.0);
    assert_eq!(v3.get(1).unwrap(), 7.0);
    assert_eq!(v3.get(2).unwrap(), 9.0);
}

#[test]
fn test_vector_subtraction() {
    let v1 = Vector::from_vec(vec![4.0, 5.0, 6.0]);
    let v2 = Vector::from_vec(vec![1.0, 2.0, 3.0]);
    let v3 = v1.subtract(&v2).unwrap();
    assert_eq!(v3.get(0).unwrap(), 3.0);
    assert_eq!(v3.get(1).unwrap(), 3.0);
    assert_eq!(v3.get(2).unwrap(), 3.0);
}

#[test]
fn test_vector_indexing() {
    let mut v: Vector<f64> = Vector::new(3);
    v.set(0, 1.0).unwrap();
    v.set(1, 2.0).unwrap();
    v.set(2, 3.0).unwrap();
    assert_eq!(v.get(0).unwrap(), 1.0);
    assert_eq!(v.get(1).unwrap(), 2.0);
    assert_eq!(v.get(2).unwrap(), 3.0);
}

#[test]
fn test_vector_length() {
    let v: Vector<f64> = Vector::new(5);
    assert_eq!(v.len(), 5);
    let w = Vector::from_vec(vec![1.5, -2.5]);
    assert_eq!(w.len(), 2);
}

#[test]
fn test_add_subtract_length_mismatch() {
    let short = Vector::from_vec(vec![1.0, 2.0]);
    let long = Vector::from_vec(vec![1.0, 2.0, 3.0]);
    assert!(matches!(short.add(&long), Err(VectorError::LengthMismatch)));
    assert!(matches!(long.add(&short), Err(VectorError::LengthMismatch)));
    assert!(matches!(short.subtract(&long), Err(VectorError::LengthMismatch)));
    assert!(matches!(long.subtract(&short), Err(VectorError::LengthMismatch)));
    // the operands are untouched and no truncated result is produced
    assert_eq!(short.len(), 2);
    assert_eq!(long.len(), 3);
}

#[test]
fn test_get_set_out_of_range() {
    let mut v: Vector<f64> = Vector::new(2);
    assert_eq!(v.get(2), Err(VectorError::IndexOutOfRange));
    assert_eq!(v.get(100), Err(VectorError::IndexOutOfRange));
    assert_eq!(v.set(2, 9.0), Err(VectorError::IndexOutOfRange));
    // a rejected write leaves every sample as it was
    assert_eq!(v.get(0).unwrap(), 0.0);
    assert_eq!(v.get(1).unwrap(), 0.0);
    assert_eq!(v.len(), 2);
}

#[test]
fn test_vector_integer_samples() {
    let v1 = Vector::from_vec(vec![10u64, 20u64, 30u64]);
    let v2 = Vector::from_vec(vec![1u64, 2u64, 3u64]);
    let sum = v1.add(&v2).unwrap();
    let diff = v1.subtract(&v2).unwrap();
    assert_eq!(sum.get(2).unwrap(), 33);
    assert_eq!(diff.get(0).unwrap(), 9);
}
