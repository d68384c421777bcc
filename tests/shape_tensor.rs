use tensorrt::{DataType, DeviceCopy, Shape, TRTError, Tensor};

fn shape(dims: &[i32]) -> Shape {
    Shape::new(dims.to_vec())
}

#[test]
fn size_is_product_of_dims() {
    assert_eq!(shape(&[1, 3, 224, 224]).size(), 150528);
    assert_eq!(shape(&[1, 1000]).size(), 1000);
    assert_eq!(shape(&[]).size(), 1);
    assert_eq!(shape(&[4, 0, 7]).size(), 0);
}

#[test]
fn checked_size_rejects_dynamic_dims() {
    assert_eq!(shape(&[-1, 3, 224, 224]).checked_size(), None);
    assert_eq!(shape(&[2, 3]).checked_size(), Some(6));
    assert!(shape(&[1, -1]).has_negative_dim());
    assert!(!shape(&[1, 1]).has_negative_dim());
    assert_eq!(shape(&[1, 2, -3, -4]).find_negative(), Some(2));
}

#[test]
fn checked_size_rejects_overflow_unless_a_dim_is_zero() {
    let big = i32::MAX;
    assert_eq!(shape(&[big, big, big]).checked_size(), None);
    assert_eq!(shape(&[big, big, big, 0]).checked_size(), Some(0));
}

#[test]
fn shapes_compare_by_dims() {
    assert_eq!(shape(&[1, 2]), shape(&[1, 2]));
    assert_ne!(shape(&[1, 2]), shape(&[2, 1]));
    assert_ne!(shape(&[1, 2]), shape(&[1, 2, 1]));
    assert_eq!(shape(&[5, 6]).duplicate(), shape(&[5, 6]));
}

#[test]
fn bytes_for_uses_element_width() {
    assert_eq!(Tensor::bytes_for(&shape(&[1, 3, 224, 224]), DataType::FLOAT).unwrap(), 602112);
    assert_eq!(Tensor::bytes_for(&shape(&[10]), DataType::HALF).unwrap(), 20);
    assert_eq!(Tensor::bytes_for(&shape(&[10]), DataType::INT64).unwrap(), 80);
    match Tensor::bytes_for(&shape(&[-1, 4]), DataType::INT8) {
        Err(TRTError::ShapeError(d)) => assert_eq!(d, vec![-1, 4]),
        other => panic!("unexpected {:?}", other),
    }
}

#[test]
fn from_raw_ptr_adopts_memory() {
    let t = Tensor::from_raw_ptr(0x1000, &shape(&[2, 3]), DataType::INT32).unwrap();
    assert_eq!(t.get_raw_ptr(), 0x1000);
    assert_eq!(t.shape(), &shape(&[2, 3]));
    assert_eq!(t.dtype(), DataType::INT32);
    assert_eq!(t.capacity(), 6);
    assert!(matches!(
        Tensor::from_raw_ptr(0x1000, &shape(&[2, -3]), DataType::INT32),
        Err(TRTError::ShapeError(_))
    ));
}

#[test]
fn reset_shape_is_idempotent() {
    let mut t = Tensor::from_raw_ptr(0x10, &shape(&[1, 3, 224, 224]), DataType::FLOAT).unwrap();
    assert!(t.reset_shape(&shape(&[1, 3, 112, 112])).is_ok());
    assert_eq!(t.shape(), &shape(&[1, 3, 112, 112]));
    assert!(t.reset_shape(&shape(&[1, 3, 112, 112])).is_ok());
    assert_eq!(t.shape(), &shape(&[1, 3, 112, 112]));
    assert_eq!(t.capacity(), 150528);
}

#[test]
fn reset_shape_refuses_growth_beyond_allocation() {
    let mut t = Tensor::from_raw_ptr(0x10, &shape(&[1, 3, 224, 224]), DataType::FLOAT).unwrap();
    assert!(matches!(t.reset_shape(&shape(&[1, 3, 448, 448])), Err(TRTError::ResetShapesError)));
    assert_eq!(t.shape(), &shape(&[1, 3, 224, 224]));
    assert!(matches!(t.reset_shape(&shape(&[1, -3])), Err(TRTError::ShapeError(_))));
}

#[test]
fn reset_shape_grows_back_after_shrink() {
    let mut t = Tensor::from_raw_ptr(0x10, &shape(&[1, 3, 224, 224]), DataType::FLOAT).unwrap();
    assert!(t.reset_shape(&shape(&[1, 3, 112, 112])).is_ok());
    assert!(t.reset_shape(&shape(&[1, 3, 160, 160])).is_ok());
    assert!(t.reset_shape(&shape(&[1, 3, 224, 224])).is_ok());
    assert_eq!(t.shape(), &shape(&[1, 3, 224, 224]));
}

#[test]
fn copy_from_refuses_shape_mismatch_of_equal_size() {
    let dst = Tensor::from_raw_ptr(0x10, &shape(&[2, 3]), DataType::FLOAT).unwrap();
    let src = Tensor::from_raw_ptr(0x20, &shape(&[3, 2]), DataType::FLOAT).unwrap();
    assert!(matches!(dst.copy_from(&src), Err(TRTError::ShapeMismatch)));
}

#[test]
fn copy_from_refuses_dtype_mismatch() {
    let dst = Tensor::from_raw_ptr(0x10, &shape(&[2, 3]), DataType::FLOAT).unwrap();
    let src = Tensor::from_raw_ptr(0x20, &shape(&[2, 3]), DataType::INT32).unwrap();
    assert!(matches!(dst.copy_from(&src), Err(TRTError::DTypeMismatch)));
}

#[test]
fn copy_from_gives_the_copy() {
    let dst = Tensor::from_raw_ptr(0x10, &shape(&[2, 3]), DataType::HALF).unwrap();
    let src = Tensor::from_raw_ptr(0x20, &shape(&[2, 3]), DataType::HALF).unwrap();
    assert_eq!(dst.copy_from(&src).unwrap(), DeviceCopy { dst: 0x10, src: 0x20, bytes: 12 });
}
