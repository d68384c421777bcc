use tensorrt::{
    Action, CudaEngine, DataType, DeviceCopy, IoTensorInfo, Outcome, Shape, TRTEngine, TRTError,
    Tensor, TensorIOMode,
};

fn shape(dims: &[i32]) -> Shape {
    Shape::new(dims.to_vec())
}

fn info(name: &str, mode: TensorIOMode, dims: &[i32]) -> IoTensorInfo {
    IoTensorInfo { name: name.to_string(), mode, shape: shape(dims), dtype: DataType::FLOAT }
}

/// An engine with input "x" of [1,3,224,224] and output "y" of [1,1000].
fn classifier(x_dims: &[i32]) -> TRTEngine {
    let engine = CudaEngine::new(vec![
        info("x", TensorIOMode::INPUT, x_dims),
        info("y", TensorIOMode::OUTPUT, &[1, 1000]),
    ])
    .unwrap();
    TRTEngine::new(engine)
}

/// Answers every native call favourably, handing out addresses from 0x1000
/// on; returns the calls made and how the step ended.
fn run(engine: &mut TRTEngine, first: Action) -> (Vec<String>, Result<(), TRTError>) {
    let mut calls = Vec::new();
    let mut next_addr: usize = 0x1000;
    let mut action = first;
    loop {
        let outcome = match action {
            Action::SetInputShape(name, dims) => {
                calls.push(format!("shape {} {:?}", name, dims.0));
                Outcome::Accepted
            },
            Action::Allocate(name, bytes) => {
                calls.push(format!("alloc {} {}", name, bytes));
                next_addr += 0x1000;
                Outcome::Allocated(next_addr)
            },
            Action::SetTensorAddress(name, addr) => {
                calls.push(format!("address {} {:#x}", name, addr));
                Outcome::Accepted
            },
            Action::Copy(name, c) => {
                calls.push(format!("copy {} {:#x} {:#x} {}", name, c.dst, c.src, c.bytes));
                Outcome::Accepted
            },
            Action::Enqueue => {
                calls.push("enqueue".to_string());
                Outcome::Accepted
            },
            Action::Done(r) => return (calls, r),
        };
        assert!(engine.expects(outcome));
        action = engine.advance(outcome);
    }
}

fn allocated(x_dims: &[i32]) -> TRTEngine {
    let mut engine = classifier(x_dims);
    engine.activate(true).unwrap();
    let first = engine.allocate_io_tensors(&vec![("x".to_string(), shape(&[1, 3, 224, 224]))]);
    let (_, r) = run(&mut engine, first);
    r.unwrap();
    engine
}

fn feed(dims: &[i32], addr: usize) -> Vec<(String, Tensor)> {
    vec![("x".to_string(), Tensor::from_raw_ptr(addr, &shape(dims), DataType::FLOAT).unwrap())]
}

#[test]
fn allocation_binds_every_io_tensor() {
    let mut engine = classifier(&[1, 3, 224, 224]);
    assert!(engine.activate(true).is_ok());
    let first = engine.allocate_io_tensors(&vec![]);
    let (calls, r) = run(&mut engine, first);
    assert!(r.is_ok());
    assert_eq!(
        calls,
        vec![
            "shape x [1, 3, 224, 224]",
            "alloc x 602112",
            "address x 0x2000",
            "alloc y 4000",
            "address y 0x3000",
        ]
    );
    assert_eq!(engine.tensor_names(), vec!["x".to_string(), "y".to_string()]);
    let x = engine.get_tensor(&"x".to_string()).unwrap();
    assert_eq!(x.shape(), &shape(&[1, 3, 224, 224]));
    assert_eq!(x.get_raw_ptr(), 0x2000);
    assert_eq!(engine.get_bound_address(&"y".to_string()), Some(0x3000));
    assert_eq!(engine.get_bound_input_shape(&"x".to_string()), Some(&shape(&[1, 3, 224, 224])));
    assert!(engine.get_tensor(&"z".to_string()).is_none());
}

#[test]
fn reallocation_replaces_each_tensor_once() {
    let mut engine = allocated(&[-1, 3, 224, 224]);
    let first = engine.allocate_io_tensors(&vec![("x".to_string(), shape(&[2, 3, 224, 224]))]);
    let (calls, r) = run(&mut engine, first);
    assert!(r.is_ok());
    assert_eq!(calls[1], "alloc x 1204224");
    assert_eq!(engine.tensor_names(), vec!["x".to_string(), "y".to_string()]);
    assert_eq!(engine.get_tensor(&"x".to_string()).unwrap().shape(), &shape(&[2, 3, 224, 224]));
    assert_eq!(engine.get_bound_address(&"x".to_string()), Some(0x2000));
}

#[test]
fn inference_with_smaller_input_shrinks_in_place() {
    let mut engine = allocated(&[-1, 3, -1, -1]);
    let first = engine.inference(feed(&[1, 3, 112, 112], 0x9000));
    let (calls, r) = run(&mut engine, first);
    assert!(r.is_ok());
    assert_eq!(calls, vec!["shape x [1, 3, 112, 112]", "copy x 0x2000 0x9000 150528", "enqueue"]);
    assert_eq!(engine.get_bound_input_shape(&"x".to_string()), Some(&shape(&[1, 3, 112, 112])));
    assert_eq!(engine.get_tensor(&"x".to_string()).unwrap().shape(), &shape(&[1, 3, 112, 112]));
}

#[test]
fn inference_with_larger_input_fails() {
    let mut engine = allocated(&[-1, 3, -1, -1]);
    let first = engine.inference(feed(&[1, 3, 448, 448], 0x9000));
    let (calls, r) = run(&mut engine, first);
    assert!(calls.is_empty());
    assert!(matches!(r, Err(TRTError::ResetShapesError)));
    assert_eq!(engine.get_tensor(&"x".to_string()).unwrap().shape(), &shape(&[1, 3, 224, 224]));
}

#[test]
fn inference_with_same_shape_copies_directly() {
    let mut engine = allocated(&[1, 3, 224, 224]);
    let first = engine.inference(feed(&[1, 3, 224, 224], 0x9000));
    let (calls, r) = run(&mut engine, first);
    assert!(r.is_ok());
    assert_eq!(calls, vec!["copy x 0x2000 0x9000 602112", "enqueue"]);
}

#[test]
fn inference_skips_unknown_names() {
    let mut engine = allocated(&[1, 3, 224, 224]);
    let mut fed = feed(&[1, 3, 224, 224], 0x9000);
    fed.insert(0, ("w".to_string(), Tensor::from_raw_ptr(0x8000, &shape(&[7]), DataType::FLOAT).unwrap()));
    let first = engine.inference(fed);
    let (calls, r) = run(&mut engine, first);
    assert!(r.is_ok());
    assert_eq!(calls, vec!["copy x 0x2000 0x9000 602112", "enqueue"]);
}

#[test]
fn inference_refuses_dtype_mismatch() {
    let mut engine = allocated(&[1, 3, 224, 224]);
    let fed = vec![(
        "x".to_string(),
        Tensor::from_raw_ptr(0x9000, &shape(&[1, 3, 224, 224]), DataType::HALF).unwrap(),
    )];
    let first = engine.inference(fed);
    assert!(matches!(first, Action::Done(Err(TRTError::DTypeMismatch))));
}

#[test]
fn allocation_before_activation_fails() {
    let mut engine = classifier(&[1, 3, 224, 224]);
    let first = engine.allocate_io_tensors(&vec![]);
    assert!(matches!(first, Action::Done(Err(TRTError::ExecutionContextNotInitialized))));
    assert!(engine.tensor_names().is_empty());
    assert!(!engine.is_activated());
}

#[test]
fn inference_before_activation_fails() {
    let mut engine = classifier(&[1, 3, 224, 224]);
    let first = engine.inference(feed(&[1, 3, 224, 224], 0x9000));
    assert!(matches!(first, Action::Done(Err(TRTError::ExecutionContextNotInitialized))));
}

#[test]
fn negative_max_shape_is_rejected_before_any_call() {
    let mut engine = classifier(&[-1, 3, 224, 224]);
    engine.activate(true).unwrap();
    let first = engine.allocate_io_tensors(&vec![("x".to_string(), shape(&[1, -3, 224, 224]))]);
    match first {
        Action::Done(Err(TRTError::ShapeError(d))) => assert_eq!(d, vec![1, -3, 224, 224]),
        other => panic!("unexpected {:?}", other),
    }
    assert!(engine.tensor_names().is_empty());
}

#[test]
fn dynamic_static_shape_needs_an_override() {
    let mut engine = classifier(&[-1, 3, 224, 224]);
    engine.activate(true).unwrap();
    let first = engine.allocate_io_tensors(&vec![]);
    assert!(matches!(first, Action::Done(Err(TRTError::ShapeError(_)))));
}

#[test]
fn refused_input_shape_ends_allocation() {
    let mut engine = classifier(&[1, 3, 224, 224]);
    engine.activate(true).unwrap();
    let first = engine.allocate_io_tensors(&vec![]);
    assert!(matches!(first, Action::SetInputShape(_, _)));
    assert!(!engine.expects(Outcome::Allocated(1)));
    match engine.advance(Outcome::Rejected) {
        Action::Done(Err(TRTError::ShapeError(d))) => assert_eq!(d, vec![1, 3, 224, 224]),
        other => panic!("unexpected {:?}", other),
    }
    assert!(!engine.expects(Outcome::Accepted));
}

#[test]
fn device_and_binding_failures_end_allocation() {
    let mut engine = classifier(&[1, 3, 224, 224]);
    engine.activate(true).unwrap();
    engine.allocate_io_tensors(&vec![]);
    engine.advance(Outcome::Accepted);
    assert!(matches!(engine.advance(Outcome::Failed(2)), Action::Done(Err(TRTError::CudaError(2)))));

    engine.allocate_io_tensors(&vec![]);
    engine.advance(Outcome::Accepted);
    engine.advance(Outcome::Allocated(0x4000));
    assert!(matches!(engine.advance(Outcome::Rejected), Action::Done(Err(TRTError::InvalidAddress))));
    assert_eq!(engine.get_tensor(&"x".to_string()).unwrap().get_raw_ptr(), 0x4000);
}

#[test]
fn refused_enqueue_fails_inference() {
    let mut engine = allocated(&[1, 3, 224, 224]);
    let first = engine.inference(vec![]);
    assert!(matches!(first, Action::Enqueue));
    assert!(matches!(engine.advance(Outcome::Rejected), Action::Done(Err(TRTError::EnqueueError))));
}

#[test]
fn failed_context_creation_is_reported() {
    let mut engine = classifier(&[1, 3, 224, 224]);
    assert!(matches!(engine.activate(false), Err(TRTError::ExecutionContextCreationError)));
    assert!(!engine.is_activated());
}

#[test]
fn duplicate_tensor_names_are_refused() {
    let engine = CudaEngine::new(vec![
        info("x", TensorIOMode::INPUT, &[1]),
        info("x", TensorIOMode::OUTPUT, &[1]),
    ]);
    assert!(engine.is_none());
}

#[test]
fn engine_metadata_lookups() {
    let engine = CudaEngine::new(vec![
        info("x", TensorIOMode::INPUT, &[-1, 3]),
        info("y", TensorIOMode::OUTPUT, &[1, 1000]),
    ])
    .unwrap();
    assert_eq!(engine.get_num_io_tensors(), 2);
    assert_eq!(engine.get_io_tensor_name(1), "y");
    assert_eq!(engine.get_tensor_shape(&"x".to_string()), Some(&shape(&[-1, 3])));
    assert_eq!(engine.get_tensor_io_mode(&"y".to_string()), TensorIOMode::OUTPUT);
    assert_eq!(engine.get_tensor_io_mode(&"q".to_string()), TensorIOMode::NONE);
    assert_eq!(engine.get_tensor_dtype(&"x".to_string()), Some(DataType::FLOAT));
    assert_eq!(engine.find_tensor(&"q".to_string()), None);
    let _ = DeviceCopy { dst: 0, src: 0, bytes: 0 };
}

#[test]
fn refused_input_shape_ends_inference() {
    let mut engine = allocated(&[-1, 3, -1, -1]);
    let first = engine.inference(feed(&[1, 3, 100, 100], 0x9000));
    assert!(matches!(first, Action::SetInputShape(_, _)));
    match engine.advance(Outcome::Rejected) {
        Action::Done(Err(TRTError::ShapeError(d))) => assert_eq!(d, vec![1, 3, 100, 100]),
        other => panic!("unexpected {:?}", other),
    }
    assert_eq!(engine.get_bound_input_shape(&"x".to_string()), Some(&shape(&[1, 3, 224, 224])));
}

#[test]
fn failed_copy_ends_inference() {
    let mut engine = allocated(&[1, 3, 224, 224]);
    let first = engine.inference(feed(&[1, 3, 224, 224], 0x9000));
    assert!(matches!(first, Action::Copy(_, _)));
    assert!(matches!(engine.advance(Outcome::Failed(700)), Action::Done(Err(TRTError::CudaError(700)))));
}
