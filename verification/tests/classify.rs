use onnx_circuit::error::ModelError;
use onnx_circuit::magnitude::Magnitude;
use onnx_circuit::opkind::OpKind;

#[test]
fn supported_names_are_classified() {
    assert_eq!(OpKind::from_name(&"Gemm".to_string()), OpKind::Affine);
    assert_eq!(OpKind::from_name(&"Conv".to_string()), OpKind::Convolution);
    assert_eq!(OpKind::from_name(&"ConvHir".to_string()), OpKind::Convolution);
    assert_eq!(OpKind::from_name(&"Clip".to_string()), OpKind::ReLU);
    assert_eq!(OpKind::from_name(&"Sigmoid".to_string()), OpKind::Sigmoid);
    assert_eq!(OpKind::from_name(&"Const".to_string()), OpKind::Const);
    assert_eq!(OpKind::from_name(&"Source".to_string()), OpKind::Input);
}

#[test]
fn other_names_are_unknown() {
    assert_eq!(OpKind::from_name(&"MaxPool".to_string()), OpKind::Unknown);
    assert_eq!(OpKind::from_name(&"".to_string()), OpKind::Unknown);
    assert_eq!(OpKind::from_name(&"gemm".to_string()), OpKind::Unknown);
    assert_eq!(OpKind::from_name(&"Gemm ".to_string()), OpKind::Unknown);
    assert_eq!(OpKind::from_name(&"Relu".to_string()), OpKind::Unknown);
}

#[test]
fn no_name_gives_a_rescaling_kind() {
    for name in ["Gemm", "Conv", "ConvHir", "Clip", "Sigmoid", "Const", "Source", "ReLU128", "ReLU64"] {
        let kind = OpKind::from_name(&name.to_string());
        assert_ne!(kind, OpKind::ReLU64);
        assert_ne!(kind, OpKind::ReLU128);
    }
}

#[test]
fn eltwise_kinds() {
    assert!(OpKind::ReLU.eltwise());
    assert!(OpKind::ReLU64.eltwise());
    assert!(OpKind::ReLU128.eltwise());
    assert!(OpKind::Sigmoid.eltwise());
    assert!(!OpKind::Affine.eltwise());
    assert!(!OpKind::Convolution.eltwise());
    assert!(!OpKind::Const.eltwise());
    assert!(!OpKind::Input.eltwise());
    assert!(!OpKind::Unknown.eltwise());
}

#[test]
fn errors_name_their_node() {
    assert_eq!(ModelError::UnsupportedOperator { node: 1 }.node(), Some(1));
    assert_eq!(ModelError::ShapeInferenceFailure { node: 2 }.node(), Some(2));
    assert_eq!(ModelError::ScaleMismatch { node: 3 }.node(), Some(3));
    assert_eq!(ModelError::UnsupportedLayoutConvention { node: 4 }.node(), Some(4));
    assert_eq!(ModelError::PaddingNotExplicit { node: 5 }.node(), Some(5));
    assert_eq!(ModelError::ConstantConcretizationFailure { node: 6 }.node(), Some(6));
    assert_eq!(ModelError::ConfigOpMismatch { node: 7 }.node(), Some(7));
    assert_eq!(ModelError::MalformedGraph { node: 8 }.node(), Some(8));
    assert_eq!(ModelError::ScaleOverflow { node: 9 }.node(), Some(9));
    assert_eq!(ModelError::NoEvalOrder.node(), None);
}

#[test]
fn only_a_mismatch_is_internal() {
    assert!(ModelError::ConfigOpMismatch { node: 0 }.is_internal());
    assert!(!ModelError::UnsupportedOperator { node: 0 }.is_internal());
    assert!(!ModelError::ShapeInferenceFailure { node: 0 }.is_internal());
    assert!(!ModelError::ScaleMismatch { node: 0 }.is_internal());
    assert!(!ModelError::MalformedGraph { node: 0 }.is_internal());
    assert!(!ModelError::NoEvalOrder.is_internal());
}

#[test]
fn magnitude_products() {
    let a = Magnitude::from_count(256);
    let b = Magnitude::from_count(64);
    assert_eq!(a.multiply(b), Magnitude::Bounded { mantissa: 16384, shift: 0 });
    assert_eq!(
        a.multiply(b).multiply_count(784),
        Magnitude::Bounded { mantissa: 12_845_056, shift: 0 }
    );
    assert_eq!(a.multiply_count(0), Magnitude::Bounded { mantissa: 0, shift: 0 });
    assert_eq!(Magnitude::Unbounded.multiply(a), Magnitude::Unbounded);
    assert_eq!(a.multiply(Magnitude::Unbounded), Magnitude::Unbounded);
}

#[test]
fn magnitude_shifts_add_up() {
    let a = Magnitude::Bounded { mantissa: 3, shift: 7 };
    let b = Magnitude::Bounded { mantissa: 5, shift: 2 };
    assert_eq!(a.multiply(b), Magnitude::Bounded { mantissa: 15, shift: 9 });
    assert_eq!(a.shift_down(7), Magnitude::Bounded { mantissa: 3, shift: 14 });
    assert_eq!(Magnitude::Unbounded.shift_down(7), Magnitude::Unbounded);
}

#[test]
fn magnitude_gives_up_when_it_does_not_fit() {
    let big = Magnitude::Bounded { mantissa: u128::MAX, shift: 0 };
    assert_eq!(big.multiply_count(2), Magnitude::Unbounded);
    assert_eq!(big.multiply_count(1), big);
    let deep = Magnitude::Bounded { mantissa: 1, shift: u32::MAX };
    assert_eq!(deep.shift_down(1), Magnitude::Unbounded);
    assert_eq!(deep.multiply(Magnitude::Bounded { mantissa: 1, shift: 1 }), Magnitude::Unbounded);
}
