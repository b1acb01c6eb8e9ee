use onnx_circuit::error::ModelError;
use onnx_circuit::facts::{ConvFacts, DataFormat, KernelFormat, NodeFacts, Outlet};
use onnx_circuit::magnitude::Magnitude;
use onnx_circuit::node::OnnxNode;
use onnx_circuit::opkind::OpKind;
use onnx_circuit::quantize::{quantize_in_order, quantize_node};
use onnx_circuit::tensor::FloatTensor;

fn facts(id: usize, op: &str, inputs: &[usize]) -> NodeFacts {
    NodeFacts {
        id,
        name: format!("node{}", id),
        op_name: op.to_string(),
        inputs: inputs.iter().map(|n| Outlet { node: *n, slot: 0 }).collect(),
        output_shapes: Some(vec![None]),
        declared_dims: None,
        constant: None,
        conv: None,
    }
}

fn source(id: usize, dims: &[usize]) -> OnnxNode {
    let mut f = facts(id, "Source", &[]);
    f.output_shapes = Some(vec![Some(dims.to_vec())]);
    OnnxNode::new(f).unwrap()
}

fn constant(id: usize, value: f32, dims: &[usize]) -> OnnxNode {
    let mut f = facts(id, "Const", &[]);
    let count: usize = dims.iter().product();
    f.constant = Some(FloatTensor { bits: vec![value.to_bits(); count], dims: dims.to_vec() });
    OnnxNode::new(f).unwrap()
}

fn op(id: usize, name: &str, inputs: &[usize]) -> OnnxNode {
    OnnxNode::new(facts(id, name, inputs)).unwrap()
}

fn conv(id: usize, inputs: &[usize], padding: &[usize], strides: &[usize]) -> OnnxNode {
    let mut f = facts(id, "ConvHir", inputs);
    f.conv = Some(ConvFacts {
        data_format: DataFormat::NCHW,
        kernel_format: KernelFormat::OIHW,
        strides: Some(strides.to_vec()),
        padding: Some(padding.to_vec()),
    });
    OnnxNode::new(f).unwrap()
}

fn affine_graph() -> Vec<OnnxNode> {
    vec![
        source(0, &[784]),
        constant(1, 0.5, &[10, 784]),
        constant(2, 0.25, &[10]),
        op(3, "Gemm", &[0, 1, 2]),
        op(4, "Clip", &[3]),
    ]
}

fn conv_graph(input: &[usize], kernel: &[usize], padding: &[usize], strides: &[usize]) -> Vec<OnnxNode> {
    vec![
        source(0, input),
        constant(1, 0.25, kernel),
        constant(2, 1.0, &[kernel[0]]),
        conv(3, &[0, 1, 2], padding, strides),
    ]
}

fn conv_out_dims(input: &[usize], kernel: &[usize], padding: &[usize], strides: &[usize]) -> Result<Vec<usize>, ModelError> {
    let nodes = conv_graph(input, kernel, padding, strides);
    quantize_node(&nodes, 3).map(|n| n.out_dims.unwrap())
}

#[test]
fn convolution_of_an_image() {
    let mut nodes = conv_graph(&[3, 32, 32], &[8, 3, 3, 3], &[1, 1], &[1, 1]);
    assert_eq!(quantize_in_order(&mut nodes, &vec![0, 1, 2, 3]), Ok(()));
    let n = &nodes[3];
    assert_eq!(n.out_dims, Some(vec![8, 32, 32]));
    assert_eq!(n.in_dims, Some(vec![3, 32, 32]));
    assert_eq!(n.opkind, OpKind::Convolution);
    assert_eq!(n.in_scale, 7);
    assert_eq!(n.out_scale, 14);
    assert_eq!(n.output_max, Magnitude::Bounded { mantissa: 256 * 32 * 9, shift: 0 });
    assert_eq!(n.min_advice_cols, 256);
    assert_eq!(n.layer_hyperparams, Some(vec![1, 1, 1, 1]));
}

#[test]
fn affine_then_rectifier() {
    let mut nodes = affine_graph();
    assert_eq!(quantize_in_order(&mut nodes, &vec![0, 1, 2, 3, 4]), Ok(()));
    let a = &nodes[3];
    assert_eq!(a.opkind, OpKind::Affine);
    assert_eq!(a.in_dims, Some(vec![784]));
    assert_eq!(a.out_dims, Some(vec![10]));
    assert_eq!(a.in_scale, 7);
    assert_eq!(a.out_scale, 14);
    assert_eq!(a.output_max, Magnitude::Bounded { mantissa: 256 * 64 * 784, shift: 0 });
    assert_eq!(a.min_advice_cols, 784);
    let r = &nodes[4];
    assert_eq!(r.opkind, OpKind::ReLU128);
    assert_eq!(r.in_scale, 14);
    assert_eq!(r.out_scale, 7);
    assert_eq!(r.in_dims, Some(vec![10]));
    assert_eq!(r.out_dims, Some(vec![10]));
    assert_eq!(r.output_max, Magnitude::Bounded { mantissa: 256 * 64 * 784, shift: 7 });
    assert_eq!(r.min_advice_cols, 10);
    assert_eq!(r.input_shapes, Some(vec![Some(vec![10])]));
    assert_eq!(r.output_shapes, Some(vec![None]));
}

#[test]
fn convolution_sizes() {
    assert_eq!(conv_out_dims(&[1, 5, 5], &[2, 1, 3, 3], &[0, 0], &[1, 1]), Ok(vec![2, 3, 3]));
    assert_eq!(conv_out_dims(&[1, 9, 7], &[2, 1, 3, 5], &[0, 0], &[1, 1]), Ok(vec![2, 7, 3]));
    assert_eq!(conv_out_dims(&[1, 9, 7], &[2, 1, 3, 5], &[1, 2], &[1, 1]), Ok(vec![2, 9, 7]));
    assert_eq!(conv_out_dims(&[1, 7, 8], &[4, 1, 3, 3], &[0, 1], &[2, 2]), Ok(vec![4, 3, 4]));
    assert_eq!(conv_out_dims(&[1, 10, 10], &[4, 1, 3, 3], &[0, 0], &[3, 4]), Ok(vec![4, 3, 2]));
    assert_eq!(conv_out_dims(&[1, 5, 5], &[1, 1, 4, 4], &[2, 2], &[1, 1]), Ok(vec![1, 6, 6]));
    assert_eq!(conv_out_dims(&[1, 3, 3], &[1, 1, 3, 3], &[0, 0], &[1, 1]), Ok(vec![1, 1, 1]));
    assert_eq!(conv_out_dims(&[1, 3, 3], &[1, 1, 3, 3], &[0, 0], &[5, 5]), Ok(vec![1, 1, 1]));
}

#[test]
fn convolution_that_has_no_size_fails() {
    let failure = Err(ModelError::ShapeInferenceFailure { node: 3 });
    assert_eq!(conv_out_dims(&[1, 2, 5], &[1, 1, 3, 3], &[0, 0], &[1, 1]), failure);
    assert_eq!(conv_out_dims(&[1, 5, 2], &[1, 1, 3, 3], &[0, 0], &[1, 1]), failure);
    assert_eq!(conv_out_dims(&[1, 5, 5], &[1, 1, 3, 3], &[0, 0], &[0, 1]), failure);
    assert_eq!(conv_out_dims(&[1, 5, 5], &[1, 1, 3, 3], &[0, 0], &[1, 0]), failure);
    assert_eq!(conv_out_dims(&[5, 5], &[1, 1, 3, 3], &[0, 0], &[1, 1]), failure);
    assert_eq!(conv_out_dims(&[1, 5, 5], &[1, 3, 3], &[0, 0], &[1, 1]), failure);
}

#[test]
fn convolution_that_needs_too_many_columns_fails() {
    let mut nodes = conv_graph(&[1, 5, 5], &[1, 1, 3, 3], &[0, 0], &[1, 1]);
    nodes[1].out_dims = Some(vec![usize::MAX, 1, 3, 3]);
    assert_eq!(quantize_node(&nodes, 3), Err(ModelError::ShapeInferenceFailure { node: 3 }));
    let mut nodes = conv_graph(&[1, 5, 5], &[1, 1, 3, 3], &[0, 0], &[1, 1]);
    nodes[1].out_dims = Some(vec![1, usize::MAX, 3, 3]);
    assert_eq!(quantize_node(&nodes, 3), Err(ModelError::ShapeInferenceFailure { node: 3 }));
    let mut nodes = conv_graph(&[1, 5, 5], &[1, 1, 3, 3], &[0, 0], &[1, 1]);
    nodes[3].layer_hyperparams = Some(vec![usize::MAX, 0, 1, 1]);
    assert_eq!(quantize_node(&nodes, 3), Err(ModelError::ShapeInferenceFailure { node: 3 }));
    let mut nodes = conv_graph(&[1, 5, 5], &[1, 1, 3, 3], &[0, 0], &[1, 1]);
    nodes[3].layer_hyperparams = Some(vec![usize::MAX / 2 - 2, 0, 1, 1]);
    assert_eq!(quantize_node(&nodes, 3).unwrap().out_dims, Some(vec![1, usize::MAX - 2, 3]));
    nodes[3].layer_hyperparams = Some(vec![usize::MAX / 2 - 1, 0, 1, 1]);
    assert_eq!(quantize_node(&nodes, 3).unwrap().out_dims, Some(vec![1, usize::MAX, 3]));
    nodes[3].layer_hyperparams = Some(vec![usize::MAX / 2, 0, 1, 1]);
    assert_eq!(quantize_node(&nodes, 3), Err(ModelError::ShapeInferenceFailure { node: 3 }));
    let mut nodes = conv_graph(&[1, 5, 5], &[1, 1, 3, 3], &[0, 0], &[1, 1]);
    nodes[3].layer_hyperparams = None;
    assert_eq!(quantize_node(&nodes, 3), Err(ModelError::ShapeInferenceFailure { node: 3 }));
}

#[test]
fn scales_that_differ_are_a_mismatch() {
    for (a, w, b, agree) in [
        (7, 7, 7, true),
        (0, 0, 0, true),
        (-3, -3, -3, true),
        (14, 7, 7, false),
        (7, 14, 7, false),
        (7, 7, 14, false),
        (7, 8, 9, false),
        (8, 8, 7, false),
    ] {
        let mut nodes = affine_graph();
        nodes[0].out_scale = a;
        nodes[1].out_scale = w;
        nodes[2].out_scale = b;
        let r = quantize_node(&nodes, 3);
        if agree {
            assert_eq!(r.unwrap().out_scale, a + w);
        } else {
            assert_eq!(r, Err(ModelError::ScaleMismatch { node: 3 }));
        }
        let mut nodes = conv_graph(&[3, 32, 32], &[8, 3, 3, 3], &[1, 1], &[1, 1]);
        nodes[0].out_scale = a;
        nodes[1].out_scale = w;
        nodes[2].out_scale = b;
        let r = quantize_node(&nodes, 3);
        if agree {
            assert_eq!(r.unwrap().out_scale, a + w);
        } else {
            assert_eq!(r, Err(ModelError::ScaleMismatch { node: 3 }));
        }
    }
}

#[test]
fn mismatch_comes_before_missing_shapes() {
    let mut nodes = affine_graph();
    nodes[1].out_dims = None;
    nodes[2].out_scale = 8;
    assert_eq!(quantize_node(&nodes, 3), Err(ModelError::ScaleMismatch { node: 3 }));
    nodes[2].out_scale = 7;
    assert_eq!(quantize_node(&nodes, 3), Err(ModelError::ShapeInferenceFailure { node: 3 }));
}

#[test]
fn two_affine_layers_in_a_row_are_a_mismatch() {
    let mut nodes = affine_graph();
    nodes[4] = op(4, "Gemm", &[3, 1, 2]);
    assert_eq!(
        quantize_in_order(&mut nodes, &vec![0, 1, 2, 3, 4]),
        Err(ModelError::ScaleMismatch { node: 4 })
    );
    assert_eq!(nodes[3].out_scale, 14);
    assert_eq!(nodes[4].out_scale, 0);
}

#[test]
fn scale_sum_that_does_not_fit_fails() {
    let mut nodes = affine_graph();
    for i in 0..3 {
        nodes[i].out_scale = 1_073_741_824;
    }
    assert_eq!(quantize_node(&nodes, 3), Err(ModelError::ScaleOverflow { node: 3 }));
    for i in 0..3 {
        nodes[i].out_scale = 1_073_741_823;
    }
    assert_eq!(quantize_node(&nodes, 3).unwrap().out_scale, 2_147_483_646);
    for i in 0..3 {
        nodes[i].out_scale = -1_073_741_825;
    }
    assert_eq!(quantize_node(&nodes, 3), Err(ModelError::ScaleOverflow { node: 3 }));
}

#[test]
fn affine_without_operands_is_malformed() {
    let mut nodes = affine_graph();
    nodes[3] = op(3, "Gemm", &[0, 1]);
    assert_eq!(quantize_node(&nodes, 3), Err(ModelError::MalformedGraph { node: 3 }));
    nodes[3] = op(3, "Gemm", &[0, 1, 17]);
    assert_eq!(quantize_node(&nodes, 3), Err(ModelError::MalformedGraph { node: 3 }));
    assert_eq!(quantize_node(&nodes, 5), Err(ModelError::MalformedGraph { node: 5 }));
    nodes[4] = op(4, "Clip", &[]);
    assert_eq!(quantize_node(&nodes, 4), Err(ModelError::MalformedGraph { node: 4 }));
}

#[test]
fn affine_with_flat_weight_fails() {
    let mut nodes = affine_graph();
    nodes[1] = constant(1, 0.5, &[10]);
    assert_eq!(quantize_node(&nodes, 3), Err(ModelError::ShapeInferenceFailure { node: 3 }));
}

#[test]
fn rectifier_rescales_at_scale_fourteen_only() {
    for scale in [-7, 0, 7, 13, 14, 15, 21, 28] {
        let mut nodes = vec![source(0, &[4, 2]), op(1, "Clip", &[0])];
        nodes[0].out_scale = scale;
        nodes[0].output_max = Magnitude::Bounded { mantissa: 1000, shift: 3 };
        let r = quantize_node(&nodes, 1).unwrap();
        assert_eq!(r.in_scale, scale);
        assert_eq!(r.in_dims, Some(vec![4, 2]));
        assert_eq!(r.out_dims, Some(vec![4, 2]));
        assert_eq!(r.min_advice_cols, 4);
        if scale == 14 {
            assert_eq!(r.opkind, OpKind::ReLU128);
            assert_eq!(r.out_scale, 7);
            assert_eq!(r.output_max, Magnitude::Bounded { mantissa: 1000, shift: 10 });
        } else {
            assert_eq!(r.opkind, OpKind::ReLU);
            assert_eq!(r.out_scale, scale);
            assert_eq!(r.output_max, Magnitude::Bounded { mantissa: 1000, shift: 3 });
        }
    }
}

#[test]
fn rectifier_fills_missing_slot_shapes() {
    let mut nodes = vec![source(0, &[0, 2]), op(1, "Clip", &[0])];
    nodes[1].output_shapes = None;
    let r = quantize_node(&nodes, 1).unwrap();
    assert_eq!(r.input_shapes, Some(vec![Some(vec![0, 2])]));
    assert_eq!(r.output_shapes, Some(vec![Some(vec![0, 2])]));
    assert_eq!(r.min_advice_cols, 1);
    nodes[1].input_shapes = Some(vec![None, None]);
    assert_eq!(quantize_node(&nodes, 1).unwrap().input_shapes, Some(vec![None, None]));
}

#[test]
fn rectifier_without_shape_fails() {
    let mut nodes = vec![source(0, &[]), op(1, "Clip", &[0])];
    assert_eq!(quantize_node(&nodes, 1), Err(ModelError::ShapeInferenceFailure { node: 1 }));
    nodes[0].out_dims = None;
    assert_eq!(quantize_node(&nodes, 1), Err(ModelError::ShapeInferenceFailure { node: 1 }));
}

#[test]
fn other_kinds_are_left_alone() {
    let nodes = vec![
        source(0, &[4]),
        constant(1, 1.0, &[4]),
        op(2, "Sigmoid", &[0]),
        op(3, "Softmax", &[0]),
        op(4, "Sigmoid", &[]),
    ];
    for i in 0..5 {
        assert_eq!(quantize_node(&nodes, i).unwrap(), nodes[i]);
    }
    let mut rescaled = vec![source(0, &[4]), op(1, "Clip", &[])];
    rescaled[1].opkind = OpKind::ReLU128;
    assert_eq!(quantize_node(&rescaled, 1).unwrap(), rescaled[1]);
    rescaled[1].opkind = OpKind::ReLU64;
    assert_eq!(quantize_node(&rescaled, 1).unwrap(), rescaled[1]);
}

#[test]
fn second_pass_changes_nothing() {
    let mut nodes = affine_graph();
    let order = vec![0, 1, 2, 3, 4];
    assert_eq!(quantize_in_order(&mut nodes, &order), Ok(()));
    let once = nodes.clone();
    assert_eq!(quantize_in_order(&mut nodes, &order), Ok(()));
    assert_eq!(nodes, once);
    let mut nodes = conv_graph(&[3, 32, 32], &[8, 3, 3, 3], &[1, 1], &[1, 1]);
    nodes.push(op(4, "Clip", &[3]));
    nodes.push(op(5, "Sigmoid", &[4]));
    let order = vec![0, 1, 2, 3, 4, 5];
    assert_eq!(quantize_in_order(&mut nodes, &order), Ok(()));
    let once = nodes.clone();
    assert_eq!(once[4].opkind, OpKind::ReLU128);
    assert_eq!(quantize_in_order(&mut nodes, &order), Ok(()));
    assert_eq!(nodes, once);
}

#[test]
fn position_of_constants_does_not_matter() {
    let orders: [Vec<usize>; 4] =
        [vec![0, 1, 2, 3, 4], vec![1, 2, 0, 3, 4], vec![2, 0, 1, 3, 4], vec![0, 2, 1, 3, 4]];
    let mut first = affine_graph();
    assert_eq!(quantize_in_order(&mut first, &orders[0]), Ok(()));
    for order in &orders[1..] {
        let mut other = affine_graph();
        assert_eq!(quantize_in_order(&mut other, order), Ok(()));
        assert_eq!(other, first);
    }
    let mut late = affine_graph();
    assert_eq!(quantize_in_order(&mut late, &vec![0, 3, 1, 4, 2]), Ok(()));
    assert_eq!(late, first);
    let mut none = affine_graph();
    assert_eq!(quantize_in_order(&mut none, &vec![0, 3, 4]), Ok(()));
    assert_eq!(none, first);
}

#[test]
fn pass_stops_at_the_first_failure() {
    let mut nodes = affine_graph();
    nodes[2].out_scale = 9;
    let before = nodes.clone();
    assert_eq!(
        quantize_in_order(&mut nodes, &vec![0, 1, 2, 3, 4]),
        Err(ModelError::ScaleMismatch { node: 3 })
    );
    assert_eq!(nodes, before);
    let mut nodes = affine_graph();
    assert_eq!(
        quantize_in_order(&mut nodes, &vec![3, 9, 4]),
        Err(ModelError::MalformedGraph { node: 9 })
    );
    assert_eq!(nodes[3].out_scale, 14);
    assert_eq!(nodes[4].opkind, OpKind::ReLU);
}

#[test]
fn out_of_order_pass_reads_what_is_not_final() {
    let mut nodes = affine_graph();
    assert_eq!(quantize_in_order(&mut nodes, &vec![4, 3]), Err(ModelError::ShapeInferenceFailure { node: 4 }));
}
