use onnx_circuit::config::{
    configure_in_order, configure_node, AffineConfig, ConvConfig, EltwiseConfig, FixedBlock,
    OnnxNodeConfig, Window,
};
use onnx_circuit::error::ModelError;
use onnx_circuit::facts::{ConvFacts, DataFormat, KernelFormat, NodeFacts, Outlet};
use onnx_circuit::node::OnnxNode;
use onnx_circuit::opkind::OpKind;
use onnx_circuit::quantize::quantize_in_order;
use onnx_circuit::shape::{checked_product, clone_dims, clone_shapes, clone_slots, shape1, shape2, shape3, shape4};
use onnx_circuit::tensor::FloatTensor;

fn facts(id: usize, op: &str, inputs: &[usize]) -> NodeFacts {
    NodeFacts {
        id,
        name: format!("node{}", id),
        op_name: op.to_string(),
        inputs: inputs.iter().map(|n| Outlet { node: *n, slot: 0 }).collect(),
        output_shapes: Some(vec![None]),
        declared_dims: None,
        constant: None,
        conv: None,
    }
}

fn source(id: usize, dims: &[usize]) -> OnnxNode {
    let mut f = facts(id, "Source", &[]);
    f.output_shapes = Some(vec![Some(dims.to_vec())]);
    OnnxNode::new(f).unwrap()
}

fn constant(id: usize, value: f32, dims: &[usize]) -> OnnxNode {
    let mut f = facts(id, "Const", &[]);
    let count: usize = dims.iter().product();
    f.constant = Some(FloatTensor { bits: vec![value.to_bits(); count], dims: dims.to_vec() });
    OnnxNode::new(f).unwrap()
}

fn op(id: usize, name: &str, inputs: &[usize]) -> OnnxNode {
    OnnxNode::new(facts(id, name, inputs)).unwrap()
}

fn affine_graph() -> Vec<OnnxNode> {
    let mut nodes = vec![
        source(0, &[784]),
        constant(1, 0.5, &[10, 784]),
        constant(2, 0.25, &[10]),
        op(3, "Gemm", &[0, 1, 2]),
        op(4, "Clip", &[3]),
    ];
    quantize_in_order(&mut nodes, &vec![0, 1, 2, 3, 4]).unwrap();
    nodes
}

fn conv_graph() -> Vec<OnnxNode> {
    let mut f = facts(3, "ConvHir", &[0, 1, 2]);
    f.conv = Some(ConvFacts {
        data_format: DataFormat::NCHW,
        kernel_format: KernelFormat::OIHW,
        strides: Some(vec![1, 1]),
        padding: Some(vec![1, 1]),
    });
    let mut nodes = vec![
        source(0, &[3, 32, 32]),
        constant(1, 0.25, &[8, 3, 3, 3]),
        constant(2, 1.0, &[8]),
        OnnxNode::new(f).unwrap(),
        op(4, "Clip", &[3]),
        op(5, "Sigmoid", &[4]),
    ];
    quantize_in_order(&mut nodes, &vec![0, 1, 2, 3, 4, 5]).unwrap();
    nodes
}

fn window(start: usize, end: usize, dims: &[usize]) -> Window {
    Window { start, end, dims: dims.to_vec() }
}

fn affine_config() -> OnnxNodeConfig {
    OnnxNodeConfig::Affine(AffineConfig {
        weight: window(0, 10, &[10, 784]),
        bias: window(11, 12, &[10]),
        input: window(12, 13, &[784]),
        output: window(13, 14, &[10]),
    })
}

fn conv_config() -> OnnxNodeConfig {
    OnnxNodeConfig::Conv(ConvConfig {
        kernel: FixedBlock { columns: 216, dims: vec![8, 3, 3, 3] },
        bias: FixedBlock { columns: 8, dims: vec![8] },
        input: window(0, 96, &[3, 32, 32]),
        output: window(0, 256, &[8, 32, 32]),
        hyperparams: vec![1, 1, 1, 1],
    })
}

fn eltwise(length: usize, bits: usize) -> EltwiseConfig {
    EltwiseConfig { window: window(0, length, &[length]), bits }
}

#[test]
fn affine_windows() {
    let nodes = affine_graph();
    let mut last = vec![0];
    assert_eq!(configure_node(&nodes, 15, &mut last, 3), Ok(affine_config()));
    assert_eq!(last, vec![10]);
}

#[test]
fn convolution_columns() {
    let nodes = conv_graph();
    let mut last = vec![0];
    assert_eq!(configure_node(&nodes, 15, &mut last, 3), Ok(conv_config()));
    assert_eq!(last, vec![8, 32, 32]);
}

#[test]
fn eltwise_window_is_sized_by_the_last_shape() {
    let nodes = conv_graph();
    let mut last = vec![8, 32, 32];
    assert_eq!(
        configure_node(&nodes, 15, &mut last, 4),
        Ok(OnnxNodeConfig::ReLU128(eltwise(8192, 15)))
    );
    assert_eq!(last, vec![8, 32, 32]);
    assert_eq!(
        configure_node(&nodes, 11, &mut last, 5),
        Ok(OnnxNodeConfig::Sigmoid(eltwise(8192, 11)))
    );
    let mut start = vec![0];
    assert_eq!(configure_node(&nodes, 15, &mut start, 5), Ok(OnnxNodeConfig::Sigmoid(eltwise(0, 15))));
    let mut none: Vec<usize> = vec![];
    assert_eq!(configure_node(&nodes, 15, &mut none, 5), Ok(OnnxNodeConfig::Sigmoid(eltwise(1, 15))));
}

#[test]
fn each_eltwise_kind_gets_its_own_variant() {
    let mut nodes = conv_graph();
    let mut last = vec![3, 4];
    nodes[4].opkind = OpKind::ReLU;
    assert_eq!(configure_node(&nodes, 15, &mut last, 4), Ok(OnnxNodeConfig::ReLU(eltwise(12, 15))));
    nodes[4].opkind = OpKind::ReLU64;
    assert_eq!(configure_node(&nodes, 15, &mut last, 4), Ok(OnnxNodeConfig::ReLU64(eltwise(12, 15))));
    nodes[4].opkind = OpKind::ReLU128;
    assert_eq!(configure_node(&nodes, 15, &mut last, 4), Ok(OnnxNodeConfig::ReLU128(eltwise(12, 15))));
    nodes[4].opkind = OpKind::Sigmoid;
    assert_eq!(configure_node(&nodes, 15, &mut last, 4), Ok(OnnxNodeConfig::Sigmoid(eltwise(12, 15))));
}

#[test]
fn constants_and_inputs_need_nothing() {
    let nodes = conv_graph();
    let mut last = vec![5];
    assert_eq!(configure_node(&nodes, 15, &mut last, 0), Ok(OnnxNodeConfig::Input));
    assert_eq!(configure_node(&nodes, 15, &mut last, 1), Ok(OnnxNodeConfig::Const));
    assert_eq!(last, vec![5]);
}

#[test]
fn unknown_kind_cannot_be_configured() {
    let nodes = vec![source(0, &[4]), op(1, "Softmax", &[0])];
    let mut last = vec![4];
    assert_eq!(configure_node(&nodes, 15, &mut last, 1), Err(ModelError::UnsupportedOperator { node: 1 }));
    assert_eq!(last, vec![4]);
    assert_eq!(configure_node(&nodes, 15, &mut last, 2), Err(ModelError::MalformedGraph { node: 2 }));
}

#[test]
fn node_without_shapes_cannot_be_configured() {
    let mut nodes = affine_graph();
    nodes[3].in_dims = None;
    let mut last = vec![0];
    assert_eq!(configure_node(&nodes, 15, &mut last, 3), Err(ModelError::ShapeInferenceFailure { node: 3 }));
    let mut nodes = affine_graph();
    nodes[3].out_dims = Some(vec![]);
    assert_eq!(configure_node(&nodes, 15, &mut last, 3), Err(ModelError::ShapeInferenceFailure { node: 3 }));
    let mut nodes = affine_graph();
    nodes[3].out_dims = Some(vec![usize::MAX - 3]);
    assert_eq!(configure_node(&nodes, 15, &mut last, 3), Err(ModelError::ShapeInferenceFailure { node: 3 }));
    nodes[3].out_dims = Some(vec![usize::MAX - 4]);
    assert!(configure_node(&nodes, 15, &mut last, 3).is_ok());
    assert_eq!(last, vec![usize::MAX - 4]);
    let mut huge = vec![usize::MAX, 2];
    assert_eq!(configure_node(&nodes, 15, &mut huge, 4), Err(ModelError::ShapeInferenceFailure { node: 4 }));
    assert_eq!(huge, vec![usize::MAX, 2]);
}

#[test]
fn convolution_with_other_channels_than_its_kernel_fails() {
    let mut nodes = conv_graph();
    let mut last = vec![0];
    nodes[3].in_dims = Some(vec![4, 32, 32]);
    assert_eq!(configure_node(&nodes, 15, &mut last, 3), Err(ModelError::ShapeInferenceFailure { node: 3 }));
    let mut nodes = conv_graph();
    nodes[3].out_dims = Some(vec![9, 32, 32]);
    assert_eq!(configure_node(&nodes, 15, &mut last, 3), Err(ModelError::ShapeInferenceFailure { node: 3 }));
    let mut nodes = conv_graph();
    nodes[3].layer_hyperparams = None;
    assert_eq!(configure_node(&nodes, 15, &mut last, 3), Err(ModelError::ShapeInferenceFailure { node: 3 }));
    let mut nodes = conv_graph();
    nodes[3].facts.inputs = vec![Outlet { node: 0, slot: 0 }];
    assert_eq!(configure_node(&nodes, 15, &mut last, 3), Err(ModelError::MalformedGraph { node: 3 }));
    assert_eq!(last, vec![0]);
}

#[test]
fn pass_configures_every_listed_node() {
    let nodes = conv_graph();
    let mut last = vec![0];
    let configs = configure_in_order(&nodes, 15, &mut last, &vec![0, 1, 2, 3, 4, 5]).unwrap();
    assert_eq!(
        configs,
        vec![
            OnnxNodeConfig::Input,
            OnnxNodeConfig::Const,
            OnnxNodeConfig::Const,
            conv_config(),
            OnnxNodeConfig::ReLU128(eltwise(8192, 15)),
            OnnxNodeConfig::Sigmoid(eltwise(8192, 15)),
        ]
    );
    assert_eq!(last, vec![8, 32, 32]);
}

#[test]
fn pass_leaves_unlisted_nodes_unconfigured() {
    let nodes = affine_graph();
    let mut last = vec![0];
    let configs = configure_in_order(&nodes, 15, &mut last, &vec![0, 3, 4]).unwrap();
    assert_eq!(
        configs,
        vec![
            OnnxNodeConfig::Input,
            OnnxNodeConfig::NotConfigured,
            OnnxNodeConfig::NotConfigured,
            affine_config(),
            OnnxNodeConfig::ReLU128(eltwise(10, 15)),
        ]
    );
    let none = configure_in_order(&nodes, 15, &mut last, &vec![]).unwrap();
    assert_eq!(none.len(), 5);
    assert!(none.iter().all(|c| *c == OnnxNodeConfig::NotConfigured));
}

#[test]
fn position_of_constants_does_not_matter_to_the_configuration() {
    let nodes = affine_graph();
    let mut last = vec![0];
    let first = configure_in_order(&nodes, 15, &mut last, &vec![0, 1, 2, 3, 4]).unwrap();
    for order in [vec![1, 2, 0, 3, 4], vec![0, 3, 2, 4, 1], vec![2, 1, 0, 3, 4]] {
        let mut other_last = vec![0];
        let other = configure_in_order(&nodes, 15, &mut other_last, &order).unwrap();
        assert_eq!(other, first);
        assert_eq!(other_last, last);
    }
}

#[test]
fn eltwise_before_any_layer_depends_on_the_order() {
    let nodes = affine_graph();
    let mut last = vec![0];
    let configs = configure_in_order(&nodes, 15, &mut last, &vec![4, 3]).unwrap();
    assert_eq!(configs[4], OnnxNodeConfig::ReLU128(eltwise(0, 15)));
    assert_eq!(last, vec![10]);
}

#[test]
fn pass_stops_at_the_first_node_that_cannot_be_configured() {
    let mut nodes = affine_graph();
    nodes.push(op(5, "Softmax", &[4]));
    let mut last = vec![0];
    assert_eq!(
        configure_in_order(&nodes, 15, &mut last, &vec![0, 1, 2, 3, 5, 4]),
        Err(ModelError::UnsupportedOperator { node: 5 })
    );
    assert_eq!(last, vec![10]);
}

#[test]
fn shapes_and_products() {
    assert_eq!(shape1(4), vec![4]);
    assert_eq!(shape2(4, 5), vec![4, 5]);
    assert_eq!(shape3(4, 5, 6), vec![4, 5, 6]);
    assert_eq!(shape4(4, 5, 6, 7), vec![4, 5, 6, 7]);
    assert_eq!(checked_product(&vec![]), Some(1));
    assert_eq!(checked_product(&vec![8, 32, 32]), Some(8192));
    assert_eq!(checked_product(&vec![usize::MAX, 2]), None);
    assert_eq!(checked_product(&vec![usize::MAX, 2, 0]), Some(0));
    assert_eq!(checked_product(&vec![usize::MAX, 1]), Some(usize::MAX));
    assert_eq!(clone_dims(&Some(vec![1, 2])), Some(vec![1, 2]));
    assert_eq!(clone_dims(&None), None);
    assert_eq!(clone_slots(&vec![None, Some(vec![3])]), vec![None, Some(vec![3])]);
    assert_eq!(clone_shapes(&Some(vec![Some(vec![])])), Some(vec![Some(vec![])]));
    assert_eq!(clone_shapes(&None), None);
}
