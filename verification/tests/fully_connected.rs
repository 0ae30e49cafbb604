use berrylite::kernel::micro_activation::{
    activation_with_min_max, calculate_fused_activation_range, relu,
};
use berrylite::kernel::micro_builtin_options::{BLiteActivation, BLiteBuiltinOption};
use berrylite::kernel::micro_operator::op_fully_connected::OpFullyConnected;
use berrylite::kernel::utils::padding::{compute_padding_height_width, compute_padding_with_offset};
use berrylite::micro_array::BLiteArray;
use berrylite::micro_context::BLiteContext;
use berrylite::micro_errors::BLiteError;
use berrylite::micro_node::BLiteNode;
use berrylite::micro_registration::BLiteKernel;
use berrylite::tflite_model::{TfLiteBuiltinOptions, TfLiteOperator};

fn fc_tensors(bias: Vec<i32>) -> Vec<BLiteArray> {
    vec![
        BLiteArray { data: vec![1, 2], dims: vec![1, 2] },
        BLiteArray { data: vec![1, 1, 1, 0], dims: vec![2, 2] },
        BLiteArray { data: bias, dims: vec![2] },
        BLiteArray { data: vec![0, 0, 99], dims: vec![1, 3] },
    ]
}

fn fc_node() -> BLiteNode {
    BLiteNode { inputs: vec![0, 1, 2], outputs: vec![3] }
}

#[test]
fn eval_keeps_a_running_total_across_rows() {
    let mut tensors = fc_tensors(vec![10, 20]);
    let options = BLiteBuiltinOption::FullyConnectedOptions { op_code: 0, activation: None };
    let r = OpFullyConnected::eval(&BLiteContext::new(), &mut tensors, &fc_node(), options);
    assert_eq!(r, Ok(()));
    // row 0: 1*1 + 2*1 = 3, plus 10; row 1 continues the total: 3 + 1*1 + 2*0 = 4, plus 20
    assert_eq!(tensors[3].data, vec![13, 24, 99]);
    assert_eq!(tensors[3].dims, vec![1, 3]);
}

#[test]
fn eval_applies_relu_to_every_output_element() {
    let mut tensors = fc_tensors(vec![-20, 0]);
    tensors[3].data = vec![0, 0, -7];
    let options =
        BLiteBuiltinOption::FullyConnectedOptions { op_code: 1, activation: Some(BLiteActivation::Relu) };
    OpFullyConnected::eval(&BLiteContext::new(), &mut tensors, &fc_node(), options).unwrap();
    assert_eq!(tensors[3].data, vec![0, 4, 0]);
}

#[test]
fn eval_errors_without_fully_connected_options() {
    let mut tensors = fc_tensors(vec![10, 20]);
    let r = OpFullyConnected::eval(
        &BLiteContext::new(),
        &mut tensors,
        &fc_node(),
        BLiteBuiltinOption::NotInitialize,
    );
    assert_eq!(r, Err(BLiteError::NotInitializeActivation));
    let r = OpFullyConnected::eval(
        &BLiteContext::new(),
        &mut tensors,
        &fc_node(),
        BLiteBuiltinOption::ReshapeOptions {},
    );
    assert_eq!(r, Err(BLiteError::NotCompatibleOption));
    assert_eq!(tensors[3].data, vec![0, 0, 99]);
}

fn fc_operator(options: TfLiteBuiltinOptions) -> TfLiteOperator<'static> {
    TfLiteOperator { opcode_index: 0, inputs: None, outputs: None, builtin_options: options }
}

#[test]
fn parser_maps_relu_code() {
    let relu_op = fc_operator(TfLiteBuiltinOptions::FullyConnectedOptions { fused_activation_function: 1 });
    assert_eq!(
        OpFullyConnected::parser(&relu_op),
        Ok(BLiteBuiltinOption::FullyConnectedOptions { op_code: 1, activation: Some(BLiteActivation::Relu) })
    );
    let plain = fc_operator(TfLiteBuiltinOptions::FullyConnectedOptions { fused_activation_function: 0 });
    assert_eq!(
        OpFullyConnected::parser(&plain),
        Ok(BLiteBuiltinOption::FullyConnectedOptions { op_code: 0, activation: None })
    );
    let none = fc_operator(TfLiteBuiltinOptions::NoOptions);
    assert_eq!(
        OpFullyConnected::parser(&none),
        Ok(BLiteBuiltinOption::FullyConnectedOptions { op_code: -1, activation: None })
    );
}

#[test]
fn fully_connected_registration_and_operator() {
    let reg = OpFullyConnected::regstration();
    assert_eq!(reg.op_code, 9);
    assert_eq!(reg.eval, BLiteKernel::FullyConnected);
    assert_eq!(reg.builtin_option, BLiteBuiltinOption::NotInitialize);
    let op = OpFullyConnected::fully_connected();
    assert_eq!(op.registration.op_code, 9);
    assert_eq!(op.parser, BLiteKernel::FullyConnected);
}

#[test]
fn relu_and_activation_range() {
    assert_eq!(relu(-3), 0);
    assert_eq!(relu(0), 0);
    assert_eq!(relu(5), 5);
    assert_eq!(activation_with_min_max(9, 0, 6), 6);
    assert_eq!(activation_with_min_max(-9, 0, 6), 0);
    assert_eq!(activation_with_min_max(4, 0, 6), 4);
    // an unordered range yields its upper end
    assert_eq!(activation_with_min_max(4, 6, 0), 0);
}

#[test]
fn fused_activation_ranges() {
    assert_eq!(calculate_fused_activation_range(0), Ok((i32::MIN, i32::MAX)));
    assert_eq!(calculate_fused_activation_range(1), Ok((0, i32::MAX)));
    assert_eq!(calculate_fused_activation_range(2), Ok((-1, 1)));
    assert_eq!(calculate_fused_activation_range(3), Ok((0, 6)));
    assert_eq!(calculate_fused_activation_range(4), Ok((i32::MIN, i32::MAX)));
    assert_eq!(calculate_fused_activation_range(5), Ok((i32::MIN, i32::MAX)));
    assert_eq!(calculate_fused_activation_range(6), Err(BLiteError::NotFoundFusedActivation));
    assert_eq!(calculate_fused_activation_range(-1), Err(BLiteError::NotFoundFusedActivation));
}

#[test]
fn paddings() {
    assert_eq!(compute_padding_with_offset(1, 1, 3, 3, 3), (1, 0));
    assert_eq!(compute_padding_with_offset(2, 1, 4, 3, 2), (0, 1));
    assert_eq!(compute_padding_with_offset(2, 1, 4, 2, 2), (0, 0));
    // a dilated filter covers more input
    assert_eq!(compute_padding_with_offset(1, 2, 5, 3, 5), (2, 0));
    // padding is never negative
    assert_eq!(compute_padding_with_offset(1, 1, 10, 1, 2), (0, 0));
    assert_eq!(compute_padding_height_width(0, 1, 2, 1, 1, 3, 4, 3, 3, 3, 2), (0, 1, 1, 0));
}
