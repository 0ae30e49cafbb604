use berrylite::kernel::micro_builtin_options::BLiteBuiltinOption;
use berrylite::kernel::micro_operator::max_pool2d::OpMaxPool2D;
use berrylite::micro_allocator::BumpArenaAllocator;
use berrylite::micro_array::BLiteArray;
use berrylite::micro_context::BLiteContext;
use berrylite::micro_errors::BLiteError;
use berrylite::micro_node::BLiteNode;
use berrylite::micro_registration::BLiteKernel;
use berrylite::tflite_model::{TfLiteBuiltinOptions, TfLiteOperator};

fn run_kernel(
    input: &[i32],
    output: &mut [i32],
    in_hwd: (i32, i32, i32),
    out_hwd: (i32, i32, i32),
    stride: (i32, i32),
    filter: (i32, i32),
    padding: (i32, i32),
    batches: i32,
    range: (i32, i32),
) -> Result<(), BLiteError> {
    OpMaxPool2D::kernel(
        input, output, in_hwd.0, in_hwd.1, in_hwd.2, out_hwd.0, out_hwd.1, out_hwd.2, stride.0,
        stride.1, filter.0, filter.1, padding.0, padding.1, batches, range.0, range.1,
    )
}

const FULL: (i32, i32) = (i32::MIN, i32::MAX);

#[test]
fn kernel_pools_two_by_two_windows() {
    let input: Vec<i32> = (1..=16).collect();
    let mut output = vec![0; 4];
    let r = run_kernel(&input, &mut output, (4, 4, 1), (2, 2, 1), (2, 2), (2, 2), (0, 0), 1, FULL);
    assert_eq!(r, Ok(()));
    assert_eq!(output, vec![6, 8, 14, 16]);
}

#[test]
fn kernel_applies_activation_range() {
    let input: Vec<i32> = (1..=16).collect();
    let mut output = vec![0; 4];
    let r = run_kernel(&input, &mut output, (4, 4, 1), (2, 2, 1), (2, 2), (2, 2), (0, 0), 1, (0, 6));
    assert_eq!(r, Ok(()));
    assert_eq!(output, vec![6, 6, 6, 6]);
    let negative: Vec<i32> = (1..=16).map(|v| -v).collect();
    let mut output = vec![0; 4];
    run_kernel(&negative, &mut output, (4, 4, 1), (2, 2, 1), (2, 2), (2, 2), (0, 0), 1, (-1, 1)).unwrap();
    assert_eq!(output, vec![-1, -1, -1, -1]);
}

#[test]
fn kernel_clips_windows_at_padded_borders() {
    let input: Vec<i32> = (1..=9).collect();
    let mut output = vec![0; 9];
    let r = run_kernel(&input, &mut output, (3, 3, 1), (3, 3, 1), (1, 1), (3, 3), (1, 1), 1, FULL);
    assert_eq!(r, Ok(()));
    assert_eq!(output, vec![5, 6, 6, 8, 9, 9, 8, 9, 9]);
}

#[test]
fn kernel_empty_window_gives_lowest_value() {
    let input = vec![7];
    let mut output = vec![3];
    run_kernel(&input, &mut output, (1, 1, 1), (1, 1, 1), (1, 1), (1, 1), (5, 0), 1, FULL).unwrap();
    assert_eq!(output, vec![i32::MIN]);
    let mut output = vec![3];
    run_kernel(&input, &mut output, (1, 1, 1), (1, 1, 1), (1, 1), (1, 1), (5, 0), 1, (0, 6)).unwrap();
    assert_eq!(output, vec![0]);
}

#[test]
fn kernel_pools_each_channel_and_batch() {
    // two batches of a 2x2 image with two channels
    let input = vec![1, 10, 2, 20, 3, 30, 4, 40, 5, -1, 8, -2, 6, -3, 7, -4];
    let mut output = vec![0; 4];
    run_kernel(&input, &mut output, (2, 2, 2), (1, 1, 2), (2, 2), (2, 2), (0, 0), 2, FULL).unwrap();
    assert_eq!(output, vec![4, 40, 8, -1]);
}

#[test]
fn kernel_leaves_elements_past_the_output_alone() {
    let input: Vec<i32> = (1..=16).collect();
    let mut output = vec![-5; 6];
    run_kernel(&input, &mut output, (4, 4, 1), (2, 2, 1), (2, 2), (2, 2), (0, 0), 1, FULL).unwrap();
    assert_eq!(output, vec![6, 8, 14, 16, -5, -5]);
}

#[test]
fn kernel_with_no_batches_writes_nothing() {
    let input: Vec<i32> = (1..=16).collect();
    let mut output = vec![-5; 4];
    run_kernel(&input, &mut output, (4, 4, 1), (2, 2, 1), (2, 2), (2, 2), (0, 0), 0, FULL).unwrap();
    assert_eq!(output, vec![-5; 4]);
}

fn pool_options(range: (i32, i32)) -> BLiteBuiltinOption {
    BLiteBuiltinOption::MaxPool2DOptions {
        op_code: 0,
        fused_activation_min: range.0,
        fused_activation_max: range.1,
        padding: 1,
        stride_w: 2,
        stride_h: 2,
        filter_w: 2,
        filter_h: 2,
        padding_w: 0,
        padding_h: 0,
        padding_w_offset: 0,
        padding_h_offset: 0,
    }
}

fn pool_tensors() -> Vec<BLiteArray> {
    vec![
        BLiteArray { data: (1..=16).collect(), dims: vec![1, 4, 4, 1] },
        BLiteArray { data: vec![0; 4], dims: vec![1, 2, 2, 1] },
    ]
}

#[test]
fn eval_pools_input_into_output() {
    let mut tensors = pool_tensors();
    let node = BLiteNode { inputs: vec![0], outputs: vec![1] };
    let r = OpMaxPool2D::eval(&BLiteContext::new(), &mut tensors, &node, pool_options(FULL));
    assert_eq!(r, Ok(()));
    assert_eq!(tensors[1].data, vec![6, 8, 14, 16]);
    assert_eq!(tensors[1].dims, vec![1, 2, 2, 1]);
    assert_eq!(tensors[0].data, (1..=16).collect::<Vec<i32>>());
}

#[test]
fn eval_rejects_other_options() {
    let mut tensors = pool_tensors();
    let node = BLiteNode { inputs: vec![0], outputs: vec![1] };
    let r = OpMaxPool2D::eval(&BLiteContext::new(), &mut tensors, &node, BLiteBuiltinOption::NotInitialize);
    assert_eq!(r, Err(BLiteError::NotCompatibleOption));
    assert_eq!(tensors[1].data, vec![0; 4]);
}

#[test]
fn max_pool_registration_and_operator() {
    let reg = OpMaxPool2D::registration();
    assert_eq!(reg.op_code, 17);
    assert_eq!(reg.eval, BLiteKernel::MaxPool2D);
    assert_eq!(reg.builtin_option, BLiteBuiltinOption::NotInitialize);
    let op = OpMaxPool2D::max_pool2d();
    assert_eq!(op.registration.op_code, 17);
    assert_eq!(op.parser, BLiteKernel::MaxPool2D);
    assert_eq!(op.get_regstration().op_code, 17);
}

fn fb_vector(items: &[i32]) -> Vec<u8> {
    let mut builder = flatbuffers::FlatBufferBuilder::new();
    let v = builder.create_vector(items);
    builder.finish_minimal(v);
    builder.finished_data().to_vec()
}

fn pool_operator<'a>(inputs: &'a [u8], outputs: &'a [u8], options: TfLiteBuiltinOptions) -> TfLiteOperator<'a> {
    TfLiteOperator {
        opcode_index: 0,
        inputs: Some(flatbuffers::root::<flatbuffers::Vector<i32>>(inputs).unwrap()),
        outputs: Some(flatbuffers::root::<flatbuffers::Vector<i32>>(outputs).unwrap()),
        builtin_options: options,
    }
}

#[test]
fn parser_reads_pool_options_and_paddings() {
    let inputs = fb_vector(&[0]);
    let outputs = fb_vector(&[1]);
    let op = pool_operator(
        &inputs,
        &outputs,
        TfLiteBuiltinOptions::Pool2DOptions {
            padding: 1,
            stride_w: 2,
            stride_h: 2,
            filter_width: 2,
            filter_height: 2,
            fused_activation_function: 0,
        },
    );
    let tensors = pool_tensors();
    let mut allocator = BumpArenaAllocator::new(0, 64);
    let r = OpMaxPool2D::parser(&mut allocator, &op, &tensors);
    assert_eq!(r, Ok(pool_options(FULL)));
}

#[test]
fn parser_computes_same_paddings() {
    let inputs = fb_vector(&[0]);
    let outputs = fb_vector(&[1]);
    // 4 wide input to 2 wide output with a 3 wide filter and stride 2: total padding 1
    // 3 high input to 3 high output with a 3 high filter and stride 1: total padding 2
    let op = pool_operator(
        &inputs,
        &outputs,
        TfLiteBuiltinOptions::Pool2DOptions {
            padding: 0,
            stride_w: 2,
            stride_h: 1,
            filter_width: 3,
            filter_height: 3,
            fused_activation_function: 3,
        },
    );
    let tensors = vec![
        BLiteArray { data: vec![0; 12], dims: vec![1, 3, 4, 1] },
        BLiteArray { data: vec![0; 6], dims: vec![1, 3, 2, 1] },
    ];
    let mut allocator = BumpArenaAllocator::new(0, 64);
    let r = OpMaxPool2D::parser(&mut allocator, &op, &tensors);
    assert_eq!(
        r,
        Ok(BLiteBuiltinOption::MaxPool2DOptions {
            op_code: 3,
            fused_activation_min: 0,
            fused_activation_max: 6,
            padding: 0,
            stride_w: 2,
            stride_h: 1,
            filter_w: 3,
            filter_h: 3,
            padding_w: 0,
            padding_h: 1,
            padding_w_offset: 1,
            padding_h_offset: 0,
        })
    );
}

#[test]
fn parser_errors() {
    let inputs = fb_vector(&[0]);
    let outputs = fb_vector(&[1]);
    let tensors = pool_tensors();
    let mut allocator = BumpArenaAllocator::new(0, 64);
    let no_options = pool_operator(&inputs, &outputs, TfLiteBuiltinOptions::NoOptions);
    assert_eq!(OpMaxPool2D::parser(&mut allocator, &no_options, &tensors), Err(BLiteError::NotFoundOption));
    let unknown_activation = pool_operator(
        &inputs,
        &outputs,
        TfLiteBuiltinOptions::Pool2DOptions {
            padding: 1,
            stride_w: 2,
            stride_h: 2,
            filter_width: 2,
            filter_height: 2,
            fused_activation_function: 9,
        },
    );
    assert_eq!(
        OpMaxPool2D::parser(&mut allocator, &unknown_activation, &tensors),
        Err(BLiteError::NotFoundFusedActivation)
    );
}

#[test]
fn parsed_options_drive_eval() {
    let inputs = fb_vector(&[0]);
    let outputs = fb_vector(&[1]);
    let op = pool_operator(
        &inputs,
        &outputs,
        TfLiteBuiltinOptions::Pool2DOptions {
            padding: 1,
            stride_w: 2,
            stride_h: 2,
            filter_width: 2,
            filter_height: 2,
            fused_activation_function: 3,
        },
    );
    let mut tensors = pool_tensors();
    let mut allocator = BumpArenaAllocator::new(0, 64);
    let options = OpMaxPool2D::parser(&mut allocator, &op, &tensors).unwrap();
    let node = BLiteNode { inputs: vec![0], outputs: vec![1] };
    OpMaxPool2D::eval(&BLiteContext::new(), &mut tensors, &node, options).unwrap();
    assert_eq!(tensors[1].data, vec![6, 6, 6, 6]);
}

#[test]
fn kernel_is_monotone_in_its_input() {
    let low: Vec<i32> = vec![1, 5, 2, 0, 3, 3, 9, -4, 0, 0, 1, 1, 7, 2, 2, 8];
    let high: Vec<i32> = low.iter().enumerate().map(|(k, v)| v + (k as i32 % 3)).collect();
    let mut out_low = vec![0; 4];
    let mut out_high = vec![0; 4];
    run_kernel(&low, &mut out_low, (4, 4, 1), (2, 2, 1), (2, 2), (2, 2), (0, 0), 1, (0, 6)).unwrap();
    run_kernel(&high, &mut out_high, (4, 4, 1), (2, 2, 1), (2, 2), (2, 2), (0, 0), 1, (0, 6)).unwrap();
    for j in 0..4 {
        assert!(out_low[j] <= out_high[j]);
    }
}

#[test]
fn kernel_with_unit_window_is_identity() {
    let input: Vec<i32> = vec![i32::MIN, -3, 0, 4, i32::MAX, 7, 1, -1, 2, 5, 6, -8];
    let mut output = vec![0; 12];
    let r = run_kernel(&input, &mut output, (2, 3, 2), (2, 3, 2), (1, 1), (1, 1), (0, 0), 1, FULL);
    assert_eq!(r, Ok(()));
    assert_eq!(output, input);
}

#[test]
fn eval_ignores_code_padding_kind_and_offsets() {
    let node = BLiteNode { inputs: vec![0], outputs: vec![1] };
    let mut first = pool_tensors();
    OpMaxPool2D::eval(&BLiteContext::new(), &mut first, &node, pool_options(FULL)).unwrap();
    let other = BLiteBuiltinOption::MaxPool2DOptions {
        op_code: 5,
        fused_activation_min: i32::MIN,
        fused_activation_max: i32::MAX,
        padding: 0,
        stride_w: 2,
        stride_h: 2,
        filter_w: 2,
        filter_h: 2,
        padding_w: 0,
        padding_h: 0,
        padding_w_offset: 1,
        padding_h_offset: 1,
    };
    let mut second = pool_tensors();
    OpMaxPool2D::eval(&BLiteContext::new(), &mut second, &node, other).unwrap();
    assert_eq!(first[1].data, second[1].data);
}
