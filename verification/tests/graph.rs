use berrylite::kernel::micro_builtin_options::BLiteBuiltinOption;
use berrylite::kernel::micro_operator::max_pool2d::OpMaxPool2D;
use berrylite::kernel::micro_operator::op_fully_connected::OpFullyConnected;
use berrylite::micro_allocator::{ArenaAllocator, BumpArenaAllocator};
use berrylite::micro_array::BLiteArray;
use berrylite::micro_errors::BLiteError;
use berrylite::micro_graph::BLiteSubgraph;
use berrylite::micro_node::BLiteNode;
use berrylite::micro_op_resolver::BLiteOpResolver;
use berrylite::micro_registration::{BLiteKernel, BLiteRegistration};
use berrylite::micro_slice::from_tflite_vector;
use berrylite::tflite_model::{
    TfLiteBuffer, TfLiteBuiltinOptions, TfLiteOperator, TfLiteOperatorCode, TfLiteSubGraph, TfLiteTensor,
};

fn fb_vector(items: &[i32]) -> Vec<u8> {
    let mut builder = flatbuffers::FlatBufferBuilder::new();
    let v = builder.create_vector(items);
    builder.finish_minimal(v);
    builder.finished_data().to_vec()
}

fn view(bytes: &[u8]) -> flatbuffers::Vector<'_, i32> {
    flatbuffers::root::<flatbuffers::Vector<i32>>(bytes).unwrap()
}

fn resolver() -> BLiteOpResolver<2> {
    let mut r = BLiteOpResolver::<2>::new();
    r.add_op(OpFullyConnected::fully_connected()).unwrap();
    r.add_op(OpMaxPool2D::max_pool2d()).unwrap();
    r
}

#[test]
fn resolver_finds_added_operators() {
    let mut r = resolver();
    assert_eq!(r.add_op(OpMaxPool2D::max_pool2d()), Err(BLiteError::OpIndexOutOfBound));
    assert_eq!(r.find_op(&17).unwrap().registration.eval, BLiteKernel::MaxPool2D);
    assert_eq!(r.find_op(&9).unwrap().registration.eval, BLiteKernel::FullyConnected);
    assert_eq!(r.find_op(&3).unwrap_err(), BLiteError::NotFoundOperator);
}

#[test]
fn resolver_prefers_the_first_operator_of_a_code() {
    let mut r = BLiteOpResolver::<3>::new();
    let mut first = OpMaxPool2D::max_pool2d();
    first.registration.builtin_option = BLiteBuiltinOption::ReshapeOptions {};
    r.add_op(first).unwrap();
    r.add_op(OpMaxPool2D::max_pool2d()).unwrap();
    assert_eq!(
        r.find_op(&17).unwrap().registration.builtin_option,
        BLiteBuiltinOption::ReshapeOptions {}
    );
}

#[test]
fn vectors_and_nodes_copy_indices() {
    let a = fb_vector(&[3, 1, 4]);
    let b = fb_vector(&[]);
    assert_eq!(from_tflite_vector(&view(&a)), vec![3, 1, 4]);
    assert_eq!(from_tflite_vector(&view(&b)), Vec::<i32>::new());
    let node = BLiteSubgraph::allocate_node(&view(&a), &view(&b)).unwrap();
    assert_eq!(node.inputs, vec![3, 1, 4]);
    assert_eq!(node.outputs, Vec::<i32>::new());
}

#[test]
fn array_from_buffer_with_data_takes_its_elements() {
    let shape = fb_vector(&[2, 2]);
    let buffer = TfLiteBuffer { data: Some(vec![1, 2, 3, 4, 5]) };
    let mut allocator = BumpArenaAllocator::new(0x100, 64);
    let t = BLiteArray::from_tflite_buffer(&mut allocator, &buffer, &view(&shape)).unwrap();
    assert_eq!(t.data, vec![1, 2, 3, 4]);
    assert_eq!(t.dims, vec![2, 2]);
    assert_eq!(allocator.description(), Ok((64, 0x100)));
}

#[test]
fn array_from_empty_buffer_reserves_zeros_in_the_arena() {
    let shape = fb_vector(&[1, 3]);
    let buffer = TfLiteBuffer { data: None };
    let mut allocator = BumpArenaAllocator::new(0x100, 64);
    let t = BLiteArray::from_tflite_buffer(&mut allocator, &buffer, &view(&shape)).unwrap();
    assert_eq!(t.data, vec![0, 0, 0]);
    assert_eq!(t.dims, vec![1, 3]);
    assert_eq!(allocator.description(), Ok((64, 0x10c)));
    let mut small = BumpArenaAllocator::new(0x100, 8);
    assert_eq!(
        BLiteArray::from_tflite_buffer(&mut small, &buffer, &view(&shape)).unwrap_err(),
        BLiteError::FailedToAllocateMemory
    );
    assert_eq!(small.description(), Ok((8, 0x100)));
}

fn operator<'a>(opcode_index: u32, inputs: &'a [u8], outputs: &'a [u8]) -> TfLiteOperator<'a> {
    TfLiteOperator {
        opcode_index,
        inputs: Some(view(inputs)),
        outputs: Some(view(outputs)),
        builtin_options: TfLiteBuiltinOptions::NoOptions,
    }
}

#[test]
fn registration_comes_from_the_first_operator() {
    let r = resolver();
    let i = fb_vector(&[0]);
    let o = fb_vector(&[1]);
    let codes = vec![TfLiteOperatorCode { builtin_code: 17 }, TfLiteOperatorCode { builtin_code: 9 }];
    let ops = vec![operator(0, &i, &o), operator(1, &i, &o)];
    let reg = BLiteSubgraph::alloc_regstration(&r, &ops, &codes).unwrap();
    assert_eq!(reg.eval, BLiteKernel::MaxPool2D);
    assert_eq!(
        BLiteSubgraph::alloc_regstration(&r, &Vec::new(), &codes).unwrap_err(),
        BLiteError::NotFoundRegistration
    );
    let far = vec![operator(5, &i, &o)];
    assert_eq!(
        BLiteSubgraph::alloc_regstration(&r, &far, &codes).unwrap_err(),
        BLiteError::MissingRegistration
    );
    let unknown = vec![TfLiteOperatorCode { builtin_code: 3 }];
    assert_eq!(
        BLiteSubgraph::alloc_regstration(&r, &ops, &unknown).unwrap_err(),
        BLiteError::NotFoundOperator
    );
}

#[test]
fn nodes_and_registrations_for_every_operator() {
    let r = resolver();
    let i = fb_vector(&[0, 2]);
    let o = fb_vector(&[1]);
    let o2 = fb_vector(&[3]);
    let codes = vec![TfLiteOperatorCode { builtin_code: 9 }, TfLiteOperatorCode { builtin_code: 17 }];
    let ops = vec![operator(0, &i, &o), operator(1, &o, &o2)];
    let mut allocator = BumpArenaAllocator::new(0, 4096);
    let nodes = BLiteSubgraph::allocate_node_and_regstrations(&r, &mut allocator, &ops, &codes).unwrap();
    assert_eq!(nodes.len(), 2);
    assert_eq!(nodes[0].0.inputs, vec![0, 2]);
    assert_eq!(nodes[1].0.inputs, vec![1]);
    assert_eq!(nodes[1].0.outputs, vec![3]);
    // every node gets the registration of the first operator's code
    assert_eq!(nodes[0].1.eval, BLiteKernel::FullyConnected);
    assert_eq!(nodes[1].1.eval, BLiteKernel::FullyConnected);
    let table = std::mem::size_of::<(BLiteNode, BLiteRegistration)>() * 2;
    assert_eq!(allocator.description(), Ok((4096, table)));
    let mut tiny = BumpArenaAllocator::new(0, 1);
    assert_eq!(
        BLiteSubgraph::allocate_node_and_regstrations(&r, &mut tiny, &ops, &codes).unwrap_err(),
        BLiteError::FailedToAllocateMemory
    );
}

#[test]
fn eval_tensors_are_built_from_buffers_and_shapes() {
    let s0 = fb_vector(&[1, 2]);
    let s1 = fb_vector(&[2]);
    let subgraph = TfLiteSubGraph {
        tensors: Some(vec![
            TfLiteTensor { buffer: 1, shape: Some(view(&s0)) },
            TfLiteTensor { buffer: 0, shape: Some(view(&s1)) },
        ]),
    };
    let buffers = vec![TfLiteBuffer { data: None }, TfLiteBuffer { data: Some(vec![7, 8, 9]) }];
    let mut allocator = BumpArenaAllocator::new(0, 4096);
    let tensors = BLiteSubgraph::allocate_eval_tensors(&mut allocator, &subgraph, &buffers).unwrap();
    assert_eq!(tensors.len(), 2);
    assert_eq!(tensors[0].data, vec![7, 8]);
    assert_eq!(tensors[0].dims, vec![1, 2]);
    assert_eq!(tensors[1].data, vec![0, 0]);
    let table = std::mem::size_of::<BLiteArray>() * 2;
    let start = BumpArenaAllocator::align_up(table, std::mem::align_of::<i32>());
    assert_eq!(allocator.description(), Ok((4096, start + 8)));
}

#[test]
fn eval_tensors_fail_when_the_arena_is_too_small() {
    let s1 = fb_vector(&[1024]);
    let subgraph = TfLiteSubGraph { tensors: Some(vec![TfLiteTensor { buffer: 0, shape: Some(view(&s1)) }]) };
    let buffers = vec![TfLiteBuffer { data: None }];
    let mut allocator = BumpArenaAllocator::new(0, 256);
    assert_eq!(
        BLiteSubgraph::allocate_eval_tensors(&mut allocator, &subgraph, &buffers).unwrap_err(),
        BLiteError::FailedToAllocateMemory
    );
    let mut none = BumpArenaAllocator::new(0, 0);
    assert_eq!(
        BLiteSubgraph::allocate_eval_tensors(&mut none, &subgraph, &buffers).unwrap_err(),
        BLiteError::FailedToAllocateMemory
    );
}

#[test]
fn subgraph_is_allocated_and_invoked() {
    let r = resolver();
    let s_in = fb_vector(&[1, 4, 4, 1]);
    let s_out = fb_vector(&[1, 2, 2, 1]);
    let subgraph = TfLiteSubGraph {
        tensors: Some(vec![
            TfLiteTensor { buffer: 1, shape: Some(view(&s_in)) },
            TfLiteTensor { buffer: 0, shape: Some(view(&s_out)) },
        ]),
    };
    let buffers = vec![TfLiteBuffer { data: None }, TfLiteBuffer { data: Some((1..=16).collect()) }];
    let i = fb_vector(&[0]);
    let o = fb_vector(&[1]);
    let ops = vec![operator(0, &i, &o)];
    let codes = vec![TfLiteOperatorCode { builtin_code: 17 }];
    let mut allocator = BumpArenaAllocator::new(0, 4096);
    let mut graph =
        BLiteSubgraph::allocate_subgraph(&mut allocator, &r, &subgraph, &ops, &codes, &buffers).unwrap();
    assert_eq!(graph.tensors[1].data, vec![0; 4]);
    assert_eq!(graph.node_and_regstrations.len(), 1);
    // the registration still carries no options, so max pooling refuses to run
    assert_eq!(graph.invoke(), Err(BLiteError::NotCompatibleOption));
    graph.node_and_regstrations[0].1.builtin_option = BLiteBuiltinOption::MaxPool2DOptions {
        op_code: 0,
        fused_activation_min: i32::MIN,
        fused_activation_max: i32::MAX,
        padding: 1,
        stride_w: 2,
        stride_h: 2,
        filter_w: 2,
        filter_h: 2,
        padding_w: 0,
        padding_h: 0,
        padding_w_offset: 0,
        padding_h_offset: 0,
    };
    assert_eq!(graph.invoke(), Ok(()));
    assert_eq!(graph.tensors[1].data, vec![6, 8, 14, 16]);
}

#[test]
fn invoke_runs_in_order_and_stops_at_the_first_error() {
    let tensors = vec![
        BLiteArray { data: vec![1, 2], dims: vec![1, 2] },
        BLiteArray { data: vec![1, 1, 1, 0], dims: vec![2, 2] },
        BLiteArray { data: vec![0, 0], dims: vec![2] },
        BLiteArray { data: vec![0, 0], dims: vec![1, 2] },
        BLiteArray { data: vec![0, 0], dims: vec![1, 2] },
    ];
    let fc = |options| BLiteRegistration::new(9, BLiteKernel::FullyConnected, options);
    let run = BLiteBuiltinOption::FullyConnectedOptions { op_code: 0, activation: None };
    let nodes = vec![
        (BLiteNode { inputs: vec![0, 1, 2], outputs: vec![3] }, fc(run)),
        (BLiteNode { inputs: vec![3, 1, 2], outputs: vec![4] }, fc(BLiteBuiltinOption::NotInitialize)),
        (BLiteNode { inputs: vec![0, 1, 2], outputs: vec![4] }, fc(run)),
    ];
    let mut graph = BLiteSubgraph::new(nodes, tensors);
    assert_eq!(graph.invoke(), Err(BLiteError::NotInitializeActivation));
    assert_eq!(graph.tensors[3].data, vec![3, 4]);
    assert_eq!(graph.tensors[4].data, vec![0, 0]);
    graph.node_and_regstrations[1].1.builtin_option = run;
    assert_eq!(graph.invoke(), Ok(()));
    // the last node writes over the second node's output with the first node's result
    assert_eq!(graph.tensors[4].data, vec![3, 4]);
}

#[test]
fn node_errors_come_before_operand_lists_are_read() {
    let r = resolver();
    let i = fb_vector(&[0]);
    let o = fb_vector(&[1]);
    let bare = TfLiteOperator {
        opcode_index: 0,
        inputs: None,
        outputs: None,
        builtin_options: TfLiteBuiltinOptions::NoOptions,
    };
    // the registration lookup fails on the first operator before the second is read
    let ops = vec![operator(0, &i, &o), bare];
    let unknown = vec![TfLiteOperatorCode { builtin_code: 3 }];
    let mut allocator = BumpArenaAllocator::new(0, 4096);
    assert_eq!(
        BLiteSubgraph::allocate_node_and_regstrations(&r, &mut allocator, &ops, &unknown).unwrap_err(),
        BLiteError::NotFoundOperator
    );
    // the node table does not fit, so no operator is read
    let only_bare = vec![TfLiteOperator { opcode_index: 0, inputs: None, outputs: None, builtin_options: TfLiteBuiltinOptions::NoOptions }];
    let mut tiny = BumpArenaAllocator::new(0, 1);
    assert_eq!(
        BLiteSubgraph::allocate_node_and_regstrations(&r, &mut tiny, &only_bare, &unknown).unwrap_err(),
        BLiteError::FailedToAllocateMemory
    );
}
