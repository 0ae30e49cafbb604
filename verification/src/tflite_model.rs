use vstd::prelude::*;

verus! {

/// The builtin options of a model operator, with the fields the runtime reads.
#[derive(Debug, Clone, Copy, PartialEq, Eq, Structural)]
pub enum TfLiteBuiltinOptions {
    NoOptions,
    FullyConnectedOptions { fused_activation_function: i8 },
    Pool2DOptions {
        padding: i8,
        stride_w: i32,
        stride_h: i32,
        filter_width: i32,
        filter_height: i32,
        fused_activation_function: i8,
    },
    OtherOptions,
}

/// An operator of a model subgraph.
#[derive(Clone, Copy)]
pub struct TfLiteOperator<'a> {
    pub opcode_index: u32,
    pub inputs: Option<flatbuffers::Vector<'a, i32>>,
    pub outputs: Option<flatbuffers::Vector<'a, i32>>,
    pub builtin_options: TfLiteBuiltinOptions,
}

/// An entry of a model's operator code table.
#[derive(Debug, Clone, Copy, PartialEq, Eq, Structural)]
pub struct TfLiteOperatorCode {
    pub builtin_code: i32,
}

/// A model buffer, with its contents read as elements.
#[derive(Debug)]
pub struct TfLiteBuffer {
    pub data: Option<Vec<i32>>,
}

/// A tensor of a model subgraph: the buffer that holds its constant data and its shape.
#[derive(Clone, Copy)]
pub struct TfLiteTensor<'a> {
    pub buffer: u32,
    pub shape: Option<flatbuffers::Vector<'a, i32>>,
}

/// A model subgraph, with the part the runtime reads.
pub struct TfLiteSubGraph<'a> {
    pub tensors: Option<Vec<TfLiteTensor<'a>>>,
}

} // verus!
