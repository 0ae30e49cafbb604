use vstd::prelude::*;

verus! {

/// The activation function an operator applies to its results.
#[derive(Debug, Clone, Copy, PartialEq, Eq, Structural)]
pub enum BLiteActivation {
    /// `max(x, 0)`.
    Relu,
}

/// The parameters an operator was built with.
#[derive(Debug, Clone, Copy, PartialEq, Eq, Structural)]
pub enum BLiteBuiltinOption {
    FullyConnectedOptions { op_code: i32, activation: Option<BLiteActivation> },
    Conv2DOptions {
        op_code: i32,
        activation: Option<BLiteActivation>,
        padding: usize,
        stride_w: i32,
        stride_h: i32,
        dilation_w_factor: i32,
        dilation_h_factor: i32,
    },
    MaxPool2DOptions {
        op_code: i32,
        fused_activation_min: i32,
        fused_activation_max: i32,
        padding: usize,
        stride_w: i32,
        stride_h: i32,
        filter_w: i32,
        filter_h: i32,
        padding_w: i32,
        padding_h: i32,
        padding_w_offset: i32,
        padding_h_offset: i32,
    },
    ReshapeOptions {},
    NotInitialize,
}

} // verus!
