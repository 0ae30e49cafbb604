use vstd::prelude::*;
use crate::kernel::micro_operator::max_pool2d::in_i32;

verus! {

/// The padding before the input along one axis, and the extra padding after it, that
/// centre `out_size` windows of a dilated filter on `in_size` input elements.
pub open spec fn spec_padding_with_offset(
    stride: int,
    dilation_rate: int,
    in_size: int,
    filter_size: int,
    out_size: int,
) -> (int, int) {
    let effective_filter_size = (filter_size - 1) * dilation_rate + 1;
    let total_padding = (out_size - 1) * stride + effective_filter_size - in_size;
    let total_padding = if total_padding > 0 {
        total_padding
    } else {
        0
    };
    (total_padding / 2, total_padding % 2)
}

/// Every intermediate value of `spec_padding_with_offset`, evaluated left to right, fits
/// in `i32`.
pub open spec fn padding_computable(
    stride: int,
    dilation_rate: int,
    in_size: int,
    filter_size: int,
    out_size: int,
) -> bool {
    &&& in_i32(filter_size - 1)
    &&& in_i32((filter_size - 1) * dilation_rate)
    &&& in_i32((filter_size - 1) * dilation_rate + 1)
    &&& in_i32(out_size - 1)
    &&& in_i32((out_size - 1) * stride)
    &&& in_i32((out_size - 1) * stride + ((filter_size - 1) * dilation_rate + 1))
    &&& in_i32((out_size - 1) * stride + ((filter_size - 1) * dilation_rate + 1) - in_size)
}

/// The padding along one axis and its odd remainder.
pub fn compute_padding_with_offset(
    stride: i32,
    dilation_rate: i32,
    in_size: i32,
    filter_size: i32,
    out_size: i32,
) -> (r: (i32, i32))
    requires
        padding_computable(
            stride as int,
            dilation_rate as int,
            in_size as int,
            filter_size as int,
            out_size as int,
        ),
    ensures
        (r.0 as int, r.1 as int) == spec_padding_with_offset(
            stride as int,
            dilation_rate as int,
            in_size as int,
            filter_size as int,
            out_size as int,
        ),
{
    let effective_filter_size = (filter_size - 1) * dilation_rate + 1;
    let total_padding = (out_size - 1) * stride + effective_filter_size - in_size;
    let total_padding = if total_padding > 0 {
        total_padding
    } else {
        0
    };
    (total_padding / 2, total_padding % 2)
}

/// The paddings of a 2-D window operator whose output extents are given: returns
/// `(padding_w, padding_w_offset, padding_h, padding_h_offset)`. The padding kind only
/// decides output extents, which the caller already knows.
pub fn compute_padding_height_width(
    _padding: usize,
    stride_h: i32,
    stride_w: i32,
    dilation_h_factor: i32,
    dilation_w_factor: i32,
    in_height: i32,
    in_width: i32,
    filter_height: i32,
    filter_width: i32,
    out_height: i32,
    out_width: i32,
) -> (r: (i32, i32, i32, i32))
    requires
        padding_computable(
            stride_w as int,
            dilation_w_factor as int,
            in_width as int,
            filter_width as int,
            out_width as int,
        ),
        padding_computable(
            stride_h as int,
            dilation_h_factor as int,
            in_height as int,
            filter_height as int,
            out_height as int,
        ),
    ensures
        (r.0 as int, r.1 as int) == spec_padding_with_offset(
            stride_w as int,
            dilation_w_factor as int,
            in_width as int,
            filter_width as int,
            out_width as int,
        ),
        (r.2 as int, r.3 as int) == spec_padding_with_offset(
            stride_h as int,
            dilation_h_factor as int,
            in_height as int,
            filter_height as int,
            out_height as int,
        ),
{
    let (padding_w, padding_w_offset) = compute_padding_with_offset(
        stride_w,
        dilation_w_factor,
        in_width,
        filter_width,
        out_width,
    );
    let (padding_h, padding_h_offset) = compute_padding_with_offset(
        stride_h,
        dilation_h_factor,
        in_height,
        filter_height,
        out_height,
    );
    (padding_w, padding_w_offset, padding_h, padding_h_offset)
}

} // verus!
