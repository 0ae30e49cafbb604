use vstd::prelude::*;
use crate::micro_errors::BLiteError;

verus! {

/// `x` clamped from below by `output_activation_min`, then from above by
/// `output_activation_max`.
pub open spec fn spec_activation_with_min_max(
    x: i32,
    output_activation_min: i32,
    output_activation_max: i32,
) -> i32 {
    let lower_bounded = if x > output_activation_min {
        x
    } else {
        output_activation_min
    };
    if lower_bounded < output_activation_max {
        lower_bounded
    } else {
        output_activation_max
    }
}

/// Applies a fused activation given by its range: `min(max(x, min), max)`.
pub fn activation_with_min_max(x: i32, output_activation_min: i32, output_activation_max: i32) -> (r:
    i32)
    ensures
        r == spec_activation_with_min_max(x, output_activation_min, output_activation_max),
{
    let lower_bounded = if x > output_activation_min {
        x
    } else {
        output_activation_min
    };
    if lower_bounded < output_activation_max {
        lower_bounded
    } else {
        output_activation_max
    }
}

/// The range `(min, max)` that a fused activation function clamps to, by its code in
/// the model: none, ReLU, ReLU clipped to [-1, 1], ReLU6; tanh and sign bit leave the
/// range whole. Codes outside the model's enumeration have no range.
pub open spec fn spec_fused_activation_range(op_code: i32) -> Result<(i32, i32), BLiteError> {
    if op_code == 1 {
        Ok((0, i32::MAX))
    } else if op_code == 3 {
        Ok((0, 6))
    } else if op_code == 2 {
        Ok((-1i32, 1i32))
    } else if 0 <= op_code <= 5 {
        Ok((i32::MIN, i32::MAX))
    } else {
        Err(BLiteError::NotFoundFusedActivation)
    }
}

/// The range a fused activation function clamps to.
pub fn calculate_fused_activation_range(op_code: i32) -> (r: Result<(i32, i32), BLiteError>)
    ensures
        r == spec_fused_activation_range(op_code),
{
    if op_code == 1 {
        Ok((0, i32::MAX))
    } else if op_code == 3 {
        Ok((0, 6))
    } else if op_code == 2 {
        Ok((-1, 1))
    } else if 0 <= op_code && op_code <= 5 {
        Ok((i32::MIN, i32::MAX))
    } else {
        Err(BLiteError::NotFoundFusedActivation)
    }
}

/// The rectified linear unit: `x` where positive, else zero.
pub open spec fn spec_relu(x: i32) -> i32 {
    if x > 0 {
        x
    } else {
        0
    }
}

pub fn relu(x: i32) -> (r: i32)
    ensures
        r == spec_relu(x),
{
    if x > 0 {
        x
    } else {
        0
    }
}

/// With an ordered range, the fused activation lands inside the range and leaves values
/// already inside it unchanged.
pub proof fn lemma_activation_clamps(x: i32, output_activation_min: i32, output_activation_max: i32)
    requires
        output_activation_min <= output_activation_max,
    ensures
        output_activation_min <= spec_activation_with_min_max(
            x,
            output_activation_min,
            output_activation_max,
        ) <= output_activation_max,
        output_activation_min <= x <= output_activation_max ==> spec_activation_with_min_max(
            x,
            output_activation_min,
            output_activation_max,
        ) == x,
{
}

/// Every range a fused activation has is ordered, so applying it clamps.
pub proof fn lemma_fused_activation_range_ordered(op_code: i32)
    ensures
        spec_fused_activation_range(op_code) matches Ok((lo, hi)) ==> lo <= hi,
{
}

/// ReLU yields no negative value, leaves non-negative values unchanged, and is the
/// fused activation with range `[0, i32::MAX]`.
pub proof fn lemma_relu_properties(x: i32)
    ensures
        spec_relu(x) >= 0,
        x >= 0 ==> spec_relu(x) == x,
        spec_relu(spec_relu(x)) == spec_relu(x),
        spec_relu(x) == spec_activation_with_min_max(x, 0, i32::MAX),
{
}

} // verus!
