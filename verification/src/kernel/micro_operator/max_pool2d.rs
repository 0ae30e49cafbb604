use vstd::prelude::*;
use vstd::arithmetic::div_mod::{lemma_fundamental_div_mod, lemma_fundamental_div_mod_converse, lemma_mod_pos_bound};
use crate::kernel::micro_activation::{activation_with_min_max, spec_activation_with_min_max};
use crate::micro_errors::BLiteError;
use crate::kernel::micro_builtin_options::BLiteBuiltinOption;
use crate::kernel::micro_operator::BLiteOperator;
use crate::micro_array::{BLiteArray, BLiteArrayView, tensor_views};
use crate::micro_context::BLiteContext;
use crate::micro_node::{BLiteNode, BLiteNodeView};
use crate::micro_registration::{BLiteKernel, BLiteRegistration};
use crate::micro_allocator::ArenaAllocator;
use crate::kernel::micro_activation::{calculate_fused_activation_range, spec_fused_activation_range};
use crate::kernel::utils::padding::{compute_padding_height_width, padding_computable, spec_padding_with_offset};
use crate::flatbuffer_vector::{vector_i32_get, vector_i32_items};
use crate::tflite_model::{TfLiteBuiltinOptions, TfLiteOperator};

verus! {

/// The shape of a 2-D max pooling: input and output extents (NHWC), strides, filter
/// extents, paddings and the batch count.
pub struct PoolGeometry {
    pub input_height: int,
    pub input_width: int,
    pub input_depth: int,
    pub output_height: int,
    pub output_width: int,
    pub output_depth: int,
    pub stride_w: int,
    pub stride_h: int,
    pub filter_w: int,
    pub filter_h: int,
    pub padding_w: int,
    pub padding_h: int,
    pub batches: int,
}

/// `v` is a value of `i32`.
pub open spec fn in_i32(v: int) -> bool {
    i32::MIN <= v <= i32::MAX
}

/// The position of element `(i0, i1, i2, i3)` in a row-major tensor of extents
/// `(_, h, w, d)`.
pub open spec fn offset4(h: int, w: int, d: int, i0: int, i1: int, i2: int, i3: int) -> int {
    ((i0 * h + i1) * w + i2) * d + i3
}

/// Every intermediate value of `offset4`, evaluated left to right, fits in `i32`.
pub open spec fn offset_computable(
    h: int,
    w: int,
    d: int,
    i0: int,
    i1: int,
    i2: int,
    i3: int,
) -> bool {
    &&& in_i32(i0 * h)
    &&& in_i32(i0 * h + i1)
    &&& in_i32((i0 * h + i1) * w)
    &&& in_i32((i0 * h + i1) * w + i2)
    &&& in_i32(((i0 * h + i1) * w + i2) * d)
    &&& in_i32(offset4(h, w, d, i0, i1, i2, i3))
}

/// The input coordinate that output coordinate `o` starts its window at.
pub open spec fn origin(o: int, stride: int, padding: int) -> int {
    o * stride - padding
}

/// Every value computed from the window origin of output coordinate `o` fits in `i32`.
pub open spec fn origin_computable(o: int, stride: int, padding: int, in_size: int) -> bool {
    &&& in_i32(o * stride)
    &&& in_i32(o * stride - padding)
    &&& in_i32(-(o * stride - padding))
    &&& in_i32(in_size - (o * stride - padding))
}

/// The first filter tap whose input coordinate is not negative: `max(0, -org)`.
pub open spec fn window_start(org: int) -> int {
    if 0 > -org {
        0
    } else {
        -org
    }
}

/// One past the last filter tap whose input coordinate is inside the input:
/// `min(filter, in_size - org)`.
pub open spec fn window_end(org: int, filter: int, in_size: int) -> int {
    if filter <= in_size - org {
        filter
    } else {
        in_size - org
    }
}

/// The input column where the window of output column `x` starts.
pub open spec fn x_origin(g: PoolGeometry, x: int) -> int {
    origin(x, g.stride_w, g.padding_w)
}

/// The input row where the window of output row `y` starts.
pub open spec fn y_origin(g: PoolGeometry, y: int) -> int {
    origin(y, g.stride_h, g.padding_h)
}

/// The input element at batch `b`, row `in_y`, column `in_x`, channel `c`.
pub open spec fn input_at(input: Seq<i32>, g: PoolGeometry, b: int, c: int, in_y: int, in_x: int) -> i32 {
    input[offset4(g.input_height, g.input_width, g.input_depth, b, in_y, in_x, c)]
}

/// The running maximum after seeing `v`.
pub open spec fn take_max(acc: i32, v: i32) -> i32 {
    if v > acc {
        v
    } else {
        acc
    }
}

/// The running maximum `acc` updated with the taps `lo..hi` of input row `in_y`.
pub open spec fn row_max(
    input: Seq<i32>,
    g: PoolGeometry,
    b: int,
    c: int,
    in_y: int,
    x_org: int,
    acc: i32,
    lo: int,
    hi: int,
) -> i32
    decreases hi - lo,
{
    if hi <= lo {
        acc
    } else {
        take_max(
            row_max(input, g, b, c, in_y, x_org, acc, lo, hi - 1),
            input_at(input, g, b, c, in_y, x_org + hi - 1),
        )
    }
}

/// The running maximum `acc` updated with the window rows `ylo..yhi`, each over the
/// taps `xlo..xhi`.
pub open spec fn window_max(
    input: Seq<i32>,
    g: PoolGeometry,
    b: int,
    c: int,
    y_org: int,
    x_org: int,
    acc: i32,
    ylo: int,
    yhi: int,
    xlo: int,
    xhi: int,
) -> i32
    decreases yhi - ylo,
{
    if yhi <= ylo {
        acc
    } else {
        row_max(
            input,
            g,
            b,
            c,
            y_org + yhi - 1,
            x_org,
            window_max(input, g, b, c, y_org, x_org, acc, ylo, yhi - 1, xlo, xhi),
            xlo,
            xhi,
        )
    }
}

/// The value of output element `(b, y, x, c)`: the maximum of its window (the lowest
/// value when the window is empty), passed through the fused activation.
pub open spec fn pooled_value(
    input: Seq<i32>,
    g: PoolGeometry,
    act_min: i32,
    act_max: i32,
    b: int,
    y: int,
    x: int,
    c: int,
) -> i32 {
    let yo = y_origin(g, y);
    let xo = x_origin(g, x);
    let m = window_max(
        input,
        g,
        b,
        c,
        yo,
        xo,
        i32::MIN,
        window_start(yo),
        window_end(yo, g.filter_h, g.input_height),
        window_start(xo),
        window_end(xo, g.filter_w, g.input_width),
    );
    spec_activation_with_min_max(m, act_min, act_max)
}

/// Every loop of the kernel runs at least once.
pub open spec fn pool_active(g: PoolGeometry) -> bool {
    &&& g.batches > 0
    &&& g.output_height > 0
    &&& g.output_width > 0
    &&& g.output_depth > 0
}

/// The number of output elements the kernel writes.
pub open spec fn pool_count(g: PoolGeometry) -> int {
    offset4(g.output_height, g.output_width, g.output_depth, g.batches, 0, 0, 0)
}

/// The channel, column, row and batch of the output element at position `j`.
pub open spec fn dec_c(g: PoolGeometry, j: int) -> int {
    j % g.output_depth
}

pub open spec fn dec_x(g: PoolGeometry, j: int) -> int {
    (j / g.output_depth) % g.output_width
}

pub open spec fn dec_y(g: PoolGeometry, j: int) -> int {
    (j / g.output_depth / g.output_width) % g.output_height
}

pub open spec fn dec_b(g: PoolGeometry, j: int) -> int {
    j / g.output_depth / g.output_width / g.output_height
}

/// The output of the kernel: each of the first `pool_count` elements, read as
/// `(batch, y, x, channel)`, holds its pooled value; the rest are unchanged.
pub open spec fn max_pool_output(
    input: Seq<i32>,
    output: Seq<i32>,
    g: PoolGeometry,
    act_min: i32,
    act_max: i32,
) -> Seq<i32> {
    Seq::new(
        output.len(),
        |j: int|
            if pool_active(g) && j < pool_count(g) {
                pooled_value(input, g, act_min, act_max, dec_b(g, j), dec_y(g, j), dec_x(g, j), dec_c(g, j))
            } else {
                output[j]
            },
    )
}

/// Reading the input for tap `(fy, fx)` of output element `(b, y, x, c)` computes its
/// position without overflow and finds it inside the input.
pub open spec fn read_computable(
    g: PoolGeometry,
    in_len: int,
    b: int,
    y: int,
    x: int,
    c: int,
    fy: int,
    fx: int,
) -> bool {
    let iy = y_origin(g, y) + fy;
    let ix = x_origin(g, x) + fx;
    &&& offset_computable(g.input_height, g.input_width, g.input_depth, b, iy, ix, c)
    &&& 0 <= offset4(g.input_height, g.input_width, g.input_depth, b, iy, ix, c) < in_len
}

/// Tap `(fy, fx)` lies inside the clipped window of output element `(y, x)`.
pub open spec fn in_window(g: PoolGeometry, y: int, x: int, fy: int, fx: int) -> bool {
    &&& window_start(y_origin(g, y)) <= fy < window_end(
        y_origin(g, y),
        g.filter_h,
        g.input_height,
    )
    &&& window_start(x_origin(g, x)) <= fx < window_end(x_origin(g, x), g.filter_w, g.input_width)
}

/// The kernel runs without overflow and without reading or writing out of bounds.
pub open spec fn max_pool_kernel_safe(g: PoolGeometry, in_len: int, out_len: int) -> bool {
    &&& pool_active(g) ==> {
        &&& forall|x: int|
            0 <= x < g.output_width ==> #[trigger] origin_computable(
                x,
                g.stride_w,
                g.padding_w,
                g.input_width,
            )
        &&& forall|y: int|
            0 <= y < g.output_height ==> #[trigger] origin_computable(
                y,
                g.stride_h,
                g.padding_h,
                g.input_height,
            )
        &&& pool_count(g) <= out_len
        &&& pool_count(g) <= i32::MAX + 1
    }
    &&& max_pool_reads_safe(g, in_len)
}

/// Every input read of the kernel computes its position without overflow and finds it
/// inside the input.
pub open spec fn max_pool_reads_safe(g: PoolGeometry, in_len: int) -> bool {
    forall|b: int, y: int, x: int, c: int, fy: int, fx: int|
        0 <= b < g.batches && 0 <= y < g.output_height && 0 <= x < g.output_width && 0 <= c
            < g.output_depth && in_window(g, y, x, fy, fx) ==> #[trigger] read_computable(
            g,
            in_len,
            b,
            y,
            x,
            c,
            fy,
            fx,
        )
}

/// The geometry `eval` hands the kernel: extents from the input and output tensors'
/// dimensions (NHWC), the rest from the options.
pub open spec fn eval_geometry(
    input: BLiteArrayView,
    output: BLiteArrayView,
    stride_w: i32,
    stride_h: i32,
    filter_w: i32,
    filter_h: i32,
    padding_w: i32,
    padding_h: i32,
) -> PoolGeometry {
    PoolGeometry {
        input_height: input.dims[1] as int,
        input_width: input.dims[2] as int,
        input_depth: input.dims[3] as int,
        output_height: output.dims[1] as int,
        output_width: output.dims[2] as int,
        output_depth: output.dims[3] as int,
        stride_w: stride_w as int,
        stride_h: stride_h as int,
        filter_w: filter_w as int,
        filter_h: filter_h as int,
        padding_w: padding_w as int,
        padding_h: padding_h as int,
        batches: input.dims[0] as int,
    }
}

/// The inputs on which `eval` runs without a panic: the node names distinct input and
/// output tensors that exist and have four dimensions, and with max pooling options the
/// kernel is safe on them.
pub open spec fn max_pool_eval_requires(
    ts: Seq<BLiteArrayView>,
    node: BLiteNodeView,
    opt: BLiteBuiltinOption,
) -> bool {
    &&& node.inputs.len() >= 1
    &&& node.outputs.len() >= 1
    &&& 0 <= node.inputs[0] < ts.len()
    &&& 0 <= node.outputs[0] < ts.len()
    &&& node.inputs[0] != node.outputs[0]
    &&& ts[node.inputs[0] as int].dims.len() >= 4
    &&& ts[node.outputs[0] as int].dims.len() >= 4
    &&& match opt {
        BLiteBuiltinOption::MaxPool2DOptions {
            stride_w,
            stride_h,
            filter_w,
            filter_h,
            padding_w,
            padding_h,
            ..
        } => max_pool_kernel_safe(
            eval_geometry(
                ts[node.inputs[0] as int],
                ts[node.outputs[0] as int],
                stride_w,
                stride_h,
                filter_w,
                filter_h,
                padding_w,
                padding_h,
            ),
            ts[node.inputs[0] as int].data.len() as int,
            ts[node.outputs[0] as int].data.len() as int,
        ),
        _ => true,
    }
}

/// What `eval` returns and leaves in the tensors: with max pooling options the output
/// tensor's data becomes the kernel's output; with any other options it fails with
/// `NotCompatibleOption` and changes nothing.
pub open spec fn max_pool_eval_spec(
    ts: Seq<BLiteArrayView>,
    node: BLiteNodeView,
    opt: BLiteBuiltinOption,
) -> (Result<(), BLiteError>, Seq<BLiteArrayView>) {
    match opt {
        BLiteBuiltinOption::MaxPool2DOptions {
            fused_activation_min,
            fused_activation_max,
            stride_w,
            stride_h,
            filter_w,
            filter_h,
            padding_w,
            padding_h,
            ..
        } => {
            let i = node.inputs[0] as int;
            let o = node.outputs[0] as int;
            let g = eval_geometry(ts[i], ts[o], stride_w, stride_h, filter_w, filter_h, padding_w, padding_h);
            (
                Ok(()),
                ts.update(
                    o,
                    BLiteArrayView {
                        data: max_pool_output(ts[i].data, ts[o].data, g, fused_activation_min, fused_activation_max),
                        dims: ts[o].dims,
                    },
                ),
            )
        },
        _ => (Err(BLiteError::NotCompatibleOption), ts),
    }
}

/// The tensor that a model operator names first in an operand list.
pub open spec fn first_operand(v: Option<flatbuffers::Vector<'_, i32>>) -> int {
    vector_i32_items(v.unwrap())[0] as int
}

/// The first operand list names a tensor that exists and has at least three dimensions.
pub open spec fn first_operand_valid(
    v: Option<flatbuffers::Vector<'_, i32>>,
    ts: Seq<BLiteArrayView>,
) -> bool {
    &&& v is Some
    &&& vector_i32_items(v.unwrap()).len() >= 1
    &&& 0 <= first_operand(v) < ts.len()
    &&& ts[first_operand(v)].dims.len() >= 3
}

/// The inputs on which `parser` runs without a panic: once the options and the fused
/// activation are accepted, the operator's first input and output name tensors with
/// heights and widths, and the paddings are computable.
pub open spec fn max_pool_parser_requires(op: TfLiteOperator, ts: Seq<BLiteArrayView>) -> bool {
    match op.builtin_options {
        TfLiteBuiltinOptions::Pool2DOptions {
            stride_w,
            stride_h,
            filter_width,
            filter_height,
            fused_activation_function,
            ..
        } => spec_fused_activation_range(fused_activation_function as i32) is Ok ==> {
            &&& first_operand_valid(op.inputs, ts)
            &&& first_operand_valid(op.outputs, ts)
            &&& padding_computable(
                stride_w as int,
                1,
                ts[first_operand(op.inputs)].dims[2] as int,
                filter_width as int,
                ts[first_operand(op.outputs)].dims[2] as int,
            )
            &&& padding_computable(
                stride_h as int,
                1,
                ts[first_operand(op.inputs)].dims[1] as int,
                filter_height as int,
                ts[first_operand(op.outputs)].dims[1] as int,
            )
        },
        _ => true,
    }
}

/// The options `parser` builds: the pooling parameters of the operator, the range of its
/// fused activation, and the paddings that fit its input to its output; `NotFoundOption`
/// without pooling options, the range's error for an unknown activation.
pub open spec fn max_pool_parse_spec(op: TfLiteOperator, ts: Seq<BLiteArrayView>) -> Result<
    BLiteBuiltinOption,
    BLiteError,
> {
    match op.builtin_options {
        TfLiteBuiltinOptions::Pool2DOptions {
            padding,
            stride_w,
            stride_h,
            filter_width,
            filter_height,
            fused_activation_function,
        } => match spec_fused_activation_range(fused_activation_function as i32) {
            Ok((act_min, act_max)) => {
                let input = ts[first_operand(op.inputs)];
                let output = ts[first_operand(op.outputs)];
                let pad_w = spec_padding_with_offset(
                    stride_w as int,
                    1,
                    input.dims[2] as int,
                    filter_width as int,
                    output.dims[2] as int,
                );
                let pad_h = spec_padding_with_offset(
                    stride_h as int,
                    1,
                    input.dims[1] as int,
                    filter_height as int,
                    output.dims[1] as int,
                );
                Ok(
                    BLiteBuiltinOption::MaxPool2DOptions {
                        op_code: fused_activation_function as i32,
                        fused_activation_min: act_min,
                        fused_activation_max: act_max,
                        padding: padding as usize,
                        stride_w,
                        stride_h,
                        filter_w: filter_width,
                        filter_h: filter_height,
                        padding_w: pad_w.0 as i32,
                        padding_h: pad_h.0 as i32,
                        padding_w_offset: pad_w.1 as i32,
                        padding_h_offset: pad_h.1 as i32,
                    },
                )
            },
            Err(e) => Err(e),
        },
        _ => Err(BLiteError::NotFoundOption),
    }
}

/// The 2-D max pooling operator.
#[derive(Debug, Clone, Copy)]
pub struct OpMaxPool2D {}

impl OpMaxPool2D {
    /// The builtin operator code of max pooling.
    pub const OPCODE: i32 = 17;

    /// The operator as the resolver hands it out.
    pub fn max_pool2d() -> (r: BLiteOperator)
        ensures
            r.registration == Self::spec_registration(),
            r.parser == BLiteKernel::MaxPool2D,
    {
        BLiteOperator { registration: Self::registration(), parser: BLiteKernel::MaxPool2D }
    }

    /// The registration of max pooling, before its options are parsed.
    pub open spec fn spec_registration() -> BLiteRegistration {
        BLiteRegistration {
            op_code: 17,
            eval: BLiteKernel::MaxPool2D,
            builtin_option: BLiteBuiltinOption::NotInitialize,
        }
    }

    pub fn registration() -> (r: BLiteRegistration)
        ensures
            r == Self::spec_registration(),
    {
        BLiteRegistration::new(Self::OPCODE, BLiteKernel::MaxPool2D, BLiteBuiltinOption::NotInitialize)
    }

    /// Reads max pooling's options from a model operator.
    pub fn parser<A: ArenaAllocator>(
        _allocator: &mut A,
        op: &TfLiteOperator,
        tensors: &[BLiteArray],
    ) -> (r: Result<BLiteBuiltinOption, BLiteError>)
        requires
            max_pool_parser_requires(*op, tensor_views(tensors@)),
        ensures
            r == max_pool_parse_spec(*op, tensor_views(tensors@)),
            *final(_allocator) == *old(_allocator),
    {
        let (padding, stride_w, stride_h, filter_w, filter_h, fused_activation_function) =
            match op.builtin_options {
            TfLiteBuiltinOptions::Pool2DOptions {
                padding,
                stride_w,
                stride_h,
                filter_width,
                filter_height,
                fused_activation_function,
            } => (padding, stride_w, stride_h, filter_width, filter_height, fused_activation_function),
            _ => {
                return Err(BLiteError::NotFoundOption);
            },
        };
        let op_code = fused_activation_function as i32;
        let (fused_activation_min, fused_activation_max) = match calculate_fused_activation_range(
            op_code,
        ) {
            Ok(range) => range,
            Err(e) => {
                return Err(e);
            },
        };
        let padding = padding as usize;

        let inputs = op.inputs.unwrap();
        let input_idx = vector_i32_get(&inputs, 0) as usize;
        let input_h = tensors[input_idx].dims[1];
        let input_w = tensors[input_idx].dims[2];

        let outputs = op.outputs.unwrap();
        let output_idx = vector_i32_get(&outputs, 0) as usize;
        let output_h = tensors[output_idx].dims[1];
        let output_w = tensors[output_idx].dims[2];

        let (padding_w, padding_w_offset, padding_h, padding_h_offset) =
            compute_padding_height_width(
            padding,
            stride_h,
            stride_w,
            1,
            1,
            input_h,
            input_w,
            filter_h,
            filter_w,
            output_h,
            output_w,
        );
        Ok(
            BLiteBuiltinOption::MaxPool2DOptions {
                op_code,
                fused_activation_min,
                fused_activation_max,
                padding,
                stride_w,
                stride_h,
                filter_w,
                filter_h,
                padding_w,
                padding_h,
                padding_w_offset,
                padding_h_offset,
            },
        )
    }

    /// Evaluates max pooling on the node's first input into its first output.
    pub fn eval(
        _context: &BLiteContext,
        tensors: &mut Vec<BLiteArray>,
        node: &BLiteNode,
        builtin_option: BLiteBuiltinOption,
    ) -> (r: Result<(), BLiteError>)
        requires
            max_pool_eval_requires(tensor_views(old(tensors)@), node@, builtin_option),
        ensures
            (r, tensor_views(final(tensors)@)) == max_pool_eval_spec(
                tensor_views(old(tensors)@),
                node@,
                builtin_option,
            ),
    {
        let ghost ts = tensor_views(tensors@);
        let idx_input = node.inputs[0] as usize;
        let input_height = tensors[idx_input].dims[1];
        let input_width = tensors[idx_input].dims[2];
        let input_depth = tensors[idx_input].dims[3];
        let idx_output = node.outputs[0] as usize;
        let output_height = tensors[idx_output].dims[1];
        let output_width = tensors[idx_output].dims[2];
        let output_depth = tensors[idx_output].dims[3];
        let batches = tensors[idx_input].dims[0];
        let (
            fused_activation_min,
            fused_activation_max,
            stride_w,
            stride_h,
            filter_w,
            filter_h,
            padding_w,
            padding_h,
        ) = match builtin_option {
            BLiteBuiltinOption::MaxPool2DOptions {
                op_code: _,
                fused_activation_min,
                fused_activation_max,
                padding: _,
                stride_w,
                stride_h,
                filter_w,
                filter_h,
                padding_w,
                padding_h,
                padding_w_offset: _,
                padding_h_offset: _,
            } => (
                fused_activation_min,
                fused_activation_max,
                stride_w,
                stride_h,
                filter_w,
                filter_h,
                padding_w,
                padding_h,
            ),
            _ => {
                return Err(BLiteError::NotCompatibleOption);
            },
        };
        let mut output = BLiteArray::empty();
        std::mem::swap(&mut output, &mut tensors[idx_output]);
        let r = Self::kernel(
            tensors[idx_input].data.as_slice(),
            output.data.as_mut_slice(),
            input_height,
            input_width,
            input_depth,
            output_height,
            output_width,
            output_depth,
            stride_w,
            stride_h,
            filter_w,
            filter_h,
            padding_w,
            padding_h,
            batches,
            fused_activation_min,
            fused_activation_max,
        );
        std::mem::swap(&mut output, &mut tensors[idx_output]);
        proof {
            assert(tensor_views(tensors@) =~= max_pool_eval_spec(ts, node@, builtin_option).1);
        }
        r
    }
    /// Max pooling over NHWC tensors: every output element becomes the largest input
    /// element of its window, clipped to the input, then the fused activation is applied.
    #[verifier::loop_isolation(false)]
    #[verifier::rlimit(50)]
    pub fn kernel(
        input_data: &[i32],
        output_data: &mut [i32],
        input_height: i32,
        input_width: i32,
        input_depth: i32,
        output_height: i32,
        output_width: i32,
        output_depth: i32,
        stride_w: i32,
        stride_h: i32,
        filter_w: i32,
        filter_h: i32,
        padding_w: i32,
        padding_h: i32,
        batches: i32,
        fused_activation_min: i32,
        fused_activation_max: i32,
    ) -> (r: Result<(), BLiteError>)
        requires
            max_pool_kernel_safe(
                PoolGeometry {
                    input_height: input_height as int,
                    input_width: input_width as int,
                    input_depth: input_depth as int,
                    output_height: output_height as int,
                    output_width: output_width as int,
                    output_depth: output_depth as int,
                    stride_w: stride_w as int,
                    stride_h: stride_h as int,
                    filter_w: filter_w as int,
                    filter_h: filter_h as int,
                    padding_w: padding_w as int,
                    padding_h: padding_h as int,
                    batches: batches as int,
                },
                input_data@.len() as int,
                old(output_data)@.len() as int,
            ),
        ensures
            r == Ok::<(), BLiteError>(()),
            final(output_data)@ == max_pool_output(
                input_data@,
                old(output_data)@,
                PoolGeometry {
                    input_height: input_height as int,
                    input_width: input_width as int,
                    input_depth: input_depth as int,
                    output_height: output_height as int,
                    output_width: output_width as int,
                    output_depth: output_depth as int,
                    stride_w: stride_w as int,
                    stride_h: stride_h as int,
                    filter_w: filter_w as int,
                    filter_h: filter_h as int,
                    padding_w: padding_w as int,
                    padding_h: padding_h as int,
                    batches: batches as int,
                },
                fused_activation_min,
                fused_activation_max,
            ),
    {
        let ghost g = PoolGeometry {
            input_height: input_height as int,
            input_width: input_width as int,
            input_depth: input_depth as int,
            output_height: output_height as int,
            output_width: output_width as int,
            output_depth: output_depth as int,
            stride_w: stride_w as int,
            stride_h: stride_h as int,
            filter_w: filter_w as int,
            filter_h: filter_h as int,
            padding_w: padding_w as int,
            padding_h: padding_h as int,
            batches: batches as int,
        };
        let ghost old_out = output_data@;
        let ghost expected = max_pool_output(
            input_data@,
            old_out,
            g,
            fused_activation_min,
            fused_activation_max,
        );
        let ghost mut k: int = 0;
        assert(offset4(g.output_height, g.output_width, g.output_depth, 0, 0, 0, 0) == 0) by (nonlinear_arith);
        let mut batch: i32 = 0;
        while batch < batches
            invariant
                0 <= batch,
                batch <= batches || batch == 0,
                output_data@.len() == old_out.len(),
                k == if pool_active(g) {
                    offset4(g.output_height, g.output_width, g.output_depth, batch as int, 0, 0, 0)
                } else {
                    0
                },
                forall|j: int| 0 <= j < k ==> output_data@[j] == expected[j],
                forall|j: int| k <= j < old_out.len() ==> output_data@[j] == old_out[j],
            decreases batches - batch,
        {
            let mut out_y: i32 = 0;
            while out_y < output_height
                invariant
                    0 <= batch < batches,
                    0 <= out_y,
                    out_y <= output_height || out_y == 0,
                    output_data@.len() == old_out.len(),
                    k == if pool_active(g) {
                        offset4(
                            g.output_height,
                            g.output_width,
                            g.output_depth,
                            batch as int,
                            out_y as int,
                            0,
                            0,
                        )
                    } else {
                        0
                    },
                    forall|j: int| 0 <= j < k ==> output_data@[j] == expected[j],
                    forall|j: int| k <= j < old_out.len() ==> output_data@[j] == old_out[j],
                decreases output_height - out_y,
            {
                let mut out_x: i32 = 0;
                while out_x < output_width
                    invariant
                        0 <= batch < batches,
                        0 <= out_y < output_height,
                        0 <= out_x,
                        out_x <= output_width || out_x == 0,
                        output_data@.len() == old_out.len(),
                        k == if pool_active(g) {
                            offset4(
                                g.output_height,
                                g.output_width,
                                g.output_depth,
                                batch as int,
                                out_y as int,
                                out_x as int,
                                0,
                            )
                        } else {
                            0
                        },
                        forall|j: int| 0 <= j < k ==> output_data@[j] == expected[j],
                        forall|j: int| k <= j < old_out.len() ==> output_data@[j] == old_out[j],
                    decreases output_width - out_x,
                {
                    let mut channel: i32 = 0;
                    while channel < output_depth
                        invariant
                            0 <= batch < batches,
                            0 <= out_y < output_height,
                            0 <= out_x < output_width,
                            0 <= channel,
                            channel <= output_depth || channel == 0,
                            output_data@.len() == old_out.len(),
                            k == if pool_active(g) {
                                offset4(
                                    g.output_height,
                                    g.output_width,
                                    g.output_depth,
                                    batch as int,
                                    out_y as int,
                                    out_x as int,
                                    channel as int,
                                )
                            } else {
                                0
                            },
                            forall|j: int| 0 <= j < k ==> output_data@[j] == expected[j],
                            forall|j: int|
                                k <= j < old_out.len() ==> output_data@[j] == old_out[j],
                        decreases output_depth - channel,
                    {
                        assert(pool_active(g));
                        assert(origin_computable(out_x as int, g.stride_w, g.padding_w, g.input_width));
                        assert(origin_computable(out_y as int, g.stride_h, g.padding_h, g.input_height));
                        let in_x_origin = (out_x * stride_w) - padding_w;
                        let in_y_origin = (out_y * stride_h) - padding_h;
                        let neg_x = -in_x_origin;
                        let filter_x_start = if 0 > neg_x {
                            0
                        } else {
                            neg_x
                        };
                        let rem_x = input_width - in_x_origin;
                        let filter_x_end = if filter_w <= rem_x {
                            filter_w
                        } else {
                            rem_x
                        };
                        let neg_y = -in_y_origin;
                        let filter_y_start = if 0 > neg_y {
                            0
                        } else {
                            neg_y
                        };
                        let rem_y = input_height - in_y_origin;
                        let filter_y_end = if filter_h <= rem_y {
                            filter_h
                        } else {
                            rem_y
                        };
                        let max = Self::window_maximum(
                            input_data,
                            Ghost(g),
                            input_height,
                            input_width,
                            input_depth,
                            batch,
                            out_y,
                            out_x,
                            channel,
                            in_y_origin,
                            in_x_origin,
                            filter_y_start,
                            filter_y_end,
                            filter_x_start,
                            filter_x_end,
                        );
                        proof {
                            lemma_output_position(g, batch as int, out_y as int, out_x as int, channel as int);
                        }
                        let output_v_idx = Self::offset(
                            output_height,
                            output_width,
                            output_depth,
                            batch,
                            out_y,
                            out_x,
                            channel,
                        );
                        let max = activation_with_min_max(
                            max,
                            fused_activation_min,
                            fused_activation_max,
                        );
                        output_data[output_v_idx as usize] = max;
                        proof {
                            k = k + 1;
                        }
                        channel = channel + 1;
                    }
                    proof {
                        if pool_active(g) {
                            lemma_next_row(
                                (batch * g.output_height + out_y) * g.output_width + out_x,
                                g.output_depth,
                            );
                        }
                    }
                    out_x = out_x + 1;
                }
                proof {
                    if pool_active(g) {
                        lemma_next_row(batch * g.output_height + out_y, g.output_width);
                        lemma_mul_congruent(
                            (batch * g.output_height + out_y) * g.output_width + g.output_width,
                            (batch * g.output_height + out_y + 1) * g.output_width,
                            g.output_depth,
                        );
                    }
                }
                out_y = out_y + 1;
            }
            proof {
                if pool_active(g) {
                    lemma_next_row(batch as int, g.output_height);
                    lemma_mul_congruent(
                        batch * g.output_height + g.output_height,
                        (batch + 1) * g.output_height,
                        g.output_width,
                    );
                    lemma_mul_congruent(
                        (batch * g.output_height + g.output_height) * g.output_width,
                        ((batch + 1) * g.output_height) * g.output_width,
                        g.output_depth,
                    );
                }
            }
            batch = batch + 1;
        }
        proof {
            assert(output_data@ =~= expected);
        }
        Ok(())
    }

    /// The maximum of the input elements under the clipped window of output element
    /// `(batch, out_y, out_x, channel)`, starting from the lowest value.
    #[verifier::loop_isolation(false)]
    fn window_maximum(
        input_data: &[i32],
        Ghost(g): Ghost<PoolGeometry>,
        input_height: i32,
        input_width: i32,
        input_depth: i32,
        batch: i32,
        out_y: i32,
        out_x: i32,
        channel: i32,
        in_y_origin: i32,
        in_x_origin: i32,
        filter_y_start: i32,
        filter_y_end: i32,
        filter_x_start: i32,
        filter_x_end: i32,
    ) -> (r: i32)
        requires
            max_pool_reads_safe(g, input_data@.len() as int),
            input_height == g.input_height,
            input_width == g.input_width,
            input_depth == g.input_depth,
            0 <= batch < g.batches,
            0 <= out_y < g.output_height,
            0 <= out_x < g.output_width,
            0 <= channel < g.output_depth,
            in_y_origin == y_origin(g, out_y as int),
            in_x_origin == x_origin(g, out_x as int),
            filter_y_start == window_start(in_y_origin as int),
            filter_y_end == window_end(in_y_origin as int, g.filter_h, g.input_height),
            filter_x_start == window_start(in_x_origin as int),
            filter_x_end == window_end(in_x_origin as int, g.filter_w, g.input_width),
        ensures
            r == window_max(
                input_data@,
                g,
                batch as int,
                channel as int,
                in_y_origin as int,
                in_x_origin as int,
                i32::MIN,
                filter_y_start as int,
                filter_y_end as int,
                filter_x_start as int,
                filter_x_end as int,
            ),
    {
        let mut max: i32 = i32::MIN;
        let mut filter_y = filter_y_start;
        while filter_y < filter_y_end
            invariant
                filter_y_start <= filter_y,
                filter_y <= filter_y_end || filter_y == filter_y_start,
                max == window_max(
                    input_data@,
                    g,
                    batch as int,
                    channel as int,
                    in_y_origin as int,
                    in_x_origin as int,
                    i32::MIN,
                    filter_y_start as int,
                    filter_y as int,
                    filter_x_start as int,
                    filter_x_end as int,
                ),
            decreases filter_y_end - filter_y,
        {
            let ghost row_start = max;
            let mut filter_x = filter_x_start;
            while filter_x < filter_x_end
                invariant
                    filter_y_start <= filter_y < filter_y_end,
                    filter_x_start <= filter_x,
                    filter_x <= filter_x_end || filter_x == filter_x_start,
                    max == row_max(
                        input_data@,
                        g,
                        batch as int,
                        channel as int,
                        in_y_origin + filter_y,
                        in_x_origin as int,
                        row_start,
                        filter_x_start as int,
                        filter_x as int,
                    ),
                decreases filter_x_end - filter_x,
            {
                assert(in_window(g, out_y as int, out_x as int, filter_y as int, filter_x as int));
                assert(read_computable(
                    g,
                    input_data@.len() as int,
                    batch as int,
                    out_y as int,
                    out_x as int,
                    channel as int,
                    filter_y as int,
                    filter_x as int,
                ));
                let in_y = in_y_origin + filter_y;
                let in_x = in_x_origin + filter_x;
                let input_v_idx = Self::offset(
                    input_height,
                    input_width,
                    input_depth,
                    batch,
                    in_y,
                    in_x,
                    channel,
                );
                let input_v = input_data[input_v_idx as usize];
                if input_v > max {
                    max = input_v;
                }
                filter_x = filter_x + 1;
            }
            filter_y = filter_y + 1;
        }
        max
    }

    /// The position of element `(i0, i1, i2, i3)` in a row-major tensor of extents
    /// `(_, h, w, d)`.
    fn offset(h: i32, w: i32, d: i32, i0: i32, i1: i32, i2: i32, i3: i32) -> (r: i32)
        requires
            offset_computable(h as int, w as int, d as int, i0 as int, i1 as int, i2 as int, i3 as int),
        ensures
            r == offset4(h as int, w as int, d as int, i0 as int, i1 as int, i2 as int, i3 as int),
    {
        ((i0 * h + i1) * w + i2) * d + i3
    }
}

/// Tap `fx` of input row `in_y` for a window starting at column `x_org`.
pub open spec fn row_tap(input: Seq<i32>, g: PoolGeometry, b: int, c: int, in_y: int, x_org: int, fx: int) -> i32 {
    input_at(input, g, b, c, in_y, x_org + fx)
}

/// Tap `(fy, fx)` of a window starting at `(y_org, x_org)`.
pub open spec fn window_tap(
    input: Seq<i32>,
    g: PoolGeometry,
    b: int,
    c: int,
    y_org: int,
    x_org: int,
    fy: int,
    fx: int,
) -> i32 {
    input_at(input, g, b, c, y_org + fy, x_org + fx)
}

/// The running maximum over a row never falls below its start, every tap of the row is
/// at most it, and it is its start or one of the taps.
proof fn lemma_row_max_bounds(
    input: Seq<i32>,
    g: PoolGeometry,
    b: int,
    c: int,
    in_y: int,
    x_org: int,
    acc: i32,
    lo: int,
    hi: int,
)
    ensures
        acc <= row_max(input, g, b, c, in_y, x_org, acc, lo, hi),
        forall|fx: int|
            lo <= fx < hi ==> #[trigger] row_tap(input, g, b, c, in_y, x_org, fx) <= row_max(
                input,
                g,
                b,
                c,
                in_y,
                x_org,
                acc,
                lo,
                hi,
            ),
        row_max(input, g, b, c, in_y, x_org, acc, lo, hi) == acc || exists|fx: int|
            lo <= fx < hi && #[trigger] row_tap(input, g, b, c, in_y, x_org, fx) == row_max(
                input,
                g,
                b,
                c,
                in_y,
                x_org,
                acc,
                lo,
                hi,
            ),
    decreases hi - lo,
{
    if hi > lo {
        lemma_row_max_bounds(input, g, b, c, in_y, x_org, acc, lo, hi - 1);
        let prev = row_max(input, g, b, c, in_y, x_org, acc, lo, hi - 1);
        let cur = row_max(input, g, b, c, in_y, x_org, acc, lo, hi);
        assert(row_tap(input, g, b, c, in_y, x_org, hi - 1) == input_at(input, g, b, c, in_y, x_org + hi - 1));
        if cur != acc && cur != prev {
            assert(row_tap(input, g, b, c, in_y, x_org, hi - 1) == cur);
        }
    }
}

/// The running maximum over a window never falls below its start, every tap of the
/// window is at most it, and it is its start or one of the taps.
proof fn lemma_window_max_bounds(
    input: Seq<i32>,
    g: PoolGeometry,
    b: int,
    c: int,
    y_org: int,
    x_org: int,
    acc: i32,
    ylo: int,
    yhi: int,
    xlo: int,
    xhi: int,
)
    ensures
        acc <= window_max(input, g, b, c, y_org, x_org, acc, ylo, yhi, xlo, xhi),
        forall|fy: int, fx: int|
            ylo <= fy < yhi && xlo <= fx < xhi ==> #[trigger] window_tap(
                input,
                g,
                b,
                c,
                y_org,
                x_org,
                fy,
                fx,
            ) <= window_max(input, g, b, c, y_org, x_org, acc, ylo, yhi, xlo, xhi),
        window_max(input, g, b, c, y_org, x_org, acc, ylo, yhi, xlo, xhi) == acc || exists|
            fy: int,
            fx: int,
        |
            ylo <= fy < yhi && xlo <= fx < xhi && #[trigger] window_tap(
                input,
                g,
                b,
                c,
                y_org,
                x_org,
                fy,
                fx,
            ) == window_max(input, g, b, c, y_org, x_org, acc, ylo, yhi, xlo, xhi),
    decreases yhi - ylo,
{
    if yhi > ylo {
        lemma_window_max_bounds(input, g, b, c, y_org, x_org, acc, ylo, yhi - 1, xlo, xhi);
        let prev = window_max(input, g, b, c, y_org, x_org, acc, ylo, yhi - 1, xlo, xhi);
        let cur = window_max(input, g, b, c, y_org, x_org, acc, ylo, yhi, xlo, xhi);
        let row_y = y_org + yhi - 1;
        lemma_row_max_bounds(input, g, b, c, row_y, x_org, prev, xlo, xhi);
        assert(cur == row_max(input, g, b, c, row_y, x_org, prev, xlo, xhi));
        assert forall|fy: int, fx: int| ylo <= fy < yhi && xlo <= fx < xhi implies #[trigger] window_tap(
            input,
            g,
            b,
            c,
            y_org,
            x_org,
            fy,
            fx,
        ) <= cur by {
            if fy == yhi - 1 {
                assert(window_tap(input, g, b, c, y_org, x_org, fy, fx) == row_tap(
                    input,
                    g,
                    b,
                    c,
                    row_y,
                    x_org,
                    fx,
                ));
            }
        }
        if cur != acc {
            if cur == prev {
                let (fy, fx) = choose|fy: int, fx: int|
                    ylo <= fy < yhi - 1 && xlo <= fx < xhi && #[trigger] window_tap(
                        input,
                        g,
                        b,
                        c,
                        y_org,
                        x_org,
                        fy,
                        fx,
                    ) == prev;
                assert(ylo <= fy < yhi && xlo <= fx < xhi && window_tap(
                    input,
                    g,
                    b,
                    c,
                    y_org,
                    x_org,
                    fy,
                    fx,
                ) == cur);
            } else {
                let fx = choose|fx: int|
                    xlo <= fx < xhi && #[trigger] row_tap(input, g, b, c, row_y, x_org, fx) == cur;
                assert(window_tap(input, g, b, c, y_org, x_org, yhi - 1, fx) == row_tap(
                    input,
                    g,
                    b,
                    c,
                    row_y,
                    x_org,
                    fx,
                ));
            }
        }
    }
}

/// Max pooling computes the maximum of each window: before the fused activation, an
/// output element is at least every input element under its clipped window, and it is
/// one of them, or the lowest value when the window is empty.
pub proof fn lemma_pooled_value_is_window_maximum(
    input: Seq<i32>,
    g: PoolGeometry,
    act_min: i32,
    act_max: i32,
    b: int,
    y: int,
    x: int,
    c: int,
)
    ensures
        ({
            let yo = y_origin(g, y);
            let xo = x_origin(g, x);
            let m = window_max(
                input,
                g,
                b,
                c,
                yo,
                xo,
                i32::MIN,
                window_start(yo),
                window_end(yo, g.filter_h, g.input_height),
                window_start(xo),
                window_end(xo, g.filter_w, g.input_width),
            );
            &&& pooled_value(input, g, act_min, act_max, b, y, x, c)
                == spec_activation_with_min_max(m, act_min, act_max)
            &&& forall|fy: int, fx: int|
                in_window(g, y, x, fy, fx) ==> #[trigger] window_tap(input, g, b, c, yo, xo, fy, fx)
                    <= m
            &&& (m == i32::MIN || exists|fy: int, fx: int|
                in_window(g, y, x, fy, fx) && #[trigger] window_tap(input, g, b, c, yo, xo, fy, fx)
                    == m)
        }),
{
    let yo = y_origin(g, y);
    let xo = x_origin(g, x);
    lemma_window_max_bounds(
        input,
        g,
        b,
        c,
        yo,
        xo,
        i32::MIN,
        window_start(yo),
        window_end(yo, g.filter_h, g.input_height),
        window_start(xo),
        window_end(xo, g.filter_w, g.input_width),
    );
}

/// With an ordered activation range, every element max pooling writes lies inside it.
pub proof fn lemma_max_pool_output_in_range(
    input: Seq<i32>,
    output: Seq<i32>,
    g: PoolGeometry,
    act_min: i32,
    act_max: i32,
)
    requires
        act_min <= act_max,
    ensures
        forall|j: int|
            0 <= j < output.len() && pool_active(g) && j < pool_count(g) ==> act_min
                <= #[trigger] max_pool_output(input, output, g, act_min, act_max)[j] <= act_max,
        forall|j: int|
            0 <= j < output.len() && !(pool_active(g) && j < pool_count(g))
                ==> #[trigger] max_pool_output(input, output, g, act_min, act_max)[j] == output[j],
{
}

/// The row-major position of an element with in-range indices lies in the block of its
/// first index, and distinct index tuples have distinct positions.
pub proof fn lemma_offset_bounds_injective(
    h: int,
    w: int,
    d: int,
    i0: int,
    i1: int,
    i2: int,
    i3: int,
    j0: int,
    j1: int,
    j2: int,
    j3: int,
)
    requires
        h >= 1,
        w >= 1,
        d >= 1,
        i0 >= 0,
        j0 >= 0,
        0 <= i1 < h,
        0 <= j1 < h,
        0 <= i2 < w,
        0 <= j2 < w,
        0 <= i3 < d,
        0 <= j3 < d,
    ensures
        i0 * h * w * d <= offset4(h, w, d, i0, i1, i2, i3) < (i0 + 1) * h * w * d,
        offset4(h, w, d, i0, i1, i2, i3) == offset4(h, w, d, j0, j1, j2, j3) ==> i0 == j0 && i1
            == j1 && i2 == j2 && i3 == j3,
{
    let t1 = i0 * h + i1;
    let t2 = t1 * w + i2;
    let off = t2 * d + i3;
    assert(i0 * h <= t1 < (i0 + 1) * h) by (nonlinear_arith)
        requires
            t1 == i0 * h + i1,
            0 <= i1 < h,
    ;
    assert(i0 * h * w <= t2 < (i0 + 1) * h * w) by (nonlinear_arith)
        requires
            i0 * h <= t1 < (i0 + 1) * h,
            t2 == t1 * w + i2,
            0 <= i2 < w,
    ;
    assert(i0 * h * w * d <= off < (i0 + 1) * h * w * d) by (nonlinear_arith)
        requires
            i0 * h * w <= t2 < (i0 + 1) * h * w,
            off == t2 * d + i3,
            0 <= i3 < d,
    ;
    let u1 = j0 * h + j1;
    let u2 = u1 * w + j2;
    let other = u2 * d + j3;
    if off == other {
        lemma_fundamental_div_mod_converse(off, d, t2, i3);
        lemma_fundamental_div_mod_converse(off, d, u2, j3);
        lemma_fundamental_div_mod_converse(t2, w, t1, i2);
        lemma_fundamental_div_mod_converse(t2, w, u1, j2);
        lemma_fundamental_div_mod_converse(t1, h, i0, i1);
        lemma_fundamental_div_mod_converse(t1, h, j0, j1);
    }
}

/// Every position below `pool_count` decodes to an output element in range whose
/// row-major position it is.
proof fn lemma_decode_in_range(g: PoolGeometry, j: int)
    requires
        pool_active(g),
        0 <= j < pool_count(g),
    ensures
        0 <= dec_b(g, j) < g.batches,
        0 <= dec_y(g, j) < g.output_height,
        0 <= dec_x(g, j) < g.output_width,
        0 <= dec_c(g, j) < g.output_depth,
        offset4(
            g.output_height,
            g.output_width,
            g.output_depth,
            dec_b(g, j),
            dec_y(g, j),
            dec_x(g, j),
            dec_c(g, j),
        ) == j,
{
    let oh = g.output_height;
    let ow = g.output_width;
    let od = g.output_depth;
    let bb = g.batches;
    let q1 = j / od;
    let q2 = q1 / ow;
    let q3 = q2 / oh;
    let c = j % od;
    let x = q1 % ow;
    let y = q2 % oh;
    lemma_fundamental_div_mod(j, od);
    lemma_mod_pos_bound(j, od);
    assert(0 <= q1 < bb * oh * ow) by (nonlinear_arith)
        requires
            j == od * q1 + c,
            0 <= c < od,
            0 <= j < bb * oh * ow * od,
            od > 0,
    ;
    lemma_fundamental_div_mod(q1, ow);
    lemma_mod_pos_bound(q1, ow);
    assert(0 <= q2 < bb * oh) by (nonlinear_arith)
        requires
            q1 == ow * q2 + x,
            0 <= x < ow,
            0 <= q1 < bb * oh * ow,
            ow > 0,
    ;
    lemma_fundamental_div_mod(q2, oh);
    lemma_mod_pos_bound(q2, oh);
    assert(0 <= q3 < bb) by (nonlinear_arith)
        requires
            q2 == oh * q3 + y,
            0 <= y < oh,
            0 <= q2 < bb * oh,
            oh > 0,
    ;
    assert(q3 * oh + y == q2 && q2 * ow + x == q1 && q1 * od + c == j) by (nonlinear_arith)
        requires
            q2 == oh * q3 + y,
            q1 == ow * q2 + x,
            j == od * q1 + c,
    ;
}

/// Raising input taps (and the starting value) never lowers a row's running maximum.
proof fn lemma_row_max_monotone(
    in1: Seq<i32>,
    in2: Seq<i32>,
    g: PoolGeometry,
    b: int,
    c: int,
    in_y: int,
    x_org: int,
    acc1: i32,
    acc2: i32,
    lo: int,
    hi: int,
)
    requires
        acc1 <= acc2,
        forall|fx: int|
            lo <= fx < hi ==> #[trigger] row_tap(in1, g, b, c, in_y, x_org, fx) <= row_tap(
                in2,
                g,
                b,
                c,
                in_y,
                x_org,
                fx,
            ),
    ensures
        row_max(in1, g, b, c, in_y, x_org, acc1, lo, hi) <= row_max(
            in2,
            g,
            b,
            c,
            in_y,
            x_org,
            acc2,
            lo,
            hi,
        ),
    decreases hi - lo,
{
    if hi > lo {
        lemma_row_max_monotone(in1, in2, g, b, c, in_y, x_org, acc1, acc2, lo, hi - 1);
        assert(row_tap(in1, g, b, c, in_y, x_org, hi - 1) <= row_tap(in2, g, b, c, in_y, x_org, hi - 1));
    }
}

/// Raising input taps (and the starting value) never lowers a window's running maximum.
proof fn lemma_window_max_monotone(
    in1: Seq<i32>,
    in2: Seq<i32>,
    g: PoolGeometry,
    b: int,
    c: int,
    y_org: int,
    x_org: int,
    acc1: i32,
    acc2: i32,
    ylo: int,
    yhi: int,
    xlo: int,
    xhi: int,
)
    requires
        acc1 <= acc2,
        forall|fy: int, fx: int|
            ylo <= fy < yhi && xlo <= fx < xhi ==> #[trigger] window_tap(
                in1,
                g,
                b,
                c,
                y_org,
                x_org,
                fy,
                fx,
            ) <= window_tap(in2, g, b, c, y_org, x_org, fy, fx),
    ensures
        window_max(in1, g, b, c, y_org, x_org, acc1, ylo, yhi, xlo, xhi) <= window_max(
            in2,
            g,
            b,
            c,
            y_org,
            x_org,
            acc2,
            ylo,
            yhi,
            xlo,
            xhi,
        ),
    decreases yhi - ylo,
{
    if yhi > ylo {
        lemma_window_max_monotone(in1, in2, g, b, c, y_org, x_org, acc1, acc2, ylo, yhi - 1, xlo, xhi);
        let row_y = y_org + yhi - 1;
        assert forall|fx: int| xlo <= fx < xhi implies #[trigger] row_tap(in1, g, b, c, row_y, x_org, fx)
            <= row_tap(in2, g, b, c, row_y, x_org, fx) by {
            assert(window_tap(in1, g, b, c, y_org, x_org, yhi - 1, fx) <= window_tap(
                in2,
                g,
                b,
                c,
                y_org,
                x_org,
                yhi - 1,
                fx,
            ));
        }
        lemma_row_max_monotone(
            in1,
            in2,
            g,
            b,
            c,
            row_y,
            x_org,
            window_max(in1, g, b, c, y_org, x_org, acc1, ylo, yhi - 1, xlo, xhi),
            window_max(in2, g, b, c, y_org, x_org, acc2, ylo, yhi - 1, xlo, xhi),
            xlo,
            xhi,
        );
    }
}

/// Max pooling followed by the fused activation is monotone in the input: raising input
/// elements never lowers an output element.
pub proof fn lemma_max_pool_monotone(
    in1: Seq<i32>,
    in2: Seq<i32>,
    output: Seq<i32>,
    g: PoolGeometry,
    act_min: i32,
    act_max: i32,
)
    requires
        in1.len() == in2.len(),
        max_pool_reads_safe(g, in1.len() as int),
        forall|k: int| 0 <= k < in1.len() ==> in1[k] <= in2[k],
    ensures
        forall|j: int|
            0 <= j < output.len() ==> #[trigger] max_pool_output(in1, output, g, act_min, act_max)[j]
                <= max_pool_output(in2, output, g, act_min, act_max)[j],
{
    assert forall|j: int| 0 <= j < output.len() implies #[trigger] max_pool_output(
        in1,
        output,
        g,
        act_min,
        act_max,
    )[j] <= max_pool_output(in2, output, g, act_min, act_max)[j] by {
        if pool_active(g) && j < pool_count(g) {
            lemma_decode_in_range(g, j);
            let b = dec_b(g, j);
            let y = dec_y(g, j);
            let x = dec_x(g, j);
            let c = dec_c(g, j);
            let yo = y_origin(g, y);
            let xo = x_origin(g, x);
            assert forall|fy: int, fx: int|
                window_start(yo) <= fy < window_end(yo, g.filter_h, g.input_height) && window_start(xo)
                    <= fx < window_end(xo, g.filter_w, g.input_width) implies #[trigger] window_tap(
                in1,
                g,
                b,
                c,
                yo,
                xo,
                fy,
                fx,
            ) <= window_tap(in2, g, b, c, yo, xo, fy, fx) by {
                assert(in_window(g, y, x, fy, fx));
                assert(read_computable(g, in1.len() as int, b, y, x, c, fy, fx));
            }
            lemma_window_max_monotone(
                in1,
                in2,
                g,
                b,
                c,
                yo,
                xo,
                i32::MIN,
                i32::MIN,
                window_start(yo),
                window_end(yo, g.filter_h, g.input_height),
                window_start(xo),
                window_end(xo, g.filter_w, g.input_width),
            );
        }
    }
}

/// A 1x1 pool with unit strides, no padding, output extents equal to the input's and the
/// whole `i32` range as activation range is the identity on every element it writes.
pub proof fn lemma_max_pool_identity(input: Seq<i32>, output: Seq<i32>, g: PoolGeometry)
    requires
        g.filter_w == 1,
        g.filter_h == 1,
        g.stride_w == 1,
        g.stride_h == 1,
        g.padding_w == 0,
        g.padding_h == 0,
        g.output_height == g.input_height,
        g.output_width == g.input_width,
        g.output_depth == g.input_depth,
    ensures
        forall|j: int|
            0 <= j < output.len() && pool_active(g) && j < pool_count(g) ==> #[trigger] max_pool_output(
                input,
                output,
                g,
                i32::MIN,
                i32::MAX,
            )[j] == input[j],
{
    assert forall|j: int|
        0 <= j < output.len() && pool_active(g) && j < pool_count(g) implies #[trigger] max_pool_output(
        input,
        output,
        g,
        i32::MIN,
        i32::MAX,
    )[j] == input[j] by {
        lemma_decode_in_range(g, j);
        let b = dec_b(g, j);
        let y = dec_y(g, j);
        let x = dec_x(g, j);
        let c = dec_c(g, j);
        let yo = y_origin(g, y);
        let xo = x_origin(g, x);
        assert(yo == y && xo == x);
        assert(window_start(yo) == 0 && window_end(yo, g.filter_h, g.input_height) == 1);
        assert(window_start(xo) == 0 && window_end(xo, g.filter_w, g.input_width) == 1);
        let v = input_at(input, g, b, c, y, x);
        assert(v == input[j]);
        assert(window_max(input, g, b, c, yo, xo, i32::MIN, 0, 0, 0, 1) == i32::MIN);
        assert(row_max(input, g, b, c, yo, xo, i32::MIN, 0, 0) == i32::MIN);
        assert(row_max(input, g, b, c, yo, xo, i32::MIN, 0, 1) == v);
        assert(window_max(input, g, b, c, yo, xo, i32::MIN, 0, 1, 0, 1) == v);
    }
}

/// The pooling parameters that `eval` uses agree: activation range, strides, filter
/// extents and paddings.
pub open spec fn same_pool_parameters(o1: BLiteBuiltinOption, o2: BLiteBuiltinOption) -> bool {
    match (o1, o2) {
        (
            BLiteBuiltinOption::MaxPool2DOptions {
                fused_activation_min: min1,
                fused_activation_max: max1,
                stride_w: sw1,
                stride_h: sh1,
                filter_w: fw1,
                filter_h: fh1,
                padding_w: pw1,
                padding_h: ph1,
                ..
            },
            BLiteBuiltinOption::MaxPool2DOptions {
                fused_activation_min: min2,
                fused_activation_max: max2,
                stride_w: sw2,
                stride_h: sh2,
                filter_w: fw2,
                filter_h: fh2,
                padding_w: pw2,
                padding_h: ph2,
                ..
            },
        ) => min1 == min2 && max1 == max2 && sw1 == sw2 && sh1 == sh2 && fw1 == fw2 && fh1 == fh2
            && pw1 == pw2 && ph1 == ph2,
        _ => false,
    }
}

/// `eval` ignores the options' activation code, padding kind and padding offsets (and its
/// context): options that agree on the rest give the same requirement, result and tensors.
pub proof fn lemma_eval_ignores_unused_options(
    ts: Seq<BLiteArrayView>,
    node: BLiteNodeView,
    o1: BLiteBuiltinOption,
    o2: BLiteBuiltinOption,
)
    requires
        same_pool_parameters(o1, o2),
    ensures
        max_pool_eval_requires(ts, node, o1) == max_pool_eval_requires(ts, node, o2),
        max_pool_eval_spec(ts, node, o1) == max_pool_eval_spec(ts, node, o2),
{
}

/// Parsing max pooling options copies the strides and the filter extents in place
/// (width to width, height to height), keeps the activation code and padding kind, takes
/// the activation's range, and splits the total padding of each axis, computed from the
/// width (`dims[2]`) or height (`dims[1]`) of the input and output tensors, into half and
/// remainder; without pooling options it fails with `NotFoundOption`.
pub proof fn lemma_parser_keeps_axes(op: TfLiteOperator, ts: Seq<BLiteArrayView>)
    requires
        max_pool_parser_requires(op, ts),
    ensures
        !(op.builtin_options is Pool2DOptions) ==> max_pool_parse_spec(op, ts) == Err::<
            BLiteBuiltinOption,
            BLiteError,
        >(BLiteError::NotFoundOption),
        op.builtin_options matches TfLiteBuiltinOptions::Pool2DOptions {
            padding: kind,
            stride_w: sw,
            stride_h: sh,
            filter_width: fw,
            filter_height: fh,
            fused_activation_function: act,
        } ==> match spec_fused_activation_range(act as i32) {
            Err(e) => max_pool_parse_spec(op, ts) == Err::<BLiteBuiltinOption, BLiteError>(e),
            Ok((lo, hi)) => {
                let input = ts[vector_i32_items(op.inputs.unwrap())[0] as int];
                let output = ts[vector_i32_items(op.outputs.unwrap())[0] as int];
                let total_w = (output.dims[2] - 1) * sw + fw - input.dims[2];
                let total_h = (output.dims[1] - 1) * sh + fh - input.dims[1];
                max_pool_parse_spec(op, ts) matches Ok(
                    BLiteBuiltinOption::MaxPool2DOptions {
                        op_code,
                        fused_activation_min,
                        fused_activation_max,
                        padding,
                        stride_w,
                        stride_h,
                        filter_w,
                        filter_h,
                        padding_w,
                        padding_h,
                        padding_w_offset,
                        padding_h_offset,
                    },
                ) && op_code == act as i32 && fused_activation_min == lo && fused_activation_max == hi
                    && padding == kind as usize && stride_w == sw && stride_h == sh && filter_w == fw
                    && filter_h == fh && 0 <= padding_w_offset <= 1 && 0 <= padding_h_offset <= 1
                    && 2 * padding_w + padding_w_offset == (if total_w > 0 {
                    total_w
                } else {
                    0
                }) && 2 * padding_h + padding_h_offset == (if total_h > 0 {
                    total_h
                } else {
                    0
                })
            },
        },
{
}

/// The position of element `(b, iy, ix, c)` of an NHWC tensor: `dims[1]` is its height,
/// `dims[2]` its width and `dims[3]` its depth.
pub open spec fn nhwc_index(t: BLiteArrayView, b: int, iy: int, ix: int, c: int) -> int {
    ((b * t.dims[1] + iy) * t.dims[2] + ix) * t.dims[3] + c
}

/// The element `(b, iy, ix, c)` of an NHWC tensor.
pub open spec fn nhwc_at(t: BLiteArrayView, b: int, iy: int, ix: int, c: int) -> i32 {
    t.data[nhwc_index(t, b, iy, ix, c)]
}

/// `eval` pools NHWC tensors: output element `(b, y, x, c)` (with `y` below the output's
/// `dims[1]` and `x` below its `dims[2]`) is the fused activation of a value `m` that is at
/// least every input element `(b, iy, ix, c)` with `iy` in `[y*stride_h - padding_h, +
/// filter_h)` and `ix` in `[x*stride_w - padding_w, + filter_w)`, clipped to the input's
/// `dims[1]` and `dims[2]`, and is one of them or the lowest value when none is there.
pub proof fn lemma_eval_pools_nhwc(
    ts: Seq<BLiteArrayView>,
    node: BLiteNodeView,
    opt: BLiteBuiltinOption,
    b: int,
    y: int,
    x: int,
    c: int,
)
    requires
        max_pool_eval_requires(ts, node, opt),
        opt is MaxPool2DOptions,
        0 <= b < ts[node.inputs[0] as int].dims[0],
        0 <= y < ts[node.outputs[0] as int].dims[1],
        0 <= x < ts[node.outputs[0] as int].dims[2],
        0 <= c < ts[node.outputs[0] as int].dims[3],
    ensures
        match opt {
            BLiteBuiltinOption::MaxPool2DOptions {
                fused_activation_min: lo,
                fused_activation_max: hi,
                stride_w: sw,
                stride_h: sh,
                filter_w: fw,
                filter_h: fh,
                padding_w: pw,
                padding_h: ph,
                ..
            } => {
                let input = ts[node.inputs[0] as int];
                let o = node.outputs[0] as int;
                let after = max_pool_eval_spec(ts, node, opt);
                let yo = y * sh - ph;
                let xo = x * sw - pw;
                &&& after.0 == Ok::<(), BLiteError>(())
                &&& after.1.len() == ts.len()
                &&& after.1[o].dims == ts[o].dims
                &&& exists|m: i32|
                    {
                        &&& after.1[o].data[nhwc_index(ts[o], b, y, x, c)]
                            == spec_activation_with_min_max(m, lo, hi)
                        &&& forall|iy: int, ix: int|
                            0 <= iy < input.dims[1] && yo <= iy < yo + fh && 0 <= ix < input.dims[2]
                                && xo <= ix < xo + fw ==> #[trigger] nhwc_at(input, b, iy, ix, c) <= m
                        &&& (m == i32::MIN || exists|iy: int, ix: int|
                            0 <= iy < input.dims[1] && yo <= iy < yo + fh && 0 <= ix < input.dims[2]
                                && xo <= ix < xo + fw && #[trigger] nhwc_at(input, b, iy, ix, c) == m)
                    }
            },
            _ => true,
        },
{
    match opt {
        BLiteBuiltinOption::MaxPool2DOptions {
            fused_activation_min: lo,
            fused_activation_max: hi,
            stride_w: sw,
            stride_h: sh,
            filter_w: fw,
            filter_h: fh,
            padding_w: pw,
            padding_h: ph,
            ..
        } => {
            let i = node.inputs[0] as int;
            let o = node.outputs[0] as int;
            let input = ts[i];
            let g = eval_geometry(ts[i], ts[o], sw, sh, fw, fh, pw, ph);
            assert(pool_active(g));
            lemma_output_position(g, b, y, x, c);
            let k = offset4(g.output_height, g.output_width, g.output_depth, b, y, x, c);
            assert(k == nhwc_index(ts[o], b, y, x, c));
            let after = max_pool_eval_spec(ts, node, opt);
            assert(after.1[o].data[k] == pooled_value(input.data, g, lo, hi, b, y, x, c));
            lemma_pooled_value_is_window_maximum(input.data, g, lo, hi, b, y, x, c);
            let yo = y_origin(g, y);
            let xo = x_origin(g, x);
            let m = window_max(
                input.data,
                g,
                b,
                c,
                yo,
                xo,
                i32::MIN,
                window_start(yo),
                window_end(yo, g.filter_h, g.input_height),
                window_start(xo),
                window_end(xo, g.filter_w, g.input_width),
            );
            assert forall|iy: int, ix: int|
                0 <= iy < input.dims[1] && yo <= iy < yo + fh && 0 <= ix < input.dims[2] && xo <= ix < xo
                    + fw implies #[trigger] nhwc_at(input, b, iy, ix, c) <= m by {
                assert(in_window(g, y, x, iy - yo, ix - xo));
                assert(window_tap(input.data, g, b, c, yo, xo, iy - yo, ix - xo) == nhwc_at(
                    input,
                    b,
                    iy,
                    ix,
                    c,
                ));
            }
            if m != i32::MIN {
                let (fy, fx) = choose|fy: int, fx: int|
                    in_window(g, y, x, fy, fx) && #[trigger] window_tap(input.data, g, b, c, yo, xo, fy, fx)
                        == m;
                assert(window_tap(input.data, g, b, c, yo, xo, fy, fx) == nhwc_at(
                    input,
                    b,
                    yo + fy,
                    xo + fx,
                    c,
                ));
            }
        },
        _ => {},
    }
}

/// `a * d + d == (a + 1) * d`.
proof fn lemma_next_row(a: int, d: int)
    ensures
        a * d + d == (a + 1) * d,
{
    assert(a * d + d == (a + 1) * d) by (nonlinear_arith);
}

/// Equal factors give equal products.
proof fn lemma_mul_congruent(a: int, b: int, d: int)
    requires
        a == b,
    ensures
        a * d == b * d,
{
}

/// An output element's position is computable, lies below `pool_count`, and decodes back
/// to the element.
proof fn lemma_output_position(g: PoolGeometry, b: int, y: int, x: int, c: int)
    requires
        pool_active(g),
        pool_count(g) <= i32::MAX + 1,
        0 <= b < g.batches,
        0 <= y < g.output_height,
        0 <= x < g.output_width,
        0 <= c < g.output_depth,
    ensures
        offset_computable(g.output_height, g.output_width, g.output_depth, b, y, x, c),
        0 <= offset4(g.output_height, g.output_width, g.output_depth, b, y, x, c) < pool_count(g),
        dec_b(g, offset4(g.output_height, g.output_width, g.output_depth, b, y, x, c)) == b,
        dec_y(g, offset4(g.output_height, g.output_width, g.output_depth, b, y, x, c)) == y,
        dec_x(g, offset4(g.output_height, g.output_width, g.output_depth, b, y, x, c)) == x,
        dec_c(g, offset4(g.output_height, g.output_width, g.output_depth, b, y, x, c)) == c,
{
    let oh = g.output_height;
    let ow = g.output_width;
    let od = g.output_depth;
    let t1 = b * oh + y;
    let t2 = t1 * ow + x;
    let j = t2 * od + c;
    assert(0 <= b * oh <= t1 < g.batches * oh) by (nonlinear_arith)
        requires
            0 <= b < g.batches,
            0 <= y < oh,
            t1 == b * oh + y,
    ;
    assert(0 <= t1 * ow <= t2 < g.batches * oh * ow) by (nonlinear_arith)
        requires
            0 <= t1 < g.batches * oh,
            0 <= x < ow,
            t2 == t1 * ow + x,
    ;
    assert(0 <= t2 * od <= j < g.batches * oh * ow * od) by (nonlinear_arith)
        requires
            0 <= t2 < g.batches * oh * ow,
            0 <= c < od,
            j == t2 * od + c,
    ;
    lemma_fundamental_div_mod_converse(j, od, t2, c);
    lemma_fundamental_div_mod_converse(t2, ow, t1, x);
    lemma_fundamental_div_mod_converse(t1, oh, b, y);
}

} // verus!
