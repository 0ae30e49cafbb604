use vstd::prelude::*;
use crate::kernel::micro_activation::{relu, spec_relu};
use crate::kernel::micro_builtin_options::{BLiteActivation, BLiteBuiltinOption};
use crate::kernel::micro_operator::BLiteOperator;
use crate::kernel::micro_operator::max_pool2d::in_i32;
use crate::micro_array::{BLiteArray, BLiteArrayView, tensor_views};
use crate::micro_context::BLiteContext;
use crate::micro_errors::BLiteError;
use crate::micro_node::{BLiteNode, BLiteNodeView};
use crate::micro_registration::{BLiteKernel, BLiteRegistration};
use crate::tflite_model::{TfLiteBuiltinOptions, TfLiteOperator};

verus! {

/// The running total after the first `a` products of output row `o`, starting from
/// `prev`: each product multiplies input element `k` by filter element `o * depth + k`.
pub open spec fn row_total(
    input: Seq<i32>,
    filter: Seq<i32>,
    depth: int,
    prev: int,
    o: int,
    a: int,
) -> int
    decreases a,
{
    if a <= 0 {
        prev
    } else {
        row_total(input, filter, depth, prev, o, a - 1) + input[a - 1] * filter[o * depth + a - 1]
    }
}

/// The running total when output row `o` starts: it is never reset, so it holds the
/// products of every earlier row.
pub open spec fn total_before_row(input: Seq<i32>, filter: Seq<i32>, depth: int, o: int) -> int
    decreases o,
{
    if o <= 0 {
        0
    } else {
        row_total(
            input,
            filter,
            depth,
            total_before_row(input, filter, depth, o - 1),
            o - 1,
            depth,
        )
    }
}

/// Product `a` of output row `o`, and the running total after it, fit in `i32`.
pub open spec fn fc_step_computable(
    input: Seq<i32>,
    filter: Seq<i32>,
    depth: int,
    o: int,
    a: int,
) -> bool {
    &&& in_i32(input[a] * filter[o * depth + a])
    &&& in_i32(
        row_total(input, filter, depth, total_before_row(input, filter, depth, o), o, a + 1),
    )
}

/// The output element of row `o`, before the activation: the running total after the
/// row plus its bias.
pub open spec fn fc_row_value(
    input: Seq<i32>,
    filter: Seq<i32>,
    bias: Seq<i32>,
    depth: int,
    o: int,
) -> int {
    total_before_row(input, filter, depth, o + 1) + bias[o]
}

/// The extents `eval` reads from the filter's last two dimensions, as `usize`.
pub open spec fn fc_output_depth(filter: BLiteArrayView) -> int {
    filter.dims[filter.dims.len() - 2] as usize as int
}

pub open spec fn fc_accum_depth(filter: BLiteArrayView) -> int {
    filter.dims[filter.dims.len() - 1] as usize as int
}

/// The computation of `eval` stays in bounds and free of overflow.
pub open spec fn fc_compute_safe(
    input: Seq<i32>,
    filter: Seq<i32>,
    bias: Seq<i32>,
    output: Seq<i32>,
    out_depth: int,
    depth: int,
) -> bool {
    &&& out_depth <= output.len()
    &&& out_depth <= bias.len()
    &&& out_depth > 0 ==> depth <= input.len() && out_depth * depth <= filter.len()
    &&& forall|o: int, a: int|
        0 <= o < out_depth && 0 <= a < depth ==> #[trigger] fc_step_computable(
            input,
            filter,
            depth,
            o,
            a,
        )
    &&& forall|o: int| 0 <= o < out_depth ==> in_i32(#[trigger] fc_row_value(input, filter, bias, depth, o))
}

/// The output data after the rows are computed and the activation applied.
pub open spec fn fc_output(
    input: Seq<i32>,
    filter: Seq<i32>,
    bias: Seq<i32>,
    output: Seq<i32>,
    out_depth: int,
    depth: int,
    activation: Option<BLiteActivation>,
) -> Seq<i32> {
    Seq::new(
        output.len(),
        |j: int|
            {
                let v = if j < out_depth {
                    fc_row_value(input, filter, bias, depth, j) as i32
                } else {
                    output[j]
                };
                match activation {
                    Some(BLiteActivation::Relu) => spec_relu(v),
                    None => v,
                }
            },
    )
}

/// The node's first three inputs (input, filter, bias) and first output.
pub open spec fn fc_tensor(ts: Seq<BLiteArrayView>, v: Seq<i32>, k: int) -> BLiteArrayView {
    ts[v[k] as int]
}

/// The inputs on which `eval` runs without a panic: the node names an input, a filter and
/// a bias that exist and an existing output tensor distinct from all three; with fully
/// connected options the filter has two dimensions and the computation is safe.
pub open spec fn fc_eval_requires(
    ts: Seq<BLiteArrayView>,
    node: BLiteNodeView,
    opt: BLiteBuiltinOption,
) -> bool {
    &&& node.inputs.len() >= 3
    &&& node.outputs.len() >= 1
    &&& forall|k: int| 0 <= k < 3 ==> 0 <= #[trigger] node.inputs[k] < ts.len()
    &&& 0 <= node.outputs[0] < ts.len()
    &&& forall|k: int| 0 <= k < 3 ==> #[trigger] node.inputs[k] != node.outputs[0]
    &&& opt is FullyConnectedOptions ==> {
        let filter = fc_tensor(ts, node.inputs, 1);
        &&& filter.dims.len() >= 2
        &&& fc_compute_safe(
            fc_tensor(ts, node.inputs, 0).data,
            filter.data,
            fc_tensor(ts, node.inputs, 2).data,
            fc_tensor(ts, node.outputs, 0).data,
            fc_output_depth(filter),
            fc_accum_depth(filter),
        )
    }
}

/// What `eval` returns and leaves in the tensors: with fully connected options the
/// output tensor's data becomes `fc_output`; otherwise it fails and changes nothing.
pub open spec fn fc_eval_spec(
    ts: Seq<BLiteArrayView>,
    node: BLiteNodeView,
    opt: BLiteBuiltinOption,
) -> (Result<(), BLiteError>, Seq<BLiteArrayView>) {
    match opt {
        BLiteBuiltinOption::FullyConnectedOptions { activation, .. } => {
            let filter = fc_tensor(ts, node.inputs, 1);
            let output = fc_tensor(ts, node.outputs, 0);
            (
                Ok(()),
                ts.update(
                    node.outputs[0] as int,
                    BLiteArrayView {
                        data: fc_output(
                            fc_tensor(ts, node.inputs, 0).data,
                            filter.data,
                            fc_tensor(ts, node.inputs, 2).data,
                            output.data,
                            fc_output_depth(filter),
                            fc_accum_depth(filter),
                            activation,
                        ),
                        dims: output.dims,
                    },
                ),
            )
        },
        BLiteBuiltinOption::NotInitialize => (Err(BLiteError::NotInitializeActivation), ts),
        _ => (Err(BLiteError::NotCompatibleOption), ts),
    }
}

/// The options `parser` builds: the fused activation code (-1 when the operator has no
/// fully connected options) and ReLU exactly when that code is 1.
pub open spec fn fc_parse_spec(op: TfLiteOperator) -> BLiteBuiltinOption {
    let op_code = match op.builtin_options {
        TfLiteBuiltinOptions::FullyConnectedOptions { fused_activation_function } => fused_activation_function as i32,
        _ => -1i32,
    };
    BLiteBuiltinOption::FullyConnectedOptions {
        op_code,
        activation: if op_code == 1 {
            Some(BLiteActivation::Relu)
        } else {
            None
        },
    }
}

/// The fully connected operator: output unit `o` is the bias of `o` plus a running total
/// that adds the products of filter row `o` with the input to those of every earlier row.
#[derive(Debug, Clone, Copy)]
pub struct OpFullyConnected {}

impl OpFullyConnected {
    /// The builtin operator code of fully connected.
    pub const OPCODE: i32 = 9;

    /// The registration of fully connected, before its options are parsed.
    pub open spec fn spec_regstration() -> BLiteRegistration {
        BLiteRegistration {
            op_code: 9,
            eval: BLiteKernel::FullyConnected,
            builtin_option: BLiteBuiltinOption::NotInitialize,
        }
    }

    /// The operator as the resolver hands it out.
    pub fn fully_connected() -> (r: BLiteOperator)
        ensures
            r.registration == Self::spec_regstration(),
            r.parser == BLiteKernel::FullyConnected,
    {
        BLiteOperator { registration: OpFullyConnected::regstration(), parser: BLiteKernel::FullyConnected }
    }

    /// Reads fully connected's options from a model operator.
    pub fn parser(op: &TfLiteOperator) -> (r: Result<BLiteBuiltinOption, BLiteError>)
        ensures
            r == Ok::<BLiteBuiltinOption, BLiteError>(fc_parse_spec(*op)),
    {
        let mut op_code: i32 = -1;
        match op.builtin_options {
            TfLiteBuiltinOptions::FullyConnectedOptions { fused_activation_function } => {
                op_code = fused_activation_function as i32;
            },
            _ => {},
        }
        if op_code == 1 {
            Ok(BLiteBuiltinOption::FullyConnectedOptions { op_code: op_code, activation: Some(BLiteActivation::Relu) })
        } else {
            Ok(BLiteBuiltinOption::FullyConnectedOptions { op_code: op_code, activation: None })
        }
    }

    pub fn regstration() -> (r: BLiteRegistration)
        ensures
            r == Self::spec_regstration(),
    {
        BLiteRegistration::new(Self::OPCODE, BLiteKernel::FullyConnected, BLiteBuiltinOption::NotInitialize)
    }

    /// Evaluates fully connected on the node's input, filter and bias into its output.
    pub fn eval(
        _context: &BLiteContext,
        tensors: &mut Vec<BLiteArray>,
        node: &BLiteNode,
        builtin_option: BLiteBuiltinOption,
    ) -> (r: Result<(), BLiteError>)
        requires
            fc_eval_requires(tensor_views(old(tensors)@), node@, builtin_option),
        ensures
            (r, tensor_views(final(tensors)@)) == fc_eval_spec(
                tensor_views(old(tensors)@),
                node@,
                builtin_option,
            ),
    {
        let ghost ts = tensor_views(tensors@);
        let idx_input = node.inputs[0] as usize;
        let idx_filter = node.inputs[1] as usize;
        let idx_bias = node.inputs[2] as usize;
        let idx_output = node.outputs[0] as usize;
        let activation = match builtin_option {
            BLiteBuiltinOption::FullyConnectedOptions { op_code: _, activation } => activation,
            BLiteBuiltinOption::NotInitialize => {
                return Err(BLiteError::NotInitializeActivation);
            },
            _ => {
                return Err(BLiteError::NotCompatibleOption);
            },
        };
        let mut output = BLiteArray::empty();
        std::mem::swap(&mut output, &mut tensors[idx_output]);
        let input = &tensors[idx_input];
        let filter = &tensors[idx_filter];
        let bias = &tensors[idx_bias];
        assert(input@ == ts[idx_input as int]);
        assert(filter@ == ts[idx_filter as int]);
        assert(bias@ == ts[idx_bias as int]);
        assert(output@ == ts[idx_output as int]);
        let ghost out0 = output.data@;

        let output_depth = filter.dims[filter.dims.len() - 2] as usize;
        let accum_depth = filter.dims[filter.dims.len() - 1] as usize;

        let mut total: i32 = 0;
        let mut out_d: usize = 0;
        while out_d < output_depth
            invariant
                0 <= out_d <= output_depth,
                output_depth == fc_output_depth(filter@),
                accum_depth == fc_accum_depth(filter@),
                fc_compute_safe(
                    input.data@,
                    filter.data@,
                    bias.data@,
                    out0,
                    output_depth as int,
                    accum_depth as int,
                ),
                output.data@.len() == out0.len(),
                output.dims@ == ts[idx_output as int].dims,
                total == total_before_row(input.data@, filter.data@, accum_depth as int, out_d as int),
                forall|j: int|
                    0 <= j < out_d ==> output.data@[j] == fc_row_value(
                        input.data@,
                        filter.data@,
                        bias.data@,
                        accum_depth as int,
                        j,
                    ) as i32,
                forall|j: int| out_d <= j < out0.len() ==> output.data@[j] == out0[j],
            decreases output_depth - out_d,
        {
            let ghost row_start = total as int;
            let mut acc_d: usize = 0;
            while acc_d < accum_depth
                invariant
                    0 <= out_d < output_depth,
                    0 <= acc_d <= accum_depth,
                    output_depth == fc_output_depth(filter@),
                    accum_depth == fc_accum_depth(filter@),
                    fc_compute_safe(
                        input.data@,
                        filter.data@,
                        bias.data@,
                        out0,
                        output_depth as int,
                        accum_depth as int,
                    ),
                    row_start == total_before_row(
                        input.data@,
                        filter.data@,
                        accum_depth as int,
                        out_d as int,
                    ),
                    total == row_total(
                        input.data@,
                        filter.data@,
                        accum_depth as int,
                        row_start,
                        out_d as int,
                        acc_d as int,
                    ),
                decreases accum_depth - acc_d,
            {
                assert(fc_step_computable(
                    input.data@,
                    filter.data@,
                    accum_depth as int,
                    out_d as int,
                    acc_d as int,
                ));
                assert(out_d * accum_depth + acc_d < output_depth * accum_depth) by (nonlinear_arith)
                    requires
                        out_d < output_depth,
                        acc_d < accum_depth,
                ;
                assert(out_d * accum_depth <= out_d * accum_depth + acc_d) by (nonlinear_arith)
                    requires
                        acc_d >= 0,
                ;
                assert(output_depth * accum_depth <= filter.data@.len());
                assert(filter.data@.len() == filter.data.len());
                let filter_idx = out_d * accum_depth + acc_d;
                total = total + input.data[acc_d] * filter.data[filter_idx];
                acc_d = acc_d + 1;
            }
            assert(fc_row_value(input.data@, filter.data@, bias.data@, accum_depth as int, out_d as int) == total + bias.data@[out_d as int]);
            assert(in_i32(fc_row_value(input.data@, filter.data@, bias.data@, accum_depth as int, out_d as int)));
            output.data[out_d] = total + bias.data[out_d];
            out_d = out_d + 1;
        }
        let ghost before_activation = output.data@;
        match activation {
            Some(BLiteActivation::Relu) => {
                let mut i: usize = 0;
                while i < output.data.len()
                    invariant
                        0 <= i <= output.data@.len(),
                        output.dims@ == ts[idx_output as int].dims,
                        output.data@.len() == before_activation.len(),
                        forall|j: int| 0 <= j < i ==> output.data@[j] == spec_relu(before_activation[j]),
                        forall|j: int| i <= j < before_activation.len() ==> output.data@[j] == before_activation[j],
                    decreases output.data@.len() - i,
                {
                    let v = relu(output.data[i]);
                    output.data[i] = v;
                    i = i + 1;
                }
            },
            None => {},
        }
        proof {
            let expected = fc_output(
                input.data@,
                filter.data@,
                bias.data@,
                out0,
                output_depth as int,
                accum_depth as int,
                activation,
            );
            assert(output.data@ =~= expected);
        }
        std::mem::swap(&mut output, &mut tensors[idx_output]);
        proof {
            assert(tensor_views(tensors@) =~= fc_eval_spec(ts, node@, builtin_option).1);
        }
        Ok(())
    }
}

/// With ReLU as its activation, fully connected writes no negative element.
pub proof fn lemma_fc_relu_output_nonnegative(
    input: Seq<i32>,
    filter: Seq<i32>,
    bias: Seq<i32>,
    output: Seq<i32>,
    out_depth: int,
    depth: int,
)
    ensures
        forall|j: int|
            0 <= j < output.len() ==> #[trigger] fc_output(
                input,
                filter,
                bias,
                output,
                out_depth,
                depth,
                Some(BLiteActivation::Relu),
            )[j] >= 0,
{
}

/// The first output element is the dot product of the input with the first filter row,
/// plus its bias; each later element adds its own row's products to the running total of
/// every earlier row.
pub proof fn lemma_fc_row_values(
    input: Seq<i32>,
    filter: Seq<i32>,
    bias: Seq<i32>,
    depth: int,
    o: int,
)
    requires
        o >= 0,
    ensures
        fc_row_value(input, filter, bias, depth, o) == row_total(
            input,
            filter,
            depth,
            total_before_row(input, filter, depth, o),
            o,
            depth,
        ) + bias[o],
        o == 0 ==> fc_row_value(input, filter, bias, depth, 0) == row_total(
            input,
            filter,
            depth,
            0,
            0,
            depth,
        ) + bias[0],
{
}

/// The activation is applied once to every element of the output: with ReLU, each element
/// is ReLU of what it holds without an activation, elements past the output units included.
pub proof fn lemma_fc_activation_applied_elementwise(
    input: Seq<i32>,
    filter: Seq<i32>,
    bias: Seq<i32>,
    output: Seq<i32>,
    out_depth: int,
    depth: int,
)
    ensures
        fc_output(input, filter, bias, output, out_depth, depth, Some(BLiteActivation::Relu)).len()
            == output.len(),
        fc_output(input, filter, bias, output, out_depth, depth, None).len() == output.len(),
        forall|j: int|
            0 <= j < output.len() ==> #[trigger] fc_output(
                input,
                filter,
                bias,
                output,
                out_depth,
                depth,
                Some(BLiteActivation::Relu),
            )[j] == spec_relu(fc_output(input, filter, bias, output, out_depth, depth, None)[j]),
{
}

/// Parsing fully connected options keeps the operator's fused activation code (-1 when it
/// has no fully connected options) and selects ReLU exactly for code 1: ReLU6, ReLU-1..1,
/// tanh, sign bit and no activation all parse to no activation.
pub proof fn lemma_fc_parse_activation(op: TfLiteOperator)
    ensures
        fc_parse_spec(op) matches BLiteBuiltinOption::FullyConnectedOptions { op_code, activation }
            && (activation == Some(BLiteActivation::Relu) <==> (op.builtin_options matches TfLiteBuiltinOptions::FullyConnectedOptions {
                fused_activation_function,
            } && fused_activation_function == 1)) && (activation is None <==> !(activation is Some))
            && (op.builtin_options matches TfLiteBuiltinOptions::FullyConnectedOptions {
                fused_activation_function,
            } ==> op_code == fused_activation_function as i32) && (!(
            op.builtin_options is FullyConnectedOptions) ==> op_code == -1 && activation is None),
{
}

} // verus!
