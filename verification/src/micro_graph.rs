use vstd::prelude::*;
use crate::flatbuffer_vector::vector_i32_items;
use crate::kernel::micro_operator::max_pool2d::{max_pool_eval_requires, max_pool_eval_spec, OpMaxPool2D};
use crate::kernel::micro_operator::op_fully_connected::{fc_eval_requires, fc_eval_spec, OpFullyConnected};
use crate::micro_allocator::ArenaAllocator;
use crate::micro_array::{BLiteArray, BLiteArrayView, from_buffer_requires, from_buffer_spec, tensor_views};
use crate::micro_context::BLiteContext;
use crate::micro_errors::BLiteError;
use crate::micro_node::{BLiteNode, BLiteNodeView};
use crate::micro_op_resolver::{BLiteOpResolver, find_op_spec};
use crate::micro_registration::{BLiteKernel, BLiteRegistration};
use crate::micro_slice::from_tflite_vector;
use crate::tflite_model::{TfLiteBuffer, TfLiteOperator, TfLiteOperatorCode, TfLiteSubGraph, TfLiteTensor};

verus! {

/// A subgraph ready to run: its operators in execution order, each with the node it
/// evaluates, and its tensors.
pub struct BLiteSubgraph {
    pub node_and_regstrations: Vec<(BLiteNode, BLiteRegistration)>,
    pub tensors: Vec<BLiteArray>,
}

/// The contents of a list of nodes with their registrations.
pub open spec fn nodes_view(nodes: Seq<(BLiteNode, BLiteRegistration)>) -> Seq<
    (BLiteNodeView, BLiteRegistration),
> {
    nodes.map_values(|p: (BLiteNode, BLiteRegistration)| (p.0@, p.1))
}

// ---------------------------------------------------------------------------
// Running the operators.
// ---------------------------------------------------------------------------

/// The inputs on which the evaluation that `reg` names runs without a panic.
pub open spec fn step_requires(
    node: BLiteNodeView,
    reg: BLiteRegistration,
    ts: Seq<BLiteArrayView>,
) -> bool {
    match reg.eval {
        BLiteKernel::FullyConnected => fc_eval_requires(ts, node, reg.builtin_option),
        BLiteKernel::MaxPool2D => max_pool_eval_requires(ts, node, reg.builtin_option),
    }
}

/// What the evaluation that `reg` names returns and leaves in the tensors.
pub open spec fn step_spec(
    node: BLiteNodeView,
    reg: BLiteRegistration,
    ts: Seq<BLiteArrayView>,
) -> (Result<(), BLiteError>, Seq<BLiteArrayView>) {
    match reg.eval {
        BLiteKernel::FullyConnected => fc_eval_spec(ts, node, reg.builtin_option),
        BLiteKernel::MaxPool2D => max_pool_eval_spec(ts, node, reg.builtin_option),
    }
}

/// The result and the tensors after running the first `k` operators in order, stopping
/// at the first error.
pub open spec fn run_spec(
    nodes: Seq<(BLiteNodeView, BLiteRegistration)>,
    ts: Seq<BLiteArrayView>,
    k: int,
) -> (Result<(), BLiteError>, Seq<BLiteArrayView>)
    decreases k,
{
    if k <= 0 {
        (Ok(()), ts)
    } else {
        let prev = run_spec(nodes, ts, k - 1);
        match prev.0 {
            Ok(_) => step_spec(nodes[k - 1].0, nodes[k - 1].1, prev.1),
            Err(e) => (Err(e), prev.1),
        }
    }
}

/// Every operator that runs gets inputs on which its evaluation does not panic.
pub open spec fn invoke_requires(
    nodes: Seq<(BLiteNodeView, BLiteRegistration)>,
    ts: Seq<BLiteArrayView>,
) -> bool {
    forall|k: int|
        0 <= k < nodes.len() && (#[trigger] run_spec(nodes, ts, k)).0 is Ok ==> step_requires(
            nodes[k].0,
            nodes[k].1,
            run_spec(nodes, ts, k).1,
        )
}

/// Once an operator fails, running more operators changes neither the error nor the
/// tensors.
pub proof fn lemma_run_stops_at_error(
    nodes: Seq<(BLiteNodeView, BLiteRegistration)>,
    ts: Seq<BLiteArrayView>,
    k: int,
    n: int,
)
    requires
        0 <= k <= n,
        run_spec(nodes, ts, k).0 is Err,
    ensures
        run_spec(nodes, ts, n) == run_spec(nodes, ts, k),
    decreases n - k,
{
    if n > k {
        lemma_run_stops_at_error(nodes, ts, k, n - 1);
    }
}

// ---------------------------------------------------------------------------
// Building the tensors.
// ---------------------------------------------------------------------------

/// The result and the allocator after building the first `k` tensors of a subgraph from
/// their buffers and shapes, stopping at the first error.
pub open spec fn tensors_from<A: ArenaAllocator>(
    a: A,
    tensors: Seq<TfLiteTensor>,
    buffers: Seq<TfLiteBuffer>,
    k: int,
) -> (Result<Seq<BLiteArrayView>, BLiteError>, A)
    decreases k,
{
    if k <= 0 {
        (Ok(Seq::empty()), a)
    } else {
        let prev = tensors_from(a, tensors, buffers, k - 1);
        match prev.0 {
            Ok(s) => {
                let t = tensors[k - 1];
                let next = from_buffer_spec(
                    prev.1,
                    buffers[t.buffer as int],
                    vector_i32_items(t.shape.unwrap()),
                );
                match next.0 {
                    Ok(v) => (Ok(s.push(v)), next.1),
                    Err(e) => (Err(e), next.1),
                }
            },
            Err(e) => (Err(e), prev.1),
        }
    }
}

/// Tensor `k` names an existing buffer and has a shape, and building it does not panic.
pub open spec fn tensor_buildable<A: ArenaAllocator>(
    a: A,
    tensors: Seq<TfLiteTensor>,
    buffers: Seq<TfLiteBuffer>,
    k: int,
) -> bool {
    let t = tensors[k];
    &&& (t.buffer as int) < buffers.len()
    &&& t.shape is Some
    &&& from_buffer_requires(a, buffers[t.buffer as int], vector_i32_items(t.shape.unwrap()))
}

/// The size and alignment of the arena block that holds `n` tensors.
pub open spec fn tensor_table_size(n: int) -> int {
    vstd::layout::size_of::<BLiteArray>() * n
}

pub open spec fn tensor_table_align() -> usize {
    vstd::layout::align_of::<BLiteArray>() as usize
}

/// The inputs on which `allocate_eval_tensors` runs without a panic.
pub open spec fn eval_tensors_requires<A: ArenaAllocator>(
    a: A,
    subgraph: TfLiteSubGraph,
    buffers: Seq<TfLiteBuffer>,
) -> bool {
    &&& subgraph.tensors is Some
    &&& {
        let tensors = subgraph.tensors.unwrap()@;
        let a0 = a.advanced(tensor_table_size(tensors.len() as int) as usize, tensor_table_align());
        &&& tensor_table_size(tensors.len() as int) <= usize::MAX
        &&& a.alloc_requires(tensor_table_size(tensors.len() as int) as usize, tensor_table_align())
        &&& a.alloc_result(tensor_table_size(tensors.len() as int) as usize, tensor_table_align()) is Ok
            ==> forall|k: int|
            0 <= k < tensors.len() && (#[trigger] tensors_from(a0, tensors, buffers, k)).0 is Ok
                ==> tensor_buildable(tensors_from(a0, tensors, buffers, k).1, tensors, buffers, k)
    }
}

/// What `allocate_eval_tensors` returns and leaves in the allocator: it reserves the
/// tensor table, then builds every tensor in order.
pub open spec fn eval_tensors_spec<A: ArenaAllocator>(
    a: A,
    subgraph: TfLiteSubGraph,
    buffers: Seq<TfLiteBuffer>,
) -> (Result<Seq<BLiteArrayView>, BLiteError>, A) {
    let tensors = subgraph.tensors.unwrap()@;
    let size = tensor_table_size(tensors.len() as int) as usize;
    let a0 = a.advanced(size, tensor_table_align());
    match a.alloc_result(size, tensor_table_align()) {
        Ok(_) => tensors_from(a0, tensors, buffers, tensors.len() as int),
        Err(e) => (Err(e), a0),
    }
}

// ---------------------------------------------------------------------------
// Building the nodes and registrations.
// ---------------------------------------------------------------------------

/// The registration that `alloc_regstration` finds: the one registered for the operator
/// code of the first operator.
pub open spec fn registration_spec(
    ops: Seq<crate::kernel::micro_operator::BLiteOperator>,
    operators: Seq<TfLiteOperator>,
    operator_codes: Seq<TfLiteOperatorCode>,
) -> Result<BLiteRegistration, BLiteError> {
    if operators.len() == 0 {
        Err(BLiteError::NotFoundRegistration)
    } else if operators[0].opcode_index as int >= operator_codes.len() {
        Err(BLiteError::MissingRegistration)
    } else {
        match find_op_spec(ops, operator_codes[operators[0].opcode_index as int].builtin_code) {
            Ok(op) => Ok(op.registration),
            Err(e) => Err(e),
        }
    }
}

/// The node of a model operator: its input and output tensor indices.
pub open spec fn node_of(op: TfLiteOperator) -> BLiteNodeView {
    BLiteNodeView {
        inputs: vector_i32_items(op.inputs.unwrap()),
        outputs: vector_i32_items(op.outputs.unwrap()),
    }
}

/// The size and alignment of the arena block that holds `n` nodes with registrations.
pub open spec fn node_table_size(n: int) -> int {
    vstd::layout::size_of::<(BLiteNode, BLiteRegistration)>() * n
}

pub open spec fn node_table_align() -> usize {
    vstd::layout::align_of::<(BLiteNode, BLiteRegistration)>() as usize
}

/// The inputs on which `allocate_node_and_regstrations` runs without a panic.
/// Operator `k` has input and output lists.
pub open spec fn has_operands(operators: Seq<TfLiteOperator>, k: int) -> bool {
    operators[k].inputs is Some && operators[k].outputs is Some
}

/// The inputs on which `allocate_node_and_regstrations` runs without a panic: the node
/// table can be asked for; once it is reserved, the first operator has operand lists; once
/// the registration is found too, every operator has them.
pub open spec fn nodes_requires<A: ArenaAllocator>(
    a: A,
    ops: Seq<crate::kernel::micro_operator::BLiteOperator>,
    operators: Seq<TfLiteOperator>,
    operator_codes: Seq<TfLiteOperatorCode>,
) -> bool {
    &&& node_table_size(operators.len() as int) <= usize::MAX
    &&& a.alloc_requires(node_table_size(operators.len() as int) as usize, node_table_align())
    &&& a.alloc_result(node_table_size(operators.len() as int) as usize, node_table_align()) is Ok
        ==> {
        &&& operators.len() > 0 ==> has_operands(operators, 0)
        &&& registration_spec(ops, operators, operator_codes) is Ok ==> forall|k: int|
            0 <= k < operators.len() ==> #[trigger] has_operands(operators, k)
    }
}

/// What `allocate_node_and_regstrations` returns and leaves in the allocator: it reserves
/// the node table, then pairs every operator's node with the registration that
/// `registration_spec` finds.
pub open spec fn nodes_spec<A: ArenaAllocator>(
    a: A,
    ops: Seq<crate::kernel::micro_operator::BLiteOperator>,
    operators: Seq<TfLiteOperator>,
    operator_codes: Seq<TfLiteOperatorCode>,
) -> (Result<Seq<(BLiteNodeView, BLiteRegistration)>, BLiteError>, A) {
    let size = node_table_size(operators.len() as int) as usize;
    let a0 = a.advanced(size, node_table_align());
    match a.alloc_result(size, node_table_align()) {
        Err(e) => (Err(e), a0),
        Ok(_) => if operators.len() == 0 {
            (Ok(Seq::empty()), a0)
        } else {
            match registration_spec(ops, operators, operator_codes) {
                Ok(reg) => (
                    Ok(Seq::new(operators.len(), |i: int| (node_of(operators[i]), reg))),
                    a0,
                ),
                Err(e) => (Err(e), a0),
            }
        },
    }
}

impl BLiteSubgraph {
    pub fn new(
        node_and_regstrations: Vec<(BLiteNode, BLiteRegistration)>,
        tensors: Vec<BLiteArray>,
    ) -> (r: Self)
        ensures
            r.node_and_regstrations == node_and_regstrations,
            r.tensors == tensors,
    {
        Self { node_and_regstrations, tensors }
    }

    /// Builds a subgraph of a model: its tensors, then its nodes with their
    /// registrations, both reserved in the arena.
    pub fn allocate_subgraph<A: ArenaAllocator, const N: usize>(
        allocator: &mut A,
        op_resolver: &BLiteOpResolver<N>,
        subgraph: &TfLiteSubGraph,
        operators: &Vec<TfLiteOperator>,
        operator_codes: &Vec<TfLiteOperatorCode>,
        buffers: &Vec<TfLiteBuffer>,
    ) -> (r: Result<Self, BLiteError>)
        requires
            eval_tensors_requires(*old(allocator), *subgraph, buffers@),
            eval_tensors_spec(*old(allocator), *subgraph, buffers@).0 is Ok ==> nodes_requires(
                eval_tensors_spec(*old(allocator), *subgraph, buffers@).1,
                op_resolver.ops(),
                operators@,
                operator_codes@,
            ),
        ensures
            ({
                let (tr, a1) = eval_tensors_spec(*old(allocator), *subgraph, buffers@);
                match tr {
                    Err(e) => r == Err::<Self, BLiteError>(e) && *final(allocator) == a1,
                    Ok(ts) => {
                        let (nr, a2) = nodes_spec(a1, op_resolver.ops(), operators@, operator_codes@);
                        &&& *final(allocator) == a2
                        &&& match nr {
                            Err(e) => r == Err::<Self, BLiteError>(e),
                            Ok(ns) => r is Ok && tensor_views(r->Ok_0.tensors@) == ts && nodes_view(
                                r->Ok_0.node_and_regstrations@,
                            ) == ns,
                        }
                    },
                }
            }),
    {
        let tensors = match Self::allocate_eval_tensors(allocator, subgraph, buffers) {
            Ok(t) => t,
            Err(e) => {
                return Err(e);
            },
        };
        let node_and_regstrations = match Self::allocate_node_and_regstrations(
            op_resolver,
            allocator,
            operators,
            operator_codes,
        ) {
            Ok(n) => n,
            Err(e) => {
                return Err(e);
            },
        };
        Ok(Self { node_and_regstrations, tensors })
    }

    /// Builds every tensor of a subgraph, after reserving the table that holds them.
    pub fn allocate_eval_tensors<A: ArenaAllocator>(
        allocator: &mut A,
        subgraph: &TfLiteSubGraph,
        buffers: &Vec<TfLiteBuffer>,
    ) -> (r: Result<Vec<BLiteArray>, BLiteError>)
        requires
            eval_tensors_requires(*old(allocator), *subgraph, buffers@),
        ensures
            match r {
                Ok(t) => Ok::<Seq<BLiteArrayView>, BLiteError>(tensor_views(t@)),
                Err(e) => Err(e),
            } == eval_tensors_spec(*old(allocator), *subgraph, buffers@).0,
            *final(allocator) == eval_tensors_spec(*old(allocator), *subgraph, buffers@).1,
    {
        let ghost a = *allocator;
        let subgraph_tensors = subgraph.tensors.as_ref().unwrap();
        let tensors_size = subgraph_tensors.len();
        vstd::layout::layout_for_type_is_valid::<BLiteArray>();
        match allocator.allocate(
            core::mem::size_of::<BLiteArray>() * tensors_size,
            core::mem::align_of::<BLiteArray>(),
        ) {
            Ok(_) => {},
            Err(err) => {
                return Err(err);
            },
        }
        let ghost a0 = *allocator;
        let mut tensors: Vec<BLiteArray> = Vec::new();
        let mut i: usize = 0;
        assert(tensor_views(tensors@) =~= Seq::<BLiteArrayView>::empty());
        while i < tensors_size
            invariant
                tensors_size == subgraph_tensors@.len(),
                subgraph.tensors == Some(*subgraph_tensors),
                a == *old(allocator),
                eval_tensors_requires(a, *subgraph, buffers@),
                a.alloc_result(tensor_table_size(tensors_size as int) as usize, tensor_table_align()) is Ok,
                a0 == a.advanced(tensor_table_size(tensors_size as int) as usize, tensor_table_align()),
                i <= tensors_size,
                tensors_from(a0, subgraph_tensors@, buffers@, i as int) == (
                    Ok::<Seq<BLiteArrayView>, BLiteError>(tensor_views(tensors@)),
                    *allocator,
                ),
            decreases tensors_size - i,
        {
            let ghost prev_views = tensor_views(tensors@);
            let ghost prev_alloc = *allocator;
            let tensor = &subgraph_tensors[i];
            assert(tensor_buildable(*allocator, subgraph_tensors@, buffers@, i as int));
            let buffer = &buffers[tensor.buffer as usize];
            let dims = tensor.shape.unwrap();
            let tflite_tensor = match BLiteArray::from_tflite_buffer(allocator, buffer, &dims) {
                Ok(t) => t,
                Err(err) => {
                    proof {
                        assert(tensors_from(a0, subgraph_tensors@, buffers@, i + 1) == (
                            Err::<Seq<BLiteArrayView>, BLiteError>(err),
                            *allocator,
                        ));
                        lemma_tensors_stop_at_error(
                            a0,
                            subgraph_tensors@,
                            buffers@,
                            i + 1,
                            tensors_size as int,
                        );
                    }
                    return Err(err);
                },
            };
            let ghost new_view = tflite_tensor@;
            tensors.push(tflite_tensor);
            assert(tensor_views(tensors@) =~= prev_views.push(new_view));
            assert(tensors_from(a0, subgraph_tensors@, buffers@, i + 1) == (
                Ok::<Seq<BLiteArrayView>, BLiteError>(prev_views.push(new_view)),
                *allocator,
            ));
            i = i + 1;
        }
        Ok(tensors)
    }

    /// Builds the node and the registration of every operator, after reserving the table
    /// that holds them.
    pub fn allocate_node_and_regstrations<A: ArenaAllocator, const N: usize>(
        op_resolver: &BLiteOpResolver<N>,
        allocator: &mut A,
        operators: &Vec<TfLiteOperator>,
        operator_codes: &Vec<TfLiteOperatorCode>,
    ) -> (r: Result<Vec<(BLiteNode, BLiteRegistration)>, BLiteError>)
        requires
            nodes_requires(*old(allocator), op_resolver.ops(), operators@, operator_codes@),
        ensures
            match r {
                Ok(n) => Ok::<Seq<(BLiteNodeView, BLiteRegistration)>, BLiteError>(
                    nodes_view(n@),
                ),
                Err(e) => Err(e),
            } == nodes_spec(*old(allocator), op_resolver.ops(), operators@, operator_codes@).0,
            *final(allocator) == nodes_spec(
                *old(allocator),
                op_resolver.ops(),
                operators@,
                operator_codes@,
            ).1,
    {
        vstd::layout::layout_for_type_is_valid::<(BLiteNode, BLiteRegistration)>();
        match allocator.allocate(
            core::mem::size_of::<(BLiteNode, BLiteRegistration)>() * operators.len(),
            core::mem::align_of::<(BLiteNode, BLiteRegistration)>(),
        ) {
            Ok(_) => {},
            Err(err) => {
                return Err(err);
            },
        }
        let ghost size = node_table_size(operators@.len() as int) as usize;
        let mut node_and_registrations: Vec<(BLiteNode, BLiteRegistration)> = Vec::new();
        let mut i: usize = 0;
        while i < operators.len()
            invariant
                nodes_requires(*old(allocator), op_resolver.ops(), operators@, operator_codes@),
                old(allocator).alloc_result(size, node_table_align()) is Ok,
                *allocator == old(allocator).advanced(size, node_table_align()),
                size == node_table_size(operators@.len() as int) as usize,
                i <= operators@.len(),
                i > 0 ==> registration_spec(op_resolver.ops(), operators@, operator_codes@) is Ok,
                nodes_view(node_and_registrations@) =~= Seq::new(
                    i as nat,
                    |j: int|
                        (
                            node_of(operators@[j]),
                            registration_spec(op_resolver.ops(), operators@, operator_codes@)->Ok_0,
                        ),
                ),
            decreases operators@.len() - i,
        {
            let op = &operators[i];
            assert(has_operands(operators@, i as int));
            let inputs = op.inputs.unwrap();
            let outputs = op.outputs.unwrap();
            let node = match Self::allocate_node(&inputs, &outputs) {
                Ok(n) => n,
                Err(err) => {
                    return Err(err);
                },
            };
            let regstration = match Self::alloc_regstration(op_resolver, operators, operator_codes) {
                Ok(reg) => reg,
                Err(err) => {
                    return Err(err);
                },
            };
            let ghost prev = nodes_view(node_and_registrations@);
            node_and_registrations.push((node, regstration));
            assert(nodes_view(node_and_registrations@) =~= prev.push((node@, regstration)));
            i = i + 1;
        }
        proof {
            if operators@.len() == 0 {
                assert(nodes_view(node_and_registrations@) =~= Seq::empty());
            }
        }
        Ok(node_and_registrations)
    }

    /// The node of an operator: copies of its input and output tensor indices.
    pub fn allocate_node(
        inputs: &flatbuffers::Vector<'_, i32>,
        outputs: &flatbuffers::Vector<'_, i32>,
    ) -> (r: Result<BLiteNode, BLiteError>)
        ensures
            r is Ok,
            r->Ok_0@.inputs == vector_i32_items(*inputs),
            r->Ok_0@.outputs == vector_i32_items(*outputs),
    {
        let node_inputs = from_tflite_vector(inputs);
        let node_outputs = from_tflite_vector(outputs);
        Ok(BLiteNode { inputs: node_inputs, outputs: node_outputs })
    }

    /// The registration for the operator code of the first operator.
    pub fn alloc_regstration<const N: usize>(
        op_resolver: &BLiteOpResolver<N>,
        operators: &Vec<TfLiteOperator>,
        operator_codes: &Vec<TfLiteOperatorCode>,
    ) -> (r: Result<BLiteRegistration, BLiteError>)
        ensures
            r == registration_spec(op_resolver.ops(), operators@, operator_codes@),
    {
        if operators.len() > 0 {
            let op = &operators[0];
            let idx = op.opcode_index;
            if idx as usize >= operator_codes.len() {
                return Err(BLiteError::MissingRegistration);
            }
            let op_code = &operator_codes[idx as usize];
            let builtin_code = op_code.builtin_code;
            let blite_op = match op_resolver.find_op(&builtin_code) {
                Ok(o) => o,
                Err(e) => {
                    return Err(e);
                },
            };
            let regstration = blite_op.get_regstration();
            return Ok(regstration);
        }
        Err(BLiteError::NotFoundRegistration)
    }

    /// Runs the operators in order; stops at, and returns, the first error.
    pub fn invoke(&mut self) -> (r: Result<(), BLiteError>)
        requires
            invoke_requires(
                nodes_view(old(self).node_and_regstrations@),
                tensor_views(old(self).tensors@),
            ),
        ensures
            final(self).node_and_regstrations@ == old(self).node_and_regstrations@,
            (r, tensor_views(final(self).tensors@)) == run_spec(
                nodes_view(old(self).node_and_regstrations@),
                tensor_views(old(self).tensors@),
                old(self).node_and_regstrations@.len() as int,
            ),
    {
        let ghost nodes = nodes_view(self.node_and_regstrations@);
        let ghost ts0 = tensor_views(self.tensors@);
        let ctx = BLiteContext::new();
        let node_and_registrations = &self.node_and_regstrations;
        let n = node_and_registrations.len();
        let mut i: usize = 0;
        while i < n
            invariant
                n == nodes.len(),
                nodes == nodes_view(node_and_registrations@),
                invoke_requires(nodes, ts0),
                self.node_and_regstrations@ == old(self).node_and_regstrations@,
                nodes == nodes_view(old(self).node_and_regstrations@),
                ts0 == tensor_views(old(self).tensors@),
                i <= n,
                run_spec(nodes, ts0, i as int) == (
                    Ok::<(), BLiteError>(()),
                    tensor_views(self.tensors@),
                ),
            decreases n - i,
        {
            let ghost prev_views = tensor_views(self.tensors@);
            let (node, regstration) = &node_and_registrations[i];
            assert(nodes[i as int] == (node@, *regstration));
            assert(step_requires(node@, *regstration, tensor_views(self.tensors@)));
            let result = match regstration.eval {
                BLiteKernel::FullyConnected => OpFullyConnected::eval(
                    &ctx,
                    &mut self.tensors,
                    node,
                    regstration.builtin_option,
                ),
                BLiteKernel::MaxPool2D => OpMaxPool2D::eval(
                    &ctx,
                    &mut self.tensors,
                    node,
                    regstration.builtin_option,
                ),
            };
            assert(run_spec(nodes, ts0, i + 1) == (result, tensor_views(self.tensors@)));
            match result {
                Ok(_) => {},
                Err(e) => {
                    proof {
                        lemma_run_stops_at_error(nodes, ts0, i + 1, n as int);
                    }
                    return Err(e);
                },
            }
            i = i + 1;
        }
        Ok(())
    }
}

/// Once building a tensor fails, building more changes neither the error nor the
/// allocator.
proof fn lemma_tensors_stop_at_error<A: ArenaAllocator>(
    a: A,
    tensors: Seq<TfLiteTensor>,
    buffers: Seq<TfLiteBuffer>,
    k: int,
    n: int,
)
    requires
        0 <= k <= n,
        tensors_from(a, tensors, buffers, k).0 is Err,
    ensures
        tensors_from(a, tensors, buffers, n) == tensors_from(a, tensors, buffers, k),
    decreases n - k,
{
    if n > k {
        lemma_tensors_stop_at_error(a, tensors, buffers, k, n - 1);
    }
}

/// Running operators changes tensor data only: the number of tensors and every tensor's
/// dimensions stay as they were.
pub proof fn lemma_run_preserves_shapes(
    nodes: Seq<(BLiteNodeView, BLiteRegistration)>,
    ts: Seq<BLiteArrayView>,
    k: int,
)
    requires
        invoke_requires(nodes, ts),
        0 <= k <= nodes.len(),
    ensures
        run_spec(nodes, ts, k).1.len() == ts.len(),
        forall|i: int| 0 <= i < ts.len() ==> (#[trigger] run_spec(nodes, ts, k).1[i]).dims == ts[i].dims,
    decreases k,
{
    if k > 0 {
        lemma_run_preserves_shapes(nodes, ts, k - 1);
        let prev = run_spec(nodes, ts, k - 1);
        if prev.0 is Ok {
            assert(step_requires(nodes[k - 1].0, nodes[k - 1].1, prev.1));
            assert forall|i: int| 0 <= i < ts.len() implies (#[trigger] run_spec(nodes, ts, k).1[i]).dims
                == ts[i].dims by {
                assert(prev.1[i].dims == ts[i].dims);
            }
        }
    }
}

/// The registration of a subgraph's nodes is resolved from the operator code table entry
/// that the first operator's `opcode_index` names: it is the registration of the earliest
/// resolver operator whose code equals that entry's builtin code; with no such operator the
/// lookup's `NotFoundOperator` comes back, and an index past the table gives
/// `MissingRegistration`.
pub proof fn lemma_registration_uses_opcode_index(
    ops: Seq<crate::kernel::micro_operator::BLiteOperator>,
    operators: Seq<TfLiteOperator>,
    operator_codes: Seq<TfLiteOperatorCode>,
)
    requires
        operators.len() > 0,
    ensures
        operators[0].opcode_index as int >= operator_codes.len() ==> registration_spec(
            ops,
            operators,
            operator_codes,
        ) == Err::<BLiteRegistration, BLiteError>(BLiteError::MissingRegistration),
        (operators[0].opcode_index as int) < operator_codes.len() ==> {
            let code = operator_codes[operators[0].opcode_index as int].builtin_code;
            &&& registration_spec(ops, operators, operator_codes) matches Ok(reg) ==> reg.op_code == code
                && exists|k: int|
                0 <= k < ops.len() && (#[trigger] ops[k]).registration == reg && forall|i: int|
                    0 <= i < k ==> (#[trigger] ops[i]).registration.op_code != code
            &&& registration_spec(ops, operators, operator_codes) is Err ==> registration_spec(
                ops,
                operators,
                operator_codes,
            ) == Err::<BLiteRegistration, BLiteError>(BLiteError::NotFoundOperator) && forall|k: int|
                0 <= k < ops.len() ==> (#[trigger] ops[k]).registration.op_code != code
        },
{
    if (operators[0].opcode_index as int) < operator_codes.len() {
        let code = operator_codes[operators[0].opcode_index as int].builtin_code;
        crate::micro_op_resolver::lemma_first_with_code_is_earliest(ops, code);
    }
}

} // verus!
