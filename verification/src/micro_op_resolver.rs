use vstd::prelude::*;
use crate::kernel::micro_operator::BLiteOperator;
use crate::micro_errors::BLiteError;

verus! {

/// The first operator of `ops` registered under builtin code `code`, if any.
pub open spec fn first_with_code(ops: Seq<BLiteOperator>, code: i32) -> Option<BLiteOperator>
    decreases ops.len(),
{
    if ops.len() == 0 {
        None
    } else if ops[0].registration.op_code == code {
        Some(ops[0])
    } else {
        first_with_code(ops.drop_first(), code)
    }
}

/// What `find_op` returns for code `code`.
pub open spec fn find_op_spec(ops: Seq<BLiteOperator>, code: i32) -> Result<BLiteOperator, BLiteError> {
    match first_with_code(ops, code) {
        Some(op) => Ok(op),
        None => Err(BLiteError::NotFoundOperator),
    }
}

/// The operators a model may use, at most `N` of them, looked up by builtin code.
pub struct BLiteOpResolver<const N: usize> {
    operators: Vec<BLiteOperator>,
}

impl<const N: usize> BLiteOpResolver<N> {
    /// The registered operators, in the order they were added.
    pub closed spec fn ops(&self) -> Seq<BLiteOperator> {
        self.operators@
    }

    pub fn new() -> (r: Self)
        ensures
            r.ops() == Seq::<BLiteOperator>::empty(),
    {
        BLiteOpResolver { operators: Vec::new() }
    }

    /// Adds an operator; fails with `OpIndexOutOfBound` when `N` are registered already.
    pub fn add_op(&mut self, op: BLiteOperator) -> (r: Result<(), BLiteError>)
        ensures
            old(self).ops().len() >= N ==> r == Err::<(), BLiteError>(BLiteError::OpIndexOutOfBound)
                && final(self).ops() == old(self).ops(),
            old(self).ops().len() < N ==> r == Ok::<(), BLiteError>(()) && final(self).ops() == old(
                self,
            ).ops().push(op),
    {
        if self.operators.len() >= N {
            Err(BLiteError::OpIndexOutOfBound)
        } else {
            self.operators.push(op);
            Ok(())
        }
    }

    /// The first operator registered under `builtin_code`; `NotFoundOperator` if none is.
    pub fn find_op(&self, builtin_code: &i32) -> (r: Result<BLiteOperator, BLiteError>)
        ensures
            r == find_op_spec(self.ops(), *builtin_code),
    {
        let mut i: usize = 0;
        assert(self.operators@.skip(0) =~= self.operators@);
        while i < self.operators.len()
            invariant
                i <= self.operators@.len(),
                first_with_code(self.operators@, *builtin_code) == first_with_code(
                    self.operators@.skip(i as int),
                    *builtin_code,
                ),
            decreases self.operators@.len() - i,
        {
            let ghost rest = self.operators@.skip(i as int);
            assert(rest.drop_first() =~= self.operators@.skip(i + 1));
            if self.operators[i].registration.op_code == *builtin_code {
                return Ok(self.operators[i]);
            }
            i = i + 1;
        }
        Err(BLiteError::NotFoundOperator)
    }
}

/// Adding an operator after others keeps the earlier ones found first.
proof fn lemma_first_with_code_push(ops: Seq<BLiteOperator>, op: BLiteOperator, code: i32)
    ensures
        first_with_code(ops.push(op), code) == match first_with_code(ops, code) {
            Some(found) => Some(found),
            None => if op.registration.op_code == code {
                Some(op)
            } else {
                None
            },
        },
    decreases ops.len(),
{
    if ops.len() > 0 {
        assert(ops.push(op).drop_first() =~= ops.drop_first().push(op));
        lemma_first_with_code_push(ops.drop_first(), op, code);
        assert(ops.push(op)[0] == ops[0]);
    } else {
        assert(ops.push(op).drop_first() =~= Seq::<BLiteOperator>::empty());
        assert(ops.push(op)[0] == op);
        assert(first_with_code(Seq::<BLiteOperator>::empty(), code) is None);
    }
}

/// Looking up the code of an operator just added finds it unless an earlier operator has
/// the same code; looking up any other code is unaffected by the addition.
pub proof fn lemma_find_after_add(ops: Seq<BLiteOperator>, op: BLiteOperator, code: i32)
    ensures
        code == op.registration.op_code && find_op_spec(ops, code) is Err ==> find_op_spec(
            ops.push(op),
            code,
        ) == Ok::<BLiteOperator, BLiteError>(op),
        code != op.registration.op_code ==> find_op_spec(ops.push(op), code) == find_op_spec(
            ops,
            code,
        ),
        find_op_spec(ops, code) is Ok ==> find_op_spec(ops.push(op), code) == find_op_spec(ops, code),
{
    lemma_first_with_code_push(ops, op, code);
}

/// The lookup finds the earliest registered operator with the code: what it finds is at
/// some position of the list with that code and no earlier operator has it; it finds
/// nothing exactly when no operator has the code.
pub proof fn lemma_first_with_code_is_earliest(ops: Seq<BLiteOperator>, code: i32)
    ensures
        first_with_code(ops, code) matches Some(op) ==> exists|k: int|
            0 <= k < ops.len() && #[trigger] ops[k] == op && op.registration.op_code == code && forall|
                i: int,
            |
                0 <= i < k ==> (#[trigger] ops[i]).registration.op_code != code,
        first_with_code(ops, code) is None ==> forall|k: int|
            0 <= k < ops.len() ==> (#[trigger] ops[k]).registration.op_code != code,
    decreases ops.len(),
{
    if ops.len() > 0 {
        lemma_first_with_code_is_earliest(ops.drop_first(), code);
        let rest = ops.drop_first();
        if ops[0].registration.op_code != code {
            if let Some(op) = first_with_code(ops, code) {
                let k = choose|k: int|
                    0 <= k < rest.len() && #[trigger] rest[k] == op && op.registration.op_code == code
                        && forall|i: int| 0 <= i < k ==> (#[trigger] rest[i]).registration.op_code != code;
                assert(ops[k + 1] == op);
                assert forall|i: int| 0 <= i < k + 1 implies (#[trigger] ops[i]).registration.op_code
                    != code by {
                    if i > 0 {
                        assert(ops[i] == rest[i - 1]);
                    }
                }
            } else {
                assert forall|k: int| 0 <= k < ops.len() implies (#[trigger] ops[k]).registration.op_code
                    != code by {
                    if k > 0 {
                        assert(ops[k] == rest[k - 1]);
                    }
                }
            }
        } else {
            assert(ops[0] == ops[0]);
        }
    }
}

} // verus!
