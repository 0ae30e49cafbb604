use vstd::prelude::*;
use crate::kernel::micro_builtin_options::BLiteBuiltinOption;

verus! {

/// The kernels the runtime provides; a registration names the one that evaluates it.
#[derive(Debug, Clone, Copy, PartialEq, Eq, Structural)]
pub enum BLiteKernel {
    FullyConnected,
    MaxPool2D,
}

/// An operator as registered: its builtin operator code, its evaluation and its
/// parameters.
#[derive(Debug, Clone, Copy)]
pub struct BLiteRegistration {
    pub op_code: i32,
    pub eval: BLiteKernel,
    pub builtin_option: BLiteBuiltinOption,
}

impl BLiteRegistration {
    pub fn new(op_code: i32, eval: BLiteKernel, builtin_option: BLiteBuiltinOption) -> (r: Self)
        ensures
            r.op_code == op_code,
            r.eval == eval,
            r.builtin_option == builtin_option,
    {
        BLiteRegistration { op_code, eval, builtin_option }
    }
}

} // verus!
