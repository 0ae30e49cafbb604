pub mod max_pool2d;
pub mod op_fully_connected;

use vstd::prelude::*;
use crate::micro_registration::{BLiteKernel, BLiteRegistration};

verus! {

/// An operator the resolver can hand out: its registration and the parser that reads its
/// parameters from a model.
#[derive(Debug, Clone, Copy)]
pub struct BLiteOperator {
    pub registration: BLiteRegistration,
    pub parser: BLiteKernel,
}

impl BLiteOperator {
    pub fn get_regstration(&self) -> (r: BLiteRegistration)
        ensures
            r == self.registration,
    {
        self.registration
    }
}

} // verus!
