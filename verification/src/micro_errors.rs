use vstd::prelude::*;

verus! {

/// Every error the runtime reports.
#[derive(Debug, Clone, Copy, PartialEq, Eq, Structural)]
pub enum BLiteError {
    // allocator errors
    FailedToAllocateMemory,
    // array errors
    NotMatchSize,
    // graph errors
    FailedToCreateGraph,
    NotFoundTensor,
    NotFoundBufferData,
    MissingRegistration,
    NotFoundRegistration,
    NotFoundSubgraphs,
    NotFoundBuffers,
    NotFoundOperators,
    NotFoundOperatorCodes,
    // operator resolver errors
    NotFoundOperator,
    OpIndexOutOfBound,
    // operator errors
    NotInitializeActivation,
    NotFoundOption,
    NotCompatibleOption,
    NotFoundFusedActivation,
}

} // verus!
