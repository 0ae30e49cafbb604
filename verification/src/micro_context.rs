use vstd::prelude::*;

verus! {

/// The context handed to every operator's evaluation; it carries nothing yet.
#[derive(Debug, Clone, Copy)]
pub struct BLiteContext {}

impl BLiteContext {
    pub fn new() -> (r: Self) {
        BLiteContext {}
    }
}

} // verus!
