use vstd::prelude::*;

verus! {

/// The tensors an operator reads and writes, by their index in the subgraph.
#[derive(Debug)]
pub struct BLiteNode {
    pub inputs: Vec<i32>,
    pub outputs: Vec<i32>,
}

/// The mathematical contents of a `BLiteNode`.
pub struct BLiteNodeView {
    pub inputs: Seq<i32>,
    pub outputs: Seq<i32>,
}

impl View for BLiteNode {
    type V = BLiteNodeView;

    open spec fn view(&self) -> BLiteNodeView {
        BLiteNodeView { inputs: self.inputs@, outputs: self.outputs@ }
    }
}

} // verus!
