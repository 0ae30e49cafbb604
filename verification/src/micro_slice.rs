use vstd::prelude::*;
use crate::flatbuffer_vector::{vector_i32_get, vector_i32_items, vector_i32_len};

verus! {

/// The elements of a flatbuffer vector of `i32`, copied out in order.
pub fn from_tflite_vector(v: &flatbuffers::Vector<'_, i32>) -> (r: Vec<i32>)
    ensures
        r@ == vector_i32_items(*v),
{
    let len = vector_i32_len(v);
    let mut r: Vec<i32> = Vec::new();
    let mut i: usize = 0;
    while i < len
        invariant
            len == vector_i32_items(*v).len(),
            i <= len,
            r@ == vector_i32_items(*v).take(i as int),
        decreases len - i,
    {
        let x = vector_i32_get(v, i);
        r.push(x);
        i = i + 1;
        assert(r@ =~= vector_i32_items(*v).take(i as int));
    }
    assert(vector_i32_items(*v).take(len as int) =~= vector_i32_items(*v));
    r
}

} // verus!
