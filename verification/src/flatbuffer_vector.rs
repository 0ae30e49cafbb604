use vstd::prelude::*;

verus! {

/// A vector inside a flatbuffer, read in place.
#[verifier::external_type_specification]
#[verifier::external_body]
#[verifier::reject_recursive_types(T)]
pub struct ExVector<'a, T>(flatbuffers::Vector<'a, T>);

/// The elements of a flatbuffer vector of `i32`, in order.
pub uninterp spec fn vector_i32_items(v: flatbuffers::Vector<'_, i32>) -> Seq<i32>;

/// `flatbuffers::Vector::len`: the element count stored in front of the vector.
#[verifier::external_body]
pub(crate) fn vector_i32_len(v: &flatbuffers::Vector<'_, i32>) -> (r: usize)
    ensures
        r == vector_i32_items(*v).len(),
{
    v.len()
}

/// `flatbuffers::Vector::get`: the element at `idx` (the call panics at or past the
/// length, which `requires` rules out).
#[verifier::external_body]
pub(crate) fn vector_i32_get(v: &flatbuffers::Vector<'_, i32>, idx: usize) -> (r: i32)
    requires
        idx < vector_i32_items(*v).len(),
    ensures
        r == vector_i32_items(*v)[idx as int],
{
    v.get(idx)
}

} // verus!
