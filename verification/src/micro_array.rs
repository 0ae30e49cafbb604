use vstd::prelude::*;
use crate::flatbuffer_vector::vector_i32_items;
use crate::kernel::micro_operator::max_pool2d::in_i32;
use crate::micro_allocator::ArenaAllocator;
use crate::micro_errors::BLiteError;
use crate::micro_slice::from_tflite_vector;
use crate::tflite_model::TfLiteBuffer;

verus! {

/// A tensor's contents: its elements in row-major order and its extents.
#[derive(Debug)]
pub struct BLiteArray {
    pub data: Vec<i32>,
    pub dims: Vec<i32>,
}

/// The mathematical contents of a `BLiteArray`.
pub struct BLiteArrayView {
    pub data: Seq<i32>,
    pub dims: Seq<i32>,
}

impl View for BLiteArray {
    type V = BLiteArrayView;

    open spec fn view(&self) -> BLiteArrayView {
        BLiteArrayView { data: self.data@, dims: self.dims@ }
    }
}

/// The contents of each tensor of a list.
pub open spec fn tensor_views(tensors: Seq<BLiteArray>) -> Seq<BLiteArrayView> {
    tensors.map_values(|t: BLiteArray| t@)
}

impl BLiteArray {
    /// A tensor with no elements and no extents.
    pub fn empty() -> (r: Self)
        ensures
            r@.data.len() == 0,
            r@.dims.len() == 0,
    {
        BLiteArray { data: Vec::new(), dims: Vec::new() }
    }
}

/// The product of the first `k` extents of `dims`.
pub open spec fn dims_product(dims: Seq<i32>, k: int) -> int
    decreases k,
{
    if k <= 0 {
        1
    } else {
        dims_product(dims, k - 1) * dims[k - 1]
    }
}

/// The number of elements of a tensor with extents `dims`.
pub open spec fn element_count(dims: Seq<i32>) -> int {
    dims_product(dims, dims.len() as int)
}

/// The inputs on which `from_tflite_buffer` runs without a panic: the element count is
/// computable and not negative; a buffer with data holds at least that many elements; for
/// a buffer without data the allocation can be asked for.
pub open spec fn from_buffer_requires<A: ArenaAllocator>(
    a: A,
    buffer: TfLiteBuffer,
    dims: Seq<i32>,
) -> bool {
    &&& forall|k: int| 0 <= k <= dims.len() ==> in_i32(#[trigger] dims_product(dims, k))
    &&& element_count(dims) >= 0
    &&& match buffer.data {
        Some(d) => element_count(dims) <= d@.len(),
        None => {
            &&& 4 * element_count(dims) <= usize::MAX
            &&& a.alloc_requires(
                (4 * element_count(dims)) as usize,
                vstd::layout::align_of::<i32>() as usize,
            )
        },
    }
}

/// What `from_tflite_buffer` returns and leaves in the allocator: a buffer with data
/// gives its first `element_count` elements; otherwise the elements are reserved in the
/// arena and start as zeros, or the allocation's error is returned.
pub open spec fn from_buffer_spec<A: ArenaAllocator>(a: A, buffer: TfLiteBuffer, dims: Seq<i32>) -> (
    Result<BLiteArrayView, BLiteError>,
    A,
) {
    let count = element_count(dims);
    match buffer.data {
        Some(d) => (Ok(BLiteArrayView { data: d@.take(count), dims }), a),
        None => {
            let size = (4 * count) as usize;
            let align = vstd::layout::align_of::<i32>() as usize;
            match a.alloc_result(size, align) {
                Ok(_) => (
                    Ok(BLiteArrayView { data: Seq::new(count as nat, |i: int| 0i32), dims }),
                    a.advanced(size, align),
                ),
                Err(e) => (Err(e), a.advanced(size, align)),
            }
        },
    }
}

impl BLiteArray {
    /// The tensor of shape `shape` whose elements come from `buffer`, or from the arena
    /// when the buffer holds no data.
    pub fn from_tflite_buffer<A: ArenaAllocator>(
        allocator: &mut A,
        buffer: &TfLiteBuffer,
        shape: &flatbuffers::Vector<'_, i32>,
    ) -> (r: Result<BLiteArray, BLiteError>)
        requires
            from_buffer_requires(*old(allocator), *buffer, vector_i32_items(*shape)),
        ensures
            match r {
                Ok(t) => Ok::<BLiteArrayView, BLiteError>(t@),
                Err(e) => Err(e),
            } == from_buffer_spec(*old(allocator), *buffer, vector_i32_items(*shape)).0,
            *final(allocator) == from_buffer_spec(
                *old(allocator),
                *buffer,
                vector_i32_items(*shape),
            ).1,
    {
        broadcast use vstd::layout::layout_of_primitives;

        let dims = from_tflite_vector(shape);
        let mut tot_size: i32 = 1;
        let mut i: usize = 0;
        while i < dims.len()
            invariant
                dims@ == vector_i32_items(*shape),
                from_buffer_requires(*old(allocator), *buffer, dims@),
                i <= dims@.len(),
                tot_size == dims_product(dims@, i as int),
            decreases dims@.len() - i,
        {
            assert(in_i32(dims_product(dims@, i + 1)));
            tot_size = tot_size * dims[i];
            i = i + 1;
        }
        let count = tot_size as usize;
        match &buffer.data {
            None => {
                vstd::layout::layout_for_type_is_valid::<i32>();
                let size = core::mem::size_of::<i32>() * count;
                match allocator.allocate(size, core::mem::align_of::<i32>()) {
                    Ok(_) => {},
                    Err(e) => {
                        return Err(e);
                    },
                }
                let data = vec![0i32; count];
                assert(data@ =~= Seq::new(count as nat, |i: int| 0i32));
                Ok(BLiteArray { data, dims })
            },
            Some(d) => {
                let mut data: Vec<i32> = Vec::new();
                let mut j: usize = 0;
                while j < count
                    invariant
                        j <= count <= d@.len(),
                        data@ == d@.take(j as int),
                    decreases count - j,
                {
                    data.push(d[j]);
                    j = j + 1;
                    assert(data@ =~= d@.take(j as int));
                }
                Ok(BLiteArray { data, dims })
            },
        }
    }
}

} // verus!
