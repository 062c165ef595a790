//! Buffer sizes.
use vstd::prelude::*;

verus! {

/// The size in bytes of a vertex buffer holding `vertex_count` vertices of
/// `vertex_size` bytes each; the product must fit in `usize`.
pub fn vertex_buffer_size(vertex_size: usize, vertex_count: usize) -> (r: u64)
    requires
        vertex_size * vertex_count <= usize::MAX,
    ensures
        r == vertex_size * vertex_count,
{
    let bytes: usize = vertex_size * vertex_count;
    bytes as u64
}

} // verus!
