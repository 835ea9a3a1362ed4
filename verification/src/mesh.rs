//! Turning a triangulated mesh into the buffers the GPU draws from.
use vstd::prelude::*;
use crate::vertex::{formats_size, lemma_pos_normal_uv_size, PosNormalUv, Vertex};

verus! {

/// The index list of a triangle list: the three corners of each triangle in
/// turn, each narrowed to the `u32` an index buffer holds.
pub open spec fn flattened_indices(triangles: Seq<[usize; 3]>) -> Seq<u32> {
    Seq::new(3 * triangles.len(), |k: int| triangles[k / 3][k % 3] as u32)
}

/// The index buffer contents for a triangle list: the corners of each
/// triangle in turn, as `u32`.
pub fn triangle_indices(triangles: &Vec<[usize; 3]>) -> (indices: Vec<u32>)
    ensures
        indices@ == flattened_indices(triangles@),
        indices@.len() == 3 * triangles@.len(),
        forall|k: int|
            0 <= k < indices@.len() ==> #[trigger] indices@[k] as int == triangles@[k / 3][k
                % 3] as int % 0x1_0000_0000,
{
    let mut indices: Vec<u32> = Vec::new();
    let mut t: usize = 0;
    while t < triangles.len()
        invariant
            0 <= t <= triangles@.len(),
            indices@ == flattened_indices(triangles@.take(t as int)),
        decreases triangles@.len() - t,
    {
        let tri = triangles[t];
        indices.push(tri[0] as u32);
        indices.push(tri[1] as u32);
        indices.push(tri[2] as u32);
        t = t + 1;
        assert(indices@ =~= flattened_indices(triangles@.take(t as int))) by {
            let s = triangles@.take(t as int);
            assert forall|k: int| 0 <= k < indices@.len() implies #[trigger] indices@[k] == s[k
                / 3][k % 3] as u32 by {
                if k < 3 * (t - 1) {
                    assert(s[k / 3] == triangles@.take(t - 1)[k / 3]);
                }
            }
        }
    }
    assert(triangles@.take(triangles@.len() as int) =~= triangles@);
    proof {
        lemma_flattened_indices_narrow_to_32_bits(triangles@);
    }
    indices
}

/// A corner `c` becomes the index `c mod 2^32`; in particular every corner
/// that fits in a `u32` becomes exactly itself.
pub proof fn lemma_flattened_indices_narrow_to_32_bits(triangles: Seq<[usize; 3]>)
    ensures
        flattened_indices(triangles).len() == 3 * triangles.len(),
        forall|k: int|
            0 <= k < 3 * triangles.len() ==> #[trigger] flattened_indices(triangles)[k] as int
                == triangles[k / 3][k % 3] as int % 0x1_0000_0000,
        forall|k: int|
            0 <= k < 3 * triangles.len() && triangles[k / 3][k % 3] <= u32::MAX ==> #[trigger] flattened_indices(
                triangles,
            )[k] == triangles[k / 3][k % 3],
{
    assert forall|k: int| 0 <= k < 3 * triangles.len() implies #[trigger] flattened_indices(
        triangles,
    )[k] as int == triangles[k / 3][k % 3] as int % 0x1_0000_0000 by {
        let c: usize = triangles[k / 3][k % 3];
        assert((c as u32) as int == (c as int) % 0x1_0000_0000) by (bit_vector);
    }
}

/// The number of bytes of a vertex buffer that holds `vertex_count`
/// `PosNormalUv` vertices.
pub fn vertex_buffer_size(vertex_count: usize) -> (size: u64)
    requires
        32 * vertex_count <= usize::MAX,
    ensures
        size == formats_size(PosNormalUv::attribute_formats()) * vertex_count,
        size == 4 * 8 * vertex_count,
{
    proof {
        lemma_pos_normal_uv_size();
    }
    let stride = 4 * PosNormalUv::bit32_count() as usize;
    (stride * vertex_count) as u64
}

} // verus!
