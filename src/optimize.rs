use vstd::prelude::*;

use crate::mesh::{indices_in_bounds, is_triangle_list, referenced_vertices, triangle_at, triangles, Mesh};

verus! {

broadcast use vstd::seq_lib::group_to_multiset_ensures;

/// `after` holds the triangles of `before`, each once as often, possibly in
/// another order.
pub open spec fn same_triangles(before: Seq<u32>, after: Seq<u32>) -> bool {
    &&& after.len() == before.len()
    &&& triangles(after).to_multiset() == triangles(before).to_multiset()
}

/// The index buffer that meshoptimizer's vertex-cache optimizer writes for
/// `indices` over `vertex_count` vertices; it depends on these alone.
pub uninterp spec fn vertex_cache_order(indices: Seq<u32>, vertex_count: nat) -> Seq<u32>;

/// The optimizer is run on a buffer: one that is not empty, over at least
/// one vertex, and short enough for the optimizer's 32-bit counters.
pub open spec fn reorders(indices: Seq<u32>, vertex_count: nat) -> bool {
    &&& indices.len() > 0
    &&& vertex_count > 0
    &&& indices.len() <= u32::MAX
}

/// Relies on meshopt::optimize_vertex_cache_in_place (meshoptimizer's
/// `meshopt_optimizeVertexCache` on one buffer): it copies the input, then
/// writes every input triangle exactly once, corners in their own order, so
/// only the order of the triangles changes. It asserts that the index count
/// is a multiple of three and that each index is below the vertex count, and
/// counts triangles and adjacency offsets in 32 bits.
#[verifier::external_body]
fn optimize_vertex_cache(indices: &mut Vec<u32>, vertex_count: usize)
    requires
        is_triangle_list(old(indices)@, vertex_count as nat),
        old(indices)@.len() <= u32::MAX,
    ensures
        same_triangles(old(indices)@, final(indices)@),
        final(indices)@ == vertex_cache_order(old(indices)@, vertex_count as nat),
{
    meshopt::optimize_vertex_cache_in_place(indices.as_mut_slice(), vertex_count)
}

/// Index `i` of a triangle list is a corner of triangle `i / 3`.
proof fn lemma_index_in_triangle(s: Seq<u32>, i: int)
    requires
        s.len() % 3 == 0,
        0 <= i < s.len(),
    ensures
        0 <= i / 3 < triangles(s).len(),
        ({
            let t = triangles(s)[i / 3];
            s[i] == t.0 || s[i] == t.1 || s[i] == t.2
        }),
{
    let t = i / 3;
    assert(triangles(s)[t] == triangle_at(s, t));
}

/// A corner of a triangle of the list is one of its indices.
proof fn lemma_corner_is_index(s: Seq<u32>, t: int, v: u32)
    requires
        0 <= t < triangles(s).len(),
        ({
            let tri = triangles(s)[t];
            v == tri.0 || v == tri.1 || v == tri.2
        }),
    ensures
        s.contains(v),
{
    assert(triangles(s)[t] == triangle_at(s, t));
    if v == s[3 * t] {
        assert(s[3 * t] == v);
    } else if v == s[3 * t + 1] {
        assert(s[3 * t + 1] == v);
    } else {
        assert(s[3 * t + 2] == v);
    }
}

/// Each index of `after` is a corner of some triangle of `before`.
proof fn lemma_index_comes_from(before: Seq<u32>, after: Seq<u32>, i: int)
    requires
        same_triangles(before, after),
        before.len() % 3 == 0,
        0 <= i < after.len(),
    ensures
        before.contains(after[i]),
{
    lemma_index_in_triangle(after, i);
    let tri = triangles(after)[i / 3];
    assert(triangles(after).contains(tri));
    assert(triangles(before).to_multiset().count(tri) > 0);
    assert(triangles(before).contains(tri));
    let t = choose|t: int| 0 <= t < triangles(before).len() && triangles(before)[t] == tri;
    lemma_corner_is_index(before, t, after[i]);
}

/// Reordering the triangles of a triangle list keeps it a triangle list over
/// the same vertices, with as many triangles, referring to the same vertices.
pub proof fn lemma_reorder_keeps_mesh(before: Seq<u32>, after: Seq<u32>, vertex_count: nat)
    requires
        is_triangle_list(before, vertex_count),
        same_triangles(before, after),
    ensures
        is_triangle_list(after, vertex_count),
        triangles(after).len() == triangles(before).len(),
        referenced_vertices(after) == referenced_vertices(before),
{
    assert forall|i: int| 0 <= i < after.len() implies (#[trigger] after[i] as nat)
        < vertex_count by {
        lemma_index_comes_from(before, after, i);
        let j = choose|j: int| 0 <= j < before.len() && before[j] == after[i];
        assert((before[j] as nat) < vertex_count);
    }
    assert(indices_in_bounds(after, vertex_count));
    assert forall|v: u32| #[trigger] after.contains(v) implies before.contains(v) by {
        let i = choose|i: int| 0 <= i < after.len() && after[i] == v;
        lemma_index_comes_from(before, after, i);
    }
    assert forall|v: u32| #[trigger] before.contains(v) implies after.contains(v) by {
        let i = choose|i: int| 0 <= i < before.len() && before[i] == v;
        lemma_index_in_triangle(before, i);
        let tri = triangles(before)[i / 3];
        assert(triangles(before).contains(tri));
        assert(triangles(after).to_multiset().count(tri) > 0);
        let t = choose|t: int| 0 <= t < triangles(after).len() && triangles(after)[t] == tri;
        lemma_corner_is_index(after, t, v);
    }
    assert(referenced_vertices(after) =~= referenced_vertices(before));
}

/// Reorders the triangles of a well-formed mesh for the GPU's vertex cache.
/// The positions stay as they are; the result holds the same triangles,
/// corners in their own order, so it has as many triangles and refers to the
/// same vertices. Its indices are meshoptimizer's order where the optimizer
/// runs, and the input's otherwise.
pub fn optimise_mesh(mesh: &Mesh) -> (r: Mesh)
    requires
        mesh.wf(),
    ensures
        r.wf(),
        r.positions@ == mesh.positions@,
        same_triangles(mesh.indices@, r.indices@),
        r.triangle_count_spec() == mesh.triangle_count_spec(),
        referenced_vertices(r.indices@) == referenced_vertices(mesh.indices@),
        reorders(mesh.indices@, mesh.positions@.len()) ==> r.indices@ == vertex_cache_order(
            mesh.indices@,
            mesh.positions@.len(),
        ),
        !reorders(mesh.indices@, mesh.positions@.len()) ==> r.indices@ == mesh.indices@,
{
    let mut positions: Vec<[u32; 3]> = Vec::new();
    let mut i: usize = 0;
    while i < mesh.positions.len()
        invariant
            0 <= i <= mesh.positions@.len(),
            positions@ == mesh.positions@.subrange(0, i as int),
        decreases mesh.positions@.len() - i,
    {
        positions.push(mesh.positions[i]);
        i = i + 1;
        assert(positions@ =~= mesh.positions@.subrange(0, i as int));
    }
    assert(positions@ =~= mesh.positions@);
    let mut indices: Vec<u32> = Vec::new();
    let mut k: usize = 0;
    while k < mesh.indices.len()
        invariant
            0 <= k <= mesh.indices@.len(),
            indices@ == mesh.indices@.subrange(0, k as int),
        decreases mesh.indices@.len() - k,
    {
        indices.push(mesh.indices[k]);
        k = k + 1;
        assert(indices@ =~= mesh.indices@.subrange(0, k as int));
    }
    assert(indices@ =~= mesh.indices@);
    if !indices.is_empty() && !positions.is_empty() && indices.len() <= 0xffff_ffff {
        optimize_vertex_cache(&mut indices, positions.len());
    }
    proof {
        lemma_reorder_keeps_mesh(mesh.indices@, indices@, mesh.positions@.len());
    }
    Mesh { positions, indices }
}

} // verus!
