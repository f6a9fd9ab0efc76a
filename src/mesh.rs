use vstd::prelude::*;

use crate::error::{parse_error, StepLoaderError};

verus! {

/// Triangle `t` of a triangle-list index buffer, as its three corners.
pub open spec fn triangle_at(indices: Seq<u32>, t: int) -> (u32, u32, u32) {
    (indices[3 * t], indices[3 * t + 1], indices[3 * t + 2])
}

/// The triangles of a triangle-list index buffer, in buffer order.
pub open spec fn triangles(indices: Seq<u32>) -> Seq<(u32, u32, u32)> {
    Seq::new(indices.len() / 3, |t: int| triangle_at(indices, t))
}

/// The vertices that at least one index refers to.
pub open spec fn referenced_vertices(indices: Seq<u32>) -> Set<u32> {
    Set::new(|v: u32| indices.contains(v))
}

/// Every index names one of `vertex_count` vertices.
pub open spec fn indices_in_bounds(indices: Seq<u32>, vertex_count: nat) -> bool {
    forall|i: int| 0 <= i < indices.len() ==> (#[trigger] indices[i] as nat) < vertex_count
}

/// A well-formed triangle list over `vertex_count` vertices.
pub open spec fn is_triangle_list(indices: Seq<u32>, vertex_count: nat) -> bool {
    &&& indices.len() % 3 == 0
    &&& indices_in_bounds(indices, vertex_count)
}

/// A triangle mesh.
///
/// A position is the bit pattern of three IEEE-754 single-precision
/// coordinates, x, y and z. The library moves positions around and counts
/// them but never reads them as numbers; normals are derived from them by
/// whoever renders the mesh.
#[derive(Clone, Debug)]
pub struct Mesh {
    pub positions: Vec<[u32; 3]>,
    pub indices: Vec<u32>,
}

impl Mesh {
    /// The index buffer is a triangle list over the positions.
    pub open spec fn wf(&self) -> bool {
        is_triangle_list(self.indices@, self.positions@.len())
    }

    pub open spec fn triangle_count_spec(&self) -> nat {
        self.indices@.len() / 3
    }

    /// Number of triangles: a third of the index count.
    pub fn triangle_count(&self) -> (r: usize)
        ensures
            r == self.triangle_count_spec(),
    {
        self.indices.len() / 3
    }

    /// Number of vertices.
    pub fn vertex_count(&self) -> (r: usize)
        ensures
            r == self.positions@.len(),
    {
        self.positions.len()
    }

    /// Tests whether the index buffer is a triangle list over the positions.
    pub fn is_well_formed(&self) -> (r: bool)
        ensures
            r == self.wf(),
    {
        check_triangle_list(&self.indices, self.positions.len())
    }
}

/// Tests whether `indices` is a triangle list over `vertex_count` vertices.
pub fn check_triangle_list(indices: &Vec<u32>, vertex_count: usize) -> (r: bool)
    ensures
        r == is_triangle_list(indices@, vertex_count as nat),
{
    if indices.len() % 3 != 0 {
        return false;
    }
    let mut i: usize = 0;
    while i < indices.len()
        invariant
            0 <= i <= indices@.len(),
            forall|j: int| 0 <= j < i ==> (#[trigger] indices@[j] as nat) < vertex_count,
        decreases indices@.len() - i,
    {
        if indices[i] as usize >= vertex_count {
            return false;
        }
        i = i + 1;
    }
    true
}

/// An index buffer as a backend hands it over, in whatever width it uses.
pub enum RawIndices {
    U16(Vec<u16>),
    U32(Vec<u32>),
    Wide(Vec<usize>),
}

impl RawIndices {
    /// The index values, whatever their width.
    pub open spec fn values(&self) -> Seq<int> {
        match self {
            RawIndices::U16(v) => v@.map_values(|x: u16| x as int),
            RawIndices::U32(v) => v@.map_values(|x: u32| x as int),
            RawIndices::Wide(v) => v@.map_values(|x: usize| x as int),
        }
    }

    /// The index values cut to 32 bits; exact where they fit.
    pub open spec fn widened(&self) -> Seq<u32> {
        self.values().map_values(|x: int| x as u32)
    }
}

/// Positions and indices as a triangulation backend produced them.
pub struct RawGeometry {
    pub positions: Vec<[u32; 3]>,
    pub indices: RawIndices,
}

/// The raw geometry can be assembled: its indices form triangles and each
/// names an existing vertex by a 32-bit index.
pub open spec fn assemblable(raw: &RawGeometry) -> bool {
    &&& raw.indices.values().len() % 3 == 0
    &&& forall|i: int|
        0 <= i < raw.indices.values().len() ==> index_fits(
            #[trigger] raw.indices.values()[i],
            raw.positions@.len(),
        )
}

/// `v` names one of `vertex_count` vertices with a 32-bit index.
pub open spec fn index_fits(v: int, vertex_count: nat) -> bool {
    0 <= v < vertex_count && v <= u32::MAX
}

/// Widens an index buffer to 32 bits, refusing an index that names no vertex
/// (or does not fit 32 bits, which implies it).
fn widen_indices(raw: &RawIndices, vertex_count: usize) -> (r: Option<Vec<u32>>)
    ensures
        r is Some <==> (forall|i: int|
            0 <= i < raw.values().len() ==> index_fits(#[trigger] raw.values()[i], vertex_count as nat)),
        r matches Some(v) ==> v@.len() == raw.values().len() && forall|i: int|
            0 <= i < v@.len() ==> #[trigger] v@[i] as int == raw.values()[i],
{
    let mut out: Vec<u32> = Vec::new();
    match raw {
        RawIndices::U16(v) => {
            let mut i: usize = 0;
            while i < v.len()
                invariant
                    0 <= i <= v@.len(),
                    out@.len() == i,
                    raw.values() == v@.map_values(|x: u16| x as int),
                    forall|j: int| 0 <= j < i ==> #[trigger] out@[j] as int == v@[j] as int,
                    forall|j: int| 0 <= j < i ==> index_fits(#[trigger] v@[j] as int, vertex_count as nat),
                decreases v@.len() - i,
            {
                if v[i] as usize >= vertex_count {
                    assert(!index_fits(raw.values()[i as int], vertex_count as nat));
                    return None;
                }
                out.push(v[i] as u32);
                i = i + 1;
            }
        },
        RawIndices::U32(v) => {
            let mut i: usize = 0;
            while i < v.len()
                invariant
                    0 <= i <= v@.len(),
                    out@.len() == i,
                    raw.values() == v@.map_values(|x: u32| x as int),
                    forall|j: int| 0 <= j < i ==> #[trigger] out@[j] as int == v@[j] as int,
                    forall|j: int| 0 <= j < i ==> index_fits(#[trigger] v@[j] as int, vertex_count as nat),
                decreases v@.len() - i,
            {
                if v[i] as usize >= vertex_count {
                    assert(!index_fits(raw.values()[i as int], vertex_count as nat));
                    return None;
                }
                out.push(v[i]);
                i = i + 1;
            }
        },
        RawIndices::Wide(v) => {
            let mut i: usize = 0;
            while i < v.len()
                invariant
                    0 <= i <= v@.len(),
                    out@.len() == i,
                    raw.values() == v@.map_values(|x: usize| x as int),
                    forall|j: int| 0 <= j < i ==> #[trigger] out@[j] as int == v@[j] as int,
                    forall|j: int| 0 <= j < i ==> index_fits(#[trigger] v@[j] as int, vertex_count as nat),
                decreases v@.len() - i,
            {
                if v[i] >= vertex_count || v[i] > 0xffff_ffff {
                    assert(!index_fits(raw.values()[i as int], vertex_count as nat));
                    return None;
                }
                out.push(v[i] as u32);
                i = i + 1;
            }
        },
    }
    Some(out)
}

/// Turns a backend's raw output into a mesh, widening the indices to 32 bits.
/// Fails with a `ParseError` exactly when the raw geometry is not a triangle
/// list over its own positions.
pub fn assemble(raw: RawGeometry) -> (r: Result<Mesh, StepLoaderError>)
    ensures
        r is Ok <==> assemblable(&raw),
        r matches Ok(m) ==> {
            &&& m.wf()
            &&& m.positions@ == raw.positions@
            &&& m.indices@ == raw.indices.widened()
            &&& forall|i: int|
                0 <= i < m.indices@.len() ==> #[trigger] m.indices@[i] as int
                    == raw.indices.values()[i]
        },
        r matches Err(e) ==> e is ParseError && e->ParseError_0@ == if raw.indices.values().len() % 3
            != 0 {
            "index count is not a multiple of three"@
        } else {
            "an index refers to a vertex that does not exist"@
        },
{
    let count = match &raw.indices {
        RawIndices::U16(v) => v.len(),
        RawIndices::U32(v) => v.len(),
        RawIndices::Wide(v) => v.len(),
    };
    if count % 3 != 0 {
        return Err(parse_error("index count is not a multiple of three"));
    }
    match widen_indices(&raw.indices, raw.positions.len()) {
        None => Err(parse_error("an index refers to a vertex that does not exist")),
        Some(indices) => {
            let m = Mesh { positions: raw.positions, indices };
            assert(m.wf());
            assert(m.indices@ =~= raw.indices.widened());
            Ok(m)
        },
    }
}

} // verus!
