use vstd::prelude::*;

use crate::error::{parse_error, StepLoaderError};
use crate::loader::StepAsset;
use crate::mesh::{check_triangle_list, is_triangle_list};

verus! {

/// The share `num / den` of a mesh's indices that decimation aims to keep.
#[derive(Clone, Copy, Debug, PartialEq, Eq, Structural)]
pub struct Ratio {
    pub num: u32,
    pub den: u32,
}

impl Ratio {
    /// A share in (0, 1].
    pub open spec fn valid(self) -> bool {
        0 < self.num <= self.den
    }
}

/// `index_count * num / den`, rounded to the nearest integer, halves up.
pub open spec fn target_index_count(index_count: nat, ratio: Ratio) -> nat {
    ((2 * index_count * ratio.num + ratio.den) / (2 * ratio.den)) as nat
}

/// An index buffer that may stand for `before` after decimation: a triangle
/// list over the same `vertex_count` vertices, no longer than `before`.
pub open spec fn is_decimation(before: Seq<u32>, after: Seq<u32>, vertex_count: nat) -> bool {
    &&& is_triangle_list(after, vertex_count)
    &&& after.len() <= before.len()
}

proof fn lemma_target_bounds(n: int, num: int, den: int)
    requires
        0 <= n <= u64::MAX,
        0 < num <= den <= u32::MAX,
    ensures
        2 * n * num + den <= u128::MAX,
        (2 * n * num + den) / (2 * den) <= n,
{
    assert(2 * n * num <= 2 * n * den) by (nonlinear_arith)
        requires
            0 <= n,
            num <= den,
    ;
    assert(2 * n * den <= 2 * (u64::MAX as int) * (u32::MAX as int)) by (nonlinear_arith)
        requires
            0 <= n <= u64::MAX,
            0 < den <= u32::MAX,
    ;
    assert((2 * n * num + den) / (2 * den) <= n) by (nonlinear_arith)
        requires
            0 <= n,
            0 < den,
            2 * n * num <= 2 * n * den,
    ;
}

/// The index count that decimating `index_count` indices by `ratio` aims
/// for; never more than `index_count`.
pub fn target_for(index_count: usize, ratio: Ratio) -> (r: usize)
    requires
        ratio.valid(),
    ensures
        r == target_index_count(index_count as nat, ratio),
        r <= index_count,
{
    proof {
        lemma_target_bounds(index_count as int, ratio.num as int, ratio.den as int);
    }
    let n = index_count as u128;
    let num = ratio.num as u128;
    let den = ratio.den as u128;
    let q = (2 * n * num + den) / (2 * den);
    q as usize
}

/// What a decimation achieved.
#[derive(Clone, Copy, Debug, PartialEq, Eq, Structural)]
pub struct SimplifyReport {
    pub original_index_count: usize,
    pub target_index_count: usize,
    pub index_count: usize,
    /// The decimation got down to its target; where it did not, the error
    /// bound stopped it first and the mesh is the best it could reach.
    pub reached_target: bool,
}

impl StepAsset {
    /// The index count that decimating this asset's mesh by `ratio` aims for.
    pub fn simplification_target(&self, ratio: Ratio) -> (r: usize)
        requires
            ratio.valid(),
        ensures
            r == target_index_count(self.mesh.indices@.len(), ratio),
    {
        target_for(self.mesh.indices.len(), ratio)
    }

    /// Installs the index buffer that an error-bounded decimation of this
    /// asset's mesh, aimed at `simplification_target(ratio)`, produced. The
    /// positions stay; only the indices change, and the triangle count never
    /// grows. A mesh that is not a triangle list over its positions, or a
    /// result that is not a decimation of it, is a `ParseError`, and the asset
    /// is left as it was. Falling short of the target is no error: the report
    /// says so.
    pub fn simplify_mesh(&mut self, ratio: Ratio, simplified: Vec<u32>) -> (r: Result<
        SimplifyReport,
        StepLoaderError,
    >)
        requires
            ratio.valid(),
        ensures
            r is Ok <==> old(self).mesh.wf() && is_decimation(
                old(self).mesh.indices@,
                simplified@,
                old(self).mesh.positions@.len(),
            ),
            r matches Err(e) ==> e is ParseError,
            r is Err ==> final(self).mesh.indices@ == old(self).mesh.indices@,
            final(self).mesh.positions@ == old(self).mesh.positions@,
            r matches Ok(rep) ==> {
                &&& final(self).mesh.wf()
                &&& final(self).mesh.indices@ == simplified@
                &&& final(self).mesh.triangle_count_spec() <= old(self).mesh.triangle_count_spec()
                &&& rep.original_index_count == old(self).mesh.indices@.len()
                &&& rep.target_index_count == target_index_count(
                    old(self).mesh.indices@.len(),
                    ratio,
                )
                &&& rep.index_count == simplified@.len()
                &&& rep.reached_target == (simplified@.len() <= rep.target_index_count)
            },
    {
        if !self.mesh.is_well_formed() {
            return Err(parse_error("mesh indices are not a triangle list over its positions"));
        }
        let original_index_count = self.mesh.indices.len();
        if simplified.len() > original_index_count || !check_triangle_list(
            &simplified,
            self.mesh.positions.len(),
        ) {
            return Err(parse_error("decimated indices do not fit the mesh"));
        }
        let target_index_count = target_for(original_index_count, ratio);
        let index_count = simplified.len();
        self.mesh.indices = simplified;
        Ok(
            SimplifyReport {
                original_index_count,
                target_index_count,
                index_count,
                reached_target: index_count <= target_index_count,
            },
        )
    }
}

} // verus!
