use vstd::prelude::*;

use crate::error::{parse_error, StepLoaderError};
use crate::mesh::{assemble, assemblable, Mesh, RawGeometry};
use crate::optimize::{optimise_mesh, reorders, same_triangles, vertex_cache_order};

verus! {

/// The triangulation backend a deployment runs.
#[derive(Clone, Copy, Debug, PartialEq, Eq, Structural)]
pub enum Backend {
    /// The OpenCASCADE kernel, fed through a scratch file.
    Occt,
    /// The in-memory STEP parser and triangulator.
    Foxtrot,
}

impl Backend {
    /// The error that reports a failure of this backend.
    pub open spec fn failure_spec(self, message: String) -> StepLoaderError {
        match self {
            Backend::Occt => StepLoaderError::OcctError(message),
            Backend::Foxtrot => StepLoaderError::FoxtrotError(message),
        }
    }

    /// Wraps a message of this backend into the error that reports it.
    pub fn failure(self, message: String) -> (r: StepLoaderError)
        ensures
            r == self.failure_spec(message),
    {
        match self {
            Backend::Occt => StepLoaderError::OcctError(message),
            Backend::Foxtrot => StepLoaderError::FoxtrotError(message),
        }
    }
}

/// The bytes `ISO-10303-21;` that open every STEP exchange file.
pub open spec fn step_magic() -> Seq<u8> {
    seq![73u8, 83u8, 79u8, 45u8, 49u8, 48u8, 51u8, 48u8, 51u8, 45u8, 50u8, 49u8, 59u8]
}

/// Space, tab, line feed or carriage return.
pub open spec fn is_blank(c: u8) -> bool {
    c == 32 || c == 9 || c == 10 || c == 13
}

/// After optional blanks, the bytes open with the STEP magic.
pub open spec fn has_step_header(b: Seq<u8>) -> bool {
    exists|k: int|
        0 <= k && k + 13 <= b.len() && (forall|j: int| 0 <= j < k ==> is_blank(#[trigger] b[j]))
            && #[trigger] b.subrange(k, k + 13) == step_magic()
}

/// A loaded STEP file: its mesh.
#[derive(Clone, Debug)]
pub struct StepAsset {
    pub mesh: Mesh,
}

/// Turns STEP bytes, through the configured backend, into a `StepAsset`.
///
/// The backend itself runs outside the library: the caller first hands the
/// bytes to `check_input`, runs the backend on them, then hands its result to
/// `finish_load`.
#[derive(Clone, Copy, Debug)]
pub struct StepLoader {
    pub backend: Backend,
    /// Reorder each loaded mesh for the GPU's vertex cache.
    pub optimise: bool,
}

impl Default for StepLoader {
    fn default() -> (r: Self)
        ensures
            r.backend == Backend::Foxtrot,
            !r.optimise,
    {
        StepLoader { backend: Backend::Foxtrot, optimise: false }
    }
}

impl StepLoader {
    /// Rejects, with a `ParseError`, bytes that cannot be a STEP file: those
    /// that do not open with `ISO-10303-21;` after optional blanks. Empty
    /// input is among them.
    pub fn check_input(&self, step_data: &[u8]) -> (r: Result<(), StepLoaderError>)
        ensures
            r is Ok <==> has_step_header(step_data@),
            step_data@.len() == 0 ==> r is Err,
            r matches Err(e) ==> e is ParseError && e->ParseError_0@
                == "input does not start with a STEP header"@,
    {
        let magic: Vec<u8> = vec![73u8, 83u8, 79u8, 45u8, 49u8, 48u8, 51u8, 48u8, 51u8, 45u8, 50u8, 49u8, 59u8];
        assert(magic@ =~= step_magic());
        let n = step_data.len();
        let mut k: usize = 0;
        while k < n && (step_data[k] == 32 || step_data[k] == 9 || step_data[k] == 10 || step_data[k] == 13)
            invariant
                0 <= k <= n,
                n == step_data@.len(),
                forall|j: int| 0 <= j < k ==> is_blank(#[trigger] step_data@[j]),
            decreases n - k,
        {
            k = k + 1;
        }
        if n - k < 13 {
            proof {
                lemma_header_at_first_non_blank(step_data@, k as int);
            }
            return Err(parse_error("input does not start with a STEP header"));
        }
        let mut i: usize = 0;
        while i < 13
            invariant
                0 <= i <= 13,
                k + 13 <= n,
                n == step_data@.len(),
                magic@ == step_magic(),
                forall|j: int| 0 <= j < k ==> is_blank(#[trigger] step_data@[j]),
                !is_blank(step_data@[k as int]),
                forall|j: int| 0 <= j < i ==> step_data@[k + j] == #[trigger] magic@[j],
            decreases 13 - i,
        {
            if step_data[k + i] != magic[i] {
                proof {
                    lemma_header_at_first_non_blank(step_data@, k as int);
                    assert(step_data@.subrange(k as int, k + 13)[i as int] != step_magic()[i as int]);
                }
                return Err(parse_error("input does not start with a STEP header"));
            }
            i = i + 1;
        }
        proof {
            assert(step_data@.subrange(k as int, k + 13) =~= step_magic());
        }
        Ok(())
    }

    /// Finishes a load from what the backend returned. A backend failure is
    /// reported as this backend's error, with its message; geometry that is
    /// not a triangle list over its own positions is a `ParseError`.
    /// Otherwise the assembled mesh is returned, reordered for the vertex
    /// cache where `optimise` is set.
    pub fn finish_load(&self, triangulated: Result<RawGeometry, String>) -> (r: Result<
        StepAsset,
        StepLoaderError,
    >)
        ensures
            triangulated matches Err(m) ==> r == Err::<StepAsset, StepLoaderError>(
                self.backend.failure_spec(m),
            ),
            r matches Err(e) ==> (e is ParseError || e is OcctError || e is FoxtrotError),
            triangulated matches Ok(raw) ==> {
                &&& r is Ok <==> assemblable(&raw)
                &&& r matches Err(e) ==> e is ParseError
                &&& r matches Ok(a) ==> {
                    &&& a.mesh.wf()
                    &&& a.mesh.positions@ == raw.positions@
                    &&& if self.optimise {
                        &&& same_triangles(raw.indices.widened(), a.mesh.indices@)
                        &&& reorders(raw.indices.widened(), raw.positions@.len()) ==> a.mesh.indices@
                            == vertex_cache_order(raw.indices.widened(), raw.positions@.len())
                        &&& !reorders(raw.indices.widened(), raw.positions@.len()) ==> a.mesh.indices@
                            == raw.indices.widened()
                    } else {
                        a.mesh.indices@ == raw.indices.widened()
                    }
                }
            },
    {
        match triangulated {
            Err(m) => Err(self.backend.failure(m)),
            Ok(raw) => {
                let mesh = assemble(raw)?;
                if self.optimise {
                    Ok(StepAsset { mesh: optimise_mesh(&mesh) })
                } else {
                    Ok(StepAsset { mesh })
                }
            },
        }
    }
}

/// Where the first non-blank byte sits at `k`, a header can only start there.
proof fn lemma_header_at_first_non_blank(b: Seq<u8>, k: int)
    requires
        0 <= k <= b.len(),
        forall|j: int| 0 <= j < k ==> is_blank(#[trigger] b[j]),
        k < b.len() ==> !is_blank(b[k]),
    ensures
        has_step_header(b) ==> k + 13 <= b.len() && b.subrange(k, k + 13) == step_magic(),
{
    if has_step_header(b) {
        let k2 = choose|k2: int|
            0 <= k2 && k2 + 13 <= b.len() && (forall|j: int|
                0 <= j < k2 ==> is_blank(#[trigger] b[j])) && #[trigger] b.subrange(k2, k2 + 13)
                == step_magic();
        assert(b.subrange(k2, k2 + 13)[0] == b[k2]);
        if k2 < k {
            assert(is_blank(b[k2]));
        } else if k2 > k {
            assert(is_blank(b[k]));
        }
    }
}

/// Registers the STEP loader with a host application.
#[derive(Clone, Copy, Debug)]
pub struct StepPlugin {
    pub loader: StepLoader,
}

impl Default for StepPlugin {
    fn default() -> (r: Self)
        ensures
            r.loader.backend == Backend::Foxtrot,
            !r.loader.optimise,
    {
        StepPlugin { loader: StepLoader::default() }
    }
}

impl StepPlugin {
    /// The loader this plugin registers.
    pub fn loader(&self) -> (r: StepLoader)
        ensures
            r == self.loader,
    {
        self.loader
    }
}

} // verus!
