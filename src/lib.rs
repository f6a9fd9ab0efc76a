//! Turns the triangulated output of a STEP (ISO 10303-21) backend into a
//! checked triangle mesh, and holds the index-buffer logic around it:
//! assembly, vertex-cache reordering and the bookkeeping of decimation.

pub mod error;
pub mod mesh;
pub mod optimize;
pub mod loader;
pub mod simplify;
