//! Immutable render snapshots of the document and the parts of flattening
//! that need no blending arithmetic.

pub mod snapshot;
