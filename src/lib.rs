//! Verified core of a triplanar, texture-splatted surface material: packing of
//! per-vertex blend weights, the description of a splatted material, the
//! derivation of its GPU uniform record and pipeline key, the specialization
//! of its render pipeline, and the barrier that waits for its texture arrays.
pub mod barrier;
pub mod bind_group;
pub mod material;
pub mod pipeline;
pub mod weights;
