//! A verified model of a single-pass "uber" post-processing effect pipeline.
//!
//! The pipeline composites bloom, channel mixing and a selectable tonemapping
//! curve into one full-screen shader pass per view. The library covers the
//! orchestration logic: packing the effect configuration into a fixed uniform
//! layout, allocating per-view off-screen targets through a descriptor-keyed
//! texture cache, assembling per-frame resource bindings, and scheduling the
//! draw through a render-graph node. GPU objects (textures, buffers, bind
//! groups, pipelines) appear as plain handles and descriptor records, and the
//! render node emits an explicit command sequence, so every stage is ordinary
//! verified code. Scalar effect parameters are carried as IEEE-754
//! single-precision bit patterns, which packing moves bit-exactly.

pub mod components;
pub mod math;
pub mod node;
pub mod pipeline;
pub mod render;
pub mod stages;
pub mod texture_cache;
pub mod uniform;
