//! One-time construction of the compositing pipeline state.
//!
//! The GPU pipeline, bind-group layout and sampler are opaque objects; what
//! the pass depends on is the state they were built with, so the handles here
//! carry their full descriptors. Construction is pure bookkeeping and happens
//! once at subsystem startup; the descriptors never change afterwards.

use vstd::prelude::*;
use crate::texture_cache::TextureFormat;
use crate::uniform::PACKED_BLOCK_BYTES;

verus! {

/// A blend factor of the color target's blend equation.
#[derive(Clone, Copy, Debug, PartialEq, Eq, Structural)]
pub enum BlendFactor {
    One,
    Src,
    OneMinusSrc,
}

/// A blend operation of the color target's blend equation.
#[derive(Clone, Copy, Debug, PartialEq, Eq, Structural)]
pub enum BlendOperation {
    Add,
}

/// One half of the blend state: factors and operation for one component.
#[derive(Clone, Copy, Debug, PartialEq, Eq, Structural)]
pub struct BlendComponent {
    pub src_factor: BlendFactor,
    pub dst_factor: BlendFactor,
    pub operation: BlendOperation,
}

/// Blend state of the single color target.
#[derive(Clone, Copy, Debug, PartialEq, Eq, Structural)]
pub struct BlendState {
    pub color: BlendComponent,
    pub alpha: BlendComponent,
}

/// The single color target: output format and blending.
#[derive(Clone, Copy, Debug, PartialEq, Eq, Structural)]
pub struct ColorTargetState {
    pub format: TextureFormat,
    pub blend: BlendState,
}

/// Primitive assembly topology.
#[derive(Clone, Copy, Debug, PartialEq, Eq, Structural)]
pub enum PrimitiveTopology {
    TriangleList,
}

/// Which faces are culled.
#[derive(Clone, Copy, Debug, PartialEq, Eq, Structural)]
pub enum Face {
    Back,
}

/// Fixed-function primitive state.
#[derive(Clone, Copy, Debug, PartialEq, Eq, Structural)]
pub struct PrimitiveState {
    pub topology: PrimitiveTopology,
    pub cull_mode: Face,
}

/// Shader stages a binding is visible to.
#[derive(Clone, Copy, Debug, PartialEq, Eq, Structural)]
pub enum ShaderStage {
    Vertex,
    Fragment,
}

/// One slot of the bind-group layout: a uniform buffer with a minimum size.
#[derive(Clone, Copy, Debug, PartialEq, Eq, Structural)]
pub struct BindGroupLayoutEntry {
    pub binding: u32,
    pub visibility: ShaderStage,
    pub min_binding_size: u64,
}

/// The layout of the pass's single bind group.
#[derive(Clone, Copy, Debug, PartialEq, Eq, Structural)]
pub struct BindGroupLayoutDescriptor {
    pub entry: BindGroupLayoutEntry,
}

/// Everything the render pipeline was built with: the color target, the
/// primitive state, and whether a depth/stencil attachment is used.
#[derive(Clone, Copy, Debug, PartialEq, Eq, Structural)]
pub struct RenderPipelineDescriptor {
    pub target: ColorTargetState,
    pub primitive: PrimitiveState,
    pub has_depth_stencil: bool,
}

/// The default sampler state (filtering and addressing defaults).
#[derive(Clone, Copy, Debug, PartialEq, Eq, Structural, Default)]
pub struct SamplerDescriptor;

/// The pipeline state of the compositing pass: its color target is the
/// single-channel 8-bit mask format with (src, one-minus-src) color blending
/// and (one, one) alpha blending, triangle-list topology, back-face culling
/// and no depth/stencil attachment.
pub open spec fn uber_pipeline_descriptor() -> RenderPipelineDescriptor {
    RenderPipelineDescriptor {
        target: ColorTargetState {
            format: TextureFormat::R8Unorm,
            blend: BlendState {
                color: BlendComponent {
                    src_factor: BlendFactor::Src,
                    dst_factor: BlendFactor::OneMinusSrc,
                    operation: BlendOperation::Add,
                },
                alpha: BlendComponent {
                    src_factor: BlendFactor::One,
                    dst_factor: BlendFactor::One,
                    operation: BlendOperation::Add,
                },
            },
        },
        primitive: PrimitiveState {
            topology: PrimitiveTopology::TriangleList,
            cull_mode: Face::Back,
        },
        has_depth_stencil: false,
    }
}

/// The binding layout of the pass: one uniform slot at binding 0, visible to
/// the fragment stage, at least as large as the packed uniform block.
pub open spec fn uber_view_layout_descriptor() -> BindGroupLayoutDescriptor {
    BindGroupLayoutDescriptor {
        entry: BindGroupLayoutEntry {
            binding: 0,
            visibility: ShaderStage::Fragment,
            min_binding_size: PACKED_BLOCK_BYTES,
        },
    }
}

/// The pipeline, binding layout and sampler of the compositing pass, built
/// once at startup and shared by every later stage.
#[derive(Clone, Copy, Debug, PartialEq, Eq, Structural)]
pub struct UberEffectShaders {
    pub pipeline: RenderPipelineDescriptor,
    pub view_layout: BindGroupLayoutDescriptor,
    pub sampler: SamplerDescriptor,
}

impl UberEffectShaders {
    /// Builds the pass's pipeline state: the exact color-target, blend,
    /// primitive and binding-layout state of the compositing shader.
    pub fn from_world() -> (s: UberEffectShaders)
        ensures
            s.pipeline == uber_pipeline_descriptor(),
            s.view_layout == uber_view_layout_descriptor(),
            s.sampler == SamplerDescriptor,
    {
        let view_layout = BindGroupLayoutDescriptor {
            entry: BindGroupLayoutEntry {
                binding: 0,
                visibility: ShaderStage::Fragment,
                min_binding_size: PACKED_BLOCK_BYTES,
            },
        };
        let pipeline = RenderPipelineDescriptor {
            target: ColorTargetState {
                format: TextureFormat::R8Unorm,
                blend: BlendState {
                    color: BlendComponent {
                        src_factor: BlendFactor::Src,
                        dst_factor: BlendFactor::OneMinusSrc,
                        operation: BlendOperation::Add,
                    },
                    alpha: BlendComponent {
                        src_factor: BlendFactor::One,
                        dst_factor: BlendFactor::One,
                        operation: BlendOperation::Add,
                    },
                },
            },
            primitive: PrimitiveState {
                topology: PrimitiveTopology::TriangleList,
                cull_mode: Face::Back,
            },
            has_depth_stencil: false,
        };
        UberEffectShaders { pipeline, view_layout, sampler: SamplerDescriptor }
    }
}

} // verus!
