//! Pipeline resource: the fusion of a shader module's two entry points, one
//! vertex-layout descriptor, an ordered list of texture binding layouts and
//! the sandbox's fixed-function state (triangle-list topology, back-face
//! culling, counter-clockwise winding, opaque replace blending, no
//! depth/stencil, single-sample) into one render-pipeline descriptor.

use vstd::prelude::*;

use crate::app::App;
use crate::mesh::IndexFormat;
use crate::texture::BindGroupLayout;
use crate::texture::TextureFormat;
use crate::vertex::VertexBufferLayout;
use crate::vertex::VertexStepMode;
use crate::vertex::VertexType;

verus! {

/// How the vertex stream is assembled into primitives.
#[derive(Clone, Copy, PartialEq, Eq, Structural, Debug)]
pub enum PrimitiveTopology {
    PointList,
    LineList,
    LineStrip,
    TriangleList,
    TriangleStrip,
}

/// Which winding order counts as the front of a triangle.
#[derive(Clone, Copy, PartialEq, Eq, Structural, Debug)]
pub enum FrontFace {
    Ccw,
    Cw,
}

/// A triangle side, for culling.
#[derive(Clone, Copy, PartialEq, Eq, Structural, Debug)]
pub enum Face {
    Front,
    Back,
}

/// How triangles are rasterized.
#[derive(Clone, Copy, PartialEq, Eq, Structural, Debug)]
pub enum PolygonMode {
    Fill,
    Line,
    Point,
}

/// How a fragment's output is combined with the target pixel.
#[derive(Clone, Copy, PartialEq, Eq, Structural, Debug)]
pub enum BlendState {
    /// The fragment replaces the target pixel (opaque).
    Replace,
    /// Standard source-over alpha blending.
    AlphaBlending,
}

/// The two entry points a shader module of this sandbox exposes.
#[derive(Clone, Copy, PartialEq, Eq, Structural, Debug)]
pub enum ShaderEntry {
    VsMain,
    FsMain,
}

/// Color-channel write mask: all four channels enabled.
pub const COLOR_WRITES_ALL: u32 = 15;

/// The single color target a pipeline writes: its pixel format must match
/// the current surface format.
#[derive(Clone, Copy, PartialEq, Eq, Structural, Debug)]
pub struct ColorTargetState {
    pub format: TextureFormat,
    pub blend: BlendState,
    pub write_mask: u32,
}

/// The vertex stage: its entry point and the single vertex-buffer layout it
/// reads.
pub struct VertexState {
    pub entry_point: ShaderEntry,
    pub layout: VertexBufferLayout,
}

/// The fragment stage: its entry point and the single color target it
/// writes.
#[derive(Clone, Copy, PartialEq, Eq, Structural, Debug)]
pub struct FragmentState {
    pub entry_point: ShaderEntry,
    pub target: ColorTargetState,
}

/// Primitive assembly and rasterization state.
#[derive(Clone, Copy, PartialEq, Eq, Structural, Debug)]
pub struct PrimitiveState {
    pub topology: PrimitiveTopology,
    pub strip_index_format: Option<IndexFormat>,
    pub front_face: FrontFace,
    pub cull_mode: Option<Face>,
    pub polygon_mode: PolygonMode,
    pub unclipped_depth: bool,
    pub conservative: bool,
}

/// Multisampling state.
#[derive(Clone, Copy, PartialEq, Eq, Structural, Debug)]
pub struct MultisampleState {
    pub count: u32,
    pub mask: u64,
    pub alpha_to_coverage_enabled: bool,
}

/// Everything the GPU needs to compile one render pipeline.
pub struct RenderPipelineDescriptor {
    pub vertex: VertexState,
    pub fragment: FragmentState,
    pub bind_group_layouts: Vec<BindGroupLayout>,
    pub primitive: PrimitiveState,
    pub has_depth_stencil: bool,
    pub multisample: MultisampleState,
    pub multiview: bool,
}

/// A pipeline resource: one compiled render-pipeline descriptor. Pipelines
/// are append-only in the render context and indexed positionally.
pub struct Pipeline {
    pipeline: RenderPipelineDescriptor,
}

impl Pipeline {
    /// The descriptor this pipeline was compiled from.
    pub closed spec fn descriptor_spec(self) -> RenderPipelineDescriptor {
        self.pipeline
    }

    /// The fixed-function state every pipeline of this sandbox uses, and the
    /// pieces composed in for one vertex shape and surface format: both
    /// entry points, the vertex layout of the tag, an opaque replace-blend
    /// color target in the surface format with a full write mask,
    /// triangle-list primitives with back-face culling and counter-clockwise
    /// front faces, no depth/stencil, one sample with a full mask, and no
    /// multiview.
    pub open spec fn composed_for(
        self,
        format: TextureFormat,
        layouts: Seq<BindGroupLayout>,
        vertex_type: VertexType,
    ) -> bool {
        &&& self.descriptor_spec().vertex.entry_point == ShaderEntry::VsMain
        &&& self.descriptor_spec().vertex.layout.array_stride == vertex_type.stride_spec()
        &&& self.descriptor_spec().vertex.layout.step_mode == VertexStepMode::Vertex
        &&& self.descriptor_spec().vertex.layout.attributes@ == vertex_type.attributes_spec()
        &&& self.descriptor_spec().fragment.entry_point == ShaderEntry::FsMain
        &&& self.descriptor_spec().fragment.target == (ColorTargetState {
            format,
            blend: BlendState::Replace,
            write_mask: COLOR_WRITES_ALL,
        })
        &&& self.descriptor_spec().bind_group_layouts@ == layouts
        &&& self.descriptor_spec().primitive == (PrimitiveState {
            topology: PrimitiveTopology::TriangleList,
            strip_index_format: None,
            front_face: FrontFace::Ccw,
            cull_mode: Some(Face::Back),
            polygon_mode: PolygonMode::Fill,
            unclipped_depth: false,
            conservative: false,
        })
        &&& !self.descriptor_spec().has_depth_stencil
        &&& self.descriptor_spec().multisample == (MultisampleState {
            count: 1,
            mask: u64::MAX,
            alpha_to_coverage_enabled: false,
        })
        &&& !self.descriptor_spec().multiview
    }

    /// Compose a render-pipeline descriptor for the given render context,
    /// ordered texture binding layouts (an empty list is allowed) and vertex
    /// shape. The color target's format is the context's current surface
    /// format; all other state is the sandbox's fixed-function state.
    pub fn new(app: &App, bind_group_layouts: Vec<BindGroupLayout>, vertex_type: VertexType) -> (p:
        Pipeline)
        ensures
            p.composed_for(app.config_spec().format, bind_group_layouts@, vertex_type),
    {
        let layout = vertex_type.desc();
        let descriptor = RenderPipelineDescriptor {
            vertex: VertexState { entry_point: ShaderEntry::VsMain, layout },
            fragment: FragmentState {
                entry_point: ShaderEntry::FsMain,
                target: ColorTargetState {
                    format: app.config().format,
                    blend: BlendState::Replace,
                    write_mask: COLOR_WRITES_ALL,
                },
            },
            bind_group_layouts,
            primitive: PrimitiveState {
                topology: PrimitiveTopology::TriangleList,
                strip_index_format: None,
                front_face: FrontFace::Ccw,
                cull_mode: Some(Face::Back),
                polygon_mode: PolygonMode::Fill,
                unclipped_depth: false,
                conservative: false,
            },
            has_depth_stencil: false,
            multisample: MultisampleState {
                count: 1,
                mask: u64::MAX,
                alpha_to_coverage_enabled: false,
            },
            multiview: false,
        };
        Pipeline { pipeline: descriptor }
    }

    /// The compiled pipeline's descriptor.
    pub fn pipeline(&self) -> (d: &RenderPipelineDescriptor)
        ensures
            d == self.descriptor_spec(),
    {
        &self.pipeline
    }
}

} // verus!
