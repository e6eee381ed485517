//! Vertex layout registry: the two vertex record shapes (position + color,
//! position + UV) and the buffer-layout descriptors that tell the GPU how to
//! interpret raw vertex-buffer bytes.

use vstd::prelude::*;

verus! {

/// Numeric format of one vertex attribute.
#[derive(Clone, Copy, PartialEq, Eq, Structural, Debug)]
pub enum VertexFormat {
    Float32x2,
    Float32x3,
}

impl VertexFormat {
    /// Size of one attribute of this format, in bytes.
    pub open spec fn size_spec(self) -> u64 {
        match self {
            VertexFormat::Float32x2 => 8,
            VertexFormat::Float32x3 => 12,
        }
    }

    pub fn size(&self) -> (n: u64)
        ensures
            n == self.size_spec(),
    {
        match *self {
            VertexFormat::Float32x2 => 8,
            VertexFormat::Float32x3 => 12,
        }
    }
}

/// How often the GPU steps through the buffer: once per vertex or once per
/// instance. This sandbox only uses per-vertex stepping.
#[derive(Clone, Copy, PartialEq, Eq, Structural, Debug)]
pub enum VertexStepMode {
    Vertex,
    Instance,
}

/// One attribute of a vertex record: where it starts in the record, which
/// shader input slot reads it, and its numeric format.
#[derive(Clone, Copy, PartialEq, Eq, Structural, Debug)]
pub struct VertexAttribute {
    pub offset: u64,
    pub shader_location: u32,
    pub format: VertexFormat,
}

/// A buffer-layout descriptor: the stride of one vertex record and the
/// attributes packed inside it. Pure data, computed deterministically from a
/// vertex-shape tag.
pub struct VertexBufferLayout {
    pub array_stride: u64,
    pub step_mode: VertexStepMode,
    pub attributes: Vec<VertexAttribute>,
}

/// The vertex-shape tags this sandbox knows: position + color, and
/// position + UV.
#[derive(Clone, Copy, PartialEq, Eq, Structural, Debug)]
pub enum VertexType {
    VertexColor,
    VertexUV,
}

impl VertexType {
    /// Stride in bytes of one vertex record of this shape: three position
    /// floats plus either three color floats (24 bytes) or two UV floats
    /// (20 bytes).
    pub open spec fn stride_spec(self) -> u64 {
        match self {
            VertexType::VertexColor => 24,
            VertexType::VertexUV => 20,
        }
    }

    /// The attributes of one vertex record of this shape: position at offset
    /// 0 feeding shader slot 0, then color or UV at offset 12 feeding slot 1.
    pub open spec fn attributes_spec(self) -> Seq<VertexAttribute> {
        match self {
            VertexType::VertexColor => seq![
                VertexAttribute { offset: 0, shader_location: 0, format: VertexFormat::Float32x3 },
                VertexAttribute { offset: 12, shader_location: 1, format: VertexFormat::Float32x3 },
            ],
            VertexType::VertexUV => seq![
                VertexAttribute { offset: 0, shader_location: 0, format: VertexFormat::Float32x3 },
                VertexAttribute { offset: 12, shader_location: 1, format: VertexFormat::Float32x2 },
            ],
        }
    }

    /// Build the buffer-layout descriptor for this vertex shape.
    pub fn desc(&self) -> (d: VertexBufferLayout)
        ensures
            d.array_stride == self.stride_spec(),
            d.step_mode == VertexStepMode::Vertex,
            d.attributes@ == self.attributes_spec(),
    {
        match *self {
            VertexType::VertexColor => vertex_color_desc(),
            VertexType::VertexUV => vertex_uv_desc(),
        }
    }
}

fn vertex_color_desc() -> (d: VertexBufferLayout)
    ensures
        d.array_stride == VertexType::VertexColor.stride_spec(),
        d.step_mode == VertexStepMode::Vertex,
        d.attributes@ == VertexType::VertexColor.attributes_spec(),
{
    let mut attributes: Vec<VertexAttribute> = Vec::new();
    attributes.push(VertexAttribute {
        offset: 0,
        shader_location: 0,
        format: VertexFormat::Float32x3,
    });
    attributes.push(VertexAttribute {
        offset: 12,
        shader_location: 1,
        format: VertexFormat::Float32x3,
    });
    proof {
        assert(attributes@ =~= VertexType::VertexColor.attributes_spec());
    }
    VertexBufferLayout { array_stride: 24, step_mode: VertexStepMode::Vertex, attributes }
}

fn vertex_uv_desc() -> (d: VertexBufferLayout)
    ensures
        d.array_stride == VertexType::VertexUV.stride_spec(),
        d.step_mode == VertexStepMode::Vertex,
        d.attributes@ == VertexType::VertexUV.attributes_spec(),
{
    let mut attributes: Vec<VertexAttribute> = Vec::new();
    attributes.push(VertexAttribute {
        offset: 0,
        shader_location: 0,
        format: VertexFormat::Float32x3,
    });
    attributes.push(VertexAttribute {
        offset: 12,
        shader_location: 1,
        format: VertexFormat::Float32x2,
    });
    proof {
        assert(attributes@ =~= VertexType::VertexUV.attributes_spec());
    }
    VertexBufferLayout { array_stride: 20, step_mode: VertexStepMode::Vertex, attributes }
}

} // verus!
