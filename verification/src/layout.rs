//! Vertex-buffer layout descriptors.
//!
//! A layout tells the pipeline how one vertex stream is cut into shader
//! attributes: the byte stride between elements, whether the stream steps
//! per vertex or per instance, and for each attribute its byte offset,
//! shader location and scalar format. The offsets and locations stated
//! here are a wire contract the shader source must match exactly.

use vstd::prelude::*;

verus! {

/// The scalar format of one vertex attribute.
#[derive(Clone, Copy, PartialEq, Eq, Structural, Debug)]
pub enum VertexFormat {
    Float32x2,
    Float32x3,
    Float32x4,
}

impl VertexFormat {
    /// The size in bytes of one attribute of this format.
    pub open spec fn spec_size(self) -> int {
        match self {
            VertexFormat::Float32x2 => 8,
            VertexFormat::Float32x3 => 12,
            VertexFormat::Float32x4 => 16,
        }
    }

    /// The size in bytes of one attribute of this format.
    pub fn size(&self) -> (s: u64)
        ensures
            s == self.spec_size(),
    {
        match self {
            VertexFormat::Float32x2 => 8,
            VertexFormat::Float32x3 => 12,
            VertexFormat::Float32x4 => 16,
        }
    }
}

/// Whether a vertex stream advances once per vertex or once per instance.
#[derive(Clone, Copy, PartialEq, Eq, Structural, Debug)]
pub enum VertexStepMode {
    Vertex,
    Instance,
}

/// One shader attribute within a vertex stream.
#[derive(Clone, Copy, PartialEq, Eq, Structural, Debug)]
pub struct VertexAttribute {
    /// Byte offset of the attribute within one element of the stream.
    pub offset: u64,
    /// The `@location(..)` index the shader reads the attribute at.
    pub shader_location: u32,
    pub format: VertexFormat,
}

/// The layout of one vertex stream.
#[derive(PartialEq, Eq, Debug)]
pub struct VertexBufferLayout {
    /// Byte stride between consecutive elements of the stream.
    pub array_stride: u64,
    pub step_mode: VertexStepMode,
    pub attributes: Vec<VertexAttribute>,
}

/// The mathematical value of a [`VertexBufferLayout`].
pub ghost struct LayoutView {
    pub array_stride: u64,
    pub step_mode: VertexStepMode,
    pub attributes: Seq<VertexAttribute>,
}

impl View for VertexBufferLayout {
    type V = LayoutView;

    open spec fn view(&self) -> LayoutView {
        LayoutView {
            array_stride: self.array_stride,
            step_mode: self.step_mode,
            attributes: self.attributes@,
        }
    }
}

/// A type that can describe itself as one vertex stream.
pub trait Vertex {
    fn desc() -> (layout: VertexBufferLayout);
}

/// The attributes of the per-vertex stream: position, texture
/// coordinates and normal, at locations 0, 1 and 2, tightly packed.
pub open spec fn model_vertex_attributes() -> Seq<VertexAttribute> {
    seq![
        VertexAttribute { offset: 0, shader_location: 0, format: VertexFormat::Float32x3 },
        VertexAttribute { offset: 12, shader_location: 1, format: VertexFormat::Float32x2 },
        VertexAttribute { offset: 20, shader_location: 2, format: VertexFormat::Float32x3 },
    ]
}

/// The per-vertex stream layout: 32-byte stride, stepping per vertex.
pub open spec fn model_vertex_layout() -> LayoutView {
    LayoutView {
        array_stride: 32,
        step_mode: VertexStepMode::Vertex,
        attributes: model_vertex_attributes(),
    }
}

/// The attributes of the per-instance stream: four columns of the model
/// matrix at locations 5 to 8, three columns of the normal matrix at
/// locations 9 to 11, tightly packed.
pub open spec fn instance_attributes() -> Seq<VertexAttribute> {
    seq![
        VertexAttribute { offset: 0, shader_location: 5, format: VertexFormat::Float32x4 },
        VertexAttribute { offset: 16, shader_location: 6, format: VertexFormat::Float32x4 },
        VertexAttribute { offset: 32, shader_location: 7, format: VertexFormat::Float32x4 },
        VertexAttribute { offset: 48, shader_location: 8, format: VertexFormat::Float32x4 },
        VertexAttribute { offset: 64, shader_location: 9, format: VertexFormat::Float32x3 },
        VertexAttribute { offset: 76, shader_location: 10, format: VertexFormat::Float32x3 },
        VertexAttribute { offset: 88, shader_location: 11, format: VertexFormat::Float32x3 },
    ]
}

/// The per-instance stream layout: 100-byte stride, stepping per instance.
pub open spec fn instance_layout() -> LayoutView {
    LayoutView {
        array_stride: 100,
        step_mode: VertexStepMode::Instance,
        attributes: instance_attributes(),
    }
}

/// A layout is internally consistent when every attribute lies within the
/// stride.
pub open spec fn layout_attributes_within_stride(l: LayoutView) -> bool {
    forall|i: int|
        0 <= i < l.attributes.len() ==> l.attributes[i].offset + l.attributes[i].format.spec_size()
            <= l.array_stride
}

/// The per-instance stream keeps its shader locations in a reserved high
/// range, disjoint from and above every per-vertex location, so the
/// per-vertex layout can grow without colliding with it.
pub proof fn lemma_instance_locations_disjoint()
    ensures
        forall|i: int|
            0 <= i < instance_attributes().len() ==> instance_attributes()[i].shader_location >= 5,
        forall|i: int|
            0 <= i < model_vertex_attributes().len()
                ==> model_vertex_attributes()[i].shader_location < 5,
{
}

/// Both fixed layouts keep their attributes within their strides.
pub proof fn lemma_fixed_layouts_consistent()
    ensures
        layout_attributes_within_stride(model_vertex_layout()),
        layout_attributes_within_stride(instance_layout()),
{
}

} // verus!
