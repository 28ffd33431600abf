//! A minimal real-time 3D renderer core: model and material assembly,
//! pipeline layout construction, and per-frame draw-call dispatch.
//!
//! The GPU itself stays outside this crate. Every decision the renderer
//! makes — how vertex data is interleaved and laid out, which bind-group
//! layouts a pipeline carries and in what order, which slot each bind
//! group lands on, and which draw calls a frame issues — is computed and
//! proved here over plain values. A thin shell around the crate replays
//! the recorded commands against a real graphics device.

pub mod bits;
pub mod dispatch;
pub mod frame;
pub mod instance;
pub mod layout;
pub mod model;
pub mod renderer;
pub mod vertex;

pub use bits::Mat3Bits;
pub use bits::Mat4Bits;
pub use bits::Vec2Bits;
pub use bits::Vec3Bits;
pub use bits::Vec4Bits;
pub use bits::F32_ONE_BITS;
pub use bits::F32_ZERO_BITS;
pub use dispatch::BindGroupRef;
pub use dispatch::BufferRef;
pub use dispatch::DrawCommand;
pub use dispatch::DrawModel;
pub use dispatch::IndexFormat;
pub use dispatch::RecordedPass;
pub use frame::FrameAction;
pub use frame::SurfaceExtent;
pub use frame::SurfaceFault;
pub use instance::InstanceRaw;
pub use instance::InstanceTransform;
pub use layout::Vertex;
pub use layout::VertexAttribute;
pub use layout::VertexBufferLayout;
pub use layout::VertexFormat;
pub use layout::VertexStepMode;
pub use model::AssetError;
pub use model::Geometry;
pub use model::Material;
pub use model::Materials;
pub use model::Mesh;
pub use model::MeshData;
pub use model::Model;
pub use renderer::BindGroupLayoutKind;
pub use renderer::BindingEntry;
pub use renderer::BindingKind;
pub use renderer::BlendMode;
pub use renderer::CompareFunction;
pub use renderer::CullMode;
pub use renderer::DepthDesc;
pub use renderer::FrontFace;
pub use renderer::Instancing;
pub use renderer::ModelRenderer;
pub use renderer::PipelineDesc;
pub use renderer::PrimitiveDesc;
pub use renderer::ShaderStage;
pub use renderer::Topology;
pub use vertex::ModelVertex;
