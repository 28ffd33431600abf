//! Per-model renderers and the pipeline descriptions they compile.
//!
//! A [`ModelRenderer`] owns a model, the description of the one pipeline
//! the model is drawn with, and the model's optional instance data. The
//! pipeline description fixes the two orderings the shader relies on:
//! the bind-group layouts — the material layout first if and only if the
//! model carries one, then camera, then light — and the vertex streams —
//! the per-vertex layout always, the per-instance layout if and only if
//! instance data was supplied.

use crate::instance::InstanceRaw;
use crate::layout::instance_layout;
use crate::layout::model_vertex_layout;
use crate::layout::LayoutView;
use crate::layout::Vertex;
use crate::layout::VertexBufferLayout;
use crate::layout::VertexStepMode;
use crate::model::Model;
use crate::vertex::ModelVertex;
use vstd::prelude::*;

verus! {

/// Which shared layout a pipeline's bind-group slot is built from.
#[derive(Clone, Copy, PartialEq, Eq, Structural, Debug)]
pub enum BindGroupLayoutKind {
    /// The model's material layout: one diffuse texture and one sampler.
    MaterialTexture,
    Camera,
    Light,
}

/// What a binding within the material layout binds.
#[derive(Clone, Copy, PartialEq, Eq, Structural, Debug)]
pub enum BindingKind {
    /// A two-dimensional, filterable, single-sampled texture view.
    Texture2d,
    /// A filtering, non-comparison sampler.
    FilteringSampler,
}

/// Which shader stages see a binding.
#[derive(Clone, Copy, PartialEq, Eq, Structural, Debug)]
pub enum ShaderStage {
    Vertex,
    Fragment,
}

/// One entry of the material bind-group layout.
#[derive(Clone, Copy, PartialEq, Eq, Structural, Debug)]
pub struct BindingEntry {
    pub binding: u32,
    pub visibility: ShaderStage,
    pub kind: BindingKind,
}

/// The material layout's entries: the diffuse texture at binding 0 and
/// its sampler at binding 1, both visible to the fragment stage. Every
/// material of a model is bound through this one shared layout.
pub open spec fn material_layout_entries() -> Seq<BindingEntry> {
    seq![
        BindingEntry {
            binding: 0,
            visibility: ShaderStage::Fragment,
            kind: BindingKind::Texture2d,
        },
        BindingEntry {
            binding: 1,
            visibility: ShaderStage::Fragment,
            kind: BindingKind::FilteringSampler,
        },
    ]
}

/// Build the material bind-group layout entries.
pub fn material_bind_group_layout_entries() -> (r: Vec<BindingEntry>)
    ensures
        r@ == material_layout_entries(),
{
    let r = vec![
        BindingEntry { binding: 0, visibility: ShaderStage::Fragment, kind: BindingKind::Texture2d },
        BindingEntry {
            binding: 1,
            visibility: ShaderStage::Fragment,
            kind: BindingKind::FilteringSampler,
        },
    ];
    proof {
        assert(r@ =~= material_layout_entries());
    }
    r
}

/// The ordered bind-group layouts of a pipeline: the material layout
/// first if and only if the model carries one, then always camera, then
/// light. The shader's group indices must match this order exactly.
pub open spec fn pipeline_layout_kinds(has_materials: bool) -> Seq<BindGroupLayoutKind> {
    if has_materials {
        seq![
            BindGroupLayoutKind::MaterialTexture,
            BindGroupLayoutKind::Camera,
            BindGroupLayoutKind::Light,
        ]
    } else {
        seq![BindGroupLayoutKind::Camera, BindGroupLayoutKind::Light]
    }
}

/// The ordered vertex-stream layouts of a pipeline: the per-vertex
/// layout always first, the per-instance layout if and only if the
/// model is instanced.
pub open spec fn pipeline_vertex_layout_views(instanced: bool) -> Seq<LayoutView> {
    if instanced {
        seq![model_vertex_layout(), instance_layout()]
    } else {
        seq![model_vertex_layout()]
    }
}

/// The primitive topology a pipeline assembles vertices into.
#[derive(Clone, Copy, PartialEq, Eq, Structural, Debug)]
pub enum Topology {
    TriangleList,
    TriangleStrip,
}

/// Which winding order a pipeline treats as front-facing.
#[derive(Clone, Copy, PartialEq, Eq, Structural, Debug)]
pub enum FrontFace {
    Ccw,
    Cw,
}

/// Which faces a pipeline culls.
#[derive(Clone, Copy, PartialEq, Eq, Structural, Debug)]
pub enum CullMode {
    Disabled,
    Front,
    Back,
}

/// How a pipeline combines a fragment's color with the target.
#[derive(Clone, Copy, PartialEq, Eq, Structural, Debug)]
pub enum BlendMode {
    /// Opaque: the fragment replaces the target, for color and alpha.
    Replace,
    AlphaBlend,
}

/// How a pipeline compares fragment depth against the depth attachment.
#[derive(Clone, Copy, PartialEq, Eq, Structural, Debug)]
pub enum CompareFunction {
    Less,
    LessEqual,
    Always,
}

/// The fixed primitive state of a pipeline.
#[derive(Clone, Copy, PartialEq, Eq, Structural, Debug)]
pub struct PrimitiveDesc {
    pub topology: Topology,
    pub front_face: FrontFace,
    pub cull_mode: CullMode,
    pub clamp_depth: bool,
    pub conservative: bool,
}

/// The fixed depth state of a pipeline.
#[derive(Clone, Copy, PartialEq, Eq, Structural, Debug)]
pub struct DepthDesc {
    pub write_enabled: bool,
    pub compare: CompareFunction,
}

/// Everything this crate decides about one pipeline: the shader source
/// it is compiled from, the ordered bind-group layouts, the ordered
/// vertex-stream layouts, and the fixed draw state.
#[derive(Debug)]
pub struct PipelineDesc {
    pub shader_source: String,
    pub bind_group_layouts: Vec<BindGroupLayoutKind>,
    pub vertex_layouts: Vec<VertexBufferLayout>,
    pub primitive: PrimitiveDesc,
    pub depth: DepthDesc,
    pub blend: BlendMode,
    pub multisample_count: u32,
}

/// A model's instance data: either a single implicit instance, or an
/// uploaded array of instance records whose length is the instance
/// count of every draw of the model. Holding the data in the instanced
/// variant makes "buffer and count present together" a fact of the type.
#[derive(Debug)]
pub enum Instancing {
    Static,
    Instanced { data: Vec<InstanceRaw> },
}

/// One renderable unit: a model, the description of its compiled
/// pipeline, and its instance data.
#[derive(Debug)]
pub struct ModelRenderer {
    pub model: Model,
    pub pipeline: PipelineDesc,
    pub instances: Instancing,
}

impl ModelRenderer {
    /// Whether this renderer draws from an instance buffer.
    pub open spec fn instanced(self) -> bool {
        self.instances is Instanced
    }

    /// The number of instances every draw of this model covers: the
    /// uploaded record count, or one when no instance data was supplied.
    pub open spec fn instance_count(self) -> int {
        match self.instances {
            Instancing::Static => 1,
            Instancing::Instanced { data } => data@.len() as int,
        }
    }

    /// A renderer is well formed when its model is, its pipeline's
    /// bind-group layouts and vertex streams match the model's material
    /// side and its own instancing, and its instance count fits a draw
    /// call's 32-bit range.
    pub open spec fn wf(self) -> bool {
        &&& self.model.wf()
        &&& self.pipeline.bind_group_layouts@ == pipeline_layout_kinds(self.model.has_materials())
        &&& self.pipeline.vertex_layouts@.map_values(|l: VertexBufferLayout| l@)
            == pipeline_vertex_layout_views(self.instanced())
        &&& self.instance_count() <= u32::MAX
    }

    /// Compile-time description of a model's pipeline: the bind-group
    /// layouts in their fixed order, the vertex streams in theirs, and
    /// the fixed state — triangles, counter-clockwise front winding,
    /// back-face culling, opaque blending, depth testing with less-than
    /// comparison, no multisampling.
    pub fn create_render_pipeline(shader_source: String, has_material_layout: bool, instanced: bool) -> (p:
        PipelineDesc)
        ensures
            p.shader_source == shader_source,
            p.bind_group_layouts@ == pipeline_layout_kinds(has_material_layout),
            p.vertex_layouts@.map_values(|l: VertexBufferLayout| l@) == pipeline_vertex_layout_views(
                instanced,
            ),
            p.primitive == (PrimitiveDesc {
                topology: Topology::TriangleList,
                front_face: FrontFace::Ccw,
                cull_mode: CullMode::Back,
                clamp_depth: false,
                conservative: false,
            }),
            p.depth == (DepthDesc { write_enabled: true, compare: CompareFunction::Less }),
            p.blend == BlendMode::Replace,
            p.multisample_count == 1,
    {
        let mut bind_group_layouts: Vec<BindGroupLayoutKind> = Vec::new();
        if has_material_layout {
            bind_group_layouts.push(BindGroupLayoutKind::MaterialTexture);
        }
        bind_group_layouts.push(BindGroupLayoutKind::Camera);
        bind_group_layouts.push(BindGroupLayoutKind::Light);
        proof {
            assert(bind_group_layouts@ =~= pipeline_layout_kinds(has_material_layout));
        }
        let mut vertex_layouts: Vec<VertexBufferLayout> = Vec::new();
        vertex_layouts.push(ModelVertex::desc());
        if instanced {
            vertex_layouts.push(InstanceRaw::desc());
        }
        proof {
            assert(vertex_layouts@.map_values(|l: VertexBufferLayout| l@)
                =~= pipeline_vertex_layout_views(instanced));
        }
        PipelineDesc {
            shader_source,
            bind_group_layouts,
            vertex_layouts,
            primitive: PrimitiveDesc {
                topology: Topology::TriangleList,
                front_face: FrontFace::Ccw,
                cull_mode: CullMode::Back,
                clamp_depth: false,
                conservative: false,
            },
            depth: DepthDesc { write_enabled: true, compare: CompareFunction::Less },
            blend: BlendMode::Replace,
            multisample_count: 1,
        }
    }

    /// Build the renderer for a model: describe its pipeline from the
    /// model's material side and the presence of instance data, and keep
    /// the instance data as the count source for every draw.
    pub fn new_renderer(
        model: Model,
        shader_source: String,
        instance_data: Option<Vec<InstanceRaw>>,
    ) -> (r: ModelRenderer)
        requires
            model.wf(),
            instance_data matches Some(d) ==> d@.len() <= u32::MAX,
        ensures
            r.model == model,
            r.instances == (match instance_data {
                Some(d) => Instancing::Instanced { data: d },
                None => Instancing::Static,
            }),
            r.pipeline.shader_source == shader_source,
            r.wf(),
    {
        let instance_mode = instance_data.is_some();
        let has_material_layout = match &model.materials {
            crate::model::Materials::Textured { .. } => true,
            crate::model::Materials::Untextured => false,
        };
        let pipeline = ModelRenderer::create_render_pipeline(
            shader_source,
            has_material_layout,
            instance_mode,
        );
        let instances = match instance_data {
            Some(data) => Instancing::Instanced { data },
            None => Instancing::Static,
        };
        ModelRenderer { model, pipeline, instances }
    }
}

/// A well-formed untextured model's pipeline omits the material layout:
/// its bind groups are exactly camera then light. A textured model's
/// pipeline carries the material layout first, then camera, then light.
pub proof fn lemma_pipeline_layout_order(r: ModelRenderer)
    requires
        r.wf(),
    ensures
        !r.model.has_materials() ==> r.pipeline.bind_group_layouts@ == seq![
            BindGroupLayoutKind::Camera,
            BindGroupLayoutKind::Light,
        ],
        r.model.has_materials() ==> r.pipeline.bind_group_layouts@ == seq![
            BindGroupLayoutKind::MaterialTexture,
            BindGroupLayoutKind::Camera,
            BindGroupLayoutKind::Light,
        ],
{
}

/// A model built without materials draws with none: every one of its
/// meshes carries no material reference, and its pipeline's bind-group
/// layouts omit the material layout — they are exactly camera then
/// light.
pub proof fn lemma_untextured_model_renderer(r: ModelRenderer)
    requires
        r.wf(),
        !r.model.has_materials(),
    ensures
        forall|j: int|
            0 <= j < r.model.meshes@.len() ==> (#[trigger] r.model.meshes@[j]).material_id
                is None,
        r.pipeline.bind_group_layouts@ == seq![
            BindGroupLayoutKind::Camera,
            BindGroupLayoutKind::Light,
        ],
{
    crate::model::lemma_untextured_meshes(r.model);
    lemma_pipeline_layout_order(r);
}

/// A well-formed instanced renderer's pipeline declares a second vertex
/// stream, stepping per instance; a non-instanced renderer's pipeline
/// declares only the per-vertex stream.
pub proof fn lemma_instanced_pipeline_stream(r: ModelRenderer)
    requires
        r.wf(),
    ensures
        r.instanced() ==> {
            &&& r.pipeline.vertex_layouts@.len() == 2
            &&& r.pipeline.vertex_layouts@[1]@.step_mode == VertexStepMode::Instance
            &&& r.pipeline.vertex_layouts@[1]@ == instance_layout()
        },
        !r.instanced() ==> r.pipeline.vertex_layouts@.len() == 1,
        r.pipeline.vertex_layouts@[0]@ == model_vertex_layout(),
{
    let views = r.pipeline.vertex_layouts@.map_values(|l: VertexBufferLayout| l@);
    assert(views.len() == r.pipeline.vertex_layouts@.len());
    assert(views[0] == r.pipeline.vertex_layouts@[0]@);
    if r.instanced() {
        assert(views[1] == r.pipeline.vertex_layouts@[1]@);
    }
}

} // verus!
