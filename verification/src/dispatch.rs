//! Draw dispatch: the per-frame traversal of a renderer's meshes and the
//! bind-group-slot-assignment algorithm.
//!
//! A render pass is modeled as the sequence of commands recorded into it.
//! Dispatch walks a renderer's meshes in stored order and, for each mesh,
//! binds its buffers, computes the mesh's local bind-group offset — 1
//! when the mesh has a material bound at slot 0, else 0 — binds every
//! shared group at the slot following that offset, and issues one indexed
//! draw over the renderer's instance range. The offset is decided per
//! mesh by that mesh's own material, not by the model as a whole, so a
//! model with mixed textured and untextured meshes still binds each mesh
//! correctly.

use crate::model::Mesh;
use crate::renderer::Instancing;
use crate::renderer::ModelRenderer;
use vstd::prelude::*;

verus! {

/// Which bind group a recorded slot binding refers to.
#[derive(Clone, Copy, PartialEq, Eq, Structural, Debug)]
pub enum BindGroupRef {
    /// The bind group of the current model's material `index`.
    Material { index: usize },
    Camera,
    Light,
}

/// Which GPU buffer a recorded buffer binding refers to, relative to the
/// renderer being drawn.
#[derive(Clone, Copy, PartialEq, Eq, Structural, Debug)]
pub enum BufferRef {
    /// The vertex buffer of the model's mesh `mesh`.
    MeshVertices { mesh: usize },
    /// The index buffer of the model's mesh `mesh`.
    MeshIndices { mesh: usize },
    /// The renderer's instance buffer.
    Instances,
}

/// The width of the indices in a bound index buffer.
#[derive(Clone, Copy, PartialEq, Eq, Structural, Debug)]
pub enum IndexFormat {
    Uint16,
    Uint32,
}

/// One command recorded into a render pass.
#[derive(Clone, Copy, PartialEq, Eq, Structural, Debug)]
pub enum DrawCommand {
    /// Bind the current renderer's pipeline.
    SetPipeline,
    /// Bind a vertex stream at a numbered slot.
    SetVertexBuffer { slot: u32, buffer: BufferRef },
    /// Bind the index buffer.
    SetIndexBuffer { buffer: BufferRef, format: IndexFormat },
    /// Bind a bind group at a numbered slot.
    SetBindGroup { slot: u32, group: BindGroupRef },
    /// Draw the index range `index_start .. index_end`, offset by
    /// `base_vertex`, for the instance range
    /// `instance_start .. instance_end`.
    DrawIndexed {
        index_start: u32,
        index_end: u32,
        base_vertex: i32,
        instance_start: u32,
        instance_end: u32,
    },
}

/// A render pass, modeled as the commands recorded into it, in order.
#[derive(Debug)]
pub struct RecordedPass {
    pub commands: Vec<DrawCommand>,
}

impl RecordedPass {
    /// An empty pass with nothing recorded.
    pub fn new() -> (pass: RecordedPass)
        ensures
            pass.commands@ == Seq::<DrawCommand>::empty(),
    {
        RecordedPass { commands: Vec::new() }
    }

    /// Record binding the current pipeline.
    pub fn set_pipeline(&mut self)
        ensures
            final(self).commands@ == old(self).commands@.push(DrawCommand::SetPipeline),
    {
        self.commands.push(DrawCommand::SetPipeline);
    }

    /// Record binding a vertex stream at `slot`.
    pub fn set_vertex_buffer(&mut self, slot: u32, buffer: BufferRef)
        ensures
            final(self).commands@ == old(self).commands@.push(
                DrawCommand::SetVertexBuffer { slot, buffer },
            ),
    {
        self.commands.push(DrawCommand::SetVertexBuffer { slot, buffer });
    }

    /// Record binding the index buffer.
    pub fn set_index_buffer(&mut self, buffer: BufferRef, format: IndexFormat)
        ensures
            final(self).commands@ == old(self).commands@.push(
                DrawCommand::SetIndexBuffer { buffer, format },
            ),
    {
        self.commands.push(DrawCommand::SetIndexBuffer { buffer, format });
    }

    /// Record binding a bind group at `slot`.
    pub fn set_bind_group(&mut self, slot: u32, group: BindGroupRef)
        ensures
            final(self).commands@ == old(self).commands@.push(
                DrawCommand::SetBindGroup { slot, group },
            ),
    {
        self.commands.push(DrawCommand::SetBindGroup { slot, group });
    }

    /// Record one indexed draw.
    pub fn draw_indexed(
        &mut self,
        index_start: u32,
        index_end: u32,
        base_vertex: i32,
        instance_start: u32,
        instance_end: u32,
    )
        ensures
            final(self).commands@ == old(self).commands@.push(
                DrawCommand::DrawIndexed {
                    index_start,
                    index_end,
                    base_vertex,
                    instance_start,
                    instance_end,
                },
            ),
    {
        self.commands.push(
            DrawCommand::DrawIndexed {
                index_start,
                index_end,
                base_vertex,
                instance_start,
                instance_end,
            },
        );
    }
}

/// The shared bind groups bound in order at the slots following
/// `offset`: entry `i` lands at slot `offset + i`.
pub open spec fn shared_group_commands(offset: int, shared: Seq<BindGroupRef>) -> Seq<
    DrawCommand,
> {
    Seq::new(
        shared.len(),
        |i: int| DrawCommand::SetBindGroup { slot: (offset + i) as u32, group: shared[i] },
    )
}

/// The local bind-group offset of a mesh: 1 when the mesh binds a
/// material at slot 0, else 0.
pub open spec fn material_offset(material: Option<usize>) -> int {
    if material is Some {
        1
    } else {
        0
    }
}

/// Every command drawing mesh `mesh_index`: bind its vertex buffer at
/// stream slot 0 and its 32-bit index buffer; bind its material, if any,
/// at bind-group slot 0; bind each shared group at the slot following
/// the mesh's local offset; then draw all its elements once over the
/// instance range `0 .. instance_end`.
pub open spec fn mesh_commands(
    mesh_index: int,
    num_elements: u32,
    material: Option<usize>,
    instance_end: u32,
    shared: Seq<BindGroupRef>,
) -> Seq<DrawCommand> {
    let binding = seq![
        DrawCommand::SetVertexBuffer {
            slot: 0,
            buffer: BufferRef::MeshVertices { mesh: mesh_index as usize },
        },
        DrawCommand::SetIndexBuffer {
            buffer: BufferRef::MeshIndices { mesh: mesh_index as usize },
            format: IndexFormat::Uint32,
        },
    ];
    let material_binding = match material {
        Some(i) => seq![
            DrawCommand::SetBindGroup { slot: 0, group: BindGroupRef::Material { index: i } },
        ],
        None => Seq::<DrawCommand>::empty(),
    };
    let draw = seq![
        DrawCommand::DrawIndexed {
            index_start: 0,
            index_end: num_elements,
            base_vertex: 0,
            instance_start: 0,
            instance_end,
        },
    ];
    binding + material_binding + shared_group_commands(material_offset(material), shared) + draw
}

/// The commands drawing the first `meshes.len()` meshes of a model, in
/// stored order.
pub open spec fn meshes_commands(
    meshes: Seq<Mesh>,
    instance_end: u32,
    shared: Seq<BindGroupRef>,
) -> Seq<DrawCommand>
    decreases meshes.len(),
{
    if meshes.len() == 0 {
        Seq::empty()
    } else {
        meshes_commands(meshes.drop_last(), instance_end, shared) + mesh_commands(
            meshes.len() - 1,
            meshes.last().geometry.num_elements,
            meshes.last().material_id,
            instance_end,
            shared,
        )
    }
}

/// The instance range end of every draw of a renderer: its instance
/// count, as the 32-bit value a draw call takes.
pub open spec fn instance_range_end(r: ModelRenderer) -> u32 {
    r.instance_count() as u32
}

/// Every command drawing one renderer: bind its pipeline; bind its
/// instance buffer at stream slot 1 when it has one; then draw each of
/// its meshes in stored order.
pub open spec fn model_commands(r: ModelRenderer, shared: Seq<BindGroupRef>) -> Seq<DrawCommand> {
    let head = seq![DrawCommand::SetPipeline];
    let instance_binding = if r.instanced() {
        seq![DrawCommand::SetVertexBuffer { slot: 1, buffer: BufferRef::Instances }]
    } else {
        Seq::<DrawCommand>::empty()
    };
    head + instance_binding + meshes_commands(r.model.meshes@, instance_range_end(r), shared)
}

/// How many indexed draws a command sequence records.
pub open spec fn count_draws(cs: Seq<DrawCommand>) -> int
    decreases cs.len(),
{
    if cs.len() == 0 {
        0
    } else {
        count_draws(cs.drop_last()) + if cs.last() is DrawIndexed {
            1int
        } else {
            0int
        }
    }
}

/// Every indexed draw in the sequence covers exactly the instance range
/// `0 .. end`.
pub open spec fn draws_have_range(cs: Seq<DrawCommand>, end: u32) -> bool {
    forall|i: int|
        0 <= i < cs.len() ==> ((#[trigger] cs[i]) matches DrawCommand::DrawIndexed {
            instance_start,
            instance_end,
            ..
        } ==> instance_start == 0 && instance_end == end)
}

/// Draw counting distributes over concatenation.
pub proof fn lemma_count_draws_concat(a: Seq<DrawCommand>, b: Seq<DrawCommand>)
    ensures
        count_draws(a + b) == count_draws(a) + count_draws(b),
    decreases b.len(),
{
    if b.len() == 0 {
        assert(a + b =~= a);
    } else {
        lemma_count_draws_concat(a, b.drop_last());
        assert((a + b).drop_last() =~= a + b.drop_last());
        assert((a + b).last() == b.last());
    }
}

/// A sequence without an indexed draw counts none.
pub proof fn lemma_count_draws_none(cs: Seq<DrawCommand>)
    requires
        forall|i: int| 0 <= i < cs.len() ==> !((#[trigger] cs[i]) is DrawIndexed),
    ensures
        count_draws(cs) == 0,
    decreases cs.len(),
{
    if cs.len() > 0 {
        lemma_count_draws_none(cs.drop_last());
    }
}

/// Drawing one mesh records exactly one indexed draw, and it covers the
/// instance range `0 .. instance_end`.
pub proof fn lemma_mesh_commands_draws(
    mesh_index: int,
    num_elements: u32,
    material: Option<usize>,
    instance_end: u32,
    shared: Seq<BindGroupRef>,
)
    ensures
        count_draws(mesh_commands(mesh_index, num_elements, material, instance_end, shared)) == 1,
        draws_have_range(
            mesh_commands(mesh_index, num_elements, material, instance_end, shared),
            instance_end,
        ),
{
    let cs = mesh_commands(mesh_index, num_elements, material, instance_end, shared);
    let draw = seq![
        DrawCommand::DrawIndexed {
            index_start: 0,
            index_end: num_elements,
            base_vertex: 0,
            instance_start: 0,
            instance_end,
        },
    ];
    let prefix = cs.subrange(0, cs.len() - 1);
    assert(cs =~= prefix + draw);
    assert(forall|i: int| 0 <= i < prefix.len() ==> !((#[trigger] prefix[i]) is DrawIndexed));
    lemma_count_draws_none(prefix);
    lemma_count_draws_concat(prefix, draw);
    assert(draw.drop_last() =~= Seq::<DrawCommand>::empty());
    assert(count_draws(draw) == 1);
}

/// Drawing a model's meshes records one indexed draw per mesh, each over
/// the instance range `0 .. instance_end`.
pub proof fn lemma_meshes_commands_draws(
    meshes: Seq<Mesh>,
    instance_end: u32,
    shared: Seq<BindGroupRef>,
)
    ensures
        count_draws(meshes_commands(meshes, instance_end, shared)) == meshes.len(),
        draws_have_range(meshes_commands(meshes, instance_end, shared), instance_end),
    decreases meshes.len(),
{
    if meshes.len() > 0 {
        lemma_meshes_commands_draws(meshes.drop_last(), instance_end, shared);
        let tail = mesh_commands(
            meshes.len() - 1,
            meshes.last().geometry.num_elements,
            meshes.last().material_id,
            instance_end,
            shared,
        );
        lemma_mesh_commands_draws(
            meshes.len() - 1,
            meshes.last().geometry.num_elements,
            meshes.last().material_id,
            instance_end,
            shared,
        );
        lemma_count_draws_concat(
            meshes_commands(meshes.drop_last(), instance_end, shared),
            tail,
        );
    }
}

/// Per frame, a renderer with mesh count `m` records exactly `m` indexed
/// draws, each over the instance range `0 .. k` where `k` is the
/// renderer's instance count — the length of its uploaded instance
/// array, or 1 when it has none.
pub proof fn lemma_draw_calls_per_model(r: ModelRenderer, shared: Seq<BindGroupRef>)
    requires
        r.wf(),
    ensures
        count_draws(model_commands(r, shared)) == r.model.meshes@.len(),
        draws_have_range(model_commands(r, shared), instance_range_end(r)),
        instance_range_end(r) == r.instance_count(),
        !r.instanced() ==> instance_range_end(r) == 1,
{
    let head = seq![DrawCommand::SetPipeline];
    let instance_binding = if r.instanced() {
        seq![DrawCommand::SetVertexBuffer { slot: 1, buffer: BufferRef::Instances }]
    } else {
        Seq::<DrawCommand>::empty()
    };
    let body = meshes_commands(r.model.meshes@, instance_range_end(r), shared);
    assert(forall|i: int|
        0 <= i < (head + instance_binding).len() ==> !(((#[trigger] (head + instance_binding)[i]))
            is DrawIndexed));
    lemma_count_draws_none(head + instance_binding);
    lemma_meshes_commands_draws(r.model.meshes@, instance_range_end(r), shared);
    lemma_count_draws_concat(head + instance_binding, body);
    assert(model_commands(r, shared) =~= (head + instance_binding) + body);
}

/// The bind-group-slot assignment for one mesh: the local offset is 1
/// exactly when the mesh has a material — bound at slot 0 — and 0
/// otherwise, and the shared groups occupy the slots immediately
/// following the offset, in their given order.
pub proof fn lemma_bind_group_slot_assignment(
    mesh_index: int,
    num_elements: u32,
    material: Option<usize>,
    instance_end: u32,
    shared: Seq<BindGroupRef>,
)
    ensures
        ({
            let cs = mesh_commands(mesh_index, num_elements, material, instance_end, shared);
            let o = material_offset(material);
            &&& (o == if material is Some {
                1int
            } else {
                0int
            })
            &&& cs.len() == 3 + o + shared.len()
            &&& (material matches Some(mi) ==> cs[2] == (DrawCommand::SetBindGroup {
                slot: 0,
                group: BindGroupRef::Material { index: mi },
            }))
            &&& forall|j: int|
                0 <= j < shared.len() ==> cs[2 + o + j] == (DrawCommand::SetBindGroup {
                    slot: (o + j) as u32,
                    group: shared[j],
                })
        }),
{
}

/// The slot assignment seen by the fixed camera-then-light binding of a
/// frame: for a mesh with a material, camera lands at slot 1 and light
/// at slot 2; for a mesh without one, camera lands at slot 0 and light
/// at slot 1.
pub proof fn lemma_camera_light_slots(
    mesh_index: int,
    num_elements: u32,
    material: Option<usize>,
    instance_end: u32,
)
    ensures
        ({
            let shared = seq![BindGroupRef::Camera, BindGroupRef::Light];
            let cs = mesh_commands(mesh_index, num_elements, material, instance_end, shared);
            let o = material_offset(material);
            &&& cs[2 + o] == (DrawCommand::SetBindGroup {
                slot: o as u32,
                group: BindGroupRef::Camera,
            })
            &&& cs[2 + o + 1] == (DrawCommand::SetBindGroup {
                slot: (o + 1) as u32,
                group: BindGroupRef::Light,
            })
        }),
{
    let shared = seq![BindGroupRef::Camera, BindGroupRef::Light];
    lemma_bind_group_slot_assignment(mesh_index, num_elements, material, instance_end, shared);
}

/// A drawing capability for a pass: traverse a renderer and record the
/// commands that draw it.
pub trait DrawModel {
    /// Record every command that draws `renderer`: its pipeline, its
    /// instance buffer when present, and each mesh in stored order.
    fn draw_model(&mut self, renderer: &ModelRenderer, bind_groups: &Vec<BindGroupRef>)
        requires
            renderer.wf(),
            bind_groups@.len() + 1 <= u32::MAX,
    ;

    /// Record the commands that draw one mesh: its buffers, its material
    /// when given, the shared groups at the slots after the mesh's local
    /// offset, and one indexed draw over `0 .. instance_end`.
    fn draw_mesh_instanced(
        &mut self,
        mesh_index: usize,
        mesh: &Mesh,
        material: Option<usize>,
        instance_end: u32,
        bind_groups: &Vec<BindGroupRef>,
    )
        requires
            bind_groups@.len() + 1 <= u32::MAX,
    ;
}

impl DrawModel for RecordedPass {
    fn draw_model(&mut self, renderer: &ModelRenderer, bind_groups: &Vec<BindGroupRef>)
        ensures
            final(self).commands@ == old(self).commands@ + model_commands(
                *renderer,
                bind_groups@,
            ),
    {
        self.set_pipeline();
        let instance_end: u32 = match &renderer.instances {
            Instancing::Static => 1,
            Instancing::Instanced { data } => {
                self.set_vertex_buffer(1, BufferRef::Instances);
                data.len() as u32
            },
        };
        let ghost after_header = self.commands@;
        let mut j: usize = 0;
        while j < renderer.model.meshes.len()
            invariant
                renderer.wf(),
                bind_groups@.len() + 1 <= u32::MAX,
                0 <= j <= renderer.model.meshes@.len(),
                instance_end == instance_range_end(*renderer),
                self.commands@ == after_header + meshes_commands(
                    renderer.model.meshes@.take(j as int),
                    instance_end,
                    bind_groups@,
                ),
            decreases renderer.model.meshes@.len() - j,
        {
            let mesh = &renderer.model.meshes[j];
            self.draw_mesh_instanced(j, mesh, mesh.material_id, instance_end, bind_groups);
            proof {
                let t = renderer.model.meshes@.take(j + 1 as int);
                assert(t.drop_last() =~= renderer.model.meshes@.take(j as int));
                assert(t.last() == renderer.model.meshes@[j as int]);
                assert(self.commands@ =~= after_header + meshes_commands(
                    t,
                    instance_end,
                    bind_groups@,
                ));
            }
            j = j + 1;
        }
        proof {
            assert(renderer.model.meshes@.take(renderer.model.meshes@.len() as int)
                =~= renderer.model.meshes@);
            assert(self.commands@ =~= old(self).commands@ + model_commands(
                *renderer,
                bind_groups@,
            ));
        }
    }

    fn draw_mesh_instanced(
        &mut self,
        mesh_index: usize,
        mesh: &Mesh,
        material: Option<usize>,
        instance_end: u32,
        bind_groups: &Vec<BindGroupRef>,
    )
        ensures
            final(self).commands@ == old(self).commands@ + mesh_commands(
                mesh_index as int,
                mesh.geometry.num_elements,
                material,
                instance_end,
                bind_groups@,
            ),
    {
        self.set_vertex_buffer(0, BufferRef::MeshVertices { mesh: mesh_index });
        self.set_index_buffer(
            BufferRef::MeshIndices { mesh: mesh_index },
            IndexFormat::Uint32,
        );
        let mut offset: u32 = 0;
        if let Some(material_index) = material {
            self.set_bind_group(0, BindGroupRef::Material { index: material_index });
            offset = offset + 1;
        }
        let ghost before_shared = self.commands@;
        let mut i: usize = 0;
        while i < bind_groups.len()
            invariant
                bind_groups@.len() + 1 <= u32::MAX,
                0 <= i <= bind_groups@.len(),
                offset == material_offset(material),
                self.commands@ == before_shared + shared_group_commands(
                    material_offset(material),
                    bind_groups@,
                ).take(i as int),
            decreases bind_groups@.len() - i,
        {
            self.set_bind_group(i as u32 + offset, bind_groups[i]);
            proof {
                assert(self.commands@ =~= before_shared + shared_group_commands(
                    material_offset(material),
                    bind_groups@,
                ).take(i + 1 as int));
            }
            i = i + 1;
        }
        self.draw_indexed(0, mesh.geometry.num_elements, 0, 0, instance_end);
        proof {
            assert(shared_group_commands(material_offset(material), bind_groups@).take(
                bind_groups@.len() as int,
            ) =~= shared_group_commands(material_offset(material), bind_groups@));
            assert(self.commands@ =~= old(self).commands@ + mesh_commands(
                mesh_index as int,
                mesh.geometry.num_elements,
                material,
                instance_end,
                bind_groups@,
            ));
        }
    }
}

} // verus!
