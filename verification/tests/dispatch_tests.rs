use lens::instance::identity_rotation;
use lens::BindGroupRef;
use lens::BufferRef;
use lens::DrawCommand;
use lens::DrawModel;
use lens::IndexFormat;
use lens::InstanceTransform;
use lens::Material;
use lens::MeshData;
use lens::Model;
use lens::ModelRenderer;
use lens::RecordedPass;
use lens::Vec3Bits;

fn triangle_mesh(name: &str, material_id: Option<usize>) -> MeshData {
    let zero = 0.0f32.to_bits();
    MeshData {
        name: String::from(name),
        positions: vec![zero; 9],
        texcoords: vec![zero; 6],
        normals: vec![zero; 9],
        indices: vec![0, 1, 2],
        material_id,
    }
}

fn shared_groups() -> Vec<BindGroupRef> {
    vec![BindGroupRef::Camera, BindGroupRef::Light]
}

fn draws_of(pass: &RecordedPass) -> Vec<(u32, u32, u32)> {
    pass.commands
        .iter()
        .filter_map(|c| match c {
            DrawCommand::DrawIndexed { index_end, instance_start, instance_end, .. } => {
                Some((*index_end, *instance_start, *instance_end))
            }
            _ => None,
        })
        .collect()
}

#[test]
fn single_untextured_mesh_records_one_draw_with_two_bind_groups() {
    let model = Model::load(vec![triangle_mesh("tri", None)], None).unwrap();
    let renderer = ModelRenderer::new_renderer(model, String::from("shader"), None);
    let mut pass = RecordedPass::new();
    pass.draw_model(&renderer, &shared_groups());
    let expected = vec![
        DrawCommand::SetPipeline,
        DrawCommand::SetVertexBuffer { slot: 0, buffer: BufferRef::MeshVertices { mesh: 0 } },
        DrawCommand::SetIndexBuffer {
            buffer: BufferRef::MeshIndices { mesh: 0 },
            format: IndexFormat::Uint32,
        },
        DrawCommand::SetBindGroup { slot: 0, group: BindGroupRef::Camera },
        DrawCommand::SetBindGroup { slot: 1, group: BindGroupRef::Light },
        DrawCommand::DrawIndexed {
            index_start: 0,
            index_end: 3,
            base_vertex: 0,
            instance_start: 0,
            instance_end: 1,
        },
    ];
    assert_eq!(pass.commands, expected);
}

#[test]
fn two_textured_meshes_with_instances_record_two_draws() {
    let materials = vec![Material { name: String::from("shared") }];
    let model = Model::load(
        vec![triangle_mesh("a", Some(0)), triangle_mesh("b", Some(0))],
        Some(materials),
    )
    .unwrap();
    let zero = 0.0f32.to_bits();
    let transform = InstanceTransform {
        position: Vec3Bits { x: zero, y: zero, z: zero },
        rotation: identity_rotation(),
    };
    let instances = vec![transform.to_raw(); 100];
    let renderer = ModelRenderer::new_renderer(model, String::from("shader"), Some(instances));
    let mut pass = RecordedPass::new();
    pass.draw_model(&renderer, &shared_groups());

    assert_eq!(pass.commands[0], DrawCommand::SetPipeline);
    assert_eq!(
        pass.commands[1],
        DrawCommand::SetVertexBuffer { slot: 1, buffer: BufferRef::Instances }
    );
    // Per mesh: vertex buffer, index buffer, three bind groups, one draw.
    for (mesh, base) in [(0usize, 2usize), (1usize, 8usize)] {
        assert_eq!(
            pass.commands[base],
            DrawCommand::SetVertexBuffer { slot: 0, buffer: BufferRef::MeshVertices { mesh } }
        );
        assert_eq!(
            pass.commands[base + 1],
            DrawCommand::SetIndexBuffer {
                buffer: BufferRef::MeshIndices { mesh },
                format: IndexFormat::Uint32,
            }
        );
        assert_eq!(
            pass.commands[base + 2],
            DrawCommand::SetBindGroup { slot: 0, group: BindGroupRef::Material { index: 0 } }
        );
        assert_eq!(
            pass.commands[base + 3],
            DrawCommand::SetBindGroup { slot: 1, group: BindGroupRef::Camera }
        );
        assert_eq!(
            pass.commands[base + 4],
            DrawCommand::SetBindGroup { slot: 2, group: BindGroupRef::Light }
        );
        assert_eq!(
            pass.commands[base + 5],
            DrawCommand::DrawIndexed {
                index_start: 0,
                index_end: 3,
                base_vertex: 0,
                instance_start: 0,
                instance_end: 100,
            }
        );
    }
    assert_eq!(pass.commands.len(), 14);
    assert_eq!(draws_of(&pass), vec![(3, 0, 100), (3, 0, 100)]);
}

#[test]
fn draw_count_equals_mesh_count() {
    let meshes = vec![
        triangle_mesh("a", None),
        triangle_mesh("b", None),
        triangle_mesh("c", None),
    ];
    let model = Model::load(meshes, None).unwrap();
    let renderer = ModelRenderer::new_renderer(model, String::from("shader"), None);
    let mut pass = RecordedPass::new();
    pass.draw_model(&renderer, &shared_groups());
    assert_eq!(draws_of(&pass).len(), 3);
    for (_, start, end) in draws_of(&pass) {
        assert_eq!((start, end), (0, 1));
    }
}

#[test]
fn empty_instance_buffer_draws_zero_instances() {
    let model = Model::load(vec![triangle_mesh("tri", None)], None).unwrap();
    let renderer = ModelRenderer::new_renderer(model, String::from("shader"), Some(vec![]));
    let mut pass = RecordedPass::new();
    pass.draw_model(&renderer, &shared_groups());
    assert_eq!(draws_of(&pass), vec![(3, 0, 0)]);
}

#[test]
fn bind_group_offset_shifts_per_mesh_in_a_mixed_model() {
    // Assembly never produces a model whose meshes disagree about
    // materials, but dispatch must still bind each mesh by its own
    // material: the shared groups shift independently per mesh.
    let textured_model = Model::load(
        vec![triangle_mesh("textured", Some(0))],
        Some(vec![Material { name: String::from("m") }]),
    )
    .unwrap();
    let untextured_model = Model::load(vec![triangle_mesh("bare", None)], None).unwrap();
    let groups = shared_groups();

    let mut pass = RecordedPass::new();
    pass.draw_mesh_instanced(0, &textured_model.meshes[0], Some(0), 1, &groups);
    pass.draw_mesh_instanced(1, &untextured_model.meshes[0], None, 1, &groups);

    // The textured mesh binds its material at slot 0; camera and light
    // follow at slots 1 and 2.
    assert_eq!(
        pass.commands[2],
        DrawCommand::SetBindGroup { slot: 0, group: BindGroupRef::Material { index: 0 } }
    );
    assert_eq!(
        pass.commands[3],
        DrawCommand::SetBindGroup { slot: 1, group: BindGroupRef::Camera }
    );
    assert_eq!(
        pass.commands[4],
        DrawCommand::SetBindGroup { slot: 2, group: BindGroupRef::Light }
    );
    // The untextured mesh binds no material; camera and light land at
    // slots 0 and 1.
    assert_eq!(
        pass.commands[8],
        DrawCommand::SetBindGroup { slot: 0, group: BindGroupRef::Camera }
    );
    assert_eq!(
        pass.commands[9],
        DrawCommand::SetBindGroup { slot: 1, group: BindGroupRef::Light }
    );
}
