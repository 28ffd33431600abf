use lens::AssetError;
use lens::Material;
use lens::Materials;
use lens::MeshData;
use lens::Model;

fn triangle_mesh(material_id: Option<usize>) -> MeshData {
    MeshData {
        name: String::from("triangle"),
        positions: vec![
            0.0f32.to_bits(),
            0.0f32.to_bits(),
            0.0f32.to_bits(),
            1.0f32.to_bits(),
            0.0f32.to_bits(),
            0.0f32.to_bits(),
            0.0f32.to_bits(),
            1.0f32.to_bits(),
            0.0f32.to_bits(),
        ],
        texcoords: vec![
            0.0f32.to_bits(),
            0.0f32.to_bits(),
            1.0f32.to_bits(),
            0.0f32.to_bits(),
            0.0f32.to_bits(),
            1.0f32.to_bits(),
        ],
        normals: vec![
            0.0f32.to_bits(),
            0.0f32.to_bits(),
            1.0f32.to_bits(),
            0.0f32.to_bits(),
            0.0f32.to_bits(),
            1.0f32.to_bits(),
            0.0f32.to_bits(),
            0.0f32.to_bits(),
            1.0f32.to_bits(),
        ],
        indices: vec![0, 1, 2],
        material_id,
    }
}

#[test]
fn untextured_model_has_no_material_references() {
    let model = Model::load(vec![triangle_mesh(None), triangle_mesh(Some(7))], None).unwrap();
    assert_eq!(model.meshes.len(), 2);
    for mesh in &model.meshes {
        assert!(mesh.material_id.is_none());
    }
    assert!(matches!(model.materials, Materials::Untextured));
}

#[test]
fn textured_model_keeps_materials_in_order_and_assigns_ids() {
    let materials = vec![
        Material { name: String::from("stone") },
        Material { name: String::from("wood") },
    ];
    let meshes = vec![triangle_mesh(Some(1)), triangle_mesh(None), triangle_mesh(Some(0))];
    let model = Model::load(meshes, Some(materials)).unwrap();
    match &model.materials {
        Materials::Textured { materials } => {
            assert_eq!(materials.len(), 2);
            assert_eq!(materials[0].name, "stone");
            assert_eq!(materials[1].name, "wood");
        }
        Materials::Untextured => panic!("expected a textured model"),
    }
    assert_eq!(model.meshes[0].material_id, Some(1));
    // A mesh without a source material index defaults to the first material.
    assert_eq!(model.meshes[1].material_id, Some(0));
    assert_eq!(model.meshes[2].material_id, Some(0));
}

#[test]
fn interleaving_and_element_count() {
    let data = triangle_mesh(None);
    let expected_first_normal_z = 1.0f32.to_bits();
    let model = Model::load(vec![data], None).unwrap();
    let geometry = &model.meshes[0].geometry;
    assert_eq!(geometry.name, "triangle");
    assert_eq!(geometry.vertices.len(), 3);
    assert_eq!(geometry.indices, vec![0, 1, 2]);
    assert_eq!(geometry.num_elements, 3);
    assert_eq!(geometry.vertices[1].position.x, 1.0f32.to_bits());
    assert_eq!(geometry.vertices[1].position.y, 0.0f32.to_bits());
    assert_eq!(geometry.vertices[1].tex_coords.x, 1.0f32.to_bits());
    assert_eq!(geometry.vertices[2].tex_coords.y, 1.0f32.to_bits());
    assert_eq!(geometry.vertices[0].normal.z, expected_first_normal_z);
}

#[test]
fn empty_mesh_is_legal_and_draws_nothing() {
    let data = MeshData {
        name: String::from("empty"),
        positions: vec![],
        texcoords: vec![],
        normals: vec![],
        indices: vec![],
        material_id: None,
    };
    let model = Model::load(vec![data], None).unwrap();
    assert_eq!(model.meshes[0].geometry.num_elements, 0);
    assert_eq!(model.meshes[0].geometry.vertices.len(), 0);
}

#[test]
fn mismatched_position_count_is_rejected() {
    let mut data = triangle_mesh(None);
    data.positions.pop();
    let err = Model::load(vec![data], None).unwrap_err();
    assert_eq!(err, AssetError::MismatchedAttributeLengths { mesh: 0 });
}

#[test]
fn mismatched_texcoord_count_is_rejected() {
    let mut data = triangle_mesh(None);
    data.texcoords.pop();
    let err = Model::load(vec![data], None).unwrap_err();
    assert_eq!(err, AssetError::MismatchedAttributeLengths { mesh: 0 });
}

#[test]
fn mismatched_normal_count_is_rejected() {
    let mut data = triangle_mesh(None);
    data.normals.push(0.0f32.to_bits());
    let err = Model::load(vec![data], None).unwrap_err();
    assert_eq!(err, AssetError::MismatchedAttributeLengths { mesh: 0 });
}

#[test]
fn index_past_vertices_is_rejected() {
    let mut data = triangle_mesh(None);
    data.indices = vec![0, 1, 3];
    let err = Model::load(vec![data], None).unwrap_err();
    assert_eq!(err, AssetError::IndexOutOfRange { mesh: 0 });
}

#[test]
fn material_id_past_list_is_rejected() {
    let materials = vec![Material { name: String::from("only") }];
    let err = Model::load(vec![triangle_mesh(Some(1))], Some(materials)).unwrap_err();
    assert_eq!(err, AssetError::MaterialIdOutOfRange { mesh: 0 });
}

#[test]
fn default_material_id_with_empty_material_list_is_rejected() {
    let err = Model::load(vec![triangle_mesh(None)], Some(vec![])).unwrap_err();
    assert_eq!(err, AssetError::MaterialIdOutOfRange { mesh: 0 });
}

#[test]
fn first_defective_mesh_is_named() {
    let mut bad = triangle_mesh(None);
    bad.indices = vec![9];
    let err = Model::load(vec![triangle_mesh(None), bad, triangle_mesh(Some(4))], None)
        .unwrap_err();
    assert_eq!(err, AssetError::IndexOutOfRange { mesh: 1 });
}

#[test]
fn length_defect_reported_before_index_defect() {
    let mut data = triangle_mesh(None);
    data.positions.pop();
    data.indices = vec![9];
    let err = Model::load(vec![data], None).unwrap_err();
    assert_eq!(err, AssetError::MismatchedAttributeLengths { mesh: 0 });
}
