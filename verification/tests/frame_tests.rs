use lens::frame::classify_render_fault;
use lens::frame::frame_shared_bind_groups;
use lens::frame::record_frame;
use lens::BindGroupRef;
use lens::DrawModel;
use lens::FrameAction;
use lens::MeshData;
use lens::Model;
use lens::ModelRenderer;
use lens::RecordedPass;
use lens::SurfaceExtent;
use lens::SurfaceFault;

fn quad_mesh(name: &str) -> MeshData {
    let zero = 0.0f32.to_bits();
    MeshData {
        name: String::from(name),
        positions: vec![zero; 12],
        texcoords: vec![zero; 8],
        normals: vec![zero; 12],
        indices: vec![0, 1, 2, 2, 3, 0],
        material_id: None,
    }
}

#[test]
fn resize_to_zero_width_is_a_no_op() {
    let mut extent = SurfaceExtent { width: 800, height: 600 };
    let changed = extent.apply_resize(0, 480);
    assert!(!changed);
    assert_eq!(extent, SurfaceExtent { width: 800, height: 600 });
}

#[test]
fn resize_to_zero_height_is_a_no_op() {
    let mut extent = SurfaceExtent { width: 800, height: 600 };
    let changed = extent.apply_resize(640, 0);
    assert!(!changed);
    assert_eq!(extent, SurfaceExtent { width: 800, height: 600 });
}

#[test]
fn positive_resize_reconfigures() {
    let mut extent = SurfaceExtent { width: 800, height: 600 };
    let changed = extent.apply_resize(640, 480);
    assert!(changed);
    assert_eq!(extent, SurfaceExtent { width: 640, height: 480 });
}

#[test]
fn fault_classification_follows_the_taxonomy() {
    assert_eq!(classify_render_fault(SurfaceFault::Lost), FrameAction::Reconfigure);
    assert_eq!(classify_render_fault(SurfaceFault::OutOfMemory), FrameAction::Exit);
    assert_eq!(classify_render_fault(SurfaceFault::Outdated), FrameAction::SkipFrame);
    assert_eq!(classify_render_fault(SurfaceFault::Timeout), FrameAction::SkipFrame);
}

#[test]
fn shared_bind_groups_are_camera_then_light() {
    assert_eq!(
        frame_shared_bind_groups(),
        vec![BindGroupRef::Camera, BindGroupRef::Light]
    );
}

#[test]
fn a_frame_draws_every_renderer_in_order() {
    let first = ModelRenderer::new_renderer(
        Model::load(vec![quad_mesh("a")], None).unwrap(),
        String::from("shader"),
        None,
    );
    let second = ModelRenderer::new_renderer(
        Model::load(vec![quad_mesh("b"), quad_mesh("c")], None).unwrap(),
        String::from("shader"),
        None,
    );
    let groups = frame_shared_bind_groups();
    let renderers = vec![first, second];
    let frame = record_frame(&renderers, &groups);
    assert_eq!(frame.len(), 2);
    for (i, renderer) in renderers.iter().enumerate() {
        let mut single = RecordedPass::new();
        single.draw_model(renderer, &groups);
        assert_eq!(frame[i].commands, single.commands);
    }
    assert_eq!(frame[0].commands.len(), 6);
    assert_eq!(frame[1].commands.len(), 11);
}
