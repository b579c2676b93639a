use webgpu_sandbox::asset::Model;
use webgpu_sandbox::bbox::BoundingBox;
use webgpu_sandbox::document::{MeshRecord, NodeRecord, PrimitiveRecord, SceneDocument};
use webgpu_sandbox::fx::{FX_LIMIT, FX_SCALE};
use webgpu_sandbox::mat::{Mat4, Vec3};
use webgpu_sandbox::renderer::{
    camera_frame, frame_plan, mesh_pass_draws, object_buffer_size, object_uniform_offset, LoadOp,
    StoreOp, OBJECT_UNIFORM_STRIDE, SAMPLE_COUNT, SCENE_UNIFORM_BYTES, SKY_UNIFORM_BYTES,
};

fn triangle_primitive() -> PrimitiveRecord {
    PrimitiveRecord {
        positions: Some(vec![0, 0, 0, FX_SCALE, 0, 0, 0, FX_SCALE, 0]),
        indices: Some(vec![0, 1, 2]),
        normals: Some(vec![0, 0, FX_SCALE, 0, 0, FX_SCALE, 0, 0, FX_SCALE]),
        bounding_box: BoundingBox::new(Vec3::new(0, 0, 0), Vec3::new(FX_SCALE, FX_SCALE, 0)),
    }
}

fn node(node_index: usize, mesh: Option<usize>) -> NodeRecord {
    NodeRecord {
        node_index,
        local_transform: Mat4::identity(),
        mesh_index: mesh,
        has_camera: false,
        children: vec![],
    }
}

fn loaded_model() -> Model {
    let document = SceneDocument {
        default_scene: Some(vec![node(0, Some(0)), node(1, None), node(2, Some(0))]),
        meshes: vec![MeshRecord { primitives: vec![triangle_primitive()] }],
    };
    Model::load(&document).unwrap()
}

#[test]
fn per_object_uniform_layout_is_stride_aligned() {
    assert_eq!(OBJECT_UNIFORM_STRIDE, 256);
    assert_eq!(OBJECT_UNIFORM_STRIDE % 256, 0);
    assert_eq!(object_uniform_offset(0), 0);
    assert_eq!(object_uniform_offset(3), 768);
    assert_eq!(object_buffer_size(5), 1280);
    assert_eq!(SKY_UNIFORM_BYTES, 64);
    assert_eq!(SCENE_UNIFORM_BYTES, 80);
    assert_eq!(SAMPLE_COUNT, 4);
}

#[test]
fn mesh_pass_draws_skip_meshless_nodes() {
    let model = loaded_model();
    let draws = mesh_pass_draws(&model);
    assert_eq!(draws.len(), 2);
    assert_eq!(draws[0].node_slot, 0);
    assert_eq!(draws[0].mesh_index, 0);
    assert_eq!(draws[0].uniform_offset, 0);
    assert_eq!(draws[0].index_count, 3);
    assert_eq!(draws[1].node_slot, 2);
    assert_eq!(draws[1].uniform_offset, 512);
    assert_eq!(draws[1].index_count, 3);
}

#[test]
fn frame_runs_sky_pass_then_mesh_pass_with_fresh_depth() {
    let model = loaded_model();
    let plan = frame_plan(&model);
    // The sky pass clears both targets and draws no scene geometry.
    assert_eq!(plan.sky.color_load, LoadOp::Clear);
    assert_eq!(plan.sky.color_store, StoreOp::Store);
    assert!(!plan.sky.resolves_to_surface);
    assert_eq!(plan.sky.depth_load, LoadOp::Clear);
    assert!(plan.sky.draws.is_empty());
    // The mesh pass carries the sky's color forward, resolves to the
    // surface, but clears depth again rather than reusing it.
    assert_eq!(plan.mesh.color_load, LoadOp::Load);
    assert_eq!(plan.mesh.color_store, StoreOp::Discard);
    assert!(plan.mesh.resolves_to_surface);
    assert_eq!(plan.mesh.depth_load, LoadOp::Clear);
    assert_eq!(plan.mesh.draws.len(), 2);
}

#[test]
fn camera_frames_scene_bound() {
    let bb = BoundingBox::new(
        Vec3::new(-FX_SCALE, -FX_SCALE, -FX_SCALE),
        Vec3::new(FX_SCALE, FX_SCALE, FX_SCALE),
    );
    let (center, eye) = camera_frame(Some(&bb));
    assert_eq!(center, Vec3::new(0, 0, 0));
    // Halfway between center and the bound's top, three depths back.
    assert_eq!(eye, Vec3::new(0, FX_SCALE / 2, -3 * FX_SCALE));
}

#[test]
fn camera_frame_clamps_deep_scenes() {
    let bb = BoundingBox::new(
        Vec3::new(0, 0, -FX_LIMIT),
        Vec3::new(0, 0, 0),
    );
    let (_, eye) = camera_frame(Some(&bb));
    assert_eq!(eye.z, -FX_LIMIT);
}

#[test]
fn camera_falls_back_without_scene_bound() {
    let (center, eye) = camera_frame(None);
    assert_eq!(center, Vec3::new(0, 0, 0));
    assert_eq!(eye, Vec3::new(FX_SCALE / 4, 0, 0));
}
