use webgpu_sandbox::asset::{Mesh, MeshAccessor};
use webgpu_sandbox::bbox::BoundingBox;
use webgpu_sandbox::document::{MeshRecord, PrimitiveRecord};
use webgpu_sandbox::mat::Vec3;

fn tri_positions(base: i64) -> Vec<i64> {
    vec![base, 0, 0, base + 100, 0, 0, base, 100, 0]
}

fn unit_box() -> BoundingBox {
    BoundingBox::new(Vec3::new(0, 0, 0), Vec3::new(100, 100, 0))
}

fn full_primitive(base: i64) -> PrimitiveRecord {
    PrimitiveRecord {
        positions: Some(tri_positions(base)),
        indices: Some(vec![0, 1, 2]),
        normals: Some(vec![0, 0, 100, 0, 0, 100, 0, 0, 100]),
        bounding_box: unit_box(),
    }
}

#[test]
fn extractor_skips_primitive_missing_a_stream() {
    let mut p = full_primitive(0);
    p.normals = None;
    assert!(MeshAccessor::new(0, &p).is_none());
    let mut q = full_primitive(0);
    q.indices = None;
    assert!(MeshAccessor::new(0, &q).is_none());
    let mut r = full_primitive(0);
    r.positions = None;
    assert!(MeshAccessor::new(0, &r).is_none());
    assert!(MeshAccessor::new(0, &full_primitive(0)).is_some());
}

#[test]
fn extractor_copies_streams_verbatim() {
    let p = full_primitive(7);
    let accessor = MeshAccessor::new(3, &p).unwrap();
    assert_eq!(accessor.positions().clone(), tri_positions(7));
    assert_eq!(accessor.indices().clone(), vec![0, 1, 2]);
    assert_eq!(accessor.normals().clone(), vec![0, 0, 100, 0, 0, 100, 0, 0, 100]);
    assert_eq!(*accessor.bounding_box(), unit_box());
}

#[test]
fn flattening_rebases_indices_per_primitive() {
    let record = MeshRecord { primitives: vec![full_primitive(0), full_primitive(1000)] };
    let mesh = Mesh::new(5, &record);
    assert_eq!(mesh.mesh_index, 5);
    // Both position streams appended in order.
    let mut expected_positions = tri_positions(0);
    expected_positions.extend_from_slice(&tri_positions(1000));
    assert_eq!(mesh.positions, expected_positions);
    // The second primitive's indices are shifted by the three vertices
    // accumulated before it.
    assert_eq!(mesh.indices, vec![0, 1, 2, 3, 4, 5]);
    assert_eq!(mesh.indices.len() % 3, 0);
    let vertex_count = (mesh.positions.len() / 3) as u32;
    assert!(mesh.indices.iter().all(|&i| i < vertex_count));
    assert_eq!(mesh.normals.len(), mesh.positions.len());
    assert_eq!(mesh.bounding_box, Some(unit_box()));
}

#[test]
fn dropped_primitive_does_not_shift_later_indices() {
    let mut missing = full_primitive(500);
    missing.indices = None;
    let record = MeshRecord {
        primitives: vec![full_primitive(0), missing, full_primitive(1000)],
    };
    let mesh = Mesh::new(0, &record);
    // The middle primitive is dropped entirely, so the third one is
    // re-based by three vertices, not six.
    assert_eq!(mesh.positions.len(), 18);
    assert_eq!(mesh.indices, vec![0, 1, 2, 3, 4, 5]);
}

#[test]
fn mesh_with_no_usable_primitive_is_empty_but_valid() {
    let mut a = full_primitive(0);
    a.positions = None;
    let mut b = full_primitive(0);
    b.normals = None;
    let record = MeshRecord { primitives: vec![a, b] };
    let mesh = Mesh::new(2, &record);
    assert_eq!(mesh.positions.len(), 0);
    assert_eq!(mesh.indices.len(), 0);
    assert_eq!(mesh.normals.len(), 0);
    assert_eq!(mesh.bounding_box, None);
}

#[test]
fn merged_bounding_box_spans_all_primitives() {
    let mut far = full_primitive(0);
    far.bounding_box = BoundingBox::new(Vec3::new(-50, 20, 0), Vec3::new(10, 400, 3));
    let record = MeshRecord { primitives: vec![full_primitive(0), far] };
    let mesh = Mesh::new(0, &record);
    let merged = mesh.bounding_box.unwrap();
    assert_eq!(merged.min(), Vec3::new(-50, 0, 0));
    assert_eq!(merged.max(), Vec3::new(100, 400, 3));
}
