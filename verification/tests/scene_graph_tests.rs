use webgpu_sandbox::asset::Node;
use webgpu_sandbox::document::NodeRecord;
use webgpu_sandbox::fx::FX_SCALE;
use webgpu_sandbox::mat::Mat4;

fn leaf(node_index: usize, local: Mat4) -> NodeRecord {
    NodeRecord {
        node_index,
        local_transform: local,
        mesh_index: None,
        has_camera: false,
        children: vec![],
    }
}

#[test]
fn flatten_emits_depth_first_pre_order() {
    // root 0 with children 1 (having child 2) and 3, then root 4.
    let tree = NodeRecord {
        node_index: 0,
        local_transform: Mat4::identity(),
        mesh_index: None,
        has_camera: false,
        children: vec![
            NodeRecord {
                node_index: 1,
                local_transform: Mat4::identity(),
                mesh_index: None,
                has_camera: false,
                children: vec![leaf(2, Mat4::identity())],
            },
            leaf(3, Mat4::identity()),
        ],
    };
    let roots = vec![tree, leaf(4, Mat4::identity())];
    let nodes = Node::flatten_nodes(&roots);
    let order: Vec<usize> = nodes.iter().map(|n| n.node_index).collect();
    assert_eq!(order, vec![0, 1, 2, 3, 4]);
}

#[test]
fn three_level_hierarchy_accumulates_known_matrices() {
    // Root translates by one unit in x, its child scales by two, and the
    // grandchild translates by one unit in y (in its own, scaled space).
    let grandchild = leaf(2, Mat4::translation(0, FX_SCALE, 0));
    let child = NodeRecord {
        node_index: 1,
        local_transform: Mat4::scaling(2 * FX_SCALE),
        mesh_index: None,
        has_camera: false,
        children: vec![grandchild],
    };
    let root = NodeRecord {
        node_index: 0,
        local_transform: Mat4::translation(FX_SCALE, 0, 0),
        mesh_index: None,
        has_camera: false,
        children: vec![child],
    };
    let nodes = Node::flatten_nodes(&vec![root]);
    assert_eq!(nodes.len(), 3);

    let s = FX_SCALE;
    let world_root = Mat4::from_entries(&[
        s, 0, 0, 0, 0, s, 0, 0, 0, 0, s, 0, s, 0, 0, s,
    ])
    .unwrap();
    let world_child = Mat4::from_entries(&[
        2 * s, 0, 0, 0, 0, 2 * s, 0, 0, 0, 0, 2 * s, 0, s, 0, 0, s,
    ])
    .unwrap();
    // The grandchild's unit y-translation is doubled by the inherited
    // scale before the root's x-translation is added.
    let world_grandchild = Mat4::from_entries(&[
        2 * s, 0, 0, 0, 0, 2 * s, 0, 0, 0, 0, 2 * s, 0, s, 2 * s, 0, s,
    ])
    .unwrap();
    assert_eq!(nodes[0].transform, world_root);
    assert_eq!(nodes[1].transform, world_child);
    assert_eq!(nodes[2].transform, world_grandchild);
}

#[test]
fn child_inherits_uniform_parent_scale() {
    let child = leaf(1, Mat4::identity());
    let parent = NodeRecord {
        node_index: 0,
        local_transform: Mat4::scaling(2 * FX_SCALE),
        mesh_index: None,
        has_camera: false,
        children: vec![child],
    };
    let nodes = Node::flatten_nodes(&vec![parent]);
    assert_eq!(nodes.len(), 2);
    assert_eq!(nodes[0].transform, Mat4::scaling(2 * FX_SCALE));
    // The child's world transform is also scaled by two.
    assert_eq!(nodes[1].transform, Mat4::scaling(2 * FX_SCALE));
}

#[test]
fn root_without_parent_keeps_its_local_transform() {
    let local = Mat4::translation(10, 20, 30);
    let nodes = Node::flatten_nodes(&vec![leaf(7, local)]);
    assert_eq!(nodes.len(), 1);
    assert_eq!(nodes[0].node_index, 7);
    assert_eq!(nodes[0].transform, local);
    assert_eq!(nodes[0].mesh_index, None);
}
