//! The scene asset pipeline: geometry extraction, mesh flattening, scene
//! graph flattening, camera extraction, and the loaded `Model`.

use vstd::prelude::*;
use vstd::slice::slice_to_vec;

use crate::bbox::{merge_spec, transform_spec, BoundingBox};
use crate::document::{
    accessor_of, accessors_spec, flat_bbox, flat_indices, flat_normals, flat_positions,
    flat_vcount, AccessorModel, MeshRecord, NodeRecord, PrimitiveRecord, SceneDocument,
};
use crate::mat::{mat_identity, mat_mul, Mat4, Vec3};

verus! {

/// The extracted attribute streams of one usable primitive.
pub struct MeshAccessor {
    pub primitive_index: usize,
    pub positions: Vec<i64>,
    pub indices: Vec<u32>,
    pub normals: Vec<i64>,
    pub bounding_box: BoundingBox,
}

impl View for MeshAccessor {
    type V = AccessorModel;

    open spec fn view(&self) -> AccessorModel {
        AccessorModel {
            positions: self.positions@,
            indices: self.indices@,
            normals: self.normals@,
            bounding_box: self.bounding_box,
        }
    }
}

/// The extracted models of a list of accessors.
pub open spec fn acc_views(s: Seq<MeshAccessor>) -> Seq<AccessorModel> {
    s.map_values(|a: MeshAccessor| a@)
}

impl MeshAccessor {
    /// Geometry extractor: pulls the position, index and normal streams
    /// and the authored bounding box out of one primitive.  Yields nothing
    /// when any required stream is absent, so that the primitive is
    /// dropped without aborting the mesh.
    pub fn new(primitive_index: usize, primitive: &PrimitiveRecord) -> (r: Option<MeshAccessor>)
        ensures
            r is Some <==> primitive.usable(),
            r is Some ==> r->Some_0@ == accessor_of(*primitive) && r->Some_0.primitive_index
                == primitive_index,
    {
        let (positions, indices, normals) = match (
            &primitive.positions,
            &primitive.indices,
            &primitive.normals,
        ) {
            (Some(positions), Some(indices), Some(normals)) => (positions, indices, normals),
            _ => {
                return None;
            },
        };
        Some(
            MeshAccessor {
                primitive_index,
                positions: slice_to_vec(positions.as_slice()),
                indices: slice_to_vec(indices.as_slice()),
                normals: slice_to_vec(normals.as_slice()),
                bounding_box: primitive.bounding_box,
            },
        )
    }

    /// The usable primitives of one mesh, extracted in document order.
    pub fn flatten(mesh: &MeshRecord) -> (r: Vec<MeshAccessor>)
        ensures
            acc_views(r@) == accessors_spec(mesh.primitives@),
    {
        let mut out: Vec<MeshAccessor> = Vec::new();
        proof {
            assert(acc_views(out@) =~= accessors_spec(mesh.primitives@.take(0)));
        }
        let mut i: usize = 0;
        while i < mesh.primitives.len()
            invariant
                i <= mesh.primitives@.len(),
                acc_views(out@) == accessors_spec(mesh.primitives@.take(i as int)),
            decreases mesh.primitives@.len() - i,
        {
            proof {
                assert(mesh.primitives@.take(i + 1).drop_last() =~= mesh.primitives@.take(i as int));
                assert(mesh.primitives@.take(i + 1).last() == mesh.primitives@[i as int]);
            }
            if let Some(accessor) = MeshAccessor::new(i, &mesh.primitives[i]) {
                let ghost prev = out@;
                out.push(accessor);
                proof {
                    assert(acc_views(out@) =~= acc_views(prev).push(accessor@));
                }
            }
            i += 1;
        }
        proof {
            assert(mesh.primitives@.take(mesh.primitives@.len() as int) =~= mesh.primitives@);
        }
        out
    }

    /// The extracted position stream.
    pub fn positions(&self) -> (r: &Vec<i64>)
        ensures
            r@ == self@.positions,
    {
        &self.positions
    }

    /// The extracted index stream.
    pub fn indices(&self) -> (r: &Vec<u32>)
        ensures
            r@ == self@.indices,
    {
        &self.indices
    }

    /// The extracted normal stream.
    pub fn normals(&self) -> (r: &Vec<i64>)
        ensures
            r@ == self@.normals,
    {
        &self.normals
    }

    /// The authored bounding box of the primitive.
    pub fn bounding_box(&self) -> (r: &BoundingBox)
        ensures
            *r == self@.bounding_box,
    {
        &self.bounding_box
    }
}

/// Unfolds each merged-stream function across the element at position `i`.
proof fn lemma_flat_step(accs: Seq<AccessorModel>, i: int)
    requires
        0 <= i < accs.len(),
    ensures
        flat_vcount(accs.take(i + 1)) == flat_vcount(accs.take(i)) + accs[i].vertex_count(),
        flat_positions(accs.take(i + 1)) == flat_positions(accs.take(i)) + accs[i].positions,
        flat_normals(accs.take(i + 1)) == flat_normals(accs.take(i)) + accs[i].normals,
        flat_indices(accs.take(i + 1)) == flat_indices(accs.take(i)) + accs[i].indices.map_values(
            |v: u32| ((v + flat_vcount(accs.take(i))) as u32),
        ),
        flat_bbox(accs.take(i + 1)) == (match flat_bbox(accs.take(i)) {
            None => Some(accs[i].bounding_box),
            Some(acc) => Some(merge_spec(accs[i].bounding_box, acc)),
        }),
{
    assert(accs.take(i + 1).drop_last() =~= accs.take(i));
    assert(accs.take(i + 1).last() == accs[i]);
}

/// The merged vertex count of a prefix never exceeds that of the whole.
proof fn lemma_vcount_prefix(accs: Seq<AccessorModel>, i: int)
    requires
        0 <= i <= accs.len(),
    ensures
        flat_vcount(accs.take(i)) <= flat_vcount(accs),
    decreases accs.len() - i,
{
    if i < accs.len() {
        lemma_flat_step(accs, i);
        lemma_vcount_prefix(accs, i + 1);
    } else {
        assert(accs.take(i) =~= accs);
    }
}

/// The well-formedness that mesh flattening guarantees: whole triples and
/// triangles, matching stream lengths, and every re-based index inside
/// the merged position stream.  This is the mesh invariant a renderer can
/// rely on for any indexed draw over the merged buffers.
pub open spec fn flat_streams_wf(accs: Seq<AccessorModel>) -> bool {
    &&& flat_positions(accs).len() == 3 * flat_vcount(accs)
    &&& flat_normals(accs).len() == flat_positions(accs).len()
    &&& flat_indices(accs).len() % 3 == 0
    &&& forall|k: int|
        0 <= k < flat_indices(accs).len() ==> (#[trigger] flat_indices(accs)[k]) < flat_vcount(accs)
    &&& flat_bbox(accs) is Some ==> flat_bbox(accs)->Some_0.wf()
}

/// Merging well-formed primitives yields well-formed merged streams: the
/// merged index buffer still holds whole triangles and every index,
/// after re-basing, addresses a position triple of the merged buffer.
pub proof fn lemma_flat_streams_wf(accs: Seq<AccessorModel>)
    requires
        forall|i: int| 0 <= i < accs.len() ==> (#[trigger] accs[i]).wf(),
        flat_vcount(accs) <= u32::MAX,
    ensures
        flat_streams_wf(accs),
    decreases accs.len(),
{
    if accs.len() > 0 {
        let front = accs.drop_last();
        let a = accs.last();
        assert(forall|i: int| 0 <= i < front.len() ==> front[i] == accs[i]);
        lemma_flat_step(accs, accs.len() - 1);
        assert(accs.take(accs.len() as int) =~= accs);
        assert(accs.take(accs.len() - 1) =~= front);
        lemma_vcount_prefix(accs, accs.len() - 1);
        lemma_flat_streams_wf(front);
        let offset = flat_vcount(front);
        let mapped = a.indices.map_values(|v: u32| ((v + offset) as u32));
        assert forall|k: int| 0 <= k < flat_indices(accs).len() implies (#[trigger] flat_indices(
            accs,
        )[k]) < flat_vcount(accs) by {
            if k >= flat_indices(front).len() {
                let j = k - flat_indices(front).len();
                assert(a.indices[j] < a.vertex_count());
                assert(mapped[j] == ((a.indices[j] + offset) as u32));
                assert(a.indices[j] + offset < flat_vcount(accs));
            }
        }
    }
}

/// The running state of the mesh flattener fold: merged streams, the
/// re-basing offset accumulated so far, and the merged bounding box
/// (`None` until some primitive contributes one).
pub struct FlattenMeshState {
    pub index_offset: u32,
    pub positions: Vec<i64>,
    pub indices: Vec<u32>,
    pub normals: Vec<i64>,
    pub bounding_box: Option<BoundingBox>,
}

impl FlattenMeshState {
    /// Mesh flattener: folds the extracted primitives in document order,
    /// appending positions and normals, re-basing each primitive's
    /// indices by the vertex count accumulated before it, and merging
    /// the authored bounding boxes.
    pub fn new(views: &Vec<MeshAccessor>) -> (r: FlattenMeshState)
        requires
            forall|i: int| 0 <= i < views@.len() ==> (#[trigger] views@[i]@).wf(),
            flat_vcount(acc_views(views@)) <= u32::MAX,
        ensures
            r.positions@ == flat_positions(acc_views(views@)),
            r.indices@ == flat_indices(acc_views(views@)),
            r.normals@ == flat_normals(acc_views(views@)),
            r.bounding_box == flat_bbox(acc_views(views@)),
            r.index_offset == flat_vcount(acc_views(views@)),
    {
        let ghost accs = acc_views(views@);
        let mut state = FlattenMeshState {
            index_offset: 0,
            positions: Vec::new(),
            indices: Vec::new(),
            normals: Vec::new(),
            bounding_box: None,
        };
        proof {
            assert(accs.take(0) =~= Seq::<AccessorModel>::empty());
        }
        let mut i: usize = 0;
        while i < views.len()
            invariant
                i <= views@.len(),
                accs == acc_views(views@),
                forall|j: int| 0 <= j < views@.len() ==> (#[trigger] views@[j]@).wf(),
                flat_vcount(accs) <= u32::MAX,
                state.positions@ == flat_positions(accs.take(i as int)),
                state.indices@ == flat_indices(accs.take(i as int)),
                state.normals@ == flat_normals(accs.take(i as int)),
                state.bounding_box == flat_bbox(accs.take(i as int)),
                state.index_offset == flat_vcount(accs.take(i as int)),
            decreases views@.len() - i,
        {
            proof {
                lemma_flat_step(accs, i as int);
                lemma_vcount_prefix(accs, i + 1);
                assert(accs[i as int] == views@[i as int]@);
            }
            let v = &views[i];
            let index_offset = state.index_offset;
            let ghost offset = flat_vcount(accs.take(i as int));
            let ghost mapped = accs[i as int].indices.map_values(
                |x: u32| ((x + offset) as u32),
            );
            let mut k: usize = 0;
            while k < v.indices.len()
                invariant
                    k <= v.indices@.len(),
                    v@ == accs[i as int],
                    0 <= i < accs.len(),
                    accs[i as int].wf(),
                    index_offset == offset,
                    offset + accs[i as int].vertex_count() <= u32::MAX,
                    mapped == accs[i as int].indices.map_values(
                        |x: u32| ((x + offset) as u32),
                    ),
                    state.indices@ == flat_indices(accs.take(i as int)) + mapped.take(k as int),
                    state.positions@ == flat_positions(accs.take(i as int)),
                    state.normals@ == flat_normals(accs.take(i as int)),
                    state.bounding_box == flat_bbox(accs.take(i as int)),
                    state.index_offset == index_offset,
                decreases v.indices@.len() - k,
            {
                assert(v.indices@[k as int] < accs[i as int].vertex_count());
                let rebased: u32 = v.indices[k] + index_offset;
                let ghost prev = state.indices@;
                state.indices.push(rebased);
                proof {
                    assert(mapped[k as int] == rebased);
                    assert(mapped.take(k + 1) =~= mapped.take(k as int).push(rebased));
                    assert(state.indices@ =~= flat_indices(accs.take(i as int)) + mapped.take(
                        k + 1,
                    ));
                }
                k += 1;
            }
            proof {
                assert(mapped.take(v.indices@.len() as int) =~= mapped);
            }
            let mut new_positions = slice_to_vec(v.positions.as_slice());
            state.positions.append(&mut new_positions);
            let mut new_normals = slice_to_vec(v.normals.as_slice());
            state.normals.append(&mut new_normals);
            state.index_offset = index_offset + (v.positions.len() / 3) as u32;
            state.bounding_box = match &state.bounding_box {
                Some(bounding_box) => Some(BoundingBox::merge(v.bounding_box(), bounding_box)),
                None => Some(*v.bounding_box()),
            };
            i += 1;
        }
        proof {
            assert(accs.take(views@.len() as int) =~= accs);
        }
        state
    }
}

/// Extraction keeps primitives well formed: every accessor pulled out of
/// a list of well-formed primitives is itself well formed.
proof fn lemma_accessors_wf(prims: Seq<PrimitiveRecord>)
    requires
        forall|i: int| 0 <= i < prims.len() ==> (#[trigger] prims[i]).wf(),
    ensures
        forall|i: int|
            0 <= i < accessors_spec(prims).len() ==> (#[trigger] accessors_spec(prims)[i]).wf(),
    decreases prims.len(),
{
    if prims.len() > 0 {
        let front = prims.drop_last();
        assert(forall|i: int| 0 <= i < front.len() ==> front[i] == prims[i]);
        lemma_accessors_wf(front);
        let sub = accessors_spec(front);
        if prims.last().usable() {
            assert(prims.last().wf());
            assert(accessor_of(prims.last()).wf());
            assert(accessors_spec(prims) == sub.push(accessor_of(prims.last())));
            assert forall|i: int| 0 <= i < accessors_spec(prims).len() implies (
            #[trigger] accessors_spec(prims)[i]).wf() by {
                if i < sub.len() {
                    assert(accessors_spec(prims)[i] == sub[i]);
                } else {
                    assert(accessors_spec(prims)[i] == accessor_of(prims.last()));
                }
            }
        } else {
            assert(accessors_spec(prims) == sub);
        }
    }
}

/// A flattened mesh: its identity in the source document, the merged
/// attribute streams of all usable primitives, and the merged bounding
/// box (`None` when no primitive survived extraction; such a mesh merges
/// as a no-op into any scene bound).
pub struct Mesh {
    pub mesh_index: usize,
    pub positions: Vec<i64>,
    pub indices: Vec<u32>,
    pub normals: Vec<i64>,
    pub bounding_box: Option<BoundingBox>,
}

/// What mesh flattening builds from one mesh record.
pub open spec fn mesh_matches_record(m: Mesh, mesh_index: int, record: MeshRecord) -> bool {
    let accs = accessors_spec(record.primitives@);
    &&& m.mesh_index == mesh_index
    &&& m.positions@ == flat_positions(accs)
    &&& m.indices@ == flat_indices(accs)
    &&& m.normals@ == flat_normals(accs)
    &&& m.bounding_box == flat_bbox(accs)
}

impl Mesh {
    /// The mesh invariant: whole position triples, one normal coordinate
    /// per position coordinate, whole triangles, every index addressing a
    /// position triple, and a bounding box within the coordinate range.
    pub open spec fn wf(&self) -> bool {
        &&& self.positions@.len() % 3 == 0
        &&& self.normals@.len() == self.positions@.len()
        &&& self.indices@.len() % 3 == 0
        &&& forall|k: int|
            0 <= k < self.indices@.len() ==> (#[trigger] self.indices@[k]) < self.positions@.len()
                / 3
        &&& self.bounding_box is Some ==> self.bounding_box->Some_0.wf()
    }

    /// Mesh flattener: merges all primitives of one mesh into contiguous
    /// streams with re-based indices and folds their bounding boxes.
    pub fn new(mesh_index: usize, record: &MeshRecord) -> (m: Mesh)
        requires
            record.wf(),
        ensures
            mesh_matches_record(m, mesh_index as int, *record),
            m.wf(),
    {
        let ghost accs = accessors_spec(record.primitives@);
        proof {
            lemma_accessors_wf(record.primitives@);
        }
        let views = MeshAccessor::flatten(record);
        proof {
            assert forall|i: int| 0 <= i < views@.len() implies (#[trigger] views@[i]@).wf() by {
                assert(acc_views(views@)[i] == views@[i]@);
            }
        }
        let state = FlattenMeshState::new(&views);
        proof {
            lemma_flat_streams_wf(accs);
            assert(3 * flat_vcount(accs) % 3 == 0) by (nonlinear_arith);
            assert(flat_positions(accs).len() / 3 == flat_vcount(accs));
        }
        Mesh {
            mesh_index,
            positions: state.positions,
            indices: state.indices,
            normals: state.normals,
            bounding_box: state.bounding_box,
        }
    }

    /// The merged position stream.
    pub fn positions(&self) -> (r: &Vec<i64>)
        ensures
            r@ == self.positions@,
    {
        &self.positions
    }

    /// The merged, re-based index stream.
    pub fn indices(&self) -> (r: &Vec<u32>)
        ensures
            r@ == self.indices@,
    {
        &self.indices
    }

    /// The merged normal stream.
    pub fn normals(&self) -> (r: &Vec<i64>)
        ensures
            r@ == self.normals@,
    {
        &self.normals
    }

    /// The mesh's identity: its index in the source document.
    pub fn mesh_index(&self) -> (r: usize)
        ensures
            r == self.mesh_index,
    {
        self.mesh_index
    }

    /// The merged bounding box, absent when no primitive was usable.
    pub fn bounding_box(&self) -> (r: Option<&BoundingBox>)
        ensures
            r is Some <==> self.bounding_box is Some,
            r is Some ==> *r->Some_0 == self.bounding_box->Some_0,
    {
        self.bounding_box.as_ref()
    }
}

/// A flattened, render-ready node: its identity in the source document,
/// its resolved world transform, and the mesh it references, if any.
pub struct Node {
    pub node_index: usize,
    pub transform: Mat4,
    pub mesh_index: Option<usize>,
}

/// The mathematical model of a flattened node.
pub struct NodeModel {
    pub node_index: usize,
    pub transform: Seq<i64>,
    pub mesh_index: Option<usize>,
}

impl View for Node {
    type V = NodeModel;

    open spec fn view(&self) -> NodeModel {
        NodeModel {
            node_index: self.node_index,
            transform: self.transform@,
            mesh_index: self.mesh_index,
        }
    }
}

/// The models of a list of flattened nodes.
pub open spec fn node_views(s: Seq<Node>) -> Seq<NodeModel> {
    s.map_values(|n: Node| n@)
}

/// The depth-first pre-order flattening of one subtree: the node itself,
/// with world transform `parent * local`, followed by its children's
/// subtrees in document order, each flattened under that world transform.
pub open spec fn flatten_node_spec(node: NodeRecord, parent: Seq<i64>) -> Seq<NodeModel>
    decreases node,
{
    let world = mat_mul(parent, node.local_transform@);
    seq![
        NodeModel {
            node_index: node.node_index,
            transform: world,
            mesh_index: node.mesh_index,
        },
    ] + flatten_forest_spec(node.children@, world)
}

/// The flattening of a forest: each root's subtree in order.
pub open spec fn flatten_forest_spec(nodes: Seq<NodeRecord>, parent: Seq<i64>) -> Seq<NodeModel>
    decreases nodes,
{
    if nodes.len() == 0 {
        Seq::empty()
    } else {
        flatten_node_spec(nodes[0], parent) + flatten_forest_spec(nodes.drop_first(), parent)
    }
}

/// Every flattened world transform accumulates exactly one composition
/// per tree level: the subtree of `node` under an incoming transform
/// `parent` starts with `node` itself carrying `parent * local`, and the
/// rest is its children's forest flattened under that same product.  A
/// root is flattened under the identity, so its world transform is its
/// local transform composed onto the identity.
pub proof fn lemma_flatten_world_transform(node: NodeRecord, parent: Seq<i64>)
    ensures
        flatten_node_spec(node, parent).len() >= 1,
        flatten_node_spec(node, parent)[0] == (NodeModel {
            node_index: node.node_index,
            transform: mat_mul(parent, node.local_transform@),
            mesh_index: node.mesh_index,
        }),
        flatten_node_spec(node, parent).skip(1) == flatten_forest_spec(
            node.children@,
            mat_mul(parent, node.local_transform@),
        ),
{
    let world = mat_mul(parent, node.local_transform@);
    let head = seq![
        NodeModel { node_index: node.node_index, transform: world, mesh_index: node.mesh_index },
    ];
    assert((head + flatten_forest_spec(node.children@, world)).skip(1) =~= flatten_forest_spec(
        node.children@,
        world,
    ));
}

/// A node without a parent is flattened under the identity, so its world
/// transform is exactly its local transform.
pub proof fn lemma_root_world_is_local(node: NodeRecord)
    requires
        node.wf(),
    ensures
        flatten_node_spec(node, mat_identity())[0].transform == node.local_transform@,
{
    lemma_flatten_world_transform(node, mat_identity());
    crate::mat::lemma_mat_mul_identity_left(node.local_transform@);
}

/// Appending one more root to a forest appends its flattened subtree.
proof fn lemma_forest_push(nodes: Seq<NodeRecord>, x: NodeRecord, parent: Seq<i64>)
    ensures
        flatten_forest_spec(nodes.push(x), parent) == flatten_forest_spec(nodes, parent)
            + flatten_node_spec(x, parent),
    decreases nodes.len(),
{
    if nodes.len() == 0 {
        assert(nodes.push(x)[0] == x);
        assert(nodes.push(x).drop_first() =~= Seq::<NodeRecord>::empty());
        assert(flatten_forest_spec(Seq::<NodeRecord>::empty(), parent) == Seq::<
            NodeModel,
        >::empty());
        assert(nodes =~= Seq::<NodeRecord>::empty());
        assert(flatten_node_spec(x, parent) + Seq::<NodeModel>::empty() =~= flatten_node_spec(
            x,
            parent,
        ));
        assert(Seq::<NodeModel>::empty() + flatten_node_spec(x, parent) =~= flatten_node_spec(
            x,
            parent,
        ));
    } else {
        lemma_forest_push(nodes.drop_first(), x, parent);
        assert(nodes.push(x).drop_first() =~= nodes.drop_first().push(x));
        assert(nodes.push(x)[0] == nodes[0]);
        assert(flatten_node_spec(nodes[0], parent) + (flatten_forest_spec(
            nodes.drop_first(),
            parent,
        ) + flatten_node_spec(x, parent)) =~= (flatten_node_spec(nodes[0], parent)
            + flatten_forest_spec(nodes.drop_first(), parent)) + flatten_node_spec(x, parent));
    }
}

impl Node {
    /// Scene graph flattener: emits the forest of root nodes in
    /// depth-first pre-order, every node carrying its resolved world
    /// transform, starting from the identity.
    pub fn flatten_nodes(roots: &Vec<NodeRecord>) -> (r: Vec<Node>)
        requires
            crate::document::forest_wf(roots@),
        ensures
            node_views(r@) == flatten_forest_spec(roots@, mat_identity()),
            forall|j: int| 0 <= j < r@.len() ==> (#[trigger] r@[j]).transform.wf(),
    {
        let identity = Mat4::identity();
        let mut out: Vec<Node> = Vec::new();
        proof {
            assert(node_views(out@) =~= flatten_forest_spec(roots@.take(0), identity@));
        }
        let mut i: usize = 0;
        while i < roots.len()
            invariant
                i <= roots@.len(),
                identity@ == mat_identity(),
                identity.wf(),
                crate::document::forest_wf(roots@),
                node_views(out@) == flatten_forest_spec(roots@.take(i as int), identity@),
                forall|j: int| 0 <= j < out@.len() ==> (#[trigger] out@[j]).transform.wf(),
            decreases roots@.len() - i,
        {
            proof {
                assert(roots@[i as int].wf());
            }
            let mut sub = Node::flatten(&roots[i], &identity);
            let ghost subv = sub@;
            let ghost prev = out@;
            out.append(&mut sub);
            proof {
                lemma_forest_push(roots@.take(i as int), roots@[i as int], identity@);
                assert(roots@.take(i + 1) =~= roots@.take(i as int).push(roots@[i as int]));
                assert(node_views(out@) =~= node_views(prev) + node_views(subv));
            }
            i += 1;
        }
        proof {
            assert(roots@.take(roots@.len() as int) =~= roots@);
        }
        out
    }

    /// Flattens one subtree under an accumulated parent transform.
    fn flatten(node: &NodeRecord, transform: &Mat4) -> (r: Vec<Node>)
        requires
            node.wf(),
            transform.wf(),
        ensures
            node_views(r@) == flatten_node_spec(*node, transform@),
            forall|j: int| 0 <= j < r@.len() ==> (#[trigger] r@[j]).transform.wf(),
        decreases *node,
    {
        let world = transform.compose(&node.local_transform);
        let ghost head = seq![
            NodeModel {
                node_index: node.node_index,
                transform: world@,
                mesh_index: node.mesh_index,
            },
        ];
        let mut out: Vec<Node> = Vec::new();
        out.push(Node { node_index: node.node_index, transform: world, mesh_index: node.mesh_index });
        proof {
            assert(node_views(out@) =~= head + flatten_forest_spec(
                node.children@.take(0),
                world@,
            ));
        }
        let mut i: usize = 0;
        while i < node.children.len()
            invariant
                i <= node.children@.len(),
                node.wf(),
                world.wf(),
                world@ == mat_mul(transform@, node.local_transform@),
                head == seq![
                    NodeModel {
                        node_index: node.node_index,
                        transform: world@,
                        mesh_index: node.mesh_index,
                    },
                ],
                node_views(out@) == head + flatten_forest_spec(
                    node.children@.take(i as int),
                    world@,
                ),
                forall|j: int| 0 <= j < out@.len() ==> (#[trigger] out@[j]).transform.wf(),
            decreases node.children@.len() - i,
        {
            proof {
                assert(node.children@[i as int].wf());
                assert(decreases_to!(*node => node.children@[i as int]));
            }
            let mut sub = Node::flatten(&node.children[i], &world);
            let ghost subv = sub@;
            let ghost prev = out@;
            out.append(&mut sub);
            proof {
                lemma_forest_push(node.children@.take(i as int), node.children@[i as int], world@);
                assert(node.children@.take(i + 1) =~= node.children@.take(i as int).push(
                    node.children@[i as int],
                ));
                assert(node_views(out@) =~= node_views(prev) + node_views(subv));
                assert((head + flatten_forest_spec(node.children@.take(i as int), world@))
                    + flatten_node_spec(node.children@[i as int], world@) =~= head + (
                flatten_forest_spec(node.children@.take(i as int), world@) + flatten_node_spec(
                    node.children@[i as int],
                    world@,
                )));
            }
            i += 1;
        }
        proof {
            assert(node.children@.take(node.children@.len() as int) =~= node.children@);
        }
        out
    }

    /// The mesh this node references, if any.
    pub fn mesh_index(&self) -> (r: Option<usize>)
        ensures
            r == self.mesh_index,
    {
        self.mesh_index
    }

    /// The node's identity: its index in the source document.
    pub fn node_index(&self) -> (r: usize)
        ensures
            r == self.node_index,
    {
        self.node_index
    }

    /// The node's resolved world transform.
    pub fn transform(&self) -> (r: &Mat4)
        ensures
            *r == self.transform,
    {
        &self.transform
    }
}

/// The translation column of a column-major transform.
pub open spec fn translation_of(m: Seq<i64>) -> Vec3 {
    Vec3 { x: m[12], y: m[13], z: m[14] }
}

/// The first camera found in one subtree, searching pre-order: the node
/// itself, then its children's subtrees in document order.  The position
/// is the translation part of the camera node's local transform.
pub open spec fn find_camera_node(node: NodeRecord) -> Option<Vec3>
    decreases node,
{
    if node.has_camera {
        Some(translation_of(node.local_transform@))
    } else {
        find_camera_forest(node.children@)
    }
}

/// The first camera found in a forest, searching roots in order.
pub open spec fn find_camera_forest(nodes: Seq<NodeRecord>) -> Option<Vec3>
    decreases nodes,
{
    if nodes.len() == 0 {
        None
    } else {
        match find_camera_node(nodes[0]) {
            Some(c) => Some(c),
            None => find_camera_forest(nodes.drop_first()),
        }
    }
}

fn camera_search_node(node: &NodeRecord) -> (r: Option<Vec3>)
    ensures
        r == find_camera_node(*node),
    decreases *node,
{
    if node.has_camera {
        return Some(Vec3::new(
            node.local_transform.m[12],
            node.local_transform.m[13],
            node.local_transform.m[14],
        ));
    }
    proof {
        assert(node.children@.skip(0) =~= node.children@);
    }
    let mut i: usize = 0;
    while i < node.children.len()
        invariant
            i <= node.children@.len(),
            !node.has_camera,
            find_camera_forest(node.children@) == find_camera_forest(
                node.children@.skip(i as int),
            ),
        decreases node.children@.len() - i,
    {
        proof {
            assert(node.children@.skip(i as int)[0] == node.children@[i as int]);
            assert(node.children@.skip(i as int).drop_first() =~= node.children@.skip(i + 1));
            assert(decreases_to!(*node => node.children@[i as int]));
        }
        if let Some(c) = camera_search_node(&node.children[i]) {
            return Some(c);
        }
        i += 1;
    }
    proof {
        assert(node.children@.skip(node.children@.len() as int) =~= Seq::<NodeRecord>::empty());
    }
    None
}

/// The camera extracted from the scene, when some node declares one.
pub struct Camera {
    pub position: Vec3,
}

impl Camera {
    /// Camera extractor: takes the first node in traversal order that
    /// declares a camera, and records the translation part of that
    /// node's local transform as the camera position.
    pub fn new(roots: &Vec<NodeRecord>) -> (r: Option<Camera>)
        ensures
            r is Some <==> find_camera_forest(roots@) is Some,
            r is Some ==> r->Some_0.position == find_camera_forest(roots@)->Some_0,
    {
        proof {
            assert(roots@.skip(0) =~= roots@);
        }
        let mut i: usize = 0;
        while i < roots.len()
            invariant
                i <= roots@.len(),
                find_camera_forest(roots@) == find_camera_forest(roots@.skip(i as int)),
            decreases roots@.len() - i,
        {
            proof {
                assert(roots@.skip(i as int)[0] == roots@[i as int]);
                assert(roots@.skip(i as int).drop_first() =~= roots@.skip(i + 1));
            }
            if let Some(position) = camera_search_node(&roots[i]) {
                return Some(Camera { position });
            }
            i += 1;
        }
        proof {
            assert(roots@.skip(roots@.len() as int) =~= Seq::<NodeRecord>::empty());
        }
        None
    }

    /// The camera's position.
    pub fn position(&self) -> (r: &Vec3)
        ensures
            *r == self.position,
    {
        &self.position
    }
}

/// The first mesh in the table whose identity is `mesh_index`.
pub open spec fn mesh_lookup_spec(meshes: Seq<Mesh>, mesh_index: usize) -> Option<Mesh>
    decreases meshes.len(),
{
    if meshes.len() == 0 {
        None
    } else if meshes[0].mesh_index == mesh_index {
        Some(meshes[0])
    } else {
        mesh_lookup_spec(meshes.drop_first(), mesh_index)
    }
}

/// A successful lookup returns an element of the table.
proof fn lemma_lookup_is_element(meshes: Seq<Mesh>, mesh_index: usize)
    requires
        mesh_lookup_spec(meshes, mesh_index) is Some,
    ensures
        exists|j: int|
            0 <= j < meshes.len() && meshes[j] == mesh_lookup_spec(meshes, mesh_index)->Some_0,
    decreases meshes.len(),
{
    if meshes.len() > 0 && meshes[0].mesh_index != mesh_index {
        lemma_lookup_is_element(meshes.drop_first(), mesh_index);
        let j = choose|j: int|
            0 <= j < meshes.drop_first().len() && meshes.drop_first()[j] == mesh_lookup_spec(
                meshes.drop_first(),
                mesh_index,
            )->Some_0;
        assert(meshes[j + 1] == meshes.drop_first()[j]);
    }
}

/// Mesh-table lookup is a function of the mesh identity alone: any two
/// nodes that reference the same mesh identity resolve to the very same
/// table entry — geometry is shared, never duplicated per node.
pub proof fn lemma_mesh_lookup_shared(meshes: Seq<Mesh>, a: Node, b: Node)
    requires
        a.mesh_index is Some,
        a.mesh_index == b.mesh_index,
    ensures
        mesh_lookup_spec(meshes, a.mesh_index->Some_0) == mesh_lookup_spec(
            meshes,
            b.mesh_index->Some_0,
        ),
{
}

/// What one node adds to the scene bound: its mesh's bounding box carried
/// into world space by the node's world transform; nothing when the node
/// has no mesh, the identity is unknown, or the mesh has no box.
pub open spec fn node_contribution(meshes: Seq<Mesh>, n: Node) -> Option<BoundingBox> {
    match n.mesh_index {
        Some(mesh_index) => match mesh_lookup_spec(meshes, mesh_index) {
            Some(mesh) => match mesh.bounding_box {
                Some(bb) => Some(transform_spec(bb, n.transform@)),
                None => None,
            },
            None => None,
        },
        None => None,
    }
}

/// The merged scene bound: every node's contribution folded with `merge`
/// in node order; `None` when no node contributes geometry.
pub open spec fn scene_bbox_spec(meshes: Seq<Mesh>, nodes: Seq<Node>) -> Option<BoundingBox>
    decreases nodes.len(),
{
    if nodes.len() == 0 {
        None
    } else {
        let rest = scene_bbox_spec(meshes, nodes.drop_last());
        match node_contribution(meshes, nodes.last()) {
            None => rest,
            Some(t) => match rest {
                None => Some(t),
                Some(acc) => Some(merge_spec(acc, t)),
            },
        }
    }
}

/// The loaded scene asset: flattened meshes, flattened nodes, the
/// optional camera, and the merged scene bound.
pub struct Model {
    pub meshes: Vec<Mesh>,
    pub nodes: Vec<Node>,
    pub camera: Option<Camera>,
    pub bounding_box: Option<BoundingBox>,
}

/// The invariants a loaded model keeps: every mesh and every node world
/// transform is well formed, and so is the merged bound when present.
pub open spec fn model_wf(m: Model) -> bool {
    &&& forall|i: int| 0 <= i < m.meshes@.len() ==> (#[trigger] m.meshes@[i]).wf()
    &&& forall|j: int| 0 <= j < m.nodes@.len() ==> (#[trigger] m.nodes@[j]).transform.wf()
    &&& m.bounding_box is Some ==> m.bounding_box->Some_0.wf()
}

/// What loading builds from a well-formed document.
pub open spec fn model_matches_document(m: Model, document: SceneDocument) -> bool {
    &&& m.meshes@.len() == document.meshes@.len()
    &&& forall|i: int|
        0 <= i < document.meshes@.len() ==> mesh_matches_record(
            #[trigger] m.meshes@[i],
            i,
            document.meshes@[i],
        )
    &&& node_views(m.nodes@) == (match document.default_scene {
        Some(roots) => flatten_forest_spec(roots@, mat_identity()),
        None => Seq::<NodeModel>::empty(),
    })
    &&& (m.camera is Some <==> (document.default_scene is Some && find_camera_forest(
        document.default_scene->Some_0@,
    ) is Some))
    &&& m.camera is Some ==> m.camera->Some_0.position == find_camera_forest(
        document.default_scene->Some_0@,
    )->Some_0
    &&& m.bounding_box == scene_bbox_spec(m.meshes@, m.nodes@)
}

impl Model {
    /// Builds the scene asset from an already well-formed document: mesh
    /// table, flattened node list, camera, and merged scene bound.
    pub fn new(document: &SceneDocument) -> (m: Model)
        requires
            document.wf(),
        ensures
            model_matches_document(m, *document),
            model_wf(m),
    {
        let mut meshes: Vec<Mesh> = Vec::new();
        let mut i: usize = 0;
        while i < document.meshes.len()
            invariant
                i <= document.meshes@.len(),
                document.wf(),
                meshes@.len() == i,
                forall|j: int|
                    0 <= j < i ==> mesh_matches_record(
                        #[trigger] meshes@[j],
                        j,
                        document.meshes@[j],
                    ),
                forall|j: int| 0 <= j < i ==> (#[trigger] meshes@[j]).wf(),
            decreases document.meshes@.len() - i,
        {
            let mesh = Mesh::new(i, &document.meshes[i]);
            meshes.push(mesh);
            i += 1;
        }
        let nodes = match &document.default_scene {
            Some(roots) => Node::flatten_nodes(roots),
            None => Vec::new(),
        };
        proof {
            if document.default_scene is None {
                assert(node_views(nodes@) =~= Seq::<NodeModel>::empty());
            }
        }
        let camera = match &document.default_scene {
            Some(roots) => Camera::new(roots),
            None => None,
        };
        let bounding_box = Self::calculate_bounding_box(&meshes, &nodes);
        Model { meshes, nodes, camera, bounding_box }
    }

    /// Loads a document, rejecting one that is not well formed; the
    /// runtime check mirrors `SceneDocument::wf` exactly.
    pub fn load(document: &SceneDocument) -> (r: Option<Model>)
        ensures
            r is Some <==> document.wf(),
            r is Some ==> model_matches_document(r->Some_0, *document) && model_wf(r->Some_0),
    {
        if document.check_wf() {
            Some(Self::new(document))
        } else {
            None
        }
    }

    /// Folds every node's transformed mesh bound into the scene bound.
    fn calculate_bounding_box(meshes: &Vec<Mesh>, nodes: &Vec<Node>) -> (r: Option<BoundingBox>)
        requires
            forall|i: int| 0 <= i < meshes@.len() ==> (#[trigger] meshes@[i]).wf(),
            forall|j: int| 0 <= j < nodes@.len() ==> (#[trigger] nodes@[j]).transform.wf(),
        ensures
            r == scene_bbox_spec(meshes@, nodes@),
            r is Some ==> r->Some_0.wf(),
    {
        let mut bounding_box: Option<BoundingBox> = None;
        let mut i: usize = 0;
        while i < nodes.len()
            invariant
                i <= nodes@.len(),
                forall|k: int| 0 <= k < meshes@.len() ==> (#[trigger] meshes@[k]).wf(),
                forall|j: int| 0 <= j < nodes@.len() ==> (#[trigger] nodes@[j]).transform.wf(),
                bounding_box == scene_bbox_spec(meshes@, nodes@.take(i as int)),
                bounding_box is Some ==> bounding_box->Some_0.wf(),
            decreases nodes@.len() - i,
        {
            proof {
                assert(nodes@.take(i + 1).drop_last() =~= nodes@.take(i as int));
                assert(nodes@.take(i + 1).last() == nodes@[i as int]);
            }
            let node = &nodes[i];
            if let Some(mesh_index) = node.mesh_index {
                if let Some(mesh) = Self::lookup_mesh(meshes, mesh_index) {
                    proof {
                        lemma_lookup_is_element(meshes@, mesh_index);
                    }
                    if let Some(mesh_box) = &mesh.bounding_box {
                        let transformed = mesh_box.transform(&node.transform);
                        bounding_box = match &bounding_box {
                            None => Some(transformed),
                            Some(acc) => Some(BoundingBox::merge(acc, &transformed)),
                        };
                    }
                }
            }
            i += 1;
        }
        proof {
            assert(nodes@.take(nodes@.len() as int) =~= nodes@);
        }
        bounding_box
    }

    /// Looks a mesh up by its identity; every caller that hands in the
    /// same identity is handed the same table entry.
    fn lookup_mesh(meshes: &Vec<Mesh>, mesh_index: usize) -> (r: Option<&Mesh>)
        ensures
            r is Some <==> mesh_lookup_spec(meshes@, mesh_index) is Some,
            r is Some ==> *r->Some_0 == mesh_lookup_spec(meshes@, mesh_index)->Some_0,
    {
        proof {
            assert(meshes@.skip(0) =~= meshes@);
        }
        let mut i: usize = 0;
        while i < meshes.len()
            invariant
                i <= meshes@.len(),
                mesh_lookup_spec(meshes@, mesh_index) == mesh_lookup_spec(
                    meshes@.skip(i as int),
                    mesh_index,
                ),
            decreases meshes@.len() - i,
        {
            proof {
                assert(meshes@.skip(i as int)[0] == meshes@[i as int]);
                assert(meshes@.skip(i as int).drop_first() =~= meshes@.skip(i + 1));
            }
            if meshes[i].mesh_index == mesh_index {
                return Some(&meshes[i]);
            }
            i += 1;
        }
        proof {
            assert(meshes@.skip(meshes@.len() as int) =~= Seq::<Mesh>::empty());
        }
        None
    }

    /// Looks a mesh of this model up by its identity.
    pub fn mesh_by_index(&self, mesh_index: usize) -> (r: Option<&Mesh>)
        ensures
            r is Some <==> mesh_lookup_spec(self.meshes@, mesh_index) is Some,
            r is Some ==> *r->Some_0 == mesh_lookup_spec(self.meshes@, mesh_index)->Some_0,
    {
        Self::lookup_mesh(&self.meshes, mesh_index)
    }

    /// The flattened mesh table.
    pub fn meshes(&self) -> (r: &Vec<Mesh>)
        ensures
            r@ == self.meshes@,
    {
        &self.meshes
    }

    /// The flattened node list, in depth-first pre-order.
    pub fn nodes(&self) -> (r: &Vec<Node>)
        ensures
            r@ == self.nodes@,
    {
        &self.nodes
    }

    /// The extracted camera, when the scene declares one.
    pub fn camera(&self) -> (r: Option<&Camera>)
        ensures
            r is Some <==> self.camera is Some,
            r is Some ==> *r->Some_0 == self.camera->Some_0,
    {
        self.camera.as_ref()
    }

    /// The merged scene bound, absent when no node contributes geometry.
    pub fn bounding_box(&self) -> (r: Option<&BoundingBox>)
        ensures
            r is Some <==> self.bounding_box is Some,
            r is Some ==> *r->Some_0 == self.bounding_box->Some_0,
    {
        self.bounding_box.as_ref()
    }
}

} // verus!
