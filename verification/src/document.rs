//! The plain-value scene document handed to the loader.
//!
//! A `SceneDocument` is the already-decoded form of an interchange asset:
//! a tree of nodes with fixed-point local transforms, and per-mesh
//! primitive records whose attribute streams may individually be absent.
//! This module also defines, as specification functions, the flattened
//! content every mesh record denotes: which primitives survive extraction,
//! and the merged position / index / normal streams with re-based indices.

use vstd::prelude::*;

use crate::bbox::{merge_spec, BoundingBox};
use crate::mat::{mat_wf, Mat4};

verus! {

/// One primitive of a source mesh: its attribute streams, each possibly
/// absent, and its authored axis-aligned bounding box.
pub struct PrimitiveRecord {
    /// Flattened `x, y, z` position stream.
    pub positions: Option<Vec<i64>>,
    /// Triangle indices into the position triples.
    pub indices: Option<Vec<u32>>,
    /// Flattened `x, y, z` normal stream, one normal per position.
    pub normals: Option<Vec<i64>>,
    /// The authored bounds of the position stream.
    pub bounding_box: BoundingBox,
}

impl PrimitiveRecord {
    /// All three required attribute streams are present; a primitive
    /// missing any of them is dropped by extraction.
    pub open spec fn usable(&self) -> bool {
        &&& self.positions is Some
        &&& self.indices is Some
        &&& self.normals is Some
    }

    /// A usable primitive is internally consistent: whole position
    /// triples, one normal coordinate per position coordinate, whole
    /// triangles, every index addressing a position triple, and a
    /// bounding box within the stored coordinate range.
    pub open spec fn wf(&self) -> bool {
        self.usable() ==> {
            &&& self.positions->Some_0@.len() % 3 == 0
            &&& self.normals->Some_0@.len() == self.positions->Some_0@.len()
            &&& self.indices->Some_0@.len() % 3 == 0
            &&& forall|k: int|
                0 <= k < self.indices->Some_0@.len() ==> (#[trigger] self.indices->Some_0@[k])
                    < self.positions->Some_0@.len() / 3
            &&& self.bounding_box.wf()
        }
    }
}

/// The extracted form of one usable primitive.
pub struct AccessorModel {
    pub positions: Seq<i64>,
    pub indices: Seq<u32>,
    pub normals: Seq<i64>,
    pub bounding_box: BoundingBox,
}

impl AccessorModel {
    /// The consistency carried over from a well-formed usable primitive.
    pub open spec fn wf(&self) -> bool {
        &&& self.positions.len() % 3 == 0
        &&& self.normals.len() == self.positions.len()
        &&& self.indices.len() % 3 == 0
        &&& forall|k: int|
            0 <= k < self.indices.len() ==> (#[trigger] self.indices[k]) < self.positions.len() as int / 3
        &&& self.bounding_box.wf()
    }

    /// Number of position triples this primitive contributes.
    pub open spec fn vertex_count(&self) -> int {
        self.positions.len() as int / 3
    }
}

/// The extraction of one primitive, when it is usable.
pub open spec fn accessor_of(p: PrimitiveRecord) -> AccessorModel {
    AccessorModel {
        positions: p.positions->Some_0@,
        indices: p.indices->Some_0@,
        normals: p.normals->Some_0@,
        bounding_box: p.bounding_box,
    }
}

/// The usable primitives of a mesh, extracted in document order.
pub open spec fn accessors_spec(prims: Seq<PrimitiveRecord>) -> Seq<AccessorModel>
    decreases prims.len(),
{
    if prims.len() == 0 {
        Seq::empty()
    } else if prims.last().usable() {
        accessors_spec(prims.drop_last()).push(accessor_of(prims.last()))
    } else {
        accessors_spec(prims.drop_last())
    }
}

/// Total number of position triples contributed by the accessors.
pub open spec fn flat_vcount(accs: Seq<AccessorModel>) -> int
    decreases accs.len(),
{
    if accs.len() == 0 {
        0
    } else {
        flat_vcount(accs.drop_last()) + accs.last().vertex_count()
    }
}

/// The merged position stream: the accessors' streams appended in order.
pub open spec fn flat_positions(accs: Seq<AccessorModel>) -> Seq<i64>
    decreases accs.len(),
{
    if accs.len() == 0 {
        Seq::empty()
    } else {
        flat_positions(accs.drop_last()) + accs.last().positions
    }
}

/// The merged normal stream: the accessors' streams appended in order.
pub open spec fn flat_normals(accs: Seq<AccessorModel>) -> Seq<i64>
    decreases accs.len(),
{
    if accs.len() == 0 {
        Seq::empty()
    } else {
        flat_normals(accs.drop_last()) + accs.last().normals
    }
}

/// The merged index stream: each accessor's indices shifted by the number
/// of position triples accumulated before it, so the merged indices
/// address the merged position stream.
pub open spec fn flat_indices(accs: Seq<AccessorModel>) -> Seq<u32>
    decreases accs.len(),
{
    if accs.len() == 0 {
        Seq::empty()
    } else {
        let offset = flat_vcount(accs.drop_last());
        flat_indices(accs.drop_last()) + accs.last().indices.map_values(
            |v: u32| ((v + offset) as u32),
        )
    }
}

/// The merged bounding box: each accessor's authored box folded in with
/// `merge`, the newest box merged onto the accumulated one; `None` when
/// no primitive survived extraction.
pub open spec fn flat_bbox(accs: Seq<AccessorModel>) -> Option<BoundingBox>
    decreases accs.len(),
{
    if accs.len() == 0 {
        None
    } else {
        match flat_bbox(accs.drop_last()) {
            None => Some(accs.last().bounding_box),
            Some(acc) => Some(merge_spec(accs.last().bounding_box, acc)),
        }
    }
}

/// One mesh of the document, as a list of primitives in document order.
pub struct MeshRecord {
    pub primitives: Vec<PrimitiveRecord>,
}

impl MeshRecord {
    /// Every primitive is well formed and the merged vertex count fits the
    /// 32-bit index type used for re-basing.
    pub open spec fn wf(&self) -> bool {
        &&& forall|i: int|
            0 <= i < self.primitives@.len() ==> (#[trigger] self.primitives@[i]).wf()
        &&& flat_vcount(accessors_spec(self.primitives@)) <= u32::MAX
    }
}

/// One node of the scene tree: its identity, fixed-point local transform,
/// optional mesh reference, camera marker, and children in document order.
pub struct NodeRecord {
    pub node_index: usize,
    pub local_transform: Mat4,
    pub mesh_index: Option<usize>,
    pub has_camera: bool,
    pub children: Vec<NodeRecord>,
}

impl NodeRecord {
    /// The local transform and, recursively, every descendant's transform
    /// lie in the stored fixed-point range.
    pub open spec fn wf(&self) -> bool
        decreases *self,
    {
        &&& mat_wf(self.local_transform@)
        &&& forall|i: int|
            0 <= i < self.children@.len() ==> (#[trigger] self.children@[i]).wf()
    }
}

/// All nodes of a forest are well formed.
pub open spec fn forest_wf(nodes: Seq<NodeRecord>) -> bool {
    forall|i: int| 0 <= i < nodes.len() ==> (#[trigger] nodes[i]).wf()
}

/// The already-decoded scene document: the root nodes of the default
/// scene, when the source declares one, and every mesh of the document.
pub struct SceneDocument {
    pub default_scene: Option<Vec<NodeRecord>>,
    pub meshes: Vec<MeshRecord>,
}

impl SceneDocument {
    /// Every mesh and every scene node is well formed.
    pub open spec fn wf(&self) -> bool {
        &&& forall|i: int| 0 <= i < self.meshes@.len() ==> (#[trigger] self.meshes@[i]).wf()
        &&& self.default_scene is Some ==> forest_wf(self.default_scene->Some_0@)
    }
}

fn check_primitive(p: &PrimitiveRecord) -> (b: bool)
    ensures
        b == p.wf(),
{
    let (positions, indices, normals) = match (&p.positions, &p.indices, &p.normals) {
        (Some(positions), Some(indices), Some(normals)) => (positions, indices, normals),
        _ => {
            return true;
        },
    };
    if positions.len() % 3 != 0 || normals.len() != positions.len() || indices.len() % 3 != 0 {
        return false;
    }
    if !p.bounding_box.min().check_wf() || !p.bounding_box.max().check_wf() {
        return false;
    }
    let vcount: usize = positions.len() / 3;
    let mut k: usize = 0;
    while k < indices.len()
        invariant
            k <= indices@.len(),
            p.usable(),
            indices@ == p.indices->Some_0@,
            positions@ == p.positions->Some_0@,
            vcount == positions@.len() / 3,
            forall|j: int| 0 <= j < k ==> (#[trigger] indices@[j]) < vcount,
        decreases indices@.len() - k,
    {
        if indices[k] as u64 >= vcount as u64 {
            return false;
        }
        k += 1;
    }
    true
}

fn check_mesh(m: &MeshRecord) -> (b: bool)
    ensures
        b == m.wf(),
{
    let mut i: usize = 0;
    let mut vcount: u64 = 0;
    while i < m.primitives.len()
        invariant
            i <= m.primitives@.len(),
            forall|j: int| 0 <= j < i ==> (#[trigger] m.primitives@[j]).wf(),
            vcount == flat_vcount(accessors_spec(m.primitives@.take(i as int))),
            vcount <= u32::MAX,
        decreases m.primitives@.len() - i,
    {
        let p = &m.primitives[i];
        if !check_primitive(p) {
            return false;
        }
        let ghost s = accessors_spec(m.primitives@.take(i as int));
        let ghost t = accessors_spec(m.primitives@.take(i + 1));
        proof {
            assert(m.primitives@.take(i + 1).drop_last() =~= m.primitives@.take(i as int));
            assert(m.primitives@.take(i + 1).last() == m.primitives@[i as int]);
        }
        if p.positions.is_some() && p.indices.is_some() && p.normals.is_some() {
            let positions = p.positions.as_ref().unwrap();
            let c: usize = positions.len() / 3;
            proof {
                assert(m.primitives@[i as int].usable());
                assert(t == s.push(accessor_of(m.primitives@[i as int])));
                assert(t.drop_last() =~= s);
                assert(flat_vcount(t) == flat_vcount(s) + c);
            }
            if c as u64 > u32::MAX as u64 - vcount {
                proof {
                    lemma_accessors_prefix_vcount(m.primitives@, i + 1);
                }
                return false;
            }
            vcount = vcount + c as u64;
        } else {
            proof {
                assert(!m.primitives@[i as int].usable());
                assert(t == s);
            }
        }
        i += 1;
    }
    proof {
        assert(m.primitives@.take(m.primitives@.len() as int) =~= m.primitives@);
    }
    true
}

/// The vertex count of a prefix never exceeds that of the whole list.
proof fn lemma_accessors_prefix_vcount(prims: Seq<PrimitiveRecord>, i: int)
    requires
        0 <= i <= prims.len(),
    ensures
        flat_vcount(accessors_spec(prims.take(i))) <= flat_vcount(accessors_spec(prims)),
    decreases prims.len() - i,
{
    if i < prims.len() {
        lemma_accessors_prefix_vcount(prims, i + 1);
        assert(prims.take(i + 1).drop_last() =~= prims.take(i));
        let s = accessors_spec(prims.take(i));
        let t = accessors_spec(prims.take(i + 1));
        if prims.take(i + 1).last().usable() {
            assert(t == s.push(accessor_of(prims.take(i + 1).last())));
            assert(t.drop_last() =~= s);
            assert(flat_vcount(t) == flat_vcount(s) + t.last().vertex_count());
        } else {
            assert(t == s);
        }
    } else {
        assert(prims.take(i) =~= prims);
    }
}

fn check_node(n: &NodeRecord) -> (b: bool)
    ensures
        b == n.wf(),
    decreases *n,
{
    if !n.local_transform.check_wf() {
        return false;
    }
    let mut i: usize = 0;
    while i < n.children.len()
        invariant
            i <= n.children@.len(),
            forall|j: int| 0 <= j < i ==> (#[trigger] n.children@[j]).wf(),
        decreases n.children@.len() - i,
    {
        if !check_node(&n.children[i]) {
            return false;
        }
        i += 1;
    }
    true
}

impl SceneDocument {
    /// Runtime check of the document invariant, so that an unverified
    /// caller can establish `wf` before loading.
    pub fn check_wf(&self) -> (b: bool)
        ensures
            b == self.wf(),
    {
        let mut i: usize = 0;
        while i < self.meshes.len()
            invariant
                i <= self.meshes@.len(),
                forall|j: int| 0 <= j < i ==> (#[trigger] self.meshes@[j]).wf(),
            decreases self.meshes@.len() - i,
        {
            if !check_mesh(&self.meshes[i]) {
                return false;
            }
            i += 1;
        }
        if let Some(roots) = &self.default_scene {
            let mut k: usize = 0;
            while k < roots.len()
                invariant
                    k <= roots@.len(),
                    self.default_scene is Some,
                    roots@ == self.default_scene->Some_0@,
                    forall|j: int| 0 <= j < k ==> (#[trigger] roots@[j]).wf(),
                decreases roots@.len() - k,
            {
                if !check_node(&roots[k]) {
                    return false;
                }
                k += 1;
            }
        }
        true
    }
}

} // verus!
