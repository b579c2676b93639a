//! Frame planning: the two-pass frame structure, the per-object uniform
//! layout, and the camera framing derived from the scene bound.
//!
//! A GPU backend executes a `FramePlan` verbatim each tick: first the sky
//! pass, which clears the offscreen color and depth targets and draws the
//! sky cube, then the mesh pass, which loads the color target, resolves it
//! into the surface's presentable texture, clears depth again, and issues
//! one indexed draw per flattened node that references a mesh.

use vstd::prelude::*;

use crate::asset::{mesh_lookup_spec, Mesh, Model, Node};
use crate::bbox::BoundingBox;
use crate::fx::{div_trunc, div_trunc_by, fx_clamp, fx_clamp_exec, FX_SCALE};
use crate::mat::Vec3;

verus! {

/// Samples per pixel of the offscreen color and depth targets.
pub const SAMPLE_COUNT: u32 = 4;

/// Bytes of one 4x4 single-precision matrix on the GPU.
pub const MAT4_BYTES: usize = 64;

/// Stride between per-object uniform blocks: one matrix over-padded to
/// four times its natural size, a conservative multiple of the minimum
/// uniform-binding alignment.
pub const OBJECT_UNIFORM_STRIDE: usize = 256;

/// Bytes of the sky pass's uniform block: one projection-view matrix.
pub const SKY_UNIFORM_BYTES: usize = 64;

/// Bytes of the mesh pass's scene uniform block: one projection-view
/// matrix plus the camera's world position.
pub const SCENE_UNIFORM_BYTES: usize = 80;

/// How a pass treats an attachment's previous contents when it begins.
#[derive(Clone, Copy, Debug, PartialEq, Eq, Structural)]
pub enum LoadOp {
    Clear,
    Load,
}

/// Whether a pass keeps an attachment's contents when it ends.
#[derive(Clone, Copy, Debug, PartialEq, Eq, Structural)]
pub enum StoreOp {
    Store,
    Discard,
}

/// One indexed draw of the mesh pass.
#[derive(Clone, Copy, Debug, PartialEq, Eq, Structural)]
pub struct DrawCall {
    /// Position of the drawn node in the flattened node list.
    pub node_slot: usize,
    /// Identity of the mesh whose buffers are bound.
    pub mesh_index: usize,
    /// Byte offset of the node's block in the per-object uniform buffer:
    /// its slot times the aligned stride.
    pub uniform_offset: usize,
    /// Number of indices drawn from the mesh's merged index buffer.
    pub index_count: usize,
}

/// The draws of the mesh pass: one per node that references a mesh of
/// the table, in flattened node order; nodes without a mesh, or whose
/// mesh identity is unknown to the table, are passed over.
pub open spec fn draw_calls_spec(meshes: Seq<Mesh>, nodes: Seq<Node>) -> Seq<DrawCall>
    decreases nodes.len(),
{
    if nodes.len() == 0 {
        Seq::empty()
    } else {
        let front = draw_calls_spec(meshes, nodes.drop_last());
        let slot = nodes.len() - 1;
        match nodes.last().mesh_index {
            Some(mesh_index) => match mesh_lookup_spec(meshes, mesh_index) {
                Some(mesh) => front.push(
                    DrawCall {
                        node_slot: slot as usize,
                        mesh_index,
                        uniform_offset: (slot * OBJECT_UNIFORM_STRIDE) as usize,
                        index_count: mesh.indices@.len() as usize,
                    },
                ),
                None => front,
            },
            None => front,
        }
    }
}

/// One render pass of the frame: its attachment operations and draws.
pub struct PassPlan {
    pub color_load: LoadOp,
    pub color_store: StoreOp,
    /// Whether the pass resolves the multisampled color target into the
    /// surface's presentable texture.
    pub resolves_to_surface: bool,
    pub depth_load: LoadOp,
    pub depth_store: StoreOp,
    /// The indexed draws the pass issues over the flattened node list;
    /// the sky pass draws only its own cube and carries none.
    pub draws: Vec<DrawCall>,
}

/// One frame: the sky pass, then the mesh pass, in that order.
pub struct FramePlan {
    pub sky: PassPlan,
    pub mesh: PassPlan,
}

/// Byte offset of one node's per-object uniform block.
pub fn object_uniform_offset(node_slot: usize) -> (r: usize)
    requires
        node_slot * OBJECT_UNIFORM_STRIDE <= usize::MAX,
    ensures
        r == node_slot * OBJECT_UNIFORM_STRIDE,
{
    node_slot * OBJECT_UNIFORM_STRIDE
}

/// Total size of the per-object uniform buffer for a node list.
pub fn object_buffer_size(node_count: usize) -> (r: usize)
    requires
        node_count * OBJECT_UNIFORM_STRIDE <= usize::MAX,
    ensures
        r == node_count * OBJECT_UNIFORM_STRIDE,
{
    node_count * OBJECT_UNIFORM_STRIDE
}

/// Builds the mesh pass's draw list for a loaded model.
pub fn mesh_pass_draws(model: &Model) -> (r: Vec<DrawCall>)
    requires
        model.nodes@.len() * OBJECT_UNIFORM_STRIDE <= usize::MAX,
    ensures
        r@ == draw_calls_spec(model.meshes@, model.nodes@),
{
    let mut out: Vec<DrawCall> = Vec::new();
    proof {
        assert(model.nodes@.take(0) =~= Seq::<Node>::empty());
    }
    let mut i: usize = 0;
    while i < model.nodes.len()
        invariant
            i <= model.nodes@.len(),
            model.nodes@.len() * OBJECT_UNIFORM_STRIDE <= usize::MAX,
            out@ == draw_calls_spec(model.meshes@, model.nodes@.take(i as int)),
        decreases model.nodes@.len() - i,
    {
        proof {
            assert(model.nodes@.take(i + 1).drop_last() =~= model.nodes@.take(i as int));
            assert(model.nodes@.take(i + 1).last() == model.nodes@[i as int]);
        }
        let node = &model.nodes[i];
        if let Some(mesh_index) = node.mesh_index {
            if let Some(mesh) = model.mesh_by_index(mesh_index) {
                let index_count = mesh.indices().len();
                out.push(
                    DrawCall {
                        node_slot: i,
                        mesh_index,
                        uniform_offset: i * OBJECT_UNIFORM_STRIDE,
                        index_count,
                    },
                );
            }
        }
        i += 1;
    }
    proof {
        assert(model.nodes@.take(model.nodes@.len() as int) =~= model.nodes@);
    }
    out
}

/// Plans one frame over a loaded model.
///
/// The sky pass clears both offscreen targets and keeps them; the mesh
/// pass loads the color already drawn, resolves it into the surface's
/// presentable texture and discards the multisampled copy, clears depth
/// afresh rather than reusing the sky pass's depth, and issues one
/// indexed draw per node with a known mesh.
pub fn frame_plan(model: &Model) -> (r: FramePlan)
    requires
        model.nodes@.len() * OBJECT_UNIFORM_STRIDE <= usize::MAX,
    ensures
        r.sky.color_load == LoadOp::Clear,
        r.sky.color_store == StoreOp::Store,
        !r.sky.resolves_to_surface,
        r.sky.depth_load == LoadOp::Clear,
        r.sky.depth_store == StoreOp::Store,
        r.sky.draws@.len() == 0,
        r.mesh.color_load == LoadOp::Load,
        r.mesh.color_store == StoreOp::Discard,
        r.mesh.resolves_to_surface,
        r.mesh.depth_load == LoadOp::Clear,
        r.mesh.depth_store == StoreOp::Store,
        r.mesh.draws@ == draw_calls_spec(model.meshes@, model.nodes@),
{
    let sky = PassPlan {
        color_load: LoadOp::Clear,
        color_store: StoreOp::Store,
        resolves_to_surface: false,
        depth_load: LoadOp::Clear,
        depth_store: StoreOp::Store,
        draws: Vec::new(),
    };
    let mesh = PassPlan {
        color_load: LoadOp::Load,
        color_store: StoreOp::Discard,
        resolves_to_surface: true,
        depth_load: LoadOp::Clear,
        depth_store: StoreOp::Store,
        draws: mesh_pass_draws(model),
    };
    FramePlan { sky, mesh }
}

/// The camera framing before the orbit rotation is applied, derived from
/// the merged scene bound: the look-at target is the bound's center; the
/// eye stands level with the center in x, halfway between the center and
/// the bound's top in y, and three box-depths back in z.  Without a
/// scene bound a fixed fallback framing is used.  Divisions round toward
/// zero and the eye's depth is clamped into the coordinate range.
pub open spec fn camera_frame_spec(bounding_box: Option<BoundingBox>) -> (Vec3, Vec3) {
    match bounding_box {
        Some(bb) => {
            let center = Vec3 {
                x: div_trunc(bb.min.x + bb.max.x, 2) as i64,
                y: div_trunc(bb.min.y + bb.max.y, 2) as i64,
                z: div_trunc(bb.min.z + bb.max.z, 2) as i64,
            };
            let eye = Vec3 {
                x: center.x,
                y: div_trunc(center.y + bb.max.y, 2) as i64,
                z: fx_clamp(3 * bb.min.z),
            };
            (center, eye)
        },
        None => (
            Vec3 { x: 0, y: 0, z: 0 },
            Vec3 { x: (FX_SCALE / 4) as i64, y: 0, z: 0 },
        ),
    }
}

/// Computes the camera framing: the look-at target and the unrotated eye
/// point, which a backend rotates by the current view orientation before
/// building its look-at matrix.
pub fn camera_frame(bounding_box: Option<&BoundingBox>) -> (r: (Vec3, Vec3))
    requires
        bounding_box is Some ==> bounding_box->Some_0.wf(),
    ensures
        bounding_box is Some ==> r == camera_frame_spec(Some(*bounding_box->Some_0)),
        bounding_box is None ==> r == camera_frame_spec(None),
{
    match bounding_box {
        Some(bb) => {
            let center = Vec3 {
                x: div_trunc_by(bb.min.x + bb.max.x, 2),
                y: div_trunc_by(bb.min.y + bb.max.y, 2),
                z: div_trunc_by(bb.min.z + bb.max.z, 2),
            };
            let eye_y = div_trunc_by(center.y + bb.max.y, 2);
            let eye_z = fx_clamp_exec(3 * (bb.min.z as i128));
            let eye = Vec3 { x: center.x, y: eye_y, z: eye_z };
            (center, eye)
        },
        None => (Vec3 { x: 0, y: 0, z: 0 }, Vec3 { x: 16384, y: 0, z: 0 }),
    }
}

} // verus!
