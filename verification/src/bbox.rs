//! Axis-aligned bounding boxes and their merge / transform operations.

use vstd::prelude::*;

use crate::fx::{max64, min64, max64_exec, min64_exec};
use crate::mat::{transform_point_spec, Mat4, Vec3};

verus! {

/// An axis-aligned box given by two corners.
///
/// The corners are stored exactly as authored or computed; the box carries
/// no requirement that `min` lies below `max` component-wise, matching how
/// authored corner pairs are passed through untouched.
#[derive(Clone, Copy, Debug, PartialEq, Eq, Structural)]
pub struct BoundingBox {
    pub min: Vec3,
    pub max: Vec3,
}

/// The component-wise union of two boxes.
pub open spec fn merge_spec(lhs: BoundingBox, rhs: BoundingBox) -> BoundingBox {
    BoundingBox {
        min: Vec3 {
            x: min64(lhs.min.x, rhs.min.x),
            y: min64(lhs.min.y, rhs.min.y),
            z: min64(lhs.min.z, rhs.min.z),
        },
        max: Vec3 {
            x: max64(lhs.max.x, rhs.max.x),
            y: max64(lhs.max.y, rhs.max.y),
            z: max64(lhs.max.z, rhs.max.z),
        },
    }
}

/// Both corners carried through an affine transform.
///
/// Only the two extreme corners are re-projected, not all eight implied
/// ones, so under a rotating transform the result can under-fit the true
/// extent; this mirrors the authored behaviour and is kept as is.
pub open spec fn transform_spec(b: BoundingBox, m: Seq<i64>) -> BoundingBox {
    BoundingBox { min: transform_point_spec(m, b.min), max: transform_point_spec(m, b.max) }
}

impl BoundingBox {
    /// Both corners lie in the stored fixed-point range.
    pub open spec fn wf(self) -> bool {
        self.min.wf() && self.max.wf()
    }

    pub fn new(min: Vec3, max: Vec3) -> (b: BoundingBox)
        ensures
            b == (BoundingBox { min, max }),
    {
        BoundingBox { min, max }
    }

    /// The lower corner.
    pub fn min(&self) -> (v: Vec3)
        ensures
            v == self.min,
    {
        self.min
    }

    /// The upper corner.
    pub fn max(&self) -> (v: Vec3)
        ensures
            v == self.max,
    {
        self.max
    }

    /// The component-wise union of two boxes.
    pub fn merge(lhs: &BoundingBox, rhs: &BoundingBox) -> (b: BoundingBox)
        ensures
            b == merge_spec(*lhs, *rhs),
    {
        BoundingBox {
            min: Vec3 {
                x: min64_exec(lhs.min.x, rhs.min.x),
                y: min64_exec(lhs.min.y, rhs.min.y),
                z: min64_exec(lhs.min.z, rhs.min.z),
            },
            max: Vec3 {
                x: max64_exec(lhs.max.x, rhs.max.x),
                y: max64_exec(lhs.max.y, rhs.max.y),
                z: max64_exec(lhs.max.z, rhs.max.z),
            },
        }
    }

    /// Both corners carried through an affine transform.
    pub fn transform(&self, matrix: &Mat4) -> (b: BoundingBox)
        requires
            self.wf(),
            matrix.wf(),
        ensures
            b == transform_spec(*self, matrix@),
            b.wf(),
    {
        BoundingBox {
            min: matrix.transform_point(&self.min),
            max: matrix.transform_point(&self.max),
        }
    }
}

/// Merging is commutative: the union of two boxes does not depend on the
/// order of its arguments.
pub proof fn lemma_merge_commutative(a: BoundingBox, b: BoundingBox)
    ensures
        merge_spec(a, b) == merge_spec(b, a),
{
}

/// Merging is associative: a fold over boxes yields the same union however
/// the merges are grouped.
pub proof fn lemma_merge_associative(a: BoundingBox, b: BoundingBox, c: BoundingBox)
    ensures
        merge_spec(merge_spec(a, b), c) == merge_spec(a, merge_spec(b, c)),
{
}

/// Merging is idempotent: a box merged with itself is unchanged.
pub proof fn lemma_merge_idempotent(b: BoundingBox)
    ensures
        merge_spec(b, b) == b,
{
}

} // verus!
