//! Vectors and 4x4 transform matrices over fixed-point scalars.
//!
//! Matrices are stored column-major, as sixteen fixed-point entries: the
//! entry for row `r`, column `c` lives at index `c * 4 + r`, and the
//! translation occupies indices 12..15.  Composition divides each
//! accumulated dot product by `FX_SCALE` (rounding toward zero) and clamps
//! it back into the stored range, so composing well-formed matrices always
//! yields a well-formed matrix.

use vstd::arithmetic::div_mod::lemma_div_multiples_vanish;
use vstd::prelude::*;

use crate::fx::{div_trunc, fx_clamp, fx_clamp_exec, fx_scale_down, FX_LIMIT, FX_SCALE};

verus! {

/// A point or direction in the fixed-point coordinate space.
#[derive(Clone, Copy, Debug, PartialEq, Eq, Structural)]
pub struct Vec3 {
    pub x: i64,
    pub y: i64,
    pub z: i64,
}

impl Vec3 {
    /// All coordinates lie in the stored fixed-point range.
    pub open spec fn wf(self) -> bool {
        &&& -FX_LIMIT <= self.x <= FX_LIMIT
        &&& -FX_LIMIT <= self.y <= FX_LIMIT
        &&& -FX_LIMIT <= self.z <= FX_LIMIT
    }

    pub fn new(x: i64, y: i64, z: i64) -> (v: Vec3)
        ensures
            v == (Vec3 { x, y, z }),
    {
        Vec3 { x, y, z }
    }

    /// Runtime check of the coordinate-range invariant.
    pub fn check_wf(&self) -> (b: bool)
        ensures
            b == self.wf(),
    {
        -FX_LIMIT <= self.x && self.x <= FX_LIMIT && -FX_LIMIT <= self.y && self.y <= FX_LIMIT
            && -FX_LIMIT <= self.z && self.z <= FX_LIMIT
    }
}

/// A 4x4 transform, column-major.
#[derive(Clone, Copy, Debug, PartialEq, Eq)]
pub struct Mat4 {
    pub m: [i64; 16],
}

impl View for Mat4 {
    type V = Seq<i64>;

    open spec fn view(&self) -> Seq<i64> {
        self.m@
    }
}

/// All sixteen entries lie in the stored fixed-point range.
pub open spec fn mat_wf(m: Seq<i64>) -> bool {
    &&& m.len() == 16
    &&& forall|i: int| 0 <= i < 16 ==> -FX_LIMIT <= #[trigger] m[i] <= FX_LIMIT
}

/// The identity transform: `FX_SCALE` on the diagonal.
pub open spec fn mat_identity() -> Seq<i64> {
    Seq::new(16, |i: int| if i == 0 || i == 5 || i == 10 || i == 15 { FX_SCALE } else { 0i64 })
}

/// Row `r`, column `c` of the product of `a` and `b`: the fixed-point dot
/// product of `a`'s row `r` with `b`'s column `c`, scaled back down and
/// clamped into the stored range.
pub open spec fn mat_mul_entry(a: Seq<i64>, b: Seq<i64>, r: int, c: int) -> i64 {
    fx_clamp(
        div_trunc(
            a[r] * b[4 * c] + a[4 + r] * b[4 * c + 1] + a[8 + r] * b[4 * c + 2] + a[12 + r] * b[4
                * c + 3],
            FX_SCALE as int,
        ),
    )
}

/// The composition `a * b` (apply `b` first, then `a`).
pub open spec fn mat_mul(a: Seq<i64>, b: Seq<i64>) -> Seq<i64> {
    Seq::new(16, |i: int| mat_mul_entry(a, b, i % 4, i / 4))
}

/// A uniform scale by the fixed-point factor `s`.
pub open spec fn mat_scaling(s: i64) -> Seq<i64> {
    Seq::new(
        16,
        |i: int|
            if i == 0 || i == 5 || i == 10 {
                s
            } else if i == 15 {
                FX_SCALE
            } else {
                0i64
            },
    )
}

/// A translation by `(x, y, z)`.
pub open spec fn mat_translation(x: i64, y: i64, z: i64) -> Seq<i64> {
    Seq::new(
        16,
        |i: int|
            if i == 0 || i == 5 || i == 10 || i == 15 {
                FX_SCALE
            } else if i == 12 {
                x
            } else if i == 13 {
                y
            } else if i == 14 {
                z
            } else {
                0i64
            },
    )
}

/// The point `p` carried through the affine transform `m` (with implied
/// homogeneous coordinate 1): linear part scaled back down, then the
/// translation column added, then clamped.
pub open spec fn transform_point_spec(m: Seq<i64>, p: Vec3) -> Vec3 {
    Vec3 {
        x: fx_clamp(div_trunc(m[0] * p.x + m[4] * p.y + m[8] * p.z, FX_SCALE as int) + m[12]),
        y: fx_clamp(div_trunc(m[1] * p.x + m[5] * p.y + m[9] * p.z, FX_SCALE as int) + m[13]),
        z: fx_clamp(div_trunc(m[2] * p.x + m[6] * p.y + m[10] * p.z, FX_SCALE as int) + m[14]),
    }
}

/// Scaling a value up by `FX_SCALE` and dividing it back down returns
/// the value exactly, whatever its sign.
proof fn lemma_scale_round_trip(x: int)
    ensures
        div_trunc(FX_SCALE * x, FX_SCALE as int) == x,
{
    if x >= 0 {
        lemma_div_multiples_vanish(x, FX_SCALE as int);
    } else {
        lemma_div_multiples_vanish(-x, FX_SCALE as int);
        assert(-(FX_SCALE * x) == FX_SCALE * (-x));
    }
}

/// Composing the identity with a well-formed transform returns that
/// transform unchanged: the fixed-point scaling divides out exactly and
/// no entry is clamped.
pub proof fn lemma_mat_mul_identity_left(m: Seq<i64>)
    requires
        mat_wf(m),
    ensures
        mat_mul(mat_identity(), m) == m,
{
    let p = mat_mul(mat_identity(), m);
    let ident = mat_identity();
    assert forall|i: int| 0 <= i < 16 implies p[i] == m[i] by {
        let r = i % 4;
        let c = i / 4;
        assert(4 * c + r == i);
        assert(p[i] == mat_mul_entry(ident, m, r, c));
        assert(ident[r] == (if r == 0 { FX_SCALE } else { 0i64 }));
        assert(ident[4 + r] == (if r == 1 { FX_SCALE } else { 0i64 }));
        assert(ident[8 + r] == (if r == 2 { FX_SCALE } else { 0i64 }));
        assert(ident[12 + r] == (if r == 3 { FX_SCALE } else { 0i64 }));
        let x = m[4 * c + r];
        assert(ident[r] * m[4 * c] + ident[4 + r] * m[4 * c + 1] + ident[8 + r] * m[4 * c + 2]
            + ident[12 + r] * m[4 * c + 3] == FX_SCALE * x);
        lemma_scale_round_trip(x as int);
        assert(fx_clamp(x as int) == x);
    }
    assert(p =~= m);
}

proof fn lemma_prod_bound(x: int, y: int, l: int)
    by (nonlinear_arith)
    requires
        -l <= x <= l,
        -l <= y <= l,
        0 <= l,
    ensures
        -(l * l) <= x * y <= l * l,
{
}

/// One entry of the matrix product, computed in wide arithmetic.
fn mul_entry_exec(a: &Mat4, b: &Mat4, r: usize, c: usize) -> (e: i64)
    requires
        mat_wf(a@),
        mat_wf(b@),
        r < 4,
        c < 4,
    ensures
        e == mat_mul_entry(a@, b@, r as int, c as int),
{
    proof {
        lemma_prod_bound(a@[r as int] as int, b@[4 * c] as int, FX_LIMIT as int);
        lemma_prod_bound(a@[4 + r] as int, b@[4 * c + 1] as int, FX_LIMIT as int);
        lemma_prod_bound(a@[8 + r] as int, b@[4 * c + 2] as int, FX_LIMIT as int);
        lemma_prod_bound(a@[12 + r] as int, b@[4 * c + 3] as int, FX_LIMIT as int);
    }
    let dot: i128 = (a.m[r] as i128) * (b.m[4 * c] as i128) + (a.m[4 + r] as i128) * (b.m[4 * c + 1]
        as i128) + (a.m[8 + r] as i128) * (b.m[4 * c + 2] as i128) + (a.m[12 + r] as i128) * (b.m[4
        * c + 3] as i128);
    fx_clamp_exec(fx_scale_down(dot))
}

impl Mat4 {
    /// All entries lie in the stored fixed-point range.
    pub open spec fn wf(self) -> bool {
        mat_wf(self@)
    }

    /// Runtime check of the entry-range invariant.
    pub fn check_wf(&self) -> (b: bool)
        ensures
            b == self.wf(),
    {
        let mut i: usize = 0;
        while i < 16
            invariant
                i <= 16,
                forall|j: int| 0 <= j < i ==> -FX_LIMIT <= #[trigger] self.m@[j] <= FX_LIMIT,
            decreases 16 - i,
        {
            if self.m[i] < -FX_LIMIT || self.m[i] > FX_LIMIT {
                return false;
            }
            i += 1;
        }
        true
    }

    /// The identity transform.
    pub fn identity() -> (r: Mat4)
        ensures
            r@ == mat_identity(),
            r.wf(),
    {
        let r = Mat4 { m: [FX_SCALE, 0, 0, 0, 0, FX_SCALE, 0, 0, 0, 0, FX_SCALE, 0, 0, 0, 0, FX_SCALE] };
        proof {
            assert(r@ =~= mat_identity());
        }
        r
    }

    /// A uniform scale by the fixed-point factor `s`.
    pub fn scaling(s: i64) -> (r: Mat4)
        requires
            -FX_LIMIT <= s <= FX_LIMIT,
        ensures
            r@ == mat_scaling(s),
            r.wf(),
    {
        let r = Mat4 { m: [s, 0, 0, 0, 0, s, 0, 0, 0, 0, s, 0, 0, 0, 0, FX_SCALE] };
        proof {
            assert(r@ =~= mat_scaling(s));
        }
        r
    }

    /// A translation by `(x, y, z)`.
    pub fn translation(x: i64, y: i64, z: i64) -> (r: Mat4)
        requires
            -FX_LIMIT <= x <= FX_LIMIT,
            -FX_LIMIT <= y <= FX_LIMIT,
            -FX_LIMIT <= z <= FX_LIMIT,
        ensures
            r@ == mat_translation(x, y, z),
            r.wf(),
    {
        let r = Mat4 {
            m: [FX_SCALE, 0, 0, 0, 0, FX_SCALE, 0, 0, 0, 0, FX_SCALE, 0, x, y, z, FX_SCALE],
        };
        proof {
            assert(r@ =~= mat_translation(x, y, z));
        }
        r
    }

    /// Build a matrix from sixteen column-major entries; rejected when some
    /// entry falls outside the stored range.
    pub fn from_entries(entries: &[i64; 16]) -> (r: Option<Mat4>)
        ensures
            r is Some <==> mat_wf(entries@),
            r is Some ==> r->Some_0@ == entries@ && r->Some_0.wf(),
    {
        let mut i: usize = 0;
        while i < 16
            invariant
                i <= 16,
                forall|j: int| 0 <= j < i ==> -FX_LIMIT <= #[trigger] entries@[j] <= FX_LIMIT,
            decreases 16 - i,
        {
            if entries[i] < -FX_LIMIT || entries[i] > FX_LIMIT {
                return None;
            }
            i += 1;
        }
        Some(Mat4 { m: *entries })
    }

    /// The composition `self * other` (apply `other` first, then `self`).
    pub fn compose(&self, other: &Mat4) -> (r: Mat4)
        requires
            self.wf(),
            other.wf(),
        ensures
            r@ == mat_mul(self@, other@),
            r.wf(),
    {
        let e00 = mul_entry_exec(self, other, 0, 0);
        let e10 = mul_entry_exec(self, other, 1, 0);
        let e20 = mul_entry_exec(self, other, 2, 0);
        let e30 = mul_entry_exec(self, other, 3, 0);
        let e01 = mul_entry_exec(self, other, 0, 1);
        let e11 = mul_entry_exec(self, other, 1, 1);
        let e21 = mul_entry_exec(self, other, 2, 1);
        let e31 = mul_entry_exec(self, other, 3, 1);
        let e02 = mul_entry_exec(self, other, 0, 2);
        let e12 = mul_entry_exec(self, other, 1, 2);
        let e22 = mul_entry_exec(self, other, 2, 2);
        let e32 = mul_entry_exec(self, other, 3, 2);
        let e03 = mul_entry_exec(self, other, 0, 3);
        let e13 = mul_entry_exec(self, other, 1, 3);
        let e23 = mul_entry_exec(self, other, 2, 3);
        let e33 = mul_entry_exec(self, other, 3, 3);
        let r = Mat4 {
            m: [
                e00,
                e10,
                e20,
                e30,
                e01,
                e11,
                e21,
                e31,
                e02,
                e12,
                e22,
                e32,
                e03,
                e13,
                e23,
                e33,
            ],
        };
        proof {
            assert(r@ =~= mat_mul(self@, other@));
        }
        r
    }

    /// Carry the point `p` through this affine transform.
    pub fn transform_point(&self, p: &Vec3) -> (r: Vec3)
        requires
            self.wf(),
            p.wf(),
        ensures
            r == transform_point_spec(self@, *p),
            r.wf(),
    {
        proof {
            lemma_prod_bound(self@[0] as int, p.x as int, FX_LIMIT as int);
            lemma_prod_bound(self@[4] as int, p.y as int, FX_LIMIT as int);
            lemma_prod_bound(self@[8] as int, p.z as int, FX_LIMIT as int);
            lemma_prod_bound(self@[1] as int, p.x as int, FX_LIMIT as int);
            lemma_prod_bound(self@[5] as int, p.y as int, FX_LIMIT as int);
            lemma_prod_bound(self@[9] as int, p.z as int, FX_LIMIT as int);
            lemma_prod_bound(self@[2] as int, p.x as int, FX_LIMIT as int);
            lemma_prod_bound(self@[6] as int, p.y as int, FX_LIMIT as int);
            lemma_prod_bound(self@[10] as int, p.z as int, FX_LIMIT as int);
        }
        let dx: i128 = (self.m[0] as i128) * (p.x as i128) + (self.m[4] as i128) * (p.y as i128) + (
        self.m[8] as i128) * (p.z as i128);
        let dy: i128 = (self.m[1] as i128) * (p.x as i128) + (self.m[5] as i128) * (p.y as i128) + (
        self.m[9] as i128) * (p.z as i128);
        let dz: i128 = (self.m[2] as i128) * (p.x as i128) + (self.m[6] as i128) * (p.y as i128) + (
        self.m[10] as i128) * (p.z as i128);
        let x = fx_clamp_exec(fx_scale_down(dx) + (self.m[12] as i128));
        let y = fx_clamp_exec(fx_scale_down(dy) + (self.m[13] as i128));
        let z = fx_clamp_exec(fx_scale_down(dz) + (self.m[14] as i128));
        Vec3 { x, y, z }
    }
}

} // verus!
