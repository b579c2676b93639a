use webgpu_sandbox::bbox::BoundingBox;
use webgpu_sandbox::fx::{FX_LIMIT, FX_SCALE};
use webgpu_sandbox::mat::{Mat4, Vec3};

fn boxed(min: (i64, i64, i64), max: (i64, i64, i64)) -> BoundingBox {
    BoundingBox::new(Vec3::new(min.0, min.1, min.2), Vec3::new(max.0, max.1, max.2))
}

#[test]
fn merge_takes_componentwise_extremes() {
    let a = boxed((-10, 0, 5), (20, 30, 40));
    let b = boxed((-5, -8, 7), (15, 60, 12));
    let merged = BoundingBox::merge(&a, &b);
    assert_eq!(merged.min(), Vec3::new(-10, -8, 5));
    assert_eq!(merged.max(), Vec3::new(20, 60, 40));
}

#[test]
fn merge_is_commutative() {
    let a = boxed((-10, 0, 5), (20, 30, 40));
    let b = boxed((-5, -8, 7), (15, 60, 12));
    assert_eq!(BoundingBox::merge(&a, &b), BoundingBox::merge(&b, &a));
}

#[test]
fn merge_is_associative() {
    let a = boxed((-10, 0, 5), (20, 30, 40));
    let b = boxed((-5, -8, 7), (15, 60, 12));
    let c = boxed((-99, 44, -3), (2, 45, 100));
    let left = BoundingBox::merge(&BoundingBox::merge(&a, &b), &c);
    let right = BoundingBox::merge(&a, &BoundingBox::merge(&b, &c));
    assert_eq!(left, right);
}

#[test]
fn merge_is_idempotent() {
    let b = boxed((-5, -8, 7), (15, 60, 12));
    assert_eq!(BoundingBox::merge(&b, &b), b);
}

#[test]
fn transform_by_translation_shifts_both_corners() {
    let b = boxed((0, 0, 0), (FX_SCALE, FX_SCALE, FX_SCALE));
    let t = Mat4::translation(100, -200, 300);
    let moved = b.transform(&t);
    assert_eq!(moved.min(), Vec3::new(100, -200, 300));
    assert_eq!(moved.max(), Vec3::new(FX_SCALE + 100, FX_SCALE - 200, FX_SCALE + 300));
}

#[test]
fn transform_by_uniform_scale_scales_both_corners() {
    let b = boxed((-FX_SCALE, 0, FX_SCALE), (FX_SCALE, 2 * FX_SCALE, 3 * FX_SCALE));
    let s = Mat4::scaling(2 * FX_SCALE);
    let scaled = b.transform(&s);
    assert_eq!(scaled.min(), Vec3::new(-2 * FX_SCALE, 0, 2 * FX_SCALE));
    assert_eq!(scaled.max(), Vec3::new(2 * FX_SCALE, 4 * FX_SCALE, 6 * FX_SCALE));
}

#[test]
fn transform_clamps_into_coordinate_range() {
    let b = boxed((0, 0, 0), (FX_LIMIT, FX_LIMIT, FX_LIMIT));
    let s = Mat4::scaling(4 * FX_SCALE);
    let scaled = b.transform(&s);
    assert_eq!(scaled.max(), Vec3::new(FX_LIMIT, FX_LIMIT, FX_LIMIT));
}
