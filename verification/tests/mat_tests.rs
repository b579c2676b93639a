use webgpu_sandbox::fx::{FX_LIMIT, FX_SCALE};
use webgpu_sandbox::mat::{Mat4, Vec3};

#[test]
fn identity_composes_as_neutral_element() {
    let t = Mat4::translation(123, -456, 789);
    assert_eq!(Mat4::identity().compose(&t), t);
    assert_eq!(t.compose(&Mat4::identity()), t);
}

#[test]
fn compose_applies_right_transform_first() {
    let scale = Mat4::scaling(2 * FX_SCALE);
    let shift = Mat4::translation(FX_SCALE, 0, 0);
    // Scaling after shifting doubles the translation as well.
    let scale_then_shift = scale.compose(&shift);
    let p = scale_then_shift.transform_point(&Vec3::new(0, 0, 0));
    assert_eq!(p, Vec3::new(2 * FX_SCALE, 0, 0));
    // Shifting after scaling leaves the translation untouched.
    let shift_then_scale = shift.compose(&scale);
    let q = shift_then_scale.transform_point(&Vec3::new(0, 0, 0));
    assert_eq!(q, Vec3::new(FX_SCALE, 0, 0));
}

#[test]
fn transform_point_applies_linear_part_and_translation() {
    let m = Mat4::scaling(3 * FX_SCALE).compose(&Mat4::translation(10, 20, 30));
    let p = m.transform_point(&Vec3::new(FX_SCALE, 0, -FX_SCALE));
    assert_eq!(p, Vec3::new(3 * FX_SCALE + 30, 60, -3 * FX_SCALE + 90));
}

#[test]
fn from_entries_rejects_out_of_range_entries() {
    let mut entries = [0i64; 16];
    entries[0] = FX_LIMIT + 1;
    assert!(Mat4::from_entries(&entries).is_none());
    entries[0] = FX_LIMIT;
    assert!(Mat4::from_entries(&entries).is_some());
}

#[test]
fn check_wf_detects_range_violations() {
    let good = Mat4::identity();
    assert!(good.check_wf());
    let bad = Mat4 { m: [0, 0, 0, 0, 0, -FX_LIMIT - 5, 0, 0, 0, 0, 0, 0, 0, 0, 0, 0] };
    assert!(!bad.check_wf());
}
